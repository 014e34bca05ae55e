//! Facts about the telemetry module itself.
use super::metric::BootReason;
use vstd::prelude::*;

verus! {

/// Why the board started, from the two flags of the watchdog's reason
/// register: a forced reset wins over a watchdog timeout.
pub fn boot_reason(forced: bool, timer: bool) -> (r: BootReason)
    ensures
        r == if forced {
            BootReason::WatchdogForced
        } else if timer {
            BootReason::WatchdogTimeout
        } else {
            BootReason::Normal
        },
{
    if forced {
        BootReason::WatchdogForced
    } else if timer {
        BootReason::WatchdogTimeout
    } else {
        BootReason::Normal
    }
}

/// The text shown on the display for a boot reason.
pub fn boot_reason_label(r: BootReason) -> (s: &'static str)
    ensures
        s@ == match r {
            BootReason::WatchdogForced => "Forced Reset"@,
            BootReason::WatchdogTimeout => "Watchdog Timeout"@,
            BootReason::Normal => "Normal"@,
        },
{
    match r {
        BootReason::WatchdogForced => "Forced Reset",
        BootReason::WatchdogTimeout => "Watchdog Timeout",
        BootReason::Normal => "Normal",
    }
}

/// The network link: when it last changed (in ticks of the system clock),
/// and whether it has an address.
#[derive(Clone, Copy, Debug)]
pub struct LinkState {
    pub last_changed: Option<u64>,
    pub has_ipv4_config: bool,
}

impl LinkState {
    /// A link that never came up.
    pub fn new() -> (l: Self)
        ensures
            l.last_changed is None,
            !l.has_ipv4_config,
    {
        LinkState { last_changed: None, has_ipv4_config: false }
    }

    /// How long ago, at `now`, the link last changed; a link that never
    /// changed counts from the start of the clock.
    pub fn age(&self, now: u64) -> (a: u64)
        requires
            self.last_changed matches Some(t) ==> t <= now,
        ensures
            a == match self.last_changed {
                Some(t) => (now - t) as u64,
                None => now,
            },
    {
        match self.last_changed {
            Some(t) => now - t,
            None => now,
        }
    }

    /// The link came up at `now` with an address.
    pub fn connected(&mut self, now: u64)
        ensures
            final(self).last_changed == Some(now),
            final(self).has_ipv4_config,
    {
        self.last_changed = Some(now);
        self.has_ipv4_config = true;
    }

    /// The link went down at `now`.
    pub fn disconnected(&mut self, now: u64)
        ensures
            final(self).last_changed == Some(now),
            !final(self).has_ipv4_config,
    {
        self.last_changed = Some(now);
        self.has_ipv4_config = false;
    }

    /// Whether the module is ready to forward telemetry: it has an address.
    pub fn is_ready(&self) -> (r: bool)
        ensures
            r == self.has_ipv4_config,
    {
        self.has_ipv4_config
    }
}

/// How long ago (in milliseconds) the string registry last changed, or zero
/// where the clock reads earlier than the change.
pub fn string_registry_last_modification_age_ms(now_ms: u64, last_modified_ms: u64) -> (a: u64)
    ensures
        a == if now_ms >= last_modified_ms {
            (now_ms - last_modified_ms) as u64
        } else {
            0
        },
{
    now_ms.saturating_sub(last_modified_ms)
}

/// The clock that the time-synchronisation client stamps its requests with:
/// it reads zero, as the module has no wall time before the first
/// synchronisation.
#[derive(Clone, Copy, Debug, PartialEq, Eq, Structural)]
pub struct TimestampGen {
    wall_time_micros: u64,
}

impl TimestampGen {
    pub closed spec fn micros(self) -> u64 {
        self.wall_time_micros
    }

    pub fn new() -> (g: Self)
        ensures
            g.micros() == 0,
    {
        TimestampGen { wall_time_micros: 0 }
    }

    pub fn init(&mut self)
        ensures
            final(self).micros() == 0,
    {
        self.wall_time_micros = 0;
    }

    /// Whole seconds of the clock.
    pub fn timestamp_sec(&self) -> (s: u64)
        ensures
            s == self.micros() / 1_000_000,
    {
        self.wall_time_micros / 1_000_000
    }

    /// Microseconds of the clock past the whole second.
    pub fn timestamp_subsec_micros(&self) -> (s: u32)
        ensures
            s == self.micros() % 1_000_000,
    {
        (self.wall_time_micros % 1_000_000) as u32
    }
}

} // verus!
