//! The front-panel button and what the status task does with it.
use vstd::prelude::*;

verus! {

/// What the user did with the button.
#[derive(Clone, Copy, Debug, PartialEq, Eq, Structural)]
pub enum UiEvent {
    ButtonPushed,
    ButtonPushedForALongTime,
}

/// A press must last longer than this, in microseconds, to count.
pub const PUSH_THRESHOLD_MICROS: u64 = 75_000;

/// A press that lasts longer than this, in microseconds, is a long press.
pub const LONG_PUSH_THRESHOLD_MICROS: u64 = 5_000_000;

/// How long the button ignores further presses after one counted, in
/// milliseconds.
pub const PUSH_HOLDOFF_MILLIS: u64 = 250;

/// What a press of `pressed_for_micros` microseconds means: a long press, a
/// press, or nothing (a bounce).
pub open spec fn press_meaning(pressed_for_micros: u64) -> Option<UiEvent> {
    if pressed_for_micros > LONG_PUSH_THRESHOLD_MICROS {
        Some(UiEvent::ButtonPushedForALongTime)
    } else if pressed_for_micros > PUSH_THRESHOLD_MICROS {
        Some(UiEvent::ButtonPushed)
    } else {
        None
    }
}

/// Judges a press from the times (in microseconds) the button went down and
/// came back up.
pub fn classify_press(down_micros: u64, up_micros: u64) -> (e: Option<UiEvent>)
    requires
        down_micros <= up_micros,
    ensures
        e == press_meaning((up_micros - down_micros) as u64),
{
    let pressed_for = up_micros - down_micros;
    if pressed_for > LONG_PUSH_THRESHOLD_MICROS {
        Some(UiEvent::ButtonPushedForALongTime)
    } else if pressed_for > PUSH_THRESHOLD_MICROS {
        Some(UiEvent::ButtonPushed)
    } else {
        None
    }
}

/// What wakes the status task.
#[derive(Clone, Copy, Debug, PartialEq, Eq, Structural)]
pub enum StatusEvent {
    /// The one-second timer expired.
    Tick,
    /// The user did something with the button.
    Ui(UiEvent),
}

/// What the status task does.
#[derive(Clone, Copy, Debug, PartialEq, Eq, Structural)]
pub enum StatusAction {
    /// Feed the watchdog and toggle the status LED.
    FeedWatchdogAndToggleLed,
    /// Reboot through the watchdog.
    Reboot,
    /// Nothing.
    Nothing,
}

/// The status task keeps the board alive while its timer runs, and reboots it
/// on a long press of the button.
pub fn status_step(event: StatusEvent) -> (a: StatusAction)
    ensures
        a == match event {
            StatusEvent::Tick => StatusAction::FeedWatchdogAndToggleLed,
            StatusEvent::Ui(UiEvent::ButtonPushedForALongTime) => StatusAction::Reboot,
            StatusEvent::Ui(UiEvent::ButtonPushed) => StatusAction::Nothing,
        },
{
    match event {
        StatusEvent::Tick => StatusAction::FeedWatchdogAndToggleLed,
        StatusEvent::Ui(UiEvent::ButtonPushedForALongTime) => StatusAction::Reboot,
        StatusEvent::Ui(UiEvent::ButtonPushed) => StatusAction::Nothing,
    }
}

/// Presses are ordered by length: a longer press never means less.
pub proof fn lemma_press_monotonic(a: u64, b: u64)
    requires
        a <= b,
    ensures
        press_meaning(a) is Some ==> press_meaning(b) is Some,
        press_meaning(a) == Some(UiEvent::ButtonPushedForALongTime) ==> press_meaning(b) == Some(
            UiEvent::ButtonPushedForALongTime,
        ),
{
}

/// A press of up to 75 ms is a bounce and means nothing; a press longer than
/// that and up to 5 s is a push; a longer one is a long push.
pub proof fn lemma_press_lengths(pressed_for_micros: u64)
    ensures
        pressed_for_micros <= 75_000 ==> press_meaning(pressed_for_micros) is None,
        75_000 < pressed_for_micros <= 5_000_000 ==> press_meaning(pressed_for_micros) == Some(
            UiEvent::ButtonPushed,
        ),
        5_000_000 < pressed_for_micros ==> press_meaning(pressed_for_micros) == Some(
            UiEvent::ButtonPushedForALongTime,
        ),
{
}

} // verus!
