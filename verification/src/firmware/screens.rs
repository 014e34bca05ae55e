use vstd::prelude::*;

verus! {

/// The screens the display can show, in the order the button steps through
/// them.
#[derive(Clone, Copy, Debug, PartialEq, Eq, Structural)]
pub enum Screen {
    AutoSummary,
    Summary,
    Monitors,
    Temperatures,
    Inputs,
    Outputs,
    Network,
    Device,
}

/// How many screens there are.
pub const NUM_SCREENS: usize = 8;

/// The screen at position `i` of the cycle.
pub open spec fn screen_at(i: int) -> Screen {
    if i == 0 {
        Screen::AutoSummary
    } else if i == 1 {
        Screen::Summary
    } else if i == 2 {
        Screen::Monitors
    } else if i == 3 {
        Screen::Temperatures
    } else if i == 4 {
        Screen::Inputs
    } else if i == 5 {
        Screen::Outputs
    } else if i == 6 {
        Screen::Network
    } else {
        Screen::Device
    }
}

/// The title shown for a screen.
pub open spec fn screen_name(s: Screen) -> Seq<char> {
    match s {
        Screen::AutoSummary => "Home"@,
        Screen::Summary => "Summary"@,
        Screen::Monitors => "Monitors"@,
        Screen::Temperatures => "Temperatures"@,
        Screen::Inputs => "Inputs"@,
        Screen::Outputs => "Outputs"@,
        Screen::Network => "Network"@,
        Screen::Device => "Device"@,
    }
}

impl Screen {
    /// The title shown for the screen.
    pub fn name(&self) -> (s: &'static str)
        ensures
            s@ == screen_name(*self),
    {
        match self {
            Screen::AutoSummary => "Home",
            Screen::Summary => "Summary",
            Screen::Monitors => "Monitors",
            Screen::Temperatures => "Temperatures",
            Screen::Inputs => "Inputs",
            Screen::Outputs => "Outputs",
            Screen::Network => "Network",
            Screen::Device => "Device",
        }
    }
}

/// The position after `i` in the cycle of screens.
pub open spec fn next_index(i: nat) -> nat {
    if i + 1 >= NUM_SCREENS {
        0
    } else {
        i + 1
    }
}

/// The position reached from `i` after `k` presses.
pub open spec fn index_after(i: nat, k: nat) -> nat
    decreases k,
{
    if k == 0 {
        i
    } else {
        next_index(index_after(i, (k - 1) as nat))
    }
}

/// How many presses lead from position `i` to position `j`.
pub open spec fn presses_to(i: nat, j: nat) -> nat {
    if j >= i {
        (j - i) as nat
    } else {
        (j + NUM_SCREENS - i) as nat
    }
}

/// Which screen the display shows.
pub struct ScreenSelector {
    selected_idx: usize,
}

impl ScreenSelector {
    #[verifier::type_invariant]
    spec fn inv(self) -> bool {
        self.selected_idx < NUM_SCREENS
    }

    /// The position of the shown screen in the cycle.
    pub closed spec fn index(self) -> nat {
        self.selected_idx as nat
    }

    /// A selector that shows the first screen.
    pub fn new() -> (s: Self)
        ensures
            s.index() == 0,
    {
        ScreenSelector { selected_idx: 0 }
    }

    pub fn num_screens() -> (n: usize)
        ensures
            n == NUM_SCREENS,
    {
        NUM_SCREENS
    }

    /// Moves on to the next screen, back to the first after the last.
    pub fn select_next(&mut self)
        ensures
            final(self).index() == next_index(old(self).index()),
    {
        proof {
            use_type_invariant(&*self);
        }
        let next = self.selected_idx + 1;
        self.selected_idx = if next >= NUM_SCREENS {
            0
        } else {
            next
        };
    }

    /// The screen shown.
    pub fn current_screen(&self) -> (s: Screen)
        ensures
            self.index() < NUM_SCREENS,
            s == screen_at(self.index() as int),
    {
        proof {
            use_type_invariant(self);
        }
        match self.selected_idx {
            0 => Screen::AutoSummary,
            1 => Screen::Summary,
            2 => Screen::Monitors,
            3 => Screen::Temperatures,
            4 => Screen::Inputs,
            5 => Screen::Outputs,
            6 => Screen::Network,
            _ => Screen::Device,
        }
    }

    /// The number of the shown screen, counting from one.
    pub fn current_screen_number(&self) -> (n: usize)
        ensures
            n == self.index() + 1,
            1 <= n <= NUM_SCREENS,
    {
        proof {
            use_type_invariant(self);
        }
        self.selected_idx + 1
    }
}

impl Default for ScreenSelector {
    fn default() -> (s: Self)
        ensures
            s.index() == 0,
    {
        ScreenSelector::new()
    }
}

/// Pressing the button as many times as there are screens brings back the
/// screen one started from, and every screen is shown on the way.
pub proof fn lemma_screens_cycle(i: nat)
    requires
        i < NUM_SCREENS,
    ensures
        index_after(i, NUM_SCREENS as nat) == i,
        forall|k: nat| 0 < k < NUM_SCREENS ==> #[trigger] index_after(i, k) != i,
        forall|j: nat|
            j < NUM_SCREENS ==> #[trigger] presses_to(i, j) < NUM_SCREENS && index_after(
                i,
                presses_to(i, j),
            ) == j,
{
    reveal_with_fuel(index_after, 9);
}

/// The positions of the screen cycle hold every screen exactly once.
pub proof fn lemma_screen_at_distinct(i: int, j: int)
    requires
        0 <= i < NUM_SCREENS,
        0 <= j < NUM_SCREENS,
        i != j,
    ensures
        screen_at(i) != screen_at(j),
{
}

/// Stepping through the screens from the first shows them with the titles
/// `Home`, `Summary`, `Monitors`, `Temperatures`, `Inputs`, `Outputs`,
/// `Network` and `Device`, in this order.
pub proof fn lemma_screen_titles_in_order(i: int)
    requires
        0 <= i < 8,
    ensures
        screen_name(screen_at(i)) == seq![
            "Home"@,
            "Summary"@,
            "Monitors"@,
            "Temperatures"@,
            "Inputs"@,
            "Outputs"@,
            "Network"@,
            "Device"@,
        ][i],
{
}

} // verus!
