//! How the module polls the machine controller for events.
use vstd::prelude::*;

verus! {

/// What came back from asking the controller for its oldest event.
#[derive(Clone, Copy, Debug, PartialEq, Eq, Structural)]
pub enum PollOutcome {
    /// An event came back.
    Event,
    /// The controller has no event waiting.
    NoEvent,
    /// The controller answered with a response of another kind.
    UnexpectedResponse,
    /// The exchange failed.
    RpcError,
}

/// Which counter a poll adds to.
#[derive(Clone, Copy, Debug, PartialEq, Eq, Structural)]
pub enum PollCount {
    Received,
    Failed,
    Neither,
}

/// When to poll again.
#[derive(Clone, Copy, Debug, PartialEq, Eq, Structural)]
pub enum NextPoll {
    /// Right away: more events may be waiting.
    Immediately,
    /// After the polling period.
    AfterPeriod,
}

/// What a poll leads to: an event is counted and more are asked for at once;
/// an empty answer waits for the next period; anything else counts as a
/// failure and waits too.
pub fn poll_step(outcome: PollOutcome) -> (r: (PollCount, NextPoll))
    ensures
        r == match outcome {
            PollOutcome::Event => (PollCount::Received, NextPoll::Immediately),
            PollOutcome::NoEvent => (PollCount::Neither, NextPoll::AfterPeriod),
            PollOutcome::UnexpectedResponse => (PollCount::Failed, NextPoll::AfterPeriod),
            PollOutcome::RpcError => (PollCount::Failed, NextPoll::AfterPeriod),
        },
{
    match outcome {
        PollOutcome::Event => (PollCount::Received, NextPoll::Immediately),
        PollOutcome::NoEvent => (PollCount::Neither, NextPoll::AfterPeriod),
        PollOutcome::UnexpectedResponse => (PollCount::Failed, NextPoll::AfterPeriod),
        PollOutcome::RpcError => (PollCount::Failed, NextPoll::AfterPeriod),
    }
}

} // verus!
