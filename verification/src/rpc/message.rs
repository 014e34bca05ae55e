use vstd::prelude::*;

verus! {

/// What a message of an exchange is.
#[allow(inconsistent_fields)]
#[derive(Clone, Debug, PartialEq, Eq)]
pub enum RpcMessageKind<REQ, RESP> {
    Request { payload: REQ },
    RequestAck,
    Response { payload: RESP },
    ResponseAck,
}

/// A message on the wire: the sequence number of the exchange it belongs to,
/// and what it is.
#[derive(Clone, Debug, PartialEq, Eq)]
pub struct RpcMessage<REQ, RESP> {
    pub seq: u32,
    pub kind: RpcMessageKind<REQ, RESP>,
}

/// Why an exchange did not complete.
#[derive(Clone, Copy, Debug, PartialEq, Eq, Structural)]
pub enum Error {
    /// Nothing arrived in time.
    Timeout,
    /// The other side did not acknowledge what was sent.
    NoAck,
    /// A message arrived that is not the one the protocol expects next.
    IncorrectMessageType,
    /// A message arrived for another exchange.
    IncorrectSequenceNumber { expected: u32, actual: u32 },
    /// The server still owes a response to an earlier request.
    RequestAlreadyInProgress,
    /// The server has no request to respond to.
    NoRequestInProgress,
    /// The byte stream failed, closed, or carried a frame that could not be decoded.
    TransportError,
    /// A message could not be encoded.
    SerializeError,
    /// A frame could not be decoded into a message.
    DeserializeError,
}

/// The sequence number that follows `seq`: one more, wrapping to zero after
/// the largest `u32`.
pub open spec fn next_seq(seq: u32) -> u32 {
    if seq == u32::MAX {
        0
    } else {
        (seq + 1) as u32
    }
}

/// How long either side waits for an acknowledgement, in milliseconds.
pub const ACK_TIMEOUT_MILLIS: u64 = 100;

/// How long a client drains stale bytes before a request, in milliseconds.
pub const FLUSH_TIMEOUT_MILLIS: u64 = 5;

/// The duration of `millis` milliseconds, as `core::time::Duration::from_millis`
/// builds it.
pub uninterp spec fn millis_duration(millis: u64) -> core::time::Duration;

/// `core::time::Duration::from_millis`: its result is named `millis_duration`
/// of the argument; nothing more is claimed of it.
#[verifier::external_body]
pub(crate) fn duration_from_millis(millis: u64) -> (d: core::time::Duration)
    ensures
        d == millis_duration(millis),
{
    core::time::Duration::from_millis(millis)
}

} // verus!
