use super::client::{call_record, request_ack_outcome, response_outcome};
use super::message::{millis_duration, next_seq, Error, RpcMessage, RpcMessageKind, ACK_TIMEOUT_MILLIS};
use super::server::{request_outcome, respond_record, response_ack_outcome, wait_record};
use super::transport::TransportCall;
use vstd::prelude::*;

verus! {

/// The sequence number after `k` requests that started from `seq`.
pub open spec fn seq_after(seq: u32, k: nat) -> u32
    decreases k,
{
    if k == 0 {
        seq
    } else {
        next_seq(seq_after(seq, (k - 1) as nat))
    }
}

/// An exchange in which both sides behave completes on both sides: the
/// server hands out the client's payload under the client's sequence number,
/// its acknowledgement satisfies the client, the client hands out the
/// server's response payload, and the client's acknowledgement of it
/// satisfies the server.
pub proof fn lemma_exchange_completes<REQ, RESP>(seq: u32, request: REQ, response: RESP)
    ensures
        request_outcome(
            Ok::<RpcMessage<REQ, RESP>, Error>(
                RpcMessage { seq, kind: RpcMessageKind::Request { payload: request } },
            ),
        ) == Ok::<(REQ, u32), Error>((request, seq)),
        request_ack_outcome(
            seq,
            Ok::<RpcMessage<REQ, RESP>, Error>(RpcMessage { seq, kind: RpcMessageKind::RequestAck }),
        ) == Ok::<(), Error>(()),
        response_outcome(
            seq,
            Ok::<RpcMessage<REQ, RESP>, Error>(
                RpcMessage { seq, kind: RpcMessageKind::Response { payload: response } },
            ),
        ) == Ok::<RESP, Error>(response),
        response_ack_outcome(
            seq,
            Ok::<RpcMessage<REQ, RESP>, Error>(RpcMessage { seq, kind: RpcMessageKind::ResponseAck }),
        ) == Ok::<(), Error>(()),
{
}

/// A call hands out `payload` exactly when the stale bytes were drained, its
/// request went out under the next sequence number, the acknowledgement and
/// then the response carrying `payload` came back under that same number,
/// and its own acknowledgement of the response went out.
pub proof fn lemma_call_succeeds_exactly<REQ, RESP>(
    seq: u32,
    request: REQ,
    timeout: core::time::Duration,
    calls: Seq<TransportCall<RpcMessage<REQ, RESP>>>,
    r: Result<RESP, Error>,
    payload: RESP,
)
    requires
        call_record(seq, request, timeout, calls, r),
    ensures
        r == Ok::<RESP, Error>(payload) <==> {
            let s = next_seq(seq);
            &&& calls.len() == 5
            &&& calls[0] matches TransportCall::Flush(_, Ok(_))
            &&& calls[1] matches TransportCall::Transmit(request_sent, Ok(_))
            &&& request_sent
                == RpcMessage::<REQ, RESP> { seq: s, kind: RpcMessageKind::Request { payload: request } }
            &&& calls[2] == TransportCall::Receive(
                millis_duration(ACK_TIMEOUT_MILLIS),
                Ok::<RpcMessage<REQ, RESP>, Error>(RpcMessage { seq: s, kind: RpcMessageKind::RequestAck }),
            )
            &&& calls[3] == TransportCall::Receive(
                timeout,
                Ok::<RpcMessage<REQ, RESP>, Error>(
                    RpcMessage { seq: s, kind: RpcMessageKind::Response { payload } },
                ),
            )
            &&& calls[4] matches TransportCall::Transmit(ack_sent, Ok(_))
            &&& ack_sent == RpcMessage::<REQ, RESP> { seq: s, kind: RpcMessageKind::ResponseAck }
        },
{
}

/// Waiting for a request hands out `payload` exactly when a request carrying
/// it arrived within the timeout and its acknowledgement, under the
/// request's sequence number, went out.
pub proof fn lemma_wait_succeeds_exactly<REQ, RESP>(
    timeout: core::time::Duration,
    calls: Seq<TransportCall<RpcMessage<REQ, RESP>>>,
    r: Result<REQ, Error>,
    payload: REQ,
)
    requires
        wait_record(timeout, calls, r),
    ensures
        r == Ok::<REQ, Error>(payload) <==> exists|seq: u32| {
            &&& calls.len() == 2
            &&& calls[0] == TransportCall::Receive(
                timeout,
                Ok::<RpcMessage<REQ, RESP>, Error>(
                    RpcMessage { seq, kind: RpcMessageKind::Request { payload } },
                ),
            )
            &&& calls[1] matches TransportCall::Transmit(ack_sent, Ok(_))
            &&& ack_sent == RpcMessage::<REQ, RESP> { seq, kind: RpcMessageKind::RequestAck }
        },
{
    if r == Ok::<REQ, Error>(payload) {
        let seq = calls[0]->Receive_1->Ok_0.seq;
        assert(calls[0] == TransportCall::Receive(
            timeout,
            Ok::<RpcMessage<REQ, RESP>, Error>(
                RpcMessage { seq, kind: RpcMessageKind::Request { payload } },
            ),
        ));
    }
}

/// Responding to request `seq` succeeds exactly when the response went out
/// and the acknowledgement of `seq` came back in time.
pub proof fn lemma_respond_succeeds_exactly<REQ, RESP>(
    seq: u32,
    response: RESP,
    calls: Seq<TransportCall<RpcMessage<REQ, RESP>>>,
    r: Result<(), Error>,
)
    requires
        respond_record(seq, response, calls, r),
    ensures
        r is Ok <==> {
            &&& calls.len() == 2
            &&& calls[0] matches TransportCall::Transmit(sent, Ok(_))
            &&& sent == RpcMessage::<REQ, RESP> { seq, kind: RpcMessageKind::Response { payload: response } }
            &&& calls[1] == TransportCall::Receive(
                millis_duration(ACK_TIMEOUT_MILLIS),
                Ok::<RpcMessage<REQ, RESP>, Error>(RpcMessage { seq, kind: RpcMessageKind::ResponseAck }),
            )
        },
{
    if calls.len() == 2 {
        if let TransportCall::Receive(_, received) = calls[1] {
            lemma_ack_belongs_to_exchange::<REQ, RESP>(seq, received);
        }
    }
}

/// The client hands out a payload only from a response that carries the
/// sequence number of its own request: a message left over from another
/// exchange is never taken for the answer.
pub proof fn lemma_response_belongs_to_request<REQ, RESP>(
    seq: u32,
    received: Result<RpcMessage<REQ, RESP>, Error>,
    payload: RESP,
)
    requires
        response_outcome(seq, received) == Ok::<RESP, Error>(payload),
    ensures
        received == Ok::<RpcMessage<REQ, RESP>, Error>(
            RpcMessage { seq, kind: RpcMessageKind::Response { payload } },
        ),
{
    match received {
        Ok(msg) => {
            match msg.kind {
                RpcMessageKind::Response { payload: p } => {},
                _ => {},
            }
        },
        Err(_) => {},
    }
}

/// Each side accepts an acknowledgement only for its own exchange, and only
/// of the kind it waits for.
pub proof fn lemma_ack_belongs_to_exchange<REQ, RESP>(
    seq: u32,
    received: Result<RpcMessage<REQ, RESP>, Error>,
)
    ensures
        request_ack_outcome(seq, received) is Ok ==> received == Ok::<RpcMessage<REQ, RESP>, Error>(
            RpcMessage { seq, kind: RpcMessageKind::RequestAck },
        ),
        response_ack_outcome(seq, received) is Ok ==> received == Ok::<RpcMessage<REQ, RESP>, Error>(
            RpcMessage { seq, kind: RpcMessageKind::ResponseAck },
        ),
{
}

/// Waiting for an acknowledgement ends in `NoAck` whenever nothing usable
/// arrived, a timeout included.
pub proof fn lemma_missing_ack_is_no_ack<REQ, RESP>(seq: u32, e: Error)
    ensures
        request_ack_outcome(seq, Err::<RpcMessage<REQ, RESP>, Error>(e)) == Err::<(), Error>(
            Error::NoAck,
        ),
        response_ack_outcome(seq, Err::<RpcMessage<REQ, RESP>, Error>(e)) == Err::<(), Error>(
            Error::NoAck,
        ),
{
}

/// Sequence numbers count up by one per request and wrap around: after `k`
/// requests the number is `seq + k` modulo 2^32.
pub proof fn lemma_seq_after(seq: u32, k: nat)
    ensures
        seq_after(seq, k) == (seq + k) % 0x1_0000_0000,
    decreases k,
{
    if k > 0 {
        lemma_seq_after(seq, (k - 1) as nat);
        let prev = seq_after(seq, (k - 1) as nat);
        assert(prev == (seq + k - 1) % 0x1_0000_0000);
        if prev == u32::MAX {
            assert((seq + k - 1) % 0x1_0000_0000 == 0xffff_ffff);
            assert((seq + k) % 0x1_0000_0000 == 0) by (nonlinear_arith)
                requires
                    (seq + k - 1) % 0x1_0000_0000 == 0xffff_ffff,
                    k > 0,
                    seq >= 0,
            ;
        } else {
            assert((seq + k) % 0x1_0000_0000 == (seq + k - 1) % 0x1_0000_0000 + 1) by (nonlinear_arith)
                requires
                    (seq + k - 1) % 0x1_0000_0000 < 0xffff_ffff,
                    k > 0,
                    seq >= 0,
            ;
        }
    }
}

/// Fewer than 2^32 requests after one, no request reuses its sequence number.
pub proof fn lemma_seq_fresh(seq: u32, k: nat)
    requires
        0 < k < 0x1_0000_0000,
    ensures
        seq_after(seq, k) != seq,
{
    lemma_seq_after(seq, k);
    assert((seq + k) % 0x1_0000_0000 != seq) by (nonlinear_arith)
        requires
            0 < k < 0x1_0000_0000,
            0 <= seq < 0x1_0000_0000,
    ;
}

/// Refusals say why: an acknowledgement of the wrong kind is refused as
/// such whatever its number, one of the right kind under another number
/// reports both numbers; a response under another number reports both
/// numbers whatever its kind, and a message under the right number that is
/// no response is refused as of the wrong kind; a server waiting for a
/// request refuses any other kind of message as of the wrong kind, and a
/// failure to receive a response or a request is handed on as it came.
pub proof fn lemma_refusals_say_why<REQ, RESP>(seq: u32, msg: RpcMessage<REQ, RESP>, e: Error)
    ensures
        !(msg.kind is RequestAck) ==> request_ack_outcome(seq, Ok::<RpcMessage<REQ, RESP>, Error>(msg))
            == Err::<(), Error>(Error::IncorrectMessageType),
        msg.kind is RequestAck && msg.seq != seq ==> request_ack_outcome(
            seq,
            Ok::<RpcMessage<REQ, RESP>, Error>(msg),
        ) == Err::<(), Error>(Error::IncorrectSequenceNumber { expected: seq, actual: msg.seq }),
        !(msg.kind is ResponseAck) ==> response_ack_outcome(seq, Ok::<RpcMessage<REQ, RESP>, Error>(msg))
            == Err::<(), Error>(Error::IncorrectMessageType),
        msg.kind is ResponseAck && msg.seq != seq ==> response_ack_outcome(
            seq,
            Ok::<RpcMessage<REQ, RESP>, Error>(msg),
        ) == Err::<(), Error>(Error::IncorrectSequenceNumber { expected: seq, actual: msg.seq }),
        msg.seq != seq ==> response_outcome(seq, Ok::<RpcMessage<REQ, RESP>, Error>(msg)) == Err::<
            RESP,
            Error,
        >(Error::IncorrectSequenceNumber { expected: seq, actual: msg.seq }),
        msg.seq == seq && !(msg.kind is Response) ==> response_outcome(
            seq,
            Ok::<RpcMessage<REQ, RESP>, Error>(msg),
        ) == Err::<RESP, Error>(Error::IncorrectMessageType),
        !(msg.kind is Request) ==> request_outcome(Ok::<RpcMessage<REQ, RESP>, Error>(msg)) == Err::<
            (REQ, u32),
            Error,
        >(Error::IncorrectMessageType),
        response_outcome(seq, Err::<RpcMessage<REQ, RESP>, Error>(e)) == Err::<RESP, Error>(e),
        request_outcome(Err::<RpcMessage<REQ, RESP>, Error>(e)) == Err::<(REQ, u32), Error>(e),
{
}

} // verus!
