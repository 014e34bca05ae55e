use super::message::{duration_from_millis, millis_duration, next_seq, Error, RpcMessage,
    RpcMessageKind, ACK_TIMEOUT_MILLIS, FLUSH_TIMEOUT_MILLIS};
use super::transport::{answers, perform, performed, Next, Transport, TransportAction,
    TransportCall, TransportOutcome};
use core::marker::PhantomData;
use vstd::prelude::*;

verus! {

/// What the client makes of the message it waited for after sending request
/// `seq` (or of the failure to receive one): the request was acknowledged, or
/// the exchange fails. Any failure to receive counts as a missing
/// acknowledgement.
pub open spec fn request_ack_outcome<REQ, RESP>(
    seq: u32,
    received: Result<RpcMessage<REQ, RESP>, Error>,
) -> Result<(), Error> {
    match received {
        Ok(ack) => if !(ack.kind is RequestAck) {
            Err(Error::IncorrectMessageType)
        } else if ack.seq != seq {
            Err(Error::IncorrectSequenceNumber { expected: seq, actual: ack.seq })
        } else {
            Ok(())
        },
        Err(_) => Err(Error::NoAck),
    }
}

/// What the client makes of the message it waited for after request `seq`
/// was acknowledged: the payload of the response, or why there is none.
pub open spec fn response_outcome<REQ, RESP>(
    seq: u32,
    received: Result<RpcMessage<REQ, RESP>, Error>,
) -> Result<RESP, Error> {
    match received {
        Ok(resp) => if resp.seq != seq {
            Err(Error::IncorrectSequenceNumber { expected: seq, actual: resp.seq })
        } else {
            match resp.kind {
                RpcMessageKind::Response { payload } => Ok(payload),
                _ => Err(Error::IncorrectMessageType),
            }
        },
        Err(e) => Err(e),
    }
}

/// Whether `calls` are the transport calls that one `Client::call` of
/// `request`, with response timeout `timeout`, makes on a client whose latest
/// sequence number was `seq`, and `r` is what the call returns, given what
/// each of those transport calls gave back.
///
/// The client drains stale bytes for `FLUSH_TIMEOUT_MILLIS`, then runs the
/// exchange of the next sequence number.
pub open spec fn call_record<REQ, RESP>(
    seq: u32,
    request: REQ,
    timeout: core::time::Duration,
    calls: Seq<TransportCall<RpcMessage<REQ, RESP>>>,
    r: Result<RESP, Error>,
) -> bool {
    &&& calls.len() >= 1
    &&& calls[0] matches TransportCall::Flush(waited, flushed)
    &&& waited == millis_duration(FLUSH_TIMEOUT_MILLIS)
    &&& match flushed {
        Err(e) => calls.len() == 1 && r == Err::<RESP, Error>(e),
        Ok(_) => request_record(next_seq(seq), request, timeout, calls.drop_first(), r),
    }
}

/// The exchange of sequence number `seq` from its start: the request is sent.
pub open spec fn request_record<REQ, RESP>(
    seq: u32,
    request: REQ,
    timeout: core::time::Duration,
    calls: Seq<TransportCall<RpcMessage<REQ, RESP>>>,
    r: Result<RESP, Error>,
) -> bool {
    &&& calls.len() >= 1
    &&& calls[0] matches TransportCall::Transmit(sent, transmitted)
    &&& sent == RpcMessage::<REQ, RESP> { seq, kind: RpcMessageKind::Request { payload: request } }
    &&& match transmitted {
        Err(e) => calls.len() == 1 && r == Err::<RESP, Error>(e),
        Ok(_) => request_ack_record(seq, timeout, calls.drop_first(), r),
    }
}

/// The exchange of sequence number `seq` once its request is sent: the
/// client waits `ACK_TIMEOUT_MILLIS` for the acknowledgement.
pub open spec fn request_ack_record<REQ, RESP>(
    seq: u32,
    timeout: core::time::Duration,
    calls: Seq<TransportCall<RpcMessage<REQ, RESP>>>,
    r: Result<RESP, Error>,
) -> bool {
    &&& calls.len() >= 1
    &&& calls[0] matches TransportCall::Receive(waited, received)
    &&& waited == millis_duration(ACK_TIMEOUT_MILLIS)
    &&& match request_ack_outcome(seq, received) {
        Err(e) => calls.len() == 1 && r == Err::<RESP, Error>(e),
        Ok(_) => response_record(seq, timeout, calls.drop_first(), r),
    }
}

/// The exchange of sequence number `seq` once its request is acknowledged:
/// the client waits `timeout` for the response, and acknowledges it.
pub open spec fn response_record<REQ, RESP>(
    seq: u32,
    timeout: core::time::Duration,
    calls: Seq<TransportCall<RpcMessage<REQ, RESP>>>,
    r: Result<RESP, Error>,
) -> bool {
    &&& calls.len() >= 1
    &&& calls[0] matches TransportCall::Receive(waited, received)
    &&& waited == timeout
    &&& match response_outcome(seq, received) {
        Err(e) => calls.len() == 1 && r == Err::<RESP, Error>(e),
        Ok(payload) => {
            &&& calls.len() == 2
            &&& calls[1] matches TransportCall::Transmit(sent, transmitted)
            &&& sent == RpcMessage::<REQ, RESP> { seq, kind: RpcMessageKind::ResponseAck }
            &&& r == match transmitted {
                Err(e) => Err::<RESP, Error>(e),
                Ok(_) => Ok(payload),
            }
        },
    }
}

/// The protocol state of the side that sends requests: the sequence number
/// of its latest request.
pub struct ClientState {
    seq: u32,
}

impl ClientState {
    /// The sequence number of the latest request (zero before the first).
    pub closed spec fn seq(&self) -> u32 {
        self.seq
    }

    pub fn new() -> (c: Self)
        ensures
            c.seq() == 0,
    {
        ClientState { seq: 0 }
    }

    /// The sequence number of the latest request.
    pub fn sequence_number(&self) -> (s: u32)
        ensures
            s == self.seq(),
    {
        self.seq
    }

    /// Starts a new exchange: takes the next sequence number and builds the
    /// request message.
    pub fn begin_request<REQ, RESP>(&mut self, request: REQ) -> (msg: RpcMessage<REQ, RESP>)
        ensures
            final(self).seq() == next_seq(old(self).seq()),
            msg == (RpcMessage::<REQ, RESP> {
                seq: final(self).seq(),
                kind: RpcMessageKind::Request { payload: request },
            }),
    {
        self.seq = self.seq.wrapping_add(1);
        RpcMessage { seq: self.seq, kind: RpcMessageKind::Request { payload: request } }
    }

    /// Judges what arrived while waiting for the acknowledgement of the
    /// current request.
    pub fn check_request_ack<REQ, RESP>(
        &self,
        received: Result<RpcMessage<REQ, RESP>, Error>,
    ) -> (r: Result<(), Error>)
        ensures
            r == request_ack_outcome(self.seq(), received),
    {
        match received {
            Ok(ack) => {
                if !matches!(ack.kind, RpcMessageKind::RequestAck) {
                    Err(Error::IncorrectMessageType)
                } else if ack.seq != self.seq {
                    Err(Error::IncorrectSequenceNumber { expected: self.seq, actual: ack.seq })
                } else {
                    Ok(())
                }
            },
            Err(_) => Err(Error::NoAck),
        }
    }

    /// Judges what arrived while waiting for the response to the current
    /// request.
    pub fn check_response<REQ, RESP>(
        &self,
        received: Result<RpcMessage<REQ, RESP>, Error>,
    ) -> (r: Result<RESP, Error>)
        ensures
            r == response_outcome(self.seq(), received),
    {
        match received {
            Ok(resp) => {
                if resp.seq != self.seq {
                    Err(Error::IncorrectSequenceNumber { expected: self.seq, actual: resp.seq })
                } else {
                    match resp.kind {
                        RpcMessageKind::Response { payload } => Ok(payload),
                        _ => Err(Error::IncorrectMessageType),
                    }
                }
            },
            Err(e) => Err(e),
        }
    }

    /// The acknowledgement of the response to the current request.
    pub fn response_ack<REQ, RESP>(&self) -> (msg: RpcMessage<REQ, RESP>)
        ensures
            msg == (RpcMessage::<REQ, RESP> { seq: self.seq(), kind: RpcMessageKind::ResponseAck }),
    {
        RpcMessage { seq: self.seq, kind: RpcMessageKind::ResponseAck }
    }
}

/// Where a call stands: which transport call it waits on.
enum CallPhase<REQ, RESP> {
    /// Draining stale bytes; the request is still to be sent.
    Flushing { request: REQ },
    /// Sending the request.
    SendingRequest,
    /// Waiting for the acknowledgement of the request.
    AwaitingAck,
    /// Waiting for the response.
    AwaitingResponse,
    /// Acknowledging the response, which carried `payload`.
    SendingAck { payload: RESP },
}

/// One call of a client in progress: the decisions of `Client::call`, one
/// transport call at a time, for drivers that make the transport calls
/// themselves (asynchronous ones among them).
pub struct ClientCall<REQ, RESP> {
    seq0: u32,
    timeout: core::time::Duration,
    phase: CallPhase<REQ, RESP>,
    request: Ghost<REQ>,
    record: Ghost<Seq<TransportCall<RpcMessage<REQ, RESP>>>>,
}

impl<REQ, RESP> ClientCall<REQ, RESP> {
    /// The client's sequence number when the call started.
    pub closed spec fn seq0(&self) -> u32 {
        self.seq0
    }

    /// The request being sent.
    pub closed spec fn request(&self) -> REQ {
        self.request@
    }

    /// How long the call waits for the response.
    pub closed spec fn timeout(&self) -> core::time::Duration {
        self.timeout
    }

    /// The transport calls made so far, with what they gave back.
    pub closed spec fn record(&self) -> Seq<TransportCall<RpcMessage<REQ, RESP>>> {
        self.record@
    }

    /// The transport call the call waits on.
    pub closed spec fn pending(&self) -> TransportAction<RpcMessage<REQ, RESP>> {
        let s = next_seq(self.seq0);
        match self.phase {
            CallPhase::Flushing { .. } => TransportAction::Flush(millis_duration(FLUSH_TIMEOUT_MILLIS)),
            CallPhase::SendingRequest => TransportAction::Transmit(
                RpcMessage { seq: s, kind: RpcMessageKind::Request { payload: self.request@ } },
            ),
            CallPhase::AwaitingAck => TransportAction::Receive(millis_duration(ACK_TIMEOUT_MILLIS)),
            CallPhase::AwaitingResponse => TransportAction::Receive(self.timeout),
            CallPhase::SendingAck { .. } => TransportAction::Transmit(
                RpcMessage { seq: s, kind: RpcMessageKind::ResponseAck },
            ),
        }
    }

    #[verifier::type_invariant]
    closed spec fn consistent(self) -> bool {
        let s = next_seq(self.seq0);
        let r = self.record@;
        let flushed = r.len() >= 1 && (r[0] matches TransportCall::Flush(d, Ok(_)) && d
            == millis_duration(FLUSH_TIMEOUT_MILLIS));
        let sent = r.len() >= 2 && (r[1] matches TransportCall::Transmit(m, Ok(_)) && m
            == RpcMessage::<REQ, RESP> {
            seq: s,
            kind: RpcMessageKind::Request { payload: self.request@ },
        });
        let acked = r.len() >= 3 && (r[2] matches TransportCall::Receive(d, x) && d
            == millis_duration(ACK_TIMEOUT_MILLIS) && request_ack_outcome(s, x) is Ok);
        match self.phase {
            CallPhase::Flushing { request } => r.len() == 0 && request == self.request@,
            CallPhase::SendingRequest => r.len() == 1 && flushed,
            CallPhase::AwaitingAck => r.len() == 2 && flushed && sent,
            CallPhase::AwaitingResponse => r.len() == 3 && flushed && sent && acked,
            CallPhase::SendingAck { payload } => {
                &&& r.len() == 4
                &&& flushed && sent && acked
                &&& r[3] matches TransportCall::Receive(d, y)
                &&& d == self.timeout
                &&& response_outcome(s, y) == Ok::<RESP, Error>(payload)
            },
        }
    }

    /// Starts a call of `request` by a client in `state`, waiting `timeout`
    /// for the response: the first transport call drains stale bytes.
    pub fn start(state: &ClientState, request: REQ, timeout: core::time::Duration) -> (r: (
        Self,
        TransportAction<RpcMessage<REQ, RESP>>,
    ))
        ensures
            r.0.seq0() == state.seq(),
            r.0.request() == request,
            r.0.timeout() == timeout,
            r.0.record() == Seq::<TransportCall<RpcMessage<REQ, RESP>>>::empty(),
            r.1 == r.0.pending(),
            r.1 == TransportAction::<RpcMessage<REQ, RESP>>::Flush(millis_duration(FLUSH_TIMEOUT_MILLIS)),
    {
        let ghost g = request;
        let call = ClientCall {
            seq0: state.seq,
            timeout,
            phase: CallPhase::Flushing { request },
            request: Ghost(g),
            record: Ghost(Seq::empty()),
        };
        (call, TransportAction::Flush(duration_from_millis(FLUSH_TIMEOUT_MILLIS)))
    }

    /// Takes in what the pending transport call gave back, and says what to do
    /// next. The client's sequence number advances once the stale bytes are
    /// drained.
    pub fn step(self, state: &mut ClientState, outcome: TransportOutcome<RpcMessage<REQ, RESP>>) -> (next:
        Next<Self, RpcMessage<REQ, RESP>, Result<RESP, Error>>)
        requires
            answers(self.pending(), outcome),
        ensures
            final(state).seq() == (if self.record().len() == 0 && outcome matches TransportOutcome::Flushed(Ok(_)) {
                next_seq(self.seq0())
            } else {
                old(state).seq()
            }),
            match next {
                Next::Perform(c, a) => {
                    &&& c.seq0() == self.seq0()
                    &&& c.request() == self.request()
                    &&& c.timeout() == self.timeout()
                    &&& c.record() == self.record().push(performed(self.pending(), outcome))
                    &&& c.record().len() <= 4
                    &&& c.record()[0] matches TransportCall::Flush(_, Ok(_))
                    &&& a == c.pending()
                },
                Next::Finish(r) => call_record(
                    self.seq0(),
                    self.request(),
                    self.timeout(),
                    self.record().push(performed(self.pending(), outcome)),
                    r,
                ),
            },
    {
        proof { use_type_invariant(&self); }
        let ghost rec = self.record@.push(performed(self.pending(), outcome));
        let ghost pend = self.pending();
        let s = self.seq0.wrapping_add(1);
        let seq0 = self.seq0;
        let timeout = self.timeout;
        let request = self.request;
        match self.phase {
            CallPhase::Flushing { request: payload } => {
                match outcome {
                    TransportOutcome::Flushed(Ok(_)) => {
                        state.seq = s;
                        let msg = RpcMessage { seq: s, kind: RpcMessageKind::Request { payload } };
                        let c = ClientCall {
                            seq0,
                            timeout,
                            phase: CallPhase::SendingRequest,
                            request,
                            record: Ghost(rec),
                        };
                        Next::Perform(c, TransportAction::Transmit(msg))
                    },
                    TransportOutcome::Flushed(Err(e)) => Next::Finish(Err(e)),
                    _ => Next::Finish(Err(Error::TransportError)),
                }
            },
            CallPhase::SendingRequest => {
                match outcome {
                    TransportOutcome::Transmitted(Ok(_)) => {
                        let c = ClientCall {
                            seq0,
                            timeout,
                            phase: CallPhase::AwaitingAck,
                            request,
                            record: Ghost(rec),
                        };
                        Next::Perform(c, TransportAction::Receive(duration_from_millis(ACK_TIMEOUT_MILLIS)))
                    },
                    TransportOutcome::Transmitted(Err(e)) => Next::Finish(Err(e)),
                    _ => Next::Finish(Err(Error::TransportError)),
                }
            },
            CallPhase::AwaitingAck => {
                match outcome {
                    TransportOutcome::Received(received) => {
                        let checker = ClientState { seq: s };
                        match checker.check_request_ack(received) {
                            Ok(()) => {
                                let c = ClientCall {
                                    seq0,
                                    timeout,
                                    phase: CallPhase::AwaitingResponse,
                                    request,
                                    record: Ghost(rec),
                                };
                                Next::Perform(c, TransportAction::Receive(timeout))
                            },
                            Err(e) => Next::Finish(Err(e)),
                        }
                    },
                    _ => Next::Finish(Err(Error::TransportError)),
                }
            },
            CallPhase::AwaitingResponse => {
                match outcome {
                    TransportOutcome::Received(received) => {
                        let checker = ClientState { seq: s };
                        match checker.check_response(received) {
                            Ok(payload) => {
                                let ack = checker.response_ack();
                                let c = ClientCall {
                                    seq0,
                                    timeout,
                                    phase: CallPhase::SendingAck { payload },
                                    request,
                                    record: Ghost(rec),
                                };
                                Next::Perform(c, TransportAction::Transmit(ack))
                            },
                            Err(e) => Next::Finish(Err(e)),
                        }
                    },
                    _ => Next::Finish(Err(Error::TransportError)),
                }
            },
            CallPhase::SendingAck { payload } => {
                match outcome {
                    TransportOutcome::Transmitted(Ok(_)) => Next::Finish(Ok(payload)),
                    TransportOutcome::Transmitted(Err(e)) => Next::Finish(Err(e)),
                    _ => Next::Finish(Err(Error::TransportError)),
                }
            },
        }
    }
}

/// The side of an exchange that sends requests, over a transport.
pub struct Client<T, REQ, RESP> {
    transport: T,
    state: ClientState,
    _request: PhantomData<REQ>,
    _response: PhantomData<RESP>,
}

impl<T, REQ, RESP> Client<T, REQ, RESP> where T: Transport<RpcMessage<REQ, RESP>> {
    /// The sequence number of the latest request (zero before the first).
    pub closed spec fn seq(&self) -> u32 {
        self.state.seq()
    }

    pub fn new(transport: T) -> (c: Self)
        ensures
            c.seq() == 0,
    {
        Client { transport, state: ClientState::new(), _request: PhantomData, _response: PhantomData }
    }

    /// The sequence number of the latest request.
    pub fn sequence_number(&self) -> (s: u32)
        ensures
            s == self.seq(),
    {
        self.state.sequence_number()
    }

    /// The calls made on the transport so far, oldest first.
    pub closed spec fn transport_calls(&self) -> Seq<TransportCall<RpcMessage<REQ, RESP>>> {
        self.transport.calls()
    }

    /// Sends `request` and waits up to `timeout` for its response: drains
    /// stale bytes, sends the request under the next sequence number, waits
    /// for its acknowledgement, waits for the response and acknowledges it.
    ///
    /// The sequence number advances once the stale bytes are drained, whether
    /// or not the exchange then completes.
    pub fn call(&mut self, request: REQ, timeout: core::time::Duration) -> (r: Result<RESP, Error>)
        ensures
            old(self).transport_calls().len() <= final(self).transport_calls().len(),
            final(self).transport_calls().take(old(self).transport_calls().len() as int)
                == old(self).transport_calls(),
            call_record(
                old(self).seq(),
                request,
                timeout,
                final(self).transport_calls().skip(old(self).transport_calls().len() as int),
                r,
            ),
            final(self).seq() == (if final(self).transport_calls()[old(self).transport_calls().len() as int]
                matches TransportCall::Flush(_, Err(_)) {
                old(self).seq()
            } else {
                next_seq(old(self).seq())
            }),
    {
        let ghost start = self.transport.calls();
        let ghost seq0 = self.state.seq();
        let (mut call, mut action) = ClientCall::start(&self.state, request, timeout);
        loop
            invariant
                start == old(self).transport_calls(),
                seq0 == old(self).seq(),
                self.transport.calls() == start + call.record(),
                call.seq0() == seq0,
                call.request() == request,
                call.timeout() == timeout,
                action == call.pending(),
                call.record().len() <= 4,
                self.state.seq() == (if call.record().len() == 0 { seq0 } else { next_seq(seq0) }),
                call.record().len() > 0 ==> call.record()[0] matches TransportCall::Flush(_, Ok(_)),
            decreases 5 - call.record().len(),
        {
            let ghost before = call.record();
            let ghost pend = call.pending();
            let outcome = perform(&mut self.transport, action);
            let ghost rec = before.push(performed(pend, outcome));
            assert(self.transport.calls() == start + rec);
            match call.step(&mut self.state, outcome) {
                Next::Perform(c, a) => {
                    call = c;
                    action = a;
                },
                Next::Finish(r) => {
                    proof {
                        assert(self.transport.calls().skip(start.len() as int) =~= rec);
                        assert(self.transport.calls().take(start.len() as int) =~= start);
                        assert(self.transport.calls()[start.len() as int] == rec[0]);
                    }
                    return r;
                },
            }
        }
    }
}

} // verus!
