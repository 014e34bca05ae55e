use super::message::{duration_from_millis, millis_duration, Error, RpcMessage, RpcMessageKind,
    ACK_TIMEOUT_MILLIS};
use super::transport::{answers, perform, performed, Next, Transport, TransportAction,
    TransportCall, TransportOutcome};
use core::marker::PhantomData;
use vstd::prelude::*;

verus! {

/// What the server makes of the message it waited for when it had no
/// request in progress: the request's payload and sequence number, or why
/// there is none.
pub open spec fn request_outcome<REQ, RESP>(received: Result<RpcMessage<REQ, RESP>, Error>) -> Result<
    (REQ, u32),
    Error,
> {
    match received {
        Ok(msg) => match msg.kind {
            RpcMessageKind::Request { payload } => Ok((payload, msg.seq)),
            _ => Err(Error::IncorrectMessageType),
        },
        Err(e) => Err(e),
    }
}

/// What the server makes of the message it waited for after sending the
/// response to request `seq`. Any failure to receive counts as a missing
/// acknowledgement.
pub open spec fn response_ack_outcome<REQ, RESP>(
    seq: u32,
    received: Result<RpcMessage<REQ, RESP>, Error>,
) -> Result<(), Error> {
    match received {
        Ok(ack) => if !(ack.kind is ResponseAck) {
            Err(Error::IncorrectMessageType)
        } else if ack.seq != seq {
            Err(Error::IncorrectSequenceNumber { expected: seq, actual: ack.seq })
        } else {
            Ok(())
        },
        Err(_) => Err(Error::NoAck),
    }
}

/// Whether `calls` are the transport calls that one
/// `Server::wait_for_request` with timeout `timeout` makes on a server with
/// no request in progress, and `r` is what it returns, given what each of
/// those transport calls gave back. The server waits for a request and
/// acknowledges it.
pub open spec fn wait_record<REQ, RESP>(
    timeout: core::time::Duration,
    calls: Seq<TransportCall<RpcMessage<REQ, RESP>>>,
    r: Result<REQ, Error>,
) -> bool {
    &&& calls.len() >= 1
    &&& calls[0] matches TransportCall::Receive(waited, received)
    &&& waited == timeout
    &&& match request_outcome(received) {
        Err(e) => calls.len() == 1 && r == Err::<REQ, Error>(e),
        Ok((payload, seq)) => {
            &&& calls.len() == 2
            &&& calls[1] matches TransportCall::Transmit(sent, transmitted)
            &&& sent == RpcMessage::<REQ, RESP> { seq, kind: RpcMessageKind::RequestAck }
            &&& r == match transmitted {
                Err(e) => Err::<REQ, Error>(e),
                Ok(_) => Ok(payload),
            }
        },
    }
}

/// Whether `calls` are the transport calls that one `Server::send_response`
/// of `response` makes on a server with request `seq` in progress, and `r`
/// is what it returns, given what each of those transport calls gave back.
/// The server sends the response and waits `ACK_TIMEOUT_MILLIS` for its
/// acknowledgement.
pub open spec fn respond_record<REQ, RESP>(
    seq: u32,
    response: RESP,
    calls: Seq<TransportCall<RpcMessage<REQ, RESP>>>,
    r: Result<(), Error>,
) -> bool {
    &&& calls.len() >= 1
    &&& calls[0] matches TransportCall::Transmit(sent, transmitted)
    &&& sent == RpcMessage::<REQ, RESP> { seq, kind: RpcMessageKind::Response { payload: response } }
    &&& match transmitted {
        Err(e) => calls.len() == 1 && r == Err::<(), Error>(e),
        Ok(_) => {
            &&& calls.len() == 2
            &&& calls[1] matches TransportCall::Receive(waited, received)
            &&& waited == millis_duration(ACK_TIMEOUT_MILLIS)
            &&& r == response_ack_outcome(seq, received)
        },
    }
}

/// The protocol state of the side that answers requests: the sequence
/// number of the request that still awaits its response, if any.
pub struct ServerState {
    active_rpc: Option<u32>,
}

impl ServerState {
    /// The sequence number of the request that still awaits its response.
    pub closed spec fn active(&self) -> Option<u32> {
        self.active_rpc
    }

    pub fn new() -> (s: Self)
        ensures
            s.active() is None,
    {
        ServerState { active_rpc: None }
    }

    /// The sequence number of the request that still awaits its response.
    pub fn active_rpc(&self) -> (a: Option<u32>)
        ensures
            a == self.active(),
    {
        self.active_rpc
    }

    /// Judges what arrived while waiting for a request.
    pub fn check_request<REQ, RESP>(&self, received: Result<RpcMessage<REQ, RESP>, Error>) -> (r:
        Result<(REQ, u32), Error>)
        ensures
            r == request_outcome(received),
    {
        match received {
            Ok(msg) => match msg.kind {
                RpcMessageKind::Request { payload } => Ok((payload, msg.seq)),
                _ => Err(Error::IncorrectMessageType),
            },
            Err(e) => Err(e),
        }
    }

    /// The acknowledgement of request `seq`.
    pub fn request_ack<REQ, RESP>(seq: u32) -> (msg: RpcMessage<REQ, RESP>)
        ensures
            msg == (RpcMessage::<REQ, RESP> { seq, kind: RpcMessageKind::RequestAck }),
    {
        RpcMessage { seq, kind: RpcMessageKind::RequestAck }
    }

    /// Records that request `seq` was acknowledged and awaits its response.
    pub fn accept_request(&mut self, seq: u32)
        ensures
            final(self).active() == Some(seq),
    {
        self.active_rpc = Some(seq);
    }

    /// Builds the response to the request in progress, and forgets that
    /// request whatever comes of the response.
    pub fn begin_response<REQ, RESP>(&mut self, response: RESP) -> (r: Result<
        RpcMessage<REQ, RESP>,
        Error,
    >)
        ensures
            final(self).active() is None,
            match old(self).active() {
                Some(seq) => r == Ok::<RpcMessage<REQ, RESP>, Error>(
                    RpcMessage { seq, kind: RpcMessageKind::Response { payload: response } },
                ),
                None => r == Err::<RpcMessage<REQ, RESP>, Error>(Error::NoRequestInProgress),
            },
    {
        match self.active_rpc.take() {
            Some(seq) => Ok(RpcMessage { seq, kind: RpcMessageKind::Response { payload: response } }),
            None => Err(Error::NoRequestInProgress),
        }
    }

    /// Judges what arrived while waiting for the acknowledgement of the
    /// response to request `seq`.
    pub fn check_response_ack<REQ, RESP>(
        seq: u32,
        received: Result<RpcMessage<REQ, RESP>, Error>,
    ) -> (r: Result<(), Error>)
        ensures
            r == response_ack_outcome(seq, received),
    {
        match received {
            Ok(ack) => {
                if !matches!(ack.kind, RpcMessageKind::ResponseAck) {
                    Err(Error::IncorrectMessageType)
                } else if ack.seq != seq {
                    Err(Error::IncorrectSequenceNumber { expected: seq, actual: ack.seq })
                } else {
                    Ok(())
                }
            },
            Err(_) => Err(Error::NoAck),
        }
    }
}

/// Where a wait for a request stands.
enum WaitPhase<REQ> {
    /// Waiting for the request.
    AwaitingRequest,
    /// Acknowledging request `seq`, which carried `payload`.
    SendingAck { payload: REQ, seq: u32 },
}

/// One `Server::wait_for_request` in progress, one transport call at a time,
/// for drivers that make the transport calls themselves.
pub struct RequestWait<REQ, RESP> {
    timeout: core::time::Duration,
    phase: WaitPhase<REQ>,
    record: Ghost<Seq<TransportCall<RpcMessage<REQ, RESP>>>>,
    _response: PhantomData<RESP>,
}

impl<REQ, RESP> RequestWait<REQ, RESP> {
    /// How long the server waits for a request.
    pub closed spec fn timeout(&self) -> core::time::Duration {
        self.timeout
    }

    /// The transport calls made so far, with what they gave back.
    pub closed spec fn record(&self) -> Seq<TransportCall<RpcMessage<REQ, RESP>>> {
        self.record@
    }

    /// The transport call the wait waits on.
    pub closed spec fn pending(&self) -> TransportAction<RpcMessage<REQ, RESP>> {
        match self.phase {
            WaitPhase::AwaitingRequest => TransportAction::Receive(self.timeout),
            WaitPhase::SendingAck { seq, .. } => TransportAction::Transmit(
                RpcMessage { seq, kind: RpcMessageKind::RequestAck },
            ),
        }
    }

    #[verifier::type_invariant]
    closed spec fn consistent(self) -> bool {
        let r = self.record@;
        match self.phase {
            WaitPhase::AwaitingRequest => r.len() == 0,
            WaitPhase::SendingAck { payload, seq } => {
                &&& r.len() == 1
                &&& r[0] matches TransportCall::Receive(d, x)
                &&& d == self.timeout
                &&& request_outcome(x) == Ok::<(REQ, u32), Error>((payload, seq))
            },
        }
    }

    /// Starts waiting up to `timeout` for a request: refused while a request
    /// is in progress, otherwise the first transport call receives.
    pub fn start(state: &ServerState, timeout: core::time::Duration) -> (next: Next<
        Self,
        RpcMessage<REQ, RESP>,
        Result<REQ, Error>,
    >)
        ensures
            state.active() is Some ==> next matches Next::Finish(Err(Error::RequestAlreadyInProgress)),
            state.active() is None ==> (next matches Next::Perform(c, a) && c.timeout() == timeout
                && c.record() == Seq::<TransportCall<RpcMessage<REQ, RESP>>>::empty() && a == c.pending()),
    {
        if state.active_rpc().is_some() {
            return Next::Finish(Err(Error::RequestAlreadyInProgress));
        }
        let w = RequestWait {
            timeout,
            phase: WaitPhase::AwaitingRequest,
            record: Ghost(Seq::empty()),
            _response: PhantomData,
        };
        Next::Perform(w, TransportAction::Receive(timeout))
    }

    /// Takes in what the pending transport call gave back, and says what to do
    /// next. The request is in progress once its acknowledgement went out.
    pub fn step(self, state: &mut ServerState, outcome: TransportOutcome<RpcMessage<REQ, RESP>>) -> (next:
        Next<Self, RpcMessage<REQ, RESP>, Result<REQ, Error>>)
        requires
            answers(self.pending(), outcome),
        ensures
            match next {
                Next::Perform(c, a) => {
                    &&& c.timeout() == self.timeout()
                    &&& c.record() == self.record().push(performed(self.pending(), outcome))
                    &&& c.record().len() <= 1
                    &&& a == c.pending()
                    &&& final(state).active() == old(state).active()
                },
                Next::Finish(r) => {
                    let rec = self.record().push(performed(self.pending(), outcome));
                    &&& wait_record(self.timeout(), rec, r)
                    &&& final(state).active() == (if r is Ok {
                        Some(rec[0]->Receive_1->Ok_0.seq)
                    } else {
                        old(state).active()
                    })
                },
            },
    {
        proof { use_type_invariant(&self); }
        let ghost rec = self.record@.push(performed(self.pending(), outcome));
        match self.phase {
            WaitPhase::AwaitingRequest => match outcome {
                TransportOutcome::Received(received) => match state.check_request(received) {
                    Ok((payload, seq)) => {
                        let w = RequestWait {
                            timeout: self.timeout,
                            phase: WaitPhase::SendingAck { payload, seq },
                            record: Ghost(rec),
                            _response: PhantomData,
                        };
                        Next::Perform(w, TransportAction::Transmit(ServerState::request_ack(seq)))
                    },
                    Err(e) => Next::Finish(Err(e)),
                },
                _ => Next::Finish(Err(Error::TransportError)),
            },
            WaitPhase::SendingAck { payload, seq } => match outcome {
                TransportOutcome::Transmitted(Ok(_)) => {
                    state.accept_request(seq);
                    Next::Finish(Ok(payload))
                },
                TransportOutcome::Transmitted(Err(e)) => Next::Finish(Err(e)),
                _ => Next::Finish(Err(Error::TransportError)),
            },
        }
    }
}

/// Where the sending of a response stands.
enum RespondPhase {
    /// Sending the response.
    SendingResponse,
    /// Waiting for the acknowledgement of the response.
    AwaitingAck,
}

/// One `Server::send_response` in progress, one transport call at a time,
/// for drivers that make the transport calls themselves.
pub struct ResponseSend<REQ, RESP> {
    seq: u32,
    phase: RespondPhase,
    response: Ghost<RESP>,
    record: Ghost<Seq<TransportCall<RpcMessage<REQ, RESP>>>>,
}

impl<REQ, RESP> ResponseSend<REQ, RESP> {
    /// The sequence number of the request being answered.
    pub closed spec fn seq(&self) -> u32 {
        self.seq
    }

    /// The response being sent.
    pub closed spec fn response(&self) -> RESP {
        self.response@
    }

    /// The transport calls made so far, with what they gave back.
    pub closed spec fn record(&self) -> Seq<TransportCall<RpcMessage<REQ, RESP>>> {
        self.record@
    }

    /// The transport call the sending waits on.
    pub closed spec fn pending(&self) -> TransportAction<RpcMessage<REQ, RESP>> {
        match self.phase {
            RespondPhase::SendingResponse => TransportAction::Transmit(
                RpcMessage { seq: self.seq, kind: RpcMessageKind::Response { payload: self.response@ } },
            ),
            RespondPhase::AwaitingAck => TransportAction::Receive(millis_duration(ACK_TIMEOUT_MILLIS)),
        }
    }

    #[verifier::type_invariant]
    closed spec fn consistent(self) -> bool {
        let r = self.record@;
        match self.phase {
            RespondPhase::SendingResponse => r.len() == 0,
            RespondPhase::AwaitingAck => {
                &&& r.len() == 1
                &&& r[0] matches TransportCall::Transmit(m, Ok(_))
                &&& m == RpcMessage::<REQ, RESP> {
                    seq: self.seq,
                    kind: RpcMessageKind::Response { payload: self.response@ },
                }
            },
        }
    }

    /// Starts sending `response` to the request in progress, which is
    /// forgotten whatever comes of it; refused where none is in progress.
    pub fn start(state: &mut ServerState, response: RESP) -> (next: Next<
        Self,
        RpcMessage<REQ, RESP>,
        Result<(), Error>,
    >)
        ensures
            final(state).active() is None,
            match old(state).active() {
                None => next matches Next::Finish(Err(Error::NoRequestInProgress)),
                Some(seq) => (next matches Next::Perform(c, a) && c.seq() == seq && c.response()
                    == response && c.record() == Seq::<TransportCall<RpcMessage<REQ, RESP>>>::empty()
                    && a == c.pending()),
            },
    {
        let ghost g = response;
        match state.begin_response(response) {
            Ok(msg) => {
                let c = ResponseSend {
                    seq: msg.seq,
                    phase: RespondPhase::SendingResponse,
                    response: Ghost(g),
                    record: Ghost(Seq::empty()),
                };
                Next::Perform(c, TransportAction::Transmit(msg))
            },
            Err(e) => Next::Finish(Err(e)),
        }
    }

    /// Takes in what the pending transport call gave back, and says what to do
    /// next.
    pub fn step(self, outcome: TransportOutcome<RpcMessage<REQ, RESP>>) -> (next: Next<
        Self,
        RpcMessage<REQ, RESP>,
        Result<(), Error>,
    >)
        requires
            answers(self.pending(), outcome),
        ensures
            match next {
                Next::Perform(c, a) => {
                    &&& c.seq() == self.seq()
                    &&& c.response() == self.response()
                    &&& c.record() == self.record().push(performed(self.pending(), outcome))
                    &&& c.record().len() <= 1
                    &&& a == c.pending()
                },
                Next::Finish(r) => respond_record(
                    self.seq(),
                    self.response(),
                    self.record().push(performed(self.pending(), outcome)),
                    r,
                ),
            },
    {
        proof { use_type_invariant(&self); }
        let ghost rec = self.record@.push(performed(self.pending(), outcome));
        match self.phase {
            RespondPhase::SendingResponse => match outcome {
                TransportOutcome::Transmitted(Ok(_)) => {
                    let c = ResponseSend {
                        seq: self.seq,
                        phase: RespondPhase::AwaitingAck,
                        response: self.response,
                        record: Ghost(rec),
                    };
                    Next::Perform(c, TransportAction::Receive(duration_from_millis(ACK_TIMEOUT_MILLIS)))
                },
                TransportOutcome::Transmitted(Err(e)) => Next::Finish(Err(e)),
                _ => Next::Finish(Err(Error::TransportError)),
            },
            RespondPhase::AwaitingAck => match outcome {
                TransportOutcome::Received(received) => Next::Finish(
                    ServerState::check_response_ack(self.seq, received),
                ),
                _ => Next::Finish(Err(Error::TransportError)),
            },
        }
    }
}

/// The side of an exchange that answers requests, over a transport.
pub struct Server<T, REQ, RESP> {
    transport: T,
    state: ServerState,
    _request: PhantomData<REQ>,
    _response: PhantomData<RESP>,
}

impl<T, REQ, RESP> Server<T, REQ, RESP> where T: Transport<RpcMessage<REQ, RESP>> {
    /// The sequence number of the request that still awaits its response.
    pub closed spec fn active(&self) -> Option<u32> {
        self.state.active()
    }

    pub fn new(transport: T) -> (s: Self)
        ensures
            s.active() is None,
    {
        Server { transport, state: ServerState::new(), _request: PhantomData, _response: PhantomData }
    }

    /// The sequence number of the request that still awaits its response.
    pub fn active_rpc(&self) -> (a: Option<u32>)
        ensures
            a == self.active(),
    {
        self.state.active_rpc()
    }

    /// The calls made on the transport so far, oldest first.
    pub closed spec fn transport_calls(&self) -> Seq<TransportCall<RpcMessage<REQ, RESP>>> {
        self.transport.calls()
    }

    /// Waits up to `timeout` for a request, acknowledges it and hands out its
    /// payload; the request is then in progress until `send_response`.
    pub fn wait_for_request(&mut self, timeout: core::time::Duration) -> (r: Result<REQ, Error>)
        ensures
            old(self).transport_calls().len() <= final(self).transport_calls().len(),
            final(self).transport_calls().take(old(self).transport_calls().len() as int)
                == old(self).transport_calls(),
            old(self).active() is Some ==> {
                &&& r == Err::<REQ, Error>(Error::RequestAlreadyInProgress)
                &&& final(self).active() == old(self).active()
                &&& final(self).transport_calls() == old(self).transport_calls()
            },
            old(self).active() is None ==> {
                let calls = final(self).transport_calls().skip(old(self).transport_calls().len() as int);
                &&& wait_record(timeout, calls, r)
                &&& final(self).active() == (if r is Ok {
                    Some(calls[0]->Receive_1->Ok_0.seq)
                } else {
                    None
                })
            },
    {
        let ghost start = self.transport.calls();
        let (mut wait, mut action) = match RequestWait::start(&self.state, timeout) {
            Next::Perform(w, a) => (w, a),
            Next::Finish(r) => return r,
        };
        loop
            invariant
                start == old(self).transport_calls(),
                old(self).active() is None,
                self.state.active() is None,
                self.transport.calls() == start + wait.record(),
                wait.timeout() == timeout,
                action == wait.pending(),
                wait.record().len() <= 1,
            decreases 2 - wait.record().len(),
        {
            let ghost before = wait.record();
            let ghost pend = wait.pending();
            let outcome = perform(&mut self.transport, action);
            let ghost rec = before.push(performed(pend, outcome));
            match wait.step(&mut self.state, outcome) {
                Next::Perform(w, a) => {
                    wait = w;
                    action = a;
                },
                Next::Finish(r) => {
                    proof {
                        assert(self.transport.calls() == start + rec);
                        assert(self.transport.calls().skip(start.len() as int) =~= rec);
                        assert(self.transport.calls().take(start.len() as int) =~= start);
                    }
                    return r;
                },
            }
        }
    }

    /// Sends `response` to the request in progress and waits for its
    /// acknowledgement. No request is in progress afterwards, whatever the
    /// outcome.
    pub fn send_response(&mut self, response: RESP) -> (r: Result<(), Error>)
        ensures
            final(self).active() is None,
            old(self).transport_calls().len() <= final(self).transport_calls().len(),
            final(self).transport_calls().take(old(self).transport_calls().len() as int)
                == old(self).transport_calls(),
            match old(self).active() {
                None => {
                    &&& r == Err::<(), Error>(Error::NoRequestInProgress)
                    &&& final(self).transport_calls() == old(self).transport_calls()
                },
                Some(seq) => respond_record(
                    seq,
                    response,
                    final(self).transport_calls().skip(old(self).transport_calls().len() as int),
                    r,
                ),
            },
    {
        let ghost start = self.transport.calls();
        let ghost seq = self.state.active()->Some_0;
        let (mut send, mut action) = match ResponseSend::start(&mut self.state, response) {
            Next::Perform(c, a) => (c, a),
            Next::Finish(r) => return r,
        };
        loop
            invariant
                start == old(self).transport_calls(),
                old(self).active() == Some(seq),
                self.state.active() is None,
                self.transport.calls() == start + send.record(),
                send.seq() == seq,
                send.response() == response,
                action == send.pending(),
                send.record().len() <= 1,
            decreases 2 - send.record().len(),
        {
            let ghost before = send.record();
            let ghost pend = send.pending();
            let outcome = perform(&mut self.transport, action);
            let ghost rec = before.push(performed(pend, outcome));
            match send.step(outcome) {
                Next::Perform(c, a) => {
                    send = c;
                    action = a;
                },
                Next::Finish(r) => {
                    proof {
                        assert(self.transport.calls() == start + rec);
                        assert(self.transport.calls().skip(start.len() as int) =~= rec);
                        assert(self.transport.calls().take(start.len() as int) =~= start);
                    }
                    return r;
                },
            }
        }
    }
}

} // verus!
