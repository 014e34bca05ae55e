use hoshiguma_telemetry::rpc::client::{Client, ClientCall, ClientState};
use hoshiguma_telemetry::rpc::message::{Error, RpcMessage, RpcMessageKind};
use hoshiguma_telemetry::rpc::server::{RequestWait, ResponseSend, Server, ServerState};
use hoshiguma_telemetry::rpc::transport::{
    FrameAccumulator, Next, ReceiveAction, ReceiveEvent, Transport, TransportAction, TransportCalls,
    TransportOutcome,
};
use std::collections::VecDeque;
use std::time::Duration;

#[derive(PartialEq, Eq, Debug, Clone)]
enum Request {
    Ping(u32),
}

#[derive(PartialEq, Eq, Debug, Clone)]
enum Response {
    Ping(u32),
}

type Msg = RpcMessage<Request, Response>;

/// A transport that hands out scripted results and records what was sent.
struct ScriptedTransport {
    incoming: VecDeque<Result<Msg, Error>>,
    sent: Vec<Msg>,
    stale_bytes: usize,
    broken: bool,
    waits: Vec<Duration>,
}

impl ScriptedTransport {
    fn new(incoming: Vec<Result<Msg, Error>>) -> Self {
        ScriptedTransport { incoming: incoming.into_iter().collect(), sent: Vec::new(), stale_bytes: 0, broken: false, waits: Vec::new() }
    }
}

impl Transport<Msg> for ScriptedTransport {
    fn calls(&self) -> TransportCalls<Msg> {
        panic!("the record of calls exists for verification only")
    }

    fn flush(&mut self, timeout: Duration) -> Result<usize, Error> {
        self.waits.push(timeout);
        if self.broken {
            return Err(Error::TransportError);
        }
        let n = self.stale_bytes;
        self.stale_bytes = 0;
        Ok(n)
    }

    fn receive_message(&mut self, timeout: Duration) -> Result<Msg, Error> {
        self.waits.push(timeout);
        // Once the script runs out, the other side has gone away.
        self.incoming.pop_front().unwrap_or(Err(Error::TransportError))
    }

    fn transmit_message(&mut self, msg: Msg) -> Result<(), Error> {
        self.sent.push(msg);
        Ok(())
    }
}

impl Transport<Msg> for &mut ScriptedTransport {
    fn calls(&self) -> TransportCalls<Msg> {
        panic!("the record of calls exists for verification only")
    }

    fn flush(&mut self, timeout: Duration) -> Result<usize, Error> {
        (**self).flush(timeout)
    }

    fn receive_message(&mut self, timeout: Duration) -> Result<Msg, Error> {
        (**self).receive_message(timeout)
    }

    fn transmit_message(&mut self, msg: Msg) -> Result<(), Error> {
        (**self).transmit_message(msg)
    }
}

fn msg(seq: u32, kind: RpcMessageKind<Request, Response>) -> Msg {
    RpcMessage { seq, kind }
}

fn request(seq: u32, i: u32) -> Msg {
    msg(seq, RpcMessageKind::Request { payload: Request::Ping(i) })
}

fn response(seq: u32, i: u32) -> Msg {
    msg(seq, RpcMessageKind::Response { payload: Response::Ping(i) })
}

#[test]
fn client_basic() {
    let mut t = ScriptedTransport::new(vec![
        Ok(msg(1, RpcMessageKind::RequestAck)),
        Ok(response(1, 42)),
    ]);
    {
        let mut client = Client::<_, Request, Response>::new(&mut t);
        let r = client.call(Request::Ping(42), Duration::from_millis(500));
        assert_eq!(r, Ok(Response::Ping(42)));
    }
    assert_eq!(t.sent[0].seq, 1);
    assert_eq!(t.sent[1].seq, 1);
    assert_eq!(t.sent[1].kind, RpcMessageKind::ResponseAck);
    assert_eq!(t.sent.len(), 2);
}

#[test]
fn client_no_ack() {
    let mut t = ScriptedTransport::new(vec![Err(Error::Timeout)]);
    {
        let mut client = Client::<_, Request, Response>::new(&mut t);
        let r = client.call(Request::Ping(42), Duration::from_millis(500));
        assert_eq!(r, Err(Error::NoAck));
    }
    assert_eq!(t.sent, vec![request(1, 42)]);
    assert_eq!(t.receive_message(Duration::from_secs(30)), Err(Error::TransportError));
}

#[test]
fn no_response() {
    let mut t = ScriptedTransport::new(vec![
        Ok(msg(1, RpcMessageKind::RequestAck)),
        Err(Error::Timeout),
    ]);
    {
        let mut client = Client::<_, Request, Response>::new(&mut t);
        let r = client.call(Request::Ping(42), Duration::from_millis(500));
        assert_eq!(r, Err(Error::Timeout));
    }
    assert_eq!(t.sent, vec![request(1, 42)]);
    assert_eq!(t.receive_message(Duration::from_secs(30)), Err(Error::TransportError));
}

#[test]
fn client_recover_after_no_ack() {
    let mut t = ScriptedTransport::new(vec![
        Err(Error::Timeout),
        Ok(msg(2, RpcMessageKind::RequestAck)),
        Ok(response(2, 42)),
    ]);
    {
        let mut client = Client::<_, Request, Response>::new(&mut t);
        let r = client.call(Request::Ping(42), Duration::from_millis(500));
        assert_eq!(r, Err(Error::NoAck));
        let r = client.call(Request::Ping(42), Duration::from_millis(500));
        assert_eq!(r, Ok(Response::Ping(42)));
    }
    assert_eq!(t.sent[0], request(1, 42));
    assert_eq!(t.sent[1], request(2, 42));
    assert_eq!(t.sent[2], msg(2, RpcMessageKind::ResponseAck));
    assert_eq!(t.receive_message(Duration::from_secs(30)), Err(Error::TransportError));
}

#[test]
fn recover_after_no_response() {
    let mut t = ScriptedTransport::new(vec![
        Ok(msg(1, RpcMessageKind::RequestAck)),
        Err(Error::Timeout),
        Ok(msg(2, RpcMessageKind::RequestAck)),
        Ok(response(2, 42)),
    ]);
    {
        let mut client = Client::<_, Request, Response>::new(&mut t);
        let r = client.call(Request::Ping(42), Duration::from_millis(500));
        assert_eq!(r, Err(Error::Timeout));
        let r = client.call(Request::Ping(42), Duration::from_millis(500));
        assert_eq!(r, Ok(Response::Ping(42)));
    }
    assert_eq!(t.sent[0], request(1, 42));
    assert_eq!(t.sent[1], request(2, 42));
    assert_eq!(t.sent[2], msg(2, RpcMessageKind::ResponseAck));
    assert_eq!(t.receive_message(Duration::from_secs(30)), Err(Error::TransportError));
}

/// Serves requests until the other side goes away, as the original's test
/// servers do.
fn serve(server: &mut Server<&mut ScriptedTransport, Request, Response>) -> Vec<Result<(), Error>> {
    let mut results = Vec::new();
    loop {
        let request = match server.wait_for_request(Duration::from_secs(5)) {
            Ok(request) => request,
            Err(Error::TransportError) => break,
            Err(e) => panic!("Server error: {e:?}"),
        };
        results.push(server.send_response(match request {
            Request::Ping(i) => Response::Ping(i),
        }));
    }
    results
}

#[test]
fn server_basic() {
    let mut t = ScriptedTransport::new(vec![
        Ok(request(2, 69)),
        Ok(msg(2, RpcMessageKind::ResponseAck)),
    ]);
    {
        let mut server = Server::<_, Request, Response>::new(&mut t);
        assert_eq!(serve(&mut server), vec![Ok(())]);
    }
    assert_eq!(t.sent[0].seq, 2);
    assert_eq!(t.sent[0].kind, RpcMessageKind::RequestAck);
    assert_eq!(t.sent[1].seq, 2);
    assert_eq!(t.sent[1].kind, RpcMessageKind::Response { payload: Response::Ping(69) });
}

#[test]
fn server_no_ack() {
    let mut t = ScriptedTransport::new(vec![Ok(request(2, 69)), Err(Error::Timeout)]);
    {
        let mut server = Server::<_, Request, Response>::new(&mut t);
        assert_eq!(serve(&mut server), vec![Err(Error::NoAck)]);
    }
    assert_eq!(t.sent, vec![msg(2, RpcMessageKind::RequestAck), response(2, 69)]);
}

#[test]
fn server_recover_after_no_ack() {
    let mut t = ScriptedTransport::new(vec![
        Ok(request(2, 69)),
        Err(Error::Timeout),
        Ok(request(2, 69)),
        Ok(msg(2, RpcMessageKind::ResponseAck)),
    ]);
    {
        let mut server = Server::<_, Request, Response>::new(&mut t);
        assert_eq!(serve(&mut server), vec![Err(Error::NoAck), Ok(())]);
    }
    assert_eq!(t.sent[0], msg(2, RpcMessageKind::RequestAck));
    assert_eq!(t.sent[1], response(2, 69));
    assert_eq!(t.sent[2].seq, 2);
    assert_eq!(t.sent[2].kind, RpcMessageKind::RequestAck);
    assert_eq!(t.sent[3].seq, 2);
    assert_eq!(t.sent[3].kind, RpcMessageKind::Response { payload: Response::Ping(69) });
}

/// Runs one exchange between a client and a server by handing each message
/// from one side to the other.
fn exchange(client: &mut ClientState, server: &mut ServerState, request: Request) -> Result<Response, Error> {
    let msg: Msg = client.begin_request(request);
    let (payload, seq) = server.check_request(Ok(msg))?;
    let ack: Msg = ServerState::request_ack(seq);
    server.accept_request(seq);
    client.check_request_ack(Ok(ack))?;
    let reply: Msg = server.begin_response(match payload {
        Request::Ping(i) => Response::Ping(i),
    })?;
    let result = client.check_response(Ok(reply))?;
    let ack: Msg = client.response_ack();
    ServerState::check_response_ack(seq, Ok(ack))?;
    Ok(result)
}

#[test]
fn basic_rpc_transaction() {
    let mut client = ClientState::new();
    let mut server = ServerState::new();
    let response = exchange(&mut client, &mut server, Request::Ping(42)).unwrap();
    assert_eq!(response, Response::Ping(42));
    assert_eq!(server.active_rpc(), None);
    assert_eq!(client.sequence_number(), 1);
}

#[test]
fn recover_from_out_of_sync() {
    // Garbage on the line, which could be half a message that was interrupted:
    // bytes with no frame end make no message.
    let mut frames = FrameAccumulator::new();
    for b in b"lol wtf?" {
        assert!(matches!(frames.step(ReceiveEvent::Byte(*b)), ReceiveAction::Wait));
    }
    assert_eq!(frames.len(), 8);

    // The client drains the garbage before its request, then the exchange
    // goes through.
    let mut t = ScriptedTransport::new(vec![
        Ok(msg(1, RpcMessageKind::RequestAck)),
        Ok(response(1, 42)),
    ]);
    t.stale_bytes = 8;
    {
        let mut client = Client::<_, Request, Response>::new(&mut t);
        let response = client.call(Request::Ping(42), Duration::from_millis(500)).unwrap();
        assert_eq!(response, Response::Ping(42));
    }
    assert_eq!(t.stale_bytes, 0);
}

#[test]
fn client_rejects_response_of_other_exchange() {
    let mut t = ScriptedTransport::new(vec![
        Ok(msg(1, RpcMessageKind::RequestAck)),
        Ok(response(7, 42)),
    ]);
    let mut client = Client::<_, Request, Response>::new(&mut t);
    let r = client.call(Request::Ping(42), Duration::from_millis(500));
    assert_eq!(r, Err(Error::IncorrectSequenceNumber { expected: 1, actual: 7 }));
}

#[test]
fn client_rejects_wrong_ack_kind_and_seq() {
    let mut t = ScriptedTransport::new(vec![Ok(msg(1, RpcMessageKind::ResponseAck))]);
    let mut client = Client::<_, Request, Response>::new(&mut t);
    assert_eq!(client.call(Request::Ping(1), Duration::ZERO), Err(Error::IncorrectMessageType));
    drop(client);
    let mut t = ScriptedTransport::new(vec![Ok(msg(9, RpcMessageKind::RequestAck))]);
    let mut client = Client::<_, Request, Response>::new(&mut t);
    assert_eq!(
        client.call(Request::Ping(1), Duration::ZERO),
        Err(Error::IncorrectSequenceNumber { expected: 1, actual: 9 })
    );
}

#[test]
fn client_rejects_request_as_response() {
    let mut t = ScriptedTransport::new(vec![Ok(msg(1, RpcMessageKind::RequestAck)), Ok(request(1, 3))]);
    let mut client = Client::<_, Request, Response>::new(&mut t);
    assert_eq!(client.call(Request::Ping(1), Duration::ZERO), Err(Error::IncorrectMessageType));
}

#[test]
fn client_failed_flush_sends_nothing_and_keeps_its_number() {
    let mut t = ScriptedTransport::new(vec![Ok(msg(1, RpcMessageKind::RequestAck)), Ok(response(1, 5))]);
    t.broken = true;
    t.stale_bytes = 4;
    {
        let mut client = Client::<_, Request, Response>::new(&mut t);
        assert_eq!(client.call(Request::Ping(5), Duration::ZERO), Err(Error::TransportError));
        assert_eq!(client.sequence_number(), 0);
    }
    assert!(t.sent.is_empty());
    t.broken = false;
    {
        let mut client = Client::<_, Request, Response>::new(&mut t);
        assert_eq!(client.call(Request::Ping(5), Duration::ZERO), Ok(Response::Ping(5)));
        assert_eq!(client.sequence_number(), 1);
    }
    assert_eq!(t.stale_bytes, 0);
    assert_eq!(t.sent, vec![request(1, 5), msg(1, RpcMessageKind::ResponseAck)]);
}

#[test]
fn exchanges_wait_the_protocol_timeouts() {
    let mut t = ScriptedTransport::new(vec![Ok(msg(1, RpcMessageKind::RequestAck)), Ok(response(1, 8))]);
    {
        let mut client = Client::<_, Request, Response>::new(&mut t);
        assert_eq!(client.call(Request::Ping(8), Duration::from_millis(500)), Ok(Response::Ping(8)));
    }
    assert_eq!(
        t.waits,
        vec![Duration::from_millis(5), Duration::from_millis(100), Duration::from_millis(500)]
    );

    let mut t = ScriptedTransport::new(vec![Ok(request(4, 2)), Ok(msg(4, RpcMessageKind::ResponseAck))]);
    {
        let mut server = Server::<_, Request, Response>::new(&mut t);
        assert_eq!(server.wait_for_request(Duration::from_secs(5)), Ok(Request::Ping(2)));
        assert_eq!(server.send_response(Response::Ping(2)), Ok(()));
    }
    assert_eq!(t.waits, vec![Duration::from_secs(5), Duration::from_millis(100)]);
    assert_eq!(t.sent, vec![msg(4, RpcMessageKind::RequestAck), response(4, 2)]);
}

#[test]
fn client_sequence_wraps() {
    let mut client = ClientState::new();
    assert_eq!(client.sequence_number(), 0);
    for _ in 0..3 {
        let _: Msg = client.begin_request(Request::Ping(0));
    }
    assert_eq!(client.sequence_number(), 3);
    let m: Msg = client.begin_request(Request::Ping(5));
    assert_eq!(m, request(4, 5));
}

#[test]
fn server_refuses_second_request_and_response_without_request() {
    let mut t = ScriptedTransport::new(vec![Ok(request(3, 1)), Ok(request(4, 2))]);
    let mut server = Server::<_, Request, Response>::new(&mut t);
    assert_eq!(server.send_response(Response::Ping(0)), Err(Error::NoRequestInProgress));
    assert_eq!(server.wait_for_request(Duration::ZERO), Ok(Request::Ping(1)));
    assert_eq!(server.active_rpc(), Some(3));
    assert_eq!(server.wait_for_request(Duration::ZERO), Err(Error::RequestAlreadyInProgress));
    assert_eq!(server.active_rpc(), Some(3));
    // The acknowledgement never comes: no request is in progress afterwards.
    assert_eq!(server.send_response(Response::Ping(1)), Err(Error::IncorrectMessageType));
    assert_eq!(server.active_rpc(), None);
}

#[test]
fn server_rejects_non_request() {
    let mut t = ScriptedTransport::new(vec![Ok(msg(1, RpcMessageKind::RequestAck))]);
    let mut server = Server::<_, Request, Response>::new(&mut t);
    assert_eq!(server.wait_for_request(Duration::ZERO), Err(Error::IncorrectMessageType));
    assert_eq!(server.active_rpc(), None);
}

#[test]
fn frames_end_at_zero_byte() {
    let mut frames = FrameAccumulator::new();
    assert!(matches!(frames.step(ReceiveEvent::Byte(3)), ReceiveAction::Wait));
    assert!(matches!(frames.step(ReceiveEvent::Byte(7)), ReceiveAction::Wait));
    match frames.step(ReceiveEvent::Byte(0)) {
        ReceiveAction::Decode(frame) => assert_eq!(frame, vec![3, 7, 0]),
        _ => panic!("frame expected"),
    }
    assert_eq!(frames.len(), 0);
    assert!(matches!(
        frames.step(ReceiveEvent::Idle { elapsed_micros: 10, timeout_micros: 20 }),
        ReceiveAction::Wait
    ));
    assert!(matches!(
        frames.step(ReceiveEvent::Idle { elapsed_micros: 20, timeout_micros: 20 }),
        ReceiveAction::Fail(Error::Timeout)
    ));
    assert!(matches!(frames.step(ReceiveEvent::Closed), ReceiveAction::Fail(Error::TransportError)));
}

#[test]
fn client_call_steps_one_transport_call_at_a_time() {
    let mut state = ClientState::new();
    let (call, action) = ClientCall::<Request, Response>::start(&state, Request::Ping(3), Duration::from_millis(40));
    assert!(matches!(action, TransportAction::Flush(d) if d == Duration::from_millis(5)));
    let (call, action) = match call.step(&mut state, TransportOutcome::Flushed(Ok(0))) {
        Next::Perform(c, a) => (c, a),
        Next::Finish(_) => panic!("the request is still to be sent"),
    };
    assert_eq!(state.sequence_number(), 1);
    assert!(matches!(action, TransportAction::Transmit(ref m) if *m == request(1, 3)));
    let (call, action) = match call.step(&mut state, TransportOutcome::Transmitted(Ok(()))) {
        Next::Perform(c, a) => (c, a),
        Next::Finish(_) => panic!("the acknowledgement is still to come"),
    };
    assert!(matches!(action, TransportAction::Receive(d) if d == Duration::from_millis(100)));
    let (call, action) = match call.step(&mut state, TransportOutcome::Received(Ok(msg(1, RpcMessageKind::RequestAck)))) {
        Next::Perform(c, a) => (c, a),
        Next::Finish(_) => panic!("the response is still to come"),
    };
    assert!(matches!(action, TransportAction::Receive(d) if d == Duration::from_millis(40)));
    let (call, action) = match call.step(&mut state, TransportOutcome::Received(Ok(response(1, 3)))) {
        Next::Perform(c, a) => (c, a),
        Next::Finish(_) => panic!("the response is still to be acknowledged"),
    };
    assert!(matches!(action, TransportAction::Transmit(ref m) if *m == msg(1, RpcMessageKind::ResponseAck)));
    assert!(matches!(
        call.step(&mut state, TransportOutcome::Transmitted(Ok(()))),
        Next::Finish(Ok(Response::Ping(3)))
    ));

    // A failed flush ends the call and leaves the number alone.
    let (call, _) = ClientCall::<Request, Response>::start(&state, Request::Ping(4), Duration::ZERO);
    assert!(matches!(
        call.step(&mut state, TransportOutcome::Flushed(Err(Error::TransportError))),
        Next::Finish(Err(Error::TransportError))
    ));
    assert_eq!(state.sequence_number(), 1);
}

#[test]
fn server_exchanges_step_one_transport_call_at_a_time() {
    let mut state = ServerState::new();
    let (wait, action) = match RequestWait::<Request, Response>::start(&state, Duration::from_secs(5)) {
        Next::Perform(w, a) => (w, a),
        Next::Finish(_) => panic!("no request is in progress"),
    };
    assert!(matches!(action, TransportAction::Receive(d) if d == Duration::from_secs(5)));
    let (wait, action) = match wait.step(&mut state, TransportOutcome::Received(Ok(request(6, 1)))) {
        Next::Perform(w, a) => (w, a),
        Next::Finish(_) => panic!("the request is still to be acknowledged"),
    };
    assert!(matches!(action, TransportAction::Transmit(ref m) if *m == msg(6, RpcMessageKind::RequestAck)));
    assert_eq!(state.active_rpc(), None);
    assert!(matches!(wait.step(&mut state, TransportOutcome::Transmitted(Ok(()))), Next::Finish(Ok(Request::Ping(1)))));
    assert_eq!(state.active_rpc(), Some(6));
    assert!(matches!(
        RequestWait::<Request, Response>::start(&state, Duration::ZERO),
        Next::Finish(Err(Error::RequestAlreadyInProgress))
    ));

    let (send, action) = match ResponseSend::<Request, Response>::start(&mut state, Response::Ping(1)) {
        Next::Perform(c, a) => (c, a),
        Next::Finish(_) => panic!("a request is in progress"),
    };
    assert_eq!(state.active_rpc(), None);
    assert!(matches!(action, TransportAction::Transmit(ref m) if *m == response(6, 1)));
    let (send, action) = match send.step(TransportOutcome::Transmitted(Ok(()))) {
        Next::Perform(c, a) => (c, a),
        Next::Finish(_) => panic!("the acknowledgement is still to come"),
    };
    assert!(matches!(action, TransportAction::Receive(d) if d == Duration::from_millis(100)));
    assert!(matches!(send.step(TransportOutcome::Received(Err(Error::Timeout))), Next::Finish(Err(Error::NoAck))));
    assert!(matches!(
        ResponseSend::<Request, Response>::start(&mut state, Response::Ping(0)),
        Next::Finish(Err(Error::NoRequestInProgress))
    ));
}
