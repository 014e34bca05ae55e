use super::message::Error;
use vstd::prelude::*;

verus! {

/// One call made on a transport: what was handed to it and what it gave back.
pub enum TransportCall<M> {
    /// `flush` with its timeout.
    Flush(core::time::Duration, Result<usize, Error>),
    /// `receive_message` with its timeout.
    Receive(core::time::Duration, Result<M, Error>),
    /// `transmit_message` with the message sent.
    Transmit(M, Result<(), Error>),
}

/// A record of transport calls, oldest first.
pub type TransportCalls<M> = Seq<TransportCall<M>>;

/// A byte stream that carries whole messages of type `M`.
///
/// Implementations decide how a message is framed and encoded; the protocol
/// only needs these three operations. Each implementation keeps the record
/// `calls` of the calls made on it, which is how the protocol's contracts
/// speak of what was sent and what came back.
pub trait Transport<M> {
    /// The calls made on this transport so far, oldest first.
    spec fn calls(&self) -> TransportCalls<M>;

    /// Discards whatever arrives until nothing has arrived for `timeout`, and
    /// says how many bytes were discarded.
    fn flush(&mut self, timeout: core::time::Duration) -> (r: Result<usize, Error>)
        ensures
            final(self).calls() == old(self).calls().push(TransportCall::Flush(timeout, r)),
    ;

    /// Waits up to `timeout` for the next whole message.
    fn receive_message(&mut self, timeout: core::time::Duration) -> (r: Result<M, Error>)
        ensures
            final(self).calls() == old(self).calls().push(TransportCall::Receive(timeout, r)),
    ;

    /// Sends one message.
    fn transmit_message(&mut self, msg: M) -> (r: Result<(), Error>)
        ensures
            final(self).calls() == old(self).calls().push(TransportCall::Transmit(msg, r)),
    ;
}

/// A transport call that an exchange asks its driver to make next.
pub enum TransportAction<M> {
    /// `flush` with this timeout.
    Flush(core::time::Duration),
    /// `receive_message` with this timeout.
    Receive(core::time::Duration),
    /// `transmit_message` of this message.
    Transmit(M),
}

/// What a transport call gave back.
pub enum TransportOutcome<M> {
    Flushed(Result<usize, Error>),
    Received(Result<M, Error>),
    Transmitted(Result<(), Error>),
}

/// Whether `outcome` is what a call of the kind of `action` gives back.
pub open spec fn answers<M>(action: TransportAction<M>, outcome: TransportOutcome<M>) -> bool {
    match action {
        TransportAction::Flush(_) => outcome is Flushed,
        TransportAction::Receive(_) => outcome is Received,
        TransportAction::Transmit(_) => outcome is Transmitted,
    }
}

/// The record of a call of `action` that gave back `outcome`.
pub open spec fn performed<M>(action: TransportAction<M>, outcome: TransportOutcome<M>) -> TransportCall<
    M,
> {
    match action {
        TransportAction::Flush(d) => TransportCall::Flush(d, outcome->Flushed_0),
        TransportAction::Receive(d) => TransportCall::Receive(d, outcome->Received_0),
        TransportAction::Transmit(m) => TransportCall::Transmit(m, outcome->Transmitted_0),
    }
}

/// What the driver of an exchange does next.
pub enum Next<C, M, R> {
    /// Make the transport call `action`, and hand what it gave back to the
    /// exchange, now in state `C`.
    Perform(C, TransportAction<M>),
    /// The exchange is over, with this result.
    Finish(R),
}

/// Makes the transport call `action` and hands back what it gave.
pub fn perform<M, T: Transport<M>>(transport: &mut T, action: TransportAction<M>) -> (o:
    TransportOutcome<M>)
    ensures
        answers(action, o),
        final(transport).calls() == old(transport).calls().push(performed(action, o)),
{
    match action {
        TransportAction::Flush(d) => TransportOutcome::Flushed(transport.flush(d)),
        TransportAction::Receive(d) => TransportOutcome::Received(transport.receive_message(d)),
        TransportAction::Transmit(m) => TransportOutcome::Transmitted(transport.transmit_message(m)),
    }
}

/// The bytes of the frame being received. A frame ends with a zero byte: the
/// encoding used on the wire puts no zero byte anywhere else.
pub struct FrameAccumulator {
    buffer: Vec<u8>,
}

impl View for FrameAccumulator {
    type V = Seq<u8>;

    closed spec fn view(&self) -> Seq<u8> {
        self.buffer@
    }
}

impl FrameAccumulator {
    /// An accumulator that holds no bytes.
    pub fn new() -> (r: Self)
        ensures
            r@ == Seq::<u8>::empty(),
    {
        FrameAccumulator { buffer: Vec::new() }
    }

    /// How many bytes are held.
    pub fn len(&self) -> (n: usize)
        ensures
            n == self@.len(),
    {
        self.buffer.len()
    }

    /// Appends a received byte, and says whether it completed a frame.
    pub fn push_byte(&mut self, byte: u8) -> (complete: bool)
        ensures
            final(self)@ == old(self)@.push(byte),
            complete == (byte == 0),
    {
        self.buffer.push(byte);
        byte == 0
    }

    /// Hands out the bytes held and starts over with none.
    pub fn take_frame(&mut self) -> (frame: Vec<u8>)
        ensures
            frame@ == old(self)@,
            final(self)@ == Seq::<u8>::empty(),
    {
        let mut empty = Vec::new();
        std::mem::swap(&mut empty, &mut self.buffer);
        empty
    }
}

/// What a receiver observed on the byte stream.
pub enum ReceiveEvent {
    /// One byte arrived.
    Byte(u8),
    /// The stream closed.
    Closed,
    /// Nothing arrived for a while; `elapsed_micros` have passed since the
    /// receiver started waiting for a message, out of `timeout_micros`.
    Idle { elapsed_micros: u128, timeout_micros: u128 },
}

/// What a receiver does next.
pub enum ReceiveAction {
    /// Keep waiting for bytes.
    Wait,
    /// A whole frame is here: decode it.
    Decode(Vec<u8>),
    /// Give up on this message with the given error.
    Fail(Error),
}

impl FrameAccumulator {
    /// Handles one observation of a receiver that waits for a message.
    pub fn step(&mut self, event: ReceiveEvent) -> (action: ReceiveAction)
        ensures
            match event {
                ReceiveEvent::Byte(b) => if b == 0 {
                    &&& action matches ReceiveAction::Decode(frame)
                    &&& frame@ == old(self)@.push(b)
                    &&& final(self)@ == Seq::<u8>::empty()
                } else {
                    &&& action is Wait
                    &&& final(self)@ == old(self)@.push(b)
                },
                ReceiveEvent::Closed => {
                    &&& action == ReceiveAction::Fail(Error::TransportError)
                    &&& final(self)@ == old(self)@
                },
                ReceiveEvent::Idle { elapsed_micros, timeout_micros } => {
                    &&& final(self)@ == old(self)@
                    &&& if elapsed_micros >= timeout_micros {
                        action == ReceiveAction::Fail(Error::Timeout)
                    } else {
                        action is Wait
                    }
                },
            },
    {
        match event {
            ReceiveEvent::Byte(b) => {
                if self.push_byte(b) {
                    ReceiveAction::Decode(self.take_frame())
                } else {
                    ReceiveAction::Wait
                }
            },
            ReceiveEvent::Closed => ReceiveAction::Fail(Error::TransportError),
            ReceiveEvent::Idle { elapsed_micros, timeout_micros } => {
                if elapsed_micros >= timeout_micros {
                    ReceiveAction::Fail(Error::Timeout)
                } else {
                    ReceiveAction::Wait
                }
            },
        }
    }
}

} // verus!
