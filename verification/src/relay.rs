//! The tunnel: bytes read from one end are written to the other.
//!
//! A relay never holds more than one chunk, and reads no further chunk
//! before the other end has taken the one it holds. What passes through it
//! is recorded, so that the contracts can say that nothing is lost,
//! repeated or reordered: see [`Relay::is_faithful`].

use crate::fault::Fault;
use crate::outbox::Outbox;
use crate::stream::{read_into, read_took, Stream, StreamError};
use vstd::prelude::*;

verus! {

/// One direction of a tunnel: the bytes read from one end on their way to
/// the other end. It takes one chunk at a time and keeps it until the other
/// end has taken all of it, so that no byte is lost when a write blocks.
pub struct Relay {
    outbox: Outbox,
    earlier: Ghost<Seq<u8>>,
}

impl Relay {
    /// Every byte that was read in this direction, in the order of arrival.
    pub closed spec fn received(self) -> Seq<u8> {
        self.earlier@ + self.outbox.data()
    }

    /// Every byte that the other end has taken, in the order of writing.
    pub closed spec fn forwarded(self) -> Seq<u8> {
        self.earlier@ + self.outbox.delivered()
    }

    /// The bytes that were read and are waiting to be written.
    pub closed spec fn pending(self) -> Seq<u8> {
        self.outbox.unsent()
    }

    /// The relay holds a chunk and a cursor within it.
    pub closed spec fn wf(self) -> bool {
        self.outbox.wf()
    }

    /// Nothing is waiting to be written.
    pub open spec fn idle(self) -> bool {
        self.forwarded() == self.received()
    }

    /// A relay through which nothing has passed.
    pub fn new() -> (relay: Relay)
        ensures
            relay.wf(),
            relay.received() == Seq::<u8>::empty(),
            relay.forwarded() == Seq::<u8>::empty(),
    {
        let relay = Relay { outbox: Outbox::new(Vec::new()), earlier: Ghost(Seq::empty()) };
        relay
    }

    /// Whether nothing is waiting to be written.
    pub fn is_idle(&self) -> (idle: bool)
        requires
            self.wf(),
        ensures
            idle == self.idle(),
    {
        proof {
            self.is_faithful();
        }
        self.outbox.is_done()
    }

    /// Takes in a chunk that was read.
    pub fn accept(&mut self, chunk: Vec<u8>)
        requires
            old(self).wf(),
            old(self).idle(),
        ensures
            final(self).wf(),
            final(self).received() == old(self).received() + chunk@,
            final(self).forwarded() == old(self).forwarded(),
    {
        let ghost earlier = self.received();
        self.earlier = Ghost(earlier);
        self.outbox = Outbox::new(chunk);
    }

    /// Writes what is waiting to `sink`, as far as the stream takes it.
    /// Returns whether nothing is left waiting.
    ///
    /// Whatever the stream answers, what was received stays as it is, and
    /// what was forwarded grows by bytes that were waiting, in their order.
    pub fn forward<W: Stream>(&mut self, sink: &mut W) -> (r: Result<bool, Fault>)
        requires
            old(self).wf(),
        ensures
            final(self).wf(),
            final(self).received() == old(self).received(),
            old(self).forwarded().is_prefix_of(final(self).forwarded()),
            match r {
                Ok(idle) => idle == final(self).idle(),
                Err(fault) => fault == Fault::Stream && !final(self).idle(),
            },
    {
        let r = self.outbox.send(sink);
        proof {
            self.is_faithful();
        }
        r
    }

    /// What was received is what was forwarded followed by what is
    /// waiting: no byte is forwarded that was not read, none is forwarded
    /// twice or out of its order, and none is dropped. Nothing is waiting
    /// exactly when all that was received is forwarded.
    pub proof fn is_faithful(self)
        requires
            self.wf(),
        ensures
            self.received() == self.forwarded() + self.pending(),
            self.forwarded().is_prefix_of(self.received()),
            self.idle() <==> self.pending().len() == 0,
    {
        assert(self.outbox.data() =~= self.outbox.delivered() + self.outbox.unsent());
    }
}

/// What a tunnel does after an attempt to read from the end that it is
/// listening to.
#[derive(Clone, Copy, Debug, PartialEq, Eq, Structural)]
pub enum Turn {
    /// Bytes arrived: keep listening to the same end.
    Stay,
    /// Nothing can be read right now: listen to the other end.
    Switch,
    /// The end was closed: the tunnel is done.
    Close,
    /// The stream failed: the tunnel is aborted.
    Abort,
}

/// What a tunnel does after a read.
pub open spec fn turn_of(read: Result<u64, StreamError>) -> Turn {
    match read {
        Ok(n) => if n == 0 {
            Turn::Close
        } else {
            Turn::Stay
        },
        Err(StreamError::WouldBlock) => Turn::Switch,
        Err(StreamError::Failed) => Turn::Abort,
    }
}

/// Decides what a tunnel does after a read.
pub fn turn_after(read: Result<u64, StreamError>) -> (turn: Turn)
    ensures
        turn == turn_of(read),
{
    match read {
        Ok(0) => Turn::Close,
        Ok(_) => Turn::Stay,
        Err(StreamError::WouldBlock) => Turn::Switch,
        Err(StreamError::Failed) => Turn::Abort,
    }
}

/// What a tunnel does after an attempt to write on what was waiting: it
/// keeps listening to the same end, whether or not bytes are left waiting,
/// unless the stream has failed.
pub open spec fn turn_of_write(written: Result<bool, Fault>) -> Turn {
    match written {
        Ok(_) => Turn::Stay,
        Err(_) => Turn::Abort,
    }
}

/// Decides what a tunnel does after an attempt to write.
pub fn turn_after_write(written: Result<bool, Fault>) -> (turn: Turn)
    ensures
        turn == turn_of_write(written),
{
    match written {
        Ok(_) => Turn::Stay,
        Err(_) => Turn::Abort,
    }
}

/// Whether `copy` can have taken a relay from `before` to `after` with the
/// answer `turn`.
///
/// What was forwarded has grown at its end, if at all. Where nothing was
/// waiting, there is a read that took what was received from what it was
/// to what it is; if that read brought no bytes, the answer is what
/// `turn_of` makes of it, and if it brought bytes, the answer is what
/// `turn_of_write` makes of the write. Where a chunk was waiting, nothing
/// is received. A write aborts only with bytes left waiting. The tunnel
/// turns, and is closed, only with nothing waiting and the relay as it was.
pub open spec fn copied(before: Relay, after: Relay, turn: Turn) -> bool {
    &&& after.wf()
    &&& before.forwarded().is_prefix_of(after.forwarded())
    &&& if before.idle() {
        exists|read: Result<u64, StreamError>|
            read_took(read, before.received(), after.received()) && if #[trigger] turn_of(read)
                == Turn::Stay {
                turn == Turn::Stay || (turn == Turn::Abort && !after.idle())
            } else {
                turn == turn_of(read)
            }
    } else {
        &&& after.received() == before.received()
        &&& turn == Turn::Stay || (turn == Turn::Abort && !after.idle())
    }
    &&& turn == Turn::Switch || turn == Turn::Close ==> before.idle() && after == before
}

/// Moves bytes one step on their way from `from` to `to`.
///
/// Where a chunk is waiting in `relay`, it is written on, as far as `to`
/// takes it. Else one chunk of at most `CHUNK` bytes is read from `from`,
/// and written on as far as `to` takes it. Nothing is read while a chunk is
/// waiting. `turn_after` decides what follows the read, and
/// `turn_after_write` what follows the write.
///
/// Whatever the streams answer, what was received and what was forwarded
/// only grow at their ends. The tunnel turns to the other direction, or is
/// closed, only where nothing was waiting and nothing arrived.
pub fn copy<R: Stream, W: Stream>(from: &mut R, to: &mut W, relay: &mut Relay) -> (turn: Turn)
    requires
        old(relay).wf(),
    ensures
        copied(*old(relay), *final(relay), turn),
{
    if relay.is_idle() {
        let mut chunk: Vec<u8> = Vec::new();
        let read = read_into(&mut chunk, from);
        match turn_after(read) {
            Turn::Stay => {
                relay.accept(chunk);
            },
            turn => {
                return turn;
            },
        }
    }
    turn_after_write(relay.forward(to))
}

} // verus!
