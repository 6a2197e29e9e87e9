//! Bytes on their way into a stream that may take them in pieces.

use crate::fault::Fault;
use crate::stream::{Stream, StreamError};
use vstd::prelude::*;
use vstd::slice::slice_subrange;

verus! {

/// What an attempt to write made of an outbox.
#[derive(Clone, Copy, Debug, PartialEq, Eq, Structural)]
pub enum Progress {
    /// The last byte is written.
    Done,
    /// Some bytes are written and some are left.
    More,
    /// The stream takes nothing right now.
    Blocked,
    /// The stream has failed.
    Failed,
}

/// What a round of writes comes to once an attempt has made `progress`:
/// the round is over with every byte written (`Ok(true)`), over with bytes
/// left because the stream takes no more right now (`Ok(false)`), or over
/// because the stream has failed; after a write that left bytes over it
/// goes on (`None`). A stream that blocks has not failed.
pub open spec fn settled(progress: Progress) -> Option<Result<bool, Fault>> {
    match progress {
        Progress::Done => Some(Ok(true)),
        Progress::More => None,
        Progress::Blocked => Some(Ok(false)),
        Progress::Failed => Some(Err(Fault::Stream)),
    }
}

/// Decides whether a round of writes is over, and how, once an attempt has
/// made `progress`.
pub fn settle(progress: Progress) -> (r: Option<Result<bool, Fault>>)
    ensures
        r == settled(progress),
{
    match progress {
        Progress::Done => Some(Ok(true)),
        Progress::More => None,
        Progress::Blocked => Some(Ok(false)),
        Progress::Failed => Some(Err(Fault::Stream)),
    }
}

/// Bytes on their way into a stream: a fixed run of bytes and a cursor that
/// parts those that the stream has taken from those that it has yet to
/// take.
pub struct Outbox {
    data: Vec<u8>,
    sent: usize,
}

impl Outbox {
    /// All the bytes, taken or not.
    pub closed spec fn data(self) -> Seq<u8> {
        self.data@
    }

    /// How many of the bytes the stream has taken.
    pub closed spec fn sent(self) -> nat {
        self.sent as nat
    }

    /// The cursor lies within the bytes.
    pub open spec fn wf(self) -> bool {
        self.sent() <= self.data().len()
    }

    /// The bytes that the stream has taken.
    pub open spec fn delivered(self) -> Seq<u8> {
        self.data().take(self.sent() as int)
    }

    /// The bytes that the stream has yet to take.
    pub open spec fn unsent(self) -> Seq<u8> {
        self.data().skip(self.sent() as int)
    }

    /// How many bytes an answer of the stream adds to those taken: the
    /// count it reports, if that is at least one byte and no more than were
    /// offered.
    pub open spec fn taken(self, answer: Result<usize, StreamError>) -> nat {
        match answer {
            Ok(n) => if 0 < n <= self.unsent().len() {
                n as nat
            } else {
                0
            },
            Err(_) => 0,
        }
    }

    /// What an answer of the stream to the offer of the unsent bytes means.
    /// A stream that takes nothing without blocking, or claims to have taken
    /// more than it was offered, has failed.
    pub open spec fn progress(self, answer: Result<usize, StreamError>) -> Progress {
        match answer {
            Ok(n) => if n == 0 || n > self.unsent().len() {
                Progress::Failed
            } else if n == self.unsent().len() {
                Progress::Done
            } else {
                Progress::More
            },
            Err(StreamError::WouldBlock) => Progress::Blocked,
            Err(StreamError::Failed) => Progress::Failed,
        }
    }

    /// An outbox that has all of `data` to send.
    pub fn new(data: Vec<u8>) -> (outbox: Outbox)
        ensures
            outbox.wf(),
            outbox.data() == data@,
            outbox.sent() == 0,
    {
        Outbox { data, sent: 0 }
    }

    /// Whether the stream has taken every byte.
    pub fn is_done(&self) -> (done: bool)
        requires
            self.wf(),
        ensures
            done == (self.sent() == self.data().len()),
    {
        self.sent == self.data.len()
    }

    /// The bytes to offer to the stream next.
    pub fn remaining(&self) -> (bytes: &[u8])
        requires
            self.wf(),
        ensures
            bytes@ == self.unsent(),
    {
        slice_subrange(self.data.as_slice(), self.sent, self.data.len())
    }

    /// Takes note of the answer that the stream gave when it was offered
    /// the unsent bytes.
    pub fn written(&mut self, answer: Result<usize, StreamError>) -> (progress: Progress)
        requires
            old(self).wf(),
        ensures
            final(self).wf(),
            final(self).data() == old(self).data(),
            final(self).sent() == old(self).sent() + old(self).taken(answer),
            progress == old(self).progress(answer),
    {
        let left = self.data.len() - self.sent;
        match answer {
            Ok(n) => {
                if n == 0 || n > left {
                    Progress::Failed
                } else {
                    self.sent = self.sent + n;
                    if n == left {
                        Progress::Done
                    } else {
                        Progress::More
                    }
                }
            },
            Err(StreamError::WouldBlock) => Progress::Blocked,
            Err(StreamError::Failed) => Progress::Failed,
        }
    }

    /// Writes to `sink` until every byte is written or the stream blocks or
    /// fails. Returns whether every byte is written.
    ///
    /// Each attempt offers `remaining()` to the stream; `written` takes
    /// note of the answer and `settle` decides whether the round goes on.
    /// Whatever the stream answers, the bytes stay as they are and the
    /// cursor does not move back.
    pub fn send<W: Stream>(&mut self, sink: &mut W) -> (r: Result<bool, Fault>)
        requires
            old(self).wf(),
        ensures
            final(self).wf(),
            final(self).data() == old(self).data(),
            old(self).sent() <= final(self).sent(),
            match r {
                Ok(done) => done == (final(self).sent() == final(self).data().len()),
                Err(fault) => {
                    &&& fault == Fault::Stream
                    &&& final(self).sent() < final(self).data().len()
                },
            },
    {
        loop
            invariant
                self.wf(),
                self.data() == old(self).data(),
                old(self).sent() <= self.sent(),
            decreases self.data().len() - self.sent(),
        {
            if self.is_done() {
                return Ok(true);
            }
            let answer = sink.write(self.remaining());
            match settle(self.written(answer)) {
                Some(r) => {
                    return r;
                },
                None => {},
            }
        }
    }
}

} // verus!
