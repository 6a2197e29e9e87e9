//! The phase of a connection in which a fixed response is written.

use crate::fault::Fault;
use crate::outbox::Outbox;
use crate::stream::Stream;
use vstd::prelude::*;

verus! {

/// What a poll of a response handler found.
pub enum ResponseHandlerResult<S> {
    /// The response is written; the stream is handed over.
    Done(S),
    /// A part of the response is still to be written; the handler keeps the
    /// stream.
    NotDone,
}

/// Writes a response to a stream, as far as the stream takes it.
pub struct ResponseHandler<S: Stream>(Option<S>, Outbox);

impl<S: Stream> ResponseHandler<S> {
    /// The stream, while the handler holds it.
    pub closed spec fn stream(self) -> Option<S> {
        self.0
    }

    /// Whether the handler still holds its stream.
    pub open spec fn holds_stream(self) -> bool {
        self.stream() is Some
    }

    /// The response.
    pub closed spec fn response(self) -> Seq<u8> {
        self.1.data()
    }

    /// How many bytes of the response are written.
    pub closed spec fn written(self) -> nat {
        self.1.sent()
    }

    /// The handler holds its stream and has written no more than the
    /// response.
    pub open spec fn wf(self) -> bool {
        &&& self.holds_stream()
        &&& self.written() <= self.response().len()
    }

    /// A handler that writes `response` to `stream`.
    pub fn new(response: Vec<u8>, stream: S) -> (handler: ResponseHandler<S>)
        ensures
            handler.stream() == Some(stream),
            handler.response() == response@,
            handler.written() == 0,
    {
        ResponseHandler(Some(stream), Outbox::new(response))
    }

    /// Reports how a round of writes ended, and hands the stream over where
    /// every byte is written.
    pub fn finished(&mut self, sent: Result<bool, Fault>) -> (r: Result<
        ResponseHandlerResult<S>,
        Fault,
    >)
        requires
            old(self).holds_stream(),
        ensures
            final(self).response() == old(self).response(),
            final(self).written() == old(self).written(),
            match sent {
                Ok(true) => {
                    &&& r matches Ok(ResponseHandlerResult::Done(stream))
                    &&& old(self).stream() == Some(stream)
                    &&& final(self).stream() is None
                },
                Ok(false) => {
                    &&& r matches Ok(ResponseHandlerResult::NotDone)
                    &&& final(self).stream() == old(self).stream()
                },
                Err(fault) => {
                    &&& r matches Err(reported)
                    &&& reported == fault
                    &&& final(self).stream() == old(self).stream()
                },
            },
    {
        match sent {
            Ok(true) => Ok(ResponseHandlerResult::Done(self.0.take().unwrap())),
            Ok(false) => Ok(ResponseHandlerResult::NotDone),
            Err(fault) => Err(fault),
        }
    }

    /// Whether a poll can have taken a handler from `before` to `after`
    /// with the result `r`: the response stays as it is, what is written
    /// stays written, the result is `Done` exactly where the last byte is
    /// written, and the handler holds a stream unless the result is `Done`.
    pub open spec fn polled(
        before: Self,
        after: Self,
        r: Result<ResponseHandlerResult<S>, Fault>,
    ) -> bool {
        &&& after.response() == before.response()
        &&& before.written() <= after.written() <= after.response().len()
        &&& match r {
            Ok(ResponseHandlerResult::Done(_)) => {
                &&& after.written() == after.response().len()
                &&& !after.holds_stream()
            },
            Ok(ResponseHandlerResult::NotDone) => {
                &&& after.written() < after.response().len()
                &&& after.holds_stream()
            },
            Err(fault) => {
                &&& fault == Fault::Stream
                &&& after.written() < after.response().len()
                &&& after.holds_stream()
            },
        }
    }

    /// Writes as much of the response as the stream takes without blocking,
    /// from where the last poll stopped. Hands the stream over once the
    /// last byte is written.
    ///
    /// `Outbox::send` makes the writes, and `finished` makes the report of
    /// how they ended. Whatever the stream answers, `polled` holds.
    pub fn poll(&mut self) -> (r: Result<ResponseHandlerResult<S>, Fault>)
        requires
            old(self).wf(),
        ensures
            Self::polled(*old(self), *final(self), r),
    {
        let sent = self.1.send(self.0.as_mut().unwrap());
        self.finished(sent)
    }

    /// Gives up the stream.
    pub fn into_inner(self) -> (stream: S)
        requires
            self.holds_stream(),
        ensures
            self.stream() == Some(stream),
    {
        self.0.unwrap()
    }
}

} // verus!
