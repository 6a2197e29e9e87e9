//! The first phase of a connection: the request is read, as far as it has
//! arrived, and what the client asks for is decided.
//!
//! The bytes received so far are parsed from their start after every read.
//! What they ask for is stated by [`request_verdict`]; that the answer does
//! not depend on how the bytes were cut into reads is stated by
//! [`fed_agrees`].

use crate::fault::Fault;
use crate::http::{same_ignoring_case, Header, HttpMethod, Request};
use crate::parser::{http_object, HttpObjectParser, ParseError, Parsed};
use crate::prefix::http_object_in_extension;
use crate::stream::{read_into, read_took, Stream, StreamError};
use vstd::prelude::*;
use vstd::string::StringSliceAdditionalSpecFns;
use vstd::utf8::{decode_utf8, encode_utf8_decode_utf8, valid_utf8};

verus! {

/// The number of headers that a request may hold.
pub const HEADER_SLOTS: usize = 32;

/// What a client asks for, as far as its request has arrived.
pub enum Verdict {
    /// The request is not complete.
    MoreDataRequired,
    /// A tunnel to the destination given, a `host:port` string.
    WantsProxy(Seq<char>),
    /// The resource at the path given.
    WantsResource(Seq<char>),
    /// Something that the proxy does not serve.
    Invalid,
    /// The request holds more headers than the proxy accepts.
    Overflow,
}

impl Verdict {
    /// Whether the request is complete and within the limits: it asks for
    /// a tunnel or for a resource, or is invalid.
    pub open spec fn decided(self) -> bool {
        self is WantsProxy || self is WantsResource || self is Invalid
    }
}

/// The text that the bytes of a path spell, where they are valid UTF-8.
pub open spec fn text_of(path: Seq<u8>) -> Option<Seq<char>> {
    if valid_utf8(path) {
        Some(decode_utf8(path))
    } else {
        None
    }
}

/// What a complete request with this method and this path asks for:
/// `CONNECT` asks for a tunnel and `GET` for a resource, in any spelling;
/// any other method, and a path that is no text, is invalid.
pub open spec fn verdict_of(method: Seq<u8>, path: Seq<u8>) -> Verdict {
    if same_ignoring_case(method, "connect".spec_bytes()) {
        match text_of(path) {
            Some(destination) => Verdict::WantsProxy(destination),
            None => Verdict::Invalid,
        }
    } else if same_ignoring_case(method, "get".spec_bytes()) {
        match text_of(path) {
            Some(resource) => Verdict::WantsResource(resource),
            None => Verdict::Invalid,
        }
    } else {
        Verdict::Invalid
    }
}

/// What the bytes received so far ask for: they are parsed from their
/// start as a request with room for `HEADER_SLOTS` headers.
///
/// A request is decided as soon as `http_object` finds it complete, which
/// is at the first newline byte behind its start line or behind the value
/// of a header. A request that arrives in pieces may thus be decided
/// before its last bytes have arrived; method and path are those of the
/// whole request all the same (`fed_agrees`). For a request for a tunnel
/// the bytes that arrive later are the first bytes of the tunnel.
pub open spec fn request_verdict(buffer: Seq<u8>) -> Verdict {
    match http_object(buffer, HEADER_SLOTS as nat) {
        Parsed::Incomplete => Verdict::MoreDataRequired,
        Parsed::Overflow => Verdict::Overflow,
        Parsed::Complete(parts) => verdict_of(parts.line.0, parts.line.1),
    }
}

/// What a client asks for, as `classify` reports it.
pub enum Classification {
    /// The request is not complete.
    MoreDataRequired,
    /// A tunnel to the destination given, a `host:port` string.
    WantsProxy(String),
    /// The resource at the path given.
    WantsResource(String),
    /// Something that the proxy does not serve.
    Invalid,
}

impl View for Classification {
    type V = Verdict;

    open spec fn view(&self) -> Verdict {
        match self {
            Classification::MoreDataRequired => Verdict::MoreDataRequired,
            Classification::WantsProxy(destination) => Verdict::WantsProxy(destination@),
            Classification::WantsResource(resource) => Verdict::WantsResource(resource@),
            Classification::Invalid => Verdict::Invalid,
        }
    }
}

/// `core::str::from_utf8`: the bytes as a string slice, if they are valid
/// UTF-8. The contract claims that std accepts exactly the byte strings
/// that `valid_utf8` describes, and that the slice returned holds the
/// bytes given.
#[verifier::external_body]
fn str_from_utf8<'a>(bytes: &'a [u8]) -> (r: Option<&'a str>)
    ensures
        r is Some <==> valid_utf8(bytes@),
        r matches Some(text) ==> text.spec_bytes() == bytes@,
{
    match core::str::from_utf8(bytes) {
        Ok(text) => Some(text),
        Err(_) => None,
    }
}

/// The text that `path` spells, if it spells one.
pub fn path_text(path: &[u8]) -> (r: Option<String>)
    ensures
        match r {
            Some(text) => text_of(path@) == Some(text@),
            None => text_of(path@) is None,
        },
{
    match str_from_utf8(path) {
        Some(text) => {
            proof {
                encode_utf8_decode_utf8(text@);
            }
            Some(text.to_owned())
        },
        None => None,
    }
}

/// Decides what the bytes received so far ask for.
pub fn classify(buffer: &[u8]) -> (r: Result<Classification, Fault>)
    ensures
        match r {
            Ok(class) => class@ == request_verdict(buffer@) && !(class@ is Overflow),
            Err(fault) => fault == Fault::CapacityExceeded && request_verdict(buffer@) is Overflow,
        },
{
    let mut headers = [Header::default(); HEADER_SLOTS];
    let object = HttpObjectParser::new(&mut headers).parse::<Request>(buffer);
    match object {
        Ok(None) => Ok(Classification::MoreDataRequired),
        Ok(Some(request)) => {
            match request.method {
                HttpMethod::Connect => match path_text(request.path) {
                    Some(destination) => Ok(Classification::WantsProxy(destination)),
                    None => Ok(Classification::Invalid),
                },
                HttpMethod::Get => match path_text(request.path) {
                    Some(resource) => Ok(Classification::WantsResource(resource)),
                    None => Ok(Classification::Invalid),
                },
                _ => Ok(Classification::Invalid),
            }
        },
        Err(ParseError::CapacityExceeded) => Err(Fault::CapacityExceeded),
    }
}

/// The spelling of the method does not matter to what a request asks for.
pub proof fn verdict_ignores_case(method: Seq<u8>, other: Seq<u8>, path: Seq<u8>)
    requires
        same_ignoring_case(method, other),
    ensures
        verdict_of(method, path) == verdict_of(other, path),
{
}

/// What a poll of a request handler found.
pub enum RequestHandlerResult<S> {
    /// The request is not complete; the handler keeps the stream.
    MoreDataRequired,
    /// The client asks for a tunnel to the destination; the stream is handed
    /// over.
    WantsProxy(String, S),
    /// The client asks for the resource at the path; the stream is handed
    /// over.
    WantsResource(String, S),
    /// The client asks for something that the proxy does not serve; the
    /// handler keeps the stream until `into_inner` takes it.
    Invalid,
}

impl<S> RequestHandlerResult<S> {
    /// What the client asks for.
    pub open spec fn verdict(self) -> Verdict {
        match self {
            RequestHandlerResult::MoreDataRequired => Verdict::MoreDataRequired,
            RequestHandlerResult::WantsProxy(destination, _) => Verdict::WantsProxy(destination@),
            RequestHandlerResult::WantsResource(resource, _) => Verdict::WantsResource(resource@),
            RequestHandlerResult::Invalid => Verdict::Invalid,
        }
    }

    /// The stream that the result hands over, if it hands one over.
    pub open spec fn stream(self) -> Option<S> {
        match self {
            RequestHandlerResult::WantsProxy(_, stream) => Some(stream),
            RequestHandlerResult::WantsResource(_, stream) => Some(stream),
            _ => None,
        }
    }

    /// Whether the result hands the stream over.
    pub open spec fn hands_over(self) -> bool {
        self is WantsProxy || self is WantsResource
    }
}

/// What a poll reports: what the client asks for, or the fault.
pub open spec fn report<S>(r: Result<RequestHandlerResult<S>, Fault>) -> Result<Verdict, Fault> {
    match r {
        Ok(result) => Ok(result.verdict()),
        Err(fault) => Err(fault),
    }
}

/// Whether a poll with the result `r` hands the stream over.
pub open spec fn hands_over<S>(r: Result<RequestHandlerResult<S>, Fault>) -> bool {
    r matches Ok(result) && result.hands_over()
}

/// The stream that a poll with the result `r` hands over, if it hands one
/// over.
pub open spec fn handed<S>(r: Result<RequestHandlerResult<S>, Fault>) -> Option<S> {
    match r {
        Ok(result) => result.stream(),
        Err(_) => None,
    }
}

/// What a read means for a request whose bytes so far, the bytes of that
/// read among them, are `buffer`.
///
/// A read of zero bytes says that the client is gone, and a failed read
/// that the stream is broken. After any other read, a read that would have
/// blocked among them, the bytes are parsed from their start: the request is
/// classified, or has too many headers.
pub open spec fn request_outcome(read: Result<u64, StreamError>, buffer: Seq<u8>) -> Result<
    Verdict,
    Fault,
> {
    match read {
        Ok(n) if n == 0 => Err(Fault::UnexpectedEof),
        Err(StreamError::Failed) => Err(Fault::Stream),
        _ => match request_verdict(buffer) {
            Verdict::Overflow => Err(Fault::CapacityExceeded),
            verdict => Ok(verdict),
        },
    }
}

/// Reads a request from a stream, as far as it has arrived.
pub struct RequestHandler<S: Stream>(Option<S>, Vec<u8>);

impl<S: Stream> RequestHandler<S> {
    /// The stream, while the handler holds it.
    pub closed spec fn stream(self) -> Option<S> {
        self.0
    }

    /// Whether the handler still holds its stream.
    pub open spec fn holds_stream(self) -> bool {
        self.stream() is Some
    }

    /// The bytes received so far.
    pub closed spec fn buffer(self) -> Seq<u8> {
        self.1@
    }

    /// A handler for the request that arrives on `stream`.
    pub fn new(stream: S) -> (handler: RequestHandler<S>)
        ensures
            handler.stream() == Some(stream),
            handler.buffer() == Seq::<u8>::empty(),
    {
        RequestHandler(Some(stream), Vec::new())
    }

    /// Decides what to report after a read whose bytes the buffer holds
    /// already, and hands the stream over where the client asks for a
    /// tunnel or for a resource.
    pub fn received(&mut self, read: Result<u64, StreamError>) -> (r: Result<
        RequestHandlerResult<S>,
        Fault,
    >)
        requires
            old(self).holds_stream(),
        ensures
            final(self).buffer() == old(self).buffer(),
            report(r) == request_outcome(read, old(self).buffer()),
            match handed(r) {
                Some(stream) => old(self).stream() == Some(stream) && final(self).stream() is None,
                None => final(self).stream() == old(self).stream(),
            },
    {
        match read {
            Ok(0) => {
                return Err(Fault::UnexpectedEof);
            },
            Err(StreamError::Failed) => {
                return Err(Fault::Stream);
            },
            _ => {},
        }
        match classify(self.1.as_slice()) {
            Ok(Classification::MoreDataRequired) => Ok(RequestHandlerResult::MoreDataRequired),
            Ok(Classification::WantsProxy(destination)) => Ok(
                RequestHandlerResult::WantsProxy(destination, self.0.take().unwrap()),
            ),
            Ok(Classification::WantsResource(resource)) => Ok(
                RequestHandlerResult::WantsResource(resource, self.0.take().unwrap()),
            ),
            Ok(Classification::Invalid) => Ok(RequestHandlerResult::Invalid),
            Err(fault) => Err(fault),
        }
    }

    /// Whether a poll can have taken a handler from `before` to `after`
    /// with the result `r`: there is a read that took the buffer from what
    /// it held to what it holds, the report is the one that `received`
    /// makes of that read and of the buffer as it then is, and the handler
    /// holds a stream unless the result hands it over.
    pub open spec fn polled(
        before: Self,
        after: Self,
        r: Result<RequestHandlerResult<S>, Fault>,
    ) -> bool {
        &&& exists|read: Result<u64, StreamError>|
            read_took(read, before.buffer(), after.buffer()) && report(r)
                == #[trigger] request_outcome(read, after.buffer())
        &&& after.holds_stream() == !hands_over(r)
    }

    /// Reads once from the stream and reports what the client asks for, as
    /// far as the request has arrived.
    ///
    /// `read_into` makes the read, and `received` makes the report of what
    /// the read gave and hands the stream over. Whatever the stream
    /// answers, `polled` holds. The stream is never written to.
    pub fn poll(&mut self) -> (r: Result<RequestHandlerResult<S>, Fault>)
        requires
            old(self).holds_stream(),
        ensures
            Self::polled(*old(self), *final(self), r),
    {
        let read = read_into(&mut self.1, self.0.as_mut().unwrap());
        let r = self.received(read);
        r
    }

    /// Gives up the stream.
    pub fn into_inner(self) -> (stream: S)
        requires
            self.holds_stream(),
        ensures
            self.stream() == Some(stream),
    {
        self.0.unwrap()
    }
}

/// What a request handler reports in the end when its reads bring the
/// chunks `chunks`, one after the other, behind the bytes `buffer`: the
/// report of the first read after which the request is no longer
/// incomplete. While every report is `MoreDataRequired`, so is this one.
pub open spec fn fed(buffer: Seq<u8>, chunks: Seq<Seq<u8>>) -> Verdict
    decreases chunks.len(),
{
    if chunks.len() == 0 {
        Verdict::MoreDataRequired
    } else {
        match request_verdict(buffer + chunks.first()) {
            Verdict::MoreDataRequired => fed(buffer + chunks.first(), chunks.drop_first()),
            verdict => verdict,
        }
    }
}

/// The bytes of `bytes` as chunks of one byte each.
pub open spec fn bytewise(bytes: Seq<u8>) -> Seq<Seq<u8>> {
    Seq::new(bytes.len(), |i: int| seq![bytes[i]])
}

/// More bytes do not change what a request asks for. A request with too
/// many headers keeps too many, and a request that is decided, and still
/// decided once more bytes have arrived, is decided in the same way.
pub proof fn verdict_in_extension(short: Seq<u8>, long: Seq<u8>)
    requires
        short.is_prefix_of(long),
    ensures
        request_verdict(short) is Overflow ==> request_verdict(long) is Overflow,
        request_verdict(short).decided() && request_verdict(long).decided() ==> request_verdict(
            short,
        ) == request_verdict(long),
{
    http_object_in_extension(short, long, HEADER_SLOTS as nat);
}

/// As `fed_agrees`, for a handler that has received `buffer` and has found
/// it incomplete.
pub proof fn fed_agrees_from(buffer: Seq<u8>, chunks: Seq<Seq<u8>>)
    requires
        request_verdict(buffer) is MoreDataRequired,
        request_verdict(buffer + chunks.flatten()).decided(),
    ensures
        fed(buffer, chunks) == request_verdict(buffer + chunks.flatten()),
    decreases chunks.len(),
{
    let whole = buffer + chunks.flatten();
    if chunks.len() > 0 {
        let grown = buffer + chunks.first();
        assert(whole =~= grown + chunks.drop_first().flatten());
        verdict_in_extension(grown, whole);
        if request_verdict(grown) is MoreDataRequired {
            fed_agrees_from(grown, chunks.drop_first());
        }
    }
}

/// How the bytes of a request are cut into reads does not matter. Where a
/// request is complete and is decided, a handler that receives it in
/// chunks, however they are cut, reports at its first report what it would
/// report had the whole request come with one read.
pub proof fn fed_agrees(request: Seq<u8>, chunks: Seq<Seq<u8>>)
    requires
        chunks.flatten() == request,
        request_verdict(request).decided(),
    ensures
        fed(Seq::empty(), chunks) == request_verdict(request),
        fed(Seq::empty(), seq![request]) == request_verdict(request),
{
    fed_agrees_from(Seq::empty(), chunks);
}

/// The chunks of one byte each make up the bytes they were cut from.
pub proof fn bytewise_flattens(bytes: Seq<u8>)
    ensures
        bytewise(bytes).flatten() == bytes,
    decreases bytes.len(),
{
    if bytes.len() > 0 {
        bytewise_flattens(bytes.drop_first());
        assert(bytewise(bytes).drop_first() =~= bytewise(bytes.drop_first()));
    }
}

/// A request that arrives one byte at a time is reported as the same
/// request that arrives with one read.
pub proof fn fed_bytewise_agrees(request: Seq<u8>)
    requires
        request_verdict(request).decided(),
    ensures
        fed(Seq::empty(), bytewise(request)) == fed(Seq::empty(), seq![request]),
        fed(Seq::empty(), bytewise(request)) == request_verdict(request),
{
    bytewise_flattens(request);
    fed_agrees(request, bytewise(request));
}

} // verus!
