//! An incremental parser for HTTP requests and responses.
//!
//! The parser works on one contiguous buffer and hands out spans of it:
//! nothing is copied and nothing is allocated. Every parse starts from the
//! beginning of the buffer; a parse that runs out of bytes reports that the
//! object is incomplete, and the caller parses again once more bytes have
//! arrived.
//!
//! What each parser returns is stated over plain byte sequences by the spec
//! functions of this module: [`protocol_line`], [`header_line`] and
//! [`http_object`].

use crate::http::Header;
use vstd::prelude::*;
use vstd::std_specs::convert::FromSpec;

verus! {

pub const TAB: u8 = 0x09;

pub const LF: u8 = 0x0a;

pub const CR: u8 = 0x0d;

pub const SPACE: u8 = 0x20;

pub const COLON: u8 = 0x3a;

/// The kinds of byte that the grammar tells apart.
#[derive(Clone, Copy, Debug)]
pub enum Class {
    /// A space or a tab: what separates the parts of a start line.
    Blank,
    /// A carriage return or a line feed: what ends a line.
    Newline,
    /// The colon that ends a header's name.
    Colon,
    /// A colon, a space or a tab: what may stand between a header's name
    /// and its value.
    Separator,
}

/// Whether the byte `b` is of the kind `class`.
pub open spec fn member(class: Class, b: u8) -> bool {
    match class {
        Class::Blank => b == SPACE || b == TAB,
        Class::Newline => b == CR || b == LF,
        Class::Colon => b == COLON,
        Class::Separator => b == COLON || b == SPACE || b == TAB,
    }
}

/// The least index at or after `from` whose byte is (`want`) or is not
/// (`!want`) of the kind `class`; the length of `s` where there is none.
pub open spec fn find_from(s: Seq<u8>, from: int, class: Class, want: bool) -> int
    decreases s.len() - from,
{
    if from < 0 || from >= s.len() {
        s.len() as int
    } else if member(class, s[from]) == want {
        from
    } else {
        find_from(s, from + 1, class, want)
    }
}

/// The index of the first byte of `s` that is (`want`) or is not (`!want`)
/// of the kind `class`; the length of `s` where there is none.
pub open spec fn find(s: Seq<u8>, class: Class, want: bool) -> int {
    find_from(s, 0, class, want)
}

/// `s` without its leading run of bytes of the kind `class`.
pub open spec fn skip(s: Seq<u8>, class: Class) -> Seq<u8> {
    s.skip(find(s, class, false))
}

/// `s` cut in two in front of its first byte of the kind `class`, which
/// then leads the second part; `None` where `s` holds no such byte.
pub open spec fn split(s: Seq<u8>, class: Class) -> Option<(Seq<u8>, Seq<u8>)> {
    let at = find(s, class, true);
    if at < s.len() {
        Some((s.take(at), s.skip(at)))
    } else {
        None
    }
}

/// The contents of the two spans of a split.
pub open spec fn pair_view(r: Option<(&[u8], &[u8])>) -> Option<(Seq<u8>, Seq<u8>)> {
    match r {
        Some((head, tail)) => Some((head@, tail@)),
        None => None,
    }
}

/// What `find_from` returns lies between `from` and the end, no byte
/// before it is a hit, and the byte at it, if there is one, is a hit.
pub proof fn find_from_is_first(s: Seq<u8>, from: int, class: Class, want: bool)
    requires
        0 <= from <= s.len(),
    ensures
        from <= find_from(s, from, class, want) <= s.len(),
        forall|j: int|
            from <= j < find_from(s, from, class, want) ==> member(class, #[trigger] s[j]) != want,
        find_from(s, from, class, want) < s.len() ==> member(
            class,
            s[find_from(s, from, class, want)],
        ) == want,
    decreases s.len() - from,
{
    if from < s.len() && member(class, s[from]) != want {
        find_from_is_first(s, from + 1, class, want);
    }
}

fn in_class(class: Class, b: u8) -> (r: bool)
    ensures
        r == member(class, b),
{
    match class {
        Class::Blank => b == SPACE || b == TAB,
        Class::Newline => b == CR || b == LF,
        Class::Colon => b == COLON,
        Class::Separator => b == COLON || b == SPACE || b == TAB,
    }
}

fn position(data: &[u8], class: Class, want: bool) -> (at: usize)
    ensures
        at == find(data@, class, want),
        at <= data@.len(),
{
    let mut i: usize = 0;
    while i < data.len()
        invariant
            i <= data@.len(),
            find(data@, class, want) == find_from(data@, i as int, class, want),
        decreases data@.len() - i,
    {
        if in_class(class, data[i]) == want {
            return i;
        }
        i += 1;
    }
    i
}

fn skip_class<'a>(data: &'a [u8], class: Class) -> (tail: &'a [u8])
    ensures
        tail@ == skip(data@, class),
{
    let at = position(data, class, false);
    let (_, tail) = data.split_at(at);
    tail
}

fn split_class<'a>(data: &'a [u8], class: Class) -> (r: Option<(&'a [u8], &'a [u8])>)
    ensures
        pair_view(r) == split(data@, class),
{
    let at = position(data, class, true);
    if at < data.len() {
        Some(data.split_at(at))
    } else {
        None
    }
}

/// Drops the carriage returns and line feeds that lead `data`.
pub fn skip_newline<'a>(data: &'a [u8]) -> (tail: &'a [u8])
    ensures
        tail@ == skip(data@, Class::Newline),
{
    skip_class(data, Class::Newline)
}

/// Drops the spaces and tabs that lead `data`.
pub fn skip_whitespace<'a>(data: &'a [u8]) -> (tail: &'a [u8])
    ensures
        tail@ == skip(data@, Class::Blank),
{
    skip_class(data, Class::Blank)
}

/// Drops the colons, spaces and tabs that lead `data`.
pub fn skip_header_separator<'a>(data: &'a [u8]) -> (tail: &'a [u8])
    ensures
        tail@ == skip(data@, Class::Separator),
{
    skip_class(data, Class::Separator)
}

/// Cuts `data` in front of its first carriage return or line feed.
pub fn split_as_first_newline<'a>(data: &'a [u8]) -> (r: Option<(&'a [u8], &'a [u8])>)
    ensures
        pair_view(r) == split(data@, Class::Newline),
{
    split_class(data, Class::Newline)
}

/// Cuts `data` in front of its first space or tab.
pub fn split_at_first_whitespace<'a>(data: &'a [u8]) -> (r: Option<(&'a [u8], &'a [u8])>)
    ensures
        pair_view(r) == split(data@, Class::Blank),
{
    split_class(data, Class::Blank)
}

/// Cuts `data` in front of its first colon.
pub fn split_at_first_header_separator<'a>(data: &'a [u8]) -> (r: Option<
    (&'a [u8], &'a [u8]),
>)
    ensures
        pair_view(r) == split(data@, Class::Colon),
{
    split_class(data, Class::Colon)
}

/// The end of a start line: `data` holds the third part up to the first
/// carriage return or line feed, and what follows the run of newline bytes
/// is the remainder. `None` while no newline byte has arrived.
pub open spec fn line_end(first: Seq<u8>, second: Seq<u8>, data: Seq<u8>) -> Option<
    (Seq<u8>, Seq<u8>, Seq<u8>, Seq<u8>),
> {
    match split(data, Class::Newline) {
        Some((third, tail)) => Some((first, second, third, skip(tail, Class::Newline))),
        None => None,
    }
}

/// A start line from its second part on: `data` holds the second part up to
/// the first space or tab, then a run of blanks, then the third part.
pub open spec fn line_tail(first: Seq<u8>, data: Seq<u8>) -> Option<
    (Seq<u8>, Seq<u8>, Seq<u8>, Seq<u8>),
> {
    match split(data, Class::Blank) {
        Some((second, tail)) => line_end(first, second, skip(tail, Class::Blank)),
        None => None,
    }
}

/// The start line at the head of `data`: three parts, separated by runs of
/// spaces and tabs and ended by a run of carriage returns and line feeds,
/// and the remainder behind that run. For a request the parts are method,
/// path and version; for a response version, status code and status text.
/// `None` while the line is not ended by a newline byte.
pub open spec fn protocol_line(data: Seq<u8>) -> Option<(Seq<u8>, Seq<u8>, Seq<u8>, Seq<u8>)> {
    match split(data, Class::Blank) {
        Some((first, tail)) => line_tail(first, skip(tail, Class::Blank)),
        None => None,
    }
}

/// The contents of the four spans of a start line.
pub open spec fn line_view(r: Option<(&[u8], &[u8], &[u8], &[u8])>) -> Option<
    (Seq<u8>, Seq<u8>, Seq<u8>, Seq<u8>),
> {
    match r {
        Some((first, second, third, rest)) => Some((first@, second@, third@, rest@)),
        None => None,
    }
}

/// A parser for the start line of a request or a response, such as
/// `CONNECT docs.rs:443 HTTP/1.1`. It holds the parts found so far and the
/// bytes still to be read.
pub enum ProtocolParser<'a> {
    /// Nothing is read yet.
    Method(&'a [u8]),
    /// The first part is read.
    Path(&'a [u8], &'a [u8]),
    /// The first and the second part are read.
    Version(&'a [u8], &'a [u8], &'a [u8]),
    /// The parser has run.
    Done,
}

impl<'a> ProtocolParser<'a> {
    /// What a parse from this state returns.
    pub open spec fn outcome(self) -> Option<(Seq<u8>, Seq<u8>, Seq<u8>, Seq<u8>)> {
        match self {
            ProtocolParser::Method(data) => protocol_line(data@),
            ProtocolParser::Path(first, data) => line_tail(first@, data@),
            ProtocolParser::Version(first, second, data) => line_end(first@, second@, data@),
            ProtocolParser::Done => None,
        }
    }

    /// The number of parts that a parse from this state has yet to read.
    pub open spec fn parts_left(self) -> nat {
        match self {
            ProtocolParser::Method(_) => 3,
            ProtocolParser::Path(_, _) => 2,
            ProtocolParser::Version(_, _, _) => 1,
            ProtocolParser::Done => 0,
        }
    }

    /// A parser for the start line at the head of `bytes`.
    pub fn new(bytes: &'a [u8]) -> (parser: ProtocolParser<'a>)
        ensures
            parser == ProtocolParser::Method(bytes),
    {
        ProtocolParser::Method(bytes)
    }

    /// Reads the start line: its three parts and the remainder, which for a
    /// well-formed object begins at the first header line. Returns `None`
    /// while the line is not complete, and on a parser that has run.
    pub fn parse(&mut self) -> (r: Option<(&'a [u8], &'a [u8], &'a [u8], &'a [u8])>)
        ensures
            line_view(r) == old(self).outcome(),
            *final(self) is Done,
    {
        let mut state = ProtocolParser::Done;
        core::mem::swap(self, &mut state);
        loop
            invariant
                *self is Done,
                state.outcome() == old(self).outcome(),
            decreases state.parts_left(),
        {
            match state {
                ProtocolParser::Method(data) => {
                    match split_at_first_whitespace(data) {
                        Some((val, tail)) => {
                            state = ProtocolParser::Path(val, skip_whitespace(tail));
                        },
                        None => {
                            return None;
                        },
                    }
                },
                ProtocolParser::Path(method, data) => {
                    match split_at_first_whitespace(data) {
                        Some((val, tail)) => {
                            state = ProtocolParser::Version(method, val, skip_whitespace(tail));
                        },
                        None => {
                            return None;
                        },
                    }
                },
                ProtocolParser::Version(method, url, data) => {
                    match split_as_first_newline(data) {
                        Some((val, tail)) => {
                            return Some((method, url, val, skip_newline(tail)));
                        },
                        None => {
                            return None;
                        },
                    }
                },
                ProtocolParser::Done => {
                    return None;
                },
            }
        }
    }
}

/// Whether `data` ends the header section: it begins with a carriage return
/// or a line feed, that is with a blank line, or it holds no colon at all
/// and so cannot hold another header.
pub open spec fn ends_headers(data: Seq<u8>) -> bool {
    ||| data.len() > 0 && member(Class::Newline, data[0])
    ||| find(data, Class::Colon, true) >= data.len()
}

/// A header from its value on: `data` holds the value up to the first
/// carriage return or line feed, and what follows the run of newline bytes
/// is the remainder. `None` while no newline byte has arrived.
pub open spec fn header_value(name: Seq<u8>, data: Seq<u8>) -> Option<
    (Seq<u8>, Seq<u8>, Seq<u8>),
> {
    match split(data, Class::Newline) {
        Some((value, tail)) => Some((name, value, skip(tail, Class::Newline))),
        None => None,
    }
}

/// The header at the head of `data`: its name, its value and the remainder.
///
/// Where `data` ends the header section, name and value are empty and the
/// remainder, the start of the body, is `data` without its leading newline
/// bytes. Otherwise the name runs up to the first colon, a run of colons,
/// spaces and tabs follows, the value runs up to the first carriage return
/// or line feed, and the remainder begins behind the run of newline bytes.
/// `None` while the value is not ended by a newline byte.
pub open spec fn header_line(data: Seq<u8>) -> Option<(Seq<u8>, Seq<u8>, Seq<u8>)> {
    if ends_headers(data) {
        Some((Seq::empty(), Seq::empty(), skip(data, Class::Newline)))
    } else {
        header_value(
            data.take(find(data, Class::Colon, true)),
            skip(data.skip(find(data, Class::Colon, true)), Class::Separator),
        )
    }
}

/// The contents of a header and of the span behind it.
pub open spec fn field_view(r: Option<(Header, &[u8])>) -> Option<(Seq<u8>, Seq<u8>, Seq<u8>)> {
    match r {
        Some((header, rest)) => Some((header.0@, header.1@, rest@)),
        None => None,
    }
}

/// A parser for one header line, such as
/// `Content-Type: text/json; charset=utf-8`. It holds the name, once found,
/// and the bytes still to be read.
pub enum HeaderParser<'a> {
    /// Nothing is read yet.
    Name(&'a [u8]),
    /// The name is read.
    Value(&'a [u8], &'a [u8]),
    /// The parser has run.
    Done,
}

impl<'a> HeaderParser<'a> {
    /// What a parse from this state returns.
    pub open spec fn outcome(self) -> Option<(Seq<u8>, Seq<u8>, Seq<u8>)> {
        match self {
            HeaderParser::Name(data) => header_line(data@),
            HeaderParser::Value(name, data) => header_value(name@, data@),
            HeaderParser::Done => None,
        }
    }

    /// The bytes that a parse from this state has yet to read.
    pub open spec fn unread(self) -> Seq<u8> {
        match self {
            HeaderParser::Name(data) => data@,
            HeaderParser::Value(_, data) => data@,
            HeaderParser::Done => Seq::empty(),
        }
    }

    /// A parser for the header line at the head of `bytes`.
    pub fn new(bytes: &'a [u8]) -> (parser: HeaderParser<'a>)
        ensures
            parser == HeaderParser::Name(bytes),
    {
        HeaderParser::Name(bytes)
    }

    /// Reads one header and the remainder, which for a well-formed object
    /// begins at the next header line, or at the body where the header
    /// section has ended; the header is then the empty one. Returns `None`
    /// while the line is not complete, and on a parser that has run.
    pub fn parse(&mut self) -> (r: Option<(Header<'a>, &'a [u8])>)
        ensures
            field_view(r) == old(self).outcome(),
            *final(self) is Done,
    {
        let mut state = HeaderParser::Done;
        core::mem::swap(self, &mut state);
        let (name, data) = match state {
            HeaderParser::Name(data) => {
                if data.len() > 0 && in_class(Class::Newline, data[0]) {
                    return Some((Header(&[], &[]), skip_newline(data)));
                }
                match split_at_first_header_separator(data) {
                    Some((val, tail)) => (val, skip_header_separator(tail)),
                    None => {
                        return Some((Header(&[], &[]), skip_newline(data)));
                    },
                }
            },
            HeaderParser::Value(name, data) => (name, data),
            HeaderParser::Done => {
                return None;
            },
        };
        match split_as_first_newline(data) {
            Some((val, tail)) => Some((Header(name, val), skip_newline(tail))),
            None => None,
        }
    }
}

/// A parser that could not finish.
#[derive(Clone, Copy, Debug, PartialEq, Eq, Structural)]
pub enum ParseError {
    /// The object holds more headers than the header table has slots.
    CapacityExceeded,
}

/// What reading a header section comes to.
pub enum Scan {
    /// The bytes at hand end inside a header line.
    Incomplete,
    /// A header was found and no slot was free for it.
    Overflow,
    /// The section has ended: the headers in the order of the document, as
    /// pairs of name and value, and the bytes behind the section.
    Complete(Seq<(Seq<u8>, Seq<u8>)>, Seq<u8>),
}

/// What parsing an object comes to.
pub enum Parsed {
    /// The bytes at hand end inside the start line or inside a header line.
    Incomplete,
    /// A header was found and no slot was free for it.
    Overflow,
    /// The object is complete.
    Complete(Parts),
}

/// The parts of a complete object.
pub struct Parts {
    /// The three parts of the start line.
    pub line: (Seq<u8>, Seq<u8>, Seq<u8>),
    /// The headers in the order of the document, as pairs of name and value.
    pub headers: Seq<(Seq<u8>, Seq<u8>)>,
    /// The bytes behind the header section.
    pub body: Seq<u8>,
}

/// A header section that goes on with the header `first`, after the headers
/// `stored` have been put into a table of `capacity` slots. A header with an
/// empty name ends the section; any other header takes the next free slot,
/// and the section goes on behind it.
pub open spec fn section_from(
    first: Option<(Seq<u8>, Seq<u8>, Seq<u8>)>,
    capacity: nat,
    stored: Seq<(Seq<u8>, Seq<u8>)>,
) -> Scan {
    match first {
        None => Scan::Incomplete,
        Some((name, value, rest)) => if name.len() == 0 {
            Scan::Complete(stored, rest)
        } else if stored.len() >= capacity {
            Scan::Overflow
        } else {
            header_section(rest, capacity, stored.push((name, value)))
        },
    }
}

/// The header section at the head of `data`, read into a table of
/// `capacity` slots of which `stored` are taken: `section_from` the header
/// at the head of `data`.
pub open spec fn header_section(
    data: Seq<u8>,
    capacity: nat,
    stored: Seq<(Seq<u8>, Seq<u8>)>,
) -> Scan
    decreases data.len(),
{
    match header_line(data) {
        None => Scan::Incomplete,
        Some((name, value, rest)) => if name.len() == 0 {
            Scan::Complete(stored, rest)
        } else if stored.len() >= capacity {
            Scan::Overflow
        } else {
            proof {
                header_line_consumes(data);
            }
            header_section(rest, capacity, stored.push((name, value)))
        },
    }
}

/// An object from its start line and what its header section came to.
pub open spec fn object_from(
    line: Option<(Seq<u8>, Seq<u8>, Seq<u8>, Seq<u8>)>,
    capacity: nat,
) -> Parsed {
    match line {
        None => Parsed::Incomplete,
        Some((first, second, third, rest)) => object_with(
            (first, second, third),
            header_section(rest, capacity, Seq::empty()),
        ),
    }
}

/// An object from the parts of its start line and what its header section
/// came to.
pub open spec fn object_with(line: (Seq<u8>, Seq<u8>, Seq<u8>), section: Scan) -> Parsed {
    match section {
        Scan::Incomplete => Parsed::Incomplete,
        Scan::Overflow => Parsed::Overflow,
        Scan::Complete(headers, body) => Parsed::Complete(Parts { line, headers, body }),
    }
}

/// The object at the head of `data`, its headers read into a table of
/// `capacity` slots: the start line, then header after header until one
/// with an empty name ends the section, then the body, which is all that
/// `data` holds behind the section.
///
/// An object is complete as soon as a newline byte has ended its start
/// line and no header is left unfinished behind it. The blank line that
/// ends a header section on the wire is not waited for: runs of newline
/// bytes are skipped whole, so that behind a line the blank line cannot be
/// told from the end of the line, and bytes that hold no colon end the
/// section wherever they stand. Bytes that end with the newline byte
/// behind the start line are therefore a complete object without headers
/// (`object_without_headers`), and so are bytes that end with the newline
/// byte behind a header's value. A caller that parses again as bytes
/// arrive sees the object complete at the first such byte; the bytes that
/// arrive later are not part of it.
pub open spec fn http_object(data: Seq<u8>, capacity: nat) -> Parsed {
    object_from(protocol_line(data), capacity)
}

/// Names and values of a run of headers.
pub open spec fn fields(headers: Seq<Header>) -> Seq<(Seq<u8>, Seq<u8>)> {
    Seq::new(headers.len(), |i: int| headers[i]@)
}

/// The contents of the five spans that an object is built from.
pub open spec fn parts_view(spans: (&[u8], &[u8], &[u8], &[Header], &[u8])) -> Parts {
    Parts { line: (spans.0@, spans.1@, spans.2@), headers: fields(spans.3@), body: spans.4@ }
}

/// Behind the value of a header the remainder is shorter than what the
/// value was read from: at least one newline byte is consumed.
pub proof fn header_value_consumes(name: Seq<u8>, data: Seq<u8>)
    ensures
        header_value(name, data) matches Some((_, _, rest)) ==> rest.len() < data.len(),
{
    find_from_is_first(data, 0, Class::Newline, true);
    let at = find(data, Class::Newline, true);
    if at < data.len() {
        let tail = data.skip(at);
        find_from_is_first(tail, 1, Class::Newline, false);
    }
}

/// A header with a name leaves a remainder that is shorter than what it
/// was read from.
pub proof fn header_line_consumes(data: Seq<u8>)
    ensures
        header_line(data) matches Some((name, _, rest)) ==> name.len() == 0 || rest.len()
            < data.len(),
{
    if !ends_headers(data) {
        find_from_is_first(data, 0, Class::Colon, true);
        let tail = data.skip(find(data, Class::Colon, true));
        find_from_is_first(tail, 0, Class::Separator, false);
        header_value_consumes(
            data.take(find(data, Class::Colon, true)),
            skip(tail, Class::Separator),
        );
    }
}

/// A parser for a whole request or response. It holds the header table,
/// the parts found so far and the parser of the part being read.
pub enum HttpObjectParser<'a> {
    /// Nothing is read yet.
    NotStarted(&'a mut [Header<'a>]),
    /// The start line is being read.
    Protocol(&'a mut [Header<'a>], ProtocolParser<'a>),
    /// The start line is read; the header section is being read.
    Headers(&'a [u8], &'a [u8], &'a [u8], &'a mut [Header<'a>], HeaderParser<'a>),
    /// The parser has run.
    Done,
}

impl<'a> HttpObjectParser<'a> {
    /// The number of headers that the table can take. A parser that has run
    /// holds no table.
    pub open spec fn capacity(self) -> nat {
        match self {
            HttpObjectParser::NotStarted(headers) => headers@.len(),
            HttpObjectParser::Protocol(headers, _) => headers@.len(),
            HttpObjectParser::Headers(_, _, _, headers, _) => headers@.len(),
            HttpObjectParser::Done => 0,
        }
    }

    /// What a parse of `data` from this state returns. A parser that has
    /// not started reads the object at the head of `data`; one that holds
    /// the parser of a part goes on from there.
    pub open spec fn outcome(self, data: Seq<u8>) -> Parsed {
        match self {
            HttpObjectParser::NotStarted(headers) => http_object(data, headers@.len()),
            HttpObjectParser::Protocol(headers, parser) => object_from(
                parser.outcome(),
                headers@.len(),
            ),
            HttpObjectParser::Headers(first, second, third, headers, parser) => object_with(
                (first@, second@, third@),
                section_from(parser.outcome(), headers@.len(), Seq::empty()),
            ),
            HttpObjectParser::Done => Parsed::Incomplete,
        }
    }

    /// A parser that stores the headers it finds in `headers`, from the
    /// first slot on.
    pub fn new(headers: &'a mut [Header<'a>]) -> (parser: HttpObjectParser<'a>)
        ensures
            parser matches HttpObjectParser::NotStarted(table) && table@ == old(headers)@,
    {
        HttpObjectParser::NotStarted(headers)
    }

    /// Parses the object at the head of `data` and builds a `T` from its
    /// spans: the three parts of the start line, the filled slots of the
    /// header table, and the body.
    ///
    /// Returns `Ok(None)` while the object is incomplete, and on a parser
    /// that has run. Returns the error when a header is found and every
    /// slot of the table is taken: no header is ever dropped.
    pub fn parse<T>(&mut self, data: &'a [u8]) -> (r: Result<Option<T>, ParseError>) where
        T: From<(&'a [u8], &'a [u8], &'a [u8], &'a [Header<'a>], &'a [u8])>,

        ensures
            *final(self) is Done,
            match old(self).outcome(data@) {
                Parsed::Incomplete => r matches Ok(None),
                Parsed::Overflow => r matches Err(ParseError::CapacityExceeded),
                Parsed::Complete(parts) => r matches Ok(Some(object)) && exists|
                    spans: (&'a [u8], &'a [u8], &'a [u8], &'a [Header<'a>], &'a [u8]),
                |
                    #[trigger] parts_view(spans) == parts && (T::obeys_from_spec() ==> object
                        == T::from_spec(spans)),
            },
    {
        let mut state = HttpObjectParser::Done;
        core::mem::swap(self, &mut state);
        let (part1, part2, part3, headers, mut parser) = match state {
            HttpObjectParser::NotStarted(headers) => {
                let mut line = ProtocolParser::new(data);
                match line.parse() {
                    Some((part1, part2, part3, tail)) => (
                        part1,
                        part2,
                        part3,
                        headers,
                        HeaderParser::new(tail),
                    ),
                    None => {
                        return Ok(None);
                    },
                }
            },
            HttpObjectParser::Protocol(headers, mut line) => {
                match line.parse() {
                    Some((part1, part2, part3, tail)) => (
                        part1,
                        part2,
                        part3,
                        headers,
                        HeaderParser::new(tail),
                    ),
                    None => {
                        return Ok(None);
                    },
                }
            },
            HttpObjectParser::Headers(part1, part2, part3, headers, parser) => (
                part1,
                part2,
                part3,
                headers,
                parser,
            ),
            HttpObjectParser::Done => {
                return Ok(None);
            },
        };
        let mut header_pos: usize = 0;
        let ghost capacity = headers@.len();
        assert(fields(headers@.take(0)) =~= Seq::empty());
        loop
            invariant
                *self is Done,
                headers@.len() == capacity,
                header_pos <= capacity,
                old(self).outcome(data@) == object_with(
                    (part1@, part2@, part3@),
                    section_from(
                        parser.outcome(),
                        capacity,
                        fields(headers@.take(header_pos as int)),
                    ),
                ),
            decreases parser.unread().len(),
        {
            let ghost stored = fields(headers@.take(header_pos as int));
            let ghost unread = parser.unread();
            proof {
                header_line_consumes(unread);
                match parser {
                    HeaderParser::Value(name, rest) => {
                        header_value_consumes(name@, rest@);
                    },
                    _ => {},
                }
            }
            match parser.parse() {
                Some((Header(name, val), tail)) => {
                    if name.len() == 0 {
                        let filled: &'a [Header<'a>] = headers;
                        let spans = (part1, part2, part3, &filled[0..header_pos], tail);
                        assert(parts_view(spans) == (Parts {
                            line: (part1@, part2@, part3@),
                            headers: stored,
                            body: tail@,
                        }));
                        return Ok(Some(T::from(spans)));
                    }
                    if header_pos >= headers.len() {
                        return Err(ParseError::CapacityExceeded);
                    }
                    headers[header_pos] = Header(name, val);
                    parser = HeaderParser::new(tail);
                    header_pos += 1;
                    assert(fields(headers@.take(header_pos as int)) =~= stored.push(
                        (name@, val@),
                    ));
                },
                None => {
                    return Ok(None);
                },
            }
        }
    }
}

/// A start line with nothing behind it is a complete object: it has no
/// headers and an empty body, whatever the table.
pub proof fn object_without_headers(data: Seq<u8>, capacity: nat)
    requires
        protocol_line(data) matches Some((_, _, _, rest)) && rest.len() == 0,
    ensures
        http_object(data, capacity) == Parsed::Complete(
            Parts {
                line: (
                    protocol_line(data).unwrap().0,
                    protocol_line(data).unwrap().1,
                    protocol_line(data).unwrap().2,
                ),
                headers: Seq::empty(),
                body: Seq::empty(),
            },
        ),
{
    let (_, _, _, rest) = protocol_line(data)->0;
    assert(skip(rest, Class::Newline) =~= Seq::<u8>::empty());
}

/// The number of headers in a section decides which tables can take it.
/// Where a table of `large` slots takes the section that begins at `data`,
/// every table with a slot for each header takes it with the same result,
/// and every smaller table runs out of slots.
pub proof fn capacity_decides_section(
    data: Seq<u8>,
    large: nat,
    other: nat,
    stored: Seq<(Seq<u8>, Seq<u8>)>,
)
    requires
        header_section(data, large, stored) is Complete,
        stored.len() <= other,
    ensures
        stored.is_prefix_of(header_section(data, large, stored)->Complete_0),
        stored.len() <= large ==> header_section(data, large, stored)->Complete_0.len() <= large,
        header_section(data, large, stored)->Complete_0.len() <= other ==> header_section(
            data,
            other,
            stored,
        ) == header_section(data, large, stored),
        header_section(data, large, stored)->Complete_0.len() > other ==> header_section(
            data,
            other,
            stored,
        ) is Overflow,
    decreases data.len(),
{
    let (name, value, rest) = header_line(data)->0;
    if name.len() > 0 {
        header_line_consumes(data);
        let more = stored.push((name, value));
        if stored.len() < other {
            capacity_decides_section(rest, large, other, more);
        } else {
            capacity_decides_section(rest, large, other + 1, more);
        }
    }
}

/// A table with exactly one slot for each header of an object is large
/// enough, and a table with one slot less is not: where a table of `large`
/// slots takes the object at the head of `data`, a table of `other` slots
/// gives the same object if it has a slot for each header, and runs out of
/// slots otherwise.
pub proof fn capacity_decides(data: Seq<u8>, large: nat, other: nat)
    requires
        http_object(data, large) is Complete,
    ensures
        http_object(data, large)->Complete_0.headers.len() <= large,
        http_object(data, large)->Complete_0.headers.len() <= other ==> http_object(data, other)
            == http_object(data, large),
        http_object(data, large)->Complete_0.headers.len() > other ==> http_object(data, other)
            is Overflow,
{
    let (_, _, _, rest) = protocol_line(data)->0;
    capacity_decides_section(rest, large, other, Seq::empty());
}

} // verus!
