//! The HTTP vocabulary shared by the parser and the connection engine:
//! methods, header fields, and the request and response views built from
//! the spans that the parser cuts out of a buffer.

use vstd::prelude::*;
use vstd::std_specs::convert::FromSpecImpl;
use vstd::string::StringSliceAdditionalSpecFns;

verus! {

/// ASCII lower-casing of one byte: `A`-`Z` move to `a`-`z`, every other
/// byte stays as it is.
pub open spec fn lower(v: u8) -> u8 {
    if 0x41 <= v <= 0x5a {
        (v + 0x20) as u8
    } else {
        v
    }
}

/// Two byte strings are the same word when case is ignored: equal length,
/// and position by position the lower-cased bytes agree.
pub open spec fn same_ignoring_case(a: Seq<u8>, b: Seq<u8>) -> bool {
    &&& a.len() == b.len()
    &&& forall|i: int| 0 <= i < a.len() ==> lower(a[i]) == lower(b[i])
}

/// The method that a start-line token names. Each of the seven known
/// method names is matched without regard to case, in the order written;
/// any other token is kept as it came under `Other`.
pub open spec fn method_of<'a>(token: &'a [u8]) -> HttpMethod<'a> {
    if same_ignoring_case(token@, "connect".spec_bytes()) {
        HttpMethod::Connect
    } else if same_ignoring_case(token@, "get".spec_bytes()) {
        HttpMethod::Get
    } else if same_ignoring_case(token@, "post".spec_bytes()) {
        HttpMethod::Post
    } else if same_ignoring_case(token@, "put".spec_bytes()) {
        HttpMethod::Put
    } else if same_ignoring_case(token@, "delete".spec_bytes()) {
        HttpMethod::Delete
    } else if same_ignoring_case(token@, "patch".spec_bytes()) {
        HttpMethod::Patch
    } else if same_ignoring_case(token@, "head".spec_bytes()) {
        HttpMethod::Head
    } else {
        HttpMethod::Other(token)
    }
}

/// The method of a request.
#[derive(Debug, PartialEq)]
pub enum HttpMethod<'a> {
    Connect,
    Get,
    Post,
    Put,
    Delete,
    Patch,
    Head,
    /// A token that names none of the methods above, with its bytes
    /// untouched.
    Other(&'a [u8]),
}

/// A header field: the name and the value of one `Name: Value` line.
/// The pair of empty spans stands for "no header" and marks the end of the
/// header section.
#[derive(Debug, PartialEq, Clone, Copy)]
pub struct Header<'a>(pub &'a [u8], pub &'a [u8]);

/// A request: the method, the parts of the start line, the headers that
/// were stored, and whatever the buffer holds after the header section.
pub struct Request<'a> {
    pub method: HttpMethod<'a>,
    pub path: &'a [u8],
    pub version: &'a [u8],
    pub headers: &'a [Header<'a>],
    pub body: &'a [u8],
}

/// A response: the parts of the status line, the headers that were stored,
/// and whatever the buffer holds after the header section.
pub struct Response<'a> {
    pub version: &'a [u8],
    pub status_code: &'a [u8],
    pub status_text: &'a [u8],
    pub headers: &'a [Header<'a>],
    pub body: &'a [u8],
}

pub fn to_lower(v: u8) -> (r: u8)
    ensures
        r == lower(v),
{
    if 0x41 <= v && v <= 0x5a {
        v + 0x20
    } else {
        v
    }
}

fn matches_ignoring_case(a: &[u8], b: &[u8]) -> (r: bool)
    ensures
        r == same_ignoring_case(a@, b@),
{
    if a.len() != b.len() {
        return false;
    }
    let mut i: usize = 0;
    while i < a.len()
        invariant
            i <= a.len(),
            a.len() == b.len(),
            forall|j: int| 0 <= j < i ==> lower(a@[j]) == lower(b@[j]),
        decreases a.len() - i,
    {
        if to_lower(a[i]) != to_lower(b[i]) {
            return false;
        }
        i += 1;
    }
    true
}

/// The position of the first word of `in_set` that equals `to_find` when
/// case is ignored, if there is one.
pub fn which_of(to_find: &[u8], in_set: &[&[u8]]) -> (r: Option<usize>)
    ensures
        match r {
            Some(n) => {
                &&& n < in_set@.len()
                &&& same_ignoring_case(to_find@, in_set@[n as int]@)
                &&& forall|j: int| 0 <= j < n ==> !same_ignoring_case(to_find@, in_set@[j]@)
            },
            None => forall|j: int|
                0 <= j < in_set@.len() ==> !same_ignoring_case(to_find@, in_set@[j]@),
        },
{
    let mut i: usize = 0;
    while i < in_set.len()
        invariant
            i <= in_set.len(),
            forall|j: int| 0 <= j < i ==> !same_ignoring_case(to_find@, in_set@[j]@),
        decreases in_set.len() - i,
    {
        if matches_ignoring_case(to_find, in_set[i]) {
            return Some(i);
        }
        i += 1;
    }
    None
}

/// Ignoring case is symmetric and transitive, so the order of the two
/// words in a comparison, and a detour over a third spelling, change
/// nothing.
pub proof fn same_ignoring_case_is_an_equivalence(a: Seq<u8>, b: Seq<u8>, c: Seq<u8>)
    ensures
        same_ignoring_case(a, a),
        same_ignoring_case(a, b) ==> same_ignoring_case(b, a),
        same_ignoring_case(a, b) && same_ignoring_case(b, c) ==> same_ignoring_case(a, c),
{
}

impl<'a> From<&'a [u8]> for HttpMethod<'a> {
    fn from(bytes: &'a [u8]) -> HttpMethod<'a> {
        let valid: [&[u8]; 7] = [
            "connect".as_bytes(),
            "get".as_bytes(),
            "post".as_bytes(),
            "put".as_bytes(),
            "delete".as_bytes(),
            "patch".as_bytes(),
            "head".as_bytes(),
        ];
        match which_of(bytes, &valid) {
            Some(0) => HttpMethod::Connect,
            Some(1) => HttpMethod::Get,
            Some(2) => HttpMethod::Post,
            Some(3) => HttpMethod::Put,
            Some(4) => HttpMethod::Delete,
            Some(5) => HttpMethod::Patch,
            Some(_) => HttpMethod::Head,
            None => HttpMethod::Other(bytes),
        }
    }
}

impl<'a> FromSpecImpl<&'a [u8]> for HttpMethod<'a> {
    open spec fn obeys_from_spec() -> bool {
        true
    }

    open spec fn from_spec(bytes: &'a [u8]) -> HttpMethod<'a> {
        method_of(bytes)
    }
}

/// The spelling of a method name does not matter: two tokens that differ
/// in case only name the same method, and a token that names none keeps
/// its own bytes.
pub proof fn method_ignores_case<'a>(a: &'a [u8], b: &'a [u8])
    requires
        same_ignoring_case(a@, b@),
    ensures
        method_of(a) is Other <==> method_of(b) is Other,
        !(method_of(a) is Other) ==> method_of(a) == method_of(b),
        method_of(a) is Other ==> method_of(a) == HttpMethod::Other(a) && method_of(b)
            == HttpMethod::Other(b),
{
}

impl<'a> View for Header<'a> {
    type V = (Seq<u8>, Seq<u8>);

    /// The bytes of the name and of the value.
    open spec fn view(&self) -> (Seq<u8>, Seq<u8>) {
        (self.0@, self.1@)
    }
}

impl<'a> Default for Header<'a> {
    fn default() -> (r: Header<'a>)
        ensures
            r@ == (Seq::<u8>::empty(), Seq::<u8>::empty()),
    {
        Header(&[], &[])
    }
}

impl<'a> From<(&'a [u8], &'a [u8], &'a [u8], &'a [Header<'a>], &'a [u8])> for Request<'a> {
    fn from(parts: (&'a [u8], &'a [u8], &'a [u8], &'a [Header<'a>], &'a [u8])) -> Request<'a> {
        let (method, path, version, headers, body) = parts;
        Request { method: HttpMethod::from(method), path, version, headers, body }
    }
}

impl<'a> FromSpecImpl<(&'a [u8], &'a [u8], &'a [u8], &'a [Header<'a>], &'a [u8])> for Request<'a> {
    open spec fn obeys_from_spec() -> bool {
        true
    }

    open spec fn from_spec(
        parts: (&'a [u8], &'a [u8], &'a [u8], &'a [Header<'a>], &'a [u8]),
    ) -> Request<'a> {
        Request {
            method: method_of(parts.0),
            path: parts.1,
            version: parts.2,
            headers: parts.3,
            body: parts.4,
        }
    }
}

impl<'a> From<(&'a [u8], &'a [u8], &'a [u8], &'a [Header<'a>], &'a [u8])> for Response<'a> {
    fn from(parts: (&'a [u8], &'a [u8], &'a [u8], &'a [Header<'a>], &'a [u8])) -> Response<'a> {
        let (version, status, text, headers, body) = parts;
        Response { version, status_code: status, status_text: text, headers, body }
    }
}

impl<'a> FromSpecImpl<(&'a [u8], &'a [u8], &'a [u8], &'a [Header<'a>], &'a [u8])> for Response<'a> {
    open spec fn obeys_from_spec() -> bool {
        true
    }

    open spec fn from_spec(
        parts: (&'a [u8], &'a [u8], &'a [u8], &'a [Header<'a>], &'a [u8]),
    ) -> Response<'a> {
        Response {
            version: parts.0,
            status_code: parts.1,
            status_text: parts.2,
            headers: parts.3,
            body: parts.4,
        }
    }
}

} // verus!
