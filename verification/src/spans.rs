//! Where the remainder of a parse lies in the buffer.
//!
//! A parser reads from the front and never looks back: what it leaves over
//! is the end of what it was given. In particular the body of an object is
//! all that the buffer holds behind the header section.

use crate::parser::{
    ends_headers, find, find_from_is_first, header_line, header_line_consumes, header_section,
    http_object, protocol_line, skip, split, Class, Parsed, Scan,
};
use vstd::prelude::*;

verus! {

/// What is left behind a leading run is the end of the bytes it was taken
/// from.
pub proof fn skip_is_a_suffix(s: Seq<u8>, class: Class)
    ensures
        skip(s, class).is_suffix_of(s),
{
    find_from_is_first(s, 0, class, false);
}

/// The second part of a cut is the end of the bytes that were cut.
pub proof fn split_is_a_suffix(s: Seq<u8>, class: Class)
    ensures
        split(s, class) matches Some((_, tail)) ==> tail.is_suffix_of(s),
{
    find_from_is_first(s, 0, class, true);
}

/// The remainder behind a start line is the end of the bytes that the line
/// was read from.
pub proof fn protocol_line_leaves_a_suffix(data: Seq<u8>)
    ensures
        protocol_line(data) matches Some((_, _, _, rest)) ==> rest.is_suffix_of(data),
{
    if protocol_line(data) is Some {
        let (_, tail) = split(data, Class::Blank)->0;
        split_is_a_suffix(data, Class::Blank);
        let second_on = skip(tail, Class::Blank);
        skip_is_a_suffix(tail, Class::Blank);
        let (_, tail) = split(second_on, Class::Blank)->0;
        split_is_a_suffix(second_on, Class::Blank);
        let third_on = skip(tail, Class::Blank);
        skip_is_a_suffix(tail, Class::Blank);
        let (_, tail) = split(third_on, Class::Newline)->0;
        split_is_a_suffix(third_on, Class::Newline);
        skip_is_a_suffix(tail, Class::Newline);
    }
}

/// The remainder behind a header is the end of the bytes that the header
/// was read from.
pub proof fn header_line_leaves_a_suffix(data: Seq<u8>)
    ensures
        header_line(data) matches Some((_, _, rest)) ==> rest.is_suffix_of(data),
{
    if ends_headers(data) {
        skip_is_a_suffix(data, Class::Newline);
    } else if header_line(data) is Some {
        find_from_is_first(data, 0, Class::Colon, true);
        let tail = data.skip(find(data, Class::Colon, true));
        let value_on = skip(tail, Class::Separator);
        skip_is_a_suffix(tail, Class::Separator);
        let (_, tail) = split(value_on, Class::Newline)->0;
        split_is_a_suffix(value_on, Class::Newline);
        skip_is_a_suffix(tail, Class::Newline);
    }
}

/// The bytes behind a header section are the end of the bytes that the
/// section was read from.
pub proof fn section_leaves_a_suffix(
    data: Seq<u8>,
    capacity: nat,
    stored: Seq<(Seq<u8>, Seq<u8>)>,
)
    ensures
        header_section(data, capacity, stored) matches Scan::Complete(_, body)
            ==> body.is_suffix_of(data),
    decreases data.len(),
{
    if header_section(data, capacity, stored) is Complete {
        let (name, value, rest) = header_line(data)->0;
        header_line_leaves_a_suffix(data);
        if name.len() > 0 {
            header_line_consumes(data);
            section_leaves_a_suffix(rest, capacity, stored.push((name, value)));
        }
    }
}

/// The body of an object is the end of the buffer: all the bytes that the
/// buffer holds behind the header section, and no others.
pub proof fn body_is_a_suffix(data: Seq<u8>, capacity: nat)
    ensures
        http_object(data, capacity) matches Parsed::Complete(parts) ==> parts.body.is_suffix_of(
            data,
        ),
{
    if http_object(data, capacity) is Complete {
        let (_, _, _, rest) = protocol_line(data)->0;
        protocol_line_leaves_a_suffix(data);
        section_leaves_a_suffix(rest, capacity, Seq::empty());
    }
}

} // verus!
