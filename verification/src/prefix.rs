//! How the parse of a buffer relates to the parse of a longer buffer that
//! begins with it.
//!
//! A connection parses its buffer again after every read. What a parse has
//! found in the bytes at hand, it finds again once more bytes have arrived:
//! the parts of the start line and the headers stay what they were. These
//! lemmas are what makes the report of a request independent of how the
//! bytes were cut into reads.

use crate::parser::{
    find, find_from_is_first, header_line, header_line_consumes, header_section, http_object,
    line_end, line_tail, member, protocol_line, skip, split, Class, Parsed,
};
use vstd::prelude::*;

verus! {

/// A hit inside the shorter buffer is the first hit of the longer one, and
/// where the shorter holds no hit, the longer holds none that early.
pub proof fn find_in_extension(short: Seq<u8>, long: Seq<u8>, class: Class, want: bool)
    requires
        short.is_prefix_of(long),
    ensures
        find(short, class, want) < short.len() ==> find(long, class, want) == find(
            short,
            class,
            want,
        ),
        find(short, class, want) >= short.len() ==> find(long, class, want) >= short.len(),
        0 <= find(short, class, want) <= short.len(),
        0 <= find(long, class, want) <= long.len(),
{
    find_from_is_first(short, 0, class, want);
    find_from_is_first(long, 0, class, want);
    let at = find(short, class, want);
    if at < short.len() {
        assert forall|j: int| 0 <= j < at implies member(class, #[trigger] long[j]) != want by {
            assert(long[j] == short[j]);
        }
    } else {
        let further = find(long, class, want);
        if further < short.len() {
            assert(long[further] == short[further]);
        }
    }
}

/// What is left of the shorter buffer behind a leading run begins what is
/// left of the longer one.
pub proof fn skip_in_extension(short: Seq<u8>, long: Seq<u8>, class: Class)
    requires
        short.is_prefix_of(long),
    ensures
        skip(short, class).is_prefix_of(skip(long, class)),
{
    find_in_extension(short, long, class, false);
}

/// A cut inside the shorter buffer is the cut of the longer one: the first
/// parts are equal, and the second part of the shorter begins that of the
/// longer.
pub proof fn split_in_extension(short: Seq<u8>, long: Seq<u8>, class: Class)
    requires
        short.is_prefix_of(long),
        split(short, class) is Some,
    ensures
        split(long, class) matches Some((head, tail)) && head == split(short, class).unwrap().0
            && split(short, class).unwrap().1.is_prefix_of(tail),
{
    find_in_extension(short, long, class, true);
}

/// A start line that is complete in the shorter buffer reads the same in
/// the longer one, and the remainder of the shorter begins that of the
/// longer.
pub proof fn line_end_in_extension(first: Seq<u8>, second: Seq<u8>, short: Seq<u8>, long: Seq<u8>)
    requires
        short.is_prefix_of(long),
        line_end(first, second, short) is Some,
    ensures
        line_end(first, second, long) matches Some((a, b, c, rest)) && (a, b, c) == (
            first,
            second,
            line_end(first, second, short).unwrap().2,
        ) && line_end(first, second, short).unwrap().3.is_prefix_of(rest),
{
    split_in_extension(short, long, Class::Newline);
    skip_in_extension(
        split(short, Class::Newline).unwrap().1,
        split(long, Class::Newline).unwrap().1,
        Class::Newline,
    );
}

/// As `line_end_in_extension`, from the second part of the line on.
pub proof fn line_tail_in_extension(first: Seq<u8>, short: Seq<u8>, long: Seq<u8>)
    requires
        short.is_prefix_of(long),
        line_tail(first, short) is Some,
    ensures
        line_tail(first, long) matches Some((a, b, c, rest)) && (a, b, c) == (
            first,
            line_tail(first, short).unwrap().1,
            line_tail(first, short).unwrap().2,
        ) && line_tail(first, short).unwrap().3.is_prefix_of(rest),
{
    split_in_extension(short, long, Class::Blank);
    let cut = split(short, Class::Blank)->0;
    let further = split(long, Class::Blank)->0;
    skip_in_extension(cut.1, further.1, Class::Blank);
    line_end_in_extension(first, cut.0, skip(cut.1, Class::Blank), skip(further.1, Class::Blank));
}

/// A start line that is complete in the shorter buffer has the same three
/// parts in the longer one, and the remainder of the shorter begins that of
/// the longer.
pub proof fn protocol_line_in_extension(short: Seq<u8>, long: Seq<u8>)
    requires
        short.is_prefix_of(long),
        protocol_line(short) is Some,
    ensures
        protocol_line(long) matches Some((a, b, c, rest)) && (a, b, c) == (
            protocol_line(short).unwrap().0,
            protocol_line(short).unwrap().1,
            protocol_line(short).unwrap().2,
        ) && protocol_line(short).unwrap().3.is_prefix_of(rest),
{
    split_in_extension(short, long, Class::Blank);
    let cut = split(short, Class::Blank)->0;
    let further = split(long, Class::Blank)->0;
    skip_in_extension(cut.1, further.1, Class::Blank);
    line_tail_in_extension(cut.0, skip(cut.1, Class::Blank), skip(further.1, Class::Blank));
}

/// A header with a name that is complete in the shorter buffer reads the
/// same in the longer one, and the remainder of the shorter begins that of
/// the longer.
pub proof fn header_line_in_extension(short: Seq<u8>, long: Seq<u8>)
    requires
        short.is_prefix_of(long),
        header_line(short) matches Some((name, _, _)) && name.len() > 0,
    ensures
        header_line(long) matches Some((name, value, rest)) && (name, value) == (
            header_line(short).unwrap().0,
            header_line(short).unwrap().1,
        ) && header_line(short).unwrap().2.is_prefix_of(rest),
{
    find_in_extension(short, long, Class::Colon, true);
    let at = find(short, Class::Colon, true);
    let tail = skip(short.skip(at), Class::Separator);
    let further = skip(long.skip(at), Class::Separator);
    skip_in_extension(short.skip(at), long.skip(at), Class::Separator);
    split_in_extension(tail, further, Class::Newline);
    skip_in_extension(
        split(tail, Class::Newline).unwrap().1,
        split(further, Class::Newline).unwrap().1,
        Class::Newline,
    );
}

/// A header section that runs out of slots in the shorter buffer runs out
/// of slots in the longer one.
pub proof fn overflow_in_extension(
    short: Seq<u8>,
    long: Seq<u8>,
    capacity: nat,
    stored: Seq<(Seq<u8>, Seq<u8>)>,
)
    requires
        short.is_prefix_of(long),
        header_section(short, capacity, stored) is Overflow,
    ensures
        header_section(long, capacity, stored) is Overflow,
    decreases short.len(),
{
    let (name, value, rest) = header_line(short)->0;
    header_line_in_extension(short, long);
    header_line_consumes(short);
    if stored.len() < capacity {
        let further = header_line(long).unwrap().2;
        overflow_in_extension(rest, further, capacity, stored.push((name, value)));
    }
}

/// An object that has too many headers in the shorter buffer has too many
/// in the longer one; and where it is complete in both, the start line is
/// the same in both.
pub proof fn http_object_in_extension(short: Seq<u8>, long: Seq<u8>, capacity: nat)
    requires
        short.is_prefix_of(long),
    ensures
        http_object(short, capacity) is Overflow ==> http_object(long, capacity) is Overflow,
        http_object(short, capacity) matches Parsed::Complete(early) ==> (http_object(
            long,
            capacity,
        ) matches Parsed::Complete(late) ==> early.line == late.line),
{
    if protocol_line(short) is Some {
        protocol_line_in_extension(short, long);
        if http_object(short, capacity) is Overflow {
            overflow_in_extension(
                protocol_line(short).unwrap().3,
                protocol_line(long).unwrap().3,
                capacity,
                Seq::empty(),
            );
        }
    }
}

} // verus!
