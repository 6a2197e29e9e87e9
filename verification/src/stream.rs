//! What a connection needs of the outside world: streams that never block.

use vstd::prelude::*;
use vstd::slice::slice_subrange;

verus! {

/// The largest number of bytes that one read asks for.
pub const CHUNK: usize = 512;

/// Why a stream did not read or write.
#[derive(Clone, Copy, Debug, PartialEq, Eq, Structural)]
pub enum StreamError {
    /// Nothing can be read or written right now. This is no failure: the
    /// same call may succeed later.
    WouldBlock,
    /// The stream is broken. Every error but `WouldBlock` is of this kind.
    Failed,
}

/// A duplex byte stream that does not block.
///
/// The engine takes every answer of an implementation as it comes and
/// relies on no promise: an answer that cannot be true, such as a count
/// that exceeds the buffer, is handled as a broken stream.
pub trait Stream {
    /// Reads bytes into the head of `buf` and returns how many. `Ok(0)`
    /// says that the peer has closed the stream.
    fn read(&mut self, buf: &mut [u8]) -> Result<usize, StreamError>;

    /// Writes bytes from the head of `data` and returns how many.
    fn write(&mut self, data: &[u8]) -> Result<usize, StreamError>;
}

/// Whether a read with the result `read` can have taken a buffer from
/// `before` to `after`: the buffer keeps what it held, a read of `n` bytes
/// puts `n` bytes behind that, one chunk at most, and a read that fails or
/// would have blocked puts nothing.
pub open spec fn read_took(
    read: Result<u64, StreamError>,
    before: Seq<u8>,
    after: Seq<u8>,
) -> bool {
    &&& before.is_prefix_of(after)
    &&& match read {
        Ok(n) => n <= CHUNK && after.len() == before.len() + n,
        Err(_) => after == before,
    }
}

/// The bytes that a read has brought, where the stream was offered a
/// scratch buffer, holds `scratch` in it now, and answered `answer`: as
/// many bytes from the head of the scratch buffer as the stream reports,
/// if it reports no more than the buffer can hold, and none otherwise.
pub open spec fn arrived(scratch: Seq<u8>, answer: Result<usize, StreamError>) -> Seq<u8> {
    match answer {
        Ok(n) => if n <= scratch.len() {
            scratch.take(n as int)
        } else {
            Seq::empty()
        },
        Err(_) => Seq::empty(),
    }
}

/// What a read reports, where the stream was offered a scratch buffer of
/// `room` bytes and answered `answer`: the count or the error that the
/// stream gave, but for a count larger than the buffer, which says that the
/// stream has failed.
pub open spec fn read_result(room: nat, answer: Result<usize, StreamError>) -> Result<
    u64,
    StreamError,
> {
    match answer {
        Ok(n) => if n <= room {
            Ok(n as u64)
        } else {
            Err(StreamError::Failed)
        },
        Err(e) => Err(e),
    }
}

/// Takes the answer of a stream to the offer of `scratch`: appends to
/// `buffer` the bytes that the read has brought and returns what the read
/// reports.
pub fn take_in(buffer: &mut Vec<u8>, scratch: &[u8], answer: Result<usize, StreamError>) -> (r:
    Result<u64, StreamError>)
    ensures
        final(buffer)@ == old(buffer)@ + arrived(scratch@, answer),
        r == read_result(scratch@.len(), answer),
{
    match answer {
        Ok(n) => {
            if n <= scratch.len() {
                buffer.extend_from_slice(slice_subrange(scratch, 0, n));
                assert(buffer@ =~= old(buffer)@ + scratch@.take(n as int));
                Ok(n as u64)
            } else {
                assert(buffer@ =~= old(buffer)@ + Seq::<u8>::empty());
                Err(StreamError::Failed)
            }
        },
        Err(e) => {
            assert(buffer@ =~= old(buffer)@ + Seq::<u8>::empty());
            Err(e)
        },
    }
}

/// Reads once from `from`, asking for at most `CHUNK` bytes, and appends
/// what arrived to `buffer`. Returns how many bytes arrived.
///
/// The stream is offered a scratch buffer of `CHUNK` bytes, and `take_in`
/// makes of its answer what is appended and what is returned. Whatever the
/// stream answers, `buffer` keeps what it held, and grows by as many bytes
/// as are reported. A stream that claims to have read more than it was
/// asked for has failed.
pub fn read_into<S: Stream>(buffer: &mut Vec<u8>, from: &mut S) -> (r: Result<u64, StreamError>)
    ensures
        read_took(r, old(buffer)@, final(buffer)@),
{
    let mut tmp = [0u8; CHUNK];
    let answer = from.read(&mut tmp);
    take_in(buffer, &tmp, answer)
}

} // verus!
