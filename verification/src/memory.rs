//! Bytes on their way between the engine and a handler's memory: the bounds
//! rule of every copy, and the decoding of a message that a handler wrote.

use crate::types::{CanisterReply, ReplyView};
use vstd::prelude::*;
use vstd::slice::*;
use vstd::string::*;
use vstd::utf8::*;

verus! {

/// What a handler is told when it asks for bytes that the source does not hold.
pub open spec fn out_of_bounds_message() -> Seq<char> {
    "Out of bound read."@
}

/// A copy of `size` bytes from `offset` stays within a source of `len` bytes.
pub open spec fn in_bounds(offset: int, size: int, len: int) -> bool {
    0 <= offset && 0 <= size && offset + size <= len
}

/// The bytes that a bounded copy hands out: the requested range of the
/// source, or an error and no byte at all where the range leaves the source.
pub open spec fn spec_copy_range(offset: int, size: int, data: Seq<u8>) -> Result<
    Seq<u8>,
    Seq<char>,
> {
    if in_bounds(offset, size, data.len() as int) {
        Ok(data.subrange(offset, offset + size))
    } else {
        Err(out_of_bounds_message())
    }
}

/// A result that carries bytes, as mathematical values.
pub open spec fn bytes_result(r: Result<Vec<u8>, String>) -> Result<Seq<u8>, Seq<char>> {
    match r {
        Ok(bytes) => Ok(bytes@),
        Err(e) => Err(e@),
    }
}

/// A result that carries the outcome of a request, as mathematical values.
pub open spec fn reply_result(r: Result<CanisterReply, String>) -> Result<ReplyView, Seq<char>> {
    match r {
        Ok(reply) => Ok(reply@),
        Err(e) => Err(e@),
    }
}

/// A result that carries a plain value, with its error as a sequence of
/// characters.
pub open spec fn value_result<T>(r: Result<T, String>) -> Result<T, Seq<char>> {
    match r {
        Ok(v) => Ok(v),
        Err(e) => Err(e@),
    }
}

/// Selects the `size` bytes at `offset` of `data` for a handler that asked
/// for them by raw integers. Nothing is handed out unless the whole range
/// lies in `data`.
pub fn copy_range(offset: isize, size: isize, data: &[u8]) -> (r: Result<Vec<u8>, String>)
    ensures
        bytes_result(r) == spec_copy_range(offset as int, size as int, data@),
{
    if offset < 0 || size < 0 {
        return Err(String::from_str("Out of bound read."));
    }
    let start: usize = offset as usize;
    let count: usize = size as usize;
    if count > data.len() || start > data.len() - count {
        return Err(String::from_str("Out of bound read."));
    }
    Ok(slice_to_vec(slice_subrange(data, start, start + count)))
}

/// The text that `String::from_utf8_lossy` makes of a sequence of bytes.
pub uninterp spec fn utf8_lossy(bytes: Seq<u8>) -> Seq<char>;

/// Calls `String::from_utf8_lossy` of std. Its result depends on the bytes
/// alone; bytes that are valid UTF-8 come back as the text they encode, and
/// each invalid sequence is replaced by U+FFFD, which this contract does not
/// spell out.
#[verifier::external_body]
pub(crate) fn decode_lossy(bytes: &[u8]) -> (text: String)
    ensures
        text@ == utf8_lossy(bytes@),
        valid_utf8(bytes@) ==> text@ == decode_utf8(bytes@),
{
    String::from_utf8_lossy(bytes).into_owned()
}

} // verus!
