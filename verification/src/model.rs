//! What each buffer operation does, stated over the bytes of the backing
//! store. Offsets are byte offsets; the capacity is the number of bytes and
//! no operation changes it.

use crate::error::BufferError;
use crate::span::compacted;
use crate::span::overwritten;
use crate::text::decoded;
use vstd::prelude::*;

verus! {

/// Whether `text` can be written at `position` into a store holding `bytes`.
pub open spec fn insert_status(bytes: Seq<u8>, position: nat, text: Seq<u8>) -> Result<
    (),
    BufferError,
> {
    if position > bytes.len() {
        Err(BufferError::OutOfBounds)
    } else if position + text.len() > bytes.len() {
        Err(BufferError::CapacityExceeded)
    } else {
        Ok(())
    }
}

/// The bytes of the store after `insert`: `text` laid over `bytes` from
/// `position` on where the write is accepted, `bytes` as they were where it
/// is refused. Nothing moves to the right.
pub open spec fn after_insert(bytes: Seq<u8>, position: nat, text: Seq<u8>) -> Seq<u8> {
    if insert_status(bytes, position, text) is Ok {
        overwritten(bytes, position as int, text)
    } else {
        bytes
    }
}

/// Whether `[start, end)` is a range of a store holding `bytes`.
pub open spec fn range_status(bytes: Seq<u8>, start: nat, end: nat) -> Result<(), BufferError> {
    if start > end || end > bytes.len() {
        Err(BufferError::InvalidRange)
    } else {
        Ok(())
    }
}

/// The bytes of the store after `delete`: `bytes` without `[start, end)`,
/// padded with zeros to the same length, where the range is accepted;
/// `bytes` as they were where it is refused.
pub open spec fn after_delete(bytes: Seq<u8>, start: nat, end: nat) -> Seq<u8> {
    if range_status(bytes, start, end) is Ok {
        compacted(bytes, start as int, end as int)
    } else {
        bytes
    }
}

/// What `get_slice` reads: the text encoded in `[start, end)`.
pub open spec fn slice_text(bytes: Seq<u8>, start: nat, end: nat) -> Result<
    Seq<char>,
    BufferError,
> {
    if range_status(bytes, start, end) is Ok {
        decoded(bytes.subrange(start as int, end as int))
    } else {
        Err(BufferError::InvalidRange)
    }
}

} // verus!
