//! The buffer as the editor sees it: one of the backings, behind one set of
//! operations.

use crate::empty_buffer::EmptyBuffer;
use crate::error::BufferError;
use crate::mmap_buffer::MmapBuffer;
use crate::model::after_delete;
use crate::model::after_insert;
use crate::model::insert_status;
use crate::model::range_status;
use crate::model::slice_text;
use vstd::pervasive::unreached;
use vstd::prelude::*;
use vstd::utf8::encode_utf8;

verus! {

/// A text buffer of fixed capacity, addressed by byte offsets.
pub enum Buffer {
    /// Backed by a memory-mapped file.
    MemoryMapped(MmapBuffer),
    /// No file is open.
    Empty(EmptyBuffer),
}

impl Buffer {
    /// The bytes of the backing store, or `None` where there is no store.
    pub open spec fn backing(&self) -> Option<Seq<u8>> {
        match self {
            Buffer::MemoryMapped(mapped) => Some(mapped@),
            Buffer::Empty(_) => None,
        }
    }

    /// Writes `text` over the bytes that start at `position`. Nothing is
    /// shifted to make room and the capacity does not grow: a write that
    /// does not fit is refused, and a refused write changes nothing.
    pub fn insert(&mut self, position: usize, text: &str) -> (result: Result<(), BufferError>)
        ensures
            match old(self).backing() {
                Some(bytes) => {
                    &&& result == insert_status(bytes, position as nat, encode_utf8(text@))
                    &&& final(self).backing() == Some(
                        after_insert(bytes, position as nat, encode_utf8(text@)),
                    )
                },
                None => {
                    &&& result == Err::<(), BufferError>(BufferError::Unimplemented)
                    &&& final(self).backing() is None
                },
            },
    {
        match self {
            Buffer::MemoryMapped(mapped) => mapped.insert(position, text),
            Buffer::Empty(empty) => empty.insert(position, text),
        }
    }

    /// Removes the bytes in `[start, end)`: the bytes after the range move
    /// left to `start`, and zeros fill the end, so the capacity stays. A
    /// refused removal changes nothing.
    pub fn delete(&mut self, start: usize, end: usize) -> (result: Result<(), BufferError>)
        ensures
            match old(self).backing() {
                Some(bytes) => {
                    &&& result == range_status(bytes, start as nat, end as nat)
                    &&& final(self).backing() == Some(
                        after_delete(bytes, start as nat, end as nat),
                    )
                },
                None => {
                    &&& result == Err::<(), BufferError>(BufferError::Unimplemented)
                    &&& final(self).backing() is None
                },
            },
    {
        match self {
            Buffer::MemoryMapped(mapped) => mapped.delete(start, end),
            Buffer::Empty(empty) => empty.delete(start, end),
        }
    }

    /// Reads the bytes in `[start, end)` as UTF-8 text. Bytes that are not
    /// valid UTF-8 are reported, never replaced.
    pub fn get_slice(&self, start: usize, end: usize) -> (result: Result<String, BufferError>)
        ensures
            match self.backing() {
                Some(bytes) => match slice_text(bytes, start as nat, end as nat) {
                    Ok(chars) => result matches Ok(text) && text@ == chars,
                    Err(e) => result == Err::<String, BufferError>(e),
                },
                None => result == Err::<String, BufferError>(BufferError::Unimplemented),
            },
    {
        match self {
            Buffer::MemoryMapped(mapped) => mapped.get_slice(start, end),
            Buffer::Empty(empty) => empty.get_slice(start, end),
        }
    }

    /// The capacity in bytes: the length of the backing store, not of the
    /// text in it. A buffer without a backing store has no capacity to
    /// report.
    pub fn len(&self) -> (n: usize)
        requires
            self.backing() is Some,
        ensures
            n == self.backing()->0.len(),
    {
        match self {
            Buffer::MemoryMapped(mapped) => mapped.len(),
            Buffer::Empty(_) => unreached(),
        }
    }
}

} // verus!
