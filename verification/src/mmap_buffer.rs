//! The buffer whose backing store is a memory-mapped file.

use crate::error::BufferError;
use crate::mapping::mapped_bytes;
use crate::mapping::mapped_slice;
use crate::mapping::mapped_slice_mut;
use crate::model::after_delete;
use crate::model::after_insert;
use crate::model::insert_status;
use crate::model::range_status;
use crate::model::slice_text;
use crate::span::remove_range;
use crate::span::write_at;
use crate::text::decode_text;
use memmap2::MmapMut;
use vstd::prelude::*;
use vstd::slice::slice_to_vec;
use vstd::utf8::encode_utf8;

verus! {

/// A buffer over a writable mapping. Its capacity is the length of the
/// mapping, fixed when the mapping was made; edits go straight to the mapped
/// bytes.
pub struct MmapBuffer {
    mmap: MmapMut,
}

impl View for MmapBuffer {
    type V = Seq<u8>;

    /// The mapped bytes.
    closed spec fn view(&self) -> Seq<u8> {
        mapped_bytes(self.mmap)
    }
}

impl MmapBuffer {
    /// Takes over a mapping as the backing store.
    pub fn new(mmap: MmapMut) -> (buffer: Self)
        ensures
            buffer@ == mapped_bytes(mmap),
    {
        MmapBuffer { mmap }
    }

    /// Writes the UTF-8 bytes of `text` over the bytes that start at
    /// `position`. A position beyond the capacity is `OutOfBounds`; a text
    /// that would run past the capacity is `CapacityExceeded`; either way the
    /// mapping is left as it was.
    pub fn insert(&mut self, position: usize, text: &str) -> (result: Result<(), BufferError>)
        ensures
            result == insert_status(old(self)@, position as nat, encode_utf8(text@)),
            final(self)@ == after_insert(old(self)@, position as nat, encode_utf8(text@)),
    {
        let capacity = self.len();
        if position > capacity {
            return Err(BufferError::OutOfBounds);
        }
        let encoded = text.as_bytes();
        if encoded.len() > capacity - position {
            return Err(BufferError::CapacityExceeded);
        }
        let bytes = mapped_slice_mut(&mut self.mmap);
        write_at(bytes, position, encoded);
        Ok(())
    }

    /// Removes the bytes in `[start, end)`: what follows the range moves left
    /// to `start` and zeros fill the end, so the capacity stays. A range with
    /// `start > end` or `end` beyond the capacity is `InvalidRange`, and the
    /// mapping is left as it was.
    pub fn delete(&mut self, start: usize, end: usize) -> (result: Result<(), BufferError>)
        ensures
            result == range_status(old(self)@, start as nat, end as nat),
            final(self)@ == after_delete(old(self)@, start as nat, end as nat),
    {
        if start > end || end > self.len() {
            return Err(BufferError::InvalidRange);
        }
        let bytes = mapped_slice_mut(&mut self.mmap);
        remove_range(bytes, start, end);
        Ok(())
    }

    /// Reads the bytes in `[start, end)` as UTF-8 text. A range with
    /// `start > end` or `end` beyond the capacity is `InvalidRange`; bytes
    /// that are not valid UTF-8 are `InvalidEncoding`.
    pub fn get_slice(&self, start: usize, end: usize) -> (result: Result<String, BufferError>)
        ensures
            match slice_text(self@, start as nat, end as nat) {
                Ok(chars) => result matches Ok(text) && text@ == chars,
                Err(e) => result == Err::<String, BufferError>(e),
            },
    {
        let bytes = mapped_slice(&self.mmap);
        if start > end || end > bytes.len() {
            return Err(BufferError::InvalidRange);
        }
        decode_text(slice_to_vec(&bytes[start..end]))
    }

    /// The capacity in bytes: the length of the mapping, not of the text
    /// in it.
    pub fn len(&self) -> (n: usize)
        ensures
            n == self@.len(),
    {
        mapped_slice(&self.mmap).len()
    }
}

} // verus!
