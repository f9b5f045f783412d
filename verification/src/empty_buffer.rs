//! The buffer that stands in while no file is open.

use crate::error::BufferError;
use vstd::prelude::*;

verus! {

/// A buffer without a backing store. It holds nothing, and it answers every
/// edit and every read with `Unimplemented`: all there is to do with it is
/// to put a buffer with a backing store in its place.
pub struct EmptyBuffer {}

impl EmptyBuffer {
    /// The buffer to start with, before a file is chosen.
    pub fn new() -> (buffer: Self)
        ensures
            buffer == (EmptyBuffer {  }),
    {
        EmptyBuffer {  }
    }

    /// Refuses the write.
    pub fn insert(&mut self, _position: usize, _text: &str) -> (result: Result<(), BufferError>)
        ensures
            result == Err::<(), BufferError>(BufferError::Unimplemented),
            *final(self) == *old(self),
    {
        Err(BufferError::Unimplemented)
    }

    /// Refuses the removal.
    pub fn delete(&mut self, _start: usize, _end: usize) -> (result: Result<(), BufferError>)
        ensures
            result == Err::<(), BufferError>(BufferError::Unimplemented),
            *final(self) == *old(self),
    {
        Err(BufferError::Unimplemented)
    }

    /// Refuses the read.
    pub fn get_slice(&self, _start: usize, _end: usize) -> (result: Result<String, BufferError>)
        ensures
            result == Err::<String, BufferError>(BufferError::Unimplemented),
    {
        Err(BufferError::Unimplemented)
    }
}

} // verus!
