//! A fixed-capacity, byte-addressable text buffer over a memory-mapped file.

pub mod buffer;
pub mod empty_buffer;
pub mod error;
pub mod laws;
pub mod mapping;
pub mod mmap_buffer;
pub mod model;
pub mod span;
pub mod text;
pub mod widget;
