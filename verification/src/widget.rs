//! The state behind the editor's buffer widget.

use crate::buffer::Buffer;
use crate::empty_buffer::EmptyBuffer;
use vstd::prelude::*;

verus! {

/// What the buffer widget shows and edits.
pub struct BufferWidget {
    pub buffer: Buffer,
}

impl BufferWidget {
    /// A widget with no file open.
    pub fn new() -> (widget: Self)
        ensures
            widget.buffer == Buffer::Empty(EmptyBuffer {  }),
    {
        BufferWidget { buffer: Buffer::Empty(EmptyBuffer::new()) }
    }
}

/// A widget with no file open.
pub fn buffer_widget() -> (widget: BufferWidget)
    ensures
        widget.buffer == Buffer::Empty(EmptyBuffer {  }),
{
    BufferWidget::new()
}

} // verus!
