use memmap2::MmapMut;
use text_buffer::buffer::Buffer;
use text_buffer::empty_buffer::EmptyBuffer;
use text_buffer::error::BufferError;
use text_buffer::mmap_buffer::MmapBuffer;
use text_buffer::widget::buffer_widget;
use text_buffer::widget::BufferWidget;

#[test]
fn empty_buffer_refuses_every_operation() {
    let mut buffer = EmptyBuffer::new();
    assert_eq!(buffer.insert(0, "hi"), Err(BufferError::Unimplemented));
    assert_eq!(buffer.insert(0, ""), Err(BufferError::Unimplemented));
    assert_eq!(buffer.delete(0, 0), Err(BufferError::Unimplemented));
    assert_eq!(buffer.delete(2, 1), Err(BufferError::Unimplemented));
    assert_eq!(buffer.get_slice(0, 0), Err(BufferError::Unimplemented));
    assert_eq!(buffer.get_slice(1, 0), Err(BufferError::Unimplemented));
}

#[test]
fn empty_variant_refuses_every_operation() {
    let mut buffer = Buffer::Empty(EmptyBuffer::new());
    assert_eq!(buffer.insert(0, "hi"), Err(BufferError::Unimplemented));
    assert_eq!(buffer.delete(0, 0), Err(BufferError::Unimplemented));
    assert_eq!(buffer.get_slice(0, 0), Err(BufferError::Unimplemented));
    assert!(matches!(buffer, Buffer::Empty(_)));
}

#[test]
fn mapped_variant_edits_the_mapping() {
    let mapped = MmapBuffer::new(MmapMut::map_anon(10).unwrap());
    let mut buffer = Buffer::MemoryMapped(mapped);
    assert_eq!(buffer.len(), 10);
    assert_eq!(buffer.insert(0, "hi"), Ok(()));
    assert_eq!(buffer.get_slice(0, 2), Ok(String::from("hi")));
    assert_eq!(buffer.delete(0, 2), Ok(()));
    assert_eq!(buffer.get_slice(8, 10), Ok(String::from("\0\0")));
    assert_eq!(buffer.get_slice(0, 8), Ok(String::from("\0\0\0\0\0\0\0\0")));
    assert_eq!(buffer.len(), 10);
}

#[test]
fn mapped_variant_reports_each_failure() {
    let mapped = MmapBuffer::new(MmapMut::map_anon(4).unwrap());
    let mut buffer = Buffer::MemoryMapped(mapped);
    assert_eq!(buffer.insert(5, "a"), Err(BufferError::OutOfBounds));
    assert_eq!(buffer.insert(3, "ab"), Err(BufferError::CapacityExceeded));
    assert_eq!(buffer.delete(3, 2), Err(BufferError::InvalidRange));
    assert_eq!(buffer.get_slice(0, 5), Err(BufferError::InvalidRange));
    assert_eq!(buffer.insert(0, "a\u{e9}"), Ok(()));
    assert_eq!(buffer.get_slice(0, 2), Err(BufferError::InvalidEncoding));
    assert_eq!(buffer.get_slice(0, 4), Ok(String::from("a\u{e9}\0")));
}

#[test]
fn a_new_widget_has_no_file_open() {
    let widget = BufferWidget::new();
    assert!(matches!(widget.buffer, Buffer::Empty(_)));
    let widget = buffer_widget();
    assert!(matches!(widget.buffer, Buffer::Empty(_)));
}

#[test]
fn a_widget_takes_a_mapped_buffer_in_place_of_the_empty_one() {
    let mut widget = buffer_widget();
    assert_eq!(widget.buffer.get_slice(0, 0), Err(BufferError::Unimplemented));
    widget.buffer = Buffer::MemoryMapped(MmapBuffer::new(MmapMut::map_anon(3).unwrap()));
    assert_eq!(widget.buffer.insert(0, "abc"), Ok(()));
    assert_eq!(widget.buffer.get_slice(0, 3), Ok(String::from("abc")));
}

#[test]
fn each_error_has_its_message() {
    assert_eq!(BufferError::OutOfBounds.message(), "Position out of bounds");
    assert_eq!(BufferError::CapacityExceeded.message(), "Not enough space");
    assert_eq!(BufferError::InvalidRange.message(), "Invalid range");
    assert_eq!(BufferError::InvalidEncoding.message(), "Invalid UTF-8");
    assert_eq!(BufferError::Unimplemented.message(), "Not implemented");
}
