use text_buffer::error::BufferError;
use text_buffer::span::remove_range;
use text_buffer::span::shift_left;
use text_buffer::span::write_at;
use text_buffer::span::zero_from;
use text_buffer::text::decode_text;

#[test]
fn write_at_lays_bytes_over_the_span() {
    let mut span = [1u8, 2, 3, 4, 5];
    write_at(&mut span, 1, &[9, 8]);
    assert_eq!(span, [1, 9, 8, 4, 5]);
    write_at(&mut span, 3, &[7, 6]);
    assert_eq!(span, [1, 9, 8, 7, 6]);
    write_at(&mut span, 5, &[]);
    assert_eq!(span, [1, 9, 8, 7, 6]);
    write_at(&mut span, 0, &[0, 1, 2, 3, 4]);
    assert_eq!(span, [0, 1, 2, 3, 4]);
}

#[test]
fn shift_left_keeps_the_last_bytes() {
    let mut span = [1u8, 2, 3, 4, 5, 6];
    shift_left(&mut span, 3, 1);
    assert_eq!(span, [1, 4, 5, 6, 5, 6]);
    shift_left(&mut span, 6, 2);
    assert_eq!(span, [1, 4, 5, 6, 5, 6]);
    shift_left(&mut span, 1, 0);
    assert_eq!(span, [4, 5, 6, 5, 6, 6]);
    shift_left(&mut span, 2, 2);
    assert_eq!(span, [4, 5, 6, 5, 6, 6]);
}

#[test]
fn zero_from_clears_to_the_end() {
    let mut span = [1u8, 2, 3, 4];
    zero_from(&mut span, 4);
    assert_eq!(span, [1, 2, 3, 4]);
    zero_from(&mut span, 2);
    assert_eq!(span, [1, 2, 0, 0]);
    zero_from(&mut span, 0);
    assert_eq!(span, [0, 0, 0, 0]);
}

#[test]
fn remove_range_compacts_the_span() {
    let mut span = [1u8, 2, 3, 4, 5, 6, 7];
    remove_range(&mut span, 1, 3);
    assert_eq!(span, [1, 4, 5, 6, 7, 0, 0]);
    remove_range(&mut span, 4, 4);
    assert_eq!(span, [1, 4, 5, 6, 7, 0, 0]);
    remove_range(&mut span, 0, 7);
    assert_eq!(span, [0, 0, 0, 0, 0, 0, 0]);
    let mut nothing: [u8; 0] = [];
    remove_range(&mut nothing, 0, 0);
    assert_eq!(nothing, []);
}

#[test]
fn decode_text_is_strict() {
    assert_eq!(decode_text(vec![104, 105]), Ok(String::from("hi")));
    assert_eq!(decode_text(vec![]), Ok(String::new()));
    assert_eq!(decode_text(vec![0, 0]), Ok(String::from("\0\0")));
    assert_eq!(decode_text(vec![0xc3, 0xa9]), Ok(String::from("\u{e9}")));
    assert_eq!(decode_text(vec![0xc3]), Err(BufferError::InvalidEncoding));
    assert_eq!(decode_text(vec![0xa9]), Err(BufferError::InvalidEncoding));
    assert_eq!(decode_text(vec![0xc0, 0x80]), Err(BufferError::InvalidEncoding));
    assert_eq!(decode_text(vec![0xed, 0xa0, 0x80]), Err(BufferError::InvalidEncoding));
    assert_eq!(decode_text(vec![0xf4, 0x90, 0x80, 0x80]), Err(BufferError::InvalidEncoding));
    assert_eq!(decode_text(vec![b'a', 0xff, b'b']), Err(BufferError::InvalidEncoding));
}
