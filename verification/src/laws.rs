//! Laws that relate the buffer operations to each other. Each is stated
//! for a backing store that holds `bytes`, over the functions in which the
//! operations' own contracts are written.

use crate::error::BufferError;
use crate::model::after_delete;
use crate::model::after_insert;
use crate::model::insert_status;
use crate::model::range_status;
use crate::model::slice_text;
use crate::span::zeros;
use vstd::prelude::*;
use vstd::utf8::*;

verus! {

/// `n` NUL characters: the text that `n` zero bytes encode.
pub open spec fn nuls(n: nat) -> Seq<char> {
    Seq::new(n, |i: int| '\0')
}

/// Zero bytes are valid UTF-8 and decode to as many NUL characters.
pub proof fn lemma_zeros_decode(n: nat)
    ensures
        valid_utf8(zeros(n)),
        decode_utf8(zeros(n)) == nuls(n),
{
    assert(is_ascii_chars(nuls(n)));
    is_ascii_chars_encode_utf8(nuls(n));
    assert(encode_utf8(nuls(n)) =~= zeros(n));
    encode_utf8_valid_utf8(nuls(n));
    encode_utf8_decode_utf8(nuls(n));
}

/// A text that fits is accepted, and reading the range it was written to
/// gives the text back.
pub proof fn insert_then_get_slice(bytes: Seq<u8>, position: nat, text: Seq<char>)
    requires
        position + encode_utf8(text).len() <= bytes.len(),
    ensures
        insert_status(bytes, position, encode_utf8(text)) is Ok,
        slice_text(
            after_insert(bytes, position, encode_utf8(text)),
            position,
            position + encode_utf8(text).len(),
        ) == Ok::<Seq<char>, BufferError>(text),
{
    let encoded = encode_utf8(text);
    let after = after_insert(bytes, position, encoded);
    assert(after.subrange(position as int, (position + encoded.len()) as int) =~= encoded);
    encode_utf8_valid_utf8(text);
    encode_utf8_decode_utf8(text);
}

/// A write that starts within the capacity and runs past it is refused as
/// `CapacityExceeded`, and the store is left as it was.
pub proof fn insert_beyond_capacity(bytes: Seq<u8>, position: nat, text: Seq<u8>)
    requires
        position <= bytes.len(),
        position + text.len() > bytes.len(),
    ensures
        insert_status(bytes, position, text) == Err::<(), BufferError>(
            BufferError::CapacityExceeded,
        ),
        after_insert(bytes, position, text) == bytes,
{
}

/// After a removal, the end of the store holds as many zero bytes as were
/// removed, and reading them gives that many NUL characters.
pub proof fn delete_zero_fills_the_end(bytes: Seq<u8>, start: nat, end: nat)
    requires
        start <= end <= bytes.len(),
    ensures
        range_status(bytes, start, end) is Ok,
        after_delete(bytes, start, end).subrange(
            bytes.len() - (end - start),
            bytes.len() as int,
        ) == zeros((end - start) as nat),
        slice_text(
            after_delete(bytes, start, end),
            (bytes.len() - (end - start)) as nat,
            bytes.len(),
        ) == Ok::<Seq<char>, BufferError>(nuls((end - start) as nat)),
{
    let after = after_delete(bytes, start, end);
    assert(after.subrange(bytes.len() - (end - start), bytes.len() as int) =~= zeros(
        (end - start) as nat,
    ));
    lemma_zeros_decode((end - start) as nat);
}

/// After a removal, the bytes that followed the range stand at its start,
/// unchanged and in order, and reading them there gives what reading them
/// before the removal gave.
pub proof fn delete_moves_the_rest_left(bytes: Seq<u8>, start: nat, end: nat)
    requires
        start <= end <= bytes.len(),
    ensures
        after_delete(bytes, start, end).subrange(
            start as int,
            bytes.len() - (end - start),
        ) == bytes.subrange(end as int, bytes.len() as int),
        slice_text(
            after_delete(bytes, start, end),
            start,
            (bytes.len() - (end - start)) as nat,
        ) == slice_text(bytes, end, bytes.len()),
{
    let after = after_delete(bytes, start, end);
    assert(after.subrange(start as int, bytes.len() - (end - start)) =~= bytes.subrange(
        end as int,
        bytes.len() as int,
    ));
}

/// A range that ends beyond the capacity, or that starts after its end, is
/// refused as `InvalidRange`, whatever the store holds.
pub proof fn get_slice_of_invalid_range(bytes: Seq<u8>, start: nat, end: nat)
    requires
        end > bytes.len() || start > end,
    ensures
        slice_text(bytes, start, end) == Err::<Seq<char>, BufferError>(BufferError::InvalidRange),
{
}

/// A write changes no byte outside the range that the text covers.
pub proof fn insert_touches_only_its_range(bytes: Seq<u8>, position: nat, text: Seq<u8>, at: int)
    requires
        0 <= at < bytes.len(),
        at < position || at >= position + text.len(),
    ensures
        after_insert(bytes, position, text)[at] == bytes[at],
{
}

/// A removal changes no byte before the range.
pub proof fn delete_keeps_what_precedes(bytes: Seq<u8>, start: nat, end: nat)
    requires
        start <= end <= bytes.len(),
    ensures
        after_delete(bytes, start, end).subrange(0, start as int) == bytes.subrange(
            0,
            start as int,
        ),
{
    assert(after_delete(bytes, start, end).subrange(0, start as int) =~= bytes.subrange(
        0,
        start as int,
    ));
}

/// No edit changes the capacity.
pub proof fn edits_keep_the_capacity(
    bytes: Seq<u8>,
    position: nat,
    text: Seq<u8>,
    start: nat,
    end: nat,
)
    ensures
        after_insert(bytes, position, text).len() == bytes.len(),
        after_delete(bytes, start, end).len() == bytes.len(),
{
}

} // verus!
