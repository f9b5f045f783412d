//! Edits on a fixed-length span of bytes, and the sequences that describe
//! them. The length of a span never changes: writing lays bytes over what is
//! there, and removing a range moves the rest left and pads with zeros.

use vstd::prelude::*;

verus! {

/// `n` zero bytes.
pub open spec fn zeros(n: nat) -> Seq<u8> {
    Seq::new(n, |i: int| 0u8)
}

/// `bytes` with `text` laid over it from `position` on.
pub open spec fn overwritten(bytes: Seq<u8>, position: int, text: Seq<u8>) -> Seq<u8>
    recommends
        0 <= position,
        position + text.len() <= bytes.len(),
{
    bytes.subrange(0, position) + text + bytes.subrange(
        position + text.len(),
        bytes.len() as int,
    )
}

/// `bytes` with everything from `from` on moved left so that it begins at
/// `to`. The last `from - to` bytes keep what they held.
pub open spec fn shifted(bytes: Seq<u8>, from: int, to: int) -> Seq<u8>
    recommends
        0 <= to <= from <= bytes.len(),
{
    bytes.subrange(0, to) + bytes.subrange(from, bytes.len() as int) + bytes.subrange(
        bytes.len() - (from - to),
        bytes.len() as int,
    )
}

/// `bytes` with everything from `from` on set to zero.
pub open spec fn zeroed_from(bytes: Seq<u8>, from: int) -> Seq<u8>
    recommends
        0 <= from <= bytes.len(),
{
    bytes.subrange(0, from) + zeros((bytes.len() - from) as nat)
}

/// `bytes` without the range `[start, end)`: what followed the range moves
/// left to `start`, and as many zeros as were removed fill the end.
pub open spec fn compacted(bytes: Seq<u8>, start: int, end: int) -> Seq<u8>
    recommends
        0 <= start <= end <= bytes.len(),
{
    bytes.subrange(0, start) + bytes.subrange(end, bytes.len() as int) + zeros(
        (end - start) as nat,
    )
}

/// Moving the rest left and then zeroing the vacated end is exactly the
/// removal of the range.
pub proof fn lemma_shift_then_zero(bytes: Seq<u8>, start: int, end: int)
    requires
        0 <= start <= end <= bytes.len(),
    ensures
        zeroed_from(shifted(bytes, end, start), bytes.len() - (end - start)) == compacted(
            bytes,
            start,
            end,
        ),
{
    assert(zeroed_from(shifted(bytes, end, start), bytes.len() - (end - start)) =~= compacted(
        bytes,
        start,
        end,
    ));
}

/// Copies `src` over `dest`, starting at `position`.
pub fn write_at(dest: &mut [u8], position: usize, src: &[u8])
    requires
        position + src@.len() <= old(dest)@.len(),
    ensures
        final(dest)@ == overwritten(old(dest)@, position as int, src@),
{
    let capacity = dest.len();
    let count = src.len();
    let mut i: usize = 0;
    while i < count
        invariant
            i <= count,
            count == src@.len(),
            position + count <= capacity,
            capacity == dest@.len() == old(dest)@.len(),
            forall|j: int|
                0 <= j < dest@.len() ==> dest@[j] == if position <= j < position + i {
                    src@[j - position]
                } else {
                    old(dest)@[j]
                },
        decreases count - i,
    {
        dest[position + i] = src[i];
        i += 1;
    }
    assert(dest@ =~= overwritten(old(dest)@, position as int, src@));
}

/// Moves the bytes from `from` to the end left, so that they begin at `to`.
pub fn shift_left(span: &mut [u8], from: usize, to: usize)
    requires
        to <= from <= old(span)@.len(),
    ensures
        final(span)@ == shifted(old(span)@, from as int, to as int),
{
    let capacity = span.len();
    let count = capacity - from;
    let mut i: usize = 0;
    while i < count
        invariant
            i <= count,
            to <= from,
            from + count == capacity,
            capacity == span@.len() == old(span)@.len(),
            forall|j: int|
                0 <= j < span@.len() ==> span@[j] == if to <= j < to + i {
                    old(span)@[j - to + from]
                } else {
                    old(span)@[j]
                },
        decreases count - i,
    {
        let byte = span[from + i];
        span[to + i] = byte;
        i += 1;
    }
    assert(span@ =~= shifted(old(span)@, from as int, to as int));
}

/// Sets every byte from `from` to the end to zero.
pub fn zero_from(span: &mut [u8], from: usize)
    requires
        from <= old(span)@.len(),
    ensures
        final(span)@ == zeroed_from(old(span)@, from as int),
{
    let end = span.len();
    let mut i: usize = from;
    while i < end
        invariant
            from <= i <= end,
            end == span@.len(),
            span@.len() == old(span)@.len(),
            forall|j: int|
                0 <= j < span@.len() ==> span@[j] == if from <= j < i {
                    0u8
                } else {
                    old(span)@[j]
                },
        decreases end - i,
    {
        span[i] = 0;
        i += 1;
    }
    assert(span@ =~= zeroed_from(old(span)@, from as int));
}

/// Removes the range `[start, end)`: the bytes after it move left to
/// `start`, and the vacated end is filled with zeros.
pub fn remove_range(span: &mut [u8], start: usize, end: usize)
    requires
        start <= end <= old(span)@.len(),
    ensures
        final(span)@ == compacted(old(span)@, start as int, end as int),
{
    let remaining = span.len() - end;
    shift_left(span, end, start);
    zero_from(span, start + remaining);
    proof {
        lemma_shift_then_zero(old(span)@, start as int, end as int);
    }
}

} // verus!
