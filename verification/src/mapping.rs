//! The boundary to `memmap2`: a writable mapping seen as a span of bytes.

use memmap2::MmapMut;
use std::ops::Deref;
use std::ops::DerefMut;
use vstd::prelude::*;

verus! {

/// `memmap2::MmapMut`, a handle to a writable mapping of fixed length. It is
/// carried as it is; only the functions below look into it.
#[verifier::external_type_specification]
#[verifier::external_body]
pub struct ExMmapMut(MmapMut);

/// The bytes that a writable mapping holds, in address order: what
/// dereferencing the handle shows. The handle is taken to own its mapping,
/// so that the bytes change only through it; a file that something else
/// writes to while it is mapped is outside of this.
pub uninterp spec fn mapped_bytes(mmap: MmapMut) -> Seq<u8>;

/// `<MmapMut as Deref>::deref`: the mapping as a shared slice, which holds
/// exactly the mapped bytes.
#[verifier::external_body]
pub(crate) fn mapped_slice(mmap: &MmapMut) -> (bytes: &[u8])
    ensures
        bytes@ == mapped_bytes(*mmap),
{
    mmap.deref()
}

/// `<MmapMut as DerefMut>::deref_mut`: the mapping as an exclusive slice.
/// The slice starts out as the mapped bytes, and what is written through it
/// is what the mapping holds afterwards.
#[verifier::external_body]
pub(crate) fn mapped_slice_mut(mmap: &mut MmapMut) -> (bytes: &mut [u8])
    ensures
        bytes@ == mapped_bytes(*old(mmap)),
        mapped_bytes(*final(mmap)) == final(bytes)@,
{
    mmap.deref_mut()
}

} // verus!
