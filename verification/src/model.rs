//! The mathematical model that the contracts of this crate are stated over,
//! and the laws that hold of it.

use vstd::prelude::*;
use vstd::layout::size_of;
use crate::error::InvalidInput;

verus! {

/// The length of the buffer that `create_buffer` and `create_buffer_safe`
/// hand out.
pub const BUFFER_LEN: usize = 256;

/// The number of bytes that a copy from a source of `src_len` bytes writes
/// into a destination of `dest_len` bytes: the smaller of the two lengths.
pub open spec fn copy_len(dest_len: nat, src_len: nat) -> nat {
    if src_len <= dest_len {
        src_len
    } else {
        dest_len
    }
}

/// The destination after `src` has been laid over its front: the part of
/// `src` that fits, followed by the bytes of `dest` that it does not reach.
pub open spec fn overlay(dest: Seq<u8>, src: Seq<u8>) -> Seq<u8> {
    let n = copy_len(dest.len(), src.len()) as int;
    src.subrange(0, n) + dest.subrange(n, dest.len() as int)
}

/// A buffer of `len` bytes, each of them zero.
pub open spec fn zeros(len: nat) -> Seq<u8> {
    Seq::new(len, |i: int| 0u8)
}

/// The number of bytes that a buffer of `size` elements takes up.
pub open spec fn byte_count(size: nat) -> nat {
    size * size_of::<u8>()
}

/// What is wrong with a request for a buffer of `size` elements, if anything:
/// it asks for nothing at all, or for more bytes than a single buffer can
/// hold, which is `isize::MAX`.
pub open spec fn size_fault(size: nat) -> Option<InvalidInput> {
    if size == 0 {
        Some(InvalidInput::SizeNotPositive)
    } else if byte_count(size) > isize::MAX {
        Some(InvalidInput::SizeTooLarge)
    } else {
        None
    }
}

/// An overlay is as long as the destination was. Up to `copy_len` it holds
/// the bytes of the source, from there on the bytes of the destination.
pub proof fn lemma_overlay_bytes(dest: Seq<u8>, src: Seq<u8>)
    ensures
        overlay(dest, src).len() == dest.len(),
        forall|i: int|
            0 <= i < copy_len(dest.len(), src.len()) ==> overlay(dest, src)[i] == src[i],
        forall|i: int|
            copy_len(dest.len(), src.len()) <= i < dest.len() ==> overlay(dest, src)[i] == dest[i],
{
}

/// A source that fits is taken whole: it becomes the front of the
/// destination, and what lies behind it stays.
pub proof fn lemma_overlay_of_fitting_source(dest: Seq<u8>, src: Seq<u8>)
    requires
        src.len() <= dest.len(),
    ensures
        overlay(dest, src) == src + dest.skip(src.len() as int),
        overlay(dest, src).subrange(0, src.len() as int) == src,
{
}

/// A source at least as long as the destination replaces all of it, and
/// nothing of the source beyond the destination's length is used.
pub proof fn lemma_overlay_of_filling_source(dest: Seq<u8>, src: Seq<u8>)
    requires
        src.len() >= dest.len(),
    ensures
        overlay(dest, src) == src.subrange(0, dest.len() as int),
{
}

/// An empty source leaves the destination as it is, and an empty destination
/// stays empty whatever the source holds.
pub proof fn lemma_overlay_of_nothing(dest: Seq<u8>, src: Seq<u8>)
    ensures
        src.len() == 0 ==> overlay(dest, src) == dest,
        dest.len() == 0 ==> overlay(dest, src) == dest,
{
}

/// A byte takes up one byte, so the guard reads the size itself: zero is
/// refused as not positive, a size above `isize::MAX` as too large, and
/// every size between them passes.
pub proof fn lemma_size_fault_of_usize(size: usize)
    ensures
        byte_count(size as nat) == size,
        size_fault(size as nat) == if size == 0 {
            Some(InvalidInput::SizeNotPositive)
        } else if size > isize::MAX {
            Some(InvalidInput::SizeTooLarge)
        } else {
            None::<InvalidInput>
        },
{
    broadcast use vstd::layout::layout_of_primitives;
}

} // verus!
