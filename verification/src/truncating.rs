//! Operations that never fail: a source that is too long is cut to fit, and
//! a request that cannot be met yields nothing.

use vstd::prelude::*;
use crate::model::{copy_len, overlay, size_fault, zeros, BUFFER_LEN};

verus! {

/// Copies as much of `src` as fits into the front of `dest`.
///
/// The number of bytes written is the smaller of the two lengths. The bytes
/// of `dest` behind them, if there are any, keep their values, and `dest`
/// keeps its length.
pub fn safe_copy(dest: &mut [u8], src: &[u8])
    ensures
        final(dest)@ == overlay(old(dest)@, src@),
{
    let len: usize = dest.len().min(src.len());
    let mut i: usize = 0;
    while i < len
        invariant
            i <= len,
            len == copy_len(old(dest)@.len(), src@.len()),
            dest@.len() == old(dest)@.len(),
            forall|k: int| 0 <= k < i ==> dest@[k] == src@[k],
            forall|k: int| i <= k < dest@.len() ==> dest@[k] == old(dest)@[k],
        decreases len - i,
    {
        dest[i] = src[i];
        i += 1;
    }
}

/// Makes a fresh buffer of `BUFFER_LEN` zero bytes.
pub fn create_buffer_safe() -> (buffer: Vec<u8>)
    ensures
        buffer@ == zeros(BUFFER_LEN as nat),
{
    vec![0u8; BUFFER_LEN]
}

/// Makes a fresh buffer of `size` zero bytes, or nothing where the guard on
/// sizes refuses `size`: where it is zero, or above `isize::MAX`, the most
/// bytes that one buffer can hold. Either is decided before any memory is
/// asked for.
///
/// An accepted size is handed to the global allocator. Whether the machine
/// has that much memory to give is not part of this contract.
pub fn safe_allocation(size: usize) -> (buffer: Option<Vec<u8>>)
    ensures
        match buffer {
            Some(bytes) => size_fault(size as nat) is None && bytes@ == zeros(size as nat),
            None => size_fault(size as nat) is Some,
        },
{
    broadcast use vstd::layout::layout_of_primitives;

    if size > 0 && size <= (isize::MAX as usize) / core::mem::size_of::<u8>() {
        Some(vec![0u8; size])
    } else {
        None
    }
}

} // verus!
