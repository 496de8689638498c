//! Operations that refuse what they cannot do in full, and say why.

use vstd::prelude::*;
use crate::error::InvalidInput;
use crate::model::{size_fault, zeros, BUFFER_LEN};

verus! {

/// Copies all of `src` into the front of `dest`, or nothing at all.
///
/// Where `src` is longer than `dest` the call fails with
/// `InvalidInput::SourceTooLarge` and `dest` is left as it was. Otherwise
/// the first bytes of `dest` become those of `src`, and the bytes behind
/// them keep their values.
pub fn safe_copy(dest: &mut [u8], src: &[u8]) -> (outcome: Result<(), InvalidInput>)
    ensures
        match outcome {
            Ok(_) => src@.len() <= old(dest)@.len() && final(dest)@ == src@ + old(dest)@.skip(
                src@.len() as int,
            ),
            Err(fault) => fault == InvalidInput::SourceTooLarge && src@.len() > old(dest)@.len()
                && final(dest)@ == old(dest)@,
        },
{
    if src.len() > dest.len() {
        return Err(InvalidInput::SourceTooLarge);
    }
    crate::truncating::safe_copy(dest, src);
    Ok(())
}

/// Makes a fresh buffer of `BUFFER_LEN` zero bytes. This cannot fail.
pub fn create_buffer() -> (outcome: Result<Vec<u8>, InvalidInput>)
    ensures
        outcome matches Ok(buffer) && buffer@ == zeros(BUFFER_LEN as nat),
{
    Ok(vec![0u8; BUFFER_LEN])
}

/// Makes a fresh buffer of `size` zero bytes, once the guard on sizes has
/// let `size` pass.
///
/// A `size` of zero fails with `InvalidInput::SizeNotPositive`. A `size`
/// whose bytes number more than `isize::MAX`, the most that one buffer can
/// hold, fails with `InvalidInput::SizeTooLarge`. Both are decided before
/// any memory is asked for. Every size between them is accepted, and the
/// buffer is the caller's to keep. `lemma_size_fault_of_usize` reads the
/// guard for each `usize`.
///
/// An accepted size is handed to the global allocator. Whether the machine
/// has that much memory to give is not part of this contract.
pub fn safe_allocation(size: usize) -> (outcome: Result<Vec<u8>, InvalidInput>)
    ensures
        match outcome {
            Ok(buffer) => size_fault(size as nat) is None && buffer@ == zeros(size as nat),
            Err(fault) => size_fault(size as nat) == Some(fault),
        },
{
    broadcast use vstd::layout::layout_of_primitives;

    if size == 0 {
        return Err(InvalidInput::SizeNotPositive);
    }
    if size > (isize::MAX as usize) / core::mem::size_of::<u8>() {
        return Err(InvalidInput::SizeTooLarge);
    }
    Ok(vec![0u8; size])
}

} // verus!
