//! Where the blocks of a block device lie in the file behind it.
use vstd::prelude::*;

verus! {

/// Where block `block` of a device with blocks of `block_size` bytes
/// starts, in a file of `max_size` bytes. A block that does not end before
/// the end of the file has no place.
pub open spec fn placed(block: nat, block_size: nat, max_size: nat) -> Option<nat> {
    if block * block_size + block_size < max_size {
        Some(block * block_size)
    } else {
        None
    }
}

/// Where block `block` starts in the file, if it has a place there.
pub fn block_offset(block: u64, block_size: usize, max_size: u64) -> (offset: Option<u64>)
    ensures
        match placed(block as nat, block_size as nat, max_size as nat) {
            Some(start) => offset == Some(start as u64) && start + block_size < max_size,
            None => offset is None,
        },
{
    match block.checked_mul(block_size as u64) {
        Some(start) => {
            if start < max_size && max_size - start > block_size as u64 {
                Some(start)
            } else {
                None
            }
        },
        None => None,
    }
}

} // verus!
