//! Block-confirmation arithmetic for deposit and release verification.

use vstd::prelude::*;

verus! {

/// Number of blocks mined on top of the block that included a transaction:
/// `current_block - including_block`, or `None` when the chain reports a
/// current height below the including block (a reorg race).
pub fn confirmations_of(current_block: u64, including_block: u64) -> (r: Option<u64>)
    ensures
        including_block <= current_block ==> r == Some((current_block - including_block) as u64),
        including_block > current_block ==> r is None,
{
    current_block.checked_sub(including_block)
}

} // verus!
