//! The pending states of the ledger.

use crate::consensus::certificate::{BlockHash, StateId};
use vstd::prelude::*;

verus! {

/// The ledger, as far as the safety rules read it.
#[derive(Debug, PartialEq, Eq)]
pub struct Ledger {
    /// The blocks that were executed speculatively and are not committed yet.
    pub pending: Vec<BlockHash>,
}

impl View for Ledger {
    type V = Set<BlockHash>;

    /// The set of blocks with a pending state.
    open spec fn view(&self) -> Set<BlockHash> {
        self.pending@.to_set()
    }
}

/// The pending state of block `id`, given the set of blocks that have one.
pub open spec fn pending_state(pending: Set<BlockHash>, id: BlockHash) -> Option<StateId> {
    if pending.contains(id) {
        Some(())
    } else {
        None
    }
}

impl Ledger {
    /// Returns the pending state of the given block, `None` if the block has none.
    pub fn pending_state(&self, id: BlockHash) -> (state: Option<StateId>)
        ensures
            state == pending_state(self@, id),
    {
        for i in 0..self.pending.len()
            invariant
                forall|j: int| 0 <= j < i ==> self.pending@[j] != id,
        {
            if self.pending[i] == id {
                assert(self.pending@.contains(self.pending@[i as int]));
                return Some(());
            }
        }
        None
    }
}

} // verus!
