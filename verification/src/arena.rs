//! The arena that owns all node storage for one in-memory session.
//!
//! Nodes are held as whole records in a growable vector; an arena index is
//! the record's position in that vector. Growth only appends records, so a
//! position handed out earlier keeps naming the same record — no index is
//! invalidated and no written record is moved or changed by growth. The
//! arena is dropped as a unit, which invalidates every index issued from
//! it; an index must never be read against a different arena.

use crate::node::NodeRecord;
use vstd::prelude::*;

verus! {

/// Bulk-owned storage for trie nodes; indices are positions in `nodes`.
pub struct Arena {
    pub nodes: Vec<NodeRecord>,
}

impl Arena {
    /// An empty arena with room reserved for roughly `capacity` bytes of
    /// node data (a capacity hint, not a limit: the arena grows as needed).
    pub fn new(capacity: usize) -> (r: Arena)
        ensures
            r.nodes@.len() == 0,
    {
        Arena { nodes: Vec::with_capacity(capacity / 64) }
    }

    /// How many nodes this arena holds.
    pub fn node_count(&self) -> (r: usize)
        ensures
            r == self.nodes@.len(),
    {
        self.nodes.len()
    }
}

} // verus!
