//! In-memory representation of a Merkle-Patricia trie for holding shard state
//! in volatile memory: an arena that owns all node storage, four node shapes
//! (leaf, extension, branch with and without a value), their canonical byte
//! encoding, recursive bottom-up hash and memory-usage computation, and
//! read-only node views. A small companion layer models the decisions of the
//! state-snapshot manager that surrounds the trie.

pub mod arena;
pub mod hash;
pub mod metrics;
pub mod node;
pub mod raw;
pub mod snapshot;
pub mod sync;
pub mod value;
