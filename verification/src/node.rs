//! In-arena trie nodes: construction, recursive hash and memory-usage
//! computation, and read-only views.
//!
//! A node is created once from an input description whose children are
//! already-existing arena indices, so a child's position is always smaller
//! than its parent's and cycles are structurally impossible. Each node
//! carries lazily computed statistics — its content hash and its
//! protocol-level memory usage — which move from unset to computed at most
//! once. A leaf's statistics are computed at construction; a node with
//! children gets them from `compute_hash_recursively`, children first.

use crate::arena::Arena;
use crate::hash::hash;
use crate::hash::sha256_of;
use crate::hash::CryptoHash;
use crate::raw::enc_raw_node_with_size;
use crate::raw::raw_node_wf;
use crate::raw::serialize_raw_trie_node_with_size;
use crate::raw::Children;
use crate::raw::RawTrieNode;
use crate::raw::RawTrieNodeV;
use crate::raw::RawTrieNodeWithSize;
use crate::raw::RawTrieNodeWithSizeV;
use crate::value::copy_bytes;
use crate::value::flat_value_len;
use crate::value::flat_value_ref;
use crate::value::flat_value_wf;
use crate::value::FlatStateValue;
use vstd::prelude::*;

verus! {

/// An opaque index of a node in one specific arena: the position of its
/// record. Valid only for the arena that issued it; equality is equality
/// of the raw position.
#[derive(Clone, Copy, Debug, PartialEq, Eq, Structural)]
pub struct MemTrieNodeId {
    pub pos: usize,
}

/// The immutable shape of a stored node: one of the four variants, with
/// children as arena indices.
pub enum NodeKind {
    Leaf { extension: Vec<u8>, value: FlatStateValue },
    Extension { extension: Vec<u8>, child: MemTrieNodeId },
    Branch { children: Vec<Option<MemTrieNodeId>> },
    BranchWithValue { children: Vec<Option<MemTrieNodeId>>, value: FlatStateValue },
}

/// A node's computed statistics: its content hash and memory usage.
#[derive(Clone, Copy, Debug)]
pub struct NodeStats {
    pub hash: CryptoHash,
    pub memory_usage: u64,
}

/// One arena record: the node's shape, and its statistics once computed.
pub struct NodeRecord {
    pub kind: NodeKind,
    pub stats: Option<NodeStats>,
}

/// The per-variant description a caller hands to `MemTrieNodeId::new`:
/// raw extension bytes, a value, and already-allocated child indices.
pub enum InputMemTrieNode {
    Leaf { extension: Vec<u8>, value: FlatStateValue },
    Extension { extension: Vec<u8>, child: MemTrieNodeId },
    Branch { children: Vec<Option<MemTrieNodeId>> },
    BranchWithValue { children: Vec<Option<MemTrieNodeId>>, value: FlatStateValue },
}

/// The shapes of an arena's records, in order.
pub open spec fn kinds_of(nodes: Seq<NodeRecord>) -> Seq<NodeKind> {
    nodes.map_values(|r: NodeRecord| r.kind)
}

/// What a value adds to a node's memory usage: a fixed 50, plus one per
/// byte of the value it stands for.
pub open spec fn value_cost(v: crate::value::FlatStateValueV) -> nat {
    50 + flat_value_len(v)
}

/// The protocol-level memory usage of node `i`: a fixed 50 per node, two
/// per extension byte, the value's cost, and the memory usage of every
/// child, recursively. This is an accounting number defined by the
/// canonical encoding's cost model; it has no relation to arena layout.
pub open spec fn node_mem(kinds: Seq<NodeKind>, i: int) -> nat
    decreases i, 1int, 0int,
{
    if 0 <= i < kinds.len() {
        match kinds[i] {
            NodeKind::Leaf { extension, value } => 50 + 2 * extension@.len() + value_cost(value@),
            NodeKind::Extension { extension, child } => 50 + 2 * extension@.len() + (if (
            child.pos as int) < i {
                node_mem(kinds, child.pos as int)
            } else {
                0
            }),
            NodeKind::Branch { children } => 50 + children_mem(kinds, children@, 0, i),
            NodeKind::BranchWithValue { children, value } => 50 + value_cost(value@)
                + children_mem(kinds, children@, 0, i),
        }
    } else {
        0
    }
}

/// The summed memory usage of the present children in slots `k` and up.
pub open spec fn children_mem(
    kinds: Seq<NodeKind>,
    cs: Seq<Option<MemTrieNodeId>>,
    k: int,
    i: int,
) -> nat
    decreases i, 0int, cs.len() - k,
{
    if k < 0 || k >= cs.len() {
        0
    } else {
        (match cs[k] {
            Some(c) => if (c.pos as int) < i {
                node_mem(kinds, c.pos as int)
            } else {
                0
            },
            None => 0,
        }) + children_mem(kinds, cs, k + 1, i)
    }
}

/// The hashes of the slots `k` and up: the child's hash where present.
pub open spec fn children_hashes(
    kinds: Seq<NodeKind>,
    cs: Seq<Option<MemTrieNodeId>>,
    k: int,
    i: int,
) -> Seq<Option<Seq<u8>>>
    decreases i, 3int, cs.len() - k,
{
    if k < 0 || k >= cs.len() {
        Seq::empty()
    } else {
        seq![
            match cs[k] {
                Some(c) => if (c.pos as int) < i {
                    Some(node_hash_s(kinds, c.pos as int))
                } else {
                    None
                },
                None => None,
            },
        ] + children_hashes(kinds, cs, k + 1, i)
    }
}

/// The canonical form of node `i`: its own bytes, with each child replaced
/// by that child's hash and the value by its reference form.
pub open spec fn node_raw(kinds: Seq<NodeKind>, i: int) -> RawTrieNodeV
    decreases i, 4int, 0int,
{
    if 0 <= i < kinds.len() {
        match kinds[i] {
            NodeKind::Leaf { extension, value } => RawTrieNodeV::Leaf {
                extension: extension@,
                value: flat_value_ref(value@),
            },
            NodeKind::Extension { extension, child } => RawTrieNodeV::Extension {
                extension: extension@,
                child: if (child.pos as int) < i {
                    node_hash_s(kinds, child.pos as int)
                } else {
                    Seq::empty()
                },
            },
            NodeKind::Branch { children } => RawTrieNodeV::BranchNoValue {
                children: children_hashes(kinds, children@, 0, i),
            },
            NodeKind::BranchWithValue { children, value } => RawTrieNodeV::BranchWithValue {
                value: flat_value_ref(value@),
                children: children_hashes(kinds, children@, 0, i),
            },
        }
    } else {
        RawTrieNodeV::Leaf { extension: Seq::empty(), value: flat_value_ref(
            crate::value::FlatStateValueV::Inlined(Seq::empty()),
        ) }
    }
}

/// The content hash of node `i`: the hash of the byte serialization of its
/// canonical form together with its memory usage. Hashing is strictly
/// bottom-up: the preimage embeds the children's hashes, not their bytes.
pub open spec fn node_hash_s(kinds: Seq<NodeKind>, i: int) -> Seq<u8>
    decreases i, 5int, 0int,
{
    sha256_of(
        enc_raw_node_with_size(
            RawTrieNodeWithSizeV {
                node: node_raw(kinds, i),
                memory_usage: node_mem(kinds, i) as u64,
            },
        ),
    )
}

/// Every present slot among `cs` points below `i`.
pub open spec fn children_slots_wf(cs: Seq<Option<MemTrieNodeId>>, i: int) -> bool {
    forall|k: int|
        0 <= k < cs.len() ==> (match #[trigger] cs[k] {
            Some(c) => (c.pos as int) < i,
            None => true,
        })
}

/// At least one of the slots is occupied.
pub open spec fn some_child(cs: Seq<Option<MemTrieNodeId>>) -> bool {
    exists|k: int| 0 <= k < cs.len() && cs[k] is Some
}

/// Structural well-formedness of node `i`: extension bytes fit their
/// 32-bit length prefix, values are well formed, a branch has exactly 16
/// slots, every child stands strictly below its parent, and a branch
/// without a value has at least one child (a branch with neither children
/// nor value has no canonical meaning and is rejected at construction).
pub open spec fn kind_wf(kinds: Seq<NodeKind>, i: int) -> bool {
    match kinds[i] {
        NodeKind::Leaf { extension, value } => extension@.len() <= u32::MAX && flat_value_wf(
            value@,
        ),
        NodeKind::Extension { extension, child } => extension@.len() <= u32::MAX && (
        child.pos as int) < i,
        NodeKind::Branch { children } => children@.len() == 16 && children_slots_wf(children@, i)
            && some_child(children@),
        NodeKind::BranchWithValue { children, value } => children@.len() == 16
            && children_slots_wf(children@, i) && flat_value_wf(value@),
    }
}

/// Every present child among `cs` has its statistics computed.
pub open spec fn children_stats_set(nodes: Seq<NodeRecord>, cs: Seq<Option<MemTrieNodeId>>) -> bool {
    forall|k: int|
        0 <= k < cs.len() ==> (match #[trigger] cs[k] {
            Some(c) => (c.pos as int) < nodes.len() && nodes[c.pos as int].stats is Some,
            None => true,
        })
}

/// Every child of node `i` has its statistics computed.
pub open spec fn node_children_stats_set(nodes: Seq<NodeRecord>, i: int) -> bool {
    match nodes[i].kind {
        NodeKind::Leaf { .. } => true,
        NodeKind::Extension { child, .. } => (child.pos as int) < nodes.len()
            && nodes[child.pos as int].stats is Some,
        NodeKind::Branch { children } => children_stats_set(nodes, children@),
        NodeKind::BranchWithValue { children, .. } => children_stats_set(nodes, children@),
    }
}

/// If node `i` has statistics, they are exactly its hash and memory usage,
/// and were computed children-first.
pub open spec fn stats_ok(nodes: Seq<NodeRecord>, i: int) -> bool {
    match nodes[i].stats {
        Some(s) => s.hash@ == node_hash_s(kinds_of(nodes), i) && s.memory_usage as nat == node_mem(
            kinds_of(nodes),
            i,
        ) && node_children_stats_set(nodes, i),
        None => true,
    }
}

impl Arena {
    /// The arena invariant: every record is well formed, its memory usage
    /// fits a 64-bit integer, its statistics (if set) are correct, and a
    /// leaf's statistics are always set (they are computed at construction).
    pub open spec fn wf(&self) -> bool {
        forall|i: int|
            0 <= i < self.nodes@.len() ==> #[trigger] kind_wf(kinds_of(self.nodes@), i) && node_mem(
                kinds_of(self.nodes@),
                i,
            ) <= u64::MAX && stats_ok(self.nodes@, i) && (kinds_of(self.nodes@)[i] is Leaf
                ==> self.nodes@[i].stats is Some)
    }
}

/// The shape a construction input turns into, field for field.
pub open spec fn input_kind(input: InputMemTrieNode) -> NodeKind {
    match input {
        InputMemTrieNode::Leaf { extension, value } => NodeKind::Leaf { extension, value },
        InputMemTrieNode::Extension { extension, child } => NodeKind::Extension {
            extension,
            child,
        },
        InputMemTrieNode::Branch { children } => NodeKind::Branch { children },
        InputMemTrieNode::BranchWithValue { children, value } => NodeKind::BranchWithValue {
            children,
            value,
        },
    }
}

/// What construction demands of an input against the arena it will go
/// into: the node it describes must be well formed at the next position —
/// children already exist (strict bottom-up build order), byte strings fit
/// their length prefixes, a branch has 16 slots and, without a value, at
/// least one child — and its memory usage must fit a 64-bit integer.
pub open spec fn input_wf(nodes: Seq<NodeRecord>, input: InputMemTrieNode) -> bool {
    let kinds = kinds_of(nodes).push(input_kind(input));
    let i = nodes.len() as int;
    kind_wf(kinds, i) && node_mem(kinds, i) <= u64::MAX
}

/// The node specs at `i` read nothing of the shapes above `i`: two shape
/// sequences that agree up to `i` give `i` the same memory usage, canonical
/// form and hash.
pub proof fn lemma_specs_prefix(k1: Seq<NodeKind>, k2: Seq<NodeKind>, i: int)
    requires
        0 <= i < k1.len(),
        k1.len() <= k2.len(),
        forall|j: int| 0 <= j <= i ==> k1[j] == k2[j],
    ensures
        node_mem(k1, i) == node_mem(k2, i),
        node_raw(k1, i) == node_raw(k2, i),
        node_hash_s(k1, i) == node_hash_s(k2, i),
    decreases i, 1int, 0int,
{
    match k1[i] {
        NodeKind::Leaf { .. } => {},
        NodeKind::Extension { extension, child } => {
            if (child.pos as int) < i {
                lemma_specs_prefix(k1, k2, child.pos as int);
            }
        },
        NodeKind::Branch { children } => {
            lemma_children_specs_prefix(k1, k2, children@, 0, i);
        },
        NodeKind::BranchWithValue { children, .. } => {
            lemma_children_specs_prefix(k1, k2, children@, 0, i);
        },
    }
}

impl MemTrieNodeId {
    /// Serializes the input description as a new node of the arena and
    /// returns its index. Children referenced by the input must already
    /// exist in this same arena — construction is strictly bottom-up, so a
    /// child's position is always below its parent's and a cycle is
    /// structurally impossible. A leaf's statistics are computed here;
    /// other nodes await `compute_hash_recursively`.
    pub fn new(arena: &mut Arena, input: InputMemTrieNode) -> (id: MemTrieNodeId)
        requires
            old(arena).wf(),
            input_wf(old(arena).nodes@, input),
            old(arena).nodes@.len() < usize::MAX,
        ensures
            final(arena).wf(),
            id.pos == old(arena).nodes@.len(),
            final(arena).nodes@.len() == old(arena).nodes@.len() + 1,
            forall|j: int|
                0 <= j < old(arena).nodes@.len() ==> final(arena).nodes@[j] == old(arena).nodes@[j],
            final(arena).nodes@[id.pos as int].kind == input_kind(input),
            (input_kind(input) is Leaf) <==> (final(arena).nodes@[id.pos as int].stats is Some),
    {
        let ghost old_nodes = arena.nodes@;
        let ghost kinds_new = kinds_of(old_nodes).push(input_kind(input));
        let pos = arena.nodes.len();
        let stats: Option<NodeStats> = match &input {
            InputMemTrieNode::Leaf { extension, value } => {
                proof {
                    assert(kinds_new[pos as int] == input_kind(input));
                    assert(node_mem(kinds_new, pos as int) == 50 + 2 * extension@.len()
                        + value_cost(value@));
                }
                let vlen: u64 = match value {
                    FlatStateValue::Inlined(b) => b.len() as u64,
                    FlatStateValue::Ref(r) => r.length as u64,
                };
                let mem: u64 = 100 + 2 * (extension.len() as u64) + vlen;
                let raw = RawTrieNodeWithSize {
                    node: RawTrieNode::Leaf(copy_bytes(extension), value.to_value_ref()),
                    memory_usage: mem,
                };
                let bytes = serialize_raw_trie_node_with_size(&raw);
                let h = hash(bytes.as_slice());
                proof {
                    assert(raw.node@ == node_raw(kinds_new, pos as int));
                    assert(h@ == node_hash_s(kinds_new, pos as int));
                }
                Some(NodeStats { hash: h, memory_usage: mem })
            },
            _ => None,
        };
        let kind = match input {
            InputMemTrieNode::Leaf { extension, value } => NodeKind::Leaf { extension, value },
            InputMemTrieNode::Extension { extension, child } => NodeKind::Extension {
                extension,
                child,
            },
            InputMemTrieNode::Branch { children } => NodeKind::Branch { children },
            InputMemTrieNode::BranchWithValue { children, value } => NodeKind::BranchWithValue {
                children,
                value,
            },
        };
        arena.nodes.push(NodeRecord { kind, stats });
        proof {
            let nodes2 = arena.nodes@;
            let kinds_o = kinds_of(old_nodes);
            let kinds_n = kinds_of(nodes2);
            assert(kinds_n =~= kinds_new);
            assert forall|j: int| 0 <= j < old_nodes.len() implies node_mem(kinds_n, j) == node_mem(
                kinds_o,
                j,
            ) && node_raw(kinds_n, j) == node_raw(kinds_o, j) && node_hash_s(kinds_n, j)
                == node_hash_s(kinds_o, j) by {
                lemma_specs_prefix(kinds_o, kinds_n, j);
            }
            assert forall|i: int| 0 <= i < nodes2.len() implies #[trigger] kind_wf(kinds_n, i)
                && node_mem(kinds_n, i) <= u64::MAX && stats_ok(nodes2, i) && (kinds_n[i] is Leaf
                ==> nodes2[i].stats is Some) by {
                if i < old_nodes.len() {
                    assert(kind_wf(kinds_of(old(arena).nodes@), i));
                    assert(kind_wf(kinds_o, i) && node_mem(kinds_o, i) <= u64::MAX && stats_ok(
                        old_nodes,
                        i,
                    ));
                    assert(nodes2[i] == old_nodes[i]);
                    assert(kind_wf(kinds_n, i));
                    match old_nodes[i].stats {
                        Some(s) => {
                            assert(node_children_stats_set(nodes2, i)) by {
                                assert(node_children_stats_set(old_nodes, i));
                            }
                        },
                        None => {},
                    }
                } else {
                    assert(i == pos as int);
                }
            }
            assert(arena.wf());
        }
        MemTrieNodeId { pos }
    }

    /// The node's computed statistics; its hash and memory usage must have
    /// been computed first.
    fn read_stats(&self, arena: &Arena) -> (s: NodeStats)
        requires
            arena.wf(),
            self.pos < arena.nodes@.len(),
            arena.nodes@[self.pos as int].stats is Some,
        ensures
            s.hash@ == node_hash_s(kinds_of(arena.nodes@), self.pos as int),
            s.memory_usage as nat == node_mem(kinds_of(arena.nodes@), self.pos as int),
    {
        proof {
            assert(kind_wf(kinds_of(arena.nodes@), self.pos as int));
            assert(stats_ok(arena.nodes@, self.pos as int));
        }
        match &arena.nodes[self.pos].stats {
            Some(s) => *s,
            None => {
                proof {
                    assert(false);
                }
                unreached()
            },
        }
    }

    /// The node's cached content hash. Reading it before
    /// `compute_hash_recursively` has run on this node is a contract
    /// violation, excluded here by precondition.
    pub fn node_hash(&self, arena: &Arena) -> (r: CryptoHash)
        requires
            arena.wf(),
            self.pos < arena.nodes@.len(),
            arena.nodes@[self.pos as int].stats is Some,
        ensures
            r@ == node_hash_s(kinds_of(arena.nodes@), self.pos as int),
    {
        self.read_stats(arena).hash
    }

    /// The node's cached memory usage, under the same contract as
    /// `node_hash`.
    pub fn memory_usage(&self, arena: &Arena) -> (r: u64)
        requires
            arena.wf(),
            self.pos < arena.nodes@.len(),
            arena.nodes@[self.pos as int].stats is Some,
        ensures
            r as nat == node_mem(kinds_of(arena.nodes@), self.pos as int),
    {
        self.read_stats(arena).memory_usage
    }
}

/// `children_hashes` has one entry per slot from `k` up: the hash of the
/// child standing there, or nothing.
proof fn lemma_children_hashes_index(
    kinds: Seq<NodeKind>,
    cs: Seq<Option<MemTrieNodeId>>,
    k: int,
    i: int,
)
    requires
        0 <= k <= cs.len(),
    ensures
        children_hashes(kinds, cs, k, i).len() == cs.len() - k,
        forall|j: int|
            k <= j < cs.len() ==> children_hashes(kinds, cs, k, i)[j - k] == (
            match #[trigger] cs[j] {
                Some(c) => if (c.pos as int) < i {
                    Some(node_hash_s(kinds, c.pos as int))
                } else {
                    None
                },
                None => None::<Seq<u8>>,
            }),
    decreases cs.len() - k,
{
    if k < cs.len() {
        lemma_children_hashes_index(kinds, cs, k + 1, i);
    }
}

/// Builds the hash slots and the summed memory usage of a branch's
/// children, reading each present child's computed statistics.
fn children_raw(arena: &Arena, children: &Vec<Option<MemTrieNodeId>>, parent: Ghost<int>) -> (r: (
    Children,
    u64,
))
    requires
        arena.wf(),
        children@.len() == 16,
        children_slots_wf(children@, parent@),
        parent@ <= arena.nodes@.len(),
        children_stats_set(arena.nodes@, children@),
        children_mem(kinds_of(arena.nodes@), children@, 0, parent@) <= u64::MAX,
    ensures
        r.0@ == children_hashes(kinds_of(arena.nodes@), children@, 0, parent@),
        r.1 as nat == children_mem(kinds_of(arena.nodes@), children@, 0, parent@),
        r.0.0@.len() == 16,
{
    let ghost kinds = kinds_of(arena.nodes@);
    let ghost cs = children@;
    let ghost total = children_mem(kinds, cs, 0, parent@);
    let mut out: Vec<Option<CryptoHash>> = Vec::new();
    let mut mem: u64 = 0;
    let mut k: usize = 0;
    while k < 16
        invariant
            k <= 16,
            arena.wf(),
            cs == children@,
            kinds == kinds_of(arena.nodes@),
            total == children_mem(kinds, cs, 0, parent@),
            total <= u64::MAX,
            cs.len() == 16,
            children_slots_wf(cs, parent@),
            parent@ <= arena.nodes@.len(),
            children_stats_set(arena.nodes@, cs),
            out@.len() == k,
            mem as nat + children_mem(kinds, cs, k as int, parent@) == total,
            forall|j: int|
                0 <= j < k ==> (match (out@[j], #[trigger] cs[j]) {
                    (Some(h), Some(c)) => (c.pos as int) < parent@ && h@ == node_hash_s(
                        kinds,
                        c.pos as int,
                    ),
                    (None, None) => true,
                    _ => false,
                }),
        decreases 16 - k,
    {
        match &children[k] {
            Some(c) => {
                proof {
                    assert(cs[k as int] is Some);
                    assert((c.pos as int) < parent@);
                    assert(children_mem(kinds, cs, k as int, parent@) == node_mem(
                        kinds,
                        c.pos as int,
                    ) + children_mem(kinds, cs, k + 1, parent@));
                }
                let st = c.read_stats(arena);
                out.push(Some(st.hash));
                mem = mem + st.memory_usage;
            },
            None => {
                proof {
                    assert(cs[k as int] is None);
                    assert(children_mem(kinds, cs, k as int, parent@) == children_mem(
                        kinds,
                        cs,
                        k + 1,
                        parent@,
                    ));
                }
                out.push(None);
            },
        }
        k += 1;
    }
    proof {
        assert(children_mem(kinds, cs, 16, parent@) == 0);
        lemma_children_hashes_index(kinds, cs, 0, parent@);
        assert forall|j: int| 0 <= j < 16 implies Children(out)@[j] == children_hashes(
            kinds,
            cs,
            0,
            parent@,
        )[j] by {
            assert(children_hashes(kinds, cs, 0, parent@)[j - 0] == (match cs[j] {
                Some(c) => if (c.pos as int) < parent@ {
                    Some(node_hash_s(kinds, c.pos as int))
                } else {
                    None
                },
                None => None::<Seq<u8>>,
            }));
            match cs[j] {
                Some(c) => {
                    assert((c.pos as int) < parent@);
                },
                None => {},
            }
        }
        assert(Children(out)@ =~= children_hashes(kinds, cs, 0, parent@));
    }
    (Children(out), mem)
}

impl MemTrieNodeId {
    /// The canonical, hashable encoding of this node: its shape with each
    /// child replaced by the child's hash, together with its memory usage.
    /// Children's statistics must already be computed (a leaf needs
    /// nothing).
    pub fn to_raw_trie_node_with_size(&self, arena: &Arena) -> (r: RawTrieNodeWithSize)
        requires
            arena.wf(),
            self.pos < arena.nodes@.len(),
            node_children_stats_set(arena.nodes@, self.pos as int),
        ensures
            r.node@ == node_raw(kinds_of(arena.nodes@), self.pos as int),
            r.memory_usage as nat == node_mem(kinds_of(arena.nodes@), self.pos as int),
            raw_node_wf(r.node@),
    {
        let ghost kinds = kinds_of(arena.nodes@);
        let ghost i = self.pos as int;
        proof {
            assert(kind_wf(kinds, i));
            assert(node_mem(kinds, i) <= u64::MAX);
        }
        match &arena.nodes[self.pos].kind {
            NodeKind::Leaf { extension, value } => {
                let vlen: u64 = match value {
                    FlatStateValue::Inlined(b) => b.len() as u64,
                    FlatStateValue::Ref(r) => r.length as u64,
                };
                let mem: u64 = 100 + 2 * (extension.len() as u64) + vlen;
                RawTrieNodeWithSize {
                    node: RawTrieNode::Leaf(copy_bytes(extension), value.to_value_ref()),
                    memory_usage: mem,
                }
            },
            NodeKind::Extension { extension, child } => {
                let st = child.read_stats(arena);
                proof {
                    assert(node_mem(kinds, i) == 50 + 2 * extension@.len() + node_mem(
                        kinds,
                        child.pos as int,
                    ));
                }
                let mem: u64 = 50 + 2 * (extension.len() as u64) + st.memory_usage;
                RawTrieNodeWithSize {
                    node: RawTrieNode::Extension(copy_bytes(extension), st.hash),
                    memory_usage: mem,
                }
            },
            NodeKind::Branch { children } => {
                proof {
                    assert(node_mem(kinds, i) == 50 + children_mem(kinds, children@, 0, i));
                }
                let r = children_raw(arena, children, Ghost(i));
                RawTrieNodeWithSize {
                    node: RawTrieNode::BranchNoValue(r.0),
                    memory_usage: 50 + r.1,
                }
            },
            NodeKind::BranchWithValue { children, value } => {
                proof {
                    assert(node_mem(kinds, i) == 50 + value_cost(value@) + children_mem(
                        kinds,
                        children@,
                        0,
                        i,
                    ));
                }
                let r = children_raw(arena, children, Ghost(i));
                let vlen: u64 = match value {
                    FlatStateValue::Inlined(b) => b.len() as u64,
                    FlatStateValue::Ref(vr) => vr.length as u64,
                };
                RawTrieNodeWithSize {
                    node: RawTrieNode::BranchWithValue(value.to_value_ref(), r.0),
                    memory_usage: 100 + vlen + r.1,
                }
            },
        }
    }
}

/// The child standing in slot `j` of node `i`, when `i` is a branch.
pub open spec fn branch_slot(kinds: Seq<NodeKind>, i: int, j: int) -> Option<MemTrieNodeId> {
    match kinds[i] {
        NodeKind::Branch { children } => if 0 <= j < children@.len() {
            children@[j]
        } else {
            None
        },
        NodeKind::BranchWithValue { children, .. } => if 0 <= j < children@.len() {
            children@[j]
        } else {
            None
        },
        _ => None,
    }
}

impl MemTrieNodeId {
    /// Populates the hash and memory-usage fields of this node and,
    /// recursively, of any children whose fields are still unset, in
    /// post-order: children before parents. Idempotent — on a node whose
    /// statistics are already computed the arena is left exactly as it
    /// was. This is the only mutating operation after construction; a
    /// computed field is never overwritten.
    pub fn compute_hash_recursively(&self, arena: &mut Arena)
        requires
            old(arena).wf(),
            self.pos < old(arena).nodes@.len(),
        ensures
            final(arena).wf(),
            final(arena).nodes@.len() == old(arena).nodes@.len(),
            kinds_of(final(arena).nodes@) == kinds_of(old(arena).nodes@),
            forall|j: int|
                0 <= j < old(arena).nodes@.len() && old(arena).nodes@[j].stats is Some ==> final(arena).nodes@[j].stats == old(arena).nodes@[j].stats,
            final(arena).nodes@[self.pos as int].stats is Some,
            old(arena).nodes@[self.pos as int].stats is Some ==> final(arena).nodes@ == old(arena).nodes@,
        decreases self.pos,
    {
        let pos = self.pos;
        if arena.nodes[pos].stats.is_some() {
            return ;
        }
        proof {
            assert(kind_wf(kinds_of(arena.nodes@), pos as int));
        }
        let child_opt: Option<MemTrieNodeId> = match &arena.nodes[pos].kind {
            NodeKind::Extension { child, .. } => Some(*child),
            _ => None,
        };
        if let Some(c) = child_opt {
            c.compute_hash_recursively(arena);
        }
        let mut k: usize = 0;
        while k < 16
            invariant
                k <= 16,
                arena.wf(),
                pos == self.pos,
                pos < arena.nodes@.len(),
                arena.nodes@.len() == old(arena).nodes@.len(),
                kinds_of(arena.nodes@) == kinds_of(old(arena).nodes@),
                forall|j: int|
                    0 <= j < old(arena).nodes@.len() && old(arena).nodes@[j].stats is Some
                        ==> arena.nodes@[j].stats == old(arena).nodes@[j].stats,
                child_opt is Some ==> (child_opt->0.pos as int) < arena.nodes@.len() && arena.nodes@[(
                child_opt->0.pos) as int].stats is Some,
                forall|j: int|
                    0 <= j < k ==> (match #[trigger] branch_slot(
                        kinds_of(arena.nodes@),
                        pos as int,
                        j,
                    ) {
                        Some(c) => (c.pos as int) < arena.nodes@.len() && arena.nodes@[c.pos as int].stats
                            is Some,
                        None => true,
                    }),
            decreases 16 - k,
        {
            let slot: Option<MemTrieNodeId> = match &arena.nodes[pos].kind {
                NodeKind::Branch { children } => if k < children.len() {
                    children[k]
                } else {
                    None
                },
                NodeKind::BranchWithValue { children, .. } => if k < children.len() {
                    children[k]
                } else {
                    None
                },
                _ => None,
            };
            proof {
                assert(slot == branch_slot(kinds_of(arena.nodes@), pos as int, k as int));
                assert(kind_wf(kinds_of(arena.nodes@), pos as int));
            }
            if let Some(c) = slot {
                c.compute_hash_recursively(arena);
            }
            k += 1;
        }
        proof {
            assert(stats_ok(arena.nodes@, pos as int));
            assert(!(kinds_of(arena.nodes@)[pos as int] is Leaf)) by {
                assert(kinds_of(old(arena).nodes@)[pos as int] is Leaf ==> old(
                    arena,
                ).nodes@[pos as int].stats is Some);
            }
            assert(node_children_stats_set(arena.nodes@, pos as int)) by {
                match arena.nodes@[pos as int].kind {
                    NodeKind::Leaf { .. } => {},
                    NodeKind::Extension { child, .. } => {
                        assert(kinds_of(arena.nodes@)[pos as int] == arena.nodes@[pos as int].kind);
                        assert(child_opt == Some(child));
                    },
                    NodeKind::Branch { children } => {
                        assert forall|j: int| 0 <= j < children@.len() implies (
                        match #[trigger] children@[j] {
                            Some(c) => (c.pos as int) < arena.nodes@.len()
                                && arena.nodes@[c.pos as int].stats is Some,
                            None => true,
                        }) by {
                            assert(branch_slot(kinds_of(arena.nodes@), pos as int, j)
                                == children@[j]);
                        }
                    },
                    NodeKind::BranchWithValue { children, .. } => {
                        assert forall|j: int| 0 <= j < children@.len() implies (
                        match #[trigger] children@[j] {
                            Some(c) => (c.pos as int) < arena.nodes@.len()
                                && arena.nodes@[c.pos as int].stats is Some,
                            None => true,
                        }) by {
                            assert(branch_slot(kinds_of(arena.nodes@), pos as int, j)
                                == children@[j]);
                        }
                    },
                }
            }
        }
        let ghost pre = arena.nodes@;
        let ghost kinds_pre = kinds_of(pre);
        let raw = self.to_raw_trie_node_with_size(arena);
        let bytes = serialize_raw_trie_node_with_size(&raw);
        let h = hash(bytes.as_slice());
        arena.nodes[pos].stats = Some(NodeStats { hash: h, memory_usage: raw.memory_usage });
        proof {
            let nodes2 = arena.nodes@;
            assert(nodes2 == pre.update(pos as int, NodeRecord {
                kind: pre[pos as int].kind,
                stats: Some(NodeStats { hash: h, memory_usage: raw.memory_usage }),
            }));
            assert(kinds_of(nodes2) =~= kinds_pre);
            assert(h@ == node_hash_s(kinds_pre, pos as int)) by {
                assert(node_mem(kinds_pre, pos as int) <= u64::MAX);
                assert(raw@ == RawTrieNodeWithSizeV {
                    node: node_raw(kinds_pre, pos as int),
                    memory_usage: node_mem(kinds_pre, pos as int) as u64,
                });
            }
            assert forall|i: int| 0 <= i < nodes2.len() implies #[trigger] kind_wf(
                kinds_of(nodes2),
                i,
            ) && node_mem(kinds_of(nodes2), i) <= u64::MAX && stats_ok(nodes2, i) && (kinds_of(
                nodes2,
            )[i] is Leaf ==> nodes2[i].stats is Some) by {
                assert(kind_wf(kinds_pre, i));
                assert(stats_ok(pre, i));
                if i == pos as int {
                    assert(node_children_stats_set(nodes2, i)) by {
                        assert(node_children_stats_set(pre, i));
                        match nodes2[i].kind {
                            NodeKind::Leaf { .. } => {},
                            NodeKind::Extension { .. } => {},
                            NodeKind::Branch { children } => {
                                assert(children_stats_set(nodes2, children@)) by {
                                    assert(children_stats_set(pre, children@));
                                }
                            },
                            NodeKind::BranchWithValue { children, .. } => {
                                assert(children_stats_set(nodes2, children@)) by {
                                    assert(children_stats_set(pre, children@));
                                }
                            },
                        }
                    }
                } else {
                    match pre[i].stats {
                        Some(_) => {
                            assert(node_children_stats_set(nodes2, i)) by {
                                assert(node_children_stats_set(pre, i));
                                match nodes2[i].kind {
                                    NodeKind::Leaf { .. } => {},
                                    NodeKind::Extension { .. } => {},
                                    NodeKind::Branch { children } => {
                                        assert(children_stats_set(nodes2, children@)) by {
                                            assert(children_stats_set(pre, children@));
                                        }
                                    },
                                    NodeKind::BranchWithValue { children, .. } => {
                                        assert(children_stats_set(nodes2, children@)) by {
                                            assert(children_stats_set(pre, children@));
                                        }
                                    },
                                }
                            }
                        },
                        None => {},
                    }
                }
            }
            assert(arena.wf());
        }
    }
}

/// A read-only projection of one node, dispatched on the stored variant.
/// Nodes with children carry their computed hash and memory usage; a
/// leaf's are read through `node_hash` and `memory_usage`.
#[derive(Debug)]
pub enum MemTrieNodeView {
    Leaf { extension: Vec<u8>, value: FlatStateValue },
    Extension { hash: CryptoHash, memory_usage: u64, extension: Vec<u8>, child: MemTrieNodeId },
    Branch { hash: CryptoHash, memory_usage: u64, children: ChildrenView },
    BranchWithValue {
        hash: CryptoHash,
        memory_usage: u64,
        children: ChildrenView,
        value: FlatStateValue,
    },
}

/// The 16 child slots of a branch as seen through a view: an ordered
/// accessor over the sparse array of arena indices.
#[derive(Debug)]
pub struct ChildrenView {
    pub slots: Vec<Option<MemTrieNodeId>>,
}

/// What it means for `v` to be a faithful view of node `i`: the same
/// variant, the same bytes and child indices, and — on nodes that carry
/// them — exactly the computed hash and memory usage.
pub open spec fn view_matches(nodes: Seq<NodeRecord>, i: int, v: MemTrieNodeView) -> bool {
    let kinds = kinds_of(nodes);
    match nodes[i].kind {
        NodeKind::Leaf { extension, value } => {
            &&& v matches MemTrieNodeView::Leaf { extension: e2, value: v2 }
            &&& e2@ == extension@
            &&& v2@ == value@
        },
        NodeKind::Extension { extension, child } => {
            &&& v matches MemTrieNodeView::Extension {
                hash: h2,
                memory_usage: m2,
                extension: e2,
                child: c2,
            }
            &&& h2@ == node_hash_s(kinds, i)
            &&& m2 as nat == node_mem(kinds, i)
            &&& e2@ == extension@
            &&& c2 == child
        },
        NodeKind::Branch { children } => {
            &&& v matches MemTrieNodeView::Branch { hash: h2, memory_usage: m2, children: cv }
            &&& h2@ == node_hash_s(kinds, i)
            &&& m2 as nat == node_mem(kinds, i)
            &&& cv.slots@ == children@
        },
        NodeKind::BranchWithValue { children, value } => {
            &&& v matches MemTrieNodeView::BranchWithValue {
                hash: h2,
                memory_usage: m2,
                children: cv,
                value: v2,
            }
            &&& h2@ == node_hash_s(kinds, i)
            &&& m2 as nat == node_mem(kinds, i)
            &&& cv.slots@ == children@
            &&& v2@ == value@
        },
    }
}

/// An owned copy of a slot vector with the same contents.
fn copy_slots(v: &Vec<Option<MemTrieNodeId>>) -> (r: Vec<Option<MemTrieNodeId>>)
    ensures
        r@ == v@,
{
    let mut r: Vec<Option<MemTrieNodeId>> = Vec::new();
    let mut i: usize = 0;
    while i < v.len()
        invariant
            i <= v@.len(),
            r@ == v@.take(i as int),
        decreases v@.len() - i,
    {
        r.push(v[i]);
        proof {
            assert(v@.take(i as int).push(v@[i as int]) =~= v@.take(i + 1));
        }
        i += 1;
    }
    proof {
        assert(v@.take(v@.len() as int) =~= v@);
    }
    r
}

impl MemTrieNodeId {
    /// A read-only view of this node, dispatching on the stored variant.
    /// The node's statistics must be computed (a leaf's are computed at
    /// construction; reading an uncomputed node is a contract violation,
    /// excluded here by precondition).
    pub fn view(&self, arena: &Arena) -> (v: MemTrieNodeView)
        requires
            arena.wf(),
            self.pos < arena.nodes@.len(),
            arena.nodes@[self.pos as int].stats is Some,
        ensures
            view_matches(arena.nodes@, self.pos as int, v),
    {
        proof {
            assert(kind_wf(kinds_of(arena.nodes@), self.pos as int));
            assert(stats_ok(arena.nodes@, self.pos as int));
        }
        match &arena.nodes[self.pos].kind {
            NodeKind::Leaf { extension, value } => MemTrieNodeView::Leaf {
                extension: copy_bytes(extension),
                value: value.duplicate(),
            },
            NodeKind::Extension { extension, child } => {
                let st = self.read_stats(arena);
                MemTrieNodeView::Extension {
                    hash: st.hash,
                    memory_usage: st.memory_usage,
                    extension: copy_bytes(extension),
                    child: *child,
                }
            },
            NodeKind::Branch { children } => {
                let st = self.read_stats(arena);
                MemTrieNodeView::Branch {
                    hash: st.hash,
                    memory_usage: st.memory_usage,
                    children: ChildrenView { slots: copy_slots(children) },
                }
            },
            NodeKind::BranchWithValue { children, value } => {
                let st = self.read_stats(arena);
                MemTrieNodeView::BranchWithValue {
                    hash: st.hash,
                    memory_usage: st.memory_usage,
                    children: ChildrenView { slots: copy_slots(children) },
                    value: value.duplicate(),
                }
            },
        }
    }
}

/// The present children among `cs`, in ascending slot order.
pub open spec fn present_children(cs: Seq<Option<MemTrieNodeId>>) -> Seq<MemTrieNodeId>
    decreases cs.len(),
{
    if cs.len() == 0 {
        Seq::empty()
    } else {
        (match cs[0] {
            Some(c) => seq![c],
            None => Seq::empty(),
        }) + present_children(cs.drop_first())
    }
}

impl ChildrenView {
    /// The child in the given slot, or nothing where the slot is empty.
    pub fn get(&self, nibble: usize) -> (r: Option<MemTrieNodeId>)
        requires
            nibble < self.slots@.len(),
        ensures
            r == self.slots@[nibble as int],
    {
        self.slots[nibble]
    }

    /// Exactly the present children, in ascending slot order and nothing
    /// else; each call walks the slots afresh.
    pub fn iter(&self) -> (r: Vec<MemTrieNodeId>)
        ensures
            r@ == present_children(self.slots@),
    {
        let ghost cs = self.slots@;
        let mut r: Vec<MemTrieNodeId> = Vec::new();
        let mut k: usize = 0;
        proof {
            assert(cs.skip(0) =~= cs);
        }
        while k < self.slots.len()
            invariant
                k <= cs.len(),
                cs == self.slots@,
                r@ + present_children(cs.skip(k as int)) == present_children(cs),
            decreases cs.len() - k,
        {
            proof {
                assert(cs.skip(k as int).drop_first() =~= cs.skip(k as int + 1));
                assert(cs.skip(k as int)[0] == cs[k as int]);
            }
            if let Some(c) = self.slots[k] {
                r.push(c);
                proof {
                    assert(r@ + present_children(cs.skip(k as int + 1)) =~= present_children(cs));
                }
            } else {
                proof {
                    assert(r@ + present_children(cs.skip(k as int + 1)) =~= present_children(cs));
                }
            }
            k += 1;
        }
        proof {
            assert(cs.skip(cs.len() as int) =~= Seq::empty());
            assert(r@ + Seq::<MemTrieNodeId>::empty() =~= r@);
        }
        r
    }
}

/// The 16-slot array described by (slot, child) pairs: the named slots
/// hold their children — a later pair overrides an earlier one on the
/// same slot — and every other slot is empty.
pub open spec fn branch_array_spec(ps: Seq<(usize, MemTrieNodeId)>) -> Seq<Option<MemTrieNodeId>>
    decreases ps.len(),
{
    if ps.len() == 0 {
        Seq::new(16, |j: int| None)
    } else {
        branch_array_spec(ps.drop_last()).update(ps.last().0 as int, Some(ps.last().1))
    }
}

/// Builds the 16-slot sparse children array from (slot, child) pairs;
/// slots must be below 16.
pub fn branch_array(children: Vec<(usize, MemTrieNodeId)>) -> (r: Vec<Option<MemTrieNodeId>>)
    requires
        forall|j: int| 0 <= j < children@.len() ==> (#[trigger] children@[j]).0 < 16,
    ensures
        r@ == branch_array_spec(children@),
        r@.len() == 16,
{
    let mut r: Vec<Option<MemTrieNodeId>> = vec![None;16];
    proof {
        assert(children@.take(0) =~= Seq::<(usize, MemTrieNodeId)>::empty());
        assert(r@ =~= branch_array_spec(children@.take(0)));
    }
    let mut i: usize = 0;
    while i < children.len()
        invariant
            i <= children@.len(),
            forall|j: int| 0 <= j < children@.len() ==> (#[trigger] children@[j]).0 < 16,
            r@ == branch_array_spec(children@.take(i as int)),
            r@.len() == 16,
        decreases children@.len() - i,
    {
        let idx = children[i].0;
        let c = children[i].1;
        r[idx] = Some(c);
        proof {
            assert(children@.take(i as int + 1).drop_last() =~= children@.take(i as int));
            assert(children@.take(i as int + 1).last() == children@[i as int]);
        }
        i += 1;
    }
    proof {
        assert(children@.take(children@.len() as int) =~= children@);
    }
    r
}

/// Law: for every variant, a node's hash is the content hash of the byte
/// serialization of its canonical encoding together with its memory usage.
pub proof fn lemma_node_hash_is_hash_of_encoding(kinds: Seq<NodeKind>, i: int)
    requires
        0 <= i < kinds.len(),
    ensures
        node_hash_s(kinds, i) == sha256_of(
            enc_raw_node_with_size(
                RawTrieNodeWithSizeV {
                    node: node_raw(kinds, i),
                    memory_usage: node_mem(kinds, i) as u64,
                },
            ),
        ),
{
}

/// Law: a leaf's memory usage is 100 plus two per extension byte plus one
/// per value byte — 100 with an empty extension and empty inlined value,
/// 115 with five bytes of each.
pub proof fn lemma_leaf_memory_usage(
    kinds: Seq<NodeKind>,
    i: int,
    extension: Vec<u8>,
    value: FlatStateValue,
)
    requires
        0 <= i < kinds.len(),
        (kinds[i] == NodeKind::Leaf { extension, value }),
    ensures
        node_mem(kinds, i) == 100 + 2 * extension@.len() + flat_value_len(value@),
{
}

/// Law: an extension node's memory usage is its child's memory usage plus
/// 50 plus two per extension byte — the child's usage plus 60 whenever
/// the extension has five bytes, whatever the child.
pub proof fn lemma_extension_memory_usage(
    kinds: Seq<NodeKind>,
    i: int,
    extension: Vec<u8>,
    child: MemTrieNodeId,
)
    requires
        0 <= i < kinds.len(),
        (kinds[i] == NodeKind::Extension { extension, child }),
        (child.pos as int) < i,
    ensures
        node_mem(kinds, i) == node_mem(kinds, child.pos as int) + 50 + 2 * extension@.len(),
{
}

/// Law: a branch without a value weighs the sum of its present children's
/// memory usage plus 50, whatever the children.
pub proof fn lemma_branch_memory_usage(
    kinds: Seq<NodeKind>,
    i: int,
    children: Vec<Option<MemTrieNodeId>>,
)
    requires
        0 <= i < kinds.len(),
        (kinds[i] == NodeKind::Branch { children }),
    ensures
        node_mem(kinds, i) == 50 + children_mem(kinds, children@, 0, i),
{
}

/// Law: a branch with a value weighs the sum of its present children's
/// memory usage plus 100 plus one per value byte — the sum plus 103
/// whenever the inlined value has three bytes.
pub proof fn lemma_branch_with_value_memory_usage(
    kinds: Seq<NodeKind>,
    i: int,
    children: Vec<Option<MemTrieNodeId>>,
    value: FlatStateValue,
)
    requires
        0 <= i < kinds.len(),
        (kinds[i] == NodeKind::BranchWithValue { children, value }),
    ensures
        node_mem(kinds, i) == 100 + flat_value_len(value@) + children_mem(kinds, children@, 0, i),
{
}

/// Law: the canonical form of a node reproduces its logical shape — the
/// same variant, the same extension bytes, the value's reference form,
/// and a child hash in exactly the slots where the node has a child (a
/// child is represented by its hash instead of its index, as designed).
pub proof fn lemma_raw_round_trip(kinds: Seq<NodeKind>, i: int)
    requires
        0 <= i < kinds.len(),
        kind_wf(kinds, i),
    ensures
        (kinds[i] matches NodeKind::Leaf { extension, value } ==> node_raw(kinds, i)
            == RawTrieNodeV::Leaf { extension: extension@, value: flat_value_ref(value@) }),
        (kinds[i] matches NodeKind::Extension { extension, child } ==> node_raw(kinds, i)
            == RawTrieNodeV::Extension {
            extension: extension@,
            child: node_hash_s(kinds, child.pos as int),
        }),
        (kinds[i] matches NodeKind::Branch { children } ==> (node_raw(kinds, i)
            matches RawTrieNodeV::BranchNoValue { children: hs } && slots_match_hashes(
            kinds,
            children@,
            hs,
        ))),
        (kinds[i] matches NodeKind::BranchWithValue { children, value } ==> (node_raw(kinds, i)
            matches RawTrieNodeV::BranchWithValue { value: v2, children: hs } && v2
            == flat_value_ref(value@) && slots_match_hashes(kinds, children@, hs))),
{
    match kinds[i] {
        NodeKind::Leaf { .. } => {},
        NodeKind::Extension { .. } => {},
        NodeKind::Branch { children } => {
            lemma_slots_match(kinds, children@, i);
        },
        NodeKind::BranchWithValue { children, .. } => {
            lemma_slots_match(kinds, children@, i);
        },
    }
}

/// The hash slots mirror the child slots: one entry per slot, occupied
/// exactly where a child stands, holding that child's hash.
pub open spec fn slots_match_hashes(
    kinds: Seq<NodeKind>,
    cs: Seq<Option<MemTrieNodeId>>,
    hs: Seq<Option<Seq<u8>>>,
) -> bool {
    &&& hs.len() == cs.len()
    &&& forall|j: int|
        0 <= j < cs.len() ==> (match #[trigger] cs[j] {
            Some(c) => hs[j] == Some(node_hash_s(kinds, c.pos as int)),
            None => hs[j] is None,
        })
}

proof fn lemma_slots_match(kinds: Seq<NodeKind>, cs: Seq<Option<MemTrieNodeId>>, i: int)
    requires
        children_slots_wf(cs, i),
    ensures
        slots_match_hashes(kinds, cs, children_hashes(kinds, cs, 0, i)),
{
    lemma_children_hashes_index(kinds, cs, 0, i);
    assert forall|j: int| 0 <= j < cs.len() implies (match #[trigger] cs[j] {
        Some(c) => children_hashes(kinds, cs, 0, i)[j] == Some(node_hash_s(kinds, c.pos as int)),
        None => children_hashes(kinds, cs, 0, i)[j] is None,
    }) by {
        assert(children_hashes(kinds, cs, 0, i)[j - 0] == (match cs[j] {
            Some(c) => if (c.pos as int) < i {
                Some(node_hash_s(kinds, c.pos as int))
            } else {
                None
            },
            None => None::<Seq<u8>>,
        }));
    }
}

proof fn lemma_children_specs_prefix(
    k1: Seq<NodeKind>,
    k2: Seq<NodeKind>,
    cs: Seq<Option<MemTrieNodeId>>,
    k: int,
    i: int,
)
    requires
        0 <= i < k1.len(),
        k1.len() <= k2.len(),
        forall|j: int| 0 <= j <= i ==> k1[j] == k2[j],
    ensures
        children_mem(k1, cs, k, i) == children_mem(k2, cs, k, i),
        children_hashes(k1, cs, k, i) == children_hashes(k2, cs, k, i),
    decreases i, 0int, cs.len() - k,
{
    if 0 <= k < cs.len() {
        match cs[k] {
            Some(c) => {
                if (c.pos as int) < i {
                    lemma_specs_prefix(k1, k2, c.pos as int);
                }
            },
            None => {},
        }
        lemma_children_specs_prefix(k1, k2, cs, k + 1, i);
    }
}

} // verus!
