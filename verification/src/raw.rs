//! The canonical node shapes and their deterministic byte serialization.
//!
//! A raw trie node describes a node the way the durable trie stores it:
//! children appear as their 32-byte hashes, values as value references.
//! The byte serialization defined here is the hash preimage of a node, so
//! it must match the durable encoding bit for bit: a one-byte shape tag,
//! 32-bit little-endian length prefixes on byte strings, value references
//! as length then hash, children as a 16-bit presence bitmap (bit `k` set
//! when slot `k` is occupied) followed by the present hashes in ascending
//! slot order, and finally the node's memory usage as a 64-bit
//! little-endian integer.

use crate::hash::CryptoHash;
use crate::value::ValueRef;
use crate::value::ValueRefV;
use vstd::bytes::*;
use vstd::prelude::*;

verus! {

/// The 16 child slots of a branch, keyed by hex nibble; a slot holds the
/// child's hash or nothing.
#[derive(Clone, Debug, PartialEq, Eq)]
pub struct Children(pub Vec<Option<CryptoHash>>);

impl View for Children {
    type V = Seq<Option<Seq<u8>>>;

    open spec fn view(&self) -> Seq<Option<Seq<u8>>> {
        self.0@.map_values(
            |o: Option<CryptoHash>|
                match o {
                    Some(h) => Some(h@),
                    None => None,
                },
        )
    }
}

/// A node in canonical form: the exact shape that is serialized and hashed.
#[derive(Clone, Debug, PartialEq, Eq)]
pub enum RawTrieNode {
    Leaf(Vec<u8>, ValueRef),
    BranchNoValue(Children),
    BranchWithValue(ValueRef, Children),
    Extension(Vec<u8>, CryptoHash),
}

/// The mathematical shape of a canonical node.
pub enum RawTrieNodeV {
    Leaf { extension: Seq<u8>, value: ValueRefV },
    BranchNoValue { children: Seq<Option<Seq<u8>>> },
    BranchWithValue { value: ValueRefV, children: Seq<Option<Seq<u8>>> },
    Extension { extension: Seq<u8>, child: Seq<u8> },
}

impl View for RawTrieNode {
    type V = RawTrieNodeV;

    open spec fn view(&self) -> RawTrieNodeV {
        match self {
            RawTrieNode::Leaf(extension, value) => RawTrieNodeV::Leaf {
                extension: extension@,
                value: value@,
            },
            RawTrieNode::BranchNoValue(children) => RawTrieNodeV::BranchNoValue {
                children: children@,
            },
            RawTrieNode::BranchWithValue(value, children) => RawTrieNodeV::BranchWithValue {
                value: value@,
                children: children@,
            },
            RawTrieNode::Extension(extension, child) => RawTrieNodeV::Extension {
                extension: extension@,
                child: child@,
            },
        }
    }
}

/// A canonical node together with its memory usage: the full hash preimage.
#[derive(Clone, Debug, PartialEq, Eq)]
pub struct RawTrieNodeWithSize {
    pub node: RawTrieNode,
    pub memory_usage: u64,
}

/// The mathematical shape of a canonical node with its memory usage.
pub struct RawTrieNodeWithSizeV {
    pub node: RawTrieNodeV,
    pub memory_usage: u64,
}

impl View for RawTrieNodeWithSize {
    type V = RawTrieNodeWithSizeV;

    open spec fn view(&self) -> RawTrieNodeWithSizeV {
        RawTrieNodeWithSizeV { node: self.node@, memory_usage: self.memory_usage }
    }
}

/// A canonical node is well formed when its byte strings fit their 32-bit
/// length prefixes and a branch has exactly 16 slots.
pub open spec fn raw_node_wf(n: RawTrieNodeV) -> bool {
    match n {
        RawTrieNodeV::Leaf { extension, value } => extension.len() <= u32::MAX,
        RawTrieNodeV::BranchNoValue { children } => children.len() == 16,
        RawTrieNodeV::BranchWithValue { value, children } => children.len() == 16,
        RawTrieNodeV::Extension { extension, child } => extension.len() <= u32::MAX,
    }
}

/// A byte string with its 32-bit little-endian length prefix.
pub open spec fn enc_length_prefixed(b: Seq<u8>) -> Seq<u8> {
    spec_u32_to_le_bytes(b.len() as u32) + b
}

/// A value reference: 32-bit little-endian length, then the 32 hash bytes.
pub open spec fn enc_value_ref(v: ValueRefV) -> Seq<u8> {
    spec_u32_to_le_bytes(v.length) + v.hash
}

/// The presence bitmap of the slots from `k` up: bit `j - k` is set when
/// slot `j` is occupied, so slot `j` carries weight 2^(j-k).
pub open spec fn children_bitmap(cs: Seq<Option<Seq<u8>>>, k: int) -> nat
    decreases 16 - k,
{
    if k < 0 || k >= 16 {
        0
    } else {
        (if 0 <= k < cs.len() && cs[k] is Some {
            1nat
        } else {
            0nat
        }) + 2 * children_bitmap(cs, k + 1)
    }
}

/// The present hashes from slot `k` up, concatenated in ascending slot order.
pub open spec fn enc_children_hashes(cs: Seq<Option<Seq<u8>>>, k: int) -> Seq<u8>
    decreases cs.len() - k,
{
    if k < 0 || k >= cs.len() {
        Seq::empty()
    } else {
        (match cs[k] {
            Some(h) => h,
            None => Seq::empty(),
        }) + enc_children_hashes(cs, k + 1)
    }
}

/// Children: the 16-bit little-endian presence bitmap, then the present
/// hashes in ascending slot order.
pub open spec fn enc_children(cs: Seq<Option<Seq<u8>>>) -> Seq<u8> {
    spec_u16_to_le_bytes(children_bitmap(cs, 0) as u16) + enc_children_hashes(cs, 0)
}

/// A canonical node: a one-byte shape tag, then the shape's fields.
pub open spec fn enc_raw_node(n: RawTrieNodeV) -> Seq<u8> {
    match n {
        RawTrieNodeV::Leaf { extension, value } => seq![0u8] + enc_length_prefixed(extension)
            + enc_value_ref(value),
        RawTrieNodeV::BranchNoValue { children } => seq![1u8] + enc_children(children),
        RawTrieNodeV::BranchWithValue { value, children } => seq![2u8] + enc_value_ref(value)
            + enc_children(children),
        RawTrieNodeV::Extension { extension, child } => seq![3u8] + enc_length_prefixed(extension)
            + child,
    }
}

/// The full hash preimage: the canonical node, then its memory usage as a
/// 64-bit little-endian integer.
pub open spec fn enc_raw_node_with_size(n: RawTrieNodeWithSizeV) -> Seq<u8> {
    enc_raw_node(n.node) + spec_u64_to_le_bytes(n.memory_usage)
}

/// Two to the power `e`.
spec fn p2(e: nat) -> nat
    decreases e,
{
    if e == 0 {
        1
    } else {
        2 * p2((e - 1) as nat)
    }
}

/// The bitmap of the slots from `k` up fits in `16 - k` bits.
proof fn lemma_bitmap_bound(cs: Seq<Option<Seq<u8>>>, k: int)
    requires
        0 <= k <= 16,
    ensures
        children_bitmap(cs, k) < p2((16 - k) as nat),
    decreases 16 - k,
{
    if k < 16 {
        lemma_bitmap_bound(cs, k + 1);
    }
}

/// Appends each byte of `src` to `dst`.
pub fn append_bytes(dst: &mut Vec<u8>, src: &[u8])
    ensures
        final(dst)@ == old(dst)@ + src@,
{
    let mut i: usize = 0;
    while i < src.len()
        invariant
            i <= src@.len(),
            dst@ == old(dst)@ + src@.take(i as int),
        decreases src@.len() - i,
    {
        dst.push(src[i]);
        proof {
            assert(old(dst)@ + src@.take(i as int) + seq![src@[i as int]] =~= old(dst)@
                + src@.take(i + 1));
        }
        i += 1;
    }
    proof {
        assert(src@.take(src@.len() as int) =~= src@);
    }
}

/// Appends the 32 bytes of a hash to `dst`.
fn append_hash(dst: &mut Vec<u8>, h: &CryptoHash)
    ensures
        final(dst)@ == old(dst)@ + h@,
{
    append_bytes(dst, h.0.as_slice());
}

/// Appends a 32-bit little-endian integer to `dst`.
fn append_u32(dst: &mut Vec<u8>, x: u32)
    ensures
        final(dst)@ == old(dst)@ + spec_u32_to_le_bytes(x),
{
    let mut b = u32_to_le_bytes(x);
    dst.append(&mut b);
}

/// Appends a value reference: length, then hash bytes.
fn append_value_ref(dst: &mut Vec<u8>, v: &ValueRef)
    ensures
        final(dst)@ == old(dst)@ + enc_value_ref(v@),
{
    append_u32(dst, v.length);
    append_hash(dst, &v.hash);
    proof {
        assert(old(dst)@ + spec_u32_to_le_bytes(v.length) + v.hash@ =~= old(dst)@ + enc_value_ref(
            v@,
        ));
    }
}

/// The presence bitmap of all 16 slots.
fn children_bitmap_exec(c: &Children) -> (bm: u16)
    requires
        c@.len() == 16,
    ensures
        bm as nat == children_bitmap(c@, 0),
{
    let mut bm: u32 = 0;
    let mut k: usize = 16;
    proof {
        assert(c.0@.len() == 16);
    }
    while k > 0
        invariant
            k <= 16,
            c.0@.len() == 16,
            c@.len() == 16,
            bm as nat == children_bitmap(c@, k as int),
            bm <= 0xffffff,
        decreases k,
    {
        k = k - 1;
        let present: u32 = if c.0[k].is_some() {
            1
        } else {
            0
        };
        proof {
            lemma_bitmap_bound(c@, k as int);
            reveal_with_fuel(p2, 18);
            assert(p2(16) == 65536);
            assert((if c@[k as int] is Some {
                1nat
            } else {
                0nat
            }) == present as nat);
        }
        bm = bm * 2 + present;
    }
    proof {
        lemma_bitmap_bound(c@, 0);
        reveal_with_fuel(p2, 18);
        assert(p2(16) == 65536);
    }
    bm as u16
}

/// Appends the children encoding: bitmap, then present hashes ascending.
fn append_children(dst: &mut Vec<u8>, c: &Children)
    requires
        c@.len() == 16,
    ensures
        final(dst)@ == old(dst)@ + enc_children(c@),
{
    let bm = children_bitmap_exec(c);
    let mut b = u16_to_le_bytes(bm);
    dst.append(&mut b);
    let ghost after_bitmap = dst@;
    let mut k: usize = 0;
    proof {
        assert(c.0@.len() == 16);
    }
    while k < 16
        invariant
            k <= 16,
            c.0@.len() == 16,
            c@.len() == 16,
            dst@ + enc_children_hashes(c@, k as int) == after_bitmap + enc_children_hashes(c@, 0),
        decreases 16 - k,
    {
        if let Some(h) = &c.0[k] {
            proof {
                assert(c@[k as int] == Some(h@));
            }
            append_hash(dst, h);
            proof {
                assert(dst@ + enc_children_hashes(c@, k + 1) =~= after_bitmap
                    + enc_children_hashes(c@, 0));
            }
        } else {
            proof {
                assert(c@[k as int] is None);
                assert(dst@ + enc_children_hashes(c@, k + 1) =~= after_bitmap
                    + enc_children_hashes(c@, 0));
            }
        }
        k += 1;
    }
    proof {
        assert(enc_children_hashes(c@, 16) =~= Seq::<u8>::empty());
        assert(dst@ =~= after_bitmap + enc_children_hashes(c@, 0));
        assert(dst@ =~= old(dst)@ + enc_children(c@));
    }
}

/// Serializes a canonical node with its memory usage into the exact byte
/// sequence whose hash is the node's hash.
pub fn serialize_raw_trie_node_with_size(raw: &RawTrieNodeWithSize) -> (out: Vec<u8>)
    requires
        raw_node_wf(raw.node@),
    ensures
        out@ == enc_raw_node_with_size(raw@),
{
    let mut out: Vec<u8> = Vec::new();
    match &raw.node {
        RawTrieNode::Leaf(extension, value) => {
            out.push(0u8);
            append_u32(&mut out, extension.len() as u32);
            append_bytes(&mut out, extension.as_slice());
            append_value_ref(&mut out, value);
            proof {
                assert(out@ =~= enc_raw_node(raw.node@));
            }
        },
        RawTrieNode::BranchNoValue(children) => {
            out.push(1u8);
            append_children(&mut out, children);
            proof {
                assert(out@ =~= enc_raw_node(raw.node@));
            }
        },
        RawTrieNode::BranchWithValue(value, children) => {
            out.push(2u8);
            append_value_ref(&mut out, value);
            append_children(&mut out, children);
            proof {
                assert(out@ =~= enc_raw_node(raw.node@));
            }
        },
        RawTrieNode::Extension(extension, child) => {
            out.push(3u8);
            append_u32(&mut out, extension.len() as u32);
            append_bytes(&mut out, extension.as_slice());
            append_hash(&mut out, child);
            proof {
                assert(out@ =~= enc_raw_node(raw.node@));
            }
        },
    }
    let mut tail = u64_to_le_bytes(raw.memory_usage);
    out.append(&mut tail);
    proof {
        assert(out@ =~= enc_raw_node_with_size(raw@));
    }
    out
}

} // verus!
