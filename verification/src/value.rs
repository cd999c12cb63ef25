//! Values stored in the trie: either inlined bytes or a reference to an
//! out-of-line value, named by content hash and byte length.

use crate::hash::hash;
use crate::hash::sha256_of;
use crate::hash::CryptoHash;
use vstd::prelude::*;

verus! {

/// A reference to a value stored outside the trie: its byte length and the
/// content hash under which the durable layer resolves it.
#[derive(Clone, Copy, Debug, PartialEq, Eq)]
pub struct ValueRef {
    pub length: u32,
    pub hash: CryptoHash,
}

/// The mathematical shape of a value reference: length and hash bytes.
pub struct ValueRefV {
    pub length: u32,
    pub hash: Seq<u8>,
}

impl View for ValueRef {
    type V = ValueRefV;

    open spec fn view(&self) -> ValueRefV {
        ValueRefV { length: self.length, hash: self.hash@ }
    }
}

/// A value as the in-memory trie holds it: stored directly (`Inlined`) or
/// elsewhere, referenced by hash and length (`Ref`).
#[derive(Clone, Debug, PartialEq, Eq)]
pub enum FlatStateValue {
    Ref(ValueRef),
    Inlined(Vec<u8>),
}

/// The mathematical shape of a flat state value.
pub enum FlatStateValueV {
    Ref(ValueRefV),
    Inlined(Seq<u8>),
}

impl View for FlatStateValue {
    type V = FlatStateValueV;

    open spec fn view(&self) -> FlatStateValueV {
        match self {
            FlatStateValue::Ref(r) => FlatStateValueV::Ref(r@),
            FlatStateValue::Inlined(b) => FlatStateValueV::Inlined(b@),
        }
    }
}

/// The byte length a value accounts for: the inlined length, or the length
/// recorded in the reference.
pub open spec fn flat_value_len(v: FlatStateValueV) -> nat {
    match v {
        FlatStateValueV::Ref(r) => r.length as nat,
        FlatStateValueV::Inlined(b) => b.len(),
    }
}

/// The value reference a value converts to: a `Ref` keeps its own, an
/// inlined value is named by the hash of its bytes.
pub open spec fn flat_value_ref(v: FlatStateValueV) -> ValueRefV {
    match v {
        FlatStateValueV::Ref(r) => r,
        FlatStateValueV::Inlined(b) => ValueRefV { length: b.len() as u32, hash: sha256_of(b) },
    }
}

/// An inlined value's length must fit the 32-bit length field of the
/// canonical encoding.
pub open spec fn flat_value_wf(v: FlatStateValueV) -> bool {
    match v {
        FlatStateValueV::Ref(_) => true,
        FlatStateValueV::Inlined(b) => b.len() <= u32::MAX,
    }
}

impl FlatStateValue {
    /// Converts losslessly to the reference form used for hashing: a `Ref`
    /// is returned as it stands, an inlined value is hashed.
    pub fn to_value_ref(&self) -> (r: ValueRef)
        requires
            flat_value_wf(self@),
        ensures
            r@ == flat_value_ref(self@),
    {
        match self {
            FlatStateValue::Ref(r) => *r,
            FlatStateValue::Inlined(b) => ValueRef {
                length: b.len() as u32,
                hash: hash(b.as_slice()),
            },
        }
    }

    /// An owned copy with the same mathematical value.
    pub fn duplicate(&self) -> (r: FlatStateValue)
        ensures
            r@ == self@,
    {
        match self {
            FlatStateValue::Ref(r) => FlatStateValue::Ref(*r),
            FlatStateValue::Inlined(b) => FlatStateValue::Inlined(copy_bytes(b)),
        }
    }
}

/// An owned copy of a byte vector with the same contents.
pub fn copy_bytes(b: &Vec<u8>) -> (r: Vec<u8>)
    ensures
        r@ == b@,
{
    let mut r: Vec<u8> = Vec::new();
    r.extend_from_slice(b.as_slice());
    r
}

} // verus!
