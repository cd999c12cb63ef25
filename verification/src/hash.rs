//! Content hashes: the 32-byte digest that names a trie node or a value.

use sha2::Digest;
use vstd::prelude::*;

verus! {

/// The SHA-256 digest of a byte sequence. The algorithm itself is carried
/// out by an outside crate; this name stands for its result, which depends
/// on the input bytes alone.
pub uninterp spec fn sha256_of(data: Seq<u8>) -> Seq<u8>;

/// A 32-byte content hash. Nodes and out-of-line values are named by the
/// hash of their canonical byte encoding.
#[derive(Clone, Copy, Debug, Eq)]
pub struct CryptoHash(pub [u8; 32]);

impl View for CryptoHash {
    type V = Seq<u8>;

    open spec fn view(&self) -> Seq<u8> {
        self.0@
    }
}

impl PartialEq for CryptoHash {
    fn eq(&self, other: &Self) -> (r: bool) {
        let mut i: usize = 0;
        while i < 32
            invariant
                i <= 32,
                forall|j: int| 0 <= j < i ==> self.0@[j] == other.0@[j],
            decreases 32 - i,
        {
            if self.0[i] != other.0[i] {
                return false;
            }
            i += 1;
        }
        proof {
            assert(self.0@ =~= other.0@);
        }
        true
    }
}

impl vstd::std_specs::cmp::PartialEqSpecImpl for CryptoHash {
    open spec fn obeys_eq_spec() -> bool {
        true
    }

    open spec fn eq_spec(&self, other: &Self) -> bool {
        self.0@ == other.0@
    }
}

/// Relies on sha2::Sha256 through digest's Digest::digest: the result is the
/// 32-byte SHA-256 digest of the input, a function of the input bytes alone.
#[verifier::external_body]
pub fn hash(data: &[u8]) -> (r: CryptoHash)
    ensures
        r@ == sha256_of(data@),
{
    CryptoHash(sha2::Sha256::digest(data).into())
}

} // verus!
