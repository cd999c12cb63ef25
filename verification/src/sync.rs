//! Decisions of the background job that applies downloaded state parts:
//! the store key each part lives under, and what to do after the
//! flat-state cleanup step. The store reads and the part application are
//! the caller's outside work.

use crate::hash::CryptoHash;
use crate::raw::append_bytes;
use vstd::bytes::*;
use vstd::prelude::*;

verus! {

/// The key a state part is stored under: the sync-block hash, then the
/// shard id and the part id as 64-bit little-endian integers.
pub open spec fn state_part_key_bytes(sync_hash: Seq<u8>, shard_id: u64, part_id: u64) -> Seq<u8> {
    sync_hash + spec_u64_to_le_bytes(shard_id) + spec_u64_to_le_bytes(part_id)
}

/// Serializes the store key of one state part.
pub fn state_part_key(sync_hash: &CryptoHash, shard_id: u64, part_id: u64) -> (r: Vec<u8>)
    ensures
        r@ == state_part_key_bytes(sync_hash@, shard_id, part_id),
{
    let mut r: Vec<u8> = Vec::new();
    append_bytes(&mut r, sync_hash.0.as_slice());
    let mut b = u64_to_le_bytes(shard_id);
    r.append(&mut b);
    let mut b2 = u64_to_le_bytes(part_id);
    r.append(&mut b2);
    proof {
        assert(r@ =~= state_part_key_bytes(sync_hash@, shard_id, part_id));
    }
    r
}

/// How clearing flat state before applying state parts ended.
#[derive(Clone, Copy, Debug, PartialEq, Eq, Structural)]
pub enum ClearFlatStateOutcome {
    /// All flat state for the shard was deleted.
    Cleared,
    /// Nothing was deleted; the caller logs it and work proceeds.
    NotCleared,
    /// Clearing failed with an error to report back.
    Failed,
}

/// What the apply-state-parts job does next.
#[derive(Clone, Copy, Debug, PartialEq, Eq, Structural)]
pub enum ApplyPartsPlan {
    /// Send the clearing error back; no parts are applied.
    RespondError,
    /// Apply the parts in ascending part order, stopping at the first
    /// failure, and send the result back.
    ApplyParts,
}

/// Decides the apply-state-parts job after the cleanup step: only a
/// cleanup failure is reported back without applying; when nothing was
/// cleared the parts are still applied.
pub fn plan_apply_state_parts(outcome: ClearFlatStateOutcome) -> (r: ApplyPartsPlan)
    ensures
        r == ApplyPartsPlan::RespondError <==> outcome == ClearFlatStateOutcome::Failed,
        r == ApplyPartsPlan::ApplyParts <==> outcome != ClearFlatStateOutcome::Failed,
{
    match outcome {
        ClearFlatStateOutcome::Failed => ApplyPartsPlan::RespondError,
        ClearFlatStateOutcome::Cleared => ApplyPartsPlan::ApplyParts,
        ClearFlatStateOutcome::NotCleared => ApplyPartsPlan::ApplyParts,
    }
}

} // verus!
