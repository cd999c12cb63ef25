use memtrie::hash::hash;
use memtrie::hash::CryptoHash;
use memtrie::metrics::ReshardingStatus;
use memtrie::snapshot::CompactAction;
use memtrie::snapshot::LockResult;
use memtrie::snapshot::MakeSnapshotEvent;
use memtrie::snapshot::MakeSnapshotState;
use memtrie::snapshot::ShardTries;
use memtrie::snapshot::SnapshotError;
use memtrie::snapshot::StateSnapshot;
use memtrie::snapshot::StateSnapshotConfig;
use memtrie::snapshot::TryLockResult;
use memtrie::sync::plan_apply_state_parts;
use memtrie::sync::state_part_key;
use memtrie::sync::ApplyPartsPlan;
use memtrie::sync::ClearFlatStateOutcome;

fn enabled_tries(slot: Option<StateSnapshot>) -> ShardTries {
    ShardTries {
        state_snapshot: slot,
        state_snapshot_config: StateSnapshotConfig::Enabled {
            home_dir: String::from("home"),
            hot_store_path: String::from("data"),
            state_snapshot_subdir: String::from("state_snapshot"),
            compaction_enabled: true,
        },
    }
}

#[test]
fn test_get_state_snapshot_outcomes() {
    let block = hash(&[1]);
    let other = hash(&[2]);
    let tries = enabled_tries(Some(StateSnapshot::new(block)));
    assert_eq!(
        tries.get_state_snapshot(&block, TryLockResult::Acquired),
        Ok(StateSnapshot::new(block))
    );
    assert_eq!(
        tries.get_state_snapshot(&other, TryLockResult::Acquired),
        Err(SnapshotError::WrongSnapshot { requested: other, available: block })
    );
    assert_eq!(
        tries.get_state_snapshot(&block, TryLockResult::WouldBlock),
        Err(SnapshotError::WouldBlock)
    );
    assert_eq!(
        tries.get_state_snapshot(&block, TryLockResult::Poisoned),
        Err(SnapshotError::LockError)
    );
    let empty = enabled_tries(None);
    assert_eq!(
        empty.get_state_snapshot(&block, TryLockResult::Acquired),
        Err(SnapshotError::NoSnapshotAvailable)
    );
}

#[test]
fn test_compact_state_snapshot_decision() {
    let block = hash(&[1]);
    let tries = enabled_tries(Some(StateSnapshot::new(block)));
    assert_eq!(tries.compact_state_snapshot(LockResult::Acquired), Ok(CompactAction::CompactStore));
    assert_eq!(tries.compact_state_snapshot(LockResult::Poisoned), Err(SnapshotError::LockError));
    let empty = enabled_tries(None);
    assert_eq!(empty.compact_state_snapshot(LockResult::Acquired), Ok(CompactAction::NoSnapshot));
}

#[test]
fn test_state_snapshot_base_dir() {
    let zero = CryptoHash([0u8; 32]);
    let dir = ShardTries::get_state_snapshot_base_dir(&zero, "home", "data", "state_snapshot");
    // 32 zero bytes in base-58 are 32 ones.
    assert_eq!(dir, "home/data/state_snapshot/11111111111111111111111111111111");
}

#[test]
fn test_maybe_open_state_snapshot() {
    let block = hash(&[3]);
    let disabled = ShardTries {
        state_snapshot: None,
        state_snapshot_config: StateSnapshotConfig::Disabled,
    };
    assert_eq!(disabled.maybe_open_state_snapshot(Some(block)), Ok(None));
    let tries = enabled_tries(None);
    assert_eq!(
        tries.maybe_open_state_snapshot(None),
        Err(SnapshotError::NoSnapshotAvailable)
    );
    assert_eq!(
        tries.maybe_open_state_snapshot(Some(block)),
        Ok(Some(StateSnapshot::new(block)))
    );
}

#[test]
fn test_make_state_snapshot_fresh_pass() {
    let prev = hash(&[4]);
    let mut tries = enabled_tries(None);
    let mut state = tries.make_state_snapshot_start();
    assert_eq!(state, MakeSnapshotState::Locking);
    state = tries.make_state_snapshot_step(
        state,
        MakeSnapshotEvent::Locked(LockResult::Acquired),
        &prev,
    );
    assert_eq!(state, MakeSnapshotState::ReadingDbHash);
    state = tries.make_state_snapshot_step(state, MakeSnapshotEvent::DbHash(None), &prev);
    assert_eq!(state, MakeSnapshotState::Checkpointing);
    state = tries.make_state_snapshot_step(state, MakeSnapshotEvent::Checkpointed(true), &prev);
    assert_eq!(state, MakeSnapshotState::SettingDbHash);
    assert_eq!(tries.state_snapshot, Some(StateSnapshot::new(prev)));
    state = tries.make_state_snapshot_step(state, MakeSnapshotEvent::DbHashSet(false), &prev);
    assert_eq!(state, MakeSnapshotState::SettingDbHash);
    state = tries.make_state_snapshot_step(state, MakeSnapshotEvent::DbHashSet(true), &prev);
    assert_eq!(state, MakeSnapshotState::Done { ok: true });
}

#[test]
fn test_make_state_snapshot_already_available() {
    let prev = hash(&[5]);
    let mut tries = enabled_tries(Some(StateSnapshot::new(prev)));
    let mut state = MakeSnapshotState::Locking;
    state = tries.make_state_snapshot_step(
        state,
        MakeSnapshotEvent::Locked(LockResult::Acquired),
        &prev,
    );
    state = tries.make_state_snapshot_step(state, MakeSnapshotEvent::DbHash(Some(prev)), &prev);
    assert_eq!(state, MakeSnapshotState::Done { ok: true });
    assert_eq!(tries.state_snapshot, Some(StateSnapshot::new(prev)));
}

#[test]
fn test_make_state_snapshot_replaces_stale_with_bounded_retries() {
    let prev = hash(&[6]);
    let stale = hash(&[7]);
    let mut tries = enabled_tries(Some(StateSnapshot::new(stale)));
    let mut state = MakeSnapshotState::ReadingDbHash;
    state = tries.make_state_snapshot_step(state, MakeSnapshotEvent::DbHash(Some(stale)), &prev);
    // The stale snapshot is dropped before its remains are deleted.
    assert_eq!(state, MakeSnapshotState::DeletingFiles { attempts: 0 });
    assert_eq!(tries.state_snapshot, None);
    // Two failures are retried; the third failure moves on.
    state = tries.make_state_snapshot_step(state, MakeSnapshotEvent::FilesDeleted(false), &prev);
    assert_eq!(state, MakeSnapshotState::DeletingFiles { attempts: 1 });
    state = tries.make_state_snapshot_step(state, MakeSnapshotEvent::FilesDeleted(false), &prev);
    assert_eq!(state, MakeSnapshotState::DeletingFiles { attempts: 2 });
    state = tries.make_state_snapshot_step(state, MakeSnapshotEvent::FilesDeleted(false), &prev);
    assert_eq!(state, MakeSnapshotState::DeletingDbKey { attempts: 0 });
    // A success moves on at once.
    state = tries.make_state_snapshot_step(state, MakeSnapshotEvent::DbKeyDeleted(true), &prev);
    assert_eq!(state, MakeSnapshotState::Checkpointing);
    // A failed checkpoint ends the pass with an error.
    state = tries.make_state_snapshot_step(state, MakeSnapshotEvent::Checkpointed(false), &prev);
    assert_eq!(state, MakeSnapshotState::Done { ok: false });
    assert_eq!(tries.state_snapshot, None);
}

#[test]
fn test_make_state_snapshot_disabled_and_poisoned() {
    let prev = hash(&[8]);
    let disabled = ShardTries {
        state_snapshot: None,
        state_snapshot_config: StateSnapshotConfig::Disabled,
    };
    assert_eq!(disabled.make_state_snapshot_start(), MakeSnapshotState::Done { ok: true });
    let mut tries = enabled_tries(None);
    let state = tries.make_state_snapshot_step(
        MakeSnapshotState::Locking,
        MakeSnapshotEvent::Locked(LockResult::Poisoned),
        &prev,
    );
    assert_eq!(state, MakeSnapshotState::Done { ok: false });
}

#[test]
fn test_state_part_key_layout() {
    let sync_hash = hash(&[9]);
    let key = state_part_key(&sync_hash, 3, 258);
    assert_eq!(key.len(), 48);
    assert_eq!(&key[..32], &sync_hash.0);
    assert_eq!(&key[32..40], &[3, 0, 0, 0, 0, 0, 0, 0]);
    assert_eq!(&key[40..48], &[2, 1, 0, 0, 0, 0, 0, 0]);
}

#[test]
fn test_plan_apply_state_parts() {
    assert_eq!(plan_apply_state_parts(ClearFlatStateOutcome::Cleared), ApplyPartsPlan::ApplyParts);
    assert_eq!(
        plan_apply_state_parts(ClearFlatStateOutcome::NotCleared),
        ApplyPartsPlan::ApplyParts
    );
    assert_eq!(
        plan_apply_state_parts(ClearFlatStateOutcome::Failed),
        ApplyPartsPlan::RespondError
    );
}

#[test]
fn test_resharding_status_to_gauge_value() {
    assert_eq!(i64::from(ReshardingStatus::Scheduled), 0);
    assert_eq!(i64::from(ReshardingStatus::BuildingState), 1);
    assert_eq!(i64::from(ReshardingStatus::Finished), 2);
}
