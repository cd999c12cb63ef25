//! Decisions of the state-snapshot manager that surrounds the in-memory
//! trie.
//!
//! The manager guards one shared snapshot slot with a readers-writer
//! lock; readers fail fast instead of waiting, and making a new snapshot
//! holds the write side while it deletes the old snapshot (with bounded
//! retries), checkpoints the store and records the new hash. The locking,
//! filesystem and store work are the caller's: this module holds the
//! decision logic, as functions from the observed outcomes to the next
//! step, so every path through the manager is pinned down here while the
//! caller only performs what it is told.

use crate::hash::CryptoHash;
use vstd::prelude::*;
use vstd::string::StringExecFns;

verus! {

/// The base-58 text of a byte sequence, under the Bitcoin alphabet. The
/// encoding is carried out by an outside crate; this name stands for its
/// result, which depends on the input bytes alone.
pub uninterp spec fn base58_of(data: Seq<u8>) -> Seq<char>;

/// Relies on bs58's encode builder with its default (Bitcoin) alphabet:
/// the base-58 text of the input, a function of the input bytes alone.
#[verifier::external_body]
fn base58_encode(data: &[u8]) -> (r: String)
    ensures
        r@ == base58_of(data@),
{
    bs58::encode(data).into_string()
}

/// Snapshot of the state at the epoch boundary. The durable store and
/// flat-storage handles live with the caller; the core keeps what the
/// decisions read — which block the snapshot represents.
#[derive(Clone, Copy, Debug, PartialEq, Eq)]
pub struct StateSnapshot {
    /// The snapshot represents the state including changes of the next
    /// block of this block.
    pub prev_block_hash: CryptoHash,
}

impl StateSnapshot {
    /// The in-memory record of a snapshot. Creating flat storage for each
    /// shard, and moving its head, is the caller's outside work.
    pub fn new(prev_block_hash: CryptoHash) -> (r: StateSnapshot)
        ensures
            r.prev_block_hash == prev_block_hash,
    {
        StateSnapshot { prev_block_hash }
    }
}

/// Information needed to make a state snapshot.
#[derive(Clone, Debug)]
pub enum StateSnapshotConfig {
    /// Don't make any state snapshots.
    Disabled,
    /// Make state snapshots under the given directories.
    Enabled {
        home_dir: String,
        hot_store_path: String,
        state_snapshot_subdir: String,
        compaction_enabled: bool,
    },
}

/// How an attempt to take the snapshot lock without waiting ended.
#[derive(Clone, Copy, Debug, PartialEq, Eq, Structural)]
pub enum TryLockResult {
    /// The lock was taken.
    Acquired,
    /// Someone holds the write side; waiting could take seconds, so the
    /// reader reports it instead.
    WouldBlock,
    /// The lock is poisoned.
    Poisoned,
}

/// How a blocking acquisition of the snapshot lock ended.
#[derive(Clone, Copy, Debug, PartialEq, Eq, Structural)]
pub enum LockResult {
    Acquired,
    Poisoned,
}

/// The failures the snapshot operations surface; none is swallowed.
#[derive(Clone, Copy, Debug, PartialEq, Eq)]
pub enum SnapshotError {
    /// A snapshot is held, but it represents another block.
    WrongSnapshot { requested: CryptoHash, available: CryptoHash },
    /// No snapshot is held.
    NoSnapshotAvailable,
    /// Reading the slot would block; retry in a few seconds.
    WouldBlock,
    /// The lock is poisoned.
    LockError,
}

/// The shared snapshot state the manager's decisions read and write: the
/// slot under the lock, and the configuration.
pub struct ShardTries {
    pub state_snapshot: Option<StateSnapshot>,
    pub state_snapshot_config: StateSnapshotConfig,
}

/// What a non-blocking read of the snapshot slot returns: the snapshot
/// only when the lock was free, a snapshot is held, and it represents the
/// requested block; otherwise the error that names what went wrong.
pub open spec fn get_state_snapshot_spec(
    slot: Option<StateSnapshot>,
    block_hash: CryptoHash,
    lock: TryLockResult,
) -> Result<StateSnapshot, SnapshotError> {
    match lock {
        TryLockResult::WouldBlock => Err(SnapshotError::WouldBlock),
        TryLockResult::Poisoned => Err(SnapshotError::LockError),
        TryLockResult::Acquired => match slot {
            None => Err(SnapshotError::NoSnapshotAvailable),
            Some(s) => if s.prev_block_hash@ == block_hash@ {
                Ok(s)
            } else {
                Err(
                    SnapshotError::WrongSnapshot {
                        requested: block_hash,
                        available: s.prev_block_hash,
                    },
                )
            },
        },
    }
}

/// What the caller does next for a compaction request.
#[derive(Clone, Copy, Debug, PartialEq, Eq, Structural)]
pub enum CompactAction {
    /// Run compaction on the snapshot's store.
    CompactStore,
    /// Nothing is held: log it and report success.
    NoSnapshot,
}

impl ShardTries {
    /// Decides a read of the current snapshot. The caller hands in how
    /// its try-read of the lock ended; on `Ok` it clones and returns the
    /// snapshot's store handles. A reader never waits: contention is
    /// reported as `WouldBlock`.
    pub fn get_state_snapshot(&self, block_hash: &CryptoHash, lock: TryLockResult) -> (r: Result<
        StateSnapshot,
        SnapshotError,
    >)
        ensures
            r == get_state_snapshot_spec(self.state_snapshot, *block_hash, lock),
    {
        match lock {
            TryLockResult::WouldBlock => Err(SnapshotError::WouldBlock),
            TryLockResult::Poisoned => Err(SnapshotError::LockError),
            TryLockResult::Acquired => match &self.state_snapshot {
                None => Err(SnapshotError::NoSnapshotAvailable),
                Some(s) => if s.prev_block_hash == *block_hash {
                    Ok(*s)
                } else {
                    Err(
                        SnapshotError::WrongSnapshot {
                            requested: *block_hash,
                            available: s.prev_block_hash,
                        },
                    )
                },
            },
        }
    }

    /// Decides a compaction request: it is fine for this access to block,
    /// so only a poisoned lock is an error; with no snapshot held the
    /// request succeeds doing nothing.
    pub fn compact_state_snapshot(&self, lock: LockResult) -> (r: Result<
        CompactAction,
        SnapshotError,
    >)
        ensures
            (lock == LockResult::Poisoned ==> r == Err::<CompactAction, SnapshotError>(
                SnapshotError::LockError,
            )),
            (lock == LockResult::Acquired && self.state_snapshot is Some ==> r == Ok::<
                CompactAction,
                SnapshotError,
            >(CompactAction::CompactStore)),
            (lock == LockResult::Acquired && self.state_snapshot is None ==> r == Ok::<
                CompactAction,
                SnapshotError,
            >(CompactAction::NoSnapshot)),
    {
        match lock {
            LockResult::Poisoned => Err(SnapshotError::LockError),
            LockResult::Acquired => match &self.state_snapshot {
                Some(_) => Ok(CompactAction::CompactStore),
                None => Ok(CompactAction::NoSnapshot),
            },
        }
    }

    /// The directory one snapshot lives in: home directory, hot-store
    /// path and snapshot subdirectory joined with `/`, then the block
    /// hash in base-58. Checkpoints live under the hot-store path because
    /// that directory is often a separate disk.
    pub fn get_state_snapshot_base_dir(
        prev_block_hash: &CryptoHash,
        home_dir: &str,
        hot_store_path: &str,
        state_snapshot_subdir: &str,
    ) -> (r: String)
        ensures
            r@ == snapshot_base_dir_spec(
                prev_block_hash@,
                home_dir@,
                hot_store_path@,
                state_snapshot_subdir@,
            ),
    {
        proof {
            reveal_strlit("/");
        }
        let mut s = String::new();
        s.append(home_dir);
        s.append("/");
        s.append(hot_store_path);
        s.append("/");
        s.append(state_snapshot_subdir);
        s.append("/");
        let h = base58_encode(prev_block_hash.0.as_slice());
        s.append(h.as_str());
        proof {
            assert(s@ =~= snapshot_base_dir_spec(
                prev_block_hash@,
                home_dir@,
                hot_store_path@,
                state_snapshot_subdir@,
            ));
        }
        s
    }

    /// Decides opening the snapshot left on disk at startup: nothing to
    /// do when snapshots are disabled; with no stored hash the error is
    /// surfaced; otherwise the caller opens the snapshot's directory
    /// read-only and, if that succeeds, installs what is returned here.
    pub fn maybe_open_state_snapshot(&self, stored_hash: Option<CryptoHash>) -> (r: Result<
        Option<StateSnapshot>,
        SnapshotError,
    >)
        ensures
            (self.state_snapshot_config is Disabled ==> r == Ok::<
                Option<StateSnapshot>,
                SnapshotError,
            >(None)),
            (self.state_snapshot_config is Enabled && stored_hash is None ==> r == Err::<
                Option<StateSnapshot>,
                SnapshotError,
            >(SnapshotError::NoSnapshotAvailable)),
            (self.state_snapshot_config is Enabled ==> (stored_hash matches Some(h) ==> r == Ok::<
                Option<StateSnapshot>,
                SnapshotError,
            >(Some(StateSnapshot { prev_block_hash: h })))),
    {
        match &self.state_snapshot_config {
            StateSnapshotConfig::Disabled => Ok(None),
            StateSnapshotConfig::Enabled { .. } => match stored_hash {
                None => Err(SnapshotError::NoSnapshotAvailable),
                Some(h) => Ok(Some(StateSnapshot { prev_block_hash: h })),
            },
        }
    }

    /// Puts a snapshot into the slot; the caller does so under the write
    /// lock, after its outside open succeeded.
    pub fn install_snapshot(&mut self, s: Option<StateSnapshot>)
        ensures
            final(self).state_snapshot == s,
            final(self).state_snapshot_config == old(self).state_snapshot_config,
    {
        self.state_snapshot = s;
    }
}

/// The directory a snapshot for the given block lives in.
pub open spec fn snapshot_base_dir_spec(
    prev: Seq<u8>,
    home: Seq<char>,
    hot: Seq<char>,
    sub: Seq<char>,
) -> Seq<char> {
    home + seq!['/'] + hot + seq!['/'] + sub + seq!['/'] + base58_of(prev)
}

/// Where the making of a snapshot stands; the state names what the caller
/// performs next, and `Done` ends the pass.
#[derive(Clone, Copy, Debug, PartialEq, Eq, Structural)]
pub enum MakeSnapshotState {
    /// Waiting for the caller to take the write lock, which is held for
    /// the whole remainder of the pass.
    Locking,
    /// Waiting for the snapshot hash stored in the database, if any.
    ReadingDbHash,
    /// Deleting the old snapshot directories; `attempts` tries are done.
    DeletingFiles { attempts: u8 },
    /// Clearing the stored snapshot hash; `attempts` tries are done.
    DeletingDbKey { attempts: u8 },
    /// Waiting for the checkpoint of the hot store.
    Checkpointing,
    /// Writing the new snapshot hash to the database until it sticks.
    SettingDbHash,
    /// The pass is over; the old snapshot was kept only when it already
    /// represented the requested block.
    Done { ok: bool },
}

/// What the caller observed while performing the step the state named.
#[derive(Clone, Copy, Debug, PartialEq, Eq)]
pub enum MakeSnapshotEvent {
    /// How taking the write lock ended.
    Locked(LockResult),
    /// The snapshot hash the database holds, where one could be read.
    DbHash(Option<CryptoHash>),
    /// Whether deleting the snapshot directories succeeded.
    FilesDeleted(bool),
    /// Whether clearing the stored snapshot hash succeeded.
    DbKeyDeleted(bool),
    /// Whether the checkpoint was written.
    Checkpointed(bool),
    /// Whether the new snapshot hash was stored.
    DbHashSet(bool),
}

/// The transition relation of a snapshot-making pass: from the slot, the
/// state and the observed event to the next state and slot. A pass that
/// finds the requested snapshot already in place (same hash in the slot
/// and in the database) ends at once and keeps it; any other existing
/// snapshot is dropped and its remains deleted with at most three tries
/// per kind of deletion; a failed checkpoint ends the pass with an error;
/// storing the new hash is retried until it succeeds. An event that does
/// not belong to the state changes nothing.
pub open spec fn make_state_snapshot_step_spec(
    slot: Option<StateSnapshot>,
    state: MakeSnapshotState,
    event: MakeSnapshotEvent,
    prev: CryptoHash,
) -> (MakeSnapshotState, Option<StateSnapshot>) {
    match (state, event) {
        (MakeSnapshotState::Locking, MakeSnapshotEvent::Locked(l)) => match l {
            LockResult::Poisoned => (MakeSnapshotState::Done { ok: false }, slot),
            LockResult::Acquired => (MakeSnapshotState::ReadingDbHash, slot),
        },
        (MakeSnapshotState::ReadingDbHash, MakeSnapshotEvent::DbHash(db)) => match slot {
            Some(s) => if (db matches Some(h) && h@ == prev@) && s.prev_block_hash@ == prev@ {
                (MakeSnapshotState::Done { ok: true }, slot)
            } else {
                (MakeSnapshotState::DeletingFiles { attempts: 0 }, None)
            },
            None => (MakeSnapshotState::Checkpointing, slot),
        },
        (
            MakeSnapshotState::DeletingFiles { attempts },
            MakeSnapshotEvent::FilesDeleted(done),
        ) => if done || attempts + 1 >= 3 {
            (MakeSnapshotState::DeletingDbKey { attempts: 0 }, slot)
        } else {
            (MakeSnapshotState::DeletingFiles { attempts: (attempts + 1) as u8 }, slot)
        },
        (
            MakeSnapshotState::DeletingDbKey { attempts },
            MakeSnapshotEvent::DbKeyDeleted(done),
        ) => if done || attempts + 1 >= 3 {
            (MakeSnapshotState::Checkpointing, slot)
        } else {
            (MakeSnapshotState::DeletingDbKey { attempts: (attempts + 1) as u8 }, slot)
        },
        (MakeSnapshotState::Checkpointing, MakeSnapshotEvent::Checkpointed(done)) => if done {
            (MakeSnapshotState::SettingDbHash, Some(StateSnapshot { prev_block_hash: prev }))
        } else {
            (MakeSnapshotState::Done { ok: false }, slot)
        },
        (MakeSnapshotState::SettingDbHash, MakeSnapshotEvent::DbHashSet(done)) => if done {
            (MakeSnapshotState::Done { ok: true }, slot)
        } else {
            (MakeSnapshotState::SettingDbHash, slot)
        },
        _ => (state, slot),
    }
}

impl ShardTries {
    /// Where a snapshot-making pass begins: already done when snapshots
    /// are disabled, else waiting for the write lock.
    pub fn make_state_snapshot_start(&self) -> (r: MakeSnapshotState)
        ensures
            (self.state_snapshot_config is Disabled ==> r == (MakeSnapshotState::Done {
                ok: true,
            })),
            (self.state_snapshot_config is Enabled ==> r == MakeSnapshotState::Locking),
    {
        match &self.state_snapshot_config {
            StateSnapshotConfig::Disabled => MakeSnapshotState::Done { ok: true },
            StateSnapshotConfig::Enabled { .. } => MakeSnapshotState::Locking,
        }
    }

    /// One step of the snapshot-making pass, exactly the transition
    /// relation: takes the observed event, updates the slot and returns
    /// what the caller performs next.
    pub fn make_state_snapshot_step(
        &mut self,
        state: MakeSnapshotState,
        event: MakeSnapshotEvent,
        prev_block_hash: &CryptoHash,
    ) -> (next: MakeSnapshotState)
        ensures
            ({
                let r = make_state_snapshot_step_spec(
                    old(self).state_snapshot,
                    state,
                    event,
                    *prev_block_hash,
                );
                next == r.0 && final(self).state_snapshot == r.1
                    && final(self).state_snapshot_config == old(self).state_snapshot_config
            }),
    {
        match (state, event) {
            (MakeSnapshotState::Locking, MakeSnapshotEvent::Locked(l)) => match l {
                LockResult::Poisoned => MakeSnapshotState::Done { ok: false },
                LockResult::Acquired => MakeSnapshotState::ReadingDbHash,
            },
            (MakeSnapshotState::ReadingDbHash, MakeSnapshotEvent::DbHash(db)) => {
                let already = match (&self.state_snapshot, &db) {
                    (Some(s), Some(h)) => *h == *prev_block_hash && s.prev_block_hash
                        == *prev_block_hash,
                    _ => false,
                };
                if already {
                    MakeSnapshotState::Done { ok: true }
                } else if self.state_snapshot.is_some() {
                    self.state_snapshot = None;
                    MakeSnapshotState::DeletingFiles { attempts: 0 }
                } else {
                    MakeSnapshotState::Checkpointing
                }
            },
            (
                MakeSnapshotState::DeletingFiles { attempts },
                MakeSnapshotEvent::FilesDeleted(done),
            ) => if done || attempts >= 2 {
                MakeSnapshotState::DeletingDbKey { attempts: 0 }
            } else {
                MakeSnapshotState::DeletingFiles { attempts: attempts + 1 }
            },
            (
                MakeSnapshotState::DeletingDbKey { attempts },
                MakeSnapshotEvent::DbKeyDeleted(done),
            ) => if done || attempts >= 2 {
                MakeSnapshotState::Checkpointing
            } else {
                MakeSnapshotState::DeletingDbKey { attempts: attempts + 1 }
            },
            (MakeSnapshotState::Checkpointing, MakeSnapshotEvent::Checkpointed(done)) => if done {
                self.state_snapshot = Some(StateSnapshot { prev_block_hash: *prev_block_hash });
                MakeSnapshotState::SettingDbHash
            } else {
                MakeSnapshotState::Done { ok: false }
            },
            (MakeSnapshotState::SettingDbHash, MakeSnapshotEvent::DbHashSet(done)) => if done {
                MakeSnapshotState::Done { ok: true }
            } else {
                MakeSnapshotState::SettingDbHash
            },
            (s, _) => s,
        }
    }
}

/// Bounded retries: a deletion state never records three or more tries —
/// the fourth try is never asked for.
pub open spec fn make_state_snapshot_inv(state: MakeSnapshotState) -> bool {
    match state {
        MakeSnapshotState::DeletingFiles { attempts } => attempts < 3,
        MakeSnapshotState::DeletingDbKey { attempts } => attempts < 3,
        _ => true,
    }
}

/// Law: every state the step function reaches from a state within the
/// retry bound is itself within the retry bound, so each kind of deletion
/// is attempted at most three times in a pass.
pub proof fn lemma_make_state_snapshot_retry_bound(
    slot: Option<StateSnapshot>,
    state: MakeSnapshotState,
    event: MakeSnapshotEvent,
    prev: CryptoHash,
)
    requires
        make_state_snapshot_inv(state),
    ensures
        make_state_snapshot_inv(make_state_snapshot_step_spec(slot, state, event, prev).0),
{
}

} // verus!
