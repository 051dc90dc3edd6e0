//! From a funding request to a proven asset lock: build, track, broadcast,
//! wait for a proof.

use vstd::prelude::*;

use crate::wallet::asset_lock::accounts::AssetLockFundingType;
use crate::wallet::error::{BroadcastError, PlatformWalletError};
use crate::wallet::types::{DerivationPath, OutPoint, Txid};

verus! {

/// How long an InstantSend lock is waited for before any finality will do, in
/// seconds. This is a preference, not a timeout: the wait for a chain lock
/// that follows is unbounded.
pub const INSTANT_SEND_PREFERENCE_SECS: u64 = 300;

/// How far a tracked asset lock has come.
#[derive(Clone, Copy, Debug, PartialEq, Eq, Structural)]
pub enum AssetLockStatus {
    /// Built and signed, not known to have been sent.
    Built,
    /// Sent to the network.
    Broadcast,
    /// Proven by an InstantSend lock.
    InstantSendLocked,
    /// Proven by a chain lock.
    ChainLocked,
}

/// A proof of an asset lock, by what proves it.
#[derive(Clone, Copy, Debug)]
pub enum AssetLockProof<P> {
    /// By an InstantSend lock of the transaction.
    Instant(P),
    /// By a chain lock of the block that holds the transaction.
    Chain(P),
}

/// What an asset lock is asked for.
#[derive(Clone, Copy, Debug)]
pub struct LockRequest {
    pub amount_duffs: u64,
    pub account_index: u32,
    pub funding_type: AssetLockFundingType,
    pub identity_index: u32,
}

/// The row that makes an asset lock resumable.
#[derive(Debug)]
pub struct TrackedAssetLock<T, P> {
    pub out_point: OutPoint,
    pub transaction: T,
    pub account_index: u32,
    pub funding_type: AssetLockFundingType,
    pub identity_index: u32,
    pub amount: u64,
    pub status: AssetLockStatus,
    pub lock_proof: Option<AssetLockProof<P>>,
}

/// A transaction that was built and signed.
#[derive(Debug)]
pub struct BuiltTransaction<T> {
    pub transaction: T,
    /// The transaction's id.
    pub txid: Txid,
    /// The derivation path of the key to its credit output.
    pub path: DerivationPath,
}

/// The lock that the flow is about.
#[derive(Debug)]
pub struct LockInHand<T> {
    pub transaction: T,
    pub path: DerivationPath,
    /// The credit output.
    pub out_point: OutPoint,
}

/// A lock with its proof.
#[derive(Debug)]
pub struct ProvenLock<P> {
    pub lock_proof: AssetLockProof<P>,
    pub path: DerivationPath,
    pub out_point: OutPoint,
}

/// What the flow waits for.
#[derive(Debug)]
pub enum LockPhase<T, P> {
    /// For the transaction to be built, its inputs reserved.
    Building,
    /// For the row to be tracked.
    Tracking { lock: LockInHand<T> },
    /// For the network to take the transaction.
    Broadcasting { lock: LockInHand<T> },
    /// For the row of a rejected transaction to be taken out.
    Untracking { transaction: T, error: PlatformWalletError },
    /// For the inputs of a rejected transaction to be released.
    Releasing { error: PlatformWalletError },
    /// For the row to become `Broadcast`.
    Advancing { lock: LockInHand<T> },
    /// For a proof.
    Waiting { lock: LockInHand<T> },
    /// For the proof to be found good, or replaced by a better one.
    Validating { lock: LockInHand<T> },
    /// For the proof to be attached to the row.
    Attaching { lock: LockInHand<T>, lock_proof: AssetLockProof<P> },
    /// For nothing.
    Finished,
}

/// The life of one asset lock, until it is proven. `T` stands for the
/// transaction, and `P` for the content of a proof: both are shared references
/// to them, or other handles that can be copied.
#[derive(Debug)]
pub struct LockFlow<T, P> {
    pub request: LockRequest,
    pub phase: LockPhase<T, P>,
}

/// What the collaborators answered.
#[derive(Debug)]
pub enum LockEvent<T, P> {
    Built(Result<BuiltTransaction<T>, PlatformWalletError>),
    RowTracked,
    BroadcastAnswered(Result<(), BroadcastError>),
    /// Whether the row was taken out. It is kept where a concurrent resume has
    /// moved it past `Built`.
    Untracked { removed: bool },
    Released,
    Advanced(Result<(), PlatformWalletError>),
    ProofReceived(Result<AssetLockProof<P>, PlatformWalletError>),
    ProofValidated(Result<AssetLockProof<P>, PlatformWalletError>),
    Attached(Result<(), PlatformWalletError>),
}

/// What is to be done next. Each change of a row is also queued for
/// persistence, in this order.
#[derive(Debug)]
pub enum LockAction<T, P> {
    /// Build the transaction.
    Build { request: LockRequest },
    /// Track this row.
    Track { row: TrackedAssetLock<T, P> },
    /// Broadcast the transaction.
    Broadcast { transaction: T },
    /// Take out the row, if it is still `Built`.
    Untrack { out_point: OutPoint },
    /// Release the transaction's inputs, reserved on this BIP44 account.
    Release { account_index: u32, transaction: T },
    /// Move the row on to this status, without a proof.
    Advance { out_point: OutPoint, status: AssetLockStatus },
    /// Wait for a proof, preferring an InstantSend lock for this long.
    WaitForProof { out_point: OutPoint, instant_send_secs: u64 },
    /// Check that the proof is still good; if not, wait for a chain lock.
    Validate { lock_proof: AssetLockProof<P>, account_index: u32, out_point: OutPoint },
    /// Attach the proof to the row, and move it on to this status.
    Attach { out_point: OutPoint, status: AssetLockStatus, lock_proof: AssetLockProof<P> },
    /// Return this.
    Finish(Result<ProvenLock<P>, PlatformWalletError>),
}

/// The status that a proof gives a row.
pub open spec fn status_of_proof<P>(lock_proof: AssetLockProof<P>) -> AssetLockStatus {
    match lock_proof {
        AssetLockProof::Instant(_) => AssetLockStatus::InstantSendLocked,
        AssetLockProof::Chain(_) => AssetLockStatus::ChainLocked,
    }
}

/// The credit output of the transaction with this id.
pub open spec fn lock_out_point(txid: Txid) -> OutPoint {
    OutPoint { txid, vout: 0 }
}

impl<T, P> LockFlow<T, P> {
    /// `action` ends the flow with exactly this outcome.
    pub open spec fn ends(
        post: LockFlow<T, P>,
        action: LockAction<T, P>,
        outcome: Result<ProvenLock<P>, PlatformWalletError>,
    ) -> bool {
        post.phase is Finished && action == LockAction::<T, P>::Finish(outcome)
    }

    /// The lock that a built transaction is.
    pub open spec fn lock_of(built: BuiltTransaction<T>) -> LockInHand<T> {
        LockInHand {
            transaction: built.transaction,
            path: built.path,
            out_point: lock_out_point(built.txid),
        }
    }

    /// The row that tracks the built transaction.
    pub open spec fn built_row(self, lock: LockInHand<T>) -> TrackedAssetLock<T, P> {
        TrackedAssetLock {
            out_point: lock.out_point,
            transaction: lock.transaction,
            account_index: self.request.account_index,
            funding_type: self.request.funding_type,
            identity_index: self.request.identity_index,
            amount: self.request.amount_duffs,
            status: AssetLockStatus::Built,
            lock_proof: None,
        }
    }

    /// The event that the flow waits for is of the kind of `event`.
    pub open spec fn expects(&self, event: &LockEvent<T, P>) -> bool {
        match event {
            LockEvent::Built(_) => self.phase is Building,
            LockEvent::RowTracked => self.phase is Tracking,
            LockEvent::BroadcastAnswered(_) => self.phase is Broadcasting,
            LockEvent::Untracked { .. } => self.phase is Untracking,
            LockEvent::Released => self.phase is Releasing,
            LockEvent::Advanced(_) => self.phase is Advancing,
            LockEvent::ProofReceived(_) => self.phase is Waiting,
            LockEvent::ProofValidated(_) => self.phase is Validating,
            LockEvent::Attached(_) => self.phase is Attaching,
        }
    }

    /// What follows an event. A definitive rejection untracks the row before
    /// the inputs are released, and releases them only where the row is gone.
    /// An ambiguous failure keeps both.
    pub open spec fn is_step(
        pre: LockFlow<T, P>,
        event: LockEvent<T, P>,
        post: LockFlow<T, P>,
        action: LockAction<T, P>,
    ) -> bool {
        &&& post.request == pre.request
        &&& match (pre.phase, event) {
            (LockPhase::Building, LockEvent::Built(Err(error))) => LockFlow::ends(
                post,
                action,
                Err(error),
            ),
            (LockPhase::Building, LockEvent::Built(Ok(built))) => {
                &&& post.phase == (LockPhase::<T, P>::Tracking { lock: Self::lock_of(built) })
                &&& action == (LockAction::Track { row: pre.built_row(Self::lock_of(built)) })
            },
            (LockPhase::Tracking { lock }, LockEvent::RowTracked) => {
                &&& post.phase == (LockPhase::<T, P>::Broadcasting { lock })
                &&& action == (LockAction::<T, P>::Broadcast { transaction: lock.transaction })
            },
            (LockPhase::Broadcasting { lock }, LockEvent::BroadcastAnswered(answer)) => {
                match answer {
                    Ok(_) => {
                        &&& post.phase == (LockPhase::<T, P>::Advancing { lock })
                        &&& action == (LockAction::<T, P>::Advance {
                            out_point: lock.out_point,
                            status: AssetLockStatus::Broadcast,
                        })
                    },
                    Err(BroadcastError::Rejected { reason }) => {
                        &&& post.phase == (LockPhase::<T, P>::Untracking {
                            transaction: lock.transaction,
                            error: PlatformWalletError::TransactionBroadcast(reason),
                        })
                        &&& action == (LockAction::<T, P>::Untrack { out_point: lock.out_point })
                    },
                    Err(BroadcastError::MaybeSent { reason }) => LockFlow::ends(
                        post,
                        action,
                        Err(PlatformWalletError::TransactionBroadcastUnconfirmed(reason)),
                    ),
                }
            },
            (
                LockPhase::Untracking { transaction, error },
                LockEvent::Untracked { removed },
            ) => if removed {
                &&& post.phase == (LockPhase::<T, P>::Releasing { error })
                &&& action == (LockAction::<T, P>::Release {
                    account_index: pre.request.account_index,
                    transaction,
                })
            } else {
                LockFlow::ends(post, action, Err(error))
            },
            (LockPhase::Releasing { error }, LockEvent::Released) => LockFlow::ends(
                post,
                action,
                Err(error),
            ),
            (LockPhase::Advancing { lock }, LockEvent::Advanced(answer)) => match answer {
                Ok(_) => {
                    &&& post.phase == (LockPhase::<T, P>::Waiting { lock })
                    &&& action == (LockAction::<T, P>::WaitForProof {
                        out_point: lock.out_point,
                        instant_send_secs: INSTANT_SEND_PREFERENCE_SECS,
                    })
                },
                Err(error) => LockFlow::ends(post, action, Err(error)),
            },
            (LockPhase::Waiting { lock }, LockEvent::ProofReceived(answer)) => match answer {
                Ok(lock_proof) => {
                    &&& post.phase == (LockPhase::<T, P>::Validating { lock })
                    &&& action == (LockAction::<T, P>::Validate {
                        lock_proof,
                        account_index: pre.request.account_index,
                        out_point: lock.out_point,
                    })
                },
                Err(error) => LockFlow::ends(post, action, Err(error)),
            },
            (LockPhase::Validating { lock }, LockEvent::ProofValidated(answer)) => match answer {
                Ok(lock_proof) => {
                    &&& post.phase == (LockPhase::<T, P>::Attaching { lock, lock_proof })
                    &&& action == (LockAction::<T, P>::Attach {
                        out_point: lock.out_point,
                        status: status_of_proof(lock_proof),
                        lock_proof,
                    })
                },
                Err(error) => LockFlow::ends(post, action, Err(error)),
            },
            (LockPhase::Attaching { lock, lock_proof }, LockEvent::Attached(answer)) => match answer {
                Ok(_) => LockFlow::ends(
                    post,
                    action,
                    Ok(ProvenLock { lock_proof, path: lock.path, out_point: lock.out_point }),
                ),
                Err(error) => LockFlow::ends(post, action, Err(error)),
            },
            _ => false,
        }
    }

    /// Begins the life of the asset lock of a request.
    pub fn start(request: LockRequest) -> (next: (LockFlow<T, P>, LockAction<T, P>))
        ensures
            next.0 == (LockFlow::<T, P> { request, phase: LockPhase::Building }),
            next.1 == (LockAction::<T, P>::Build { request }),
    {
        (LockFlow { request, phase: LockPhase::Building }, LockAction::Build { request })
    }

    fn finish(
        request: LockRequest,
        outcome: Result<ProvenLock<P>, PlatformWalletError>,
    ) -> (next: (LockFlow<T, P>, LockAction<T, P>))
        ensures
            next.0.request == request,
            LockFlow::ends(next.0, next.1, outcome),
    {
        (LockFlow { request, phase: LockPhase::Finished }, LockAction::Finish(outcome))
    }

    /// Whether `step` may be called with `event`.
    pub fn accepts(&self, event: &LockEvent<T, P>) -> (accepted: bool)
        ensures
            accepted == self.expects(event),
    {
        match event {
            LockEvent::Built(_) => matches!(self.phase, LockPhase::Building),
            LockEvent::RowTracked => matches!(self.phase, LockPhase::Tracking { .. }),
            LockEvent::BroadcastAnswered(_) => matches!(
                self.phase,
                LockPhase::Broadcasting { .. }
            ),
            LockEvent::Untracked { .. } => matches!(self.phase, LockPhase::Untracking { .. }),
            LockEvent::Released => matches!(self.phase, LockPhase::Releasing { .. }),
            LockEvent::Advanced(_) => matches!(self.phase, LockPhase::Advancing { .. }),
            LockEvent::ProofReceived(_) => matches!(self.phase, LockPhase::Waiting { .. }),
            LockEvent::ProofValidated(_) => matches!(self.phase, LockPhase::Validating { .. }),
            LockEvent::Attached(_) => matches!(self.phase, LockPhase::Attaching { .. }),
        }
    }
}

impl<T: Copy, P: Copy> LockFlow<T, P> {
    /// Takes one event, and says what to do next.
    pub fn step(self, event: LockEvent<T, P>) -> (next: (
        LockFlow<T, P>,
        LockAction<T, P>,
    ))
        requires
            self.expects(&event),
        ensures
            LockFlow::is_step(self, event, next.0, next.1),
    {
        let request: LockRequest = self.request;
        match (self.phase, event) {
            (LockPhase::Building, LockEvent::Built(answer)) => match answer {
                Ok(built) => {
                    let transaction: T = built.transaction;
                    let out_point: OutPoint = OutPoint { txid: built.txid, vout: 0 };
                    let row: TrackedAssetLock<T, P> = TrackedAssetLock {
                        out_point,
                        transaction,
                        account_index: request.account_index,
                        funding_type: request.funding_type,
                        identity_index: request.identity_index,
                        amount: request.amount_duffs,
                        status: AssetLockStatus::Built,
                        lock_proof: None,
                    };
                    let lock: LockInHand<T> = LockInHand {
                        transaction,
                        path: built.path,
                        out_point,
                    };
                    (
                        LockFlow { request, phase: LockPhase::Tracking { lock } },
                        LockAction::Track { row },
                    )
                },
                Err(error) => LockFlow::finish(request, Err(error)),
            },
            (LockPhase::Tracking { lock }, LockEvent::RowTracked) => {
                let transaction: T = lock.transaction;
                (
                    LockFlow { request, phase: LockPhase::Broadcasting { lock } },
                    LockAction::Broadcast { transaction },
                )
            },
            (LockPhase::Broadcasting { lock }, LockEvent::BroadcastAnswered(answer)) => {
                let out_point: OutPoint = lock.out_point;
                match answer {
                    Ok(_) => (
                        LockFlow { request, phase: LockPhase::Advancing { lock } },
                        LockAction::Advance { out_point, status: AssetLockStatus::Broadcast },
                    ),
                    Err(failure) => {
                        let rejected: bool = matches!(failure, BroadcastError::Rejected { .. });
                        let error: PlatformWalletError = PlatformWalletError::from(failure);
                        if rejected {
                            let transaction: T = lock.transaction;
                            (
                                LockFlow {
                                    request,
                                    phase: LockPhase::Untracking { transaction, error },
                                },
                                LockAction::Untrack { out_point },
                            )
                        } else {
                            LockFlow::finish(request, Err(error))
                        }
                    },
                }
            },
            (LockPhase::Untracking { transaction, error }, LockEvent::Untracked { removed }) => {
                if removed {
                    (
                        LockFlow { request, phase: LockPhase::Releasing { error } },
                        LockAction::Release { account_index: request.account_index, transaction },
                    )
                } else {
                    LockFlow::finish(request, Err(error))
                }
            },
            (LockPhase::Releasing { error }, LockEvent::Released) => LockFlow::finish(
                request,
                Err(error),
            ),
            (LockPhase::Advancing { lock }, LockEvent::Advanced(answer)) => match answer {
                Ok(_) => {
                    let out_point: OutPoint = lock.out_point;
                    (
                        LockFlow { request, phase: LockPhase::Waiting { lock } },
                        LockAction::WaitForProof {
                            out_point,
                            instant_send_secs: INSTANT_SEND_PREFERENCE_SECS,
                        },
                    )
                },
                Err(error) => LockFlow::finish(request, Err(error)),
            },
            (LockPhase::Waiting { lock }, LockEvent::ProofReceived(answer)) => match answer {
                Ok(lock_proof) => {
                    let out_point: OutPoint = lock.out_point;
                    (
                        LockFlow { request, phase: LockPhase::Validating { lock } },
                        LockAction::Validate {
                            lock_proof,
                            account_index: request.account_index,
                            out_point,
                        },
                    )
                },
                Err(error) => LockFlow::finish(request, Err(error)),
            },
            (LockPhase::Validating { lock }, LockEvent::ProofValidated(answer)) => match answer {
                Ok(lock_proof) => {
                    let out_point: OutPoint = lock.out_point;
                    let status: AssetLockStatus = match lock_proof {
                        AssetLockProof::Instant(_) => AssetLockStatus::InstantSendLocked,
                        AssetLockProof::Chain(_) => AssetLockStatus::ChainLocked,
                    };
                    (
                        LockFlow { request, phase: LockPhase::Attaching { lock, lock_proof } },
                        LockAction::Attach { out_point, status, lock_proof },
                    )
                },
                Err(error) => LockFlow::finish(request, Err(error)),
            },
            (LockPhase::Attaching { lock, lock_proof }, LockEvent::Attached(answer)) => match answer {
                Ok(_) => LockFlow::finish(
                    request,
                    Ok(ProvenLock { lock_proof, path: lock.path, out_point: lock.out_point }),
                ),
                Err(error) => LockFlow::finish(request, Err(error)),
            },
            _ => vstd::pervasive::unreached(),
        }
    }
}

/// What matters of an asset lock while its flow runs.
pub struct LockWorld {
    /// The status of its row, while it is tracked. A tracked lock can be
    /// resumed by anyone, at any time.
    pub row: Option<AssetLockStatus>,
    /// Its inputs cannot be selected by another build.
    pub reserved: bool,
}

/// How far along a status is.
pub open spec fn rank(status: AssetLockStatus) -> int {
    match status {
        AssetLockStatus::Built => 0,
        AssetLockStatus::Broadcast => 1,
        AssetLockStatus::InstantSendLocked => 2,
        AssetLockStatus::ChainLocked => 3,
    }
}

impl LockWorld {
    /// The lock is not resumable while its inputs are open to another build.
    pub open spec fn safe(self) -> bool {
        self.row is Some ==> self.reserved
    }

    /// What others may do meanwhile: a concurrent resume may move the row on.
    pub open spec fn may_become(self, other: LockWorld) -> bool {
        &&& other.reserved == self.reserved
        &&& match self.row {
            None => other.row is None,
            Some(status) => other.row is Some && rank(other.row->0) >= rank(status),
        }
    }

    /// What the work behind an event has done. Building reserves the inputs of
    /// the transaction it returns. A row is taken out exactly where it is
    /// still `Built`.
    pub open spec fn changes_by<T, P>(
        self,
        event: LockEvent<T, P>,
        after: LockWorld,
    ) -> bool {
        match event {
            LockEvent::Built(Ok(_)) => after == (LockWorld { reserved: true, ..self }),
            LockEvent::Built(Err(_)) => after.row == self.row,
            LockEvent::RowTracked => after == (LockWorld {
                row: Some(AssetLockStatus::Built),
                ..self
            }),
            LockEvent::Untracked { removed } => {
                &&& removed <==> self.row == Some(AssetLockStatus::Built)
                &&& after == (LockWorld {
                    row: if removed {
                        None
                    } else {
                        self.row
                    },
                    ..self
                })
            },
            LockEvent::Released => after == (LockWorld { reserved: false, ..self }),
            LockEvent::Advanced(Ok(_)) | LockEvent::Attached(Ok(_)) => self.may_become(after),
            _ => after == self,
        }
    }
}

/// A run of the flow: the states it goes through, the events between them,
/// the action each state was entered with, and the world as it then is.
pub struct LockRun<T, P> {
    pub request: LockRequest,
    pub flows: Seq<LockFlow<T, P>>,
    pub events: Seq<LockEvent<T, P>>,
    pub actions: Seq<LockAction<T, P>>,
    pub worlds: Seq<LockWorld>,
}

impl<T, P> LockRun<T, P> {
    /// Step `i` is one of the flow, after whatever others did meanwhile.
    pub open spec fn follows(self, i: int) -> bool {
        &&& LockFlow::is_step(
            self.flows[i],
            self.events[i],
            self.flows[i + 1],
            self.actions[i + 1],
        )
        &&& exists|meanwhile: LockWorld| #[trigger]
            self.worlds[i].may_become(meanwhile) && meanwhile.changes_by(
                self.events[i],
                self.worlds[i + 1],
            )
    }

    pub open spec fn valid(self) -> bool {
        &&& self.flows.len() == self.events.len() + 1
        &&& self.actions.len() == self.events.len() + 1
        &&& self.worlds.len() == self.events.len() + 1
        &&& self.flows[0] == (LockFlow::<T, P> {
            request: self.request,
            phase: LockPhase::Building,
        })
        &&& self.actions[0] == (LockAction::<T, P>::Build { request: self.request })
        &&& self.worlds[0].row is None
        &&& forall|i: int| 0 <= i < self.events.len() ==> #[trigger] self.follows(i)
    }
}

/// What a phase says about the world, and about the error it carries.
spec fn matches_world<T, P>(phase: LockPhase<T, P>, world: LockWorld) -> bool {
    match phase {
        LockPhase::Building => world.row is None,
        LockPhase::Tracking { .. } => world.row is None && world.reserved,
        LockPhase::Untracking { error, .. } => {
            &&& error is TransactionBroadcast
            &&& world.row is Some && world.reserved
        },
        LockPhase::Releasing { error } => {
            &&& error is TransactionBroadcast
            &&& world.row is None && world.reserved
        },
        LockPhase::Finished => world.safe(),
        _ => world.row is Some && world.reserved,
    }
}

proof fn lemma_run_matches_world<T, P>(run: LockRun<T, P>, i: int)
    requires
        run.valid(),
        0 <= i < run.flows.len(),
    ensures
        matches_world(run.flows[i].phase, run.worlds[i]),
        run.flows[i].request == run.request,
    decreases i,
{
    if i > 0 {
        lemma_run_matches_world(run, i - 1);
        assert(run.follows(i - 1));
    }
}

/// At no point of any run is the lock resumable while its inputs can be spent
/// by another build, whatever a concurrent resume does.
pub proof fn law_tracked_lock_keeps_its_inputs_reserved<T, P>(
    run: LockRun<T, P>,
    i: int,
    meanwhile: LockWorld,
)
    requires
        run.valid(),
        0 <= i < run.worlds.len(),
        run.worlds[i].may_become(meanwhile),
    ensures
        run.worlds[i].safe(),
        meanwhile.safe(),
{
    lemma_run_matches_world(run, i);
}

/// The transaction is broadcast only once its row is tracked, so that a lock
/// that was sent can be recovered.
pub proof fn law_lock_is_tracked_before_it_is_broadcast<T, P>(run: LockRun<T, P>, i: int)
    requires
        run.valid(),
        0 <= i < run.actions.len(),
        run.actions[i] is Broadcast,
    ensures
        run.worlds[i] == (LockWorld { row: Some(AssetLockStatus::Built), reserved: true }),
{
    if i > 0 {
        lemma_run_matches_world(run, i - 1);
        assert(run.follows(i - 1));
    }
}

/// A definitive rejection untracks the row and releases the inputs: nothing
/// can resume the transaction, its inputs are open again, and the rejection
/// is returned.
pub proof fn law_rejected_lock_is_untracked_and_released<T, P>(run: LockRun<T, P>, i: int)
    requires
        run.valid(),
        0 <= i < run.events.len(),
        run.events[i] is Released,
    ensures
        run.worlds[i + 1] == (LockWorld { row: None, reserved: false }),
        run.actions[i + 1] matches LockAction::Finish(Err(error))
            && error is TransactionBroadcast,
{
    lemma_run_matches_world(run, i);
    assert(run.follows(i));
}

/// The inputs are released only where the row was taken out.
pub proof fn law_release_follows_the_removal_of_the_row<T, P>(run: LockRun<T, P>, i: int)
    requires
        run.valid(),
        0 <= i < run.actions.len(),
        run.actions[i] is Release,
    ensures
        i > 0,
        run.events[i - 1] == (LockEvent::<T, P>::Untracked { removed: true }),
        run.worlds[i].row is None,
        run.actions[i]->Release_account_index == run.request.account_index,
{
    if i > 0 {
        lemma_run_matches_world(run, i - 1);
        assert(run.follows(i - 1));
    }
}

/// An ambiguous failure keeps the resumable row and the reservation.
pub proof fn law_ambiguous_failure_keeps_row_and_reservation<T, P>(run: LockRun<T, P>, i: int)
    requires
        run.valid(),
        0 <= i < run.events.len(),
        run.events[i] matches LockEvent::BroadcastAnswered(Err(BroadcastError::MaybeSent { .. })),
    ensures
        run.worlds[i + 1].row is Some,
        run.worlds[i + 1].reserved,
        run.actions[i + 1] matches LockAction::Finish(Err(error))
            && error is TransactionBroadcastUnconfirmed,
{
    lemma_run_matches_world(run, i);
    assert(run.follows(i));
}

/// Where a concurrent resume has moved the row past `Built` by the time of a
/// rejection, the row and the reservation are both kept, and the rejection is
/// returned.
pub proof fn law_rejection_racing_a_resume_keeps_row_and_reservation<T, P>(
    run: LockRun<T, P>,
    i: int,
)
    requires
        run.valid(),
        0 <= i < run.events.len(),
        run.events[i] == (LockEvent::<T, P>::Untracked { removed: false }),
    ensures
        run.worlds[i + 1].row is Some,
        run.worlds[i + 1].row != Some(AssetLockStatus::Built),
        run.worlds[i + 1].reserved,
        run.actions[i + 1] matches LockAction::Finish(Err(error))
            && error is TransactionBroadcast,
{
    lemma_run_matches_world(run, i);
    assert(run.follows(i));
}

impl<T, P> LockPhase<T, P> {
    /// The lock that the flow is about, where the phase holds it.
    pub open spec fn lock_in_hand(self) -> Option<LockInHand<T>> {
        match self {
            LockPhase::Tracking { lock }
            | LockPhase::Broadcasting { lock }
            | LockPhase::Advancing { lock }
            | LockPhase::Waiting { lock }
            | LockPhase::Validating { lock }
            | LockPhase::Attaching { lock, .. } => Some(lock),
            _ => None,
        }
    }
}

impl<T, P> LockAction<T, P> {
    /// The action is about the built transaction and its credit output, as far
    /// as it names a transaction, an outpoint or a path.
    pub open spec fn is_about(self, built: BuiltTransaction<T>) -> bool {
        let out_point = lock_out_point(built.txid);
        match self {
            LockAction::Build { .. } => false,
            LockAction::Track { row } => row.out_point == out_point && row.transaction
                == built.transaction,
            LockAction::Broadcast { transaction } => transaction == built.transaction,
            LockAction::Untrack { out_point: o } => o == out_point,
            LockAction::Release { transaction, .. } => transaction == built.transaction,
            LockAction::Advance { out_point: o, .. } => o == out_point,
            LockAction::WaitForProof { out_point: o, .. } => o == out_point,
            LockAction::Validate { out_point: o, .. } => o == out_point,
            LockAction::Attach { out_point: o, .. } => o == out_point,
            LockAction::Finish(Ok(proven)) => proven.out_point == out_point && proven.path
                == built.path,
            LockAction::Finish(Err(_)) => true,
        }
    }
}

/// The transaction that is tracked, broadcast and released in a run is the one
/// that was built at its start, whatever is advanced, waited for or returned
/// is its credit output, and the path that is returned is the one it was built
/// with.
pub proof fn law_every_action_is_about_the_built_lock<T, P>(run: LockRun<T, P>, i: int)
    requires
        run.valid(),
        0 < i < run.actions.len(),
    ensures
        match run.events[0] {
            LockEvent::Built(Ok(built)) => run.actions[i].is_about(built),
            LockEvent::Built(Err(error)) => run.actions[i] == LockAction::<T, P>::Finish(
                Err(error),
            ),
            _ => false,
        },
{
    lemma_phase_holds_built_lock(run, i - 1);
    assert(run.follows(0));
    assert(run.follows(i - 1));
}

proof fn lemma_phase_holds_built_lock<T, P>(run: LockRun<T, P>, i: int)
    requires
        run.valid(),
        0 <= i < run.flows.len(),
    ensures
        run.flows[i].phase is Building <==> i == 0,
        i > 0 ==> match run.events[0] {
            LockEvent::Built(Ok(built)) => {
                &&& run.flows[i].phase.lock_in_hand() matches Some(lock) ==> lock
                    == LockFlow::<T, P>::lock_of(built)
                &&& run.flows[i].phase matches LockPhase::Untracking { transaction, .. }
                    ==> transaction == built.transaction
            },
            LockEvent::Built(Err(_)) => i == 1 && run.flows[i].phase is Finished,
            _ => false,
        },
    decreases i,
{
    if i > 0 {
        lemma_phase_holds_built_lock(run, i - 1);
        assert(run.follows(0));
        assert(run.follows(i - 1));
    }
}

/// Success means that the lock is tracked, that the proof that came was looked
/// at, and that the proof that was found good is the one that was attached to
/// the row, with the status of its kind, and the one that is returned.
pub proof fn law_success_means_a_proof_was_attached<T, P>(run: LockRun<T, P>, i: int)
    requires
        run.valid(),
        0 <= i < run.actions.len(),
        run.actions[i] matches LockAction::Finish(Ok(_)),
    ensures
        run.worlds[i].row is Some,
        i >= 3,
        run.events[i - 1] matches LockEvent::Attached(Ok(_)),
        run.events[i - 2] matches LockEvent::ProofValidated(Ok(lock_proof)) && {
            &&& run.actions[i - 1]->Attach_lock_proof == lock_proof
            &&& run.actions[i - 1]->Attach_status == status_of_proof(lock_proof)
            &&& run.actions[i - 1] is Attach
            &&& run.actions[i]->Finish_0->Ok_0.lock_proof == lock_proof
        },
        run.events[i - 3] matches LockEvent::ProofReceived(Ok(received)) && {
            &&& run.actions[i - 2] is Validate
            &&& run.actions[i - 2]->Validate_lock_proof == received
        },
{
    if i > 0 {
        lemma_run_matches_world(run, i - 1);
        assert(run.follows(i - 1));
        if i > 1 {
            assert(run.follows(i - 2));
            if i > 2 {
                assert(run.follows(i - 3));
            }
        }
    }
}

/// Where each phase lies in a run, and the rejection that it carries.
proof fn lemma_phase_positions<T, P>(run: LockRun<T, P>, i: int)
    requires
        run.valid(),
        0 <= i < run.flows.len(),
    ensures
        run.flows[i].request == run.request,
        match run.flows[i].phase {
            LockPhase::Building => i == 0,
            LockPhase::Tracking { .. } => i == 1,
            LockPhase::Broadcasting { .. } => i == 2,
            LockPhase::Untracking { error, .. } => i == 3 && is_rejection_of(run, error),
            LockPhase::Advancing { .. } => i == 3,
            LockPhase::Releasing { error } => i == 4 && is_rejection_of(run, error),
            LockPhase::Waiting { .. } => i == 4,
            LockPhase::Validating { .. } => i == 5,
            LockPhase::Attaching { lock_proof, .. } => i == 6 && run.events[5]
                == LockEvent::<T, P>::ProofValidated(Ok(lock_proof)),
            LockPhase::Finished => i > 0,
        },
    decreases i,
{
    if i > 0 {
        lemma_phase_positions(run, i - 1);
        assert(run.follows(i - 1));
    }
}

/// The network rejected the transaction of the run, for the reason that
/// `error` gives.
spec fn is_rejection_of<T, P>(run: LockRun<T, P>, error: PlatformWalletError) -> bool {
    &&& run.events.len() > 2
    &&& run.events[2] matches LockEvent::BroadcastAnswered(Err(BroadcastError::Rejected { reason }))
    &&& error == PlatformWalletError::TransactionBroadcast(reason)
}

/// The row that is tracked, and from which the lock is resumed, is that of the
/// request: it names the account that funds the lock, what the lock is for,
/// the identity it is for and the amount, each as it was asked for. It holds
/// the first output of the built transaction, is `Built`, and has no proof.
pub proof fn law_tracked_row_is_that_of_the_request<T, P>(run: LockRun<T, P>, i: int)
    requires
        run.valid(),
        0 <= i < run.actions.len(),
    ensures
        run.actions[i] matches LockAction::Track { row } ==> {
            &&& row.account_index == run.request.account_index
            &&& row.funding_type == run.request.funding_type
            &&& row.identity_index == run.request.identity_index
            &&& row.amount == run.request.amount_duffs
            &&& row.status == AssetLockStatus::Built
            &&& row.lock_proof is None
            &&& run.events[0] matches LockEvent::Built(Ok(built))
            &&& row.transaction == built.transaction
            &&& row.out_point.txid == built.txid
            &&& row.out_point.vout == 0
        },
        i == 0 ==> (run.actions[i] matches LockAction::Build { request } && request == run.request),
        i == 1 && (run.events[0] matches LockEvent::Built(Ok(_))) ==> run.actions[i] is Track,
{
    if i > 0 {
        lemma_phase_positions(run, i - 1);
        assert(run.follows(i - 1));
    }
}

/// What the network is given is the built transaction. Where it takes it, the
/// first output of that transaction is moved on to `Broadcast`. Where it
/// rejects it, the row of that output is taken out. Where it leaves it open,
/// its reason is returned and nothing is undone.
pub proof fn law_broadcast_is_of_the_built_transaction<T, P>(run: LockRun<T, P>, i: int)
    requires
        run.valid(),
        0 < i < run.actions.len(),
    ensures
        run.events[i - 1] is RowTracked ==> {
            &&& run.events[0] matches LockEvent::Built(Ok(built))
            &&& run.actions[i] matches LockAction::Broadcast { transaction }
            &&& transaction == built.transaction
        },
        run.events[i - 1] matches LockEvent::BroadcastAnswered(Ok(_)) ==> {
            &&& run.events[0] matches LockEvent::Built(Ok(built))
            &&& run.actions[i] matches LockAction::Advance { out_point, status }
            &&& out_point.txid == built.txid
            &&& out_point.vout == 0
            &&& status == AssetLockStatus::Broadcast
        },
        run.events[i - 1] matches LockEvent::BroadcastAnswered(
            Err(BroadcastError::Rejected { .. }),
        ) ==> {
            &&& run.events[0] matches LockEvent::Built(Ok(built))
            &&& run.actions[i] matches LockAction::Untrack { out_point }
            &&& out_point.txid == built.txid
            &&& out_point.vout == 0
        },
        run.events[i - 1] matches LockEvent::BroadcastAnswered(
            Err(BroadcastError::MaybeSent { reason }),
        ) ==> {
            &&& run.actions[i] matches LockAction::Finish(
                Err(PlatformWalletError::TransactionBroadcastUnconfirmed(text)),
            )
            &&& text == reason
        },
{
    lemma_phase_positions(run, i - 1);
    lemma_phase_holds_built_lock(run, i - 1);
    assert(run.follows(i - 1));
}

/// After a rejection, exactly where the row was taken out are the inputs of
/// the built transaction released, on the account that funded it. Either way
/// the reason that the network gave is returned.
pub proof fn law_rejection_is_returned_with_its_reason<T, P>(run: LockRun<T, P>, i: int)
    requires
        run.valid(),
        0 < i < run.actions.len(),
    ensures
        run.events[i - 1] matches LockEvent::Untracked { removed } && removed ==> {
            &&& run.events[0] matches LockEvent::Built(Ok(built))
            &&& run.actions[i] matches LockAction::Release { account_index, transaction }
            &&& account_index == run.request.account_index
            &&& transaction == built.transaction
        },
        (run.events[i - 1] matches LockEvent::Untracked { removed } && !removed)
            || run.events[i - 1] is Released ==> {
            &&& run.events[2] matches LockEvent::BroadcastAnswered(
                Err(BroadcastError::Rejected { reason }),
            )
            &&& run.actions[i] matches LockAction::Finish(
                Err(PlatformWalletError::TransactionBroadcast(text)),
            )
            &&& text == reason
        },
{
    lemma_phase_positions(run, i - 1);
    lemma_phase_holds_built_lock(run, i - 1);
    assert(run.follows(i - 1));
}

/// Once the lock is sent, a proof of its outpoint is waited for, preferring an
/// InstantSend lock for three hundred seconds. The proof that comes is looked
/// at, for the account that funded the lock. The one that is found good is
/// attached, with the status of what proves it, and returned.
pub proof fn law_proof_is_waited_for_checked_attached_and_returned<T, P>(
    run: LockRun<T, P>,
    i: int,
)
    requires
        run.valid(),
        0 < i < run.actions.len(),
    ensures
        run.events[i - 1] matches LockEvent::Advanced(Ok(_)) ==> {
            &&& run.events[0] matches LockEvent::Built(Ok(built))
            &&& run.actions[i] matches LockAction::WaitForProof { out_point, instant_send_secs }
            &&& out_point.txid == built.txid && out_point.vout == 0
            &&& instant_send_secs == 300
        },
        run.events[i - 1] matches LockEvent::ProofReceived(Ok(received)) ==> {
            &&& run.events[0] matches LockEvent::Built(Ok(built))
            &&& run.actions[i] matches LockAction::Validate { lock_proof, account_index, out_point }
            &&& lock_proof == received
            &&& account_index == run.request.account_index
            &&& out_point.txid == built.txid && out_point.vout == 0
        },
        run.events[i - 1] matches LockEvent::ProofValidated(Ok(good)) ==> {
            &&& run.events[0] matches LockEvent::Built(Ok(built))
            &&& run.actions[i] matches LockAction::Attach { out_point, status, lock_proof }
            &&& lock_proof == good
            &&& good is Instant ==> status == AssetLockStatus::InstantSendLocked
            &&& good is Chain ==> status == AssetLockStatus::ChainLocked
            &&& out_point.txid == built.txid && out_point.vout == 0
        },
        run.events[i - 1] matches LockEvent::Attached(Ok(_)) ==> {
            &&& run.events[0] matches LockEvent::Built(Ok(built))
            &&& run.events[5] matches LockEvent::ProofValidated(Ok(good))
            &&& run.actions[i] matches LockAction::Finish(Ok(proven))
            &&& proven.lock_proof == good
            &&& proven.path == built.path
            &&& proven.out_point.txid == built.txid && proven.out_point.vout == 0
        },
{
    lemma_phase_positions(run, i - 1);
    lemma_phase_holds_built_lock(run, i - 1);
    assert(run.follows(i - 1));
}

/// A failure to build, to move the row on, to get a proof, to find it good or
/// to attach it is returned as it came.
pub proof fn law_failures_are_returned_as_they_came<T, P>(run: LockRun<T, P>, i: int)
    requires
        run.valid(),
        0 < i < run.actions.len(),
    ensures
        run.events[i - 1] matches LockEvent::Built(Err(error)) ==> run.actions[i]
            == LockAction::<T, P>::Finish(Err(error)),
        run.events[i - 1] matches LockEvent::Advanced(Err(error)) ==> run.actions[i]
            == LockAction::<T, P>::Finish(Err(error)),
        run.events[i - 1] matches LockEvent::ProofReceived(Err(error)) ==> run.actions[i]
            == LockAction::<T, P>::Finish(Err(error)),
        run.events[i - 1] matches LockEvent::ProofValidated(Err(error)) ==> run.actions[i]
            == LockAction::<T, P>::Finish(Err(error)),
        run.events[i - 1] matches LockEvent::Attached(Err(error)) ==> run.actions[i]
            == LockAction::<T, P>::Finish(Err(error)),
{
    assert(run.follows(i - 1));
}

/// After each action the flow waits for the answer to it, and for nothing
/// else; after the last one it waits for nothing.
pub proof fn law_each_action_waits_for_its_own_answer<T, P>(
    run: LockRun<T, P>,
    i: int,
    event: LockEvent<T, P>,
)
    requires
        run.valid(),
        0 <= i < run.actions.len(),
    ensures
        run.flows[i].expects(&event) <==> match run.actions[i] {
            LockAction::Build { .. } => event is Built,
            LockAction::Track { .. } => event is RowTracked,
            LockAction::Broadcast { .. } => event is BroadcastAnswered,
            LockAction::Untrack { .. } => event is Untracked,
            LockAction::Release { .. } => event is Released,
            LockAction::Advance { .. } => event is Advanced,
            LockAction::WaitForProof { .. } => event is ProofReceived,
            LockAction::Validate { .. } => event is ProofValidated,
            LockAction::Attach { .. } => event is Attached,
            LockAction::Finish(_) => false,
        },
{
    if i > 0 {
        assert(run.follows(i - 1));
    }
}

/// The flow itself begins and steps as the runs of the laws above do, and
/// accepts what they wait for.
pub proof fn law_lock_flow_makes_runs<T: Copy, P: Copy>(
    request: LockRequest,
    begun: (LockFlow<T, P>, LockAction<T, P>),
    flow: LockFlow<T, P>,
    event: LockEvent<T, P>,
    accepted: bool,
    next: (LockFlow<T, P>, LockAction<T, P>),
)
    requires
        call_ensures(LockFlow::<T, P>::start, (request,), begun),
        call_ensures(LockFlow::<T, P>::accepts, (&flow, &event), accepted),
        call_ensures(LockFlow::<T, P>::step, (flow, event), next),
    ensures
        begun.0.request == request,
        begun.0.phase is Building,
        begun.1 matches LockAction::Build { request: asked } && asked == request,
        accepted <==> flow.expects(&event),
        LockFlow::is_step(flow, event, next.0, next.1),
        next.0.request == flow.request,
{
}

} // verus!
