//! Building an asset-lock transaction: which accounts fund it, and in which
//! order the collaborators are asked.

use vstd::prelude::*;

use crate::wallet::asset_lock::accounts::AssetLockFundingType;
use crate::wallet::asset_lock::builder::{
    credit_output_path, AssetLockCreditKeys, CreditOutputFunding, TxOut,
};
use crate::wallet::error::{ErrorView, PlatformWalletError};
use crate::wallet::text::{
    hex_encode, hex_text, hex_value, joined_text, law_hex_text_spells_the_bytes,
};
use crate::wallet::types::DerivationPath;

verus! {

/// What an asset-lock transaction is asked for.
#[derive(Clone, Copy, Debug)]
pub struct BuildRequest {
    /// The wallet that funds it.
    pub wallet_id: [u8; 32],
    /// The amount to lock, in duffs.
    pub amount_duffs: u64,
    /// The BIP44 account that funds it, or that is drawn on first.
    pub account_index: u32,
    /// The account that the one-time key is derived from.
    pub funding_type: AssetLockFundingType,
    /// The registration index of the identity, for its own top-ups.
    pub identity_index: u32,
    pub fee_per_kb: u64,
}

/// What the flow waits for.
#[derive(Clone, Copy, Debug, PartialEq, Eq, Structural)]
pub enum BuildPhase {
    /// For the wallet to be found.
    LookingUp,
    /// For the top-up account of the identity to be there.
    EnsuringTopUp,
    /// For the next funding address.
    Peeking,
    /// For the builder that spends from every funds account.
    BuildingFromUnion,
    /// For the builder that spends from one BIP44 account.
    BuildingFromBip44,
    /// For nothing.
    Finished,
}

/// The building of one asset-lock transaction.
#[derive(Clone, Copy, Debug)]
pub struct BuildFlow {
    pub request: BuildRequest,
    pub phase: BuildPhase,
}

/// What the collaborators answered. `T` is the transaction.
#[derive(Debug)]
pub enum BuildEvent<T> {
    /// Whether the wallet is managed.
    LookedUp { found: bool },
    TopUpEnsured(Result<(), PlatformWalletError>),
    /// The script of the next unused address, which is not marked used.
    Peeked(Result<Vec<u8>, PlatformWalletError>),
    UnionBuilt(Result<(T, DerivationPath), PlatformWalletError>),
    Bip44Built(Result<(T, AssetLockCreditKeys), String>),
}

/// What is to be done next.
#[derive(Debug)]
pub enum BuildAction<T> {
    /// Find the wallet of the request.
    LookUp,
    /// Make sure that the identity's top-up account is there.
    EnsureTopUp { identity_index: u32 },
    /// Peek at the next address of the funding account.
    Peek { funding_type: AssetLockFundingType, identity_index: u32 },
    /// Build from the coins of every funds account.
    BuildFromUnion { account_index: u32, funding: CreditOutputFunding, fee_per_kb: u64 },
    /// Build from the coins of one BIP44 account.
    BuildFromBip44 { account_index: u32, funding: CreditOutputFunding, fee_per_kb: u64 },
    /// Return this: the transaction, with the path of its credit output.
    Finish(Result<(T, DerivationPath), PlatformWalletError>),
}

impl BuildFlow {
    /// `action` ends the flow with exactly this outcome.
    pub open spec fn ends<T>(
        post: BuildFlow,
        action: BuildAction<T>,
        outcome: Result<(T, DerivationPath), PlatformWalletError>,
    ) -> bool {
        post.phase == BuildPhase::Finished && action == BuildAction::Finish(outcome)
    }

    /// `action` ends the flow with an error that says this.
    pub open spec fn fails<T>(post: BuildFlow, action: BuildAction<T>, error: ErrorView) -> bool {
        &&& post.phase == BuildPhase::Finished
        &&& action matches BuildAction::Finish(Err(e))
        &&& e@ == error
    }

    /// How the flow begins: with nothing done where the amount is zero.
    pub open spec fn is_start<T>(
        request: BuildRequest,
        flow: BuildFlow,
        action: BuildAction<T>,
    ) -> bool {
        &&& flow.request == request
        &&& if request.amount_duffs == 0 {
            BuildFlow::fails(
                flow,
                action,
                ErrorView::AssetLockTransaction("Amount must be greater than zero"@),
            )
        } else {
            flow.phase == BuildPhase::LookingUp && action is LookUp
        }
    }

    /// The credit output that locks the requested amount under this script.
    pub open spec fn credit_output(self, script_pubkey: Vec<u8>) -> CreditOutputFunding {
        CreditOutputFunding {
            output: TxOut { value: self.request.amount_duffs, script_pubkey },
            funding_type: self.request.funding_type,
            identity_index: self.request.identity_index,
        }
    }

    /// The event that the flow waits for is of the kind of `event`.
    pub open spec fn expects<T>(&self, event: &BuildEvent<T>) -> bool {
        match event {
            BuildEvent::LookedUp { .. } => self.phase == BuildPhase::LookingUp,
            BuildEvent::TopUpEnsured(_) => self.phase == BuildPhase::EnsuringTopUp,
            BuildEvent::Peeked(_) => self.phase == BuildPhase::Peeking,
            BuildEvent::UnionBuilt(_) => self.phase == BuildPhase::BuildingFromUnion,
            BuildEvent::Bip44Built(_) => self.phase == BuildPhase::BuildingFromBip44,
        }
    }

    /// The flow goes on to peek at the next funding address.
    pub open spec fn goes_on_to_peek<T>(post: BuildFlow, action: BuildAction<T>) -> bool {
        &&& post.phase == BuildPhase::Peeking
        &&& action == (BuildAction::<T>::Peek {
            funding_type: post.request.funding_type,
            identity_index: post.request.identity_index,
        })
    }

    /// What follows an event.
    pub open spec fn is_step<T>(
        pre: BuildFlow,
        event: BuildEvent<T>,
        post: BuildFlow,
        action: BuildAction<T>,
    ) -> bool {
        let request = pre.request;
        &&& pre.expects(&event)
        &&& post.request == request
        &&& match event {
            BuildEvent::LookedUp { found } => if !found {
                BuildFlow::fails(
                    post,
                    action,
                    ErrorView::WalletNotFound(hex_text(request.wallet_id@)),
                )
            } else if request.funding_type == AssetLockFundingType::IdentityTopUp {
                &&& post.phase == BuildPhase::EnsuringTopUp
                &&& action == (BuildAction::<T>::EnsureTopUp {
                    identity_index: request.identity_index,
                })
            } else {
                BuildFlow::goes_on_to_peek(post, action)
            },
            BuildEvent::TopUpEnsured(Err(error)) => BuildFlow::ends(post, action, Err(error)),
            BuildEvent::TopUpEnsured(Ok(_)) => BuildFlow::goes_on_to_peek(post, action),
            BuildEvent::Peeked(Err(error)) => BuildFlow::ends(post, action, Err(error)),
            BuildEvent::Peeked(Ok(script)) => if request.funding_type
                == AssetLockFundingType::AssetLockShieldedAddressTopUp {
                &&& post.phase == BuildPhase::BuildingFromUnion
                &&& action == (BuildAction::<T>::BuildFromUnion {
                    account_index: request.account_index,
                    funding: pre.credit_output(script),
                    fee_per_kb: request.fee_per_kb,
                })
            } else {
                &&& post.phase == BuildPhase::BuildingFromBip44
                &&& action == (BuildAction::<T>::BuildFromBip44 {
                    account_index: request.account_index,
                    funding: pre.credit_output(script),
                    fee_per_kb: request.fee_per_kb,
                })
            },
            BuildEvent::UnionBuilt(outcome) => BuildFlow::ends(post, action, outcome),
            BuildEvent::Bip44Built(Err(text)) => BuildFlow::fails(
                post,
                action,
                ErrorView::AssetLockTransaction("Asset lock builder failed: "@ + text@),
            ),
            BuildEvent::Bip44Built(Ok((transaction, AssetLockCreditKeys::Public(keys)))) => {
                if keys@.len() > 0 {
                    BuildFlow::ends(post, action, Ok((transaction, keys@[0].1)))
                } else {
                    BuildFlow::fails(
                        post,
                        action,
                        ErrorView::AssetLockTransaction("Builder returned no credit-output keys"@),
                    )
                }
            },
            BuildEvent::Bip44Built(Ok((transaction, AssetLockCreditKeys::Private))) => {
                BuildFlow::fails(
                    post,
                    action,
                    ErrorView::AssetLockTransaction(
                        "Builder returned Private keys; signer-driven path expected Public"@,
                    ),
                )
            },
        }
    }

    fn in_phase(self, phase: BuildPhase) -> (flow: BuildFlow)
        ensures
            flow == (BuildFlow { request: self.request, phase }),
    {
        BuildFlow { request: self.request, phase }
    }

    fn finish<T>(self, outcome: Result<(T, DerivationPath), PlatformWalletError>) -> (next: (
        BuildFlow,
        BuildAction<T>,
    ))
        ensures
            next.0.request == self.request,
            BuildFlow::ends(next.0, next.1, outcome),
    {
        (self.in_phase(BuildPhase::Finished), BuildAction::Finish(outcome))
    }

    fn peek<T>(self) -> (next: (BuildFlow, BuildAction<T>))
        ensures
            next.0.request == self.request,
            BuildFlow::goes_on_to_peek(next.0, next.1),
    {
        (
            self.in_phase(BuildPhase::Peeking),
            BuildAction::Peek {
                funding_type: self.request.funding_type,
                identity_index: self.request.identity_index,
            },
        )
    }

    /// Begins to build the transaction of a request.
    pub fn start<T>(request: BuildRequest) -> (next: (BuildFlow, BuildAction<T>))
        ensures
            BuildFlow::is_start(request, next.0, next.1),
    {
        let flow: BuildFlow = BuildFlow { request, phase: BuildPhase::LookingUp };
        if request.amount_duffs == 0 {
            flow.finish(
                Err(
                    PlatformWalletError::AssetLockTransaction(
                        "Amount must be greater than zero".to_string(),
                    ),
                ),
            )
        } else {
            (flow, BuildAction::LookUp)
        }
    }

    /// Whether `step` may be called with `event`.
    pub fn accepts<T>(&self, event: &BuildEvent<T>) -> (accepted: bool)
        ensures
            accepted == self.expects(event),
    {
        match event {
            BuildEvent::LookedUp { .. } => self.phase == BuildPhase::LookingUp,
            BuildEvent::TopUpEnsured(_) => self.phase == BuildPhase::EnsuringTopUp,
            BuildEvent::Peeked(_) => self.phase == BuildPhase::Peeking,
            BuildEvent::UnionBuilt(_) => self.phase == BuildPhase::BuildingFromUnion,
            BuildEvent::Bip44Built(_) => self.phase == BuildPhase::BuildingFromBip44,
        }
    }

    /// Takes one event, and says what to do next.
    pub fn step<T>(self, event: BuildEvent<T>) -> (next: (BuildFlow, BuildAction<T>))
        requires
            self.expects(&event),
        ensures
            BuildFlow::is_step(self, event, next.0, next.1),
    {
        match event {
            BuildEvent::LookedUp { found } => {
                if !found {
                    self.finish(
                        Err(
                            PlatformWalletError::WalletNotFound(
                                hex_encode(self.request.wallet_id.as_slice()),
                            ),
                        ),
                    )
                } else if self.request.funding_type == AssetLockFundingType::IdentityTopUp {
                    (
                        self.in_phase(BuildPhase::EnsuringTopUp),
                        BuildAction::EnsureTopUp { identity_index: self.request.identity_index },
                    )
                } else {
                    self.peek()
                }
            },
            BuildEvent::TopUpEnsured(answer) => match answer {
                Ok(_) => self.peek(),
                Err(error) => self.finish(Err(error)),
            },
            BuildEvent::Peeked(answer) => match answer {
                Ok(script_pubkey) => {
                    let funding: CreditOutputFunding = CreditOutputFunding {
                        output: TxOut { value: self.request.amount_duffs, script_pubkey },
                        funding_type: self.request.funding_type,
                        identity_index: self.request.identity_index,
                    };
                    if self.request.funding_type
                        == AssetLockFundingType::AssetLockShieldedAddressTopUp {
                        (
                            self.in_phase(BuildPhase::BuildingFromUnion),
                            BuildAction::BuildFromUnion {
                                account_index: self.request.account_index,
                                funding,
                                fee_per_kb: self.request.fee_per_kb,
                            },
                        )
                    } else {
                        (
                            self.in_phase(BuildPhase::BuildingFromBip44),
                            BuildAction::BuildFromBip44 {
                                account_index: self.request.account_index,
                                funding,
                                fee_per_kb: self.request.fee_per_kb,
                            },
                        )
                    }
                },
                Err(error) => self.finish(Err(error)),
            },
            BuildEvent::UnionBuilt(outcome) => self.finish(outcome),
            BuildEvent::Bip44Built(answer) => match answer {
                Ok((transaction, keys)) => match credit_output_path(keys) {
                    Ok(path) => self.finish(Ok((transaction, path))),
                    Err(error) => self.finish(Err(error)),
                },
                Err(text) => self.finish(
                    Err(
                        PlatformWalletError::AssetLockTransaction(
                            joined_text("Asset lock builder failed: ", text.as_str()),
                        ),
                    ),
                ),
            },
        }
    }
}

/// A run of the flow: the states it goes through, the events between them,
/// and the action each state was entered with.
pub struct BuildRun<T> {
    pub request: BuildRequest,
    pub flows: Seq<BuildFlow>,
    pub events: Seq<BuildEvent<T>>,
    pub actions: Seq<BuildAction<T>>,
}

impl<T> BuildRun<T> {
    pub open spec fn follows(self, i: int) -> bool {
        BuildFlow::is_step(self.flows[i], self.events[i], self.flows[i + 1], self.actions[i + 1])
    }

    pub open spec fn valid(self) -> bool {
        &&& self.flows.len() == self.events.len() + 1
        &&& self.actions.len() == self.events.len() + 1
        &&& BuildFlow::is_start(self.request, self.flows[0], self.actions[0])
        &&& forall|i: int| 0 <= i < self.events.len() ==> #[trigger] self.follows(i)
    }
}

/// Where each phase lies in a run.
proof fn lemma_run_phases<T>(run: BuildRun<T>, i: int)
    requires
        run.valid(),
        0 <= i < run.flows.len(),
    ensures
        run.flows[i].request == run.request,
        run.flows[i].phase != BuildPhase::Finished ==> run.request.amount_duffs > 0,
        run.flows[i].phase == BuildPhase::LookingUp ==> i == 0,
        run.flows[i].phase == BuildPhase::EnsuringTopUp ==> {
            &&& i == 1
            &&& run.request.funding_type == AssetLockFundingType::IdentityTopUp
            &&& run.actions[1] == (BuildAction::<T>::EnsureTopUp {
                identity_index: run.request.identity_index,
            })
        },
        run.flows[i].phase == BuildPhase::Peeking ==> if run.request.funding_type
            == AssetLockFundingType::IdentityTopUp {
            i == 2 && run.actions[1] == (BuildAction::<T>::EnsureTopUp {
                identity_index: run.request.identity_index,
            }) && run.events[1] matches BuildEvent::TopUpEnsured(Ok(_))
        } else {
            i == 1
        },
    decreases i,
{
    if i > 0 {
        lemma_run_phases(run, i - 1);
        assert(run.follows(i - 1));
    }
}

/// A request for zero duffs is refused before anything is done.
pub proof fn law_zero_amount_is_refused_at_once<T>(run: BuildRun<T>)
    requires
        run.valid(),
        run.request.amount_duffs == 0,
    ensures
        run.events.len() == 0,
        BuildFlow::fails(
            run.flows[0],
            run.actions[0],
            ErrorView::AssetLockTransaction("Amount must be greater than zero"@),
        ),
{
    if run.events.len() > 0 {
        assert(run.follows(0));
    }
}

/// Mixed coins are spent for shielded funding alone: a lock is built from
/// every funds account exactly where it tops up a shielded address, and from
/// the one BIP44 account of the request otherwise. Either way the credit
/// output is worth the requested amount.
pub proof fn law_only_shielded_locks_spend_from_every_account<T>(run: BuildRun<T>, i: int)
    requires
        run.valid(),
        0 <= i < run.actions.len(),
    ensures
        run.actions[i] matches BuildAction::BuildFromUnion { account_index, funding, .. } ==> {
            &&& run.request.funding_type == AssetLockFundingType::AssetLockShieldedAddressTopUp
            &&& funding.output.value == run.request.amount_duffs
            &&& account_index == run.request.account_index
        },
        run.actions[i] matches BuildAction::BuildFromBip44 { account_index, funding, .. } ==> {
            &&& run.request.funding_type != AssetLockFundingType::AssetLockShieldedAddressTopUp
            &&& funding.output.value == run.request.amount_duffs
            &&& account_index == run.request.account_index
        },
{
    if i > 0 {
        lemma_run_phases(run, i - 1);
        assert(run.follows(i - 1));
    }
}

/// An identity's top-up account is ensured, with success, before an address is
/// taken from it.
pub proof fn law_topup_account_is_ensured_before_its_address_is_taken<T>(run: BuildRun<T>, i: int)
    requires
        run.valid(),
        run.request.funding_type == AssetLockFundingType::IdentityTopUp,
        0 <= i < run.actions.len(),
        run.actions[i] is Peek,
    ensures
        i == 2,
        run.actions[1] == (BuildAction::<T>::EnsureTopUp {
            identity_index: run.request.identity_index,
        }),
        run.events[1] matches BuildEvent::TopUpEnsured(Ok(_)),
{
    lemma_run_phases(run, i);
    if i > 0 {
        assert(run.follows(i - 1));
    }
}

/// The address that the credit output pays to is looked for in the account of
/// the requested funding type, for the requested identity, whatever the type.
pub proof fn law_peeked_account_is_the_requested_one<T>(run: BuildRun<T>, i: int)
    requires
        run.valid(),
        0 <= i < run.actions.len(),
    ensures
        run.actions[i] matches BuildAction::Peek { funding_type, identity_index } ==> {
            &&& funding_type == run.request.funding_type
            &&& identity_index == run.request.identity_index
        },
        i > 0 && (run.events[i - 1] matches BuildEvent::TopUpEnsured(Ok(_)))
            ==> run.actions[i] is Peek,
{
    if i > 0 {
        lemma_run_phases(run, i - 1);
        assert(run.follows(i - 1));
    }
}

/// The credit output pays the requested amount to the script that was peeked
/// at, and its key is looked for in the account of the requested funding type
/// and identity. It is funded from the requested account, at the requested
/// fee: from every funds account where it tops up a shielded address, and from
/// that account alone otherwise.
pub proof fn law_credit_output_pays_the_peeked_script<T>(run: BuildRun<T>, i: int)
    requires
        run.valid(),
        0 < i < run.actions.len(),
        run.events[i - 1] matches BuildEvent::Peeked(Ok(_)),
    ensures
        run.request.funding_type == AssetLockFundingType::AssetLockShieldedAddressTopUp ==> {
            &&& run.actions[i] matches BuildAction::BuildFromUnion {
                account_index,
                funding,
                fee_per_kb,
            }
            &&& account_index == run.request.account_index
            &&& fee_per_kb == run.request.fee_per_kb
            &&& funding.output.script_pubkey == run.events[i - 1]->Peeked_0->Ok_0
            &&& funding.output.value == run.request.amount_duffs
            &&& funding.funding_type == run.request.funding_type
            &&& funding.identity_index == run.request.identity_index
        },
        run.request.funding_type != AssetLockFundingType::AssetLockShieldedAddressTopUp ==> {
            &&& run.actions[i] matches BuildAction::BuildFromBip44 {
                account_index,
                funding,
                fee_per_kb,
            }
            &&& account_index == run.request.account_index
            &&& fee_per_kb == run.request.fee_per_kb
            &&& funding.output.script_pubkey == run.events[i - 1]->Peeked_0->Ok_0
            &&& funding.output.value == run.request.amount_duffs
            &&& funding.funding_type == run.request.funding_type
            &&& funding.identity_index == run.request.identity_index
        },
{
    lemma_run_phases(run, i - 1);
    assert(run.follows(i - 1));
}

/// A build action comes only in answer to a script that was peeked at, and a
/// top-up account is ensured only for a top-up, for the requested identity.
pub proof fn law_nothing_is_built_before_a_script_is_peeked<T>(run: BuildRun<T>, i: int)
    requires
        run.valid(),
        0 <= i < run.actions.len(),
    ensures
        run.actions[i] is BuildFromUnion || run.actions[i] is BuildFromBip44 ==> i > 0 && (
        run.events[i - 1] matches BuildEvent::Peeked(Ok(_))),
        run.actions[i] matches BuildAction::EnsureTopUp { identity_index } ==> {
            &&& run.request.funding_type == AssetLockFundingType::IdentityTopUp
            &&& identity_index == run.request.identity_index
        },
        run.actions[i] is LookUp <==> i == 0 && run.request.amount_duffs > 0,
{
    if i > 0 {
        lemma_run_phases(run, i - 1);
        assert(run.follows(i - 1));
    }
}

/// A wallet that is found goes on to its top-up account for a top-up, and to
/// peeking otherwise. One that is not found is named, by two hexadecimal
/// digits per byte of its id.
pub proof fn law_wallet_is_looked_up_first<T>(run: BuildRun<T>)
    requires
        run.valid(),
        run.request.amount_duffs > 0,
        run.events.len() > 0,
    ensures
        run.events[0] matches BuildEvent::LookedUp { found } && {
            &&& found && run.request.funding_type == AssetLockFundingType::IdentityTopUp
                ==> run.actions[1] is EnsureTopUp
            &&& found && run.request.funding_type != AssetLockFundingType::IdentityTopUp
                ==> run.actions[1] is Peek
            &&& !found ==> {
                &&& run.actions[1] matches BuildAction::Finish(Err(
                    PlatformWalletError::WalletNotFound(text),
                ))
                &&& text@.len() == 64
                &&& forall|k: int|
                    0 <= k < 32 ==> #[trigger] run.request.wallet_id@[k] == 16 * hex_value(
                        text@[2 * k],
                    ) + hex_value(text@[2 * k + 1])
            }
        },
{
    assert(run.follows(0));
    law_hex_text_spells_the_bytes(run.request.wallet_id@);
}

/// What is returned is what the builder returned: its transaction, with the
/// path that the union build took, or with the path of the first public key of
/// the single-account build.
pub proof fn law_built_transaction_is_returned<T>(run: BuildRun<T>, i: int)
    requires
        run.valid(),
        0 <= i < run.actions.len(),
        run.actions[i] matches BuildAction::Finish(Ok(_)),
    ensures
        i > 0,
        match run.events[i - 1] {
            BuildEvent::UnionBuilt(Ok((transaction, path))) => {
                &&& run.actions[i]->Finish_0->Ok_0.0 == transaction
                &&& run.actions[i]->Finish_0->Ok_0.1 == path
            },
            BuildEvent::Bip44Built(Ok((transaction, AssetLockCreditKeys::Public(keys)))) => {
                &&& keys@.len() > 0
                &&& run.actions[i]->Finish_0->Ok_0.0 == transaction
                &&& run.actions[i]->Finish_0->Ok_0.1 == keys@[0].1
            },
            _ => false,
        },
{
    if i > 0 {
        lemma_run_phases(run, i - 1);
        assert(run.follows(i - 1));
    }
}

/// How a build ends once a builder has answered: with success exactly where it
/// returned a transaction and, for a single account, at least one public key.
pub proof fn law_answer_of_the_builder_ends_the_build<T>(run: BuildRun<T>, i: int)
    requires
        run.valid(),
        0 < i < run.actions.len(),
    ensures
        run.events[i - 1] matches BuildEvent::UnionBuilt(outcome) ==> run.actions[i]
            == BuildAction::Finish(outcome),
        run.events[i - 1] matches BuildEvent::Bip44Built(
            Ok((_, AssetLockCreditKeys::Public(keys))),
        ) ==> {
            &&& run.actions[i] is Finish
            &&& run.actions[i]->Finish_0 is Ok <==> keys@.len() > 0
            &&& keys@.len() == 0 ==> {
                &&& run.actions[i]->Finish_0->Err_0 is AssetLockTransaction
                &&& run.actions[i]->Finish_0->Err_0->AssetLockTransaction_0@
                    == "Builder returned no credit-output keys"@
            }
        },
        run.events[i - 1] matches BuildEvent::Bip44Built(Ok((_, AssetLockCreditKeys::Private)))
            ==> {
            &&& run.actions[i] matches BuildAction::Finish(Err(
                PlatformWalletError::AssetLockTransaction(text),
            ))
            &&& text@ == "Builder returned Private keys; signer-driven path expected Public"@
        },
        run.events[i - 1] matches BuildEvent::Bip44Built(Err(why)) ==> {
            &&& run.actions[i] matches BuildAction::Finish(Err(
                PlatformWalletError::AssetLockTransaction(text),
            ))
            &&& text@ == "Asset lock builder failed: "@ + why@
        },
        run.events[i - 1] matches BuildEvent::TopUpEnsured(Err(error)) ==> run.actions[i]
            == BuildAction::<T>::Finish(Err(error)),
        run.events[i - 1] matches BuildEvent::Peeked(Err(error)) ==> run.actions[i]
            == BuildAction::<T>::Finish(Err(error)),
{
    lemma_run_phases(run, i - 1);
    assert(run.follows(i - 1));
}

/// After each action the flow waits for the answer to it, and for nothing
/// else; after the last one it waits for nothing.
pub proof fn law_each_build_action_waits_for_its_own_answer<T>(
    run: BuildRun<T>,
    i: int,
    event: BuildEvent<T>,
)
    requires
        run.valid(),
        0 <= i < run.actions.len(),
    ensures
        run.flows[i].expects(&event) <==> match run.actions[i] {
            BuildAction::LookUp => event is LookedUp,
            BuildAction::EnsureTopUp { .. } => event is TopUpEnsured,
            BuildAction::Peek { .. } => event is Peeked,
            BuildAction::BuildFromUnion { .. } => event is UnionBuilt,
            BuildAction::BuildFromBip44 { .. } => event is Bip44Built,
            BuildAction::Finish(_) => false,
        },
{
    if i > 0 {
        assert(run.follows(i - 1));
    }
}

/// A refused amount is refused in words: the only thing that is done for a
/// request of zero duffs is to say that the amount must be greater.
pub proof fn law_zero_amount_is_refused_in_words<T>(run: BuildRun<T>)
    requires
        run.valid(),
    ensures
        run.request.amount_duffs == 0 <==> run.actions[0] is Finish,
        run.request.amount_duffs == 0 ==> {
            &&& run.actions[0] matches BuildAction::Finish(Err(
                PlatformWalletError::AssetLockTransaction(text),
            ))
            &&& text@ == "Amount must be greater than zero"@
        },
{
}

/// The flow itself begins and steps as the runs of the laws above do, and
/// accepts what they wait for.
pub proof fn law_build_flow_makes_runs<T>(
    request: BuildRequest,
    begun: (BuildFlow, BuildAction<T>),
    flow: BuildFlow,
    event: BuildEvent<T>,
    accepted: bool,
    next: (BuildFlow, BuildAction<T>),
)
    requires
        call_ensures(BuildFlow::start::<T>, (request,), begun),
        call_ensures(BuildFlow::accepts::<T>, (&flow, &event), accepted),
        call_ensures(BuildFlow::step::<T>, (flow, event), next),
    ensures
        BuildFlow::is_start(request, begun.0, begun.1),
        begun.0.request == request,
        accepted <==> flow.expects(&event),
        BuildFlow::is_step(flow, event, next.0, next.1),
        next.0.request == flow.request,
{
}

} // verus!
