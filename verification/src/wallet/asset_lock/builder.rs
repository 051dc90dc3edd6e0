//! What the transaction builder is asked for, how its answers are read, and in
//! which order a lock over every funds account is planned, signed and keyed.

use vstd::prelude::*;

use crate::wallet::asset_lock::accounts::{
    missing_account_error, missing_account_text, AssetLockFundingType,
};
use crate::wallet::asset_lock::inputs::{
    all_coins, coins_can_be_counted, extra_coins, gather_inputs, known_paths,
    law_every_input_with_a_path_resolves, law_every_other_coin_is_returned,
    law_every_spendable_coin_is_swept, law_no_returned_input_is_primary, FundingAccount,
    PathResolver, UnionInputs,
};
use crate::wallet::error::{ErrorView, PlatformWalletError};
use crate::wallet::signer::PublicKey;
use crate::wallet::text::{decimal, joined_text, numbered_text};
use crate::wallet::types::{DerivationPath, Utxo};

verus! {

/// A transaction output: an amount in duffs, and the script that guards it.
#[derive(Debug)]
pub struct TxOut {
    pub value: u64,
    pub script_pubkey: Vec<u8>,
}

/// The credit output of an asset lock, with the account its key comes from.
#[derive(Debug)]
pub struct CreditOutputFunding {
    pub output: TxOut,
    pub funding_type: AssetLockFundingType,
    pub identity_index: u32,
}

/// How the builder picks coins.
#[derive(Clone, Copy, Debug, PartialEq, Eq, Structural)]
pub enum SelectionStrategy {
    /// A search for an exact match, exponential in the number of coins.
    BranchAndBound,
    /// The largest coins first, until they cover the amount.
    LargestFirst,
}

/// How the transaction builder failed.
#[derive(Debug)]
pub enum BuilderFailure {
    /// The builder found the inputs short.
    InsufficientFunds { available: u64, required: u64 },
    /// Coin selection found the inputs short.
    SelectionInsufficientFunds { available: u64, required: u64 },
    /// Anything else, as the builder words it.
    Other(String),
}

/// The keys of the credit outputs, as the builder returns them.
#[derive(Debug)]
pub enum AssetLockCreditKeys {
    /// Public keys with their paths, where an external signer holds the keys.
    Public(Vec<(PublicKey, DerivationPath)>),
    /// Private keys, where the wallet itself holds them.
    Private,
}

/// What the wallet error for a builder failure says: a shortfall keeps its
/// exact amounts, anything else becomes text.
pub open spec fn mapped_builder_error(failure: BuilderFailure) -> ErrorView {
    match failure {
        BuilderFailure::InsufficientFunds { available, required } => {
            ErrorView::AssetLockInsufficientFunds { available, required }
        },
        BuilderFailure::SelectionInsufficientFunds { available, required } => {
            ErrorView::AssetLockInsufficientFunds { available, required }
        },
        BuilderFailure::Other(text) => ErrorView::AssetLockTransaction(
            "Asset lock builder failed: "@ + text@,
        ),
    }
}

/// The wallet error for a builder failure. The two shapes of a shortfall
/// become the typed error that carries the available and required amounts.
pub fn map_builder_error(failure: BuilderFailure) -> (error: PlatformWalletError)
    ensures
        error@ == mapped_builder_error(failure),
{
    match failure {
        BuilderFailure::InsufficientFunds { available, required } => {
            PlatformWalletError::AssetLockInsufficientFunds { available, required }
        },
        BuilderFailure::SelectionInsufficientFunds { available, required } => {
            PlatformWalletError::AssetLockInsufficientFunds { available, required }
        },
        BuilderFailure::Other(text) => PlatformWalletError::AssetLockTransaction(
            joined_text("Asset lock builder failed: ", text.as_str()),
        ),
    }
}

/// The path of the single credit output, from the keys that the builder
/// returned: that of the first public key.
pub fn credit_output_path(keys: AssetLockCreditKeys) -> (outcome: Result<
    DerivationPath,
    PlatformWalletError,
>)
    ensures
        match keys {
            AssetLockCreditKeys::Public(list) => if list@.len() > 0 {
                outcome == Ok::<DerivationPath, PlatformWalletError>(list@[0].1)
            } else {
                outcome is Err && outcome->Err_0@ == ErrorView::AssetLockTransaction(
                    "Builder returned no credit-output keys"@,
                )
            },
            AssetLockCreditKeys::Private => outcome is Err && outcome->Err_0@
                == ErrorView::AssetLockTransaction(
                "Builder returned Private keys; signer-driven path expected Public"@,
            ),
        },
{
    match keys {
        AssetLockCreditKeys::Public(list) => {
            let mut list: Vec<(PublicKey, DerivationPath)> = list;
            if list.len() == 0 {
                return Err(
                    PlatformWalletError::AssetLockTransaction(
                        "Builder returned no credit-output keys".to_string(),
                    ),
                );
            }
            let (_public, path) = list.remove(0);
            Ok(path)
        },
        AssetLockCreditKeys::Private => Err(
            PlatformWalletError::AssetLockTransaction(
                "Builder returned Private keys; signer-driven path expected Public".to_string(),
            ),
        ),
    }
}

/// What the builder is asked to do for an asset lock that spends from every
/// funds account.
pub struct UnionBuildPlan {
    /// The account that is seeded first, whose reservations gate concurrent
    /// builds and to which change returns.
    pub primary_account: u32,
    pub fee_per_kb: u64,
    pub current_height: u32,
    pub strategy: SelectionStrategy,
    /// The outputs of the asset-lock payload.
    pub credit_outputs: Vec<TxOut>,
    /// The coins of the other accounts.
    pub extra_inputs: Vec<Utxo>,
    /// Spend only confirmed or instantly locked coins.
    pub require_final_inputs: bool,
    /// Resolves the signing path of any selected input.
    pub paths: PathResolver,
}

/// Some account is the standard BIP44 account `account_index`.
pub open spec fn has_bip44_account(accounts: Seq<FundingAccount>, account_index: u32) -> bool {
    exists|a: int|
        0 <= a < accounts.len() && #[trigger] accounts[a].bip44_index == Some(account_index)
}

fn find_bip44_account(accounts: &Vec<FundingAccount>, account_index: u32) -> (found: bool)
    ensures
        found == has_bip44_account(accounts@, account_index),
{
    let mut a: usize = 0;
    while a < accounts.len()
        invariant
            0 <= a <= accounts@.len(),
            forall|i: int|
                0 <= i < a ==> #[trigger] accounts@[i].bip44_index != Some(account_index),
        decreases accounts@.len() - a,
    {
        if let Some(index) = accounts[a].bip44_index {
            if index == account_index {
                return true;
            }
        }
        a = a + 1;
    }
    false
}

/// What planning answers: an error where either side lacks the primary
/// account, and otherwise the plan.
pub open spec fn is_plan_outcome(
    accounts: Seq<FundingAccount>,
    account_index: u32,
    wallet_has_account: bool,
    credit_outputs: Seq<TxOut>,
    fee_per_kb: u64,
    current_height: u32,
    outcome: Result<UnionBuildPlan, PlatformWalletError>,
) -> bool {
    if !wallet_has_account {
        outcome matches Err(error) && error@ == ErrorView::AssetLockTransaction(
            "BIP44 account "@ + decimal(account_index as nat)
                + " not found for asset-lock funding"@,
        )
    } else if !has_bip44_account(accounts, account_index) {
        outcome matches Err(error) && error@ == ErrorView::AssetLockTransaction(
            "managed BIP44 account "@ + decimal(account_index as nat)
                + " not found for asset-lock funding"@,
        )
    } else {
        outcome matches Ok(plan) && {
            &&& plan.primary_account == account_index
            &&& plan.fee_per_kb == fee_per_kb
            &&& plan.current_height == current_height
            &&& plan.strategy == SelectionStrategy::LargestFirst
            &&& plan.credit_outputs@ == credit_outputs
            &&& plan.extra_inputs@.map_values(|utxo: Utxo| utxo@) == extra_coins(
                all_coins(accounts),
                accounts,
                account_index,
            )
            &&& plan.require_final_inputs
            &&& plan.paths@ == known_paths(all_coins(accounts))
        }
    }
}

/// Plans an asset lock that spends from every funds account of the wallet.
/// `wallet_has_account` says whether the wallet holds the extended public key
/// of the primary account; `accounts` are its managed funds accounts. Both
/// sides must have the primary account.
///
/// Coins are picked largest first: a CoinJoin account holds many small coins,
/// over which a search for an exact match would not end.
pub fn plan_union_build(
    accounts: &Vec<FundingAccount>,
    account_index: u32,
    wallet_has_account: bool,
    credit_outputs: Vec<TxOut>,
    fee_per_kb: u64,
    current_height: u32,
) -> (outcome: Result<UnionBuildPlan, PlatformWalletError>)
    requires
        all_coins(accounts@).len() <= usize::MAX,
    ensures
        is_plan_outcome(
            accounts@,
            account_index,
            wallet_has_account,
            credit_outputs@,
            fee_per_kb,
            current_height,
            outcome,
        ),
        outcome matches Ok(plan) ==> forall|a: int, c: int, i: int|
            0 <= a < accounts@.len() && accounts@[a].bip44_index == Some(account_index) && 0 <= c
                < accounts@[a].spendable@.len() && 0 <= i < plan.extra_inputs@.len() ==> (
            #[trigger] plan.extra_inputs@[i]).outpoint != (
            #[trigger] accounts@[a].spendable@[c]).utxo.outpoint,
{
    let inputs: UnionInputs = gather_inputs(accounts, account_index);
    if !wallet_has_account {
        return Err(
            PlatformWalletError::AssetLockTransaction(
                numbered_text(
                    "BIP44 account ",
                    account_index,
                    " not found for asset-lock funding",
                ),
            ),
        );
    }
    if !find_bip44_account(accounts, account_index) {
        return Err(
            PlatformWalletError::AssetLockTransaction(
                numbered_text(
                    "managed BIP44 account ",
                    account_index,
                    " not found for asset-lock funding",
                ),
            ),
        );
    }
    Ok(
        UnionBuildPlan {
            primary_account: account_index,
            fee_per_kb,
            current_height,
            strategy: SelectionStrategy::LargestFirst,
            credit_outputs,
            extra_inputs: inputs.extra_inputs,
            require_final_inputs: true,
            paths: inputs.paths,
        },
    )
}

/// Taking the one-time key of the credit output: where the flow is.
#[derive(Debug)]
pub enum CreditKeyFlow {
    /// Waiting for the pool's next path.
    Peeking,
    /// Waiting for the signer to derive the key at `path`.
    AskingSigner { path: DerivationPath, index: u32 },
    /// Waiting for the pool to mark `index` used.
    Marking { path: DerivationPath },
    Finished,
}

/// What the collaborators answered.
#[derive(Debug)]
pub enum CreditKeyEvent {
    /// The next unused path and its index, a failure of the pool, or `None`
    /// where the account is missing.
    Peeked(Option<Result<(DerivationPath, u32), String>>),
    /// The signer derived the key, or failed.
    SignerAnswered(Result<(), String>),
    /// The pool marked the index, a failure of the pool, or `None` where the
    /// account is missing.
    Marked(Option<Result<(), String>>),
}

/// What is to be done next.
#[derive(Debug)]
pub enum CreditKeyAction {
    /// Have the signer derive the public key at this path.
    AskSigner { path: DerivationPath },
    /// Consume this index of the pool.
    MarkUsed { index: u32 },
    /// Return this.
    Finish(Result<DerivationPath, PlatformWalletError>),
}

/// `action` ends the flow with this error.
pub open spec fn fails_with(action: CreditKeyAction, error: ErrorView) -> bool {
    action matches CreditKeyAction::Finish(Err(e)) && e@ == error
}

/// The error for a missing shielded top-up account.
pub open spec fn missing_shielded_account() -> ErrorView {
    ErrorView::AssetLockTransaction(
        missing_account_text(AssetLockFundingType::AssetLockShieldedAddressTopUp, 0),
    )
}

impl CreditKeyFlow {
    /// The event that the flow waits for is of the kind of `event`.
    pub open spec fn expects(&self, event: &CreditKeyEvent) -> bool {
        match event {
            CreditKeyEvent::Peeked(_) => self is Peeking,
            CreditKeyEvent::SignerAnswered(_) => self is AskingSigner,
            CreditKeyEvent::Marked(_) => self is Marking,
        }
    }

    /// What follows an event: the path is peeked without being consumed, the
    /// signer is asked, and only where it answered is the index consumed.
    pub open spec fn is_step(
        pre: CreditKeyFlow,
        event: CreditKeyEvent,
        post: CreditKeyFlow,
        action: CreditKeyAction,
    ) -> bool {
        match (pre, event) {
            (CreditKeyFlow::Peeking, CreditKeyEvent::Peeked(answer)) => match answer {
                None => post is Finished && fails_with(action, missing_shielded_account()),
                Some(Err(text)) => post is Finished && fails_with(
                    action,
                    ErrorView::AssetLockTransaction(text@),
                ),
                Some(Ok((path, index))) => {
                    &&& post matches CreditKeyFlow::AskingSigner { path: p, index: i }
                    &&& p@ == path@
                    &&& i == index
                    &&& action matches CreditKeyAction::AskSigner { path: asked }
                    &&& asked@ == path@
                },
            },
            (
                CreditKeyFlow::AskingSigner { path, index },
                CreditKeyEvent::SignerAnswered(answer),
            ) => match answer {
                Err(text) => post is Finished && fails_with(
                    action,
                    ErrorView::AssetLockTransaction("signer public_key failed: "@ + text@),
                ),
                Ok(_) => {
                    &&& post == (CreditKeyFlow::Marking { path })
                    &&& action == (CreditKeyAction::MarkUsed { index })
                },
            },
            (CreditKeyFlow::Marking { path }, CreditKeyEvent::Marked(answer)) => match answer {
                None => post is Finished && fails_with(action, missing_shielded_account()),
                Some(Err(text)) => post is Finished && fails_with(
                    action,
                    ErrorView::AssetLockTransaction(text@),
                ),
                Some(Ok(_)) => {
                    &&& post is Finished
                    &&& action == CreditKeyAction::Finish(
                        Ok::<DerivationPath, PlatformWalletError>(path),
                    )
                },
            },
            _ => false,
        }
    }

    /// Whether `step` may be called with `event`.
    pub fn accepts(&self, event: &CreditKeyEvent) -> (accepted: bool)
        ensures
            accepted == self.expects(event),
    {
        match event {
            CreditKeyEvent::Peeked(_) => matches!(self, CreditKeyFlow::Peeking),
            CreditKeyEvent::SignerAnswered(_) => matches!(
                self,
                CreditKeyFlow::AskingSigner { .. }
            ),
            CreditKeyEvent::Marked(_) => matches!(self, CreditKeyFlow::Marking { .. }),
        }
    }

    /// Takes one event, and says what to do next.
    pub fn step(self, event: CreditKeyEvent) -> (next: (CreditKeyFlow, CreditKeyAction))
        requires
            self.expects(&event),
        ensures
            CreditKeyFlow::is_step(self, event, next.0, next.1),
    {
        match (self, event) {
            (CreditKeyFlow::Peeking, CreditKeyEvent::Peeked(answer)) => match answer {
                None => finish_with(
                    missing_account_error(AssetLockFundingType::AssetLockShieldedAddressTopUp, 0),
                ),
                Some(Err(text)) => finish_with(PlatformWalletError::AssetLockTransaction(text)),
                Some(Ok((path, index))) => {
                    let asked: DerivationPath = path.clone();
                    (
                        CreditKeyFlow::AskingSigner { path, index },
                        CreditKeyAction::AskSigner { path: asked },
                    )
                },
            },
            (
                CreditKeyFlow::AskingSigner { path, index },
                CreditKeyEvent::SignerAnswered(answer),
            ) => match answer {
                Err(text) => finish_with(
                    PlatformWalletError::AssetLockTransaction(
                        joined_text("signer public_key failed: ", text.as_str()),
                    ),
                ),
                Ok(_) => (CreditKeyFlow::Marking { path }, CreditKeyAction::MarkUsed { index }),
            },
            (CreditKeyFlow::Marking { path }, CreditKeyEvent::Marked(answer)) => match answer {
                None => finish_with(
                    missing_account_error(AssetLockFundingType::AssetLockShieldedAddressTopUp, 0),
                ),
                Some(Err(text)) => finish_with(PlatformWalletError::AssetLockTransaction(text)),
                Some(Ok(_)) => (CreditKeyFlow::Finished, CreditKeyAction::Finish(Ok(path))),
            },
            _ => vstd::pervasive::unreached(),
        }
    }
}

fn finish_with(error: PlatformWalletError) -> (next: (CreditKeyFlow, CreditKeyAction))
    ensures
        next.0 is Finished,
        next.1 == CreditKeyAction::Finish(Err::<DerivationPath, PlatformWalletError>(error)),
{
    (CreditKeyFlow::Finished, CreditKeyAction::Finish(Err(error)))
}

/// A run of the flow: the states it goes through, the events between them,
/// and the action that each event led to.
pub struct CreditKeyRun {
    pub flows: Seq<CreditKeyFlow>,
    pub events: Seq<CreditKeyEvent>,
    pub actions: Seq<CreditKeyAction>,
}

impl CreditKeyRun {
    pub open spec fn follows(self, i: int) -> bool {
        CreditKeyFlow::is_step(self.flows[i], self.events[i], self.flows[i + 1], self.actions[i])
    }

    pub open spec fn valid(self) -> bool {
        &&& self.flows.len() == self.events.len() + 1
        &&& self.actions.len() == self.events.len()
        &&& self.flows[0] is Peeking
        &&& forall|i: int| 0 <= i < self.events.len() ==> #[trigger] self.follows(i)
    }

    /// The run began by peeking at `path`, with `index`, and by asking the
    /// signer for the key at that path.
    pub open spec fn asked_for(self, path: Seq<u32>, index: u32) -> bool {
        &&& self.events.len() > 0
        &&& self.events[0] matches CreditKeyEvent::Peeked(Some(Ok((peeked, i))))
        &&& peeked@ == path && i == index
        &&& self.actions[0] matches CreditKeyAction::AskSigner { path: asked }
        &&& asked@ == path
    }
}

/// Where each state lies in a run, and what it carries.
proof fn lemma_credit_key_run(run: CreditKeyRun, i: int)
    requires
        run.valid(),
        0 <= i < run.flows.len(),
    ensures
        run.flows[i] is Peeking <==> i == 0,
        run.flows[i] matches CreditKeyFlow::AskingSigner { path, index } ==> i == 1
            && run.asked_for(path@, index),
        run.flows[i] matches CreditKeyFlow::Marking { path } ==> {
            &&& i == 2
            &&& run.events[1] matches CreditKeyEvent::SignerAnswered(Ok(_))
            &&& run.actions[1] matches CreditKeyAction::MarkUsed { index }
            &&& run.asked_for(path@, index)
        },
    decreases i,
{
    if i > 0 {
        lemma_credit_key_run(run, i - 1);
        assert(run.follows(i - 1));
    }
}

/// An index is consumed only once the signer has derived the key, and it is
/// the one that was peeked with the path that the signer was asked for.
pub proof fn law_index_is_consumed_only_after_the_signer_answered(run: CreditKeyRun, i: int)
    requires
        run.valid(),
        0 <= i < run.actions.len(),
        run.actions[i] is MarkUsed,
    ensures
        i == 1,
        run.events[1] matches CreditKeyEvent::SignerAnswered(Ok(_)),
        exists|path: Seq<u32>| #[trigger] run.asked_for(path, run.actions[i]->index),
{
    lemma_credit_key_run(run, i);
    assert(run.follows(i));
    assert(run.asked_for(run.flows[i]->AskingSigner_path@, run.actions[i]->index));
}

/// A run in which the signer fails consumes no index.
pub proof fn law_signer_failure_consumes_no_index(run: CreditKeyRun, i: int, j: int)
    requires
        run.valid(),
        0 <= i < run.events.len(),
        run.events[i] matches CreditKeyEvent::SignerAnswered(Err(_)),
        0 <= j < run.actions.len(),
    ensures
        run.actions[j] !is MarkUsed,
{
    lemma_credit_key_run(run, i);
    assert(run.follows(i));
    lemma_credit_key_run(run, j);
    assert(run.follows(j));
}

/// The path that is returned is the one that was peeked and that the signer
/// was asked for, and the index peeked with it was consumed.
pub proof fn law_returned_path_was_peeked_asked_for_and_consumed(run: CreditKeyRun, i: int)
    requires
        run.valid(),
        0 <= i < run.actions.len(),
        run.actions[i] matches CreditKeyAction::Finish(Ok(_)),
    ensures
        i == 2,
        run.actions[1] is MarkUsed,
        run.events[2] matches CreditKeyEvent::Marked(Some(Ok(_))),
        run.asked_for(run.actions[i]->Finish_0->Ok_0@, run.actions[1]->index),
{
    lemma_credit_key_run(run, i);
    assert(run.follows(i));
}

/// What the building from every funds account waits for. `T` is the
/// transaction.
pub enum UnionPhase<T> {
    /// For the coins of the accounts, to plan with.
    Planning { credit_outputs: Vec<TxOut> },
    /// For the builder to select, build and sign.
    Signing,
    /// For the key of the credit output of the signed transaction.
    TakingKey { transaction: T, key: CreditKeyFlow },
    /// For nothing.
    Finished,
}

/// The building of one asset lock that spends from every funds account.
pub struct UnionFlow<T> {
    pub account_index: u32,
    pub fee_per_kb: u64,
    pub phase: UnionPhase<T>,
}

/// What the collaborators answered.
pub enum UnionEvent<T> {
    /// The funds accounts with what they can spend at the current height, and
    /// whether the wallet holds the key of the primary account.
    AccountsRead {
        accounts: Vec<FundingAccount>,
        wallet_has_account: bool,
        current_height: u32,
    },
    /// The transaction was built and signed, or the builder failed.
    Signed(Result<T, BuilderFailure>),
    /// About the key of the credit output.
    Key(CreditKeyEvent),
}

/// What is to be done next.
pub enum UnionAction<T> {
    /// Read the coins of every funds account.
    ReadAccounts,
    /// Build and sign by this plan.
    BuildSigned { plan: UnionBuildPlan },
    /// Peek at the next path of the shielded top-up account.
    PeekPath,
    /// Have the signer derive the public key at this path.
    AskSigner { path: DerivationPath },
    /// Consume this index of the pool.
    MarkUsed { index: u32 },
    /// Return this: the transaction, with the path of its credit output.
    Finish(Result<(T, DerivationPath), PlatformWalletError>),
}

/// The outputs that are funded.
pub open spec fn funded_outputs(fundings: Seq<CreditOutputFunding>) -> Seq<TxOut> {
    fundings.map_values(|funding: CreditOutputFunding| funding.output)
}

impl<T> UnionPhase<T> {
    /// How far the taking of the key has come, once it has begun.
    pub open spec fn key_flow(self) -> CreditKeyFlow {
        match self {
            UnionPhase::TakingKey { key, .. } => key,
            _ => CreditKeyFlow::Finished,
        }
    }
}

impl<T> UnionAction<T> {
    /// The action as one of taking the key of the credit output.
    pub open spec fn key_action(self) -> Option<CreditKeyAction> {
        match self {
            UnionAction::AskSigner { path } => Some(CreditKeyAction::AskSigner { path }),
            UnionAction::MarkUsed { index } => Some(CreditKeyAction::MarkUsed { index }),
            UnionAction::Finish(Ok((_, path))) => Some(CreditKeyAction::Finish(Ok(path))),
            UnionAction::Finish(Err(error)) => Some(CreditKeyAction::Finish(Err(error))),
            _ => None,
        }
    }
}

impl<T> UnionFlow<T> {
    /// The event that the flow waits for is of the kind of `event`, and its
    /// coins can be counted.
    pub open spec fn expects(&self, event: &UnionEvent<T>) -> bool {
        match event {
            UnionEvent::AccountsRead { accounts, .. } => self.phase is Planning && all_coins(
                accounts@,
            ).len() <= usize::MAX,
            UnionEvent::Signed(_) => self.phase is Signing,
            UnionEvent::Key(key_event) => self.phase matches UnionPhase::TakingKey { key, .. }
                && key.expects(key_event),
        }
    }

    /// What follows an event: the build is planned, then signed, and only for
    /// a signed transaction is the key of its credit output taken.
    pub open spec fn is_step(
        pre: UnionFlow<T>,
        event: UnionEvent<T>,
        post: UnionFlow<T>,
        action: UnionAction<T>,
    ) -> bool {
        &&& post.account_index == pre.account_index
        &&& post.fee_per_kb == pre.fee_per_kb
        &&& match (pre.phase, event) {
            (
                UnionPhase::Planning { credit_outputs },
                UnionEvent::AccountsRead { accounts, wallet_has_account, current_height },
            ) => {
                let is_outcome = |outcome: Result<UnionBuildPlan, PlatformWalletError>|
                    is_plan_outcome(
                        accounts@,
                        pre.account_index,
                        wallet_has_account,
                        credit_outputs@,
                        pre.fee_per_kb,
                        current_height,
                        outcome,
                    );
                match action {
                    UnionAction::BuildSigned { plan } => post.phase is Signing && is_outcome(
                        Ok(plan),
                    ),
                    UnionAction::Finish(Err(error)) => post.phase is Finished && is_outcome(
                        Err(error),
                    ),
                    _ => false,
                }
            },
            (UnionPhase::Signing, UnionEvent::Signed(Ok(transaction))) => {
                &&& post.phase == (UnionPhase::TakingKey {
                    transaction,
                    key: CreditKeyFlow::Peeking,
                })
                &&& action is PeekPath
            },
            (UnionPhase::Signing, UnionEvent::Signed(Err(failure))) => {
                &&& post.phase is Finished
                &&& action matches UnionAction::Finish(Err(error))
                &&& error@ == mapped_builder_error(failure)
            },
            (UnionPhase::TakingKey { transaction, key }, UnionEvent::Key(key_event)) => {
                &&& action.key_action() matches Some(key_action)
                &&& CreditKeyFlow::is_step(key, key_event, post.phase.key_flow(), key_action)
                &&& match action {
                    UnionAction::Finish(outcome) => {
                        &&& post.phase is Finished
                        &&& outcome matches Ok((returned, _)) ==> returned == transaction
                    },
                    _ => post.phase matches UnionPhase::TakingKey { transaction: kept, .. }
                        && kept == transaction,
                }
            },
            _ => false,
        }
    }

    /// Begins the building of an asset lock with these credit outputs, whose
    /// primary account is the standard BIP44 account `account_index`.
    pub fn start(
        account_index: u32,
        credit_output_fundings: Vec<CreditOutputFunding>,
        fee_per_kb: u64,
    ) -> (next: (UnionFlow<T>, UnionAction<T>))
        ensures
            next.0.account_index == account_index,
            next.0.fee_per_kb == fee_per_kb,
            next.0.phase matches UnionPhase::Planning { credit_outputs } && credit_outputs@
                == funded_outputs(credit_output_fundings@),
            next.1 is ReadAccounts,
    {
        let mut fundings: Vec<CreditOutputFunding> = credit_output_fundings;
        let mut credit_outputs: Vec<TxOut> = Vec::new();
        while fundings.len() > 0
            invariant
                funded_outputs(credit_output_fundings@) =~= credit_outputs@ + funded_outputs(
                    fundings@,
                ),
            decreases fundings@.len(),
        {
            let funding: CreditOutputFunding = fundings.remove(0);
            credit_outputs.push(funding.output);
        }
        (
            UnionFlow { account_index, fee_per_kb, phase: UnionPhase::Planning { credit_outputs } },
            UnionAction::ReadAccounts,
        )
    }

    /// Whether `step` may be called with `event`.
    pub fn accepts(&self, event: &UnionEvent<T>) -> (accepted: bool)
        ensures
            accepted == self.expects(event),
    {
        match event {
            UnionEvent::AccountsRead { accounts, .. } => {
                matches!(self.phase, UnionPhase::Planning { .. }) && coins_can_be_counted(accounts)
            },
            UnionEvent::Signed(_) => matches!(self.phase, UnionPhase::Signing),
            UnionEvent::Key(key_event) => match &self.phase {
                UnionPhase::TakingKey { key, .. } => key.accepts(key_event),
                _ => false,
            },
        }
    }

    /// Takes one event, and says what to do next.
    pub fn step(self, event: UnionEvent<T>) -> (next: (UnionFlow<T>, UnionAction<T>))
        requires
            self.expects(&event),
        ensures
            UnionFlow::is_step(self, event, next.0, next.1),
    {
        let account_index: u32 = self.account_index;
        let fee_per_kb: u64 = self.fee_per_kb;
        let (phase, action): (UnionPhase<T>, UnionAction<T>) = match (self.phase, event) {
            (
                UnionPhase::Planning { credit_outputs },
                UnionEvent::AccountsRead { accounts, wallet_has_account, current_height },
            ) => match plan_union_build(
                &accounts,
                account_index,
                wallet_has_account,
                credit_outputs,
                fee_per_kb,
                current_height,
            ) {
                Ok(plan) => (UnionPhase::Signing, UnionAction::BuildSigned { plan }),
                Err(error) => (UnionPhase::Finished, UnionAction::Finish(Err(error))),
            },
            (UnionPhase::Signing, UnionEvent::Signed(answer)) => match answer {
                Ok(transaction) => (
                    UnionPhase::TakingKey { transaction, key: CreditKeyFlow::Peeking },
                    UnionAction::PeekPath,
                ),
                Err(failure) => (
                    UnionPhase::Finished,
                    UnionAction::Finish(Err(map_builder_error(failure))),
                ),
            },
            (UnionPhase::TakingKey { transaction, key }, UnionEvent::Key(key_event)) => {
                let (key, key_action) = key.step(key_event);
                match key_action {
                    CreditKeyAction::AskSigner { path } => (
                        UnionPhase::TakingKey { transaction, key },
                        UnionAction::AskSigner { path },
                    ),
                    CreditKeyAction::MarkUsed { index } => (
                        UnionPhase::TakingKey { transaction, key },
                        UnionAction::MarkUsed { index },
                    ),
                    CreditKeyAction::Finish(Ok(path)) => (
                        UnionPhase::Finished,
                        UnionAction::Finish(Ok((transaction, path))),
                    ),
                    CreditKeyAction::Finish(Err(error)) => (
                        UnionPhase::Finished,
                        UnionAction::Finish(Err(error)),
                    ),
                }
            },
            _ => vstd::pervasive::unreached(),
        };
        (UnionFlow { account_index, fee_per_kb, phase }, action)
    }
}

/// A run of the flow: the states it goes through, the events between them,
/// and the action each state was entered with.
pub struct UnionRun<T> {
    pub flows: Seq<UnionFlow<T>>,
    pub events: Seq<UnionEvent<T>>,
    pub actions: Seq<UnionAction<T>>,
}

impl<T> UnionRun<T> {
    pub open spec fn follows(self, i: int) -> bool {
        UnionFlow::is_step(self.flows[i], self.events[i], self.flows[i + 1], self.actions[i + 1])
    }

    pub open spec fn valid(self) -> bool {
        &&& self.flows.len() == self.events.len() + 1
        &&& self.actions.len() == self.events.len() + 1
        &&& self.flows[0].phase is Planning
        &&& self.actions[0] is ReadAccounts
        &&& forall|i: int| 0 <= i < self.events.len() ==> #[trigger] self.follows(i)
    }

    /// The build was planned from the coins that were read, and the builder
    /// returned `transaction` for that plan, before anything was taken from
    /// the pool.
    pub open spec fn signed_first(self, transaction: T) -> bool {
        &&& self.events.len() > 1
        &&& self.events[0] is AccountsRead
        &&& self.actions[1] is BuildSigned
        &&& self.events[1] == UnionEvent::Signed(Ok::<T, BuilderFailure>(transaction))
        &&& self.actions[2] is PeekPath
    }

    /// After that, the pool was peeked at `path`, with `index`, and the signer
    /// was asked for the key at that path.
    pub open spec fn then_asked_for(self, path: Seq<u32>, index: u32) -> bool {
        &&& self.events.len() > 2
        &&& self.events[2] matches UnionEvent::Key(CreditKeyEvent::Peeked(Some(Ok((peeked, i)))))
        &&& peeked@ == path && i == index
        &&& self.actions[3] matches UnionAction::AskSigner { path: asked }
        &&& asked@ == path
    }
}

/// Where each phase lies in a run, and what it carries.
proof fn lemma_union_run<T>(run: UnionRun<T>, i: int)
    requires
        run.valid(),
        0 <= i < run.flows.len(),
    ensures
        run.flows[i].phase is Planning <==> i == 0,
        run.flows[i].phase is Signing ==> i == 1 && run.events[0] is AccountsRead
            && run.actions[1] is BuildSigned,
        run.flows[i].phase matches UnionPhase::TakingKey { transaction, key } ==> {
            &&& run.signed_first(transaction)
            &&& key is Peeking ==> i == 2
            &&& key matches CreditKeyFlow::AskingSigner { path, index } ==> i == 3
                && run.then_asked_for(path@, index)
            &&& key matches CreditKeyFlow::Marking { path } ==> {
                &&& i == 4
                &&& run.events[3] matches UnionEvent::Key(CreditKeyEvent::SignerAnswered(Ok(_)))
                &&& run.actions[4] matches UnionAction::MarkUsed { index }
                &&& run.then_asked_for(path@, index)
            }
            &&& key !is Finished
        },
    decreases i,
{
    if i > 0 {
        lemma_union_run(run, i - 1);
        assert(run.follows(i - 1));
    }
}

/// An index of the pool is consumed only once the transaction has been built
/// and signed and the signer has then derived the key of its credit output,
/// and it is the index that was peeked with the path of that key.
pub proof fn law_index_is_consumed_only_for_a_signed_transaction<T>(run: UnionRun<T>, i: int)
    requires
        run.valid(),
        0 <= i < run.actions.len(),
        run.actions[i] is MarkUsed,
    ensures
        i == 4,
        run.events[1] matches UnionEvent::Signed(Ok(transaction)) && run.signed_first(transaction),
        run.events[3] matches UnionEvent::Key(CreditKeyEvent::SignerAnswered(Ok(_))),
        exists|path: Seq<u32>| #[trigger] run.then_asked_for(path, run.actions[i]->index),
{
    if i > 0 {
        lemma_union_run(run, i - 1);
        assert(run.follows(i - 1));
        lemma_union_run(run, i);
        let path = run.flows[i - 1].phase->TakingKey_key->AskingSigner_path@;
        assert(run.then_asked_for(path, run.actions[i]->index));
    }
}

/// A run in which planning fails, the builder fails or the signer fails
/// consumes no index.
pub proof fn law_failed_build_consumes_no_index<T>(run: UnionRun<T>, i: int, j: int)
    requires
        run.valid(),
        0 <= i < run.events.len(),
        0 <= j < run.actions.len(),
        (run.events[i] is AccountsRead && run.actions[i + 1] is Finish) || (run.events[i] matches
            UnionEvent::Signed(Err(_))) || (run.events[i] matches UnionEvent::Key(
            CreditKeyEvent::SignerAnswered(Err(_)),
        )),
    ensures
        run.actions[j] !is MarkUsed,
{
    lemma_union_run(run, i);
    assert(run.follows(i));
    if run.actions[j] is MarkUsed {
        law_index_is_consumed_only_for_a_signed_transaction(run, j);
    }
}

/// What is returned is the transaction that was signed, with the path that was
/// peeked for it and that the signer was asked for, and whose index was
/// consumed.
pub proof fn law_built_lock_is_the_signed_one<T>(run: UnionRun<T>, i: int)
    requires
        run.valid(),
        0 <= i < run.actions.len(),
        run.actions[i] matches UnionAction::Finish(Ok(_)),
    ensures
        i == 5,
        run.signed_first(run.actions[i]->Finish_0->Ok_0.0),
        run.actions[4] is MarkUsed,
        run.then_asked_for(run.actions[i]->Finish_0->Ok_0.1@, run.actions[4]->index),
        run.events[4] matches UnionEvent::Key(CreditKeyEvent::Marked(Some(Ok(_)))),
{
    if i > 0 {
        lemma_union_run(run, i - 1);
        assert(run.follows(i - 1));
    }
}

/// A shortfall, whichever part of the builder found it, keeps the amount that
/// was there and the amount that was needed, each in its place. Any other
/// failure is told in words, with what the builder said.
pub proof fn law_shortfall_keeps_its_amounts(failure: BuilderFailure, error: PlatformWalletError)
    requires
        error@ == mapped_builder_error(failure),
    ensures
        failure matches BuilderFailure::InsufficientFunds { available, required } ==> {
            &&& error matches PlatformWalletError::AssetLockInsufficientFunds {
                available: a,
                required: r,
            }
            &&& a == available && r == required
        },
        failure matches BuilderFailure::SelectionInsufficientFunds { available, required } ==> {
            &&& error matches PlatformWalletError::AssetLockInsufficientFunds {
                available: a,
                required: r,
            }
            &&& a == available && r == required
        },
        failure matches BuilderFailure::Other(why) ==> {
            &&& error matches PlatformWalletError::AssetLockTransaction(text)
            &&& text@ == "Asset lock builder failed: "@ + why@
        },
{
}

/// A plan is made exactly where both the wallet and some managed account are
/// the standard BIP44 account that was asked for. It asks for that account,
/// that fee, that height and those outputs, for the largest coins first and
/// for final coins only.
pub proof fn law_plan_is_what_was_asked_for(
    accounts: Seq<FundingAccount>,
    account_index: u32,
    wallet_has_account: bool,
    credit_outputs: Seq<TxOut>,
    fee_per_kb: u64,
    current_height: u32,
    outcome: Result<UnionBuildPlan, PlatformWalletError>,
)
    requires
        is_plan_outcome(
            accounts,
            account_index,
            wallet_has_account,
            credit_outputs,
            fee_per_kb,
            current_height,
            outcome,
        ),
    ensures
        outcome is Ok <==> wallet_has_account && exists|a: int|
            0 <= a < accounts.len() && (#[trigger] accounts[a]).bip44_index == Some(account_index),
        outcome matches Ok(plan) ==> {
            &&& plan.primary_account == account_index
            &&& plan.fee_per_kb == fee_per_kb
            &&& plan.current_height == current_height
            &&& plan.strategy == SelectionStrategy::LargestFirst
            &&& plan.require_final_inputs
            &&& plan.credit_outputs@ == credit_outputs
        },
        outcome matches Err(error) ==> {
            &&& error matches PlatformWalletError::AssetLockTransaction(text)
            &&& !wallet_has_account ==> text@ == "BIP44 account "@ + decimal(account_index as nat)
                + " not found for asset-lock funding"@
            &&& wallet_has_account ==> text@ == "managed BIP44 account "@ + decimal(
                account_index as nat,
            ) + " not found for asset-lock funding"@
        },
{
}

/// A plan neither adds a coin of the primary account a second time nor leaves
/// out a coin of any other: the coin at place `c` of account `a` has its
/// outpoint among the extra inputs exactly where no coin of the primary
/// account has it.
pub proof fn law_plan_adds_exactly_the_other_coins(
    accounts: Seq<FundingAccount>,
    account_index: u32,
    credit_outputs: Seq<TxOut>,
    fee_per_kb: u64,
    current_height: u32,
    plan: UnionBuildPlan,
    a: int,
    c: int,
)
    requires
        is_plan_outcome(
            accounts,
            account_index,
            true,
            credit_outputs,
            fee_per_kb,
            current_height,
            Ok(plan),
        ),
        0 <= a < accounts.len(),
        0 <= c < accounts[a].spendable@.len(),
    ensures
        (exists|i: int|
            0 <= i < plan.extra_inputs@.len() && (#[trigger] plan.extra_inputs@[i]).outpoint
                == accounts[a].spendable@[c].utxo.outpoint) <==> (forall|x: int, y: int|
            0 <= x < accounts.len() && (#[trigger] accounts[x]).bip44_index == Some(account_index)
                && 0 <= y < accounts[x].spendable@.len()
                ==> #[trigger] accounts[x].spendable@[y].utxo.outpoint
                != accounts[a].spendable@[c].utxo.outpoint),
{
    let outpoint = accounts[a].spendable@[c].utxo.outpoint;
    if exists|i: int|
        0 <= i < plan.extra_inputs@.len() && (#[trigger] plan.extra_inputs@[i]).outpoint
            == outpoint {
        let i = choose|i: int|
            0 <= i < plan.extra_inputs@.len() && (#[trigger] plan.extra_inputs@[i]).outpoint
                == outpoint;
        assert forall|x: int, y: int|
            0 <= x < accounts.len() && (#[trigger] accounts[x]).bip44_index == Some(account_index)
                && 0 <= y < accounts[x].spendable@.len() implies
            #[trigger] accounts[x].spendable@[y].utxo.outpoint != outpoint by {
            law_no_returned_input_is_primary(
                accounts,
                account_index,
                plan.extra_inputs@,
                x,
                y,
                i,
            );
        }
    }
    if forall|x: int, y: int|
        0 <= x < accounts.len() && (#[trigger] accounts[x]).bip44_index == Some(account_index) && 0
            <= y < accounts[x].spendable@.len()
            ==> #[trigger] accounts[x].spendable@[y].utxo.outpoint != outpoint {
        let i = law_every_other_coin_is_returned(
            accounts,
            account_index,
            plan.extra_inputs@,
            a,
            c,
        );
    }
}

/// A plan can sign for every coin whose account knows the path of its address.
pub proof fn law_plan_can_sign_for_every_known_coin(
    accounts: Seq<FundingAccount>,
    account_index: u32,
    credit_outputs: Seq<TxOut>,
    fee_per_kb: u64,
    current_height: u32,
    plan: UnionBuildPlan,
    a: int,
    c: int,
)
    requires
        is_plan_outcome(
            accounts,
            account_index,
            true,
            credit_outputs,
            fee_per_kb,
            current_height,
            Ok(plan),
        ),
        0 <= a < accounts.len(),
        0 <= c < accounts[a].spendable@.len(),
        accounts[a].spendable@[c].path is Some,
    ensures
        plan.paths@.contains_key(accounts[a].spendable@[c].utxo.address.bytes@),
{
    let coin = accounts[a].spendable@[c];
    law_every_spendable_coin_is_swept(accounts, a);
    let p = all_coins(accounts.take(a)).len() + c;
    assert(accounts[a].spendable@[c].utxo@ == all_coins(accounts)[p].utxo);
    law_every_input_with_a_path_resolves(all_coins(accounts), p);
}

/// Failures of taking the key are told in words: a missing account is named, a
/// failure of the pool is told as it came, and a failure of the signer is told
/// as one. After the answer to a failure nothing more is done.
pub proof fn law_key_failures_are_told_in_words(run: CreditKeyRun, i: int)
    requires
        run.valid(),
        0 <= i < run.actions.len(),
    ensures
        (run.events[i] matches CreditKeyEvent::Peeked(None)) || (
        run.events[i] matches CreditKeyEvent::Marked(None)) ==> {
            &&& run.actions[i] matches CreditKeyAction::Finish(Err(
                PlatformWalletError::AssetLockTransaction(text),
            ))
            &&& text@ == "Asset lock shielded address top-up account not found"@
        },
        run.events[i] matches CreditKeyEvent::Peeked(Some(Err(why))) ==> {
            &&& run.actions[i] matches CreditKeyAction::Finish(Err(
                PlatformWalletError::AssetLockTransaction(text),
            ))
            &&& text@ == why@
        },
        run.events[i] matches CreditKeyEvent::Marked(Some(Err(why))) ==> {
            &&& run.actions[i] matches CreditKeyAction::Finish(Err(
                PlatformWalletError::AssetLockTransaction(text),
            ))
            &&& text@ == why@
        },
        run.events[i] matches CreditKeyEvent::SignerAnswered(Err(why)) ==> {
            &&& run.actions[i] matches CreditKeyAction::Finish(Err(
                PlatformWalletError::AssetLockTransaction(text),
            ))
            &&& text@ == "signer public_key failed: "@ + why@
        },
{
    assert(run.follows(i));
}

/// A peeked path is asked for, an answer of the signer consumes the index, and
/// a consumed index ends with success.
pub proof fn law_key_is_taken_where_nothing_fails(run: CreditKeyRun, i: int)
    requires
        run.valid(),
        0 <= i < run.actions.len(),
    ensures
        run.events[i] matches CreditKeyEvent::Peeked(Some(Ok((path, _)))) ==> {
            &&& run.actions[i] matches CreditKeyAction::AskSigner { path: asked }
            &&& asked.children@ == path.children@
        },
        run.events[i] matches CreditKeyEvent::SignerAnswered(Ok(_)) ==> {
            &&& run.events[0] matches CreditKeyEvent::Peeked(Some(Ok((_, peeked))))
            &&& run.actions[i] matches CreditKeyAction::MarkUsed { index }
            &&& index == peeked
        },
        run.events[i] matches CreditKeyEvent::Marked(Some(Ok(_))) ==> {
            &&& run.events[0] matches CreditKeyEvent::Peeked(Some(Ok((path, _))))
            &&& run.actions[i] matches CreditKeyAction::Finish(Ok(returned))
            &&& returned.children@ == path.children@
        },
{
    lemma_credit_key_run(run, i);
    assert(run.follows(i));
}

/// After each action the flow waits for the answer to it, and for nothing
/// else; before the first it waits for a path.
pub proof fn law_each_key_action_waits_for_its_own_answer(
    run: CreditKeyRun,
    i: int,
    event: CreditKeyEvent,
)
    requires
        run.valid(),
        0 <= i < run.actions.len(),
    ensures
        run.flows[0].expects(&event) <==> event is Peeked,
        run.flows[i + 1].expects(&event) <==> match run.actions[i] {
            CreditKeyAction::AskSigner { .. } => event is SignerAnswered,
            CreditKeyAction::MarkUsed { .. } => event is Marked,
            CreditKeyAction::Finish(_) => false,
        },
{
    assert(run.follows(i));
}

/// What the union build does in answer to what it is told. The plan is for the
/// account, the fee and the outputs that it was begun with, and for the height
/// that was read. A signed transaction is followed by a look at the pool, and
/// from there the key is taken as ever.
pub proof fn law_union_build_answers<T>(run: UnionRun<T>, i: int)
    requires
        run.valid(),
        0 < i < run.actions.len(),
    ensures
        run.events[i - 1] matches UnionEvent::AccountsRead {
            accounts,
            wallet_has_account,
            current_height,
        } ==> {
            let has_account = wallet_has_account && exists|a: int|
                0 <= a < accounts@.len() && (#[trigger] accounts@[a]).bip44_index == Some(
                    run.flows[0].account_index,
                );
            &&& has_account ==> {
                &&& run.actions[i] matches UnionAction::BuildSigned { plan }
                &&& plan.primary_account == run.flows[0].account_index
                &&& plan.fee_per_kb == run.flows[0].fee_per_kb
                &&& plan.current_height == current_height
                &&& plan.strategy == SelectionStrategy::LargestFirst
                &&& plan.require_final_inputs
                &&& plan.credit_outputs@ == run.flows[0].phase->credit_outputs@
            }
            &&& !has_account ==> {
                &&& run.actions[i] matches UnionAction::Finish(Err(
                    PlatformWalletError::AssetLockTransaction(text),
                ))
                &&& text@ == (if wallet_has_account {
                    "managed BIP44 account "@
                } else {
                    "BIP44 account "@
                }) + decimal(run.flows[0].account_index as nat)
                    + " not found for asset-lock funding"@
            }
        },
        run.events[i - 1] matches UnionEvent::Signed(Ok(_)) ==> run.actions[i] is PeekPath,
        run.events[i - 1] matches UnionEvent::Signed(
            Err(BuilderFailure::InsufficientFunds { available, required }),
        ) ==> run.actions[i] == UnionAction::<T>::Finish(
            Err(PlatformWalletError::AssetLockInsufficientFunds { available, required }),
        ),
        run.events[i - 1] matches UnionEvent::Signed(
            Err(BuilderFailure::SelectionInsufficientFunds { available, required }),
        ) ==> run.actions[i] == UnionAction::<T>::Finish(
            Err(PlatformWalletError::AssetLockInsufficientFunds { available, required }),
        ),
        run.events[i - 1] matches UnionEvent::Signed(Err(BuilderFailure::Other(why))) ==> {
            &&& run.actions[i] matches UnionAction::Finish(Err(
                PlatformWalletError::AssetLockTransaction(text),
            ))
            &&& text@ == "Asset lock builder failed: "@ + why@
        },
{
    lemma_union_run(run, i - 1);
    assert(run.follows(i - 1));
}

/// What the union build does about the key of a signed transaction: the path
/// that was peeked is asked for, its index is consumed once the signer has
/// answered, and the transaction is returned with that path. A failure is told
/// in words.
pub proof fn law_union_build_takes_the_key<T>(run: UnionRun<T>, i: int)
    requires
        run.valid(),
        0 < i < run.actions.len(),
    ensures
        run.events[i - 1] matches UnionEvent::Key(CreditKeyEvent::Peeked(Some(Ok((path, _)))))
            ==> {
            &&& run.actions[i] matches UnionAction::AskSigner { path: asked }
            &&& asked.children@ == path.children@
        },
        run.events[i - 1] matches UnionEvent::Key(CreditKeyEvent::SignerAnswered(Ok(_))) ==> {
            &&& run.events[2] matches UnionEvent::Key(CreditKeyEvent::Peeked(Some(Ok((_, peeked)))))
            &&& run.actions[i] matches UnionAction::MarkUsed { index }
            &&& index == peeked
        },
        run.events[i - 1] matches UnionEvent::Key(CreditKeyEvent::Marked(Some(Ok(_)))) ==> {
            &&& run.events[1] matches UnionEvent::Signed(Ok(transaction))
            &&& run.events[2] matches UnionEvent::Key(CreditKeyEvent::Peeked(Some(Ok((path, _)))))
            &&& run.actions[i] matches UnionAction::Finish(Ok(returned))
            &&& returned.0 == transaction
            &&& returned.1.children@ == path.children@
        },
        (run.events[i - 1] matches UnionEvent::Key(CreditKeyEvent::Peeked(None))) || (
        run.events[i - 1] matches UnionEvent::Key(CreditKeyEvent::Marked(None))) ==> {
            &&& run.actions[i] matches UnionAction::Finish(Err(
                PlatformWalletError::AssetLockTransaction(text),
            ))
            &&& text@ == "Asset lock shielded address top-up account not found"@
        },
        run.events[i - 1] matches UnionEvent::Key(CreditKeyEvent::Peeked(Some(Err(why)))) ==> {
            &&& run.actions[i] matches UnionAction::Finish(Err(
                PlatformWalletError::AssetLockTransaction(text),
            ))
            &&& text@ == why@
        },
        run.events[i - 1] matches UnionEvent::Key(CreditKeyEvent::Marked(Some(Err(why)))) ==> {
            &&& run.actions[i] matches UnionAction::Finish(Err(
                PlatformWalletError::AssetLockTransaction(text),
            ))
            &&& text@ == why@
        },
        run.events[i - 1] matches UnionEvent::Key(CreditKeyEvent::SignerAnswered(Err(why))) ==> {
            &&& run.actions[i] matches UnionAction::Finish(Err(
                PlatformWalletError::AssetLockTransaction(text),
            ))
            &&& text@ == "signer public_key failed: "@ + why@
        },
{
    lemma_union_run(run, i - 1);
    assert(run.follows(i - 1));
}

/// After each action the union build waits for the answer to it, and for
/// nothing else. Of the accounts it asks only that their coins can be counted.
pub proof fn law_each_union_action_waits_for_its_own_answer<T>(
    run: UnionRun<T>,
    i: int,
    event: UnionEvent<T>,
)
    requires
        run.valid(),
        0 <= i < run.actions.len(),
    ensures
        run.flows[i].expects(&event) <==> match run.actions[i] {
            UnionAction::ReadAccounts => event matches UnionEvent::AccountsRead { accounts, .. }
                && all_coins(accounts@).len() <= usize::MAX,
            UnionAction::BuildSigned { .. } => event is Signed,
            UnionAction::PeekPath => event matches UnionEvent::Key(CreditKeyEvent::Peeked(_)),
            UnionAction::AskSigner { .. } => event matches UnionEvent::Key(
                CreditKeyEvent::SignerAnswered(_),
            ),
            UnionAction::MarkUsed { .. } => event matches UnionEvent::Key(
                CreditKeyEvent::Marked(_),
            ),
            UnionAction::Finish(_) => false,
        },
{
    if i > 0 {
        lemma_union_run(run, i - 1);
        assert(run.follows(i - 1));
    }
}

/// The outputs that are funded are those of the fundings, one for one.
pub proof fn law_funded_outputs_are_those_of_the_fundings(fundings: Seq<CreditOutputFunding>)
    ensures
        funded_outputs(fundings).len() == fundings.len(),
        forall|i: int|
            0 <= i < fundings.len() ==> {
                &&& (#[trigger] funded_outputs(fundings)[i]).value == fundings[i].output.value
                &&& funded_outputs(fundings)[i].script_pubkey == fundings[i].output.script_pubkey
            },
{
}

/// The flows themselves begin and step as the runs of the laws above do, and
/// accept what they wait for.
pub proof fn law_union_flow_makes_runs<T>(
    account_index: u32,
    fundings: Vec<CreditOutputFunding>,
    fee_per_kb: u64,
    begun: (UnionFlow<T>, UnionAction<T>),
    flow: UnionFlow<T>,
    event: UnionEvent<T>,
    accepted: bool,
    next: (UnionFlow<T>, UnionAction<T>),
)
    requires
        call_ensures(UnionFlow::<T>::start, (account_index, fundings, fee_per_kb), begun),
        call_ensures(UnionFlow::<T>::accepts, (&flow, &event), accepted),
        call_ensures(UnionFlow::<T>::step, (flow, event), next),
    ensures
        begun.0.account_index == account_index,
        begun.0.fee_per_kb == fee_per_kb,
        begun.0.phase matches UnionPhase::Planning { credit_outputs } && {
            &&& credit_outputs@.len() == fundings@.len()
            &&& forall|i: int|
                0 <= i < fundings@.len() ==> #[trigger] credit_outputs@[i] == fundings@[i].output
        },
        begun.1 is ReadAccounts,
        accepted <==> flow.expects(&event),
        UnionFlow::is_step(flow, event, next.0, next.1),
        next.0.account_index == flow.account_index,
        next.0.fee_per_kb == flow.fee_per_kb,
{
}

/// The same of taking the key of the credit output.
pub proof fn law_credit_key_flow_makes_runs(
    flow: CreditKeyFlow,
    event: CreditKeyEvent,
    accepted: bool,
    next: (CreditKeyFlow, CreditKeyAction),
)
    requires
        call_ensures(CreditKeyFlow::accepts, (&flow, &event), accepted),
        call_ensures(CreditKeyFlow::step, (flow, event), next),
    ensures
        accepted <==> flow.expects(&event),
        CreditKeyFlow::is_step(flow, event, next.0, next.1),
{
}

/// The error that the mapping itself gives keeps the amounts of a shortfall,
/// and tells any other failure in the builder's words.
pub proof fn law_mapped_error_keeps_the_amounts(
    failure: BuilderFailure,
    error: PlatformWalletError,
)
    requires
        call_ensures(map_builder_error, (failure,), error),
    ensures
        failure matches BuilderFailure::InsufficientFunds { available, required } ==> error
            == (PlatformWalletError::AssetLockInsufficientFunds { available, required }),
        failure matches BuilderFailure::SelectionInsufficientFunds { available, required } ==> error
            == (PlatformWalletError::AssetLockInsufficientFunds { available, required }),
        failure matches BuilderFailure::Other(why) ==> {
            &&& error matches PlatformWalletError::AssetLockTransaction(text)
            &&& text@ == "Asset lock builder failed: "@ + why@
        },
{
    law_shortfall_keeps_its_amounts(failure, error);
}

/// The path that is taken from the builder's keys is that of the first public
/// one, and there is a path exactly where there is a public key.
pub proof fn law_credit_path_is_that_of_the_first_key(
    keys: AssetLockCreditKeys,
    outcome: Result<DerivationPath, PlatformWalletError>,
)
    requires
        call_ensures(credit_output_path, (keys,), outcome),
    ensures
        outcome is Ok <==> (keys matches AssetLockCreditKeys::Public(list) && list@.len() > 0),
        outcome matches Ok(path) ==> path == keys->Public_0@[0].1,
        outcome matches Err(error) ==> {
            &&& error matches PlatformWalletError::AssetLockTransaction(text)
            &&& keys is Public ==> text@ == "Builder returned no credit-output keys"@
            &&& keys is Private ==> text@
                == "Builder returned Private keys; signer-driven path expected Public"@
        },
{
}

/// The outcome that planning itself gives is one of those that the laws above
/// speak of.
pub proof fn law_planning_gives_a_plan_outcome(
    accounts: Vec<FundingAccount>,
    account_index: u32,
    wallet_has_account: bool,
    credit_outputs: Vec<TxOut>,
    fee_per_kb: u64,
    current_height: u32,
    outcome: Result<UnionBuildPlan, PlatformWalletError>,
)
    requires
        call_ensures(
            plan_union_build,
            (
                &accounts,
                account_index,
                wallet_has_account,
                credit_outputs,
                fee_per_kb,
                current_height,
            ),
            outcome,
        ),
    ensures
        is_plan_outcome(
            accounts@,
            account_index,
            wallet_has_account,
            credit_outputs@,
            fee_per_kb,
            current_height,
            outcome,
        ),
        outcome matches Ok(plan) ==> {
            &&& plan.primary_account == account_index
            &&& plan.fee_per_kb == fee_per_kb
            &&& plan.current_height == current_height
            &&& plan.strategy == SelectionStrategy::LargestFirst
            &&& plan.require_final_inputs
            &&& plan.credit_outputs@ == credit_outputs@
        },
{
}

} // verus!
