//! The per-identity top-up account: derived, inserted and persisted on the
//! first top-up of an identity.

use vstd::prelude::*;

use crate::wallet::error::{ErrorView, PlatformWalletError};
use crate::wallet::text::{decimal, joined_text, numbered_text};

verus! {

/// One address pool of a managed account.
#[derive(Debug)]
pub struct AddressPool<K, A> {
    pub pool_type: K,
    pub addresses: Vec<A>,
}

/// The record of a top-up account: the identity's registration index, and the
/// account's extended public key.
#[derive(Debug)]
pub struct AccountRegistrationEntry<X> {
    pub registration_index: u32,
    pub account_xpub: X,
}

/// The record of one address pool of a top-up account.
#[derive(Debug)]
pub struct AccountAddressPoolEntry<K, A> {
    pub registration_index: u32,
    pub pool_type: K,
    pub addresses: Vec<A>,
}

/// The changes that persist a new top-up account: the only record it can be
/// rebuilt from after a restart.
#[derive(Debug)]
pub struct TopUpChangeSet<X, K, A> {
    pub account_registrations: Vec<AccountRegistrationEntry<X>>,
    pub account_address_pools: Vec<AccountAddressPoolEntry<K, A>>,
}

/// The records of the pools that hold an address, in order.
pub open spec fn pool_entries<K, A>(
    registration_index: u32,
    pools: Seq<AddressPool<K, A>>,
) -> Seq<AccountAddressPoolEntry<K, A>> {
    pools.filter(|pool: AddressPool<K, A>| pool.addresses@.len() > 0).map_values(
        |pool: AddressPool<K, A>|
            AccountAddressPoolEntry {
                registration_index,
                pool_type: pool.pool_type,
                addresses: pool.addresses,
            },
    )
}

/// The changes that persist the account with the extended public key
/// `account_xpub` and the address pools `pools`. Empty pools are left out.
pub fn registration_changeset<X, K, A>(
    registration_index: u32,
    account_xpub: X,
    pools: Vec<AddressPool<K, A>>,
) -> (changes: TopUpChangeSet<X, K, A>)
    ensures
        changes.account_registrations@ == seq![
            AccountRegistrationEntry { registration_index, account_xpub },
        ],
        changes.account_address_pools@ == pool_entries(registration_index, pools@),
{
    let mut entries: Vec<AccountAddressPoolEntry<K, A>> = Vec::new();
    let mut rest: Vec<AddressPool<K, A>> = pools;
    let ghost mut done: Seq<AddressPool<K, A>> = Seq::empty();
    let ghost keep = |pool: AddressPool<K, A>| pool.addresses@.len() > 0;
    let ghost entry = |pool: AddressPool<K, A>|
        AccountAddressPoolEntry {
            registration_index,
            pool_type: pool.pool_type,
            addresses: pool.addresses,
        };
    proof {
        reveal(Seq::filter);
    }
    while rest.len() > 0
        invariant
            keep == (|pool: AddressPool<K, A>| pool.addresses@.len() > 0),
            entry == (|pool: AddressPool<K, A>|
                AccountAddressPoolEntry {
                    registration_index,
                    pool_type: pool.pool_type,
                    addresses: pool.addresses,
                }),
            done + rest@ =~= pools@,
            entries@ == done.filter(keep).map_values(entry),
        decreases rest@.len(),
    {
        let ghost before = done;
        let pool: AddressPool<K, A> = rest.remove(0);
        proof {
            done = done.push(pool);
            assert(done.drop_last() =~= before);
            reveal(Seq::filter);
        }
        if pool.addresses.len() > 0 {
            entries.push(
                AccountAddressPoolEntry {
                    registration_index,
                    pool_type: pool.pool_type,
                    addresses: pool.addresses,
                },
            );
        }
    }
    let mut account_registrations: Vec<AccountRegistrationEntry<X>> = Vec::new();
    account_registrations.push(AccountRegistrationEntry { registration_index, account_xpub });
    TopUpChangeSet { account_registrations, account_address_pools: entries }
}

/// What the flow waits for.
#[derive(Clone, Copy, Debug, PartialEq, Eq, Structural)]
pub enum TopUpPhase {
    /// For the wallet to derive the account from its own root key.
    AddingLocally,
    /// For the derivation path of the account.
    ComputingPath,
    /// For the signer to derive the extended public key.
    AskingSigner,
    /// For the wallet to insert the account with that key.
    AddingXpub,
    /// For the managed account to be inserted.
    AddingManaged,
    /// For the key and the pools of the account to be read back.
    Reading,
    /// For the account to be persisted.
    Storing,
    /// For nothing.
    Finished,
}

/// Makes sure that a wallet has the top-up account of one identity, on both
/// sides: the wallet's, which holds its extended public key, and the managed
/// one, which holds its address pools. A side that is there is left alone.
#[derive(Clone, Copy, Debug)]
pub struct TopUpFlow {
    pub identity_index: u32,
    /// The wallet's side was missing at the start.
    pub created_xpub_side: bool,
    /// The managed side was missing at the start.
    pub created_managed_side: bool,
    pub phase: TopUpPhase,
}

/// What the collaborators answered.
#[derive(Debug)]
pub enum TopUpEvent<P, X, K, A> {
    AddedLocally(Result<(), String>),
    PathComputed(Result<P, String>),
    XpubDerived(Result<X, String>),
    XpubAdded(Result<(), String>),
    ManagedAdded(Result<(), String>),
    /// The key of the account, if the wallet has it, and the pools of the
    /// managed account.
    Read { account_xpub: Option<X>, pools: Vec<AddressPool<K, A>> },
    Stored(Result<(), String>),
}

/// What is to be done next.
#[derive(Debug)]
pub enum TopUpAction<P, X, K, A> {
    /// Derive the account from the wallet's root key, and insert it.
    AddLocally,
    /// Compute the derivation path of the account.
    ComputePath,
    /// Have the signer derive the extended public key at this path.
    AskSigner { path: P },
    /// Insert the account with this key.
    AddXpub { account_xpub: X },
    /// Insert the managed account.
    AddManaged,
    /// Read the key and the pools of the account.
    Read,
    /// Persist the account.
    Store(TopUpChangeSet<X, K, A>),
    /// Take out the sides that were inserted, and return the error.
    RollBack { remove_xpub_side: bool, remove_managed_side: bool, error: PlatformWalletError },
    /// Return this.
    Finish(Result<(), PlatformWalletError>),
}

/// The text of a failure for one identity: what failed, the index, and why.
pub open spec fn failure_text(
    before: Seq<char>,
    identity_index: u32,
    after: Seq<char>,
    why: Seq<char>,
) -> Seq<char> {
    before + decimal(identity_index as nat) + after + why
}

fn failure(before: &str, identity_index: u32, after: &str, why: &str) -> (text: String)
    ensures
        text@ == failure_text(before@, identity_index, after@, why@),
{
    let head: String = numbered_text(before, identity_index, after);
    joined_text(head.as_str(), why)
}

impl TopUpFlow {
    /// `action` ends the flow with an asset-lock error of this text.
    pub open spec fn fails<P, X, K, A>(
        post: TopUpFlow,
        action: TopUpAction<P, X, K, A>,
        text: Seq<char>,
    ) -> bool {
        &&& post.phase == TopUpPhase::Finished
        &&& action matches TopUpAction::Finish(Err(error))
        &&& error@ == ErrorView::AssetLockTransaction(text)
    }

    /// What follows once the wallet's side is there: the managed side where it
    /// is missing, then persisting where either side was.
    pub open spec fn after_xpub_side<P, X, K, A>(
        post: TopUpFlow,
        action: TopUpAction<P, X, K, A>,
    ) -> bool {
        if post.created_managed_side {
            post.phase == TopUpPhase::AddingManaged && action is AddManaged
        } else if post.created_xpub_side {
            post.phase == TopUpPhase::Reading && action is Read
        } else {
            post.phase == TopUpPhase::Finished && action matches TopUpAction::Finish(Ok(_))
        }
    }

    /// How the flow begins. A wallet without a root key of its own derives the
    /// key through the signer.
    pub open spec fn is_start<P, X, K, A>(
        identity_index: u32,
        has_xpub_side: bool,
        has_managed_side: bool,
        external_signable: bool,
        flow: TopUpFlow,
        action: TopUpAction<P, X, K, A>,
    ) -> bool {
        &&& flow.identity_index == identity_index
        &&& flow.created_xpub_side == !has_xpub_side
        &&& flow.created_managed_side == !has_managed_side
        &&& if has_xpub_side {
            TopUpFlow::after_xpub_side(flow, action)
        } else if external_signable {
            flow.phase == TopUpPhase::ComputingPath && action is ComputePath
        } else {
            flow.phase == TopUpPhase::AddingLocally && action is AddLocally
        }
    }

    /// The event that the flow waits for is of the kind of `event`.
    pub open spec fn expects<P, X, K, A>(&self, event: &TopUpEvent<P, X, K, A>) -> bool {
        match event {
            TopUpEvent::AddedLocally(_) => self.phase == TopUpPhase::AddingLocally,
            TopUpEvent::PathComputed(_) => self.phase == TopUpPhase::ComputingPath,
            TopUpEvent::XpubDerived(_) => self.phase == TopUpPhase::AskingSigner,
            TopUpEvent::XpubAdded(_) => self.phase == TopUpPhase::AddingXpub,
            TopUpEvent::ManagedAdded(_) => self.phase == TopUpPhase::AddingManaged,
            TopUpEvent::Read { .. } => self.phase == TopUpPhase::Reading,
            TopUpEvent::Stored(_) => self.phase == TopUpPhase::Storing,
        }
    }

    /// What follows an event.
    pub open spec fn is_step<P, X, K, A>(
        pre: TopUpFlow,
        event: TopUpEvent<P, X, K, A>,
        post: TopUpFlow,
        action: TopUpAction<P, X, K, A>,
    ) -> bool {
        let index = pre.identity_index;
        &&& pre.expects(&event)
        &&& post.identity_index == index
        &&& post.created_xpub_side == pre.created_xpub_side
        &&& post.created_managed_side == pre.created_managed_side
        &&& match event {
            TopUpEvent::AddedLocally(Ok(_)) => TopUpFlow::after_xpub_side(post, action),
            TopUpEvent::AddedLocally(Err(why)) => TopUpFlow::fails(
                post,
                action,
                failure_text(
                    "Failed to derive identity top-up account for index "@,
                    index,
                    ": "@,
                    why@,
                ),
            ),
            TopUpEvent::PathComputed(Ok(path)) => {
                &&& post.phase == TopUpPhase::AskingSigner
                &&& action == (TopUpAction::<P, X, K, A>::AskSigner { path })
            },
            TopUpEvent::PathComputed(Err(why)) => TopUpFlow::fails(
                post,
                action,
                failure_text(
                    "Failed to compute identity top-up derivation path for index "@,
                    index,
                    ": "@,
                    why@,
                ),
            ),
            TopUpEvent::XpubDerived(Ok(account_xpub)) => {
                &&& post.phase == TopUpPhase::AddingXpub
                &&& action == (TopUpAction::<P, X, K, A>::AddXpub { account_xpub })
            },
            TopUpEvent::XpubDerived(Err(why)) => TopUpFlow::fails(
                post,
                action,
                failure_text(
                    "Failed to derive identity top-up account xpub for index "@,
                    index,
                    " via signer: "@,
                    why@,
                ),
            ),
            TopUpEvent::XpubAdded(Ok(_)) => TopUpFlow::after_xpub_side(post, action),
            TopUpEvent::XpubAdded(Err(why)) => TopUpFlow::fails(
                post,
                action,
                failure_text(
                    "Failed to add identity top-up account for index "@,
                    index,
                    ": "@,
                    why@,
                ),
            ),
            TopUpEvent::ManagedAdded(Ok(_)) => post.phase == TopUpPhase::Reading && action is Read,
            TopUpEvent::ManagedAdded(Err(why)) => TopUpFlow::fails(
                post,
                action,
                failure_text(
                    "Failed to register managed identity top-up account for index "@,
                    index,
                    ": "@,
                    why@,
                ),
            ),
            TopUpEvent::Read { account_xpub: Some(account_xpub), pools } => {
                &&& post.phase == TopUpPhase::Storing
                &&& action matches TopUpAction::Store(changes)
                &&& changes.account_registrations@ == seq![
                    AccountRegistrationEntry { registration_index: index, account_xpub },
                ]
                &&& changes.account_address_pools@ == pool_entries(index, pools@)
            },
            TopUpEvent::Read { account_xpub: None, pools } => TopUpFlow::fails(
                post,
                action,
                failure_text(
                    "Identity top-up account for index "@,
                    index,
                    " missing after insert"@,
                    Seq::empty(),
                ),
            ),
            TopUpEvent::Stored(Ok(_)) => {
                &&& post.phase == TopUpPhase::Finished
                &&& action matches TopUpAction::Finish(Ok(_))
            },
            TopUpEvent::Stored(Err(why)) => {
                &&& post.phase == TopUpPhase::Finished
                &&& action matches TopUpAction::RollBack {
                    remove_xpub_side,
                    remove_managed_side,
                    error,
                }
                &&& remove_xpub_side == pre.created_xpub_side
                &&& remove_managed_side == pre.created_managed_side
                &&& error@ == ErrorView::Persistence(
                    failure_text(
                        "Failed to persist identity top-up account registration for index "@,
                        index,
                        ": "@,
                        why@,
                    ),
                )
            },
        }
    }

    /// Begins for the identity with this registration index.
    pub fn start<P, X, K, A>(
        identity_index: u32,
        has_xpub_side: bool,
        has_managed_side: bool,
        external_signable: bool,
    ) -> (next: (TopUpFlow, TopUpAction<P, X, K, A>))
        ensures
            TopUpFlow::is_start(
                identity_index,
                has_xpub_side,
                has_managed_side,
                external_signable,
                next.0,
                next.1,
            ),
            next.0.identity_index == identity_index,
            next.0.created_xpub_side == !has_xpub_side,
            next.0.created_managed_side == !has_managed_side,
    {
        let flow: TopUpFlow = TopUpFlow {
            identity_index,
            created_xpub_side: !has_xpub_side,
            created_managed_side: !has_managed_side,
            phase: TopUpPhase::Finished,
        };
        if has_xpub_side {
            flow.with_xpub_side()
        } else if external_signable {
            (flow.in_phase(TopUpPhase::ComputingPath), TopUpAction::ComputePath)
        } else {
            (flow.in_phase(TopUpPhase::AddingLocally), TopUpAction::AddLocally)
        }
    }

    fn in_phase(self, phase: TopUpPhase) -> (flow: TopUpFlow)
        ensures
            flow == (TopUpFlow { phase, ..self }),
    {
        TopUpFlow {
            identity_index: self.identity_index,
            created_xpub_side: self.created_xpub_side,
            created_managed_side: self.created_managed_side,
            phase,
        }
    }

    fn with_xpub_side<P, X, K, A>(self) -> (next: (TopUpFlow, TopUpAction<P, X, K, A>))
        ensures
            next.0.identity_index == self.identity_index,
            next.0.created_xpub_side == self.created_xpub_side,
            next.0.created_managed_side == self.created_managed_side,
            TopUpFlow::after_xpub_side(next.0, next.1),
    {
        if self.created_managed_side {
            (self.in_phase(TopUpPhase::AddingManaged), TopUpAction::AddManaged)
        } else if self.created_xpub_side {
            (self.in_phase(TopUpPhase::Reading), TopUpAction::Read)
        } else {
            (self.in_phase(TopUpPhase::Finished), TopUpAction::Finish(Ok(())))
        }
    }

    fn failed<P, X, K, A>(self, text: String) -> (next: (TopUpFlow, TopUpAction<P, X, K, A>))
        ensures
            next.0.identity_index == self.identity_index,
            next.0.created_xpub_side == self.created_xpub_side,
            next.0.created_managed_side == self.created_managed_side,
            TopUpFlow::fails(next.0, next.1, text@),
    {
        (
            self.in_phase(TopUpPhase::Finished),
            TopUpAction::Finish(Err(PlatformWalletError::AssetLockTransaction(text))),
        )
    }

    /// Whether `step` may be called with `event`.
    pub fn accepts<P, X, K, A>(&self, event: &TopUpEvent<P, X, K, A>) -> (accepted: bool)
        ensures
            accepted == self.expects(event),
    {
        match event {
            TopUpEvent::AddedLocally(_) => self.phase == TopUpPhase::AddingLocally,
            TopUpEvent::PathComputed(_) => self.phase == TopUpPhase::ComputingPath,
            TopUpEvent::XpubDerived(_) => self.phase == TopUpPhase::AskingSigner,
            TopUpEvent::XpubAdded(_) => self.phase == TopUpPhase::AddingXpub,
            TopUpEvent::ManagedAdded(_) => self.phase == TopUpPhase::AddingManaged,
            TopUpEvent::Read { .. } => self.phase == TopUpPhase::Reading,
            TopUpEvent::Stored(_) => self.phase == TopUpPhase::Storing,
        }
    }

    /// Takes one event, and says what to do next.
    pub fn step<P, X, K, A>(self, event: TopUpEvent<P, X, K, A>) -> (next: (
        TopUpFlow,
        TopUpAction<P, X, K, A>,
    ))
        requires
            self.expects(&event),
        ensures
            TopUpFlow::is_step(self, event, next.0, next.1),
    {
        let index: u32 = self.identity_index;
        match event {
            TopUpEvent::AddedLocally(answer) => match answer {
                Ok(_) => self.with_xpub_side(),
                Err(why) => self.failed(
                    failure(
                        "Failed to derive identity top-up account for index ",
                        index,
                        ": ",
                        why.as_str(),
                    ),
                ),
            },
            TopUpEvent::PathComputed(answer) => match answer {
                Ok(path) => (
                    self.in_phase(TopUpPhase::AskingSigner),
                    TopUpAction::AskSigner { path },
                ),
                Err(why) => self.failed(
                    failure(
                        "Failed to compute identity top-up derivation path for index ",
                        index,
                        ": ",
                        why.as_str(),
                    ),
                ),
            },
            TopUpEvent::XpubDerived(answer) => match answer {
                Ok(account_xpub) => (
                    self.in_phase(TopUpPhase::AddingXpub),
                    TopUpAction::AddXpub { account_xpub },
                ),
                Err(why) => self.failed(
                    failure(
                        "Failed to derive identity top-up account xpub for index ",
                        index,
                        " via signer: ",
                        why.as_str(),
                    ),
                ),
            },
            TopUpEvent::XpubAdded(answer) => match answer {
                Ok(_) => self.with_xpub_side(),
                Err(why) => self.failed(
                    failure(
                        "Failed to add identity top-up account for index ",
                        index,
                        ": ",
                        why.as_str(),
                    ),
                ),
            },
            TopUpEvent::ManagedAdded(answer) => match answer {
                Ok(_) => (self.in_phase(TopUpPhase::Reading), TopUpAction::Read),
                Err(why) => self.failed(
                    failure(
                        "Failed to register managed identity top-up account for index ",
                        index,
                        ": ",
                        why.as_str(),
                    ),
                ),
            },
            TopUpEvent::Read { account_xpub, pools } => match account_xpub {
                Some(account_xpub) => (
                    self.in_phase(TopUpPhase::Storing),
                    TopUpAction::Store(registration_changeset(index, account_xpub, pools)),
                ),
                None => self.failed(
                    failure(
                        "Identity top-up account for index ",
                        index,
                        " missing after insert",
                        String::new().as_str(),
                    ),
                ),
            },
            TopUpEvent::Stored(answer) => match answer {
                Ok(_) => (self.in_phase(TopUpPhase::Finished), TopUpAction::Finish(Ok(()))),
                Err(why) => {
                    let text: String = failure(
                        "Failed to persist identity top-up account registration for index ",
                        index,
                        ": ",
                        why.as_str(),
                    );
                    (
                        self.in_phase(TopUpPhase::Finished),
                        TopUpAction::RollBack {
                            remove_xpub_side: self.created_xpub_side,
                            remove_managed_side: self.created_managed_side,
                            error: PlatformWalletError::Persistence(text),
                        },
                    )
                },
            },
        }
    }
}

/// What is known of the account in memory and on disk.
pub struct TopUpWorld {
    /// The wallet holds its extended public key.
    pub xpub_side: bool,
    /// The managed wallet holds its pools.
    pub managed_side: bool,
    /// Its registration is persisted.
    pub persisted: bool,
}

impl TopUpWorld {
    /// A retry finds nothing to do exactly where both sides are there.
    pub open spec fn resident(self) -> bool {
        self.xpub_side && self.managed_side
    }

    /// The account can be rebuilt after a restart, or the next attempt will
    /// still persist it.
    pub open spec fn recoverable(self) -> bool {
        self.resident() ==> self.persisted
    }

    /// The event can be reported: a key is read back exactly where it is.
    pub open spec fn allows<P, X, K, A>(self, event: TopUpEvent<P, X, K, A>) -> bool {
        event matches TopUpEvent::Read { account_xpub, .. } ==> (account_xpub is Some
            <==> self.xpub_side)
    }

    /// What the work behind an event has done.
    pub open spec fn after_event<P, X, K, A>(self, event: TopUpEvent<P, X, K, A>) -> TopUpWorld {
        match event {
            TopUpEvent::AddedLocally(Ok(_)) => TopUpWorld { xpub_side: true, ..self },
            TopUpEvent::XpubAdded(Ok(_)) => TopUpWorld { xpub_side: true, ..self },
            TopUpEvent::ManagedAdded(Ok(_)) => TopUpWorld { managed_side: true, ..self },
            TopUpEvent::Stored(Ok(_)) => TopUpWorld { persisted: true, ..self },
            _ => self,
        }
    }

    /// What a rollback does.
    pub open spec fn after_action<P, X, K, A>(self, action: TopUpAction<P, X, K, A>) -> TopUpWorld {
        match action {
            TopUpAction::RollBack { remove_xpub_side, remove_managed_side, .. } => TopUpWorld {
                xpub_side: self.xpub_side && !remove_xpub_side,
                managed_side: self.managed_side && !remove_managed_side,
                ..self
            },
            _ => self,
        }
    }
}

/// A run of the flow: the states it goes through, the events between them,
/// the action each state was entered with, and the world as it then is.
pub struct TopUpRun<P, X, K, A> {
    pub initial: TopUpWorld,
    pub external_signable: bool,
    pub flows: Seq<TopUpFlow>,
    pub events: Seq<TopUpEvent<P, X, K, A>>,
    pub actions: Seq<TopUpAction<P, X, K, A>>,
    pub worlds: Seq<TopUpWorld>,
}

impl<P, X, K, A> TopUpRun<P, X, K, A> {
    /// Step `i` is one of the flow, on an event that the world allows.
    pub open spec fn follows(self, i: int) -> bool {
        &&& TopUpFlow::is_step(
            self.flows[i],
            self.events[i],
            self.flows[i + 1],
            self.actions[i + 1],
        )
        &&& self.worlds[i].allows(self.events[i])
        &&& self.worlds[i + 1] == self.worlds[i].after_event(self.events[i]).after_action(
            self.actions[i + 1],
        )
    }

    pub open spec fn valid(self) -> bool {
        &&& self.flows.len() == self.events.len() + 1
        &&& self.actions.len() == self.events.len() + 1
        &&& self.worlds.len() == self.events.len() + 1
        &&& TopUpFlow::is_start(
            self.flows[0].identity_index,
            self.initial.xpub_side,
            self.initial.managed_side,
            self.external_signable,
            self.flows[0],
            self.actions[0],
        )
        &&& self.worlds[0] == self.initial
        &&& forall|i: int| 0 <= i < self.events.len() ==> #[trigger] self.follows(i)
    }
}

/// What a state of the flow says about the world.
spec fn matches_world(flow: TopUpFlow, initial: TopUpWorld, world: TopUpWorld) -> bool {
    &&& flow.created_xpub_side == !initial.xpub_side
    &&& flow.created_managed_side == !initial.managed_side
    &&& match flow.phase {
        TopUpPhase::AddingLocally
        | TopUpPhase::ComputingPath
        | TopUpPhase::AskingSigner
        | TopUpPhase::AddingXpub => flow.created_xpub_side && world == initial,
        TopUpPhase::AddingManaged => flow.created_managed_side && world == (TopUpWorld {
            xpub_side: true,
            ..initial
        }),
        TopUpPhase::Reading | TopUpPhase::Storing => {
            &&& flow.created_xpub_side || flow.created_managed_side
            &&& world == (TopUpWorld { xpub_side: true, managed_side: true, ..initial })
        },
        TopUpPhase::Finished => true,
    }
}

proof fn lemma_run_matches_world<P, X, K, A>(run: TopUpRun<P, X, K, A>, i: int)
    requires
        run.valid(),
        0 <= i < run.flows.len(),
    ensures
        matches_world(run.flows[i], run.initial, run.worlds[i]),
    decreases i,
{
    if i > 0 {
        lemma_run_matches_world(run, i - 1);
        assert(run.follows(i - 1));
    }
}

/// Where the account is on both sides, nothing at all is done: the flow ends
/// at once, with success.
pub proof fn law_existing_account_is_left_alone<P, X, K, A>(run: TopUpRun<P, X, K, A>)
    requires
        run.valid(),
        run.initial.resident(),
    ensures
        run.actions[0] matches TopUpAction::Finish(Ok(_)),
        run.events.len() == 0,
{
    if run.events.len() > 0 {
        assert(run.follows(0));
    }
}

/// Success means that the account is on both sides and persisted.
pub proof fn law_success_means_resident_and_persisted<P, X, K, A>(
    run: TopUpRun<P, X, K, A>,
    i: int,
)
    requires
        run.valid(),
        run.initial.recoverable(),
        0 <= i < run.actions.len(),
        run.actions[i] matches TopUpAction::Finish(Ok(_)),
    ensures
        run.worlds[i].resident(),
        run.worlds[i].persisted,
{
    if i > 0 {
        lemma_run_matches_world(run, i - 1);
        assert(run.follows(i - 1));
    }
}

/// A failed store puts both sides back to what they were at the start.
pub proof fn law_failed_store_is_rolled_back<P, X, K, A>(run: TopUpRun<P, X, K, A>, i: int)
    requires
        run.valid(),
        0 <= i < run.actions.len(),
        run.actions[i] is RollBack,
    ensures
        run.worlds[i] == run.initial,
{
    if i > 0 {
        lemma_run_matches_world(run, i - 1);
        assert(run.follows(i - 1));
    }
}

/// However an attempt ends, it never leaves an account that is on both sides
/// but not persisted: a retry that finds work to do will persist it.
pub proof fn law_failure_leaves_the_account_to_a_retry<P, X, K, A>(
    run: TopUpRun<P, X, K, A>,
    i: int,
)
    requires
        run.valid(),
        run.initial.recoverable(),
        0 <= i < run.actions.len(),
        run.flows[i].phase == TopUpPhase::Finished,
    ensures
        run.worlds[i].recoverable(),
        !(run.actions[i] matches TopUpAction::Finish(Ok(_))) ==> !run.worlds[i].resident(),
{
    if i > 0 {
        lemma_run_matches_world(run, i - 1);
        assert(run.follows(i - 1));
    }
}

/// Every pool that holds an address, however many, is recorded: as the entry
/// whose place is the number of such pools before it, with its type, exactly
/// its addresses and the index of the account.
pub proof fn law_every_pool_with_an_address_is_recorded<K, A>(
    registration_index: u32,
    pools: Seq<AddressPool<K, A>>,
    i: int,
)
    requires
        0 <= i < pools.len(),
        pools[i].addresses@.len() > 0,
    ensures
        0 <= filled_pools(pools.take(i)) < pool_entries(registration_index, pools).len(),
        pool_entries(registration_index, pools)[filled_pools(pools.take(i))].registration_index
            == registration_index,
        pool_entries(registration_index, pools)[filled_pools(pools.take(i))].pool_type
            == pools[i].pool_type,
        pool_entries(registration_index, pools)[filled_pools(pools.take(i))].addresses
            == pools[i].addresses,
    decreases pools.len(),
{
    reveal(Seq::filter);
    let rest = pools.drop_last();
    law_as_many_entries_as_filled_pools(registration_index, rest);
    law_as_many_entries_as_filled_pools(registration_index, pools.take(i));
    if i < rest.len() {
        law_every_pool_with_an_address_is_recorded(registration_index, rest, i);
        assert(rest.take(i) =~= pools.take(i));
    } else {
        assert(pools.take(i) =~= rest);
    }
}

/// How many pools hold an address.
pub open spec fn filled_pools<K, A>(pools: Seq<AddressPool<K, A>>) -> int
    decreases pools.len(),
{
    if pools.len() == 0 {
        0
    } else if pools.last().addresses@.len() == 0 {
        filled_pools(pools.drop_last())
    } else {
        filled_pools(pools.drop_last()) + 1
    }
}

/// There are as many entries as pools with an address: none is left out, and
/// an empty pool makes none.
pub proof fn law_as_many_entries_as_filled_pools<K, A>(
    registration_index: u32,
    pools: Seq<AddressPool<K, A>>,
)
    ensures
        pool_entries(registration_index, pools).len() == filled_pools(pools),
        (forall|i: int| 0 <= i < pools.len() ==> (#[trigger] pools[i]).addresses@.len() > 0)
            ==> pool_entries(registration_index, pools).len() == pools.len(),
    decreases pools.len(),
{
    reveal(Seq::filter);
    if pools.len() > 0 {
        let rest = pools.drop_last();
        law_as_many_entries_as_filled_pools(registration_index, rest);
        if forall|i: int| 0 <= i < pools.len() ==> (#[trigger] pools[i]).addresses@.len() > 0 {
            assert forall|i: int| 0 <= i < rest.len() implies (
            #[trigger] rest[i]).addresses@.len() > 0 by {
                assert(rest[i] == pools[i]);
            }
            assert(pools[pools.len() - 1].addresses@.len() > 0);
        }
    }
}

/// Every entry records a pool that holds an address, under the index of the
/// account.
pub proof fn law_every_entry_records_a_pool<K, A>(
    registration_index: u32,
    pools: Seq<AddressPool<K, A>>,
    e: int,
) -> (i: int)
    requires
        0 <= e < pool_entries(registration_index, pools).len(),
    ensures
        0 <= i < pools.len(),
        pools[i].addresses@.len() > 0,
        filled_pools(pools.take(i)) == e,
        pool_entries(registration_index, pools)[e].registration_index == registration_index,
        pool_entries(registration_index, pools)[e].pool_type == pools[i].pool_type,
        pool_entries(registration_index, pools)[e].addresses == pools[i].addresses,
    decreases pools.len(),
{
    reveal(Seq::filter);
    let rest = pools.drop_last();
    law_as_many_entries_as_filled_pools(registration_index, rest);
    if e < pool_entries(registration_index, rest).len() {
        let i = law_every_entry_records_a_pool(registration_index, rest, e);
        assert(rest.take(i) =~= pools.take(i));
        i
    } else {
        assert(pools.take(pools.len() - 1) =~= rest);
        pools.len() - 1
    }
}

proof fn lemma_run_identity<P, X, K, A>(run: TopUpRun<P, X, K, A>, i: int)
    requires
        run.valid(),
        0 <= i < run.flows.len(),
    ensures
        run.flows[i].identity_index == run.flows[0].identity_index,
        run.flows[i].created_xpub_side == !run.initial.xpub_side,
        run.flows[i].created_managed_side == !run.initial.managed_side,
    decreases i,
{
    if i > 0 {
        lemma_run_identity(run, i - 1);
        assert(run.follows(i - 1));
    }
}

/// What is persisted is the account that was read back: one registration, of
/// the identity of the run, with the key that was read, and an entry for each
/// pool that was read and holds an address.
pub proof fn law_stored_account_is_the_one_read<P, X, K, A>(run: TopUpRun<P, X, K, A>, i: int)
    requires
        run.valid(),
        0 < i < run.actions.len(),
        run.actions[i] is Store,
    ensures
        run.events[i - 1] matches TopUpEvent::Read { account_xpub: Some(account_xpub), pools } && {
            let changes = run.actions[i]->Store_0;
            &&& changes.account_registrations@.len() == 1
            &&& changes.account_registrations@[0].registration_index
                == run.flows[0].identity_index
            &&& changes.account_registrations@[0].account_xpub == account_xpub
            &&& changes.account_address_pools@.len() == filled_pools(pools@)
            &&& forall|k: int|
                0 <= k < pools@.len() && (#[trigger] pools@[k]).addresses@.len() > 0 ==> {
                    let entry = changes.account_address_pools@[filled_pools(pools@.take(k))];
                    &&& entry.registration_index == run.flows[0].identity_index
                    &&& entry.pool_type == pools@[k].pool_type
                    &&& entry.addresses == pools@[k].addresses
                }
        },
{
    assert(run.follows(i - 1));
    lemma_run_identity(run, i - 1);
    let index = run.flows[0].identity_index;
    let pools = run.events[i - 1]->pools;
    law_as_many_entries_as_filled_pools(index, pools@);
    assert forall|k: int| 0 <= k < pools@.len() && (#[trigger] pools@[k]).addresses@.len()
        > 0 implies {
        let entry = run.actions[i]->Store_0.account_address_pools@[filled_pools(pools@.take(k))];
        &&& entry.registration_index == index
        &&& entry.pool_type == pools@[k].pool_type
        &&& entry.addresses == pools@[k].addresses
    } by {
        law_every_pool_with_an_address_is_recorded(index, pools@, k);
    }
}

/// An attempt is for the identity that it was begun for, and a side counts as
/// added by it exactly where that side was missing.
pub proof fn law_attempt_is_for_its_identity<P, X, K, A>(
    identity_index: u32,
    has_xpub_side: bool,
    has_managed_side: bool,
    external_signable: bool,
    flow: TopUpFlow,
    action: TopUpAction<P, X, K, A>,
)
    requires
        TopUpFlow::is_start(
            identity_index,
            has_xpub_side,
            has_managed_side,
            external_signable,
            flow,
            action,
        ),
    ensures
        flow.identity_index == identity_index,
        flow.created_xpub_side <==> !has_xpub_side,
        flow.created_managed_side <==> !has_managed_side,
        !has_xpub_side && external_signable ==> action is ComputePath,
        !has_xpub_side && !external_signable ==> action is AddLocally,
        has_xpub_side && !has_managed_side ==> action is AddManaged,
        has_xpub_side && has_managed_side ==> (action matches TopUpAction::Finish(Ok(_))),
{
}

/// How an attempt begins. Where the wallet's side is missing, it is derived
/// through the signer exactly where the wallet holds no root key of its own.
/// Where it is there, the managed side is added if that is missing.
pub proof fn law_missing_side_comes_first<P, X, K, A>(run: TopUpRun<P, X, K, A>)
    requires
        run.valid(),
    ensures
        !run.initial.xpub_side && run.external_signable ==> run.actions[0] is ComputePath,
        !run.initial.xpub_side && !run.external_signable ==> run.actions[0] is AddLocally,
        run.initial.xpub_side && !run.initial.managed_side ==> run.actions[0] is AddManaged,
        run.initial.xpub_side && run.initial.managed_side ==> (
        run.actions[0] matches TopUpAction::Finish(Ok(_))),
{
}

/// What a successful answer leads to. The signer is asked at the path that was
/// computed, and the account is added with the key that it derived. The
/// managed side is added next if it was missing at the start, and then both
/// are read and stored.
pub proof fn law_what_success_leads_to<P, X, K, A>(run: TopUpRun<P, X, K, A>, i: int)
    requires
        run.valid(),
        0 < i < run.actions.len(),
    ensures
        run.events[i - 1] matches TopUpEvent::PathComputed(Ok(path)) ==> {
            &&& run.actions[i] matches TopUpAction::AskSigner { path: asked }
            &&& asked == path
        },
        run.events[i - 1] matches TopUpEvent::XpubDerived(Ok(derived)) ==> {
            &&& run.actions[i] matches TopUpAction::AddXpub { account_xpub }
            &&& account_xpub == derived
        },
        (run.events[i - 1] matches TopUpEvent::AddedLocally(Ok(_)))
            || (run.events[i - 1] matches TopUpEvent::XpubAdded(Ok(_))) ==> {
            &&& !run.initial.managed_side ==> run.actions[i] is AddManaged
            &&& run.initial.managed_side ==> run.actions[i] is Read
        },
        run.events[i - 1] matches TopUpEvent::ManagedAdded(Ok(_)) ==> run.actions[i] is Read,
        run.events[i - 1] matches TopUpEvent::Read { account_xpub: Some(_), .. }
            ==> run.actions[i] is Store,
        run.events[i - 1] matches TopUpEvent::Stored(Ok(_)) ==> (
        run.actions[i] matches TopUpAction::Finish(Ok(_))),
{
    assert(run.follows(i - 1));
    lemma_run_matches_world(run, i - 1);
}

/// A store that fails takes out exactly the sides that were missing at the
/// start, and is returned as a failure to persist, with its reason.
pub proof fn law_failed_store_takes_out_what_was_added<P, X, K, A>(
    run: TopUpRun<P, X, K, A>,
    i: int,
)
    requires
        run.valid(),
        0 < i < run.actions.len(),
        run.events[i - 1] matches TopUpEvent::Stored(Err(_)),
    ensures
        run.actions[i] is RollBack,
        run.actions[i]->remove_xpub_side == !run.initial.xpub_side,
        run.actions[i]->remove_managed_side == !run.initial.managed_side,
        run.actions[i]->error matches PlatformWalletError::Persistence(text) && text@
            == "Failed to persist identity top-up account registration for index "@ + decimal(
            run.flows[0].identity_index as nat,
        ) + ": "@ + run.events[i - 1]->Stored_0->Err_0@,
{
    assert(run.follows(i - 1));
    lemma_run_identity(run, i - 1);
}

/// Any other failure ends the attempt with an error that names what failed,
/// the identity of the run and the reason.
pub proof fn law_failures_name_the_identity_and_the_reason<P, X, K, A>(
    run: TopUpRun<P, X, K, A>,
    i: int,
)
    requires
        run.valid(),
        0 < i < run.actions.len(),
    ensures
        run.events[i - 1] matches TopUpEvent::AddedLocally(Err(why)) ==> {
            &&& run.actions[i] matches TopUpAction::Finish(Err(
                PlatformWalletError::AssetLockTransaction(text),
            ))
            &&& text@ == "Failed to derive identity top-up account for index "@ + decimal(
                run.flows[0].identity_index as nat,
            ) + ": "@ + why@
        },
        run.events[i - 1] matches TopUpEvent::PathComputed(Err(why)) ==> {
            &&& run.actions[i] matches TopUpAction::Finish(Err(
                PlatformWalletError::AssetLockTransaction(text),
            ))
            &&& text@ == "Failed to compute identity top-up derivation path for index "@ + decimal(
                run.flows[0].identity_index as nat,
            ) + ": "@ + why@
        },
        run.events[i - 1] matches TopUpEvent::XpubDerived(Err(why)) ==> {
            &&& run.actions[i] matches TopUpAction::Finish(Err(
                PlatformWalletError::AssetLockTransaction(text),
            ))
            &&& text@ == "Failed to derive identity top-up account xpub for index "@ + decimal(
                run.flows[0].identity_index as nat,
            ) + " via signer: "@ + why@
        },
        run.events[i - 1] matches TopUpEvent::XpubAdded(Err(why)) ==> {
            &&& run.actions[i] matches TopUpAction::Finish(Err(
                PlatformWalletError::AssetLockTransaction(text),
            ))
            &&& text@ == "Failed to add identity top-up account for index "@ + decimal(
                run.flows[0].identity_index as nat,
            ) + ": "@ + why@
        },
        run.events[i - 1] matches TopUpEvent::ManagedAdded(Err(why)) ==> {
            &&& run.actions[i] matches TopUpAction::Finish(Err(
                PlatformWalletError::AssetLockTransaction(text),
            ))
            &&& text@ == "Failed to register managed identity top-up account for index "@ + decimal(
                run.flows[0].identity_index as nat,
            ) + ": "@ + why@
        },
        run.events[i - 1] matches TopUpEvent::Read { account_xpub: None, .. } ==> {
            &&& run.actions[i] matches TopUpAction::Finish(Err(
                PlatformWalletError::AssetLockTransaction(text),
            ))
            &&& text@ == "Identity top-up account for index "@ + decimal(
                run.flows[0].identity_index as nat,
            ) + " missing after insert"@
        },
{
    assert(run.follows(i - 1));
    lemma_run_identity(run, i - 1);
}

/// After each action the flow waits for the answer to it, and for nothing
/// else; after the last one it waits for nothing.
pub proof fn law_each_topup_action_waits_for_its_own_answer<P, X, K, A>(
    run: TopUpRun<P, X, K, A>,
    i: int,
    event: TopUpEvent<P, X, K, A>,
)
    requires
        run.valid(),
        0 <= i < run.actions.len(),
    ensures
        run.flows[i].expects(&event) <==> match run.actions[i] {
            TopUpAction::AddLocally => event is AddedLocally,
            TopUpAction::ComputePath => event is PathComputed,
            TopUpAction::AskSigner { .. } => event is XpubDerived,
            TopUpAction::AddXpub { .. } => event is XpubAdded,
            TopUpAction::AddManaged => event is ManagedAdded,
            TopUpAction::Read => event is Read,
            TopUpAction::Store(_) => event is Stored,
            TopUpAction::RollBack { .. } => false,
            TopUpAction::Finish(_) => false,
        },
{
    if i > 0 {
        assert(run.follows(i - 1));
    }
}

/// The changes that the function itself makes: one registration, with the index
/// and the key that were given, and an entry for every pool that holds an
/// address, however many, with its type and exactly its addresses, in order.
pub proof fn law_changes_record_the_account_and_its_pools<X, K, A>(
    registration_index: u32,
    account_xpub: X,
    pools: Vec<AddressPool<K, A>>,
    changes: TopUpChangeSet<X, K, A>,
)
    requires
        call_ensures(
            registration_changeset::<X, K, A>,
            (registration_index, account_xpub, pools),
            changes,
        ),
    ensures
        changes.account_registrations@.len() == 1,
        changes.account_registrations@[0].registration_index == registration_index,
        changes.account_registrations@[0].account_xpub == account_xpub,
        changes.account_address_pools@.len() == filled_pools(pools@),
        forall|k: int|
            0 <= k < pools@.len() && (#[trigger] pools@[k]).addresses@.len() > 0 ==> {
                let e = filled_pools(pools@.take(k));
                &&& 0 <= e < changes.account_address_pools@.len()
                &&& changes.account_address_pools@[e].registration_index == registration_index
                &&& changes.account_address_pools@[e].pool_type == pools@[k].pool_type
                &&& changes.account_address_pools@[e].addresses == pools@[k].addresses
            },
{
    law_as_many_entries_as_filled_pools(registration_index, pools@);
    assert forall|k: int| 0 <= k < pools@.len() && (#[trigger] pools@[k]).addresses@.len()
        > 0 implies {
        let e = filled_pools(pools@.take(k));
        &&& 0 <= e < changes.account_address_pools@.len()
        &&& changes.account_address_pools@[e].registration_index == registration_index
        &&& changes.account_address_pools@[e].pool_type == pools@[k].pool_type
        &&& changes.account_address_pools@[e].addresses == pools@[k].addresses
    } by {
        law_every_pool_with_an_address_is_recorded(registration_index, pools@, k);
    }
}

/// The flow itself begins and steps as the runs of the laws above do, and
/// accepts what they wait for.
pub proof fn law_topup_flow_makes_runs<P, X, K, A>(
    identity_index: u32,
    has_xpub_side: bool,
    has_managed_side: bool,
    external_signable: bool,
    begun: (TopUpFlow, TopUpAction<P, X, K, A>),
    flow: TopUpFlow,
    event: TopUpEvent<P, X, K, A>,
    accepted: bool,
    next: (TopUpFlow, TopUpAction<P, X, K, A>),
)
    requires
        call_ensures(
            TopUpFlow::start::<P, X, K, A>,
            (identity_index, has_xpub_side, has_managed_side, external_signable),
            begun,
        ),
        call_ensures(TopUpFlow::accepts::<P, X, K, A>, (&flow, &event), accepted),
        call_ensures(TopUpFlow::step::<P, X, K, A>, (flow, event), next),
    ensures
        TopUpFlow::is_start(
            identity_index,
            has_xpub_side,
            has_managed_side,
            external_signable,
            begun.0,
            begun.1,
        ),
        begun.0.identity_index == identity_index,
        accepted <==> flow.expects(&event),
        TopUpFlow::is_step(flow, event, next.0, next.1),
        next.0.identity_index == flow.identity_index,
{
}

} // verus!
