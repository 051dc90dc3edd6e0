//! The accounts whose one-time keys own the credit output of an asset lock.

use std::collections::BTreeMap;

use vstd::prelude::*;

use crate::wallet::error::{ErrorView, PlatformWalletError};
use crate::wallet::text::{decimal, joined_text, numbered_text};
use crate::wallet::types::Address;

verus! {

/// What an asset lock is for, which says which account its one-time key is
/// derived from.
#[derive(Clone, Copy, Debug, PartialEq, Eq, Structural)]
pub enum AssetLockFundingType {
    IdentityRegistration,
    IdentityTopUp,
    IdentityTopUpNotBound,
    IdentityInvitation,
    AssetLockAddressTopUp,
    AssetLockShieldedAddressTopUp,
}

/// The special-purpose accounts of a wallet. There is at most one of each
/// kind, except for identity top-ups: there is one per identity, by its
/// registration index.
pub struct SpecialAccounts<A> {
    pub identity_registration: Option<A>,
    pub identity_topup: BTreeMap<u32, A>,
    pub identity_topup_not_bound: Option<A>,
    pub identity_invitation: Option<A>,
    pub asset_lock_address_topup: Option<A>,
    pub asset_lock_shielded_address_topup: Option<A>,
}

impl<A> SpecialAccounts<A> {
    /// The account that `funding_type` draws its keys from. The index matters
    /// for identity top-ups only.
    pub open spec fn account(
        &self,
        funding_type: AssetLockFundingType,
        identity_index: u32,
    ) -> Option<A> {
        match funding_type {
            AssetLockFundingType::IdentityRegistration => self.identity_registration,
            AssetLockFundingType::IdentityTopUp => if self.identity_topup@.contains_key(
                identity_index,
            ) {
                Some(self.identity_topup@[identity_index])
            } else {
                None
            },
            AssetLockFundingType::IdentityTopUpNotBound => self.identity_topup_not_bound,
            AssetLockFundingType::IdentityInvitation => self.identity_invitation,
            AssetLockFundingType::AssetLockAddressTopUp => self.asset_lock_address_topup,
            AssetLockFundingType::AssetLockShieldedAddressTopUp => {
                self.asset_lock_shielded_address_topup
            },
        }
    }

    /// The account that `funding_type` draws its keys from, if the wallet has
    /// it.
    pub fn get(&self, funding_type: AssetLockFundingType, identity_index: u32) -> (found: Option<
        &A,
    >)
        ensures
            found is Some <==> self.account(funding_type, identity_index) is Some,
            found matches Some(a) ==> *a == self.account(funding_type, identity_index)->0,
            funding_type == AssetLockFundingType::IdentityTopUp ==> {
                &&& found is Some <==> self.identity_topup@.contains_key(identity_index)
                &&& found matches Some(a) ==> *a == self.identity_topup@[identity_index]
            },
    {
        broadcast use vstd::laws_cmp::group_laws_cmp;
        broadcast use vstd::std_specs::btree::group_btree_axioms;

        match funding_type {
            AssetLockFundingType::IdentityRegistration => self.identity_registration.as_ref(),
            AssetLockFundingType::IdentityTopUp => self.identity_topup.get(&identity_index),
            AssetLockFundingType::IdentityTopUpNotBound => self.identity_topup_not_bound.as_ref(),
            AssetLockFundingType::IdentityInvitation => self.identity_invitation.as_ref(),
            AssetLockFundingType::AssetLockAddressTopUp => self.asset_lock_address_topup.as_ref(),
            AssetLockFundingType::AssetLockShieldedAddressTopUp => {
                self.asset_lock_shielded_address_topup.as_ref()
            },
        }
    }
}

/// What is said of a missing funding account.
pub open spec fn missing_account_text(
    funding_type: AssetLockFundingType,
    identity_index: u32,
) -> Seq<char> {
    match funding_type {
        AssetLockFundingType::IdentityRegistration => "Identity registration account not found"@,
        AssetLockFundingType::IdentityTopUp => "Identity top-up account for index "@ + decimal(
            identity_index as nat,
        ) + " not found"@,
        AssetLockFundingType::IdentityTopUpNotBound => {
            "Identity top-up (unbound) account not found"@
        },
        AssetLockFundingType::IdentityInvitation => "Identity invitation account not found"@,
        AssetLockFundingType::AssetLockAddressTopUp => {
            "Asset lock address top-up account not found"@
        },
        AssetLockFundingType::AssetLockShieldedAddressTopUp => {
            "Asset lock shielded address top-up account not found"@
        },
    }
}

/// The error for a missing funding account.
pub fn missing_account_error(
    funding_type: AssetLockFundingType,
    identity_index: u32,
) -> (error: PlatformWalletError)
    ensures
        error@ == ErrorView::AssetLockTransaction(
            missing_account_text(funding_type, identity_index),
        ),
{
    let text: String = match funding_type {
        AssetLockFundingType::IdentityRegistration => {
            "Identity registration account not found".to_string()
        },
        AssetLockFundingType::IdentityTopUp => {
            numbered_text("Identity top-up account for index ", identity_index, " not found")
        },
        AssetLockFundingType::IdentityTopUpNotBound => {
            "Identity top-up (unbound) account not found".to_string()
        },
        AssetLockFundingType::IdentityInvitation => {
            "Identity invitation account not found".to_string()
        },
        AssetLockFundingType::AssetLockAddressTopUp => {
            "Asset lock address top-up account not found".to_string()
        },
        AssetLockFundingType::AssetLockShieldedAddressTopUp => {
            "Asset lock shielded address top-up account not found".to_string()
        },
    };
    PlatformWalletError::AssetLockTransaction(text)
}

/// `outcome` is the managed account that a funding type draws its keys from,
/// with the extended public key of that account if the wallet has it, or the
/// error for a missing account.
pub open spec fn is_funding_outcome<X, M>(
    wallet: SpecialAccounts<X>,
    managed: SpecialAccounts<M>,
    funding_type: AssetLockFundingType,
    identity_index: u32,
    outcome: Result<(M, Option<X>), ErrorView>,
) -> bool {
    match managed.account(funding_type, identity_index) {
        Some(account) => outcome == Ok::<(M, Option<X>), ErrorView>(
            (account, wallet.account(funding_type, identity_index)),
        ),
        None => outcome == Err::<(M, Option<X>), ErrorView>(
            ErrorView::AssetLockTransaction(missing_account_text(funding_type, identity_index)),
        ),
    }
}

/// What an outcome with references holds, as values.
pub open spec fn funding_outcome_value<X, M>(
    outcome: Result<(&M, Option<&X>), PlatformWalletError>,
) -> Result<(M, Option<X>), ErrorView> {
    match outcome {
        Ok((account, Some(xpub))) => Ok((*account, Some(*xpub))),
        Ok((account, None)) => Ok((*account, None)),
        Err(error) => Err(error@),
    }
}

/// The managed account to take the next funding address from, and the
/// extended public key to derive it with, if the wallet has one. Fails where
/// there is no such managed account.
pub fn funding_account<'a, X, M>(
    wallet: &'a SpecialAccounts<X>,
    managed: &'a SpecialAccounts<M>,
    funding_type: AssetLockFundingType,
    identity_index: u32,
) -> (outcome: Result<(&'a M, Option<&'a X>), PlatformWalletError>)
    ensures
        match managed.account(funding_type, identity_index) {
            Some(account) => {
                &&& outcome is Ok
                &&& *outcome->Ok_0.0 == account
                &&& match wallet.account(funding_type, identity_index) {
                    Some(xpub) => outcome->Ok_0.1 is Some && *outcome->Ok_0.1->0 == xpub,
                    None => outcome->Ok_0.1 is None,
                }
            },
            None => outcome is Err && outcome->Err_0@ == ErrorView::AssetLockTransaction(
                missing_account_text(funding_type, identity_index),
            ),
        },
        is_funding_outcome(
            *wallet,
            *managed,
            funding_type,
            identity_index,
            funding_outcome_value(outcome),
        ),
        funding_type == AssetLockFundingType::IdentityTopUp ==> {
            &&& outcome is Ok <==> managed.identity_topup@.contains_key(identity_index)
            &&& outcome matches Ok((account, xpub)) ==> {
                &&& *account == managed.identity_topup@[identity_index]
                &&& xpub is Some <==> wallet.identity_topup@.contains_key(identity_index)
                &&& xpub matches Some(x) ==> *x == wallet.identity_topup@[identity_index]
            }
        },
{
    let xpub: Option<&'a X> = wallet.get(funding_type, identity_index);
    match managed.get(funding_type, identity_index) {
        Some(account) => Ok((account, xpub)),
        None => Err(missing_account_error(funding_type, identity_index)),
    }
}

/// The next unused address of a funding account, from what its address pool
/// answered.
pub fn next_funding_address(answer: Result<Address, String>) -> (outcome: Result<
    Address,
    PlatformWalletError,
>)
    ensures
        match answer {
            Ok(address) => outcome == Ok::<Address, PlatformWalletError>(address),
            Err(text) => outcome is Err && outcome->Err_0@ == ErrorView::AssetLockTransaction(
                "Failed to get next funding address: "@ + text@,
            ),
        },
{
    match answer {
        Ok(address) => Ok(address),
        Err(text) => Err(
            PlatformWalletError::AssetLockTransaction(
                joined_text("Failed to get next funding address: ", text.as_str()),
            ),
        ),
    }
}

/// Each funding type draws its keys from an account of its own: a top-up from
/// the account that is kept under the identity's index, index zero included,
/// and any other type from the one account of its kind, whatever the index.
pub proof fn law_each_funding_type_has_its_own_account<A>(
    accounts: SpecialAccounts<A>,
    identity_index: u32,
)
    ensures
        accounts.account(AssetLockFundingType::IdentityTopUp, identity_index) is Some
            <==> accounts.identity_topup@.contains_key(identity_index),
        accounts.identity_topup@.contains_key(identity_index) ==> accounts.account(
            AssetLockFundingType::IdentityTopUp,
            identity_index,
        ) == Some(accounts.identity_topup@[identity_index]),
        accounts.account(AssetLockFundingType::IdentityRegistration, identity_index)
            == accounts.identity_registration,
        accounts.account(AssetLockFundingType::IdentityTopUpNotBound, identity_index)
            == accounts.identity_topup_not_bound,
        accounts.account(AssetLockFundingType::IdentityInvitation, identity_index)
            == accounts.identity_invitation,
        accounts.account(AssetLockFundingType::AssetLockAddressTopUp, identity_index)
            == accounts.asset_lock_address_topup,
        accounts.account(AssetLockFundingType::AssetLockShieldedAddressTopUp, identity_index)
            == accounts.asset_lock_shielded_address_topup,
{
}

/// A top-up takes the account, and the key, that are kept under the identity's
/// index, and fails exactly where no account is kept there.
pub proof fn law_topup_draws_on_the_account_of_its_identity<X, M>(
    wallet: SpecialAccounts<X>,
    managed: SpecialAccounts<M>,
    identity_index: u32,
    outcome: Result<(M, Option<X>), ErrorView>,
)
    requires
        is_funding_outcome(
            wallet,
            managed,
            AssetLockFundingType::IdentityTopUp,
            identity_index,
            outcome,
        ),
    ensures
        outcome is Ok <==> managed.identity_topup@.contains_key(identity_index),
        outcome matches Ok((account, xpub)) ==> {
            &&& account == managed.identity_topup@[identity_index]
            &&& xpub is Some <==> wallet.identity_topup@.contains_key(identity_index)
            &&& xpub matches Some(x) ==> x == wallet.identity_topup@[identity_index]
        },
        outcome matches Err(error) ==> {
            &&& error matches ErrorView::AssetLockTransaction(text)
            &&& text == "Identity top-up account for index "@ + decimal(identity_index as nat)
                + " not found"@
        },
{
}

/// Any other funding type takes the one account of its kind, with its key if
/// the wallet has it, and fails exactly where there is none. The identity's
/// index does not matter.
pub proof fn law_other_types_draw_on_the_account_of_their_kind<X, M>(
    wallet: SpecialAccounts<X>,
    managed: SpecialAccounts<M>,
    funding_type: AssetLockFundingType,
    identity_index: u32,
    outcome: Result<(M, Option<X>), ErrorView>,
)
    requires
        is_funding_outcome(wallet, managed, funding_type, identity_index, outcome),
    ensures
        funding_type == AssetLockFundingType::IdentityRegistration ==> {
            &&& outcome is Ok <==> managed.identity_registration is Some
            &&& outcome matches Ok((account, xpub)) ==> {
                &&& account == managed.identity_registration->0
                &&& xpub == wallet.identity_registration
            }
            &&& outcome matches Err(error) ==> error == ErrorView::AssetLockTransaction(
                "Identity registration account not found"@,
            )
        },
        funding_type == AssetLockFundingType::IdentityTopUpNotBound ==> {
            &&& outcome is Ok <==> managed.identity_topup_not_bound is Some
            &&& outcome matches Ok((account, xpub)) ==> {
                &&& account == managed.identity_topup_not_bound->0
                &&& xpub == wallet.identity_topup_not_bound
            }
            &&& outcome matches Err(error) ==> error == ErrorView::AssetLockTransaction(
                "Identity top-up (unbound) account not found"@,
            )
        },
        funding_type == AssetLockFundingType::IdentityInvitation ==> {
            &&& outcome is Ok <==> managed.identity_invitation is Some
            &&& outcome matches Ok((account, xpub)) ==> {
                &&& account == managed.identity_invitation->0
                &&& xpub == wallet.identity_invitation
            }
            &&& outcome matches Err(error) ==> error == ErrorView::AssetLockTransaction(
                "Identity invitation account not found"@,
            )
        },
        funding_type == AssetLockFundingType::AssetLockAddressTopUp ==> {
            &&& outcome is Ok <==> managed.asset_lock_address_topup is Some
            &&& outcome matches Ok((account, xpub)) ==> {
                &&& account == managed.asset_lock_address_topup->0
                &&& xpub == wallet.asset_lock_address_topup
            }
            &&& outcome matches Err(error) ==> error == ErrorView::AssetLockTransaction(
                "Asset lock address top-up account not found"@,
            )
        },
        funding_type == AssetLockFundingType::AssetLockShieldedAddressTopUp ==> {
            &&& outcome is Ok <==> managed.asset_lock_shielded_address_topup is Some
            &&& outcome matches Ok((account, xpub)) ==> {
                &&& account == managed.asset_lock_shielded_address_topup->0
                &&& xpub == wallet.asset_lock_shielded_address_topup
            }
            &&& outcome matches Err(error) ==> error == ErrorView::AssetLockTransaction(
                "Asset lock shielded address top-up account not found"@,
            )
        },
{
}

/// The account that the lookup itself finds for a funding type: a top-up has it
/// under its index, and each other type in the one place for it.
pub proof fn law_lookup_finds_the_account_of_the_type<A>(
    accounts: SpecialAccounts<A>,
    funding_type: AssetLockFundingType,
    identity_index: u32,
    found: Option<&A>,
)
    requires
        call_ensures(
            SpecialAccounts::<A>::get,
            (&accounts, funding_type, identity_index),
            found,
        ),
    ensures
        funding_type == AssetLockFundingType::IdentityTopUp ==> {
            &&& found is Some <==> accounts.identity_topup@.contains_key(identity_index)
            &&& found matches Some(a) ==> *a == accounts.identity_topup@[identity_index]
        },
        funding_type == AssetLockFundingType::IdentityRegistration ==> {
            &&& found is Some <==> accounts.identity_registration is Some
            &&& found matches Some(a) ==> *a == accounts.identity_registration->0
        },
        funding_type == AssetLockFundingType::IdentityTopUpNotBound ==> {
            &&& found is Some <==> accounts.identity_topup_not_bound is Some
            &&& found matches Some(a) ==> *a == accounts.identity_topup_not_bound->0
        },
        funding_type == AssetLockFundingType::IdentityInvitation ==> {
            &&& found is Some <==> accounts.identity_invitation is Some
            &&& found matches Some(a) ==> *a == accounts.identity_invitation->0
        },
        funding_type == AssetLockFundingType::AssetLockAddressTopUp ==> {
            &&& found is Some <==> accounts.asset_lock_address_topup is Some
            &&& found matches Some(a) ==> *a == accounts.asset_lock_address_topup->0
        },
        funding_type == AssetLockFundingType::AssetLockShieldedAddressTopUp ==> {
            &&& found is Some <==> accounts.asset_lock_shielded_address_topup is Some
            &&& found matches Some(a) ==> *a == accounts.asset_lock_shielded_address_topup->0
        },
{
}

/// The outcome that the choice of a funding account itself gives is one of the
/// outcomes that the laws above speak of.
pub proof fn law_funding_account_gives_a_funding_outcome<X, M>(
    wallet: SpecialAccounts<X>,
    managed: SpecialAccounts<M>,
    funding_type: AssetLockFundingType,
    identity_index: u32,
    outcome: Result<(&M, Option<&X>), PlatformWalletError>,
)
    requires
        call_ensures(
            funding_account::<X, M>,
            (&wallet, &managed, funding_type, identity_index),
            outcome,
        ),
    ensures
        is_funding_outcome(
            wallet,
            managed,
            funding_type,
            identity_index,
            funding_outcome_value(outcome),
        ),
        funding_type == AssetLockFundingType::IdentityTopUp ==> {
            &&& outcome is Ok <==> managed.identity_topup@.contains_key(identity_index)
            &&& outcome matches Ok((account, xpub)) ==> {
                &&& *account == managed.identity_topup@[identity_index]
                &&& xpub is Some <==> wallet.identity_topup@.contains_key(identity_index)
                &&& xpub matches Some(x) ==> *x == wallet.identity_topup@[identity_index]
            }
        },
{
}

/// The address that a pool answers is taken as it is, and a failure of the pool
/// is told with its reason.
pub proof fn law_next_address_is_that_of_the_pool(
    answer: Result<Address, String>,
    outcome: Result<Address, PlatformWalletError>,
)
    requires
        call_ensures(next_funding_address, (answer,), outcome),
    ensures
        answer matches Ok(address) ==> (outcome matches Ok(taken) && taken == address),
        answer matches Err(why) ==> {
            &&& outcome matches Err(PlatformWalletError::AssetLockTransaction(text))
            &&& text@ == "Failed to get next funding address: "@ + why@
        },
{
}

} // verus!
