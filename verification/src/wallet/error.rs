//! Errors of the wallet.

use vstd::prelude::*;
use vstd::std_specs::convert::FromSpecImpl;

verus! {

/// What a wallet operation fails with.
#[derive(Debug)]
pub enum PlatformWalletError {
    /// The wallet with this id, in hexadecimal, is not managed.
    WalletNotFound(String),
    /// An asset-lock transaction could not be built.
    AssetLockTransaction(String),
    /// The spendable coins do not cover an asset lock, with the exact amounts.
    AssetLockInsufficientFunds { available: u64, required: u64 },
    /// A change could not be stored.
    Persistence(String),
    /// The network definitively did not take the transaction.
    TransactionBroadcast(String),
    /// The network may or may not have taken the transaction.
    TransactionBroadcastUnconfirmed(String),
    /// A failure of a collaborator, handed on as it came.
    Other(String),
}

/// A wallet error with its text as characters.
pub enum ErrorView {
    WalletNotFound(Seq<char>),
    AssetLockTransaction(Seq<char>),
    AssetLockInsufficientFunds { available: u64, required: u64 },
    Persistence(Seq<char>),
    TransactionBroadcast(Seq<char>),
    TransactionBroadcastUnconfirmed(Seq<char>),
    Other(Seq<char>),
}

impl View for PlatformWalletError {
    type V = ErrorView;

    open spec fn view(&self) -> ErrorView {
        match self {
            PlatformWalletError::WalletNotFound(text) => ErrorView::WalletNotFound(text@),
            PlatformWalletError::AssetLockTransaction(text) => ErrorView::AssetLockTransaction(
                text@,
            ),
            PlatformWalletError::AssetLockInsufficientFunds { available, required } => {
                ErrorView::AssetLockInsufficientFunds { available: *available, required: *required }
            },
            PlatformWalletError::Persistence(text) => ErrorView::Persistence(text@),
            PlatformWalletError::TransactionBroadcast(text) => ErrorView::TransactionBroadcast(
                text@,
            ),
            PlatformWalletError::TransactionBroadcastUnconfirmed(text) => {
                ErrorView::TransactionBroadcastUnconfirmed(text@)
            },
            PlatformWalletError::Other(text) => ErrorView::Other(text@),
        }
    }
}

/// How a broadcast failed.
#[derive(Debug)]
pub enum BroadcastError {
    /// The transaction was refused before it was sent.
    Rejected { reason: String },
    /// The transaction may already be propagating.
    MaybeSent { reason: String },
}

impl From<BroadcastError> for PlatformWalletError {
    fn from(error: BroadcastError) -> (converted: PlatformWalletError) {
        match error {
            BroadcastError::Rejected { reason } => PlatformWalletError::TransactionBroadcast(
                reason,
            ),
            BroadcastError::MaybeSent { reason } => {
                PlatformWalletError::TransactionBroadcastUnconfirmed(reason)
            },
        }
    }
}

impl FromSpecImpl<BroadcastError> for PlatformWalletError {
    open spec fn obeys_from_spec() -> bool {
        true
    }

    open spec fn from_spec(error: BroadcastError) -> PlatformWalletError {
        match error {
            BroadcastError::Rejected { reason } => PlatformWalletError::TransactionBroadcast(
                reason,
            ),
            BroadcastError::MaybeSent { reason } => {
                PlatformWalletError::TransactionBroadcastUnconfirmed(reason)
            },
        }
    }
}

/// The view of an error keeps its kind, its text and its amounts: each in its
/// own place.
pub proof fn law_error_view_keeps_everything(error: PlatformWalletError)
    ensures
        error matches PlatformWalletError::WalletNotFound(text) ==> (
        error@ matches ErrorView::WalletNotFound(t) && t == text@),
        error matches PlatformWalletError::AssetLockTransaction(text) ==> (
        error@ matches ErrorView::AssetLockTransaction(t) && t == text@),
        error matches PlatformWalletError::AssetLockInsufficientFunds { available, required } ==> (
        error@ matches ErrorView::AssetLockInsufficientFunds { available: a, required: r } && a
            == available && r == required),
        error matches PlatformWalletError::Persistence(text) ==> (
        error@ matches ErrorView::Persistence(t) && t == text@),
        error matches PlatformWalletError::TransactionBroadcast(text) ==> (
        error@ matches ErrorView::TransactionBroadcast(t) && t == text@),
        error matches PlatformWalletError::TransactionBroadcastUnconfirmed(text) ==> (
        error@ matches ErrorView::TransactionBroadcastUnconfirmed(t) && t == text@),
        error matches PlatformWalletError::Other(text) ==> (error@ matches ErrorView::Other(t) && t
            == text@),
{
}

/// A definitive rejection and an ambiguous failure stay apart, and each keeps
/// its reason.
pub proof fn law_broadcast_failures_stay_apart(failure: BroadcastError)
    ensures
        failure matches BroadcastError::Rejected { reason } ==> {
            &&& <PlatformWalletError as vstd::std_specs::convert::FromSpec<BroadcastError>>::from_spec(
                failure,
            ) matches PlatformWalletError::TransactionBroadcast(text)
            &&& text == reason
        },
        failure matches BroadcastError::MaybeSent { reason } ==> {
            &&& <PlatformWalletError as vstd::std_specs::convert::FromSpec<BroadcastError>>::from_spec(
                failure,
            ) matches PlatformWalletError::TransactionBroadcastUnconfirmed(text)
            &&& text == reason
        },
{
}

} // verus!
