use std::collections::BTreeMap;

use dash_platform::wallet::asset_lock::accounts::{
    funding_account, missing_account_error, next_funding_address, AssetLockFundingType,
    SpecialAccounts,
};
use dash_platform::wallet::asset_lock::builder::{
    credit_output_path, map_builder_error, plan_union_build, AssetLockCreditKeys, BuilderFailure,
    CreditKeyAction, CreditKeyEvent, CreditKeyFlow, CreditOutputFunding, SelectionStrategy, TxOut,
    UnionAction, UnionEvent, UnionFlow, UnionPhase,
};
use dash_platform::wallet::asset_lock::inputs::{
    coins_can_be_counted, gather_inputs, FundingAccount, PathResolver, SpendableUtxo,
};
use dash_platform::wallet::asset_lock::lifecycle::{
    AssetLockProof, AssetLockStatus, BuiltTransaction, LockAction, LockEvent, LockFlow,
    LockRequest, ProvenLock,
};
use dash_platform::wallet::asset_lock::topup::{
    registration_changeset, AddressPool, TopUpAction, TopUpEvent, TopUpFlow,
};
use dash_platform::wallet::asset_lock::transaction::{
    BuildAction, BuildEvent, BuildFlow, BuildRequest,
};
use dash_platform::wallet::broadcaster::{AlwaysMaybeSentBroadcaster, AlwaysRejectedBroadcaster};
use dash_platform::wallet::error::{BroadcastError, PlatformWalletError};
use dash_platform::wallet::fixtures::seeded_utxo;
use dash_platform::wallet::signer::PublicKey;
use dash_platform::wallet::types::{Address, DerivationPath, OutPoint, Txid};

fn outpoint(fill: u8) -> OutPoint {
    OutPoint { txid: Txid { bytes: [fill; 32] }, vout: 0 }
}

fn coin(fill: u8, value: u64, path: Option<Vec<u32>>) -> SpendableUtxo {
    SpendableUtxo {
        utxo: seeded_utxo(outpoint(fill), value, Address { bytes: vec![fill] }, vec![]),
        path: path.map(|children| DerivationPath { children }),
    }
}

fn account(bip44_index: Option<u32>, spendable: Vec<SpendableUtxo>) -> FundingAccount {
    FundingAccount { bip44_index, spendable }
}

fn text_of(error: &PlatformWalletError) -> &str {
    match error {
        PlatformWalletError::AssetLockTransaction(text) => text,
        other => panic!("expected an asset-lock error, got {other:?}"),
    }
}

fn resolved(paths: &PathResolver, fill: u8) -> Option<Vec<u32>> {
    paths.resolve(&Address { bytes: vec![fill] }).map(|path| path.children)
}

// -- funding accounts --

fn special(value: u8) -> SpecialAccounts<u8> {
    SpecialAccounts {
        identity_registration: Some(value),
        identity_topup: BTreeMap::from([(3, value + 1), (7, value + 2)]),
        identity_topup_not_bound: Some(value + 3),
        identity_invitation: Some(value + 4),
        asset_lock_address_topup: Some(value + 5),
        asset_lock_shielded_address_topup: Some(value + 6),
    }
}

fn no_accounts() -> SpecialAccounts<u8> {
    SpecialAccounts {
        identity_registration: None,
        identity_topup: BTreeMap::new(),
        identity_topup_not_bound: None,
        identity_invitation: None,
        asset_lock_address_topup: None,
        asset_lock_shielded_address_topup: None,
    }
}

const ALL_TYPES: [AssetLockFundingType; 6] = [
    AssetLockFundingType::IdentityRegistration,
    AssetLockFundingType::IdentityTopUp,
    AssetLockFundingType::IdentityTopUpNotBound,
    AssetLockFundingType::IdentityInvitation,
    AssetLockFundingType::AssetLockAddressTopUp,
    AssetLockFundingType::AssetLockShieldedAddressTopUp,
];

#[test]
fn each_funding_type_has_its_own_account() {
    let wallet = special(100);
    let managed = special(10);
    let found: Vec<(u8, Option<u8>)> = ALL_TYPES
        .iter()
        .map(|kind| {
            let (account, xpub) = funding_account(&wallet, &managed, *kind, 7).unwrap();
            (*account, xpub.copied())
        })
        .collect();
    assert_eq!(
        found,
        vec![
            (10, Some(100)),
            (12, Some(102)),
            (13, Some(103)),
            (14, Some(104)),
            (15, Some(105)),
            (16, Some(106)),
        ]
    );
}

#[test]
fn missing_extended_key_is_no_error() {
    let managed = special(10);
    let wallet = no_accounts();
    for kind in ALL_TYPES {
        let (_, xpub) = funding_account(&wallet, &managed, kind, 3).unwrap();
        assert!(xpub.is_none());
    }
}

#[test]
fn missing_funding_account_is_named() {
    let wallet = special(100);
    let managed = no_accounts();
    let texts: Vec<String> = ALL_TYPES
        .iter()
        .map(|kind| {
            text_of(&funding_account(&wallet, &managed, *kind, 42).unwrap_err()).to_string()
        })
        .collect();
    assert_eq!(
        texts,
        vec![
            "Identity registration account not found",
            "Identity top-up account for index 42 not found",
            "Identity top-up (unbound) account not found",
            "Identity invitation account not found",
            "Asset lock address top-up account not found",
            "Asset lock shielded address top-up account not found",
        ]
    );
    assert_eq!(
        text_of(&missing_account_error(AssetLockFundingType::IdentityTopUp, 0)),
        "Identity top-up account for index 0 not found"
    );
}

#[test]
fn address_pool_failure_is_worded() {
    let address = next_funding_address(Ok(Address { bytes: vec![8] })).unwrap();
    assert_eq!(address.bytes, vec![8]);
    let error = next_funding_address(Err("exhausted".to_string())).unwrap_err();
    assert_eq!(text_of(&error), "Failed to get next funding address: exhausted");
}

// -- the union of the funds accounts --

#[test]
fn union_adds_the_coins_of_the_other_accounts() {
    let accounts = vec![
        account(Some(0), vec![coin(1, 9_000_000, Some(vec![44, 0]))]),
        account(Some(1), vec![coin(2, 5, Some(vec![44, 1])), coin(3, 6, None)]),
        account(None, vec![coin(4, 9_000_000, Some(vec![9, 0]))]),
    ];
    let inputs = gather_inputs(&accounts, 0);
    let extra: Vec<OutPoint> = inputs.extra_inputs.iter().map(|u| u.outpoint).collect();
    assert_eq!(extra, vec![outpoint(2), outpoint(3), outpoint(4)]);
    assert_eq!(inputs.extra_inputs[2].value, 9_000_000);
    assert_eq!(inputs.union_value, 18_000_011);
    assert_eq!(inputs.union_count, 4);
    assert_eq!(resolved(&inputs.paths, 1), Some(vec![44, 0]));
    assert_eq!(resolved(&inputs.paths, 2), Some(vec![44, 1]));
    assert_eq!(resolved(&inputs.paths, 3), None);
    assert_eq!(resolved(&inputs.paths, 4), Some(vec![9, 0]));
    assert_eq!(resolved(&inputs.paths, 5), None);
}

#[test]
fn without_a_primary_account_every_coin_is_extra() {
    let accounts = vec![
        account(Some(0), vec![coin(1, 1, None)]),
        account(None, vec![coin(2, 2, None)]),
    ];
    let inputs = gather_inputs(&accounts, 5);
    assert_eq!(inputs.extra_inputs.len(), 2);
    let none = gather_inputs(&Vec::new(), 5);
    assert_eq!((none.extra_inputs.len(), none.union_value, none.union_count), (0, 0, 0));
}

#[test]
fn coin_of_the_primary_account_is_not_added_twice() {
    let accounts = vec![
        account(None, vec![coin(1, 1, None), coin(2, 2, None)]),
        account(Some(0), vec![coin(1, 1, None)]),
    ];
    let inputs = gather_inputs(&accounts, 0);
    let extra: Vec<OutPoint> = inputs.extra_inputs.iter().map(|u| u.outpoint).collect();
    assert_eq!(extra, vec![outpoint(2)]);
}

#[test]
fn union_value_saturates() {
    let accounts =
        vec![account(None, vec![coin(1, u64::MAX, None), coin(2, 7, None), coin(3, 1, None)])];
    let inputs = gather_inputs(&accounts, 0);
    assert_eq!(inputs.union_value, u64::MAX);
    assert_eq!(inputs.union_count, 3);
}

#[test]
fn last_path_of_an_address_counts() {
    let mut paths = PathResolver::new();
    paths.insert(Address { bytes: vec![1] }, DerivationPath { children: vec![1] });
    paths.insert(Address { bytes: vec![2] }, DerivationPath { children: vec![2] });
    paths.insert(Address { bytes: vec![1] }, DerivationPath { children: vec![3] });
    assert_eq!(resolved(&paths, 1), Some(vec![3]));
    assert_eq!(resolved(&paths, 2), Some(vec![2]));
    assert_eq!(resolved(&paths, 3), None);
}

fn credit(value: u64) -> Vec<TxOut> {
    vec![TxOut { value, script_pubkey: vec![0xaa] }]
}

#[test]
fn union_plan_reaches_both_accounts_and_can_sign_for_them() {
    // 0.09 DASH on BIP44, 0.09 DASH on CoinJoin; require 0.15 DASH.
    let accounts = vec![
        account(Some(0), vec![coin(1, 9_000_000, Some(vec![44]))]),
        account(None, vec![coin(2, 9_000_000, Some(vec![9]))]),
    ];
    let plan = plan_union_build(&accounts, 0, true, credit(15_000_000), 1000, 77).unwrap();
    assert_eq!(plan.primary_account, 0);
    assert_eq!(plan.fee_per_kb, 1000);
    assert_eq!(plan.current_height, 77);
    assert_eq!(plan.strategy, SelectionStrategy::LargestFirst);
    assert!(plan.require_final_inputs);
    assert_eq!(plan.credit_outputs[0].value, 15_000_000);
    let extra: Vec<OutPoint> = plan.extra_inputs.iter().map(|u| u.outpoint).collect();
    assert_eq!(extra, vec![outpoint(2)]);
    assert!(resolved(&plan.paths, 1).is_some() && resolved(&plan.paths, 2).is_some());
}

#[test]
fn union_plan_over_many_coinjoin_coins_picks_the_largest_first() {
    let coinjoin: Vec<SpendableUtxo> =
        (0..40u8).map(|i| coin(i + 2, 2_000_000, Some(vec![9, i as u32]))).collect();
    let accounts = vec![
        account(Some(0), vec![coin(1, 9_000_000, Some(vec![44]))]),
        account(None, coinjoin),
    ];
    let plan = plan_union_build(&accounts, 0, true, credit(20_000_000), 1000, 1000).unwrap();
    assert_eq!(plan.strategy, SelectionStrategy::LargestFirst);
    assert_eq!(plan.extra_inputs.len(), 40);
    for utxo in &plan.extra_inputs {
        assert!(plan.paths.resolve(&utxo.address).is_some());
    }
}

#[test]
fn union_plan_needs_the_primary_account_on_both_sides() {
    let accounts = vec![account(Some(1), vec![]), account(None, vec![])];
    match plan_union_build(&accounts, 1, false, credit(1), 1, 1) {
        Err(error) => {
            assert_eq!(text_of(&error), "BIP44 account 1 not found for asset-lock funding")
        }
        Ok(_) => panic!("expected an error"),
    }
    match plan_union_build(&accounts, 12, true, credit(1), 1, 1) {
        Err(error) => {
            assert_eq!(text_of(&error), "managed BIP44 account 12 not found for asset-lock funding")
        }
        Ok(_) => panic!("expected an error"),
    }
    assert!(plan_union_build(&accounts, 1, true, credit(1), 1, 1).is_ok());
}

#[test]
fn shortfall_keeps_its_amounts() {
    for failure in [
        BuilderFailure::InsufficientFunds { available: 18_000_000, required: 100_000_500 },
        BuilderFailure::SelectionInsufficientFunds { available: 18_000_000, required: 100_000_500 },
    ] {
        match map_builder_error(failure) {
            PlatformWalletError::AssetLockInsufficientFunds { available, required } => {
                assert_eq!(available, 18_000_000);
                assert_eq!(required, 100_000_500);
            }
            other => panic!("expected a typed shortfall, got {other:?}"),
        }
    }
    let other = map_builder_error(BuilderFailure::Other("no inputs".to_string()));
    assert_eq!(text_of(&other), "Asset lock builder failed: no inputs");
}

#[test]
fn credit_output_path_is_that_of_the_first_public_key() {
    let key = PublicKey { bytes: [2; 33] };
    let keys = AssetLockCreditKeys::Public(vec![
        (key, DerivationPath { children: vec![5, 6] }),
        (key, DerivationPath { children: vec![7] }),
    ]);
    assert_eq!(credit_output_path(keys).unwrap().children, vec![5, 6]);
    assert_eq!(
        text_of(&credit_output_path(AssetLockCreditKeys::Public(vec![])).unwrap_err()),
        "Builder returned no credit-output keys"
    );
    assert_eq!(
        text_of(&credit_output_path(AssetLockCreditKeys::Private).unwrap_err()),
        "Builder returned Private keys; signer-driven path expected Public"
    );
}

// -- the one-time key of the credit output --

fn peeked() -> CreditKeyEvent {
    CreditKeyEvent::Peeked(Some(Ok((DerivationPath { children: vec![3, 4] }, 17))))
}

fn credit_key_error(action: CreditKeyAction) -> String {
    match action {
        CreditKeyAction::Finish(Err(error)) => text_of(&error).to_string(),
        other => panic!("expected a failure, got {other:?}"),
    }
}

#[test]
fn credit_key_index_is_marked_after_the_signer_answered() {
    let (flow, action) = CreditKeyFlow::Peeking.step(peeked());
    assert!(matches!(action, CreditKeyAction::AskSigner { path } if path.children == vec![3, 4]));
    assert!(!flow.accepts(&CreditKeyEvent::Marked(Some(Ok(())))));
    let (flow, action) = flow.step(CreditKeyEvent::SignerAnswered(Ok(())));
    assert!(matches!(action, CreditKeyAction::MarkUsed { index: 17 }));
    let (flow, action) = flow.step(CreditKeyEvent::Marked(Some(Ok(()))));
    assert!(
        matches!(action, CreditKeyAction::Finish(Ok(path)) if path.children == vec![3, 4])
    );
    assert!(!flow.accepts(&peeked()));
}

#[test]
fn signer_failure_consumes_no_index() {
    let (flow, _) = CreditKeyFlow::Peeking.step(peeked());
    let (flow, action) =
        flow.step(CreditKeyEvent::SignerAnswered(Err("keychain locked".to_string())));
    assert!(matches!(flow, CreditKeyFlow::Finished));
    assert_eq!(credit_key_error(action), "signer public_key failed: keychain locked");
}

#[test]
fn credit_key_failures_are_worded() {
    let missing = "Asset lock shielded address top-up account not found";
    let (_, action) = CreditKeyFlow::Peeking.step(CreditKeyEvent::Peeked(None));
    assert_eq!(credit_key_error(action), missing);
    let (_, action) =
        CreditKeyFlow::Peeking.step(CreditKeyEvent::Peeked(Some(Err("no pool".to_string()))));
    assert_eq!(credit_key_error(action), "no pool");
    for (answer, text) in [(None, missing), (Some(Err("gone".to_string())), "gone")] {
        let (flow, _) = CreditKeyFlow::Peeking.step(peeked());
        let (flow, _) = flow.step(CreditKeyEvent::SignerAnswered(Ok(())));
        let (_, action) = flow.step(CreditKeyEvent::Marked(answer));
        assert_eq!(credit_key_error(action), text);
    }
}

// -- building from every funds account --

fn fundings(values: &[u64]) -> Vec<CreditOutputFunding> {
    values
        .iter()
        .map(|value| CreditOutputFunding {
            output: TxOut { value: *value, script_pubkey: vec![0xaa] },
            funding_type: AssetLockFundingType::AssetLockShieldedAddressTopUp,
            identity_index: 0,
        })
        .collect()
}

fn accounts_read(wallet_has_account: bool) -> UnionEvent<&'static str> {
    UnionEvent::AccountsRead {
        accounts: vec![
            account(Some(2), vec![coin(1, 9_000_000, Some(vec![44]))]),
            account(None, vec![coin(2, 9_000_000, Some(vec![9]))]),
        ],
        wallet_has_account,
        current_height: 77,
    }
}

fn planned() -> UnionFlow<&'static str> {
    let (flow, action) = UnionFlow::start(2, fundings(&[15_000_000, 3]), 1000);
    assert!(matches!(action, UnionAction::ReadAccounts));
    let event = accounts_read(true);
    assert!(flow.accepts(&event));
    assert!(!flow.accepts(&UnionEvent::Signed(Ok("too early"))));
    assert!(!flow.accepts(&UnionEvent::Key(peeked())));
    let (flow, action) = flow.step(event);
    match action {
        UnionAction::BuildSigned { plan } => {
            assert_eq!(plan.primary_account, 2);
            assert_eq!(plan.fee_per_kb, 1000);
            assert_eq!(plan.current_height, 77);
            assert_eq!(plan.strategy, SelectionStrategy::LargestFirst);
            assert_eq!(
                plan.credit_outputs.iter().map(|output| output.value).collect::<Vec<u64>>(),
                vec![15_000_000, 3]
            );
            assert_eq!(plan.extra_inputs.len(), 1);
            assert_eq!(plan.extra_inputs[0].outpoint, outpoint(2));
        }
        _ => panic!("expected a plan"),
    }
    flow
}

fn union_error(action: UnionAction<&'static str>) -> PlatformWalletError {
    match action {
        UnionAction::Finish(Err(error)) => error,
        _ => panic!("expected a failure"),
    }
}

#[test]
fn union_build_takes_the_key_of_a_signed_transaction() {
    let flow = planned();
    assert!(!flow.accepts(&UnionEvent::Key(peeked())));
    let (flow, action) = flow.step(UnionEvent::Signed(Ok("signed")));
    assert!(matches!(action, UnionAction::PeekPath));
    let (flow, action) = flow.step(UnionEvent::Key(peeked()));
    assert!(matches!(action, UnionAction::AskSigner { path } if path.children == vec![3, 4]));
    assert!(!flow.accepts(&UnionEvent::Key(CreditKeyEvent::Marked(Some(Ok(()))))));
    let (flow, action) = flow.step(UnionEvent::Key(CreditKeyEvent::SignerAnswered(Ok(()))));
    assert!(matches!(action, UnionAction::MarkUsed { index: 17 }));
    let (flow, action) = flow.step(UnionEvent::Key(CreditKeyEvent::Marked(Some(Ok(())))));
    match action {
        UnionAction::Finish(Ok((transaction, path))) => {
            assert_eq!(transaction, "signed");
            assert_eq!(path.children, vec![3, 4]);
        }
        _ => panic!("expected the signed transaction"),
    }
    assert!(matches!(flow.phase, UnionPhase::Finished));
}

#[test]
fn failed_union_build_consumes_no_index() {
    // the wallet lacks the primary account
    let (flow, _) = UnionFlow::start(2, fundings(&[1]), 1000);
    let (flow, action) = flow.step(accounts_read(false));
    assert_eq!(
        text_of(&union_error(action)),
        "BIP44 account 2 not found for asset-lock funding"
    );
    assert!(matches!(flow.phase, UnionPhase::Finished));

    // the coins fall short
    let (flow, action) = planned().step(UnionEvent::Signed(Err(
        BuilderFailure::SelectionInsufficientFunds { available: 18_000_000, required: 20_000_000 },
    )));
    assert!(matches!(
        union_error(action),
        PlatformWalletError::AssetLockInsufficientFunds {
            available: 18_000_000,
            required: 20_000_000
        }
    ));
    assert!(matches!(flow.phase, UnionPhase::Finished));

    // the signer fails after the path was peeked
    let (flow, _) = planned().step(UnionEvent::Signed(Ok("signed")));
    let (flow, _) = flow.step(UnionEvent::Key(peeked()));
    let (flow, action) =
        flow.step(UnionEvent::Key(CreditKeyEvent::SignerAnswered(Err("locked".to_string()))));
    assert_eq!(text_of(&union_error(action)), "signer public_key failed: locked");
    assert!(matches!(flow.phase, UnionPhase::Finished));

    // the account of the key is missing
    let (flow, _) = planned().step(UnionEvent::Signed(Ok("signed")));
    let (_, action) = flow.step(UnionEvent::Key(CreditKeyEvent::Peeked(None)));
    assert_eq!(
        text_of(&union_error(action)),
        "Asset lock shielded address top-up account not found"
    );
}

#[test]
fn coins_of_all_accounts_are_counted() {
    assert!(coins_can_be_counted(&vec![]));
    assert!(coins_can_be_counted(&vec![
        account(Some(0), vec![coin(1, 1, None)]),
        account(None, vec![coin(2, 1, None), coin(3, 1, None)]),
    ]));
}

// -- building the transaction --

fn request(amount_duffs: u64, funding_type: AssetLockFundingType) -> BuildRequest {
    BuildRequest {
        wallet_id: [0xab; 32],
        amount_duffs,
        account_index: 2,
        funding_type,
        identity_index: 6,
        fee_per_kb: 1000,
    }
}

fn found(request: BuildRequest) -> (BuildFlow, BuildAction<u8>) {
    let (flow, action) = BuildFlow::start::<u8>(request);
    assert!(matches!(action, BuildAction::LookUp));
    flow.step(BuildEvent::LookedUp { found: true })
}

#[test]
fn zero_amount_is_refused() {
    let (flow, action) =
        BuildFlow::start::<u8>(request(0, AssetLockFundingType::IdentityRegistration));
    match action {
        BuildAction::Finish(Err(error)) => {
            assert_eq!(text_of(&error), "Amount must be greater than zero")
        }
        other => panic!("expected a refusal, got {other:?}"),
    }
    assert!(!flow.accepts(&BuildEvent::<u8>::LookedUp { found: true }));
}

#[test]
fn unknown_wallet_is_named_in_hexadecimal() {
    let mut asked = request(1, AssetLockFundingType::IdentityRegistration);
    asked.wallet_id[0] = 0x0f;
    let (flow, _) = BuildFlow::start::<u8>(asked);
    let (_, action) = flow.step(BuildEvent::<u8>::LookedUp { found: false });
    match action {
        BuildAction::Finish(Err(PlatformWalletError::WalletNotFound(id))) => {
            assert_eq!(id, format!("0f{}", "ab".repeat(31)))
        }
        other => panic!("expected a missing wallet, got {other:?}"),
    }
}

#[test]
fn topup_ensures_its_account_first() {
    let (flow, action) = found(request(1, AssetLockFundingType::IdentityTopUp));
    assert!(matches!(action, BuildAction::EnsureTopUp { identity_index: 6 }));
    let (flow, action) = flow.step(BuildEvent::<u8>::TopUpEnsured(Ok(())));
    assert!(matches!(
        action,
        BuildAction::Peek { funding_type: AssetLockFundingType::IdentityTopUp, identity_index: 6 }
    ));
    let (_, action) =
        flow.step(BuildEvent::<u8>::Peeked(Err(PlatformWalletError::Other("peek".to_string()))));
    assert!(matches!(
        action,
        BuildAction::Finish(Err(PlatformWalletError::Other(text))) if text == "peek"
    ));
    let (flow, _) = found(request(1, AssetLockFundingType::IdentityTopUp));
    let (_, action) =
        flow.step(BuildEvent::<u8>::TopUpEnsured(Err(PlatformWalletError::Persistence("p".to_string()))));
    assert!(matches!(action, BuildAction::Finish(Err(PlatformWalletError::Persistence(_)))));
}

#[test]
fn only_shielded_funding_is_built_from_the_union() {
    for kind in ALL_TYPES {
        let (mut flow, mut action) = found(request(15_000_000, kind));
        if kind == AssetLockFundingType::IdentityTopUp {
            assert!(matches!(action, BuildAction::EnsureTopUp { .. }));
            (flow, action) = flow.step(BuildEvent::<u8>::TopUpEnsured(Ok(())));
        }
        assert!(matches!(action, BuildAction::Peek { .. }));
        let (_, action) = flow.step(BuildEvent::<u8>::Peeked(Ok(vec![1, 2, 3])));
        let (union, account_index, funding, fee_per_kb) = match action {
            BuildAction::BuildFromUnion { account_index, funding, fee_per_kb } => {
                (true, account_index, funding, fee_per_kb)
            }
            BuildAction::BuildFromBip44 { account_index, funding, fee_per_kb } => {
                (false, account_index, funding, fee_per_kb)
            }
            other => panic!("expected a build, got {other:?}"),
        };
        assert_eq!(union, kind == AssetLockFundingType::AssetLockShieldedAddressTopUp);
        assert_eq!(account_index, 2);
        assert_eq!(fee_per_kb, 1000);
        assert_eq!(funding.output.value, 15_000_000);
        assert_eq!(funding.output.script_pubkey, vec![1, 2, 3]);
        assert_eq!(funding.funding_type, kind);
        assert_eq!(funding.identity_index, 6);
    }
}

fn building(kind: AssetLockFundingType) -> BuildFlow {
    let (flow, _) = found(request(1_000_000, kind));
    let (flow, _) = flow.step(BuildEvent::<u8>::Peeked(Ok(vec![])));
    flow
}

#[test]
fn built_transaction_comes_with_its_credit_path() {
    let path = || DerivationPath { children: vec![8] };
    let keys = AssetLockCreditKeys::Public(vec![(PublicKey { bytes: [2; 33] }, path())]);
    let (_, action) = building(AssetLockFundingType::IdentityInvitation)
        .step(BuildEvent::Bip44Built(Ok((99u8, keys))));
    assert!(matches!(action, BuildAction::Finish(Ok((99, path))) if path.children == vec![8]));
    let (_, action) = building(AssetLockFundingType::AssetLockShieldedAddressTopUp)
        .step(BuildEvent::UnionBuilt(Ok((98u8, path()))));
    assert!(matches!(action, BuildAction::Finish(Ok((98, path))) if path.children == vec![8]));
}

#[test]
fn builder_failures_are_worded() {
    let kind = AssetLockFundingType::IdentityRegistration;
    let fails = |event: BuildEvent<u8>| match building(kind).step(event).1 {
        BuildAction::Finish(Err(error)) => text_of(&error).to_string(),
        other => panic!("expected a failure, got {other:?}"),
    };
    assert_eq!(
        fails(BuildEvent::Bip44Built(Err("short".to_string()))),
        "Asset lock builder failed: short"
    );
    assert_eq!(
        fails(BuildEvent::Bip44Built(Ok((1, AssetLockCreditKeys::Public(vec![]))))),
        "Builder returned no credit-output keys"
    );
    assert_eq!(
        fails(BuildEvent::Bip44Built(Ok((1, AssetLockCreditKeys::Private)))),
        "Builder returned Private keys; signer-driven path expected Public"
    );
    let (_, action) = building(AssetLockFundingType::AssetLockShieldedAddressTopUp).step(
        BuildEvent::<u8>::UnionBuilt(Err(PlatformWalletError::AssetLockInsufficientFunds {
            available: 1,
            required: 2,
        })),
    );
    assert!(matches!(
        action,
        BuildAction::Finish(Err(PlatformWalletError::AssetLockInsufficientFunds {
            available: 1,
            required: 2,
        }))
    ));
}

// -- the top-up account of an identity --

/// Both sides of the account, and what was stored of it.
#[derive(Default, Debug, PartialEq)]
struct Sides {
    xpub: Option<u32>,
    managed: bool,
    stored: Vec<(u32, u32, usize)>,
    signer_asked: bool,
}

/// Which of the collaborators fails.
#[derive(Clone, Copy, PartialEq)]
enum Broken {
    Nothing,
    Add,
    Path,
    Signer,
    Managed,
    Lookup,
    Store,
}

fn ensure(sides: &mut Sides, external: bool, broken: Broken) -> Result<(), PlatformWalletError> {
    let answer = |failing: bool| if failing { Err("broken".to_string()) } else { Ok(()) };
    let (mut flow, mut action) = TopUpFlow::start::<Vec<u32>, u32, u8, u8>(
        5,
        sides.xpub.is_some(),
        sides.managed,
        external,
    );
    loop {
        let event: TopUpEvent<Vec<u32>, u32, u8, u8> = match action {
            TopUpAction::AddLocally => {
                if broken != Broken::Add {
                    sides.xpub = Some(1);
                }
                TopUpEvent::AddedLocally(answer(broken == Broken::Add))
            }
            TopUpAction::ComputePath => TopUpEvent::PathComputed(
                answer(broken == Broken::Path).map(|_| vec![9, 5]),
            ),
            TopUpAction::AskSigner { path } => {
                assert_eq!(path, vec![9, 5]);
                sides.signer_asked = true;
                TopUpEvent::XpubDerived(answer(broken == Broken::Signer).map(|_| 2))
            }
            TopUpAction::AddXpub { account_xpub } => {
                if broken != Broken::Add {
                    sides.xpub = Some(account_xpub);
                }
                TopUpEvent::XpubAdded(answer(broken == Broken::Add))
            }
            TopUpAction::AddManaged => {
                if broken != Broken::Managed {
                    sides.managed = true;
                }
                TopUpEvent::ManagedAdded(answer(broken == Broken::Managed))
            }
            TopUpAction::Read => TopUpEvent::Read {
                account_xpub: if broken == Broken::Lookup { None } else { sides.xpub },
                pools: vec![
                    AddressPool { pool_type: 0, addresses: vec![] },
                    AddressPool { pool_type: 1, addresses: vec![7, 8] },
                ],
            },
            TopUpAction::Store(changes) => {
                assert_eq!(changes.account_registrations.len(), 1);
                let entry = &changes.account_registrations[0];
                if broken != Broken::Store {
                    sides.stored.push((
                        entry.registration_index,
                        entry.account_xpub,
                        changes.account_address_pools.len(),
                    ));
                }
                TopUpEvent::Stored(answer(broken == Broken::Store))
            }
            TopUpAction::RollBack { remove_xpub_side, remove_managed_side, error } => {
                if remove_xpub_side {
                    sides.xpub = None;
                }
                if remove_managed_side {
                    sides.managed = false;
                }
                return Err(error);
            }
            TopUpAction::Finish(outcome) => return outcome,
        };
        assert!(flow.accepts(&event));
        (flow, action) = flow.step(event);
    }
}

#[test]
fn new_topup_account_is_inserted_on_both_sides_and_stored() {
    let mut sides = Sides::default();
    assert!(ensure(&mut sides, false, Broken::Nothing).is_ok());
    assert_eq!((sides.xpub, sides.managed, sides.signer_asked), (Some(1), true, false));
    assert_eq!(sides.stored, vec![(5, 1, 1)]);

    let mut sides = Sides::default();
    assert!(ensure(&mut sides, true, Broken::Nothing).is_ok());
    assert_eq!((sides.xpub, sides.managed, sides.signer_asked), (Some(2), true, true));
    assert_eq!(sides.stored, vec![(5, 2, 1)]);
}

#[test]
fn existing_topup_account_is_left_alone() {
    let mut sides = Sides { xpub: Some(4), managed: true, stored: vec![], signer_asked: false };
    assert!(ensure(&mut sides, true, Broken::Store).is_ok());
    assert_eq!(
        sides,
        Sides { xpub: Some(4), managed: true, stored: vec![], signer_asked: false }
    );
}

#[test]
fn half_of_a_topup_account_is_completed_and_stored() {
    let mut sides = Sides { xpub: Some(4), ..Sides::default() };
    assert!(ensure(&mut sides, true, Broken::Nothing).is_ok());
    assert!(sides.managed && !sides.signer_asked);
    assert_eq!(sides.stored, vec![(5, 4, 1)]);
    let mut sides = Sides { managed: true, ..Sides::default() };
    assert!(ensure(&mut sides, false, Broken::Nothing).is_ok());
    assert_eq!(sides.stored, vec![(5, 1, 1)]);
}

#[test]
fn failed_store_is_rolled_back_and_a_retry_stores() {
    for xpub in [None, Some(4)] {
        let mut sides = Sides { xpub, ..Sides::default() };
        match ensure(&mut sides, false, Broken::Store) {
            Err(PlatformWalletError::Persistence(text)) => assert_eq!(
                text,
                "Failed to persist identity top-up account registration for index 5: broken"
            ),
            other => panic!("expected a persistence error, got {other:?}"),
        }
        assert_eq!((sides.xpub, sides.managed, sides.stored.len()), (xpub, false, 0));
        assert!(ensure(&mut sides, false, Broken::Nothing).is_ok());
        assert_eq!(sides.stored.len(), 1);
    }
}

#[test]
fn topup_failures_are_worded_and_leave_work_for_a_retry() {
    let cases = [
        (false, Broken::Add, "Failed to derive identity top-up account for index 5: broken"),
        (true, Broken::Path, "Failed to compute identity top-up derivation path for index 5: broken"),
        (
            true,
            Broken::Signer,
            "Failed to derive identity top-up account xpub for index 5 via signer: broken",
        ),
        (true, Broken::Add, "Failed to add identity top-up account for index 5: broken"),
        (
            false,
            Broken::Managed,
            "Failed to register managed identity top-up account for index 5: broken",
        ),
    ];
    for (external, broken, text) in cases {
        let mut sides = Sides::default();
        let error = ensure(&mut sides, external, broken).unwrap_err();
        assert_eq!(text_of(&error), text);
        assert!(!(sides.xpub.is_some() && sides.managed));
        assert!(ensure(&mut sides, external, Broken::Nothing).is_ok());
        assert_eq!(sides.stored.len(), 1);
    }
    let error = ensure(&mut Sides::default(), false, Broken::Lookup).unwrap_err();
    assert_eq!(text_of(&error), "Identity top-up account for index 5 missing after insert");
}

#[test]
fn empty_pools_are_not_recorded() {
    let changes = registration_changeset(
        3,
        'x',
        vec![
            AddressPool { pool_type: 'a', addresses: vec![1] },
            AddressPool { pool_type: 'b', addresses: vec![] },
            AddressPool { pool_type: 'c', addresses: vec![2, 3] },
        ],
    );
    assert_eq!(changes.account_registrations[0].registration_index, 3);
    assert_eq!(changes.account_registrations[0].account_xpub, 'x');
    let pools: Vec<(u32, char, Vec<i32>)> = changes
        .account_address_pools
        .into_iter()
        .map(|entry| (entry.registration_index, entry.pool_type, entry.addresses))
        .collect();
    assert_eq!(pools, vec![(3, 'a', vec![1]), (3, 'c', vec![2, 3])]);
}

// -- the life of an asset lock --

/// The transaction that every lock below is made of.
const TRANSACTION: &str = "the built transaction";

fn built() -> BuiltTransaction<&'static str> {
    BuiltTransaction {
        transaction: TRANSACTION,
        txid: Txid { bytes: [6; 32] },
        path: DerivationPath { children: vec![9, 5, 1] },
    }
}

fn content(lock_proof: AssetLockProof<u8>) -> (&'static str, u8) {
    match lock_proof {
        AssetLockProof::Instant(content) => ("instant", content),
        AssetLockProof::Chain(content) => ("chain", content),
    }
}

/// A wallet with a single coin, and the rows it tracks.
#[derive(Default)]
struct Wallet {
    reserved: bool,
    row: Option<AssetLockStatus>,
    removed: Vec<OutPoint>,
}

impl Wallet {
    fn build(&mut self) -> Result<BuiltTransaction<&'static str>, PlatformWalletError> {
        if self.reserved {
            return Err(PlatformWalletError::AssetLockTransaction("no inputs".to_string()));
        }
        self.reserved = true;
        Ok(built())
    }

    fn create_lock<F>(&mut self, broadcast: F) -> Result<ProvenLock<u8>, PlatformWalletError>
    where
        F: Fn(&mut Wallet) -> Result<(), BroadcastError>,
    {
        self.create_proven_lock(broadcast, AssetLockProof::Instant(1), AssetLockProof::Instant(1))
    }

    fn create_proven_lock<F>(
        &mut self,
        broadcast: F,
        received: AssetLockProof<u8>,
        validated: AssetLockProof<u8>,
    ) -> Result<ProvenLock<u8>, PlatformWalletError>
    where
        F: Fn(&mut Wallet) -> Result<(), BroadcastError>,
    {
        let (mut flow, mut action) = LockFlow::start(LockRequest {
            amount_duffs: 1_000_000,
            account_index: 0,
            funding_type: AssetLockFundingType::IdentityRegistration,
            identity_index: 0,
        });
        loop {
            let event = match action {
                LockAction::Build { request } => {
                    assert_eq!(request.amount_duffs, 1_000_000);
                    LockEvent::Built(self.build())
                }
                LockAction::Track { row } => {
                    assert_eq!(row.out_point, outpoint(6));
                    assert_eq!(row.transaction, TRANSACTION);
                    assert_eq!(row.amount, 1_000_000);
                    assert!(row.lock_proof.is_none());
                    self.row = Some(row.status);
                    LockEvent::RowTracked
                }
                LockAction::Broadcast { transaction } => {
                    assert_eq!(transaction, TRANSACTION);
                    assert_eq!(self.row, Some(AssetLockStatus::Built));
                    LockEvent::BroadcastAnswered(broadcast(self))
                }
                LockAction::Untrack { out_point } => {
                    let removed = self.row == Some(AssetLockStatus::Built);
                    if removed {
                        self.row = None;
                        self.removed.push(out_point);
                    }
                    LockEvent::Untracked { removed }
                }
                LockAction::Release { account_index, transaction } => {
                    assert_eq!(transaction, TRANSACTION);
                    assert_eq!(account_index, 0);
                    assert_eq!(self.row, None);
                    self.reserved = false;
                    LockEvent::Released
                }
                LockAction::Advance { out_point, status } => {
                    assert_eq!(out_point, outpoint(6));
                    assert_eq!(status, AssetLockStatus::Broadcast);
                    self.row = Some(status);
                    LockEvent::Advanced(Ok(()))
                }
                LockAction::WaitForProof { instant_send_secs, .. } => {
                    assert_eq!(instant_send_secs, 300);
                    LockEvent::ProofReceived(Ok(received))
                }
                LockAction::Validate { lock_proof, account_index, out_point } => {
                    assert_eq!(content(lock_proof), content(received));
                    assert_eq!(account_index, 0);
                    assert_eq!(out_point, outpoint(6));
                    LockEvent::ProofValidated(Ok(validated))
                }
                LockAction::Attach { out_point, status, lock_proof } => {
                    assert_eq!(out_point, outpoint(6));
                    assert_eq!(content(lock_proof), content(validated));
                    self.row = Some(status);
                    LockEvent::Attached(Ok(()))
                }
                LockAction::Finish(outcome) => return outcome,
            };
            assert!(flow.accepts(&event));
            (flow, action) = flow.step(event);
        }
    }
}

#[test]
fn rejected_asset_lock_broadcast_untracks_row_and_releases_reservation() {
    let mut wallet = Wallet::default();
    let result = wallet.create_lock(|_| {
        AlwaysRejectedBroadcaster.broadcast(Txid { bytes: [6; 32] }).map(|_| ())
    });
    assert!(
        matches!(result, Err(PlatformWalletError::TransactionBroadcast(_))),
        "rejected broadcast should surface as TransactionBroadcast, got {result:?}"
    );
    // The Built row is gone, and exactly its removal was queued.
    assert_eq!(wallet.row, None);
    assert_eq!(wallet.removed, vec![outpoint(6)]);
    // The funding reservation was released.
    assert!(wallet.build().is_ok());
}

#[test]
fn ambiguous_asset_lock_broadcast_keeps_reservation_and_built_row() {
    let mut wallet = Wallet::default();
    let result = wallet.create_lock(|_| {
        AlwaysMaybeSentBroadcaster.broadcast(Txid { bytes: [6; 32] }).map(|_| ())
    });
    assert!(
        matches!(result, Err(PlatformWalletError::TransactionBroadcastUnconfirmed(_))),
        "ambiguous broadcast should surface as TransactionBroadcastUnconfirmed, got {result:?}"
    );
    assert_eq!(wallet.row, Some(AssetLockStatus::Built));
    assert!(wallet.removed.is_empty(), "ambiguous failure must not queue a row deletion");
    assert!(matches!(wallet.build(), Err(PlatformWalletError::AssetLockTransaction(_))));
}

#[test]
fn rejected_broadcast_racing_concurrent_resume_keeps_row_and_reservation() {
    let mut wallet = Wallet::default();
    let result = wallet.create_lock(|wallet| {
        wallet.row = Some(AssetLockStatus::Broadcast);
        Err(BroadcastError::Rejected {
            reason: "simulated rejection racing a concurrent resume".to_string(),
        })
    });
    assert!(
        matches!(result, Err(PlatformWalletError::TransactionBroadcast(_))),
        "rejection should still surface, got {result:?}"
    );
    assert_eq!(wallet.row, Some(AssetLockStatus::Broadcast));
    assert!(wallet.removed.is_empty(), "advanced row must not be queued for deletion");
    assert!(matches!(wallet.build(), Err(PlatformWalletError::AssetLockTransaction(_))));
}

#[test]
fn proven_lock_has_the_status_of_its_proof() {
    for (received, validated, status) in [
        (
            AssetLockProof::Instant(1),
            AssetLockProof::Instant(1),
            AssetLockStatus::InstantSendLocked,
        ),
        (AssetLockProof::Instant(1), AssetLockProof::Chain(2), AssetLockStatus::ChainLocked),
        (AssetLockProof::Chain(3), AssetLockProof::Chain(3), AssetLockStatus::ChainLocked),
    ] {
        let mut wallet = Wallet::default();
        let result = wallet.create_proven_lock(|_| Ok(()), received, validated);
        let proven = result.unwrap();
        assert_eq!(proven.out_point, outpoint(6));
        assert_eq!(proven.path.children, built().path.children);
        assert_eq!(content(proven.lock_proof), content(validated));
        assert_eq!(wallet.row, Some(status));
        assert!(wallet.reserved);
    }
}

#[test]
fn failures_on_the_way_to_a_proof_are_handed_on() {
    let request = LockRequest {
        amount_duffs: 1,
        account_index: 0,
        funding_type: AssetLockFundingType::IdentityInvitation,
        identity_index: 0,
    };
    let error = || PlatformWalletError::Other("late".to_string());
    let events = || {
        vec![
            LockEvent::Built(Ok(built())),
            LockEvent::RowTracked,
            LockEvent::BroadcastAnswered(Ok(())),
            LockEvent::Advanced(Ok(())),
            LockEvent::ProofReceived(Ok(AssetLockProof::Instant(1))),
            LockEvent::ProofValidated(Ok(AssetLockProof::Instant(1))),
            LockEvent::Attached(Ok(())),
        ]
    };
    let failing: Vec<(usize, LockEvent<&str, u8>)> = vec![
        (0, LockEvent::Built(Err(error()))),
        (3, LockEvent::Advanced(Err(error()))),
        (4, LockEvent::ProofReceived(Err(error()))),
        (5, LockEvent::ProofValidated(Err(error()))),
        (6, LockEvent::Attached(Err(error()))),
    ];
    for (at, event) in failing {
        let (mut flow, mut action) = LockFlow::start(request);
        for earlier in events().into_iter().take(at) {
            (flow, action) = flow.step(earlier);
        }
        assert!(!matches!(action, LockAction::Finish(_)));
        let (_, action) = flow.step(event);
        assert!(matches!(
            action,
            LockAction::Finish(Err(PlatformWalletError::Other(text))) if text == "late"
        ));
    }
}
