use std::sync::{Arc, Mutex};

use dash_platform::wallet::broadcaster::{
    AlwaysMaybeSentBroadcaster, AlwaysRejectedBroadcaster, RejectFirstBroadcaster,
};
use dash_platform::wallet::error::{BroadcastError, PlatformWalletError};
use dash_platform::wallet::fixtures::{
    fixture_manager_plan, funded_wallet_steps, funding_address_source, seeded_utxo,
    split_funded_wallet_steps, split_funded_wallet_steps_many_coinjoin, AddressSource,
    FixtureAccount, FixtureStep, FundedWallet, ManagerPlan, Network, StandardAccountType,
};
use dash_platform::wallet::text::{decimal_text, joined_text, numbered_text};
use dash_platform::wallet::types::{Address, OutPoint, Txid};

fn fund(step: &FixtureStep) -> (FixtureAccount, u64, u32, [u8; 32], u32) {
    match step {
        FixtureStep::Fund { account, value, block } => {
            (*account, *value, block.height, block.hash, block.timestamp)
        }
        other => panic!("expected a funding step, got {other:?}"),
    }
}

fn seed(step: &FixtureStep) -> (OutPoint, u64) {
    match step {
        FixtureStep::SeedCoinJoin { outpoint, value } => (*outpoint, *value),
        other => panic!("expected a seeding step, got {other:?}"),
    }
}

#[test]
fn single_account_wallet_holds_one_coin() {
    let bip44 = funded_wallet_steps(StandardAccountType::BIP44Account);
    assert_eq!(bip44.len(), 1);
    assert_eq!(fund(&bip44[0]), (FixtureAccount::Bip44, 10_000_000, 1, [0; 32], 1_700_000_000));
    let bip32 = funded_wallet_steps(StandardAccountType::BIP32Account);
    assert_eq!(bip32.len(), 1);
    assert_eq!(fund(&bip32[0]), (FixtureAccount::Bip32, 10_000_000, 1, [0; 32], 1_700_000_000));
}

#[test]
fn split_wallet_holds_one_coin_on_each_account() {
    let steps = split_funded_wallet_steps(9_000_000, 8_000_000);
    assert_eq!(steps.len(), 2);
    assert_eq!(fund(&steps[0]), (FixtureAccount::Bip44, 9_000_000, 1, [0; 32], 1_700_000_000));
    assert_eq!(fund(&steps[1]), (FixtureAccount::CoinJoin, 8_000_000, 2, [0; 32], 1_700_000_100));
}

#[test]
fn many_coinjoin_wallet_seeds_one_coin_per_value() {
    let values: Vec<u64> = vec![2_000_000; 40];
    let steps = split_funded_wallet_steps_many_coinjoin(9_000_000, &values);
    assert_eq!(steps.len(), 42);
    assert_eq!(fund(&steps[0]), (FixtureAccount::Bip44, 9_000_000, 1, [0; 32], 1_700_000_000));
    for i in 0..40usize {
        let (outpoint, value) = seed(&steps[i + 1]);
        assert_eq!(outpoint, OutPoint { txid: Txid { bytes: [(i as u8) + 1; 32] }, vout: 0 });
        assert_eq!(value, 2_000_000);
    }
    assert!(matches!(steps[41], FixtureStep::SetLastProcessedHeight { height: 1000 }));
}

#[test]
fn seeded_coins_are_separate_however_many_there_are() {
    let values: Vec<u64> = vec![1; 600];
    let steps = split_funded_wallet_steps_many_coinjoin(1, &values);
    for i in 0..600usize {
        for j in 0..i {
            assert!(seed(&steps[i + 1]).0 != seed(&steps[j + 1]).0);
        }
    }
    // the byte that fills the id wraps, and the position goes on
    assert_eq!(seed(&steps[256]).0, OutPoint { txid: Txid { bytes: [0; 32] }, vout: 0 });
    assert_eq!(seed(&steps[257]).0, OutPoint { txid: Txid { bytes: [1; 32] }, vout: 1 });
}

#[test]
fn seeded_coin_is_confirmed_and_plain() {
    let outpoint = OutPoint { txid: Txid { bytes: [3; 32] }, vout: 0 };
    let utxo = seeded_utxo(outpoint, 5, Address { bytes: vec![1, 2] }, vec![0x76, 0xa9]);
    assert_eq!(utxo.outpoint, outpoint);
    assert_eq!(utxo.value, 5);
    assert_eq!(utxo.address.bytes, vec![1, 2]);
    assert_eq!(utxo.script_pubkey, vec![0x76, 0xa9]);
    assert_eq!(utxo.height, 1);
    assert!(utxo.is_confirmed);
    assert!(!utxo.is_coinbase && !utxo.is_instantlocked && !utxo.is_locked && !utxo.is_trusted);
}

#[test]
fn each_account_has_its_own_source_of_addresses() {
    assert_eq!(funding_address_source(FixtureAccount::Bip44), AddressSource::PreDerived);
    assert_eq!(funding_address_source(FixtureAccount::Bip32), AddressSource::NextReceive);
    assert_eq!(funding_address_source(FixtureAccount::CoinJoin), AddressSource::NextOfSinglePool);
}

#[test]
fn funded_wallet_is_managed_alone_on_the_test_network() {
    let balance = Arc::new(Mutex::new(0u64));
    let funded = FundedWallet { wallet: vec![1u8, 2, 3], managed_wallet: "coins" };
    let plan: ManagerPlan<Vec<u8>, &str, Arc<Mutex<u64>>, &str, OutPoint> =
        fixture_manager_plan(funded, balance.clone(), "identities");
    assert_eq!(plan.network, Network::Testnet);
    assert_eq!(plan.wallets.len(), 1);
    let managed = &plan.wallets[0];
    assert_eq!(managed.wallet, vec![1, 2, 3]);
    assert_eq!(managed.info.core_wallet, "coins");
    assert_eq!(managed.info.identity_manager, "identities");
    assert!(managed.info.tracked_asset_locks.is_empty());
    // the signer is over the same wallet, and the balance is one and the same
    assert_eq!(plan.signer.wallet, managed.wallet);
    assert!(Arc::ptr_eq(&plan.balance, &balance));
    assert!(Arc::ptr_eq(&plan.balance, &managed.info.balance));
}

/// The values of the coins that the steps put on an account.
fn coins(steps: &[FixtureStep], on: FixtureAccount) -> Vec<u64> {
    steps
        .iter()
        .filter_map(|step| match step {
            FixtureStep::Fund { account, value, .. } if *account == on => Some(*value),
            FixtureStep::SeedCoinJoin { value, .. } if on == FixtureAccount::CoinJoin => {
                Some(*value)
            }
            _ => None,
        })
        .collect()
}

#[test]
fn each_account_holds_the_coins_that_were_asked_for() {
    let single = funded_wallet_steps(StandardAccountType::BIP32Account);
    assert_eq!(coins(&single, FixtureAccount::Bip32), vec![10_000_000]);
    assert!(coins(&single, FixtureAccount::Bip44).is_empty());
    assert!(coins(&single, FixtureAccount::CoinJoin).is_empty());

    let split = split_funded_wallet_steps(9, 8);
    assert_eq!(coins(&split, FixtureAccount::Bip44), vec![9]);
    assert_eq!(coins(&split, FixtureAccount::CoinJoin), vec![8]);
    assert!(coins(&split, FixtureAccount::Bip32).is_empty());

    let many = split_funded_wallet_steps_many_coinjoin(9, &[5, 5, 0, 7]);
    assert_eq!(coins(&many, FixtureAccount::Bip44), vec![9]);
    assert_eq!(coins(&many, FixtureAccount::CoinJoin), vec![5, 5, 0, 7]);
    assert!(coins(&many, FixtureAccount::Bip32).is_empty());

    let none = split_funded_wallet_steps_many_coinjoin(9, &[]);
    assert!(coins(&none, FixtureAccount::CoinJoin).is_empty());
}

#[test]
fn exactly_one_of_several_callers_is_rejected() {
    let shared = Arc::new(Mutex::new(RejectFirstBroadcaster::new()));
    let outcomes: Vec<Result<Txid, BroadcastError>> = [3u8, 1, 2, 1]
        .into_iter()
        .map(|fill| shared.lock().unwrap().broadcast(Txid { bytes: [fill; 32] }))
        .collect();
    let rejected = outcomes
        .iter()
        .filter(|outcome| matches!(outcome, Err(BroadcastError::Rejected { .. })))
        .count();
    assert_eq!(rejected, 1);
    assert!(matches!(outcomes[3], Ok(id) if id == Txid { bytes: [1; 32] }));
}

#[test]
fn only_the_first_broadcast_is_rejected() {
    let mut broadcaster = RejectFirstBroadcaster::new();
    let txid = Txid { bytes: [4; 32] };
    match broadcaster.broadcast(txid) {
        Err(BroadcastError::Rejected { reason }) => {
            assert_eq!(reason, "simulated pre-send rejection")
        }
        other => panic!("expected a rejection, got {other:?}"),
    }
    assert!(matches!(broadcaster.broadcast(txid), Ok(id) if id == txid));
    let other = Txid { bytes: [5; 32] };
    assert!(matches!(broadcaster.broadcast(other), Ok(id) if id == other));
}

#[test]
fn scripted_broadcasters_always_fail_the_same_way() {
    let txid = Txid { bytes: [4; 32] };
    for _ in 0..2 {
        assert!(matches!(
            AlwaysRejectedBroadcaster.broadcast(txid),
            Err(BroadcastError::Rejected { reason }) if reason == "simulated pre-send rejection"
        ));
        assert!(matches!(
            AlwaysMaybeSentBroadcaster.broadcast(txid),
            Err(BroadcastError::MaybeSent { reason }) if reason == "simulated ambiguous broadcast"
        ));
    }
}

#[test]
fn broadcast_errors_become_wallet_errors() {
    let rejected = BroadcastError::Rejected { reason: "no".to_string() };
    assert!(matches!(
        PlatformWalletError::from(rejected),
        PlatformWalletError::TransactionBroadcast(text) if text == "no"
    ));
    let maybe = BroadcastError::MaybeSent { reason: "perhaps".to_string() };
    assert!(matches!(
        PlatformWalletError::from(maybe),
        PlatformWalletError::TransactionBroadcastUnconfirmed(text) if text == "perhaps"
    ));
}

#[test]
fn numbers_are_written_in_decimal() {
    assert_eq!(decimal_text(0), "0");
    assert_eq!(decimal_text(9), "9");
    assert_eq!(decimal_text(10), "10");
    assert_eq!(decimal_text(4_294_967_295), "4294967295");
    assert_eq!(numbered_text("a ", 1070, " b"), "a 1070 b");
    assert_eq!(joined_text("a", ""), "a");
}

#[test]
fn ids_and_outpoints_compare_by_value() {
    let mut bytes = [0u8; 32];
    let zero = Txid { bytes };
    bytes[31] = 1;
    let one = Txid { bytes };
    assert!(zero == Txid { bytes: [0; 32] } && zero != one);
    assert!(OutPoint { txid: zero, vout: 0 } != OutPoint { txid: zero, vout: 1 });
    assert!(Address { bytes: vec![1] }.same(&Address { bytes: vec![1] }));
    assert!(!Address { bytes: vec![1] }.same(&Address { bytes: vec![1, 0] }));
}
