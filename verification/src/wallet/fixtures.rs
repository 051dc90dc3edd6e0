//! Funded wallets for exercising the wallet: what has to be done, step by
//! step, to a fresh wallet so that its accounts hold given coins, and how the
//! funded wallet is put under management.

use vstd::prelude::*;
use vstd::pervasive::strictly_cloned;

use crate::wallet::signer::WalletSigner;
use crate::wallet::types::{Address, OutPoint, Txid, Utxo};

verus! {

/// A standard account, by the derivation scheme of its keys.
#[derive(Clone, Copy, Debug, PartialEq, Eq, Structural)]
pub enum StandardAccountType {
    BIP44Account,
    BIP32Account,
}

/// The account (always the first of its kind) that receives coins.
#[derive(Clone, Copy, Debug, PartialEq, Eq, Structural)]
pub enum FixtureAccount {
    Bip44,
    Bip32,
    CoinJoin,
}

/// Where the address that receives a funding transaction comes from.
#[derive(Clone, Copy, Debug, PartialEq, Eq, Structural)]
pub enum AddressSource {
    /// The receive address that a fresh wallet already has.
    PreDerived,
    /// The next address of the account's receive pool.
    NextReceive,
    /// The next address of the account's only pool.
    NextOfSinglePool,
}

/// The chain-locked block that holds a funding transaction. Asset locks spend
/// only final inputs, so coins in the mempool would not do.
#[derive(Clone, Copy, Debug)]
pub struct ChainLockedBlock {
    pub height: u32,
    pub hash: [u8; 32],
    pub timestamp: u32,
}

/// One step of funding a fresh wallet.
#[derive(Clone, Copy, Debug)]
pub enum FixtureStep {
    /// Let the wallet see a transaction that pays `value` duffs, in one
    /// output, to an address of `account`.
    Fund { account: FixtureAccount, value: u64, block: ChainLockedBlock },
    /// Put an unspent output at a freshly derived address into the CoinJoin
    /// account.
    SeedCoinJoin { outpoint: OutPoint, value: u64 },
    /// Tell the wallet how far it has processed the chain.
    SetLastProcessedHeight { height: u32 },
}

/// A network that wallets live on.
#[derive(Clone, Copy, Debug, PartialEq, Eq, Structural)]
pub enum Network {
    Mainnet,
    Testnet,
    Devnet,
    Regtest,
}

/// A wallet that its steps were performed on: its keys, and its managed side,
/// which holds the coins.
pub struct FundedWallet<W, M> {
    pub wallet: W,
    pub managed_wallet: M,
}

/// What a manager holds beside the keys of a wallet. `H` is a handle to its
/// balance, `I` keeps its identities, `L` is a row of a tracked asset lock.
pub struct PlatformWalletInfo<M, H, I, L> {
    pub core_wallet: M,
    pub balance: H,
    pub identity_manager: I,
    pub tracked_asset_locks: Vec<L>,
}

/// A wallet as a manager holds it.
pub struct ManagedWallet<W, M, H, I, L> {
    pub wallet: W,
    pub info: PlatformWalletInfo<M, H, I, L>,
}

/// What a fixture hands out: a manager on `network` that holds `wallets` and
/// no others, the handle to the balance, and a signer.
pub struct ManagerPlan<W, M, H, I, L> {
    pub network: Network,
    pub wallets: Vec<ManagedWallet<W, M, H, I, L>>,
    pub balance: H,
    pub signer: WalletSigner<W>,
}

/// The amount that the single-account wallet holds, in duffs.
pub const FUNDED_WALLET_DUFFS: u64 = 10_000_000;

/// Thirty-two times the same byte.
pub open spec fn filled(byte: u8) -> [u8; 32] {
    vstd::array::spec_array_fill_for_copy_type::<u8, 32>(byte)
}

/// The block with the all-zero hash at `height`.
pub open spec fn zero_hash_block(height: u32, timestamp: u32) -> ChainLockedBlock {
    ChainLockedBlock { height, hash: filled(0), timestamp }
}

/// The outpoint of the seeded coin at position `i`: the first 256 differ in
/// the byte that fills the transaction id, later ones in the output position.
pub open spec fn seeded_outpoint(i: int) -> OutPoint {
    OutPoint { txid: Txid { bytes: filled(((i + 1) % 256) as u8) }, vout: (i / 256) as u32 }
}

/// The first account of a standard type.
pub open spec fn first_account(account_type: StandardAccountType) -> FixtureAccount {
    match account_type {
        StandardAccountType::BIP44Account => FixtureAccount::Bip44,
        StandardAccountType::BIP32Account => FixtureAccount::Bip32,
    }
}

/// Pay `value` into `account`, in the first block.
pub open spec fn fund_first(account: FixtureAccount, value: u64) -> FixtureStep {
    FixtureStep::Fund { account, value, block: zero_hash_block(1, 1_700_000_000) }
}

/// One coin on one account.
pub open spec fn single_account_steps(account_type: StandardAccountType) -> Seq<FixtureStep> {
    seq![fund_first(first_account(account_type), FUNDED_WALLET_DUFFS)]
}

/// One coin on the BIP44 account, and one on the CoinJoin account.
pub open spec fn split_steps(bip44_duffs: u64, coinjoin_duffs: u64) -> Seq<FixtureStep> {
    seq![
        fund_first(FixtureAccount::Bip44, bip44_duffs),
        FixtureStep::Fund {
            account: FixtureAccount::CoinJoin,
            value: coinjoin_duffs,
            block: zero_hash_block(2, 1_700_000_100),
        },
    ]
}

/// One coin on the CoinJoin account for each value.
pub open spec fn seeding_steps(values: Seq<u64>) -> Seq<FixtureStep> {
    Seq::new(
        values.len(),
        |i: int| FixtureStep::SeedCoinJoin { outpoint: seeded_outpoint(i), value: values[i] },
    )
}

/// One coin on the BIP44 account, and many on the CoinJoin account.
pub open spec fn many_coinjoin_steps(bip44_duffs: u64, values: Seq<u64>) -> Seq<FixtureStep> {
    seq![fund_first(FixtureAccount::Bip44, bip44_duffs)] + seeding_steps(values)
        + seq![FixtureStep::SetLastProcessedHeight { height: 1000 }]
}

impl FixtureStep {
    /// The coins that the step adds to `account`, by their values.
    pub open spec fn adds_to(self, account: FixtureAccount) -> Seq<u64> {
        match self {
            FixtureStep::Fund { account: funded, value, .. } if funded == account => seq![value],
            FixtureStep::SeedCoinJoin { value, .. } if account is CoinJoin => seq![value],
            _ => Seq::empty(),
        }
    }
}

/// The coins that `account` of a fresh wallet holds after the steps, by their
/// values, in the order in which they came.
pub open spec fn coins_after(steps: Seq<FixtureStep>, account: FixtureAccount) -> Seq<u64>
    decreases steps.len(),
{
    if steps.len() == 0 {
        Seq::empty()
    } else {
        coins_after(steps.drop_last(), account) + steps.last().adds_to(account)
    }
}

/// The steps for a wallet whose first account of the given type holds one
/// coin, which is the wallet's whole balance.
pub fn funded_wallet_steps(account_type: StandardAccountType) -> (steps: Vec<FixtureStep>)
    ensures
        steps@ == single_account_steps(account_type),
{
    let account: FixtureAccount = match account_type {
        StandardAccountType::BIP44Account => FixtureAccount::Bip44,
        StandardAccountType::BIP32Account => FixtureAccount::Bip32,
    };
    let steps: Vec<FixtureStep> = vec![
        FixtureStep::Fund {
            account,
            value: FUNDED_WALLET_DUFFS,
            block: ChainLockedBlock { height: 1, hash: [0; 32], timestamp: 1_700_000_000 },
        },
    ];
    steps
}

/// The steps for a wallet whose balance is split: one coin of `bip44_duffs`
/// on the first BIP44 account, one of `coinjoin_duffs` on the first CoinJoin
/// account.
pub fn split_funded_wallet_steps(bip44_duffs: u64, coinjoin_duffs: u64) -> (steps: Vec<FixtureStep>)
    ensures
        steps@ == split_steps(bip44_duffs, coinjoin_duffs),
{
    let steps: Vec<FixtureStep> = vec![
        FixtureStep::Fund {
            account: FixtureAccount::Bip44,
            value: bip44_duffs,
            block: ChainLockedBlock { height: 1, hash: [0; 32], timestamp: 1_700_000_000 },
        },
        FixtureStep::Fund {
            account: FixtureAccount::CoinJoin,
            value: coinjoin_duffs,
            block: ChainLockedBlock { height: 2, hash: [0; 32], timestamp: 1_700_000_100 },
        },
    ];
    steps
}

/// The steps for a wallet with one coin of `bip44_duffs` on the first BIP44
/// account and, on the first CoinJoin account, one separate coin per entry of
/// `coinjoin_values`.
pub fn split_funded_wallet_steps_many_coinjoin(
    bip44_duffs: u64,
    coinjoin_values: &[u64],
) -> (steps: Vec<FixtureStep>)
    requires
        coinjoin_values@.len() <= 256 * 0x1_0000_0000,
    ensures
        steps@ == many_coinjoin_steps(bip44_duffs, coinjoin_values@),
{
    let mut steps: Vec<FixtureStep> = vec![
        FixtureStep::Fund {
            account: FixtureAccount::Bip44,
            value: bip44_duffs,
            block: ChainLockedBlock { height: 1, hash: [0; 32], timestamp: 1_700_000_000 },
        },
    ];
    let ghost first = steps@[0];
    let mut i: usize = 0;
    while i < coinjoin_values.len()
        invariant
            coinjoin_values@.len() <= 256 * 0x1_0000_0000,
            0 <= i <= coinjoin_values@.len(),
            first == fund_first(FixtureAccount::Bip44, bip44_duffs),
            steps@ =~= seq![first] + seeding_steps(coinjoin_values@.take(i as int)),
        decreases coinjoin_values@.len() - i,
    {
        let outpoint: OutPoint = outpoint_of_seed(i);
        steps.push(FixtureStep::SeedCoinJoin { outpoint, value: coinjoin_values[i] });
        i = i + 1;
    }
    assert(coinjoin_values@.take(i as int) =~= coinjoin_values@);
    steps.push(FixtureStep::SetLastProcessedHeight { height: 1000 });
    steps
}

fn outpoint_of_seed(i: usize) -> (outpoint: OutPoint)
    requires
        i < 256 * 0x1_0000_0000,
    ensures
        outpoint == seeded_outpoint(i as int),
{
    let fill: u8 = ((i % 256 + 1) % 256) as u8;
    OutPoint { txid: Txid { bytes: [fill; 32] }, vout: (i / 256) as u32 }
}

/// How the address that funds `account` is obtained.
pub fn funding_address_source(account: FixtureAccount) -> (source: AddressSource)
    ensures
        source == (match account {
            FixtureAccount::Bip44 => AddressSource::PreDerived,
            FixtureAccount::Bip32 => AddressSource::NextReceive,
            FixtureAccount::CoinJoin => AddressSource::NextOfSinglePool,
        }),
{
    match account {
        FixtureAccount::Bip44 => AddressSource::PreDerived,
        FixtureAccount::Bip32 => AddressSource::NextReceive,
        FixtureAccount::CoinJoin => AddressSource::NextOfSinglePool,
    }
}

/// The seeded coin at `address`: confirmed in the first block, and otherwise
/// plain.
pub fn seeded_utxo(
    outpoint: OutPoint,
    value: u64,
    address: Address,
    script_pubkey: Vec<u8>,
) -> (utxo: Utxo)
    ensures
        utxo == (Utxo {
            outpoint,
            value,
            script_pubkey,
            address,
            height: 1,
            is_coinbase: false,
            is_confirmed: true,
            is_instantlocked: false,
            is_locked: false,
            is_trusted: false,
        }),
{
    Utxo {
        outpoint,
        value,
        script_pubkey,
        address,
        height: 1,
        is_coinbase: false,
        is_confirmed: true,
        is_instantlocked: false,
        is_locked: false,
        is_trusted: false,
    }
}

impl<W: Clone, M, H: Clone, I, L> ManagerPlan<W, M, H, I, L> {
    /// The plan puts this one wallet under management on the test network. The
    /// wallet has no tracked asset locks, the balance is shared with the
    /// manager, and the signer signs for a clone of the managed wallet.
    pub open spec fn manages(
        self,
        funded: FundedWallet<W, M>,
        balance: H,
        identity_manager: I,
    ) -> bool {
        &&& self.network == Network::Testnet
        &&& self.wallets@.len() == 1
        &&& self.wallets@[0].wallet == funded.wallet
        &&& self.wallets@[0].info.core_wallet == funded.managed_wallet
        &&& self.wallets@[0].info.identity_manager == identity_manager
        &&& self.wallets@[0].info.tracked_asset_locks@ == Seq::<L>::empty()
        &&& self.balance == balance
        &&& strictly_cloned(balance, self.wallets@[0].info.balance)
        &&& strictly_cloned(funded.wallet, self.signer.wallet)
    }
}

/// What is handed out for a funded wallet: a manager on the test network that
/// holds it alone, the handle to its balance, and a soft signer over its seed.
pub fn fixture_manager_plan<W: Clone, M, H: Clone, I, L>(
    funded: FundedWallet<W, M>,
    balance: H,
    identity_manager: I,
) -> (plan: ManagerPlan<W, M, H, I, L>)
    ensures
        plan.manages(funded, balance, identity_manager),
{
    let signer: WalletSigner<W> = WalletSigner { wallet: funded.wallet.clone() };
    let info: PlatformWalletInfo<M, H, I, L> = PlatformWalletInfo {
        core_wallet: funded.managed_wallet,
        balance: balance.clone(),
        identity_manager,
        tracked_asset_locks: Vec::new(),
    };
    let mut wallets: Vec<ManagedWallet<W, M, H, I, L>> = Vec::new();
    wallets.push(ManagedWallet { wallet: funded.wallet, info });
    ManagerPlan { network: Network::Testnet, wallets, balance, signer }
}

/// The single-account wallet holds one coin, on the account that was asked
/// for, and nothing anywhere else.
pub proof fn law_single_account_wallet_holds_one_coin(account_type: StandardAccountType)
    ensures
        coins_after(single_account_steps(account_type), first_account(account_type))
            == seq![FUNDED_WALLET_DUFFS],
        forall|account: FixtureAccount|
            account != first_account(account_type) ==> #[trigger] coins_after(
                single_account_steps(account_type),
                account,
            ) == Seq::<u64>::empty(),
{
    reveal_with_fuel(coins_after, 2);
}

/// The split wallet holds one coin on each of its two accounts, and nothing
/// anywhere else.
pub proof fn law_split_wallet_holds_one_coin_per_account(bip44_duffs: u64, coinjoin_duffs: u64)
    ensures
        coins_after(split_steps(bip44_duffs, coinjoin_duffs), FixtureAccount::Bip44)
            == seq![bip44_duffs],
        coins_after(split_steps(bip44_duffs, coinjoin_duffs), FixtureAccount::CoinJoin)
            == seq![coinjoin_duffs],
        coins_after(split_steps(bip44_duffs, coinjoin_duffs), FixtureAccount::Bip32)
            == Seq::<u64>::empty(),
{
    let steps = split_steps(bip44_duffs, coinjoin_duffs);
    reveal_with_fuel(coins_after, 3);
    assert(steps.drop_last() =~= seq![fund_first(FixtureAccount::Bip44, bip44_duffs)]);
}

/// The many-coin wallet holds one coin on its BIP44 account, one coin for each
/// value on its CoinJoin account, repeats kept, and nothing anywhere else.
pub proof fn law_many_coinjoin_wallet_holds_every_value(bip44_duffs: u64, values: Seq<u64>)
    ensures
        coins_after(many_coinjoin_steps(bip44_duffs, values), FixtureAccount::Bip44)
            == seq![bip44_duffs],
        coins_after(many_coinjoin_steps(bip44_duffs, values), FixtureAccount::CoinJoin) == values,
        coins_after(many_coinjoin_steps(bip44_duffs, values), FixtureAccount::Bip32)
            == Seq::<u64>::empty(),
{
    let steps = many_coinjoin_steps(bip44_duffs, values);
    lemma_coins_after_seeding(bip44_duffs, values);
    assert(steps.drop_last() =~= seq![fund_first(FixtureAccount::Bip44, bip44_duffs)]
        + seeding_steps(values));
}

proof fn lemma_coins_after_seeding(bip44_duffs: u64, values: Seq<u64>)
    ensures
        ({
            let steps = seq![fund_first(FixtureAccount::Bip44, bip44_duffs)] + seeding_steps(
                values,
            );
            &&& coins_after(steps, FixtureAccount::Bip44) == seq![bip44_duffs]
            &&& coins_after(steps, FixtureAccount::CoinJoin) == values
            &&& coins_after(steps, FixtureAccount::Bip32) == Seq::<u64>::empty()
        }),
    decreases values.len(),
{
    let first = seq![fund_first(FixtureAccount::Bip44, bip44_duffs)];
    let steps = first + seeding_steps(values);
    if values.len() == 0 {
        assert(steps =~= first);
        reveal_with_fuel(coins_after, 2);
    } else {
        lemma_coins_after_seeding(bip44_duffs, values.drop_last());
        assert(steps.drop_last() =~= first + seeding_steps(values.drop_last()));
    }
}

/// Seeded coins are separate: no two of them share an outpoint.
pub proof fn law_seeded_outpoints_are_distinct(i: int, j: int)
    requires
        0 <= i < j < 256 * 0x1_0000_0000,
    ensures
        seeded_outpoint(i) != seeded_outpoint(j),
{
    if seeded_outpoint(i) == seeded_outpoint(j) {
        assert(seeded_outpoint(i).txid.bytes@[0] == seeded_outpoint(j).txid.bytes@[0]);
    }
}

/// The single-account wallet is funded by one transaction of ten million duffs,
/// in the first block, to the account of the type that was asked for.
pub proof fn law_single_account_is_funded_once(account_type: StandardAccountType)
    ensures
        single_account_steps(account_type).len() == 1,
        single_account_steps(account_type)[0] matches FixtureStep::Fund { account, value, block }
            && {
            &&& account_type == StandardAccountType::BIP44Account ==> account
                == FixtureAccount::Bip44
            &&& account_type == StandardAccountType::BIP32Account ==> account
                == FixtureAccount::Bip32
            &&& value == 10_000_000
            &&& block.height == 1
            &&& block.timestamp == 1_700_000_000
            &&& forall|k: int| 0 <= k < 32 ==> #[trigger] block.hash@[k] == 0
        },
{
}

/// The split wallet is funded by two transactions: the first amount to the
/// BIP44 account in the first block, then the second to the CoinJoin account
/// in the second block.
pub proof fn law_split_wallet_is_funded_twice(bip44_duffs: u64, coinjoin_duffs: u64)
    ensures
        split_steps(bip44_duffs, coinjoin_duffs).len() == 2,
        split_steps(bip44_duffs, coinjoin_duffs)[0] matches FixtureStep::Fund {
            account,
            value,
            block,
        } && {
            &&& account == FixtureAccount::Bip44
            &&& value == bip44_duffs
            &&& block.height == 1
            &&& block.timestamp == 1_700_000_000
            &&& forall|k: int| 0 <= k < 32 ==> #[trigger] block.hash@[k] == 0
        },
        split_steps(bip44_duffs, coinjoin_duffs)[1] matches FixtureStep::Fund {
            account,
            value,
            block,
        } && {
            &&& account == FixtureAccount::CoinJoin
            &&& value == coinjoin_duffs
            &&& block.height == 2
            &&& block.timestamp == 1_700_000_100
            &&& forall|k: int| 0 <= k < 32 ==> #[trigger] block.hash@[k] == 0
        },
{
}

/// The many-coin wallet is funded by one transaction to the BIP44 account in
/// the first block. Then each value is seeded, in order and whatever it is,
/// under an id that is filled with its place, and last the wallet is told that
/// it has processed a thousand blocks.
pub proof fn law_many_coinjoin_wallet_is_seeded_value_by_value(
    bip44_duffs: u64,
    values: Seq<u64>,
)
    ensures
        many_coinjoin_steps(bip44_duffs, values).len() == values.len() + 2,
        many_coinjoin_steps(bip44_duffs, values)[0] matches FixtureStep::Fund {
            account,
            value,
            block,
        } && {
            &&& account == FixtureAccount::Bip44
            &&& value == bip44_duffs
            &&& block.height == 1
            &&& block.timestamp == 1_700_000_000
            &&& forall|k: int| 0 <= k < 32 ==> #[trigger] block.hash@[k] == 0
        },
        forall|i: int|
            0 <= i < values.len() ==> {
                &&& (#[trigger] many_coinjoin_steps(bip44_duffs, values)[i
                    + 1]) is SeedCoinJoin
                &&& many_coinjoin_steps(bip44_duffs, values)[i + 1]->SeedCoinJoin_value
                    == values[i]
                &&& i < 255 ==> {
                    let outpoint = many_coinjoin_steps(bip44_duffs, values)[i + 1]->outpoint;
                    &&& outpoint.vout == 0
                    &&& forall|k: int| 0 <= k < 32 ==> #[trigger] outpoint.txid.bytes@[k] == i + 1
                }
            },
        many_coinjoin_steps(bip44_duffs, values)[values.len() as int + 1] matches
            FixtureStep::SetLastProcessedHeight { height } && height == 1000,
{
}

/// No two seeded coins of one wallet have the same outpoint.
pub proof fn law_seeded_coins_of_a_wallet_are_separate(
    bip44_duffs: u64,
    values: Seq<u64>,
    i: int,
    j: int,
)
    requires
        values.len() <= 256 * 0x1_0000_0000,
        0 <= i < j < values.len(),
    ensures
        many_coinjoin_steps(bip44_duffs, values)[i + 1]->outpoint != many_coinjoin_steps(
            bip44_duffs,
            values,
        )[j + 1]->outpoint,
{
    law_seeded_outpoints_are_distinct(i, j);
}

/// What a fixture hands out is for the wallet that was funded, and for no
/// other: one wallet is managed, on the test network, with the keys and the
/// coins of the funded one and without tracked locks. The balance that is
/// handed out is the given one, of which the manager holds a clone, and the
/// signer signs for a clone of the managed keys.
pub proof fn law_plan_is_for_the_funded_wallet<W: Clone, M, H: Clone, I, L>(
    plan: ManagerPlan<W, M, H, I, L>,
    funded: FundedWallet<W, M>,
    balance: H,
    identity_manager: I,
)
    requires
        plan.manages(funded, balance, identity_manager),
    ensures
        plan.network is Testnet,
        plan.wallets@.len() == 1,
        plan.wallets@[0].wallet == funded.wallet,
        plan.wallets@[0].info.core_wallet == funded.managed_wallet,
        plan.wallets@[0].info.identity_manager == identity_manager,
        plan.wallets@[0].info.tracked_asset_locks@.len() == 0,
        plan.balance == balance,
        strictly_cloned(plan.balance, plan.wallets@[0].info.balance),
        strictly_cloned(plan.wallets@[0].wallet, plan.signer.wallet),
{
}

/// The steps that the functions themselves return are those that the laws above
/// speak of.
pub proof fn law_fixtures_return_their_steps(
    account_type: StandardAccountType,
    bip44_duffs: u64,
    coinjoin_duffs: u64,
    coinjoin_values: &[u64],
    single: Vec<FixtureStep>,
    split: Vec<FixtureStep>,
    many: Vec<FixtureStep>,
)
    requires
        call_ensures(funded_wallet_steps, (account_type,), single),
        call_ensures(split_funded_wallet_steps, (bip44_duffs, coinjoin_duffs), split),
        call_ensures(
            split_funded_wallet_steps_many_coinjoin,
            (bip44_duffs, coinjoin_values),
            many,
        ),
    ensures
        single@ == single_account_steps(account_type),
        split@ == split_steps(bip44_duffs, coinjoin_duffs),
        many@ == many_coinjoin_steps(bip44_duffs, coinjoin_values@),
        many@.len() == coinjoin_values@.len() + 2,
        coins_after(many@, FixtureAccount::CoinJoin) == coinjoin_values@,
{
    law_many_coinjoin_wallet_holds_every_value(bip44_duffs, coinjoin_values@);
}

/// Each account has its own source of addresses: the BIP44 account the address
/// that a fresh wallet has, the BIP32 account its receive pool, and the
/// CoinJoin account its only pool.
pub proof fn law_each_account_has_its_own_source(account: FixtureAccount, source: AddressSource)
    requires
        call_ensures(funding_address_source, (account,), source),
    ensures
        source is PreDerived <==> account is Bip44,
        source is NextReceive <==> account is Bip32,
        source is NextOfSinglePool <==> account is CoinJoin,
{
}

/// A seeded coin is the one that was asked for, confirmed in the first block,
/// and nothing special otherwise.
pub proof fn law_seeded_coin_is_final_and_plain(
    outpoint: OutPoint,
    value: u64,
    address: Address,
    script_pubkey: Vec<u8>,
    utxo: Utxo,
)
    requires
        call_ensures(seeded_utxo, (outpoint, value, address, script_pubkey), utxo),
    ensures
        utxo.outpoint == outpoint,
        utxo.value == value,
        utxo.address.bytes@ == address.bytes@,
        utxo.script_pubkey@ == script_pubkey@,
        utxo.height == 1,
        utxo.is_confirmed,
        !utxo.is_coinbase,
        !utxo.is_instantlocked,
        !utxo.is_locked,
        !utxo.is_trusted,
{
}

/// The plan that the function itself makes is for the wallet that was funded.
pub proof fn law_fixture_plan_manages_the_funded_wallet<W: Clone, M, H: Clone, I, L>(
    funded: FundedWallet<W, M>,
    balance: H,
    identity_manager: I,
    plan: ManagerPlan<W, M, H, I, L>,
)
    requires
        call_ensures(
            fixture_manager_plan::<W, M, H, I, L>,
            (funded, balance, identity_manager),
            plan,
        ),
    ensures
        plan.network is Testnet,
        plan.wallets@.len() == 1,
        plan.wallets@[0].wallet == funded.wallet,
        plan.wallets@[0].info.core_wallet == funded.managed_wallet,
        plan.wallets@[0].info.identity_manager == identity_manager,
        plan.wallets@[0].info.tracked_asset_locks@.len() == 0,
        plan.balance == balance,
        strictly_cloned(balance, plan.wallets@[0].info.balance),
        strictly_cloned(funded.wallet, plan.signer.wallet),
{
}

} // verus!
