//! The union of the spendable coins of every funds account of a wallet.

use vstd::prelude::*;

use crate::wallet::types::{Address, DerivationPath, OutPoint, Utxo, UtxoView};

verus! {

/// A coin that an account can spend, with the derivation path of its address,
/// where the account knows it.
pub struct SpendableUtxo {
    pub utxo: Utxo,
    pub path: Option<DerivationPath>,
}

/// A spendable coin with its bytes and path as sequences.
pub struct SpendableView {
    pub utxo: UtxoView,
    pub path: Option<Seq<u32>>,
}

impl View for SpendableUtxo {
    type V = SpendableView;

    open spec fn view(&self) -> SpendableView {
        SpendableView {
            utxo: self.utxo@,
            path: match self.path {
                Some(path) => Some(path@),
                None => None,
            },
        }
    }
}

/// A funds account: its index, if it is a standard BIP44 account, and the
/// coins that it can spend at the current height.
pub struct FundingAccount {
    pub bip44_index: Option<u32>,
    pub spendable: Vec<SpendableUtxo>,
}

/// The coins of one account.
pub open spec fn coins_of(account: FundingAccount) -> Seq<SpendableView> {
    account.spendable@.map_values(|coin: SpendableUtxo| coin@)
}

/// The coins of all accounts, account by account.
pub open spec fn all_coins(accounts: Seq<FundingAccount>) -> Seq<SpendableView>
    decreases accounts.len(),
{
    if accounts.len() == 0 {
        Seq::empty()
    } else {
        all_coins(accounts.drop_last()) + coins_of(accounts.last())
    }
}

/// The account with index `account_index` among the standard BIP44 accounts
/// holds the coin at `outpoint`.
pub open spec fn is_primary(
    accounts: Seq<FundingAccount>,
    account_index: u32,
    outpoint: OutPoint,
) -> bool {
    exists|a: int, c: int|
        0 <= a < accounts.len() && #[trigger] accounts[a].bip44_index == Some(account_index) && 0
            <= c < accounts[a].spendable@.len()
            && #[trigger] accounts[a].spendable@[c].utxo.outpoint == outpoint
}

/// The coins that are not the primary account's.
pub open spec fn extra_coins(
    coins: Seq<SpendableView>,
    accounts: Seq<FundingAccount>,
    account_index: u32,
) -> Seq<UtxoView> {
    coins.filter(
        |coin: SpendableView| !is_primary(accounts, account_index, coin.utxo.outpoint),
    ).map_values(|coin: SpendableView| coin.utxo)
}

/// The sum of the coins, in duffs.
pub open spec fn total_value(coins: Seq<SpendableView>) -> nat
    decreases coins.len(),
{
    if coins.len() == 0 {
        0
    } else {
        total_value(coins.drop_last()) + coins.last().utxo.value as nat
    }
}

/// The derivation path of each address whose path is known. Of several for
/// one address, the last counts.
pub open spec fn known_paths(coins: Seq<SpendableView>) -> Map<Seq<u8>, Seq<u32>>
    decreases coins.len(),
{
    if coins.len() == 0 {
        Map::empty()
    } else {
        match coins.last().path {
            Some(path) => known_paths(coins.drop_last()).insert(coins.last().utxo.address, path),
            None => known_paths(coins.drop_last()),
        }
    }
}

/// Finds the derivation path of an address, so that an input of any account
/// can be signed.
pub struct PathResolver {
    entries: Vec<(Address, DerivationPath)>,
}

/// What a list of entries maps each address to: the path that was entered
/// last.
spec fn last_entered(entries: Seq<(Address, DerivationPath)>) -> Map<Seq<u8>, Seq<u32>>
    decreases entries.len(),
{
    if entries.len() == 0 {
        Map::empty()
    } else {
        last_entered(entries.drop_last()).insert(entries.last().0@, entries.last().1@)
    }
}

impl View for PathResolver {
    type V = Map<Seq<u8>, Seq<u32>>;

    closed spec fn view(&self) -> Map<Seq<u8>, Seq<u32>> {
        last_entered(self.entries@)
    }
}

impl PathResolver {
    pub fn new() -> (resolver: PathResolver)
        ensures
            resolver@ == Map::<Seq<u8>, Seq<u32>>::empty(),
    {
        PathResolver { entries: Vec::new() }
    }

    /// Enters the path of an address, in place of any that was there.
    pub fn insert(&mut self, address: Address, path: DerivationPath)
        ensures
            final(self)@ == old(self)@.insert(address@, path@),
    {
        let ghost before = self.entries@;
        self.entries.push((address, path));
        assert(self.entries@.drop_last() =~= before);
    }

    /// The path of an address, if it is known.
    pub fn resolve(&self, address: &Address) -> (path: Option<DerivationPath>)
        ensures
            path is Some <==> self@.contains_key(address@),
            path matches Some(p) ==> p@ == self@[address@],
    {
        let mut i: usize = self.entries.len();
        assert(self.entries@.take(i as int) =~= self.entries@);
        while i > 0
            invariant
                0 <= i <= self.entries@.len(),
                self@.contains_key(address@) == last_entered(
                    self.entries@.take(i as int),
                ).contains_key(address@),
                self@[address@] == last_entered(self.entries@.take(i as int))[address@],
            decreases i,
        {
            assert(self.entries@.take(i as int).drop_last() =~= self.entries@.take(i - 1));
            if self.entries[i - 1].0.same(address) {
                return Some(self.entries[i - 1].1.clone());
            }
            i = i - 1;
        }
        None
    }
}

/// The inputs of an asset lock that spends from every funds account.
pub struct UnionInputs {
    /// Resolves the signing path of an input from any account.
    pub paths: PathResolver,
    /// The coins of the accounts other than the primary one.
    pub extra_inputs: Vec<Utxo>,
    /// The sum of all coins, in duffs; `u64::MAX` where it is larger.
    pub union_value: u64,
    /// How many coins there are in all.
    pub union_count: usize,
}

/// The outpoints that the primary account can spend.
fn primary_outpoints(accounts: &Vec<FundingAccount>, account_index: u32) -> (outpoints: Vec<
    OutPoint,
>)
    ensures
        forall|o: OutPoint| #[trigger]
            outpoints@.contains(o) <==> is_primary(accounts@, account_index, o),
{
    let mut outpoints: Vec<OutPoint> = Vec::new();
    let mut a: usize = 0;
    while a < accounts.len()
        invariant
            0 <= a <= accounts@.len(),
            forall|o: OutPoint| #[trigger]
                outpoints@.contains(o) <==> is_primary(accounts@.take(a as int), account_index, o),
        decreases accounts@.len() - a,
    {
        let ghost before = outpoints@;
        let ghost next = accounts@.take(a + 1);
        let account: &FundingAccount = &accounts[a];
        let mut primary: bool = false;
        if let Some(index) = account.bip44_index {
            primary = index == account_index;
        }
        if primary {
            let mut c: usize = 0;
            while c < account.spendable.len()
                invariant
                    0 <= c <= account.spendable@.len(),
                    outpoints@ =~= before + Seq::new(
                        c as nat,
                        |i: int| account.spendable@[i].utxo.outpoint,
                    ),
                decreases account.spendable@.len() - c,
            {
                outpoints.push(account.spendable[c].utxo.outpoint);
                c = c + 1;
            }
        }
        assert forall|o: OutPoint| #[trigger]
            outpoints@.contains(o) <==> is_primary(next, account_index, o) by {
            if outpoints@.contains(o) {
                let k = choose|k: int| 0 <= k < outpoints@.len() && outpoints@[k] == o;
                if k < before.len() {
                    assert(before.contains(o));
                } else {
                    assert(next[a as int].spendable@[k - before.len()].utxo.outpoint == o);
                }
            }
            if is_primary(next, account_index, o) {
                let (x, y) = choose|x: int, y: int|
                    0 <= x < next.len() && #[trigger] next[x].bip44_index == Some(account_index) && 0
                        <= y < next[x].spendable@.len()
                        && #[trigger] next[x].spendable@[y].utxo.outpoint == o;
                if x < a {
                    assert(before.contains(o));
                    let k = choose|k: int| 0 <= k < before.len() && before[k] == o;
                    assert(outpoints@[k] == o);
                } else {
                    assert(outpoints@[before.len() + y] == o);
                }
            }
        }
        a = a + 1;
    }
    assert(accounts@.take(a as int) =~= accounts@);
    outpoints
}

fn contains_outpoint(outpoints: &Vec<OutPoint>, outpoint: &OutPoint) -> (found: bool)
    ensures
        found == outpoints@.contains(*outpoint),
{
    let mut i: usize = 0;
    while i < outpoints.len()
        invariant
            0 <= i <= outpoints@.len(),
            forall|j: int| 0 <= j < i ==> outpoints@[j] != *outpoint,
        decreases outpoints@.len() - i,
    {
        if outpoints[i] == *outpoint {
            return true;
        }
        i = i + 1;
    }
    false
}

/// Whether the coins of all accounts can be counted.
pub fn coins_can_be_counted(accounts: &Vec<FundingAccount>) -> (countable: bool)
    ensures
        countable == (all_coins(accounts@).len() <= usize::MAX),
{
    let mut count: usize = 0;
    let mut a: usize = 0;
    while a < accounts.len()
        invariant
            0 <= a <= accounts@.len(),
            count == all_coins(accounts@.take(a as int)).len(),
        decreases accounts@.len() - a,
    {
        proof {
            assert(accounts@.take(a + 1).drop_last() =~= accounts@.take(a as int));
            lemma_all_coins_prefix(accounts@, a + 1);
        }
        match count.checked_add(accounts[a].spendable.len()) {
            Some(sum) => {
                count = sum;
            },
            None => {
                return false;
            },
        }
        a = a + 1;
    }
    assert(accounts@.take(a as int) =~= accounts@);
    true
}

/// Gathers the coins of all funds accounts for an asset lock whose primary
/// account is the standard BIP44 account `account_index`: the coins to add to
/// that account's own, and the paths to sign any of them with.
pub fn gather_inputs(accounts: &Vec<FundingAccount>, account_index: u32) -> (inputs: UnionInputs)
    requires
        all_coins(accounts@).len() <= usize::MAX,
    ensures
        inputs.paths@ == known_paths(all_coins(accounts@)),
        inputs.extra_inputs@.map_values(|utxo: Utxo| utxo@) == extra_coins(
            all_coins(accounts@),
            accounts@,
            account_index,
        ),
        inputs.union_value == if total_value(all_coins(accounts@)) <= u64::MAX {
            total_value(all_coins(accounts@)) as int
        } else {
            u64::MAX as int
        },
        inputs.union_count == all_coins(accounts@).len(),
        forall|a: int, c: int, i: int|
            0 <= a < accounts@.len() && accounts@[a].bip44_index == Some(account_index) && 0 <= c
                < accounts@[a].spendable@.len() && 0 <= i < inputs.extra_inputs@.len() ==> (
            #[trigger] inputs.extra_inputs@[i]).outpoint != (
            #[trigger] accounts@[a].spendable@[c]).utxo.outpoint,
{
    let primary: Vec<OutPoint> = primary_outpoints(accounts, account_index);
    let mut inputs: UnionInputs = UnionInputs {
        paths: PathResolver::new(),
        extra_inputs: Vec::new(),
        union_value: 0,
        union_count: 0,
    };
    let ghost keep = |coin: SpendableView|
        !is_primary(accounts@, account_index, coin.utxo.outpoint);
    let ghost mut coins: Seq<SpendableView> = Seq::empty();
    proof {
        reveal(Seq::filter);
    }
    let mut a: usize = 0;
    while a < accounts.len()
        invariant
            0 <= a <= accounts@.len(),
            all_coins(accounts@).len() <= usize::MAX,
            forall|o: OutPoint| #[trigger]
                primary@.contains(o) <==> is_primary(accounts@, account_index, o),
            keep == (|coin: SpendableView|
                !is_primary(accounts@, account_index, coin.utxo.outpoint)),
            coins == all_coins(accounts@.take(a as int)),
            inputs.paths@ == known_paths(coins),
            inputs.extra_inputs@.map_values(|utxo: Utxo| utxo@) == coins.filter(keep).map_values(
                |coin: SpendableView| coin.utxo,
            ),
            inputs.union_value == if total_value(coins) <= u64::MAX {
                total_value(coins) as int
            } else {
                u64::MAX as int
            },
            inputs.union_count == coins.len(),
        decreases accounts@.len() - a,
    {
        let account: &FundingAccount = &accounts[a];
        let ghost start = coins;
        proof {
            assert(accounts@.take(a + 1).drop_last() =~= accounts@.take(a as int));
            lemma_all_coins_prefix(accounts@, a + 1);
        }
        let mut c: usize = 0;
        while c < account.spendable.len()
            invariant
                0 <= c <= account.spendable@.len(),
                start.len() + account.spendable@.len() <= usize::MAX,
                forall|o: OutPoint| #[trigger]
                    primary@.contains(o) <==> is_primary(accounts@, account_index, o),
                keep == (|coin: SpendableView|
                    !is_primary(accounts@, account_index, coin.utxo.outpoint)),
                coins =~= start + coins_of(*account).take(c as int),
                inputs.paths@ == known_paths(coins),
                inputs.extra_inputs@.map_values(|utxo: Utxo| utxo@) == coins.filter(
                    keep,
                ).map_values(|coin: SpendableView| coin.utxo),
                inputs.union_value == if total_value(coins) <= u64::MAX {
                    total_value(coins) as int
                } else {
                    u64::MAX as int
                },
                inputs.union_count == coins.len(),
            decreases account.spendable@.len() - c,
        {
            let coin: &SpendableUtxo = &account.spendable[c];
            let ghost before = coins;
            proof {
                coins = coins.push(coin@);
                assert(coins.drop_last() =~= before);
                reveal(Seq::filter);
            }
            inputs.union_value = inputs.union_value.saturating_add(coin.utxo.value);
            inputs.union_count = inputs.union_count + 1;
            if let Some(path) = &coin.path {
                inputs.paths.insert(coin.utxo.address.clone(), path.clone());
            }
            if !contains_outpoint(&primary, &coin.utxo.outpoint) {
                inputs.extra_inputs.push(coin.utxo.clone());
                assert(coins.filter(keep).map_values(|coin: SpendableView| coin.utxo)
                    =~= before.filter(keep).map_values(|coin: SpendableView| coin.utxo).push(
                    coin.utxo@,
                ));
            }
            c = c + 1;
        }
        a = a + 1;
    }
    assert(accounts@.take(a as int) =~= accounts@);
    assert forall|a: int, c: int, i: int|
        0 <= a < accounts@.len() && accounts@[a].bip44_index == Some(account_index) && 0 <= c
            < accounts@[a].spendable@.len() && 0 <= i < inputs.extra_inputs@.len() implies (
    #[trigger] inputs.extra_inputs@[i]).outpoint != (
    #[trigger] accounts@[a].spendable@[c]).utxo.outpoint by {
        law_no_returned_input_is_primary(
            accounts@,
            account_index,
            inputs.extra_inputs@,
            a,
            c,
            i,
        );
    }
    inputs
}

/// The first accounts hold no more coins than all of them.
proof fn lemma_all_coins_prefix(accounts: Seq<FundingAccount>, n: int)
    requires
        0 <= n <= accounts.len(),
    ensures
        all_coins(accounts.take(n)).len() <= all_coins(accounts).len(),
    decreases accounts.len() - n,
{
    if n < accounts.len() {
        lemma_all_coins_prefix(accounts, n + 1);
        assert(accounts.take(n + 1).drop_last() =~= accounts.take(n));
    } else {
        assert(accounts.take(n) =~= accounts);
    }
}

/// A coin is kept by the filter exactly where the sequence holds it and it
/// passes.
proof fn lemma_kept_coins(coins: Seq<SpendableView>, keep: spec_fn(SpendableView) -> bool)
    ensures
        forall|coin: SpendableView| #[trigger]
            coins.filter(keep).contains(coin) <==> coins.contains(coin) && keep(coin),
    decreases coins.len(),
{
    reveal(Seq::filter);
    if coins.len() > 0 {
        let rest = coins.drop_last();
        let last = coins.last();
        lemma_kept_coins(rest, keep);
        assert forall|coin: SpendableView| #[trigger]
            coins.filter(keep).contains(coin) <==> coins.contains(coin) && keep(coin) by {
            lemma_push_contains(rest.filter(keep), last, coin);
        }
    }
}

proof fn lemma_push_contains<T>(items: Seq<T>, last: T, item: T)
    ensures
        items.push(last).contains(item) <==> items.contains(item) || item == last,
{
    if items.contains(item) {
        let i = choose|i: int| 0 <= i < items.len() && items[i] == item;
        assert(items.push(last)[i] == item);
    }
    if item == last {
        assert(items.push(last)[items.len() as int] == item);
    }
}

/// The extra inputs are exactly the coins that the primary account does not
/// already contribute: none of them is primary, and no other coin is left out.
pub proof fn law_primary_and_extra_inputs_are_the_union(
    accounts: Seq<FundingAccount>,
    account_index: u32,
    utxo: UtxoView,
)
    ensures
        extra_coins(all_coins(accounts), accounts, account_index).contains(utxo) <==> {
            &&& !is_primary(accounts, account_index, utxo.outpoint)
            &&& exists|coin: SpendableView| #[trigger]
                all_coins(accounts).contains(coin) && coin.utxo == utxo
        },
{
    let coins = all_coins(accounts);
    let keep = |coin: SpendableView| !is_primary(accounts, account_index, coin.utxo.outpoint);
    let kept = coins.filter(keep);
    let extra = extra_coins(coins, accounts, account_index);
    lemma_kept_coins(coins, keep);
    if extra.contains(utxo) {
        let i = choose|i: int| 0 <= i < extra.len() && extra[i] == utxo;
        assert(kept.contains(kept[i]));
    }
    if !is_primary(accounts, account_index, utxo.outpoint) && exists|coin: SpendableView| #[trigger]
        coins.contains(coin) && coin.utxo == utxo {
        let coin = choose|coin: SpendableView| #[trigger]
            coins.contains(coin) && coin.utxo == utxo;
        assert(kept.contains(coin));
        let i = choose|i: int| 0 <= i < kept.len() && kept[i] == coin;
        assert(extra[i] == utxo);
    }
}

/// Where no two coins of the wallet share an outpoint, no two extra inputs do:
/// nothing is spent twice.
pub proof fn law_no_extra_input_occurs_twice(
    accounts: Seq<FundingAccount>,
    account_index: u32,
    i: int,
    j: int,
)
    requires
        forall|x: int, y: int|
            0 <= x < y < all_coins(accounts).len() ==> (#[trigger] all_coins(
                accounts,
            )[x]).utxo.outpoint != (#[trigger] all_coins(accounts)[y]).utxo.outpoint,
        0 <= i < j < extra_coins(all_coins(accounts), accounts, account_index).len(),
    ensures
        extra_coins(all_coins(accounts), accounts, account_index)[i].outpoint != extra_coins(
            all_coins(accounts),
            accounts,
            account_index,
        )[j].outpoint,
{
    let keep = |coin: SpendableView| !is_primary(accounts, account_index, coin.utxo.outpoint);
    lemma_kept_coins_distinct(all_coins(accounts), keep, i, j);
}

proof fn lemma_kept_coins_distinct(
    coins: Seq<SpendableView>,
    keep: spec_fn(SpendableView) -> bool,
    i: int,
    j: int,
)
    requires
        forall|x: int, y: int|
            0 <= x < y < coins.len() ==> (#[trigger] coins[x]).utxo.outpoint != (
            #[trigger] coins[y]).utxo.outpoint,
        0 <= i < j < coins.filter(keep).len(),
    ensures
        coins.filter(keep)[i].utxo.outpoint != coins.filter(keep)[j].utxo.outpoint,
    decreases coins.len(),
{
    reveal(Seq::filter);
    let rest = coins.drop_last();
    if j < rest.filter(keep).len() {
        lemma_kept_coins_distinct(rest, keep, i, j);
    } else {
        lemma_kept_coins(rest, keep);
        let earlier = rest.filter(keep)[i];
        assert(rest.filter(keep).contains(earlier));
    }
}

/// The value of the union is what the primary account contributes plus what
/// the extra inputs add.
pub proof fn law_union_value_is_primary_plus_extra(
    coins: Seq<SpendableView>,
    accounts: Seq<FundingAccount>,
    account_index: u32,
)
    ensures
        total_value(coins) == total_value(
            coins.filter(
                |coin: SpendableView| is_primary(accounts, account_index, coin.utxo.outpoint),
            ),
        ) + total_value(
            coins.filter(
                |coin: SpendableView| !is_primary(accounts, account_index, coin.utxo.outpoint),
            ),
        ),
    decreases coins.len(),
{
    reveal(Seq::filter);
    let primary = |coin: SpendableView| is_primary(accounts, account_index, coin.utxo.outpoint);
    let extra = |coin: SpendableView| !is_primary(accounts, account_index, coin.utxo.outpoint);
    if coins.len() > 0 {
        let rest = coins.drop_last();
        law_union_value_is_primary_plus_extra(rest, accounts, account_index);
        assert(rest.filter(primary).push(coins.last()).drop_last() =~= rest.filter(primary));
        assert(rest.filter(extra).push(coins.last()).drop_last() =~= rest.filter(extra));
    }
}

/// Every coin whose account knows the path of its address can be signed for:
/// its address resolves, to a path that some account gave for it.
pub proof fn law_every_input_with_a_path_resolves(coins: Seq<SpendableView>, i: int)
    requires
        0 <= i < coins.len(),
        coins[i].path is Some,
    ensures
        known_paths(coins).contains_key(coins[i].utxo.address),
        exists|j: int|
            0 <= j < coins.len() && (#[trigger] coins[j]).utxo.address == coins[i].utxo.address
                && coins[j].path == Some(known_paths(coins)[coins[i].utxo.address]),
    decreases coins.len(),
{
    let rest = coins.drop_last();
    let last = coins.len() - 1;
    if coins[last].path is None || coins[last].utxo.address != coins[i].utxo.address {
        law_every_input_with_a_path_resolves(rest, i);
    }
}

/// The coins that are swept are those that the accounts can spend, each once,
/// account after account and coin after coin.
pub proof fn law_every_spendable_coin_is_swept(accounts: Seq<FundingAccount>, a: int)
    requires
        0 <= a < accounts.len(),
    ensures
        all_coins(accounts.take(0)).len() == 0,
        all_coins(accounts.take(accounts.len() as int)) == all_coins(accounts),
        all_coins(accounts.take(a + 1)).len() == all_coins(accounts.take(a)).len()
            + accounts[a].spendable@.len(),
        all_coins(accounts.take(a + 1)).len() <= all_coins(accounts).len(),
        forall|c: int|
            0 <= c < accounts[a].spendable@.len() ==> {
                let coin = all_coins(accounts)[all_coins(accounts.take(a)).len() + c];
                &&& coin.utxo == (#[trigger] accounts[a].spendable@[c]).utxo@
                &&& coin.path is Some <==> accounts[a].spendable@[c].path is Some
                &&& coin.path matches Some(path) ==> path
                    == accounts[a].spendable@[c].path->0.children@
            },
    decreases accounts.len(),
{
    assert(accounts.take(accounts.len() as int) =~= accounts);
    assert(accounts.take(a + 1).drop_last() =~= accounts.take(a));
    lemma_all_coins_prefix(accounts, a + 1);
    if a < accounts.len() - 1 {
        let rest = accounts.drop_last();
        law_every_spendable_coin_is_swept(rest, a);
        assert(rest.take(a) =~= accounts.take(a));
        assert(rest.take(a + 1) =~= accounts.take(a + 1));
        assert forall|c: int| 0 <= c < accounts[a].spendable@.len() implies {
            let coin = all_coins(accounts)[all_coins(accounts.take(a)).len() + c];
            &&& coin.utxo == (#[trigger] accounts[a].spendable@[c]).utxo@
            &&& coin.path is Some <==> accounts[a].spendable@[c].path is Some
            &&& coin.path matches Some(path) ==> path
                == accounts[a].spendable@[c].path->0.children@
        } by {
            assert(rest[a].spendable@[c] == accounts[a].spendable@[c]);
        }
    } else {
        assert(accounts.drop_last() =~= accounts.take(a));
    }
}

/// Where a swept coin comes from: some account can spend it.
proof fn lemma_swept_coin_is_spendable(accounts: Seq<FundingAccount>, p: int) -> (place: (int, int))
    requires
        0 <= p < all_coins(accounts).len(),
    ensures
        0 <= place.0 < accounts.len(),
        0 <= place.1 < accounts[place.0].spendable@.len(),
        all_coins(accounts)[p] == accounts[place.0].spendable@[place.1]@,
    decreases accounts.len(),
{
    let rest = accounts.drop_last();
    if p < all_coins(rest).len() {
        lemma_swept_coin_is_spendable(rest, p)
    } else {
        (accounts.len() - 1, p - all_coins(rest).len())
    }
}

/// No coin of the primary account is added a second time, whatever its flags:
/// no extra input has the outpoint of a coin that the standard BIP44 account
/// `account_index` can spend.
pub proof fn law_no_primary_coin_is_added_twice(
    accounts: Seq<FundingAccount>,
    account_index: u32,
    a: int,
    c: int,
    i: int,
)
    requires
        0 <= a < accounts.len(),
        accounts[a].bip44_index == Some(account_index),
        0 <= c < accounts[a].spendable@.len(),
        0 <= i < extra_coins(all_coins(accounts), accounts, account_index).len(),
    ensures
        extra_coins(all_coins(accounts), accounts, account_index)[i].outpoint
            != accounts[a].spendable@[c].utxo.outpoint,
{
    let extra = extra_coins(all_coins(accounts), accounts, account_index);
    law_primary_and_extra_inputs_are_the_union(accounts, account_index, extra[i]);
    assert(extra.contains(extra[i]));
}

/// The same of the extra inputs that are returned: none of them has the
/// outpoint of a coin of the primary account, whatever the flags of the coin.
pub proof fn law_no_returned_input_is_primary(
    accounts: Seq<FundingAccount>,
    account_index: u32,
    extra_inputs: Seq<Utxo>,
    a: int,
    c: int,
    i: int,
)
    requires
        extra_inputs.map_values(|utxo: Utxo| utxo@) == extra_coins(
            all_coins(accounts),
            accounts,
            account_index,
        ),
        0 <= a < accounts.len(),
        accounts[a].bip44_index == Some(account_index),
        0 <= c < accounts[a].spendable@.len(),
        0 <= i < extra_inputs.len(),
    ensures
        extra_inputs[i].outpoint != accounts[a].spendable@[c].utxo.outpoint,
{
    let views = extra_inputs.map_values(|utxo: Utxo| utxo@);
    assert(views[i] == extra_inputs[i]@);
    law_no_primary_coin_is_added_twice(accounts, account_index, a, c, i);
}

/// The same of the extra inputs that are returned: a coin at an outpoint that
/// the primary account cannot spend is one of them.
pub proof fn law_every_other_coin_is_returned(
    accounts: Seq<FundingAccount>,
    account_index: u32,
    extra_inputs: Seq<Utxo>,
    a: int,
    c: int,
) -> (i: int)
    requires
        extra_inputs.map_values(|utxo: Utxo| utxo@) == extra_coins(
            all_coins(accounts),
            accounts,
            account_index,
        ),
        0 <= a < accounts.len(),
        0 <= c < accounts[a].spendable@.len(),
        forall|x: int, y: int|
            0 <= x < accounts.len() && (#[trigger] accounts[x]).bip44_index == Some(account_index)
                && 0 <= y < accounts[x].spendable@.len()
                ==> #[trigger] accounts[x].spendable@[y].utxo.outpoint
                != accounts[a].spendable@[c].utxo.outpoint,
    ensures
        0 <= i < extra_inputs.len(),
        extra_inputs[i].outpoint == accounts[a].spendable@[c].utxo.outpoint,
        extra_inputs[i].value == accounts[a].spendable@[c].utxo.value,
        extra_inputs[i].address.bytes@ == accounts[a].spendable@[c].utxo.address.bytes@,
        extra_inputs[i].script_pubkey@ == accounts[a].spendable@[c].utxo.script_pubkey@,
{
    let views = extra_inputs.map_values(|utxo: Utxo| utxo@);
    let coin = accounts[a].spendable@[c].utxo@;
    law_no_other_coin_is_left_out(accounts, account_index, a, c);
    let i = choose|i: int| 0 <= i < views.len() && views[i] == coin;
    assert(views[i] == extra_inputs[i]@);
    i
}

/// No other coin is left out: a coin whose outpoint the standard BIP44 account
/// `account_index` cannot spend is among the extra inputs, with all its fields.
pub proof fn law_no_other_coin_is_left_out(
    accounts: Seq<FundingAccount>,
    account_index: u32,
    a: int,
    c: int,
)
    requires
        0 <= a < accounts.len(),
        0 <= c < accounts[a].spendable@.len(),
        forall|x: int, y: int|
            0 <= x < accounts.len() && (#[trigger] accounts[x]).bip44_index == Some(account_index)
                && 0 <= y < accounts[x].spendable@.len()
                ==> #[trigger] accounts[x].spendable@[y].utxo.outpoint
                != accounts[a].spendable@[c].utxo.outpoint,
    ensures
        extra_coins(all_coins(accounts), accounts, account_index).contains(
            accounts[a].spendable@[c].utxo@,
        ),
{
    let utxo = accounts[a].spendable@[c].utxo@;
    law_every_spendable_coin_is_swept(accounts, a);
    let p = all_coins(accounts.take(a)).len() + c;
    assert(accounts[a].spendable@[c].utxo@ == all_coins(accounts)[p].utxo);
    assert(all_coins(accounts).contains(all_coins(accounts)[p]));
    law_primary_and_extra_inputs_are_the_union(accounts, account_index, utxo);
}

/// No account that is the standard BIP44 account `account_index` can spend a
/// coin at `outpoint`.
pub open spec fn no_primary_coin_at(
    accounts: Seq<FundingAccount>,
    account_index: u32,
    outpoint: OutPoint,
) -> bool {
    forall|x: int, y: int|
        0 <= x < accounts.len() && (#[trigger] accounts[x]).bip44_index == Some(account_index) && 0
            <= y < accounts[x].spendable@.len()
            ==> #[trigger] accounts[x].spendable@[y].utxo.outpoint != outpoint
}

/// Every extra input is a coin that some account can spend, and that account
/// is not the primary one. The extra inputs keep the order of the sweep, and
/// each coin that is not the primary account's is added as often as it was
/// swept: `picks` says which coin each of them is.
pub proof fn law_extra_inputs_are_picked_in_order(
    accounts: Seq<FundingAccount>,
    account_index: u32,
) -> (picks: Seq<int>)
    ensures
        picks.len() == extra_coins(all_coins(accounts), accounts, account_index).len(),
        forall|i: int, j: int|
            0 <= i < j < picks.len() ==> #[trigger] picks[i] < #[trigger] picks[j],
        forall|i: int|
            0 <= i < picks.len() ==> {
                &&& 0 <= #[trigger] picks[i] < all_coins(accounts).len()
                &&& extra_coins(all_coins(accounts), accounts, account_index)[i] == all_coins(
                    accounts,
                )[picks[i]].utxo
                &&& exists|a: int, c: int|
                    0 <= a < accounts.len() && accounts[a].bip44_index != Some(account_index) && 0
                        <= c < accounts[a].spendable@.len() && extra_coins(
                        all_coins(accounts),
                        accounts,
                        account_index,
                    )[i] == (#[trigger] accounts[a].spendable@[c]).utxo@
            },
        forall|p: int|
            0 <= p < all_coins(accounts).len() && no_primary_coin_at(
                accounts,
                account_index,
                (#[trigger] all_coins(accounts)[p]).utxo.outpoint,
            ) ==> picks.contains(p),
{
    let keep = |coin: SpendableView| !is_primary(accounts, account_index, coin.utxo.outpoint);
    let coins = all_coins(accounts);
    let extra = extra_coins(coins, accounts, account_index);
    let picks = lemma_filter_picks(coins, keep);
    assert forall|i: int| 0 <= i < picks.len() implies {
        &&& 0 <= #[trigger] picks[i] < coins.len()
        &&& extra[i] == coins[picks[i]].utxo
        &&& exists|a: int, c: int|
            0 <= a < accounts.len() && accounts[a].bip44_index != Some(account_index) && 0 <= c
                < accounts[a].spendable@.len() && extra[i] == (
            #[trigger] accounts[a].spendable@[c]).utxo@
    } by {
        let (a, c) = lemma_swept_coin_is_spendable(accounts, picks[i]);
        assert(accounts[a].spendable@[c].utxo.outpoint == coins[picks[i]].utxo.outpoint);
        assert(keep(coins[picks[i]]));
        assert(extra[i] == accounts[a].spendable@[c].utxo@);
    }
    assert forall|p: int|
        0 <= p < coins.len() && no_primary_coin_at(
            accounts,
            account_index,
            (#[trigger] coins[p]).utxo.outpoint,
        ) implies picks.contains(p) by {
        assert(keep(coins[p]));
    }
    picks
}

proof fn lemma_filter_picks(
    coins: Seq<SpendableView>,
    keep: spec_fn(SpendableView) -> bool,
) -> (picks: Seq<int>)
    ensures
        picks.len() == coins.filter(keep).len(),
        forall|i: int, j: int|
            0 <= i < j < picks.len() ==> #[trigger] picks[i] < #[trigger] picks[j],
        forall|i: int|
            0 <= i < picks.len() ==> {
                &&& 0 <= #[trigger] picks[i] < coins.len()
                &&& coins.filter(keep)[i] == coins[picks[i]]
                &&& keep(coins[picks[i]])
            },
        forall|p: int|
            0 <= p < coins.len() && keep(#[trigger] coins[p]) ==> picks.contains(p),
    decreases coins.len(),
{
    reveal(Seq::filter);
    if coins.len() == 0 {
        Seq::empty()
    } else {
        let rest = coins.drop_last();
        let earlier = lemma_filter_picks(rest, keep);
        let picks = if keep(coins.last()) {
            earlier.push(coins.len() - 1)
        } else {
            earlier
        };
        assert forall|p: int| 0 <= p < coins.len() && keep(
            #[trigger] coins[p],
        ) implies picks.contains(p) by {
            if p < rest.len() {
                assert(rest[p] == coins[p]);
                let k = choose|k: int| 0 <= k < earlier.len() && earlier[k] == p;
                assert(picks[k] == p);
            } else {
                assert(picks[picks.len() - 1] == p);
            }
        }
        picks
    }
}

/// The value of coins is the sum of their values: that of one coin is its own,
/// and that of two sweeps together is that of the one plus that of the other.
pub proof fn law_value_is_the_sum_of_the_coins(
    first: Seq<SpendableView>,
    second: Seq<SpendableView>,
    coin: SpendableView,
)
    ensures
        total_value(Seq::<SpendableView>::empty()) == 0,
        total_value(seq![coin]) == coin.utxo.value,
        total_value(first + second) == total_value(first) + total_value(second),
    decreases second.len(),
{
    reveal_with_fuel(total_value, 2);
    if second.len() > 0 {
        law_value_is_the_sum_of_the_coins(first, second.drop_last(), coin);
        assert((first + second).drop_last() =~= first + second.drop_last());
    } else {
        assert(first + second =~= first);
    }
}

/// An address resolves to the path of the last coin at it whose path is known.
pub proof fn law_address_resolves_to_its_last_known_path(coins: Seq<SpendableView>, i: int)
    requires
        0 <= i < coins.len(),
        coins[i].path is Some,
        forall|j: int|
            i < j < coins.len() && (#[trigger] coins[j]).utxo.address == coins[i].utxo.address
                ==> coins[j].path is None,
    ensures
        known_paths(coins).contains_key(coins[i].utxo.address),
        known_paths(coins)[coins[i].utxo.address] == coins[i].path->0,
    decreases coins.len(),
{
    if i < coins.len() - 1 {
        let rest = coins.drop_last();
        assert forall|j: int|
            i < j < rest.len() && (#[trigger] rest[j]).utxo.address
                == rest[i].utxo.address implies rest[j].path is None by {
            assert(rest[j] == coins[j]);
        }
        law_address_resolves_to_its_last_known_path(rest, i);
        assert(coins.last() == coins[coins.len() - 1]);
    }
}

/// An address at which no coin has a known path does not resolve.
pub proof fn law_only_addresses_with_a_known_path_resolve(
    coins: Seq<SpendableView>,
    address: Seq<u8>,
)
    requires
        forall|i: int|
            0 <= i < coins.len() && (#[trigger] coins[i]).utxo.address == address ==> coins[i].path
                is None,
    ensures
        !known_paths(coins).contains_key(address),
    decreases coins.len(),
{
    if coins.len() > 0 {
        let rest = coins.drop_last();
        assert forall|i: int|
            0 <= i < rest.len() && (#[trigger] rest[i]).utxo.address
                == address implies rest[i].path is None by {
            assert(rest[i] == coins[i]);
        }
        law_only_addresses_with_a_known_path_resolve(rest, address);
        assert(coins.last() == coins[coins.len() - 1]);
    }
}

/// What the gathering itself returns: no coin of the primary account among the
/// extra inputs, every coin of every other account there, the number of all
/// coins, and their value or the largest number there is.
pub proof fn law_gathered_inputs_are_the_other_coins(
    accounts: Vec<FundingAccount>,
    account_index: u32,
    inputs: UnionInputs,
    a: int,
    c: int,
)
    requires
        call_ensures(gather_inputs, (&accounts, account_index), inputs),
        0 <= a < accounts@.len(),
        0 <= c < accounts@[a].spendable@.len(),
    ensures
        (exists|i: int|
            0 <= i < inputs.extra_inputs@.len() && (#[trigger] inputs.extra_inputs@[i]).outpoint
                == accounts@[a].spendable@[c].utxo.outpoint) <==> (forall|x: int, y: int|
            0 <= x < accounts@.len() && (#[trigger] accounts@[x]).bip44_index == Some(
                account_index,
            ) && 0 <= y < accounts@[x].spendable@.len()
                ==> #[trigger] accounts@[x].spendable@[y].utxo.outpoint
                != accounts@[a].spendable@[c].utxo.outpoint),
        accounts@[a].spendable@[c].path is Some ==> inputs.paths@.contains_key(
            accounts@[a].spendable@[c].utxo.address.bytes@,
        ),
        inputs.union_count == all_coins(accounts@).len(),
        total_value(all_coins(accounts@)) <= u64::MAX ==> inputs.union_value == total_value(
            all_coins(accounts@),
        ),
        total_value(all_coins(accounts@)) > u64::MAX ==> inputs.union_value == u64::MAX,
        inputs.paths@ == known_paths(all_coins(accounts@)),
        inputs.extra_inputs@.map_values(|utxo: Utxo| utxo@) == extra_coins(
            all_coins(accounts@),
            accounts@,
            account_index,
        ),
{
    let outpoint = accounts@[a].spendable@[c].utxo.outpoint;
    let extra = inputs.extra_inputs@;
    if exists|i: int| 0 <= i < extra.len() && (#[trigger] extra[i]).outpoint == outpoint {
        let i = choose|i: int| 0 <= i < extra.len() && (#[trigger] extra[i]).outpoint == outpoint;
        assert forall|x: int, y: int|
            0 <= x < accounts@.len() && (#[trigger] accounts@[x]).bip44_index == Some(
                account_index,
            ) && 0 <= y < accounts@[x].spendable@.len() implies
            #[trigger] accounts@[x].spendable@[y].utxo.outpoint != outpoint by {
            law_no_returned_input_is_primary(accounts@, account_index, extra, x, y, i);
        }
    }
    if forall|x: int, y: int|
        0 <= x < accounts@.len() && (#[trigger] accounts@[x]).bip44_index == Some(account_index)
            && 0 <= y < accounts@[x].spendable@.len()
            ==> #[trigger] accounts@[x].spendable@[y].utxo.outpoint != outpoint {
        let i = law_every_other_coin_is_returned(accounts@, account_index, extra, a, c);
    }
    law_every_spendable_coin_is_swept(accounts@, a);
    let p = all_coins(accounts@.take(a)).len() + c;
    assert(accounts@[a].spendable@[c].utxo@ == all_coins(accounts@)[p].utxo);
    if accounts@[a].spendable@[c].path is Some {
        law_every_input_with_a_path_resolves(all_coins(accounts@), p);
    }
}

/// A resolver finds an address exactly where a path was entered for it, and
/// the path is the one it holds.
pub proof fn law_resolver_finds_what_it_holds(
    resolver: PathResolver,
    address: Address,
    found: Option<DerivationPath>,
)
    requires
        call_ensures(PathResolver::resolve, (&resolver, &address), found),
    ensures
        found is Some <==> resolver@.contains_key(address.bytes@),
        found matches Some(path) ==> path.children@ == resolver@[address.bytes@],
{
}

/// Coins can be counted exactly where there are no more of them than the
/// machine can count.
pub proof fn law_coins_can_be_counted_up_to_the_limit(
    accounts: Vec<FundingAccount>,
    countable: bool,
)
    requires
        call_ensures(coins_can_be_counted, (&accounts,), countable),
    ensures
        countable <==> all_coins(accounts@).len() <= usize::MAX,
{
}

} // verus!
