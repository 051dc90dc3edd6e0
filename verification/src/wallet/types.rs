//! Plain values that the wallet logic reads and moves.

use vstd::prelude::*;
use vstd::std_specs::cmp::PartialEqSpecImpl;

verus! {

/// A transaction id, as the bytes of its hash.
#[derive(Clone, Copy, Debug, Eq)]
pub struct Txid {
    pub bytes: [u8; 32],
}

impl PartialEq for Txid {
    fn eq(&self, other: &Txid) -> (same: bool) {
        let mut i: usize = 0;
        while i < 32
            invariant
                0 <= i <= 32,
                forall|j: int| 0 <= j < i ==> self.bytes@[j] == other.bytes@[j],
            decreases 32 - i,
        {
            if self.bytes[i] != other.bytes[i] {
                return false;
            }
            i = i + 1;
        }
        assert(self.bytes =~= other.bytes);
        true
    }
}

impl PartialEqSpecImpl for Txid {
    open spec fn obeys_eq_spec() -> bool {
        true
    }

    open spec fn eq_spec(&self, other: &Txid) -> bool {
        *self == *other
    }
}

/// One output of a transaction, by the transaction's id and its position.
#[derive(Clone, Copy, Debug, Eq)]
pub struct OutPoint {
    pub txid: Txid,
    pub vout: u32,
}

impl PartialEq for OutPoint {
    fn eq(&self, other: &OutPoint) -> (same: bool) {
        self.txid == other.txid && self.vout == other.vout
    }
}

impl PartialEqSpecImpl for OutPoint {
    open spec fn obeys_eq_spec() -> bool {
        true
    }

    open spec fn eq_spec(&self, other: &OutPoint) -> bool {
        *self == *other
    }
}

/// A key derivation path, as its child numbers from the root.
#[derive(Debug)]
pub struct DerivationPath {
    pub children: Vec<u32>,
}

impl View for DerivationPath {
    type V = Seq<u32>;

    open spec fn view(&self) -> Seq<u32> {
        self.children@
    }
}

impl Clone for DerivationPath {
    fn clone(&self) -> (copy: DerivationPath)
        ensures
            copy@ == self@,
    {
        let copy: DerivationPath = DerivationPath { children: self.children.clone() };
        copy
    }
}

/// An address, by the bytes that tell it from any other.
#[derive(Debug)]
pub struct Address {
    pub bytes: Vec<u8>,
}

impl View for Address {
    type V = Seq<u8>;

    open spec fn view(&self) -> Seq<u8> {
        self.bytes@
    }
}

impl Clone for Address {
    fn clone(&self) -> (copy: Address)
        ensures
            copy@ == self@,
    {
        let copy: Address = Address { bytes: self.bytes.clone() };
        copy
    }
}

impl Address {
    /// Whether this is the same address as `other`.
    pub fn same(&self, other: &Address) -> (same: bool)
        ensures
            same == (self@ == other@),
            same == (self.bytes@ == other.bytes@),
    {
        if self.bytes.len() != other.bytes.len() {
            return false;
        }
        let mut i: usize = 0;
        while i < self.bytes.len()
            invariant
                self.bytes.len() == other.bytes.len(),
                0 <= i <= self.bytes.len(),
                forall|j: int| 0 <= j < i ==> self.bytes@[j] == other.bytes@[j],
            decreases self.bytes.len() - i,
        {
            if self.bytes[i] != other.bytes[i] {
                return false;
            }
            i = i + 1;
        }
        assert(self@ =~= other@);
        true
    }
}

/// An unspent transaction output that a wallet account holds.
#[derive(Debug)]
pub struct Utxo {
    pub outpoint: OutPoint,
    /// The amount, in duffs.
    pub value: u64,
    pub script_pubkey: Vec<u8>,
    pub address: Address,
    pub height: u32,
    pub is_coinbase: bool,
    pub is_confirmed: bool,
    pub is_instantlocked: bool,
    pub is_locked: bool,
    pub is_trusted: bool,
}

/// An unspent output with its script and address as bytes.
pub struct UtxoView {
    pub outpoint: OutPoint,
    pub value: u64,
    pub script_pubkey: Seq<u8>,
    pub address: Seq<u8>,
    pub height: u32,
    pub is_coinbase: bool,
    pub is_confirmed: bool,
    pub is_instantlocked: bool,
    pub is_locked: bool,
    pub is_trusted: bool,
}

impl View for Utxo {
    type V = UtxoView;

    open spec fn view(&self) -> UtxoView {
        UtxoView {
            outpoint: self.outpoint,
            value: self.value,
            script_pubkey: self.script_pubkey@,
            address: self.address@,
            height: self.height,
            is_coinbase: self.is_coinbase,
            is_confirmed: self.is_confirmed,
            is_instantlocked: self.is_instantlocked,
            is_locked: self.is_locked,
            is_trusted: self.is_trusted,
        }
    }
}

impl Clone for Utxo {
    fn clone(&self) -> (copy: Utxo)
        ensures
            copy@ == self@,
    {
        let script_pubkey: Vec<u8> = self.script_pubkey.clone();
        Utxo {
            outpoint: self.outpoint,
            value: self.value,
            script_pubkey,
            address: self.address.clone(),
            height: self.height,
            is_coinbase: self.is_coinbase,
            is_confirmed: self.is_confirmed,
            is_instantlocked: self.is_instantlocked,
            is_locked: self.is_locked,
            is_trusted: self.is_trusted,
        }
    }
}

/// Views leave nothing out: a path is known by its child numbers, an address by
/// its bytes, and an unspent output by every field that it has.
pub proof fn law_views_leave_nothing_out(path: DerivationPath, address: Address, utxo: Utxo)
    ensures
        path@ == path.children@,
        address@ == address.bytes@,
        utxo@.outpoint == utxo.outpoint,
        utxo@.value == utxo.value,
        utxo@.script_pubkey == utxo.script_pubkey@,
        utxo@.address == utxo.address.bytes@,
        utxo@.height == utxo.height,
        utxo@.is_coinbase == utxo.is_coinbase,
        utxo@.is_confirmed == utxo.is_confirmed,
        utxo@.is_instantlocked == utxo.is_instantlocked,
        utxo@.is_locked == utxo.is_locked,
        utxo@.is_trusted == utxo.is_trusted,
{
}

/// Two addresses are the same exactly where their bytes are.
pub proof fn law_same_addresses_have_the_same_bytes(first: Address, second: Address, same: bool)
    requires
        call_ensures(Address::same, (&first, &second), same),
    ensures
        same <==> first.bytes@ == second.bytes@,
{
}

} // verus!
