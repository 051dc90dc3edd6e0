//! Soft signer: signs digests with keys derived from a wallet's seed.

use vstd::prelude::*;

use crate::wallet::types::DerivationPath;

verus! {

/// The number that bytes spell, most significant byte first.
pub open spec fn big_endian_value(bytes: Seq<u8>) -> nat
    decreases bytes.len(),
{
    if bytes.len() == 0 {
        0
    } else {
        big_endian_value(bytes.drop_last()) * 256 + bytes.last() as nat
    }
}

/// The order of the secp256k1 group.
pub open spec fn curve_order() -> nat {
    0xffff_ffff_ffff_ffff_ffff_ffff_ffff_fffe_baae_dce6_af48_a03b_bfd2_5e8c_d036_4141nat
}

/// Bytes that are a secret key: not zero, and less than the group order.
pub open spec fn is_secret_key(bytes: Seq<u8>) -> bool {
    &&& bytes.len() == 32
    &&& 0 < big_endian_value(bytes) < curve_order()
}

/// The compact serialization of the signature that `Secp256k1::sign_ecdsa`
/// makes of a digest, with the nonce that RFC 6979 fixes.
pub uninterp spec fn ecdsa_signature(secret: Seq<u8>, digest: Seq<u8>) -> Seq<u8>;

/// The compressed serialization of the public key that
/// `PublicKey::from_secret_key` computes of a secret key.
pub uninterp spec fn public_key_of(secret: Seq<u8>) -> Seq<u8>;

/// `Secp256k1::verify_ecdsa` accepts the signature, in compact form, of the
/// digest under the public key, in compressed form. It accepts no bytes that
/// are not such a form.
pub uninterp spec fn ecdsa_verifies(digest: Seq<u8>, signature: Seq<u8>, public: Seq<u8>) -> bool;

/// `secp256k1::SecretKey::from_byte_array`: accepts exactly the bytes that
/// spell a number that is not zero and less than the group order.
#[verifier::external_body]
fn secret_key_is_valid(bytes: &[u8; 32]) -> (valid: bool)
    ensures
        valid == is_secret_key(bytes@),
{
    secp256k1::SecretKey::from_byte_array(bytes).is_ok()
}

/// `secp256k1::Secp256k1::sign_ecdsa`: the signature is fixed by the secret
/// key and the digest, and verifies for that digest under the public key of
/// that secret key. Nothing is claimed of its bytes beyond that.
#[verifier::external_body]
fn sign_digest(secret: &[u8; 32], digest: &[u8; 32]) -> (signature: [u8; 64])
    requires
        is_secret_key(secret@),
    ensures
        signature@ == ecdsa_signature(secret@, digest@),
        ecdsa_verifies(digest@, signature@, public_key_of(secret@)),
{
    let key = secp256k1::SecretKey::from_byte_array(secret).unwrap();
    let message = secp256k1::Message::from_digest(*digest);
    secp256k1::Secp256k1::new().sign_ecdsa(&message, &key).serialize_compact()
}

/// `secp256k1::PublicKey::from_secret_key`: the public key is fixed by the
/// secret key. Nothing is claimed of its bytes beyond that.
#[verifier::external_body]
fn compute_public_key(secret: &[u8; 32]) -> (public: [u8; 33])
    requires
        is_secret_key(secret@),
    ensures
        public@ == public_key_of(secret@),
{
    let key = secp256k1::SecretKey::from_byte_array(secret).unwrap();
    secp256k1::PublicKey::from_secret_key(&secp256k1::Secp256k1::new(), &key).serialize()
}

/// `secp256k1::Secp256k1::verify_ecdsa`: what it answers is fixed by the
/// digest, the signature and the public key.
#[verifier::external_body]
fn verify_digest(digest: &[u8; 32], signature: &[u8; 64], public: &[u8; 33]) -> (accepted: bool)
    ensures
        accepted == ecdsa_verifies(digest@, signature@, public@),
{
    let message = secp256k1::Message::from_digest(*digest);
    let key = secp256k1::PublicKey::from_byte_array_compressed(public);
    match (secp256k1::ecdsa::Signature::from_compact(signature), key) {
        (Ok(sig), Ok(pk)) => secp256k1::Secp256k1::new().verify_ecdsa(&message, &sig, &pk).is_ok(),
        _ => false,
    }
}

/// A valid secret key.
pub struct SecretKey {
    bytes: [u8; 32],
}

impl View for SecretKey {
    type V = Seq<u8>;

    closed spec fn view(&self) -> Seq<u8> {
        self.bytes@
    }
}

impl SecretKey {
    #[verifier::type_invariant]
    spec fn valid(&self) -> bool {
        is_secret_key(self.bytes@)
    }

    /// The secret key with these bytes, or `None` where they are none.
    pub fn from_byte_array(bytes: [u8; 32]) -> (key: Option<SecretKey>)
        ensures
            key is Some <==> is_secret_key(bytes@),
            key matches Some(k) ==> k@ == bytes@,
    {
        if secret_key_is_valid(&bytes) {
            Some(SecretKey { bytes })
        } else {
            None
        }
    }
}

/// An ECDSA signature, in compact form.
#[derive(Clone, Copy, Debug)]
pub struct Signature {
    pub bytes: [u8; 64],
}

impl Signature {
    /// Whether this is a signature of `sighash` by the holder of the secret
    /// key to `public`.
    pub fn verifies(&self, sighash: [u8; 32], public: &PublicKey) -> (accepted: bool)
        ensures
            accepted == ecdsa_verifies(sighash@, self.bytes@, public.bytes@),
    {
        verify_digest(&sighash, &self.bytes, &public.bytes)
    }
}

/// A public key, in compressed form.
#[derive(Clone, Copy, Debug)]
pub struct PublicKey {
    pub bytes: [u8; 33],
}

/// How a signer can be asked to sign.
#[derive(Clone, Copy, Debug, PartialEq, Eq, Structural)]
pub enum SignerMethod {
    /// Over a digest that the caller computed.
    Digest,
}

/// Signer that derives keys straight from a wallet's seed.
pub struct WalletSigner<W> {
    pub wallet: W,
}

/// What signing answers, given what deriving the key answered.
pub open spec fn is_sign_outcome(
    derived: Result<SecretKey, String>,
    sighash: Seq<u8>,
    outcome: Result<(Signature, PublicKey), String>,
) -> bool {
    match derived {
        Ok(key) => outcome matches Ok((signature, public)) && signature.bytes@ == ecdsa_signature(
            key@,
            sighash,
        ) && public.bytes@ == public_key_of(key@) && ecdsa_verifies(
            sighash,
            signature.bytes@,
            public.bytes@,
        ),
        Err(text) => outcome == Err::<(Signature, PublicKey), String>(text),
    }
}

/// What asking for a public key answers, given what deriving the key answered.
pub open spec fn is_public_key_outcome(
    derived: Result<SecretKey, String>,
    outcome: Result<PublicKey, String>,
) -> bool {
    match derived {
        Ok(key) => outcome matches Ok(public) && public.bytes@ == public_key_of(key@),
        Err(text) => outcome == Err::<PublicKey, String>(text),
    }
}

/// Signs `sighash` with the key that was derived, and returns the signature
/// with that key's public key. A failed derivation is handed on.
pub fn sign_with_derived(derived: Result<SecretKey, String>, sighash: [u8; 32]) -> (outcome: Result<
    (Signature, PublicKey),
    String,
>)
    ensures
        is_sign_outcome(derived, sighash@, outcome),
{
    match derived {
        Ok(key) => {
            proof {
                use_type_invariant(&key);
            }
            let signature: Signature = Signature { bytes: sign_digest(&key.bytes, &sighash) };
            let public: PublicKey = PublicKey { bytes: compute_public_key(&key.bytes) };
            Ok((signature, public))
        },
        Err(text) => Err(text),
    }
}

/// The public key of the key that was derived. A failed derivation is handed
/// on.
pub fn public_key_of_derived(derived: Result<SecretKey, String>) -> (outcome: Result<
    PublicKey,
    String,
>)
    ensures
        is_public_key_outcome(derived, outcome),
{
    match derived {
        Ok(key) => {
            proof {
                use_type_invariant(&key);
            }
            Ok(PublicKey { bytes: compute_public_key(&key.bytes) })
        },
        Err(text) => Err(text),
    }
}

impl<W> WalletSigner<W> {
    /// The signer signs digests, and nothing else.
    pub fn supported_methods(&self) -> (methods: Vec<SignerMethod>)
        ensures
            methods@ == seq![SignerMethod::Digest],
    {
        let methods: Vec<SignerMethod> = vec![SignerMethod::Digest];
        methods
    }

    /// Signs `sighash` with the wallet's key at `path`, and returns the
    /// signature with the key's public key. The key is derived once, by
    /// `derive_private_key` on this signer's wallet.
    pub fn sign_ecdsa<F>(&self, path: &DerivationPath, sighash: [u8; 32], derive_private_key: F) -> (
    outcome: Result<(Signature, PublicKey), String>) where
        F: FnOnce(&W, &DerivationPath) -> Result<SecretKey, String>,

        requires
            call_requires(derive_private_key, (&self.wallet, path)),
        ensures
            exists|derived: Result<SecretKey, String>| #[trigger]
                call_ensures(derive_private_key, (&self.wallet, path), derived) && is_sign_outcome(
                    derived,
                    sighash@,
                    outcome,
                ),
    {
        let derived: Result<SecretKey, String> = derive_private_key(&self.wallet, path);
        sign_with_derived(derived, sighash)
    }

    /// The public key of the wallet's key at `path`. The key is derived once,
    /// by `derive_private_key` on this signer's wallet.
    pub fn public_key<F>(&self, path: &DerivationPath, derive_private_key: F) -> (outcome: Result<
        PublicKey,
        String,
    >) where F: FnOnce(&W, &DerivationPath) -> Result<SecretKey, String>,
        requires
            call_requires(derive_private_key, (&self.wallet, path)),
        ensures
            exists|derived: Result<SecretKey, String>| #[trigger]
                call_ensures(derive_private_key, (&self.wallet, path), derived)
                    && is_public_key_outcome(derived, outcome),
    {
        let derived: Result<SecretKey, String> = derive_private_key(&self.wallet, path);
        public_key_of_derived(derived)
    }

    /// The extended public key of the wallet at `path`, which may be hardened:
    /// what `derive_extended_public_key` answers for this signer's wallet.
    pub fn extended_public_key<X, F>(
        &self,
        path: &DerivationPath,
        derive_extended_public_key: F,
    ) -> (outcome: Result<X, String>) where F: FnOnce(&W, &DerivationPath) -> Result<X, String>,
        requires
            call_requires(derive_extended_public_key, (&self.wallet, path)),
        ensures
            call_ensures(derive_extended_public_key, (&self.wallet, path), outcome),
    {
        derive_extended_public_key(&self.wallet, path)
    }
}

/// Where the key can be derived, signing succeeds, and the signature verifies
/// for the digest that was asked about, under the public key that comes with
/// it and that the signer gives out for the same key.
pub proof fn law_signature_verifies_under_the_signers_public_key(
    derived: Result<SecretKey, String>,
    sighash: Seq<u8>,
    signed: Result<(Signature, PublicKey), String>,
    public: Result<PublicKey, String>,
)
    requires
        derived is Ok,
        is_sign_outcome(derived, sighash, signed),
        is_public_key_outcome(derived, public),
    ensures
        signed matches Ok((signature, key)) && {
            &&& ecdsa_verifies(sighash, signature.bytes@, key.bytes@)
            &&& public == Ok::<PublicKey, String>(key)
        },
{
    law_signature_comes_with_the_signers_public_key(derived, sighash, signed, public);
}

/// The public key that comes with a signature does not depend on the digest.
pub proof fn law_public_key_does_not_depend_on_the_digest(
    derived: Result<SecretKey, String>,
    sighash: Seq<u8>,
    other_sighash: Seq<u8>,
    signed: Result<(Signature, PublicKey), String>,
    other_signed: Result<(Signature, PublicKey), String>,
)
    requires
        derived is Ok,
        is_sign_outcome(derived, sighash, signed),
        is_sign_outcome(derived, other_sighash, other_signed),
    ensures
        signed is Ok,
        other_signed is Ok,
        signed->Ok_0.1 == other_signed->Ok_0.1,
{
    assert(signed->Ok_0.1.bytes =~= other_signed->Ok_0.1.bytes);
}

/// The public key that comes with a signature is the one that the signer gives
/// out for the same derived key.
pub proof fn law_signature_comes_with_the_signers_public_key(
    derived: Result<SecretKey, String>,
    sighash: Seq<u8>,
    signed: Result<(Signature, PublicKey), String>,
    public: Result<PublicKey, String>,
)
    requires
        is_sign_outcome(derived, sighash, signed),
        is_public_key_outcome(derived, public),
    ensures
        signed is Ok <==> public is Ok,
        signed matches Ok((signature, key)) ==> public->Ok_0 == key,
        signed matches Err(text) ==> public == Err::<PublicKey, String>(text),
{
    if let Ok((signature, key)) = signed {
        assert(key.bytes =~= public->Ok_0.bytes);
    }
}

/// The order of the secp256k1 group, as thirty-two bytes.
pub open spec fn group_order_bytes() -> Seq<u8> {
    seq![
        0xffu8, 0xffu8, 0xffu8, 0xffu8, 0xffu8, 0xffu8, 0xffu8, 0xffu8,
        0xffu8, 0xffu8, 0xffu8, 0xffu8, 0xffu8, 0xffu8, 0xffu8, 0xfeu8,
        0xbau8, 0xaeu8, 0xdcu8, 0xe6u8, 0xafu8, 0x48u8, 0xa0u8, 0x3bu8,
        0xbfu8, 0xd2u8, 0x5eu8, 0x8cu8, 0xd0u8, 0x36u8, 0x41u8, 0x41u8,
    ]
}

proof fn lemma_group_order_bytes()
    ensures
        group_order_bytes().len() == 32,
        big_endian_value(group_order_bytes()) == curve_order(),
{
    let order = group_order_bytes();
    assert(big_endian_value(order.take(0)) == 0);
    assert(order.take(1).drop_last() =~= order.take(0));
    assert(big_endian_value(order.take(1)) == 0xffnat);
    assert(order.take(2).drop_last() =~= order.take(1));
    assert(big_endian_value(order.take(2)) == 0xffffnat);
    assert(order.take(3).drop_last() =~= order.take(2));
    assert(big_endian_value(order.take(3)) == 0xffffffnat);
    assert(order.take(4).drop_last() =~= order.take(3));
    assert(big_endian_value(order.take(4)) == 0xffffffffnat);
    assert(order.take(5).drop_last() =~= order.take(4));
    assert(big_endian_value(order.take(5)) == 0xffffffffffnat);
    assert(order.take(6).drop_last() =~= order.take(5));
    assert(big_endian_value(order.take(6)) == 0xffffffffffffnat);
    assert(order.take(7).drop_last() =~= order.take(6));
    assert(big_endian_value(order.take(7)) == 0xffffffffffffffnat);
    assert(order.take(8).drop_last() =~= order.take(7));
    assert(big_endian_value(order.take(8)) == 0xffffffffffffffffnat);
    assert(order.take(9).drop_last() =~= order.take(8));
    assert(big_endian_value(order.take(9)) == 0xffffffffffffffffffnat);
    assert(order.take(10).drop_last() =~= order.take(9));
    assert(big_endian_value(order.take(10)) == 0xffffffffffffffffffffnat);
    assert(order.take(11).drop_last() =~= order.take(10));
    assert(big_endian_value(order.take(11)) == 0xffffffffffffffffffffffnat);
    assert(order.take(12).drop_last() =~= order.take(11));
    assert(big_endian_value(order.take(12)) == 0xffffffffffffffffffffffffnat);
    assert(order.take(13).drop_last() =~= order.take(12));
    assert(big_endian_value(order.take(13)) == 0xffffffffffffffffffffffffffnat);
    assert(order.take(14).drop_last() =~= order.take(13));
    assert(big_endian_value(order.take(14)) == 0xffffffffffffffffffffffffffffnat);
    assert(order.take(15).drop_last() =~= order.take(14));
    assert(big_endian_value(order.take(15)) == 0xffffffffffffffffffffffffffffffnat);
    assert(order.take(16).drop_last() =~= order.take(15));
    assert(big_endian_value(order.take(16)) == 0xfffffffffffffffffffffffffffffffenat);
    assert(order.take(17).drop_last() =~= order.take(16));
    assert(big_endian_value(order.take(17)) == 0xfffffffffffffffffffffffffffffffebanat);
    assert(order.take(18).drop_last() =~= order.take(17));
    assert(big_endian_value(order.take(18)) == 0xfffffffffffffffffffffffffffffffebaaenat);
    assert(order.take(19).drop_last() =~= order.take(18));
    assert(big_endian_value(order.take(19)) == 0xfffffffffffffffffffffffffffffffebaaedcnat);
    assert(order.take(20).drop_last() =~= order.take(19));
    assert(big_endian_value(order.take(20)) == 0xfffffffffffffffffffffffffffffffebaaedce6nat);
    assert(order.take(21).drop_last() =~= order.take(20));
    assert(big_endian_value(order.take(21)) == 0xfffffffffffffffffffffffffffffffebaaedce6afnat);
    assert(order.take(22).drop_last() =~= order.take(21));
    assert(big_endian_value(order.take(22)) == 0xfffffffffffffffffffffffffffffffebaaedce6af48nat);
    assert(order.take(23).drop_last() =~= order.take(22));
    assert(big_endian_value(order.take(23)) == 0xfffffffffffffffffffffffffffffffebaaedce6af48a0nat);
    assert(order.take(24).drop_last() =~= order.take(23));
    assert(big_endian_value(order.take(24)) == 0xfffffffffffffffffffffffffffffffebaaedce6af48a03bnat);
    assert(order.take(25).drop_last() =~= order.take(24));
    assert(big_endian_value(order.take(25)) == 0xfffffffffffffffffffffffffffffffebaaedce6af48a03bbfnat);
    assert(order.take(26).drop_last() =~= order.take(25));
    assert(big_endian_value(order.take(26)) == 0xfffffffffffffffffffffffffffffffebaaedce6af48a03bbfd2nat);
    assert(order.take(27).drop_last() =~= order.take(26));
    assert(big_endian_value(order.take(27)) == 0xfffffffffffffffffffffffffffffffebaaedce6af48a03bbfd25enat);
    assert(order.take(28).drop_last() =~= order.take(27));
    assert(big_endian_value(order.take(28)) == 0xfffffffffffffffffffffffffffffffebaaedce6af48a03bbfd25e8cnat);
    assert(order.take(29).drop_last() =~= order.take(28));
    assert(big_endian_value(order.take(29)) == 0xfffffffffffffffffffffffffffffffebaaedce6af48a03bbfd25e8cd0nat);
    assert(order.take(30).drop_last() =~= order.take(29));
    assert(big_endian_value(order.take(30)) == 0xfffffffffffffffffffffffffffffffebaaedce6af48a03bbfd25e8cd036nat);
    assert(order.take(31).drop_last() =~= order.take(30));
    assert(big_endian_value(order.take(31)) == 0xfffffffffffffffffffffffffffffffebaaedce6af48a03bbfd25e8cd03641nat);
    assert(order.take(32).drop_last() =~= order.take(31));
    assert(big_endian_value(order.take(32)) == 0xfffffffffffffffffffffffffffffffebaaedce6af48a03bbfd25e8cd0364141nat);
    assert(order.take(32) =~= order);
}

/// Of two byte strings of one length, the one that is smaller where they first
/// differ spells the smaller number.
proof fn lemma_first_difference_decides(x: Seq<u8>, y: Seq<u8>, i: int)
    requires
        x.len() == y.len(),
        0 <= i < x.len(),
        x[i] < y[i],
        forall|j: int| 0 <= j < i ==> x[j] == y[j],
    ensures
        big_endian_value(x) < big_endian_value(y),
    decreases x.len(),
{
    if i == x.len() - 1 {
        assert(x.drop_last() =~= y.drop_last());
    } else {
        lemma_first_difference_decides(x.drop_last(), y.drop_last(), i);
    }
}

proof fn lemma_zero_value(bytes: Seq<u8>)
    ensures
        big_endian_value(bytes) == 0 <==> forall|k: int|
            0 <= k < bytes.len() ==> #[trigger] bytes[k] == 0,
    decreases bytes.len(),
{
    if bytes.len() > 0 {
        let rest = bytes.drop_last();
        lemma_zero_value(rest);
        if big_endian_value(bytes) == 0 {
            assert forall|k: int| 0 <= k < bytes.len() implies #[trigger] bytes[k] == 0 by {
                if k < rest.len() {
                    assert(rest[k] == bytes[k]);
                }
            }
        }
        if forall|k: int| 0 <= k < bytes.len() ==> #[trigger] bytes[k] == 0 {
            assert forall|k: int| 0 <= k < rest.len() implies #[trigger] rest[k] == 0 by {
                assert(bytes[k] == 0);
            }
            assert(bytes[bytes.len() - 1] == 0);
        }
    }
}

proof fn lemma_first_difference(x: Seq<u8>, y: Seq<u8>) -> (i: int)
    requires
        x.len() == y.len(),
        x != y,
    ensures
        0 <= i < x.len(),
        x[i] != y[i],
        forall|j: int| 0 <= j < i ==> x[j] == y[j],
    decreases x.len(),
{
    if x.len() == 0 {
        assert(x =~= y);
        0
    } else if x.drop_last() == y.drop_last() {
        assert forall|j: int| 0 <= j < x.len() - 1 implies x[j] == y[j] by {
            assert(x.drop_last()[j] == y.drop_last()[j]);
        }
        if x.last() == y.last() {
            assert(x =~= y);
        }
        x.len() - 1
    } else {
        let i = lemma_first_difference(x.drop_last(), y.drop_last());
        assert forall|j: int| 0 <= j < i implies x[j] == y[j] by {
            assert(x.drop_last()[j] == y.drop_last()[j]);
        }
        i
    }
}

/// Thirty-two bytes are a secret key exactly where they are not all zero, and
/// where, at the first place at which they differ from the group order, they
/// are the smaller ones. Any other number of bytes is none.
pub proof fn law_secret_keys_lie_below_the_group_order(bytes: Seq<u8>)
    ensures
        bytes.len() != 32 ==> !is_secret_key(bytes),
        bytes.len() == 32 ==> (is_secret_key(bytes) <==> {
            &&& exists|k: int| 0 <= k < 32 && #[trigger] bytes[k] != 0
            &&& exists|i: int|
                0 <= i < 32 && #[trigger] bytes[i] < group_order_bytes()[i] && forall|j: int|
                    0 <= j < i ==> bytes[j] == group_order_bytes()[j]
        }),
{
    let order = group_order_bytes();
    lemma_group_order_bytes();
    lemma_zero_value(bytes);
    if bytes.len() == 32 && bytes != order {
        let i = lemma_first_difference(bytes, order);
        if bytes[i] < order[i] {
            lemma_first_difference_decides(bytes, order, i);
        } else {
            lemma_first_difference_decides(order, bytes, i);
        }
    }
}

/// Where a key was derived, it is that key that signs the digest that was
/// asked about, and its public key that comes with the signature. Where the
/// derivation failed, its text is handed on, by signing as by asking for the
/// public key.
pub proof fn law_the_derived_key_signs(
    derived: Result<SecretKey, String>,
    sighash: Seq<u8>,
    signed: Result<(Signature, PublicKey), String>,
    public: Result<PublicKey, String>,
)
    requires
        is_sign_outcome(derived, sighash, signed),
        is_public_key_outcome(derived, public),
    ensures
        derived matches Ok(key) ==> {
            &&& signed matches Ok(pair)
            &&& pair.0.bytes@ == ecdsa_signature(key@, sighash)
            &&& pair.1.bytes@ == public_key_of(key@)
            &&& public matches Ok(given)
            &&& given.bytes@ == public_key_of(key@)
        },
        derived matches Err(text) ==> {
            &&& signed matches Err(told)
            &&& told == text
            &&& public matches Err(told_too)
            &&& told_too == text
        },
{
}

/// What the functions themselves return: bytes are taken as a secret key exactly
/// where they are one, and kept as they are; the derived key signs and its
/// signature verifies, under the public key that is also given out.
pub proof fn law_signer_functions_agree(
    bytes: [u8; 32],
    taken: Option<SecretKey>,
    derived: Result<SecretKey, String>,
    sighash: [u8; 32],
    signed: Result<(Signature, PublicKey), String>,
    public: Result<PublicKey, String>,
)
    requires
        call_ensures(SecretKey::from_byte_array, (bytes,), taken),
        call_ensures(sign_with_derived, (derived, sighash), signed),
        call_ensures(public_key_of_derived, (derived,), public),
    ensures
        taken is Some <==> is_secret_key(bytes@),
        taken matches Some(key) ==> key@ == bytes@,
        derived matches Ok(key) ==> {
            &&& signed matches Ok(pair)
            &&& pair.0.bytes@ == ecdsa_signature(key@, sighash@)
            &&& pair.1.bytes@ == public_key_of(key@)
            &&& ecdsa_verifies(sighash@, pair.0.bytes@, pair.1.bytes@)
            &&& public matches Ok(given)
            &&& given.bytes@ == pair.1.bytes@
        },
        derived matches Err(text) ==> {
            &&& signed matches Err(told)
            &&& told == text
            &&& public matches Err(told_too)
            &&& told_too == text
        },
{
}

/// A signature is accepted exactly where it verifies for the digest and under
/// the public key that were given.
pub proof fn law_signature_is_accepted_where_it_verifies(
    signature: Signature,
    sighash: [u8; 32],
    public: PublicKey,
    accepted: bool,
)
    requires
        call_ensures(Signature::verifies, (&signature, sighash, &public), accepted),
    ensures
        accepted <==> ecdsa_verifies(sighash@, signature.bytes@, public.bytes@),
{
}

/// The signer signs digests, and nothing else.
pub proof fn law_signer_signs_digests_alone<W>(
    signer: WalletSigner<W>,
    methods: Vec<SignerMethod>,
)
    requires
        call_ensures(WalletSigner::<W>::supported_methods, (&signer,), methods),
    ensures
        methods@.len() == 1,
        methods@[0] is Digest,
{
}

/// The signer derives from its own wallet, at the path that it is asked for, and
/// signs the digest that it is given with the key that this derivation answers.
pub proof fn law_signer_signs_at_the_path_it_is_asked_for<W, F>(
    signer: WalletSigner<W>,
    path: DerivationPath,
    sighash: [u8; 32],
    derive_private_key: F,
    signed: Result<(Signature, PublicKey), String>,
) -> (derived: Result<SecretKey, String>) where
    F: FnOnce(&W, &DerivationPath) -> Result<SecretKey, String>,

    requires
        call_ensures(
            WalletSigner::<W>::sign_ecdsa::<F>,
            (&signer, &path, sighash, derive_private_key),
            signed,
        ),
    ensures
        call_ensures(derive_private_key, (&signer.wallet, &path), derived),
        derived matches Ok(key) ==> {
            &&& signed matches Ok(pair)
            &&& pair.0.bytes@ == ecdsa_signature(key@, sighash@)
            &&& pair.1.bytes@ == public_key_of(key@)
            &&& ecdsa_verifies(sighash@, pair.0.bytes@, pair.1.bytes@)
        },
        derived matches Err(text) ==> (signed matches Err(told) && told == text),
{
    choose|derived: Result<SecretKey, String>| #[trigger]
        call_ensures(derive_private_key, (&signer.wallet, &path), derived) && is_sign_outcome(
            derived,
            sighash@,
            signed,
        )
}

/// The public key is that of the key that the derivation from the signer's own
/// wallet answers at the path that is asked for.
pub proof fn law_public_key_is_that_of_the_path<W, F>(
    signer: WalletSigner<W>,
    path: DerivationPath,
    derive_private_key: F,
    public: Result<PublicKey, String>,
) -> (derived: Result<SecretKey, String>) where
    F: FnOnce(&W, &DerivationPath) -> Result<SecretKey, String>,

    requires
        call_ensures(
            WalletSigner::<W>::public_key::<F>,
            (&signer, &path, derive_private_key),
            public,
        ),
    ensures
        call_ensures(derive_private_key, (&signer.wallet, &path), derived),
        derived matches Ok(key) ==> (public matches Ok(given) && given.bytes@ == public_key_of(
            key@,
        )),
        derived matches Err(text) ==> (public matches Err(told) && told == text),
{
    choose|derived: Result<SecretKey, String>| #[trigger]
        call_ensures(derive_private_key, (&signer.wallet, &path), derived)
            && is_public_key_outcome(derived, public)
}

/// The extended public key is what the derivation from the signer's own wallet
/// answers at the path that is asked for.
pub proof fn law_extended_key_is_that_of_the_path<W, X, F>(
    signer: WalletSigner<W>,
    path: DerivationPath,
    derive_extended_public_key: F,
    outcome: Result<X, String>,
) where F: FnOnce(&W, &DerivationPath) -> Result<X, String>,
    requires
        call_ensures(
            WalletSigner::<W>::extended_public_key::<X, F>,
            (&signer, &path, derive_extended_public_key),
            outcome,
        ),
    ensures
        call_ensures(derive_extended_public_key, (&signer.wallet, &path), outcome),
{
}

} // verus!
