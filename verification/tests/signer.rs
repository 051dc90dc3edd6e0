use dash_platform::wallet::signer::{
    public_key_of_derived, sign_with_derived, PublicKey, SecretKey, Signature, SignerMethod,
    WalletSigner,
};
use dash_platform::wallet::types::DerivationPath;

/// The secret key one.
fn one() -> [u8; 32] {
    let mut bytes = [0u8; 32];
    bytes[31] = 1;
    bytes
}

const ORDER: [u8; 32] = [
    0xff, 0xff, 0xff, 0xff, 0xff, 0xff, 0xff, 0xff, 0xff, 0xff, 0xff, 0xff, 0xff, 0xff, 0xff, 0xfe,
    0xba, 0xae, 0xdc, 0xe6, 0xaf, 0x48, 0xa0, 0x3b, 0xbf, 0xd2, 0x5e, 0x8c, 0xd0, 0x36, 0x41, 0x41,
];

/// The compressed generator: the public key of the secret key one.
const GENERATOR: [u8; 33] = [
    0x02, 0x79, 0xbe, 0x66, 0x7e, 0xf9, 0xdc, 0xbb, 0xac, 0x55, 0xa0, 0x62, 0x95, 0xce, 0x87, 0x0b,
    0x07, 0x02, 0x9b, 0xfc, 0xdb, 0x2d, 0xce, 0x28, 0xd9, 0x59, 0xf2, 0x81, 0x5b, 0x16, 0xf8, 0x17,
    0x98,
];

fn path(children: Vec<u32>) -> DerivationPath {
    DerivationPath { children }
}

#[test]
fn secret_keys_lie_between_zero_and_the_group_order() {
    assert!(SecretKey::from_byte_array([0; 32]).is_none());
    assert!(SecretKey::from_byte_array(one()).is_some());
    assert!(SecretKey::from_byte_array(ORDER).is_none());
    assert!(SecretKey::from_byte_array([0xff; 32]).is_none());
    let mut largest = ORDER;
    largest[31] -= 1;
    assert!(SecretKey::from_byte_array(largest).is_some());
}

#[test]
fn public_key_of_one_is_the_generator() {
    let public = public_key_of_derived(Ok(SecretKey::from_byte_array(one()).unwrap())).unwrap();
    assert_eq!(public.bytes, GENERATOR);
}

#[test]
fn signature_verifies_under_the_returned_public_key() {
    let digest = [0xab; 32];
    let key = SecretKey::from_byte_array([0xcd; 32]).unwrap();
    let (signature, public) = sign_with_derived(Ok(key), digest).unwrap();
    assert!(signature.verifies(digest, &public));
    assert!(!signature.verifies([0xac; 32], &public));
    assert!(!signature.verifies(digest, &PublicKey { bytes: GENERATOR }));

    let secp = secp256k1::Secp256k1::new();
    let signature = secp256k1::ecdsa::Signature::from_compact(&signature.bytes).unwrap();
    let public = secp256k1::PublicKey::from_slice(&public.bytes).unwrap();
    let message = secp256k1::Message::from_digest(digest);
    assert!(secp.verify_ecdsa(&message, &signature, &public).is_ok());
    let other = secp256k1::Message::from_digest([0xac; 32]);
    assert!(secp.verify_ecdsa(&other, &signature, &public).is_err());
}

#[test]
fn bytes_that_are_no_signature_or_key_verify_nothing() {
    let key = SecretKey::from_byte_array([0xcd; 32]).unwrap();
    let (signature, public) = sign_with_derived(Ok(key), [1; 32]).unwrap();
    assert!(!Signature { bytes: [0xff; 64] }.verifies([1; 32], &public));
    assert!(!Signature { bytes: [0; 64] }.verifies([1; 32], &public));
    assert!(!signature.verifies([1; 32], &PublicKey { bytes: [0; 33] }));
}

#[test]
fn extreme_keys_and_digests_sign_and_verify() {
    let mut largest = ORDER;
    largest[31] -= 1;
    for secret in [one(), largest] {
        for digest in [[0; 32], one(), ORDER, [0xff; 32]] {
            let key = SecretKey::from_byte_array(secret).unwrap();
            let (signature, public) = sign_with_derived(Ok(key), digest).unwrap();
            assert!(signature.verifies(digest, &public));
        }
    }
}

#[test]
fn returned_public_key_does_not_depend_on_the_digest() {
    let sign = |digest: [u8; 32]| {
        sign_with_derived(Ok(SecretKey::from_byte_array(one()).unwrap()), digest).unwrap()
    };
    assert_eq!(sign([1; 32]).1.bytes, GENERATOR);
    assert_eq!(sign([2; 32]).1.bytes, GENERATOR);
    assert_ne!(sign([1; 32]).0.bytes, sign([2; 32]).0.bytes);
}

#[test]
fn signing_is_deterministic_and_depends_on_key_and_digest() {
    let sign = |key: [u8; 32], digest: [u8; 32]| {
        sign_with_derived(Ok(SecretKey::from_byte_array(key).unwrap()), digest).unwrap().0.bytes
    };
    assert_eq!(sign([1; 32], [2; 32]), sign([1; 32], [2; 32]));
    assert_ne!(sign([1; 32], [2; 32]), sign([1; 32], [3; 32]));
    assert_ne!(sign([1; 32], [2; 32]), sign([4; 32], [2; 32]));
}

#[test]
fn signer_derives_at_the_path_it_is_asked_for() {
    let signer = WalletSigner { wallet: 7u8 };
    let derive = |wallet: &u8, path: &DerivationPath| {
        let mut bytes = [*wallet; 32];
        bytes[31] = path.children[0] as u8;
        SecretKey::from_byte_array(bytes).ok_or("no key".to_string())
    };
    let mut expected = [7u8; 32];
    expected[31] = 44;
    let direct =
        public_key_of_derived(Ok(SecretKey::from_byte_array(expected).unwrap())).unwrap();
    let public = signer.public_key(&path(vec![44]), derive).unwrap();
    assert_eq!(public.bytes, direct.bytes);
    let (_, with_signature) = signer.sign_ecdsa(&path(vec![44]), [9; 32], derive).unwrap();
    assert_eq!(with_signature.bytes, public.bytes);
    let other = signer.public_key(&path(vec![45]), derive).unwrap();
    assert_ne!(other.bytes, public.bytes);
}

#[test]
fn failed_derivation_is_handed_on() {
    let signer = WalletSigner { wallet: () };
    let fail = |_: &(), _: &DerivationPath| Err("watch only".to_string());
    assert!(matches!(signer.sign_ecdsa(&path(vec![]), [9; 32], fail), Err(e) if e == "watch only"));
    assert!(matches!(signer.public_key(&path(vec![]), fail), Err(e) if e == "watch only"));
    let extended: Result<u8, String> =
        signer.extended_public_key(&path(vec![1]), |_: &(), _: &DerivationPath| {
            Err("watch only".to_string())
        });
    assert_eq!(extended, Err("watch only".to_string()));
}

#[test]
fn extended_public_key_is_what_the_wallet_derives() {
    let signer = WalletSigner { wallet: 5u32 };
    let extended: Result<u32, String> = signer.extended_public_key(
        &path(vec![1, 2]),
        |wallet: &u32, path: &DerivationPath| Ok(*wallet + path.children[1]),
    );
    assert_eq!(extended, Ok(7));
}

#[test]
fn signer_signs_digests_only() {
    let signer = WalletSigner { wallet: () };
    assert_eq!(signer.supported_methods(), vec![SignerMethod::Digest]);
}
