use explora_token::rejection::Rejection;
use explora_token::verifying_key::{check_with_key, judge_parsed, verify_with_key};
use secp256k1::{Message, PublicKey, SecretKey, SECP256K1};

fn keccak(input: &[u8]) -> [u8; 32] {
    let mut digest = [0u8; 32];
    ink::env::hash_bytes::<ink::env::hash::Keccak256>(input, &mut digest);
    digest
}

fn secret_key(seed: u8) -> SecretKey {
    SecretKey::from_slice(&[seed; 32]).unwrap()
}

fn verifying_key(key: &SecretKey) -> Vec<u8> {
    PublicKey::from_secret_key(SECP256K1, key).serialize().to_vec()
}

fn sign_der(key: &SecretKey, message: &[u8]) -> Vec<u8> {
    let digest = Message::from_slice(&keccak(message)).unwrap();
    SECP256K1.sign_ecdsa(&digest, key).serialize_der().to_vec()
}

#[test]
fn der_signature_verifies_under_its_key() {
    let key = secret_key(0x51);
    let message = b"registered key";
    let signature = sign_der(&key, message);
    assert!(verify_with_key(&signature, message, &verifying_key(&key)));
    assert_eq!(check_with_key(&signature, message, &verifying_key(&key)), Ok(()));
}

#[test]
fn uncompressed_key_is_the_same_key() {
    let key = secret_key(0x51);
    let message = b"registered key";
    let signature = sign_der(&key, message);
    let uncompressed = PublicKey::from_secret_key(SECP256K1, &key).serialize_uncompressed();
    assert!(verify_with_key(&signature, message, &uncompressed));
}

#[test]
fn mismatched_key_is_invalid() {
    let message = b"registered key";
    let signature = sign_der(&secret_key(0x51), message);
    let other = verifying_key(&secret_key(0x52));
    assert!(!verify_with_key(&signature, message, &other));
    assert_eq!(check_with_key(&signature, message, &other), Err(Rejection::InvalidSignature));
}

#[test]
fn der_signature_over_another_message_is_invalid() {
    let key = secret_key(0x51);
    let signature = sign_der(&key, b"one message");
    assert!(!verify_with_key(&signature, b"another message", &verifying_key(&key)));
    assert_eq!(
        check_with_key(&signature, b"another message", &verifying_key(&key)),
        Err(Rejection::InvalidSignature)
    );
}

#[test]
fn malformed_signature_blob_is_reported() {
    let key = secret_key(0x51);
    let good = sign_der(&key, b"m");
    for blob in [&[][..], &[0x30][..], &[0u8; 64][..], &good[..good.len() - 1], b"not a signature"] {
        assert!(!verify_with_key(blob, b"m", &verifying_key(&key)));
        assert_eq!(check_with_key(blob, b"m", &verifying_key(&key)), Err(Rejection::MalformedSignature));
    }
    // The signature is looked at first.
    assert_eq!(check_with_key(&[], b"m", &[]), Err(Rejection::MalformedSignature));
}

#[test]
fn malformed_key_blob_is_reported() {
    let key = secret_key(0x51);
    let signature = sign_der(&key, b"m");
    let good = verifying_key(&key);
    let mut off_curve = good.clone();
    off_curve[0] = 0x05;
    for blob in [&[][..], &[0x02][..], &[0u8; 33][..], &good[..32], &off_curve[..], &[0xffu8; 65][..]] {
        assert!(!verify_with_key(&signature, b"m", blob));
        assert_eq!(check_with_key(&signature, b"m", blob), Err(Rejection::MalformedKey));
    }
}

#[test]
fn flipped_der_bytes_are_refused() {
    let key = secret_key(0x09);
    let message = b"flip me";
    let signature = sign_der(&key, message);
    let verifying = verifying_key(&key);
    assert!(verify_with_key(&signature, message, &verifying));
    for at in 0..signature.len() {
        let mut mutated = signature.clone();
        mutated[at] ^= 0x01;
        assert!(!verify_with_key(&mutated, message, &verifying), "byte {}", at);
    }
}

#[test]
fn judge_parsed_orders_the_reasons() {
    assert_eq!(judge_parsed(None, None, false), Err(Rejection::MalformedSignature));
    assert_eq!(judge_parsed(None, None, true), Err(Rejection::MalformedSignature));
    assert_eq!(judge_parsed(None, Some([2u8; 33]), true), Err(Rejection::MalformedSignature));
    assert_eq!(judge_parsed(Some([1u8; 64]), None, true), Err(Rejection::MalformedKey));
    assert_eq!(judge_parsed(Some([1u8; 64]), Some([2u8; 33]), false), Err(Rejection::InvalidSignature));
    assert_eq!(judge_parsed(Some([1u8; 64]), Some([2u8; 33]), true), Ok(()));
}
