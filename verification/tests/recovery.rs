use explora_token::bytes::bytes_equal;
use explora_token::recovery::{
    address_matches, check_recoverable, recover_signer, signature_from_bytes, signature_well_formed,
    verify_signature,
};
use explora_token::rejection::Rejection;
use explora_token::scalar::GROUP_ORDER;
use secp256k1::{Message, PublicKey, SecretKey, SECP256K1};

const DOC_SIGNATURE: [u8; 65] = [
    195, 218, 227, 165, 226, 17, 25, 160, 37, 92, 142, 238, 4, 41, 244, 211, 18, 94, 131, 116, 231, 116, 255,
    164, 252, 248, 85, 233, 173, 225, 26, 185, 119, 235, 137, 35, 204, 251, 134, 131, 186, 215, 76, 112, 17,
    192, 114, 243, 102, 166, 176, 140, 180, 124, 213, 102, 117, 212, 89, 89, 92, 209, 116, 17, 28,
];

const DOC_DIGEST: [u8; 32] = [
    167, 124, 116, 195, 220, 156, 244, 20, 243, 69, 1, 98, 189, 205, 79, 108, 213, 78, 65, 65, 230, 30, 17, 37,
    184, 220, 237, 135, 1, 209, 101, 229,
];

const DOC_ADDRESS: [u8; 20] = [
    253, 240, 181, 194, 143, 66, 163, 109, 18, 211, 78, 49, 177, 94, 159, 79, 207, 37, 21, 191,
];

fn keccak(input: &[u8]) -> [u8; 32] {
    let mut digest = [0u8; 32];
    ink::env::hash_bytes::<ink::env::hash::Keccak256>(input, &mut digest);
    digest
}

fn secret_key(seed: u8) -> SecretKey {
    SecretKey::from_slice(&[seed; 32]).unwrap()
}

fn address_of(key: &SecretKey) -> [u8; 20] {
    let uncompressed = PublicKey::from_secret_key(SECP256K1, key).serialize_uncompressed();
    let digest = keccak(&uncompressed[1..]);
    let mut address = [0u8; 20];
    address.copy_from_slice(&digest[12..]);
    address
}

fn sign(key: &SecretKey, message: &[u8]) -> [u8; 65] {
    let digest = Message::from_slice(&keccak(message)).unwrap();
    let (tag, compact) = SECP256K1.sign_ecdsa_recoverable(&digest, key).serialize_compact();
    let mut signature = [0u8; 65];
    signature[..64].copy_from_slice(&compact);
    signature[64] = tag.to_i32() as u8;
    signature
}

#[test]
fn hash_generation() {
    let id: u128 = 2000;
    let token_uri = String::from("test123");
    let mut encoded_id = parity_scale_codec::Encode::encode(&id);
    encoded_id.reverse();
    let encoded_uri = token_uri.as_bytes();
    let mut message_to_sign = Vec::new();
    message_to_sign.extend_from_slice(&encoded_id);
    message_to_sign.extend_from_slice(encoded_uri);
    let message_hash = keccak(&message_to_sign);
    println!("message hash: {:?}", message_hash);

    // The digest that verification takes is the one of the message as it is.
    let key = secret_key(0x21);
    let digest = Message::from_slice(&message_hash).unwrap();
    let (tag, compact) = SECP256K1.sign_ecdsa_recoverable(&digest, &key).serialize_compact();
    let mut signature = [0u8; 65];
    signature[..64].copy_from_slice(&compact);
    signature[64] = tag.to_i32() as u8;
    assert!(verify_signature(&signature, &message_to_sign, &address_of(&key)));
    assert_eq!(recover_signer(&signature, &message_hash), Some(address_of(&key)));
}

#[test]
fn signature_recover() {
    let hash = [
        143, 34, 179, 64, 56, 88, 37, 50, 121, 36, 7, 148, 67, 221, 44, 128, 88, 183, 205, 240, 32, 163, 43,
        167, 244, 83, 16, 47, 107, 138, 225, 194,
    ];
    let signature = [
        203, 125, 112, 12, 217, 154, 192, 127, 47, 243, 235, 129, 162, 27, 108, 101, 136, 35, 8, 151, 177, 167,
        80, 189, 133, 1, 105, 159, 50, 177, 100, 70, 87, 174, 162, 188, 194, 37, 241, 196, 149, 202, 8, 8, 183,
        40, 46, 60, 43, 187, 224, 49, 226, 74, 153, 52, 194, 53, 190, 48, 158, 144, 147, 127, 27,
    ];
    let mut output = [0; 33];
    ink::env::ecdsa_recover(&signature, &hash, &mut output).unwrap();
    let mut eth_addr = [0; 20];
    ink::env::ecdsa_to_eth_address(&output, &mut eth_addr).unwrap();
    println!("public key: {:?}", eth_addr);

    assert_eq!(recover_signer(&signature, &hash), Some(eth_addr));
}

#[test]
fn recovers_the_documented_address() {
    assert!(signature_well_formed(&DOC_SIGNATURE));
    assert_eq!(recover_signer(&DOC_SIGNATURE, &DOC_DIGEST), Some(DOC_ADDRESS));
}

#[test]
fn recovery_depends_on_the_digest() {
    let mut digest = DOC_DIGEST;
    digest[0] ^= 1;
    assert_ne!(recover_signer(&DOC_SIGNATURE, &digest), Some(DOC_ADDRESS));
}

#[test]
fn recovery_tag_is_accepted_with_and_without_offset() {
    let mut signature = DOC_SIGNATURE;
    assert_eq!(signature[64], 28);
    signature[64] = 1;
    assert!(signature_well_formed(&signature));
    assert_eq!(recover_signer(&signature, &DOC_DIGEST), Some(DOC_ADDRESS));
    for tag in [0u8, 1, 2, 3, 27, 28, 29, 30] {
        signature[64] = tag;
        assert!(signature_well_formed(&signature), "tag {}", tag);
    }
    for tag in [4u8, 5, 26, 31, 32, 100, 255] {
        signature[64] = tag;
        assert!(!signature_well_formed(&signature), "tag {}", tag);
        assert_eq!(recover_signer(&signature, &DOC_DIGEST), None);
    }
}

#[test]
fn scalars_out_of_range_are_malformed() {
    let mut signature = DOC_SIGNATURE;
    signature[..32].copy_from_slice(&GROUP_ORDER);
    assert!(!signature_well_formed(&signature));
    assert_eq!(recover_signer(&signature, &DOC_DIGEST), None);
    assert!(!verify_signature(&signature, b"message", &DOC_ADDRESS));
    assert_eq!(check_recoverable(&signature, b"message", &DOC_ADDRESS), Err(Rejection::MalformedSignature));

    let mut signature = DOC_SIGNATURE;
    signature[32..64].copy_from_slice(&[0xff; 32]);
    assert!(!signature_well_formed(&signature));
    assert_eq!(recover_signer(&signature, &DOC_DIGEST), None);
    assert_eq!(check_recoverable(&signature, b"message", &DOC_ADDRESS), Err(Rejection::MalformedSignature));
}

#[test]
fn zero_scalars_are_well_formed_and_recover_nothing() {
    let signature = [0u8; 65];
    assert!(signature_well_formed(&signature));
    assert_eq!(recover_signer(&signature, &DOC_DIGEST), None);
    assert!(!verify_signature(&signature, b"message", &[0u8; 20]));
    assert_eq!(check_recoverable(&signature, b"message", &[0u8; 20]), Err(Rejection::InvalidSignature));
}

#[test]
fn genuine_signature_verifies() {
    let key = secret_key(0x42);
    let message = b"any message at all";
    let signature = sign(&key, message);
    assert!(verify_signature(&signature, message, &address_of(&key)));
    assert_eq!(check_recoverable(&signature, message, &address_of(&key)), Ok(()));
}

#[test]
fn signature_of_another_key_is_invalid() {
    let message = b"any message at all";
    let signature = sign(&secret_key(0x42), message);
    let other = address_of(&secret_key(0x43));
    assert!(!verify_signature(&signature, message, &other));
    assert_eq!(check_recoverable(&signature, message, &other), Err(Rejection::InvalidSignature));
}

#[test]
fn signature_over_another_message_is_invalid() {
    let key = secret_key(0x42);
    let signature = sign(&key, b"one message");
    assert!(!verify_signature(&signature, b"another message", &address_of(&key)));
    assert!(!verify_signature(&signature, b"one messagf", &address_of(&key)));
    assert!(!verify_signature(&signature, b"", &address_of(&key)));
}

#[test]
fn any_flipped_signature_byte_is_refused() {
    let key = secret_key(0x07);
    let message = b"flip me";
    let signature = sign(&key, message);
    let signer = address_of(&key);
    assert!(verify_signature(&signature, message, &signer));
    for at in 0..65 {
        let mut mutated = signature;
        mutated[at] ^= 0x01;
        assert!(!verify_signature(&mutated, message, &signer), "byte {}", at);
        let mut mutated = signature;
        mutated[at] ^= 0xff;
        assert!(!verify_signature(&mutated, message, &signer), "byte {}", at);
    }
}

#[test]
fn long_messages_are_hashed_whole() {
    let key = secret_key(0x33);
    let message = vec![0x5au8; 70_000];
    let signature = sign(&key, &message);
    assert!(verify_signature(&signature, &message, &address_of(&key)));
    let mut shorter = message.clone();
    shorter.pop();
    assert!(!verify_signature(&signature, &shorter, &address_of(&key)));
}

#[test]
fn address_matches_only_the_same_address() {
    assert!(address_matches(Some(DOC_ADDRESS), &DOC_ADDRESS));
    let mut other = DOC_ADDRESS;
    other[19] ^= 1;
    assert!(!address_matches(Some(DOC_ADDRESS), &other));
    assert!(!address_matches(None, &DOC_ADDRESS));
    assert!(!address_matches(None, &[0u8; 20]));
}

#[test]
fn bytes_equal_compares_length_and_content() {
    assert!(bytes_equal(&[], &[]));
    assert!(bytes_equal(&[1, 2, 3], &[1, 2, 3]));
    assert!(!bytes_equal(&[1, 2, 3], &[1, 2]));
    assert!(!bytes_equal(&[1, 2], &[1, 2, 3]));
    assert!(!bytes_equal(&[1, 2, 3], &[1, 2, 4]));
    assert!(!bytes_equal(&[0, 2, 3], &[1, 2, 3]));
}

#[test]
fn signature_from_bytes_takes_exactly_65() {
    assert_eq!(signature_from_bytes(&DOC_SIGNATURE), Some(DOC_SIGNATURE));
    assert_eq!(signature_from_bytes(&DOC_SIGNATURE[..64]), None);
    assert_eq!(signature_from_bytes(&[]), None);
    let mut longer = DOC_SIGNATURE.to_vec();
    longer.push(0);
    assert_eq!(signature_from_bytes(&longer), None);
}
