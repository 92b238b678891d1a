use coordinator::eip712::test_helpers::{
    address_for_signing_key, sign_disclosure, sign_register_reader, signing_key_for_tests,
    test_domain,
};
use coordinator::eip712::{
    encode_address_word, encode_u64_word, ethereum_address, hash_eip712_domain, reader_id,
    signature_byte, signature_recovery_byte, typed_data_digest, verify_disclosure_signature,
    verify_register_reader_signature,
};
use coordinator::error::ErrorKind;
use coordinator::keccak::keccak256;
use coordinator::types::{
    Address, DisclosureRequest, EthereumSignature, HandleId, Nonce, ReaderId, RegisterReader,
    X25519PublicKey,
};

#[test]
fn round_trips_register_reader_signature() {
    let signing_key = signing_key_for_tests([7; 32]);
    let controller = address_for_signing_key(&signing_key);
    let domain = test_domain(31337);
    let message = RegisterReader {
        controller,
        reader_id: ReaderId([1; 32]),
        nonce: Nonce([2; 32]),
        expiry: 100,
    };

    let signature = sign_register_reader(&signing_key, &domain, &message).unwrap();
    verify_register_reader_signature(&domain, &message, signature).unwrap();
}

#[test]
fn round_trips_disclosure_signature() {
    let signing_key = signing_key_for_tests([8; 32]);
    let controller = address_for_signing_key(&signing_key);
    let domain = test_domain(31337);
    let message = DisclosureRequest {
        contract: Address([3; 20]),
        handle_id: HandleId([4; 32]),
        reader_id: ReaderId([5; 32]),
        nonce: Nonce([6; 32]),
        expiry: 100,
    };

    let signature = sign_disclosure(&signing_key, &domain, &message).unwrap();
    verify_disclosure_signature(&domain, controller, &message, signature).unwrap();
}

fn hex(bytes: &[u8]) -> String {
    bytes.iter().map(|b| format!("{b:02x}")).collect()
}

fn registration(controller: Address) -> RegisterReader {
    RegisterReader {
        controller,
        reader_id: ReaderId([1; 32]),
        nonce: Nonce([2; 32]),
        expiry: 100,
    }
}

#[test]
fn keccak256_of_empty_input_matches_known_digest() {
    assert_eq!(
        hex(&keccak256(&[])),
        "c5d2460186f7233c927e7db2dcc703c0e500b653ca82273b7bfad8045d85a470"
    );
    assert_eq!(
        hex(&keccak256(b"abc")),
        "4e03657aea45a94fc7d47ba826c8d667c0d1e6e33a64a036ec44f58fa12d6c45"
    );
}

#[test]
fn u64_word_is_big_endian_and_left_padded() {
    let word = encode_u64_word(0x0102_0304_0506_0708);
    assert_eq!(&word[..24], &[0u8; 24]);
    assert_eq!(&word[24..], &[1, 2, 3, 4, 5, 6, 7, 8]);
    assert_eq!(encode_u64_word(0), [0u8; 32]);
}

#[test]
fn address_word_is_left_padded() {
    let word = encode_address_word(Address([0xab; 20]));
    assert_eq!(&word[..12], &[0u8; 12]);
    assert_eq!(&word[12..], &[0xab; 20]);
}

#[test]
fn reader_id_is_keccak_of_public_key() {
    let key = X25519PublicKey([0x44; 32]);
    assert_eq!(reader_id(key), ReaderId(keccak256(&[0x44; 32])));
    assert_ne!(reader_id(key), reader_id(X25519PublicKey([0x45; 32])));
}

#[test]
fn recovery_byte_accepts_ethereum_offsets() {
    assert_eq!(signature_byte(27), 0);
    assert_eq!(signature_byte(28), 1);
    assert_eq!(signature_byte(0), 0);
    assert_eq!(signature_byte(3), 3);
    assert_eq!(signature_byte(29), 29);
    let mut bytes = [0u8; 65];
    bytes[64] = 9;
    assert_eq!(signature_recovery_byte(&bytes), 9);
}

#[test]
fn digest_depends_on_domain() {
    let hash = [5u8; 32];
    let a = typed_data_digest(&test_domain(1), &hash);
    let b = typed_data_digest(&test_domain(2), &hash);
    assert_ne!(a, b);
    assert_ne!(hash_eip712_domain(&test_domain(1)), hash_eip712_domain(&test_domain(2)));
}

#[test]
fn signature_with_ethereum_recovery_offset_verifies() {
    let signing_key = signing_key_for_tests([7; 32]);
    let controller = address_for_signing_key(&signing_key);
    let domain = test_domain(31337);
    let message = registration(controller);
    let mut signature = sign_register_reader(&signing_key, &domain, &message).unwrap();
    signature.0[64] += 27;
    verify_register_reader_signature(&domain, &message, signature).unwrap();
}

#[test]
fn signature_by_another_key_is_rejected() {
    let signer = signing_key_for_tests([7; 32]);
    let other = signing_key_for_tests([9; 32]);
    let domain = test_domain(31337);
    let message = registration(address_for_signing_key(&other));
    let signature = sign_register_reader(&signer, &domain, &message).unwrap();
    let error = verify_register_reader_signature(&domain, &message, signature).unwrap_err();
    assert_eq!(error.error_kind(), ErrorKind::Unauthorized);
    assert_eq!(error.message_text(), "signature does not match expected controller");
}

#[test]
fn signature_under_another_domain_is_rejected() {
    let signing_key = signing_key_for_tests([7; 32]);
    let controller = address_for_signing_key(&signing_key);
    let message = registration(controller);
    let signature = sign_register_reader(&signing_key, &test_domain(1), &message).unwrap();
    let error = verify_register_reader_signature(&test_domain(2), &message, signature).unwrap_err();
    assert_eq!(error.error_kind(), ErrorKind::Unauthorized);
}

#[test]
fn unsupported_recovery_id_is_rejected() {
    let signing_key = signing_key_for_tests([7; 32]);
    let controller = address_for_signing_key(&signing_key);
    let domain = test_domain(31337);
    let message = registration(controller);
    let mut signature = sign_register_reader(&signing_key, &domain, &message).unwrap();
    signature.0[64] = 5;
    let error = verify_register_reader_signature(&domain, &message, signature).unwrap_err();
    assert_eq!(error.error_kind(), ErrorKind::Unauthorized);
    assert_eq!(error.message_text(), "unsupported Ethereum recovery id");
}

#[test]
fn zero_signature_is_malformed() {
    let domain = test_domain(31337);
    let message = registration(Address([1; 20]));
    let error =
        verify_register_reader_signature(&domain, &message, EthereumSignature([0; 65])).unwrap_err();
    assert_eq!(error.error_kind(), ErrorKind::Unauthorized);
    assert!(error.message_text().starts_with("invalid signature bytes: "));
}

#[test]
fn address_of_signing_key_matches_known_vector() {
    // The secret key 1 has the generator as its public key, whose Ethereum
    // address is well known.
    let mut seed = [0u8; 32];
    seed[31] = 1;
    let key = signing_key_for_tests(seed);
    assert_eq!(
        hex(&address_for_signing_key(&key).0),
        "7e5f4552091a69125d5dfcb7b8c2659029395bdf"
    );
}

#[test]
fn ethereum_address_hashes_coordinates() {
    let mut key = [0u8; 65];
    key[0] = 4;
    key[1] = 0x11;
    let address = ethereum_address(&key);
    let hash = keccak256(&key[1..]);
    assert_eq!(address.0[..], hash[12..]);
}
