use k256::ecdsa::{RecoveryId, Signature, VerifyingKey};
use k256::elliptic_curve::sec1::ToEncodedPoint;
use vstd::prelude::*;
use vstd::string::*;
use vstd::utf8::*;

pub mod encoding_laws;
pub mod test_helpers;

use crate::bytes::{append_bytes, bytes_equal, copy_suffix};
use crate::error::{CoordinatorError, ErrorKind};
use crate::keccak::{keccak256, keccak256_digest};
use crate::types::{
    Address, Bytes32, DisclosureRequest, Eip712Domain, EthereumSignature, ReaderId, RegisterReader,
    X25519PublicKey,
};

verus! {

pub const EIP712_DOMAIN_TYPE: &'static str =
    "EIP712Domain(string name,string version,uint256 chainId,bytes32 salt)";

pub const REGISTER_READER_TYPE: &'static str =
    "RegisterReader(address controller,bytes32 reader_id,bytes32 nonce,uint64 expiry)";

pub const DISCLOSURE_REQUEST_TYPE: &'static str =
    "DisclosureRequest(address contract,bytes32 handle_id,bytes32 reader_id,bytes32 nonce,uint64 expiry)";

// ---------------------------------------------------------------------------
// ABI words and EIP-712 hashes
// ---------------------------------------------------------------------------

/// Byte `k` (0 = most significant) of the big-endian encoding of `value`.
pub open spec fn u64_be_byte(value: u64, k: int) -> u8 {
    ((value >> ((8 * (7 - k)) as u64)) & 0xff) as u8
}

/// A `uint64` as a 32-byte ABI word: 24 zero bytes, then the value big-endian.
pub open spec fn u64_word(value: u64) -> Seq<u8> {
    Seq::new(32, |i: int| if i < 24 { 0u8 } else { u64_be_byte(value, i - 24) })
}

/// An `address` as a 32-byte ABI word: 12 zero bytes, then the address.
pub open spec fn address_word(address: Address) -> Seq<u8> {
    Seq::new(12, |i: int| 0u8) + address.0@
}

/// Keccak-256 of the UTF-8 encoding of a string.
pub open spec fn keccak_of_text(text: Seq<char>) -> Seq<u8> {
    keccak256_digest(encode_utf8(text))
}

/// `hashStruct` of an EIP-712 domain with the given fields.
pub open spec fn domain_separator_of(name: Seq<char>, version: Seq<char>, chain_id: u64, salt: Bytes32) -> Seq<u8> {
    keccak256_digest(
        keccak_of_text(EIP712_DOMAIN_TYPE@) + keccak_of_text(name) + keccak_of_text(version)
            + u64_word(chain_id) + salt.0@,
    )
}

/// `hashStruct` of the EIP-712 domain.
pub open spec fn domain_separator(domain: Eip712Domain) -> Seq<u8> {
    domain_separator_of(domain.name@, domain.version@, domain.chain_id, domain.salt)
}

/// `hashStruct` of a reader registration.
pub open spec fn register_reader_struct_hash(message: RegisterReader) -> Seq<u8> {
    keccak256_digest(
        keccak_of_text(REGISTER_READER_TYPE@) + address_word(message.controller)
            + message.reader_id.0@ + message.nonce.0@ + u64_word(message.expiry),
    )
}

/// `hashStruct` of a disclosure request.
pub open spec fn disclosure_struct_hash(message: DisclosureRequest) -> Seq<u8> {
    keccak256_digest(
        keccak_of_text(DISCLOSURE_REQUEST_TYPE@) + address_word(message.contract)
            + message.handle_id.0@ + message.reader_id.0@ + message.nonce.0@ + u64_word(
            message.expiry,
        ),
    )
}

/// The EIP-712 signing digest: Keccak-256 of `0x19 0x01 || domainSeparator || structHash`.
pub open spec fn signing_digest(separator: Seq<u8>, struct_hash: Seq<u8>) -> Seq<u8> {
    keccak256_digest(seq![0x19u8, 0x01u8] + separator + struct_hash)
}

/// The EIP-712 signing digest of `struct_hash` under `domain`.
pub open spec fn typed_digest(domain: Eip712Domain, struct_hash: Seq<u8>) -> Seq<u8> {
    signing_digest(domain_separator(domain), struct_hash)
}

pub open spec fn register_reader_digest(domain: Eip712Domain, message: RegisterReader) -> Seq<u8> {
    typed_digest(domain, register_reader_struct_hash(message))
}

pub open spec fn disclosure_digest(domain: Eip712Domain, message: DisclosureRequest) -> Seq<u8> {
    typed_digest(domain, disclosure_struct_hash(message))
}

/// Encodes `value` as a 32-byte ABI word.
pub fn encode_u64_word(value: u64) -> (res: [u8; 32])
    ensures
        res@ == u64_word(value),
{
    let mut word = [0u8; 32];
    let mut k: usize = 0;
    while k < 8
        invariant
            k <= 8,
            word@.len() == 32,
            forall|i: int| 0 <= i < 24 ==> word@[i] == 0u8,
            forall|i: int| 24 <= i < 24 + k ==> word@[i] == u64_be_byte(value, i - 24),
            forall|i: int| 24 + k <= i < 32 ==> word@[i] == 0u8,
        decreases 8 - k,
    {
        let byte: u8 = ((value >> ((8 * (7 - k)) as u64)) & 0xff) as u8;
        word.set(24 + k, byte);
        k = k + 1;
    }
    assert(word@ =~= u64_word(value));
    word
}

/// Encodes `address` as a 32-byte ABI word.
pub fn encode_address_word(address: Address) -> (res: [u8; 32])
    ensures
        res@ == address_word(address),
{
    let mut word = [0u8; 32];
    let mut k: usize = 0;
    while k < 20
        invariant
            k <= 20,
            word@.len() == 32,
            address.0@.len() == 20,
            forall|i: int| 0 <= i < 12 ==> word@[i] == 0u8,
            forall|i: int| 12 <= i < 12 + k ==> word@[i] == address.0@[i - 12],
            forall|i: int| 12 + k <= i < 32 ==> word@[i] == 0u8,
        decreases 20 - k,
    {
        word.set(12 + k, address.0[k]);
        k = k + 1;
    }
    assert(word@ =~= address_word(address));
    word
}

fn keccak_text(text: &str) -> (res: [u8; 32])
    ensures
        res@ == keccak_of_text(text@),
{
    keccak256(text.as_bytes())
}

/// `hashStruct` of the EIP-712 domain.
pub fn hash_eip712_domain(domain: &Eip712Domain) -> (res: [u8; 32])
    ensures
        res@ == domain_separator(*domain),
{
    let mut encoded: Vec<u8> = Vec::with_capacity(32 * 5);
    append_bytes(&mut encoded, &keccak_text(EIP712_DOMAIN_TYPE));
    append_bytes(&mut encoded, &keccak_text(domain.name.as_str()));
    append_bytes(&mut encoded, &keccak_text(domain.version.as_str()));
    append_bytes(&mut encoded, &encode_u64_word(domain.chain_id));
    append_bytes(&mut encoded, &domain.salt.0);
    keccak256(encoded.as_slice())
}

/// `hashStruct` of a reader registration.
pub fn hash_register_reader(message: &RegisterReader) -> (res: [u8; 32])
    ensures
        res@ == register_reader_struct_hash(*message),
{
    let mut encoded: Vec<u8> = Vec::with_capacity(32 * 5);
    append_bytes(&mut encoded, &keccak_text(REGISTER_READER_TYPE));
    append_bytes(&mut encoded, &encode_address_word(message.controller));
    append_bytes(&mut encoded, &message.reader_id.0);
    append_bytes(&mut encoded, &message.nonce.0);
    append_bytes(&mut encoded, &encode_u64_word(message.expiry));
    keccak256(encoded.as_slice())
}

/// `hashStruct` of a disclosure request.
pub fn hash_disclosure_request(message: &DisclosureRequest) -> (res: [u8; 32])
    ensures
        res@ == disclosure_struct_hash(*message),
{
    let mut encoded: Vec<u8> = Vec::with_capacity(32 * 6);
    append_bytes(&mut encoded, &keccak_text(DISCLOSURE_REQUEST_TYPE));
    append_bytes(&mut encoded, &encode_address_word(message.contract));
    append_bytes(&mut encoded, &message.handle_id.0);
    append_bytes(&mut encoded, &message.reader_id.0);
    append_bytes(&mut encoded, &message.nonce.0);
    append_bytes(&mut encoded, &encode_u64_word(message.expiry));
    keccak256(encoded.as_slice())
}

/// The EIP-712 digest that a signer signs for `struct_hash` under `domain`.
pub fn typed_data_digest(domain: &Eip712Domain, struct_hash: &[u8; 32]) -> (res: [u8; 32])
    ensures
        res@ == typed_digest(*domain, struct_hash@),
{
    let mut bytes: Vec<u8> = Vec::with_capacity(66);
    bytes.push(0x19u8);
    bytes.push(0x01u8);
    append_bytes(&mut bytes, &hash_eip712_domain(domain));
    append_bytes(&mut bytes, struct_hash);
    assert(bytes@ =~= seq![0x19u8, 0x01u8] + domain_separator(*domain) + struct_hash@);
    keccak256(bytes.as_slice())
}

/// The reader identifier of an X25519 public key: its Keccak-256 hash.
pub fn reader_id(reader_pubkey: X25519PublicKey) -> (res: ReaderId)
    ensures
        res.0@ == keccak256_digest(reader_pubkey.0@),
{
    ReaderId(keccak256(&reader_pubkey.0))
}

// ---------------------------------------------------------------------------
// secp256k1 signatures
// ---------------------------------------------------------------------------

/// The order `n` of the secp256k1 group.
pub open spec fn secp256k1_order() -> nat {
    0xFFFFFFFFFFFFFFFFFFFFFFFFFFFFFFFEBAAEDCE6AF48A03BBFD25E8CD0364141nat
}

/// The unsigned integer that `bytes` denote, most significant byte first.
pub open spec fn be_value(bytes: Seq<u8>) -> nat
    decreases bytes.len(),
{
    if bytes.len() == 0 {
        0
    } else {
        be_value(bytes.drop_last()) * 256 + bytes.last() as nat
    }
}

/// Whether 32 bytes denote a scalar in `1..n`.
pub open spec fn scalar_in_range(bytes: Seq<u8>) -> bool {
    1 <= be_value(bytes) < secp256k1_order()
}

/// Whether the 64 bytes `r || s` hold two scalars in `1..n`, the form that
/// `k256` accepts as an ECDSA signature.
pub open spec fn signature_scalars_valid(rs: Seq<u8>) -> bool {
    &&& rs.len() == 64
    &&& scalar_in_range(rs.subrange(0, 32))
    &&& scalar_in_range(rs.subrange(32, 64))
}

/// The public key (as the 65-byte uncompressed SEC1 encoding) that
/// secp256k1 public-key recovery yields for a message prehash, a signature
/// `r || s` and a recovery id, or `None` when recovery fails.
pub uninterp spec fn secp256k1_recover_prehash(prehash: Seq<u8>, rs: Seq<u8>, recovery_id: u8) -> Option<Seq<u8>>;

/// The public key (65-byte uncompressed SEC1 encoding) of a secret scalar.
pub uninterp spec fn secp256k1_public_key(secret: Seq<u8>) -> Seq<u8>;

/// The deterministic (RFC 6979) recoverable signature `(r || s, recovery id)`
/// of a message prehash under a secret scalar, or `None` when signing fails.
pub uninterp spec fn secp256k1_sign_prehash(secret: Seq<u8>, prehash: Seq<u8>) -> Option<(Seq<u8>, u8)>;

/// The Ethereum address of a public key: the last 20 bytes of the Keccak-256
/// hash of the key's coordinates (the uncompressed encoding without its tag byte).
pub open spec fn key_address(public_key: Seq<u8>) -> Seq<u8> {
    keccak256_digest(public_key.subrange(1, 65)).subrange(12, 32)
}

/// Ethereum writes the recovery id as 27 or 28; both forms are accepted.
pub open spec fn recovery_byte(v: u8) -> u8 {
    if v == 27 || v == 28 {
        (v - 27) as u8
    } else {
        v
    }
}

/// The outcome of checking a signature against an expected signer.
#[derive(Clone, Copy, Debug, PartialEq, Eq)]
pub enum SignatureCheck {
    MalformedSignature,
    UnsupportedRecoveryId,
    RecoveryFailed,
    WrongSigner,
    Valid,
}

/// How a signature over `digest` fares against the expected signer.
pub open spec fn check_signature(digest: Seq<u8>, signature: EthereumSignature, expected: Address) -> SignatureCheck {
    let rs = signature.0@.subrange(0, 64);
    let id: u8 = recovery_byte(signature.0@[64]);
    if !signature_scalars_valid(rs) {
        SignatureCheck::MalformedSignature
    } else if id > 3 {
        SignatureCheck::UnsupportedRecoveryId
    } else {
        match secp256k1_recover_prehash(digest, rs, id) {
            None => SignatureCheck::RecoveryFailed,
            Some(key) => if key_address(key) == expected.0@ {
                SignatureCheck::Valid
            } else {
                SignatureCheck::WrongSigner
            },
        }
    }
}

/// What a signature check answers for each outcome: success only for a valid
/// signature, otherwise `Unauthorized` with a message naming the cause.
pub open spec fn signature_result<T>(res: Result<T, CoordinatorError>, check: SignatureCheck) -> bool {
    match check {
        SignatureCheck::Valid => res is Ok,
        SignatureCheck::MalformedSignature => res matches Err(e) && e.kind() == ErrorKind::Unauthorized
            && "invalid signature bytes: "@.is_prefix_of(e.message()),
        SignatureCheck::UnsupportedRecoveryId => res matches Err(e) && e.kind()
            == ErrorKind::Unauthorized && e.message() == "unsupported Ethereum recovery id"@,
        SignatureCheck::RecoveryFailed => res matches Err(e) && e.kind() == ErrorKind::Unauthorized
            && "signature recovery failed: "@.is_prefix_of(e.message()),
        SignatureCheck::WrongSigner => res matches Err(e) && e.kind() == ErrorKind::Unauthorized
            && e.message() == "signature does not match expected controller"@,
    }
}

/// Why recovering a public key failed.
enum RecoveryFailure {
    InvalidSignature(String),
    InvalidRecoveryId,
    Failed(String),
}

/// Recovers the signer's public key with `k256`: parses `r || s` with
/// `Signature::try_from`, the recovery id with `RecoveryId::from_byte`, then
/// calls `VerifyingKey::recover_from_prehash` and encodes the key uncompressed.
///
/// Trusted: parsing fails exactly when `r` or `s` is not in `1..n` (as
/// `Signature::from_scalars` documents), the recovery id is refused exactly
/// when it exceeds 3 (`RecoveryId::MAX`), and otherwise the result is the
/// recovered key, a function of the arguments alone. The error texts are
/// those of `k256`'s error type and are not stated.
#[verifier::external_body]
fn recover_public_key(prehash: &[u8; 32], rs: &[u8; 64], recovery_id: u8) -> (res: Result<[u8; 65], RecoveryFailure>)
    ensures
        !signature_scalars_valid(rs@) ==> res matches Err(RecoveryFailure::InvalidSignature(_)),
        signature_scalars_valid(rs@) && recovery_id > 3 ==> res matches Err(RecoveryFailure::InvalidRecoveryId),
        signature_scalars_valid(rs@) && recovery_id <= 3 ==> match secp256k1_recover_prehash(prehash@, rs@, recovery_id) {
            Some(key) => res matches Ok(k) && k@ == key,
            None => res matches Err(RecoveryFailure::Failed(_)),
        },
{
    let sig = Signature::try_from(&rs[..]).map_err(|e| RecoveryFailure::InvalidSignature(e.to_string()))?;
    let id = RecoveryId::from_byte(recovery_id).ok_or(RecoveryFailure::InvalidRecoveryId)?;
    let key = VerifyingKey::recover_from_prehash(prehash, &sig, id).map_err(|e| RecoveryFailure::Failed(e.to_string()))?;
    let mut out = [0u8; 65];
    out.copy_from_slice(key.to_encoded_point(false).as_bytes());
    Ok(out)
}

/// The last byte of a signature, which holds the recovery id.
pub fn signature_recovery_byte(bytes: &[u8; 65]) -> (res: u8)
    ensures
        res == bytes@[64],
{
    bytes[64]
}

/// Maps Ethereum's 27/28 recovery ids to 0/1 and keeps every other value.
pub fn signature_byte(v: u8) -> (res: u8)
    ensures
        res == recovery_byte(v),
{
    if v == 27 || v == 28 {
        v - 27
    } else {
        v
    }
}

/// The Ethereum address of an uncompressed public key.
pub fn ethereum_address(public_key: &[u8; 65]) -> (res: Address)
    ensures
        res.0@ == key_address(public_key@),
{
    let coordinates = copy_suffix(public_key, 1);
    let hash = keccak256(coordinates.as_slice());
    let mut address = [0u8; 20];
    let mut k: usize = 0;
    while k < 20
        invariant
            k <= 20,
            address@.len() == 20,
            hash@.len() == 32,
            forall|i: int| 0 <= i < k ==> address@[i] == hash@[i + 12],
        decreases 20 - k,
    {
        address.set(k, hash[12 + k]);
        k = k + 1;
    }
    assert(address@ =~= hash@.subrange(12, 32));
    Address(address)
}

/// Checks that `signature` over `digest` was made by `expected_signer`.
fn verify_signature(digest: [u8; 32], signature: EthereumSignature, expected_signer: Address) -> (res: Result<(), CoordinatorError>)
    ensures
        signature_result(res, check_signature(digest@, signature, expected_signer)),
{
    let mut rs = [0u8; 64];
    let mut k: usize = 0;
    while k < 64
        invariant
            k <= 64,
            rs@.len() == 64,
            signature.0@.len() == 65,
            forall|i: int| 0 <= i < k ==> rs@[i] == signature.0@[i],
        decreases 64 - k,
    {
        rs.set(k, signature.0[k]);
        k = k + 1;
    }
    assert(rs@ =~= signature.0@.subrange(0, 64));
    let recovery_id: u8 = signature_byte(signature_recovery_byte(&signature.0));
    match recover_public_key(&digest, &rs, recovery_id) {
        Err(RecoveryFailure::InvalidSignature(text)) => {
            let message = String::from_str("invalid signature bytes: ").concat(text.as_str());
            assert(message@.subrange(0, "invalid signature bytes: "@.len() as int) =~= "invalid signature bytes: "@);
            Err(CoordinatorError::with_message(ErrorKind::Unauthorized, message))
        },
        Err(RecoveryFailure::InvalidRecoveryId) => {
            Err(CoordinatorError::new(ErrorKind::Unauthorized, "unsupported Ethereum recovery id"))
        },
        Err(RecoveryFailure::Failed(text)) => {
            let message = String::from_str("signature recovery failed: ").concat(text.as_str());
            assert(message@.subrange(0, "signature recovery failed: "@.len() as int) =~= "signature recovery failed: "@);
            Err(CoordinatorError::with_message(ErrorKind::Unauthorized, message))
        },
        Ok(public_key) => {
            let recovered = ethereum_address(&public_key);
            proof {
                if recovered.0@ == expected_signer.0@ {
                    assert(recovered.0 =~= expected_signer.0);
                }
            }
            if bytes_equal(&recovered.0, &expected_signer.0) {
                Ok(())
            } else {
                Err(CoordinatorError::new(ErrorKind::Unauthorized, "signature does not match expected controller"))
            }
        },
    }
}

/// Checks the controller's signature over a reader registration.
pub fn verify_register_reader_signature(
    domain: &Eip712Domain,
    message: &RegisterReader,
    signature: EthereumSignature,
) -> (res: Result<(), CoordinatorError>)
    ensures
        signature_result(
            res,
            check_signature(register_reader_digest(*domain, *message), signature, message.controller),
        ),
{
    let digest = typed_data_digest(domain, &hash_register_reader(message));
    verify_signature(digest, signature, message.controller)
}

/// Checks that `controller` signed the disclosure request.
pub fn verify_disclosure_signature(
    domain: &Eip712Domain,
    controller: Address,
    message: &DisclosureRequest,
    signature: EthereumSignature,
) -> (res: Result<(), CoordinatorError>)
    ensures
        signature_result(res, check_signature(disclosure_digest(*domain, *message), signature, controller)),
{
    let digest = typed_data_digest(domain, &hash_disclosure_request(message));
    verify_signature(digest, signature, controller)
}

} // verus!
