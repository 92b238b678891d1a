//! Signing helpers for exercising the verifier with real keys.

use k256::ecdsa::SigningKey as Secp256k1SigningKey;
use k256::elliptic_curve::sec1::ToEncodedPoint;
use vstd::prelude::*;
use vstd::string::*;

use crate::eip712::{
    check_signature, disclosure_digest, ethereum_address, hash_disclosure_request,
    hash_register_reader, key_address, register_reader_digest, scalar_in_range,
    secp256k1_public_key, secp256k1_recover_prehash, secp256k1_sign_prehash,
    signature_scalars_valid, typed_data_digest, SignatureCheck,
};
use crate::types::{Address, Bytes32, DisclosureRequest, Eip712Domain, EthereumSignature, RegisterReader};

verus! {

/// A secp256k1 signing key: a secret scalar with its public key.
pub struct SigningKey {
    secret: [u8; 32],
    public_key: [u8; 65],
}

impl SigningKey {
    #[verifier::type_invariant]
    spec fn well_formed(&self) -> bool {
        &&& scalar_in_range(self.secret@)
        &&& self.public_key@ == secp256k1_public_key(self.secret@)
    }

    /// The secret scalar, big-endian.
    pub closed spec fn secret(&self) -> Seq<u8> {
        self.secret@
    }
}

/// Derives the public key of a secret scalar with `k256`'s
/// `SigningKey::from_bytes`, `SigningKey::verifying_key` and
/// `VerifyingKey::to_encoded_point(false)`.
///
/// Trusted: the key is accepted exactly when the scalar is in `1..n` (as
/// `SecretKey::from_bytes` checks), and the result is its public key.
#[verifier::external_body]
fn public_key_of(secret: &[u8; 32]) -> (res: Option<[u8; 65]>)
    ensures
        res is Some <==> scalar_in_range(secret@),
        res matches Some(key) ==> key@ == secp256k1_public_key(secret@),
{
    let key = Secp256k1SigningKey::from_bytes(secret.into()).ok()?;
    let mut out = [0u8; 65];
    out.copy_from_slice(key.verifying_key().to_encoded_point(false).as_bytes());
    Some(out)
}

/// Signs a 32-byte prehash with `k256`'s `SigningKey::sign_prehash_recoverable`
/// (deterministic RFC 6979 nonces, low-S normalisation), returning `r || s`
/// and the recovery id as a byte.
///
/// Trusted: the result is a function of the key and the prehash; a returned
/// signature holds scalars in `1..n` (it is a `Signature` value), its recovery
/// id is at most 3 (a `RecoveryId` value), and recovery with that id yields
/// the signer's public key, which is what the recovery id is for.
#[verifier::external_body]
fn sign_prehash(secret: &[u8; 32], prehash: &[u8; 32]) -> (res: Option<([u8; 64], u8)>)
    requires
        scalar_in_range(secret@),
    ensures
        match res {
            Some((rs, id)) => {
                &&& secp256k1_sign_prehash(secret@, prehash@) == Some((rs@, id))
                &&& signature_scalars_valid(rs@)
                &&& id <= 3
                &&& secp256k1_recover_prehash(prehash@, rs@, id) == Some(secp256k1_public_key(secret@))
            },
            None => secp256k1_sign_prehash(secret@, prehash@) is None,
        },
{
    let key = Secp256k1SigningKey::from_bytes(secret.into()).ok()?;
    let (signature, id) = key.sign_prehash_recoverable(prehash).ok()?;
    let mut rs = [0u8; 64];
    rs.copy_from_slice(&signature.to_bytes());
    Some((rs, id.to_byte()))
}

/// Whether `signature` is a recoverable signature over `digest` by the key
/// with secret `secret`, written `r || s || recovery id`.
pub open spec fn signed_by(secret: Seq<u8>, digest: Seq<u8>, signature: EthereumSignature) -> bool {
    let rs = signature.0@.subrange(0, 64);
    let id: u8 = signature.0@[64];
    &&& signature_scalars_valid(rs)
    &&& id <= 3
    &&& secp256k1_recover_prehash(digest, rs, id) == Some(secp256k1_public_key(secret))
}

/// Whether `signature` is the deterministic signature over `digest` with
/// secret `secret`, written `r || s || recovery id`.
pub open spec fn signature_of(secret: Seq<u8>, digest: Seq<u8>, signature: EthereumSignature) -> bool {
    secp256k1_sign_prehash(secret, digest) == Some((signature.0@.subrange(0, 64), signature.0@[64]))
}

/// The EIP-712 domain used throughout the examples.
pub fn test_domain(chain_id: u64) -> (res: Eip712Domain)
    ensures
        res.name@ == "Coordinator"@,
        res.version@ == "1"@,
        res.chain_id == chain_id,
        res.salt.0@ == Seq::new(32, |i: int| 0x99u8),
{
    let salt = [0x99u8; 32];
    assert(salt@ =~= Seq::new(32, |i: int| 0x99u8));
    Eip712Domain {
        name: String::from_str("Coordinator"),
        version: String::from_str("1"),
        chain_id,
        salt: Bytes32(salt),
    }
}

/// The signing key with the given secret scalar.
pub fn signing_key_for_tests(seed: [u8; 32]) -> (res: SigningKey)
    requires
        scalar_in_range(seed@),
    ensures
        res.secret() == seed@,
{
    match public_key_of(&seed) {
        Some(public_key) => SigningKey { secret: seed, public_key },
        None => {
            assert(false);
            SigningKey { secret: seed, public_key: [0u8; 65] }
        },
    }
}

/// The Ethereum address that controls `signing_key`.
pub fn address_for_signing_key(signing_key: &SigningKey) -> (res: Address)
    ensures
        res.0@ == key_address(secp256k1_public_key(signing_key.secret())),
{
    proof {
        use_type_invariant(signing_key);
    }
    ethereum_address(&signing_key.public_key)
}

fn sign_digest(signing_key: &SigningKey, digest: [u8; 32]) -> (res: Option<EthereumSignature>)
    ensures
        res matches Some(signature) ==> signed_by(signing_key.secret(), digest@, signature),
        res matches Some(signature) ==> signature_of(signing_key.secret(), digest@, signature),
        res is None ==> secp256k1_sign_prehash(signing_key.secret(), digest@) is None,
{
    proof {
        use_type_invariant(signing_key);
    }
    match sign_prehash(&signing_key.secret, &digest) {
        None => None,
        Some((rs, id)) => {
            let mut bytes = [0u8; 65];
            let mut k: usize = 0;
            while k < 64
                invariant
                    k <= 64,
                    bytes@.len() == 65,
                    rs@.len() == 64,
                    forall|i: int| 0 <= i < k ==> bytes@[i] == rs@[i],
                decreases 64 - k,
            {
                bytes.set(k, rs[k]);
                k = k + 1;
            }
            bytes.set(64, id);
            assert(bytes@.subrange(0, 64) =~= rs@);
            Some(EthereumSignature(bytes))
        },
    }
}

/// Signs a reader registration under `domain`; `None` when `k256` cannot sign.
pub fn sign_register_reader(
    signing_key: &SigningKey,
    domain: &Eip712Domain,
    message: &RegisterReader,
) -> (res: Option<EthereumSignature>)
    ensures
        res matches Some(signature) ==> signed_by(
            signing_key.secret(),
            register_reader_digest(*domain, *message),
            signature,
        ),
        res matches Some(signature) ==> signature_of(
            signing_key.secret(),
            register_reader_digest(*domain, *message),
            signature,
        ),
        res is None ==> secp256k1_sign_prehash(
            signing_key.secret(),
            register_reader_digest(*domain, *message),
        ) is None,
{
    sign_digest(signing_key, typed_data_digest(domain, &hash_register_reader(message)))
}

/// Signs a disclosure request under `domain`; `None` when `k256` cannot sign.
pub fn sign_disclosure(
    signing_key: &SigningKey,
    domain: &Eip712Domain,
    message: &DisclosureRequest,
) -> (res: Option<EthereumSignature>)
    ensures
        res matches Some(signature) ==> signed_by(
            signing_key.secret(),
            disclosure_digest(*domain, *message),
            signature,
        ),
        res matches Some(signature) ==> signature_of(
            signing_key.secret(),
            disclosure_digest(*domain, *message),
            signature,
        ),
        res is None ==> secp256k1_sign_prehash(signing_key.secret(), disclosure_digest(*domain, *message))
            is None,
{
    sign_digest(signing_key, typed_data_digest(domain, &hash_disclosure_request(message)))
}

/// A signature made with a key verifies against that key's address: signing
/// and checking use the same digest, and recovery gives back the signer.
pub proof fn lemma_signature_round_trip(
    secret: Seq<u8>,
    digest: Seq<u8>,
    signature: EthereumSignature,
    signer: Address,
)
    requires
        signed_by(secret, digest, signature),
        signer.0@ == key_address(secp256k1_public_key(secret)),
    ensures
        check_signature(digest, signature, signer) == SignatureCheck::Valid,
{
    assert(signer.0@ =~= key_address(secp256k1_public_key(secret)));
}

/// A registration signed by the controller's key passes verification.
pub proof fn lemma_register_reader_round_trip(
    secret: Seq<u8>,
    domain: Eip712Domain,
    message: RegisterReader,
    signature: EthereumSignature,
)
    requires
        signed_by(secret, register_reader_digest(domain, message), signature),
        message.controller.0@ == key_address(secp256k1_public_key(secret)),
    ensures
        check_signature(register_reader_digest(domain, message), signature, message.controller)
            == SignatureCheck::Valid,
{
    lemma_signature_round_trip(secret, register_reader_digest(domain, message), signature, message.controller);
}

/// A disclosure request signed by the controller's key passes verification.
pub proof fn lemma_disclosure_round_trip(
    secret: Seq<u8>,
    domain: Eip712Domain,
    controller: Address,
    message: DisclosureRequest,
    signature: EthereumSignature,
)
    requires
        signed_by(secret, disclosure_digest(domain, message), signature),
        controller.0@ == key_address(secp256k1_public_key(secret)),
    ensures
        check_signature(disclosure_digest(domain, message), signature, controller) == SignatureCheck::Valid,
{
    lemma_signature_round_trip(secret, disclosure_digest(domain, message), signature, controller);
}

} // verus!
