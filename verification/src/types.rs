use vstd::prelude::*;

verus! {

/// A fixed-length byte string, written on the wire as `0x` followed by
/// lowercase hex.
#[derive(Clone, Copy, Debug, PartialEq, Eq, Hash)]
pub struct FixedBytes<const N: usize>(pub [u8; N]);

/// A 20-byte Ethereum account address.
#[derive(Clone, Copy, Debug, PartialEq, Eq, Hash)]
pub struct Address(pub [u8; 20]);

#[derive(Clone, Copy, Debug, PartialEq, Eq, Hash)]
pub struct Bytes32(pub [u8; 32]);

/// Identifier of a reader: the Keccak-256 hash of its X25519 public key.
#[derive(Clone, Copy, Debug, PartialEq, Eq, Hash)]
pub struct ReaderId(pub [u8; 32]);

/// Identifier the coordinator assigns to a disclosure request.
#[derive(Clone, Copy, Debug, PartialEq, Eq, Hash)]
pub struct RequestId(pub [u8; 32]);

#[derive(Clone, Copy, Debug, PartialEq, Eq, Hash)]
pub struct HandleId(pub [u8; 32]);

/// A one-time value chosen by a controller; each (controller, nonce) pair is
/// accepted at most once.
#[derive(Clone, Copy, Debug, PartialEq, Eq, Hash)]
pub struct Nonce(pub [u8; 32]);

#[derive(Clone, Copy, Debug, PartialEq, Eq, Hash)]
pub struct DomainId(pub [u8; 32]);

#[derive(Clone, Copy, Debug, PartialEq, Eq, Hash)]
pub struct KeyId(pub [u8; 32]);

#[derive(Clone, Copy, Debug, PartialEq, Eq, Hash)]
pub struct X25519PublicKey(pub [u8; 32]);

/// A recoverable secp256k1 signature: `r || s || v`.
#[derive(Clone, Copy, Debug, PartialEq, Eq, Hash)]
pub struct EthereumSignature(pub [u8; 65]);

#[derive(Clone, Copy, Debug, PartialEq, Eq)]
pub enum ReaderKeyAlgorithm {
    X25519,
}

#[derive(Clone, Copy, Debug, PartialEq, Eq)]
pub enum CiphertextSuite {
    HpkeX25519HkdfSha256Aes256Gcm,
}

#[derive(Clone, Copy, Debug, PartialEq, Eq)]
pub enum DisclosureStatus {
    Pending,
    Ready,
    Failed,
    Expired,
}

pub type UnixSeconds = u64;

/// The EIP-712 domain under which readers and disclosures are signed.
#[derive(Clone, Debug, PartialEq, Eq)]
pub struct Eip712Domain {
    pub name: String,
    pub version: String,
    pub chain_id: u64,
    pub salt: Bytes32,
}

#[derive(Clone, Debug, PartialEq, Eq)]
pub struct CoordinatorConfigResponse {
    pub version: u16,
    pub chain_id: u64,
    pub domain_id: DomainId,
    pub mpc_key_id: KeyId,
    pub mpc_hpke_public_key: X25519PublicKey,
    pub reader_key_algorithm: ReaderKeyAlgorithm,
    pub ciphertext_suite: CiphertextSuite,
    pub eip712_domain: Eip712Domain,
}

#[derive(Clone, Copy, Debug, PartialEq, Eq)]
pub struct PutReaderRequest {
    pub controller: Address,
    pub reader_pubkey: X25519PublicKey,
    pub nonce: Nonce,
    pub expiry: UnixSeconds,
    pub signature: EthereumSignature,
}

#[derive(Clone, Copy, Debug, PartialEq, Eq)]
pub struct PutReaderResponse {
    pub reader_id: ReaderId,
    pub controller: Address,
    pub registered_at: UnixSeconds,
    pub expires_at: Option<UnixSeconds>,
}

/// The EIP-712 message a controller signs to register a reader.
#[derive(Clone, Copy, Debug, PartialEq, Eq)]
pub struct RegisterReader {
    pub controller: Address,
    pub reader_id: ReaderId,
    pub nonce: Nonce,
    pub expiry: UnixSeconds,
}

#[derive(Clone, Copy, Debug, PartialEq, Eq)]
pub struct PostDisclosureRequest {
    pub contract: Address,
    pub handle_id: HandleId,
    pub reader_id: ReaderId,
    pub nonce: Nonce,
    pub expiry: UnixSeconds,
    pub signature: EthereumSignature,
}

/// The EIP-712 message a controller signs to disclose a handle to a reader.
#[derive(Clone, Copy, Debug, PartialEq, Eq)]
pub struct DisclosureRequest {
    pub contract: Address,
    pub handle_id: HandleId,
    pub reader_id: ReaderId,
    pub nonce: Nonce,
    pub expiry: UnixSeconds,
}

#[derive(Clone, Debug, PartialEq, Eq)]
pub enum PostDisclosureResponse {
    Ready { request_id: RequestId, ciphertext: ReaderCiphertextV1 },
    Pending { request_id: RequestId },
}

#[derive(Clone, Debug, PartialEq, Eq)]
pub enum GetDisclosureResponse {
    Pending { request_id: RequestId },
    Ready { request_id: RequestId, ciphertext: ReaderCiphertextV1 },
    Failed { request_id: RequestId, error: String },
    Expired { request_id: RequestId },
}

#[derive(Clone, Debug, PartialEq, Eq)]
pub struct ErrorResponse {
    pub code: String,
    pub message: String,
}

/// Opaque bytes, written on the wire as unpadded base64url.
#[derive(Clone, Debug, PartialEq, Eq)]
pub struct PayloadBytes(pub Vec<u8>);

#[derive(Clone, Copy, Debug, PartialEq, Eq)]
pub struct MpcConfigResponse {
    pub version: u16,
    pub chain_id: u64,
    pub domain_id: DomainId,
    pub key_id: KeyId,
    pub hpke_public_key: X25519PublicKey,
    pub reader_key_algorithm: ReaderKeyAlgorithm,
    pub ciphertext_suite: CiphertextSuite,
}

#[derive(Clone, Copy, Debug, PartialEq, Eq)]
pub struct MpcPutReaderRequest {
    pub reader_pubkey: X25519PublicKey,
}

#[derive(Clone, Copy, Debug, PartialEq, Eq)]
pub struct MpcPutReaderResponse {
    pub reader_id: ReaderId,
}

#[derive(Clone, Debug, PartialEq, Eq)]
pub struct SystemCiphertextV1 {
    pub key_id: KeyId,
    pub enc: PayloadBytes,
    pub wrapped_key: PayloadBytes,
    pub nonce: FixedBytes<12>,
    pub ciphertext: PayloadBytes,
    pub aad: PayloadBytes,
}

#[derive(Clone, Debug, PartialEq, Eq)]
pub struct ReaderCiphertextV1 {
    pub key_id: KeyId,
    pub enc: PayloadBytes,
    pub ciphertext: PayloadBytes,
    pub aad: PayloadBytes,
}

#[derive(Clone, Debug, PartialEq, Eq)]
pub struct ToReaderRequest {
    pub request_id: RequestId,
    pub chain_id: u64,
    pub handle_id: HandleId,
    pub reader_id: ReaderId,
    pub system_ciphertext: SystemCiphertextV1,
}

#[derive(Clone, Debug, PartialEq, Eq)]
pub struct ToReaderResponse {
    pub ciphertext: ReaderCiphertextV1,
}

#[derive(Clone, Copy, Debug, PartialEq, Eq)]
pub struct ResolveHandleRequest {
    pub request_id: RequestId,
    pub chain_id: u64,
    pub contract: Address,
    pub handle_id: HandleId,
}

#[derive(Clone, Debug, PartialEq, Eq)]
pub enum ResolveHandleResponse {
    Pending,
    Ready { system_ciphertext: SystemCiphertextV1, receipt: PayloadBytes },
    Failed { reason: String },
}

#[derive(Clone, Debug, PartialEq, Eq)]
pub enum GetHandleResponse {
    Pending { handle_id: HandleId },
    Ready { handle_id: HandleId, system_ciphertext: SystemCiphertextV1, receipt: PayloadBytes },
    Failed { handle_id: HandleId, error: String },
}

/// The contents of a reader ciphertext, with its payloads as byte sequences.
pub struct ReaderCiphertextView {
    pub key_id: KeyId,
    pub enc: Seq<u8>,
    pub ciphertext: Seq<u8>,
    pub aad: Seq<u8>,
}

impl View for PayloadBytes {
    type V = Seq<u8>;

    open spec fn view(&self) -> Seq<u8> {
        self.0@
    }
}

impl View for ReaderCiphertextV1 {
    type V = ReaderCiphertextView;

    open spec fn view(&self) -> ReaderCiphertextView {
        ReaderCiphertextView {
            key_id: self.key_id,
            enc: self.enc@,
            ciphertext: self.ciphertext@,
            aad: self.aad@,
        }
    }
}

/// A response to a disclosure poll, with payloads and text as sequences.
pub enum GetDisclosureView {
    Pending { request_id: RequestId },
    Ready { request_id: RequestId, ciphertext: ReaderCiphertextView },
    Failed { request_id: RequestId, error: Seq<char> },
    Expired { request_id: RequestId },
}

impl View for GetDisclosureResponse {
    type V = GetDisclosureView;

    open spec fn view(&self) -> GetDisclosureView {
        match self {
            GetDisclosureResponse::Pending { request_id } => GetDisclosureView::Pending {
                request_id: *request_id,
            },
            GetDisclosureResponse::Ready { request_id, ciphertext } => GetDisclosureView::Ready {
                request_id: *request_id,
                ciphertext: ciphertext@,
            },
            GetDisclosureResponse::Failed { request_id, error } => GetDisclosureView::Failed {
                request_id: *request_id,
                error: error@,
            },
            GetDisclosureResponse::Expired { request_id } => GetDisclosureView::Expired {
                request_id: *request_id,
            },
        }
    }
}

impl PayloadBytes {
    /// A copy of the payload.
    pub fn duplicate(&self) -> (res: PayloadBytes)
        ensures
            res@ == self@,
    {
        PayloadBytes(self.0.clone())
    }
}

impl ReaderCiphertextV1 {
    /// A copy of the ciphertext.
    pub fn duplicate(&self) -> (res: ReaderCiphertextV1)
        ensures
            res@ == self@,
    {
        ReaderCiphertextV1 {
            key_id: self.key_id,
            enc: self.enc.duplicate(),
            ciphertext: self.ciphertext.duplicate(),
            aad: self.aad.duplicate(),
        }
    }
}

} // verus!
