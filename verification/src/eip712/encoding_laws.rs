//! What the EIP-712 hashes are, stated field by field: each `hashStruct`
//! is Keccak-256 of the type hash followed by one 32-byte word per field, in
//! the order in which the type string lists the fields.

use vstd::prelude::*;
use vstd::utf8::*;

use crate::eip712::{
    be_value, disclosure_struct_hash, domain_separator, register_reader_struct_hash, signing_digest,
    u64_be_byte, u64_word,
};
use crate::keccak::keccak256_digest;
use crate::types::{DisclosureRequest, Eip712Domain, RegisterReader};

verus! {

/// Whether `word` is the 32-byte ABI word of an `address`: twelve zero
/// bytes, then the twenty address bytes in order.
pub open spec fn is_address_word(word: Seq<u8>, address: Seq<u8>) -> bool {
    &&& word.len() == 32
    &&& forall|i: int| 0 <= i < 12 ==> word[i] == 0u8
    &&& word.subrange(12, 32) == address
}

/// Whether `word` is the 32-byte ABI word of the unsigned number `value`:
/// 32 bytes whose big-endian value is `value`.
pub open spec fn is_uint_word(word: Seq<u8>, value: nat) -> bool {
    &&& word.len() == 32
    &&& be_value(word) == value
}

proof fn lemma_u64_word_prefix(value: u64, j: int)
    requires
        0 <= j <= 32,
    ensures
        be_value(u64_word(value).subrange(0, j)) == if j <= 24 {
            0
        } else {
            (value >> ((8 * (32 - j)) as u64)) as nat
        },
    decreases j,
{
    let w = u64_word(value);
    if j == 0 {
        assert(w.subrange(0, 0) =~= Seq::<u8>::empty());
    } else {
        lemma_u64_word_prefix(value, j - 1);
        let p = w.subrange(0, j);
        assert(p.drop_last() =~= w.subrange(0, j - 1));
        assert(p.last() == w[j - 1]);
        if j <= 24 {
            assert(w[j - 1] == 0u8);
        } else if j == 25 {
            assert(w[24] == u64_be_byte(value, 0));
            assert((((value >> 56u64) & 0xff) as u8) as u64 == value >> 56u64) by (bit_vector);
        } else {
            let t: u64 = (32 - j) as u64;
            assert(w[j - 1] == u64_be_byte(value, j - 25));
            assert(((8 * (7 - (j - 25))) as u64) == 8 * t);
            assert(((8 * (32 - (j - 1))) as u64) == 8 * (t + 1));
            assert((value >> (8 * t)) == (value >> (8 * (t + 1))) * 256 + ((((value >> (8 * t)) & 0xff) as u8) as u64))
                by (bit_vector)
                requires
                    t < 7,
            ;
        }
    }
}

/// The ABI word of a `uint64` denotes that number.
pub proof fn lemma_u64_word_value(value: u64)
    ensures
        is_uint_word(u64_word(value), value as nat),
{
    lemma_u64_word_prefix(value, 32);
    assert(u64_word(value).subrange(0, 32) =~= u64_word(value));
    assert((value >> 0u64) == value) by (bit_vector);
}

/// A reader registration's `hashStruct` is Keccak-256 of the hash of the
/// type string `RegisterReader(address controller,bytes32 reader_id,bytes32
/// nonce,uint64 expiry)` followed by, in that order, the controller's
/// address word, the reader id, the nonce and the expiry's `uint64` word.
pub proof fn lemma_register_reader_hash_fields(message: RegisterReader)
    ensures
        exists|fields: Seq<u8>|
            #![trigger fields.subrange(0, 32)]
            {
                &&& fields.len() == 128
                &&& is_address_word(fields.subrange(0, 32), message.controller.0@)
                &&& fields.subrange(32, 64) == message.reader_id.0@
                &&& fields.subrange(64, 96) == message.nonce.0@
                &&& is_uint_word(fields.subrange(96, 128), message.expiry as nat)
                &&& register_reader_struct_hash(message) == keccak256_digest(
                    keccak256_digest(
                        encode_utf8(
                            "RegisterReader(address controller,bytes32 reader_id,bytes32 nonce,uint64 expiry)"@,
                        ),
                    ) + fields,
                )
            },
{
    let controller_word = Seq::new(12, |i: int| 0u8) + message.controller.0@;
    let fields = controller_word + message.reader_id.0@ + message.nonce.0@ + u64_word(message.expiry);
    lemma_u64_word_value(message.expiry);
    assert(fields.subrange(0, 32) =~= controller_word);
    assert(controller_word.subrange(12, 32) =~= message.controller.0@);
    assert(fields.subrange(32, 64) =~= message.reader_id.0@);
    assert(fields.subrange(64, 96) =~= message.nonce.0@);
    assert(fields.subrange(96, 128) =~= u64_word(message.expiry));
    let type_hash = keccak256_digest(
        encode_utf8("RegisterReader(address controller,bytes32 reader_id,bytes32 nonce,uint64 expiry)"@),
    );
    assert(type_hash + fields =~= type_hash + controller_word + message.reader_id.0@ + message.nonce.0@
        + u64_word(message.expiry));
    assert(register_reader_struct_hash(message) == keccak256_digest(type_hash + fields));
}

/// A disclosure request's `hashStruct` is Keccak-256 of the hash of the type
/// string `DisclosureRequest(address contract,bytes32 handle_id,bytes32
/// reader_id,bytes32 nonce,uint64 expiry)` followed by, in that order, the
/// contract's address word, the handle id, the reader id, the nonce and the
/// expiry's `uint64` word.
pub proof fn lemma_disclosure_hash_fields(message: DisclosureRequest)
    ensures
        exists|fields: Seq<u8>|
            #![trigger fields.subrange(0, 32)]
            {
                &&& fields.len() == 160
                &&& is_address_word(fields.subrange(0, 32), message.contract.0@)
                &&& fields.subrange(32, 64) == message.handle_id.0@
                &&& fields.subrange(64, 96) == message.reader_id.0@
                &&& fields.subrange(96, 128) == message.nonce.0@
                &&& is_uint_word(fields.subrange(128, 160), message.expiry as nat)
                &&& disclosure_struct_hash(message) == keccak256_digest(
                    keccak256_digest(
                        encode_utf8(
                            "DisclosureRequest(address contract,bytes32 handle_id,bytes32 reader_id,bytes32 nonce,uint64 expiry)"@,
                        ),
                    ) + fields,
                )
            },
{
    let contract_word = Seq::new(12, |i: int| 0u8) + message.contract.0@;
    let fields = contract_word + message.handle_id.0@ + message.reader_id.0@ + message.nonce.0@
        + u64_word(message.expiry);
    lemma_u64_word_value(message.expiry);
    assert(fields.subrange(0, 32) =~= contract_word);
    assert(contract_word.subrange(12, 32) =~= message.contract.0@);
    assert(fields.subrange(32, 64) =~= message.handle_id.0@);
    assert(fields.subrange(64, 96) =~= message.reader_id.0@);
    assert(fields.subrange(96, 128) =~= message.nonce.0@);
    assert(fields.subrange(128, 160) =~= u64_word(message.expiry));
    let type_hash = keccak256_digest(
        encode_utf8(
            "DisclosureRequest(address contract,bytes32 handle_id,bytes32 reader_id,bytes32 nonce,uint64 expiry)"@,
        ),
    );
    assert(type_hash + fields =~= type_hash + contract_word + message.handle_id.0@ + message.reader_id.0@
        + message.nonce.0@ + u64_word(message.expiry));
    assert(disclosure_struct_hash(message) == keccak256_digest(type_hash + fields));
}

/// The domain separator is Keccak-256 of the hash of the type string
/// `EIP712Domain(string name,string version,uint256 chainId,bytes32 salt)`
/// followed by, in that order, the hash of the name, the hash of the
/// version, the chain id's `uint256` word and the salt.
pub proof fn lemma_domain_separator_fields(domain: Eip712Domain)
    ensures
        exists|tail: Seq<u8>|
            #![trigger tail.subrange(0, 32)]
            {
                &&& tail.len() == 64
                &&& is_uint_word(tail.subrange(0, 32), domain.chain_id as nat)
                &&& tail.subrange(32, 64) == domain.salt.0@
                &&& domain_separator(domain) == keccak256_digest(
                    keccak256_digest(
                        encode_utf8("EIP712Domain(string name,string version,uint256 chainId,bytes32 salt)"@),
                    ) + keccak256_digest(encode_utf8(domain.name@)) + keccak256_digest(
                        encode_utf8(domain.version@),
                    ) + tail,
                )
            },
{
    let tail = u64_word(domain.chain_id) + domain.salt.0@;
    lemma_u64_word_value(domain.chain_id);
    assert(tail.subrange(0, 32) =~= u64_word(domain.chain_id));
    assert(tail.subrange(32, 64) =~= domain.salt.0@);
    let type_hash = keccak256_digest(
        encode_utf8("EIP712Domain(string name,string version,uint256 chainId,bytes32 salt)"@),
    );
    let name_hash = keccak256_digest(encode_utf8(domain.name@));
    let version_hash = keccak256_digest(encode_utf8(domain.version@));
    assert(type_hash + name_hash + version_hash + tail =~= type_hash + name_hash + version_hash + u64_word(
        domain.chain_id,
    ) + domain.salt.0@);
    assert(domain_separator(domain) == keccak256_digest(type_hash + name_hash + version_hash + tail));
}

/// The signing digest is Keccak-256 of the bytes `0x19 0x01`, then the domain
/// separator, then the struct hash.
pub proof fn lemma_signing_digest_fields(separator: Seq<u8>, struct_hash: Seq<u8>)
    ensures
        ({
            let prefixed = seq![0x19u8, 0x01u8] + separator + struct_hash;
            &&& prefixed.len() == separator.len() + struct_hash.len() + 2
            &&& prefixed[0] == 0x19u8
            &&& prefixed[1] == 0x01u8
            &&& prefixed.subrange(2, 2 + separator.len() as int) == separator
            &&& prefixed.subrange(2 + separator.len() as int, prefixed.len() as int) == struct_hash
            &&& signing_digest(separator, struct_hash) == keccak256_digest(prefixed)
        }),
{
    let prefixed = seq![0x19u8, 0x01u8] + separator + struct_hash;
    assert(prefixed.subrange(2, 2 + separator.len() as int) =~= separator);
    assert(prefixed.subrange(2 + separator.len() as int, prefixed.len() as int) =~= struct_hash);
}

} // verus!
