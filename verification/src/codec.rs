//! Text encodings of the wire format: fixed-length byte strings as `0x`-prefixed
//! hex, payloads as unpadded base64url, and decimal numbers in messages.

use base64::engine::general_purpose::URL_SAFE_NO_PAD;
use base64::Engine as _;
use vstd::prelude::*;
use vstd::string::*;
use vstd::utf8::*;

use crate::bytes::copy_suffix;
use crate::types::PayloadBytes;

verus! {

// ---------------------------------------------------------------------------
// Hex
// ---------------------------------------------------------------------------

/// The lowercase hex digit of a value below 16.
pub open spec fn hex_digit(value: u8) -> char {
    if value < 10 {
        (48 + value) as char
    } else {
        (87 + value) as char
    }
}

/// The lowercase hex encoding of `bytes`, two digits per byte, high nibble first.
pub open spec fn lower_hex(bytes: Seq<u8>) -> Seq<char> {
    Seq::new(
        2 * bytes.len(),
        |i: int| if i % 2 == 0 {
            hex_digit(bytes[i / 2] / 16)
        } else {
            hex_digit(bytes[i / 2] % 16)
        },
    )
}

/// The value of an ASCII hex digit (either case).
pub open spec fn hex_value(c: u8) -> Option<u8> {
    if 0x41 <= c <= 0x46 {
        Some((c - 0x41 + 10) as u8)
    } else if 0x61 <= c <= 0x66 {
        Some((c - 0x61 + 10) as u8)
    } else if 0x30 <= c <= 0x39 {
        Some((c - 0x30) as u8)
    } else {
        None
    }
}

/// Why hex text does not decode to a byte string of the expected length.
#[derive(Clone, Copy, Debug, PartialEq, Eq)]
pub enum HexDecodeError {
    InvalidHexCharacter { c: char, index: usize },
    OddLength,
    InvalidStringLength,
}

/// Whether `index` is the first position of `data` that is not a hex digit.
pub open spec fn first_non_digit(data: Seq<u8>, index: int) -> bool {
    &&& 0 <= index < data.len()
    &&& hex_value(data[index]) is None
    &&& forall|j: int| 0 <= j < index ==> #[trigger] hex_value(data[j]) is Some
}

/// What `hex::decode_to_slice` makes of `data` for an output of `out_len` bytes.
pub open spec fn hex_decoding(data: Seq<u8>, out_len: nat) -> Result<Seq<u8>, HexDecodeError> {
    if data.len() % 2 != 0 {
        Err(HexDecodeError::OddLength)
    } else if data.len() / 2 != out_len {
        Err(HexDecodeError::InvalidStringLength)
    } else if forall|i: int| 0 <= i < data.len() ==> #[trigger] hex_value(data[i]) is Some {
        Ok(
            Seq::new(
                out_len,
                |i: int| (hex_value(data[2 * i]).unwrap() * 16 + hex_value(data[2 * i + 1]).unwrap()) as u8,
            ),
        )
    } else {
        let index: int = choose|index: int| first_non_digit(data, index);
        Err(HexDecodeError::InvalidHexCharacter { c: data[index] as char, index: index as usize })
    }
}

/// Encodes bytes as lowercase hex with `hex::encode`.
///
/// Trusted: the result is two lowercase digits per byte, high nibble first
/// (the crate's documented encoding).
#[verifier::external_body]
fn hex_encode(data: &[u8]) -> (res: String)
    ensures
        res@ == lower_hex(data@),
{
    hex::encode(data)
}

/// Decodes hex digits into `out_len` bytes with `hex::decode_to_slice`,
/// converting its `FromHexError` variant for variant.
///
/// Trusted: odd-length input and input of the wrong length are refused in
/// that order; otherwise the first character that is not a hex digit (either
/// case) is reported with its position, and input of digits only decodes two
/// digits per byte, high nibble first.
#[verifier::external_body]
fn hex_decode(data: &[u8], out_len: usize) -> (res: Result<Vec<u8>, HexDecodeError>)
    ensures
        match hex_decoding(data@, out_len as nat) {
            Ok(bytes) => res matches Ok(v) && v@ == bytes,
            Err(e) => res == Err::<Vec<u8>, HexDecodeError>(e),
        },
{
    let mut out = vec![0u8; out_len];
    match hex::decode_to_slice(data, &mut out) {
        Ok(()) => Ok(out),
        Err(hex::FromHexError::InvalidHexCharacter { c, index }) => Err(HexDecodeError::InvalidHexCharacter { c, index }),
        Err(hex::FromHexError::OddLength) => Err(HexDecodeError::OddLength),
        Err(hex::FromHexError::InvalidStringLength) => Err(HexDecodeError::InvalidStringLength),
    }
}

/// The text `hex` displays for a decoding error.
pub uninterp spec fn hex_error_display(error: HexDecodeError) -> Seq<char>;

/// The `Display` text of the corresponding `hex::FromHexError`.
///
/// Trusted: the text is a function of the error alone; for a wrong length
/// it is the crate's fixed sentence. The text for an invalid character
/// (which quotes the character with `Debug`) is left to the name.
#[verifier::external_body]
fn hex_error_text(error: HexDecodeError) -> (res: String)
    ensures
        res@ == hex_error_display(error),
        error == HexDecodeError::OddLength ==> res@ == "Odd number of digits"@,
        error == HexDecodeError::InvalidStringLength ==> res@ == "Invalid string length"@,
{
    let error = match error {
        HexDecodeError::InvalidHexCharacter { c, index } => hex::FromHexError::InvalidHexCharacter { c, index },
        HexDecodeError::OddLength => hex::FromHexError::OddLength,
        HexDecodeError::InvalidStringLength => hex::FromHexError::InvalidStringLength,
    };
    error.to_string()
}

/// Why text is not a `0x`-prefixed hex string of the expected length.
#[derive(Clone, Copy, Debug, PartialEq, Eq)]
pub enum FixedHexError {
    MissingPrefix,
    WrongLength { expected: usize },
    Hex(HexDecodeError),
}

/// What `0x`-prefixed hex text (as UTF-8 bytes) decodes to for `len` bytes.
pub open spec fn fixed_hex_decoding(text: Seq<u8>, len: nat) -> Result<Seq<u8>, FixedHexError> {
    if !(text.len() >= 2 && text[0] == 0x30 && text[1] == 0x78) {
        Err(FixedHexError::MissingPrefix)
    } else if text.len() - 2 != 2 * len {
        Err(FixedHexError::WrongLength { expected: (2 * len) as usize })
    } else {
        match hex_decoding(text.subrange(2, text.len() as int), len) {
            Ok(bytes) => Ok(bytes),
            Err(e) => Err(FixedHexError::Hex(e)),
        }
    }
}

/// `0x` followed by the lowercase hex of `bytes`.
pub fn encode_fixed_hex(bytes: &[u8]) -> (res: String)
    ensures
        res@ == "0x"@ + lower_hex(bytes@),
{
    String::from_str("0x").concat(hex_encode(bytes).as_str())
}

/// Decodes `0x`-prefixed hex text into exactly `len` bytes.
pub fn decode_fixed_hex(text: &str, len: usize) -> (res: Result<Vec<u8>, FixedHexError>)
    requires
        len <= usize::MAX / 2,
    ensures
        match fixed_hex_decoding(encode_utf8(text@), len as nat) {
            Ok(bytes) => res matches Ok(v) && v@ == bytes,
            Err(e) => res == Err::<Vec<u8>, FixedHexError>(e),
        },
{
    let raw = text.as_bytes();
    if raw.len() < 2 || raw[0] != 0x30 || raw[1] != 0x78 {
        return Err(FixedHexError::MissingPrefix);
    }
    let digits = copy_suffix(raw, 2);
    if digits.len() != len * 2 {
        return Err(FixedHexError::WrongLength { expected: len * 2 });
    }
    match hex_decode(digits.as_slice(), len) {
        Ok(bytes) => Ok(bytes),
        Err(e) => Err(FixedHexError::Hex(e)),
    }
}

/// The decimal digits of a number, most significant first.
pub open spec fn decimal_digits(n: nat) -> Seq<char>
    decreases n,
{
    if n < 10 {
        seq![(48 + n) as char]
    } else {
        decimal_digits(n / 10) + seq![(48 + n % 10) as char]
    }
}

/// The decimal digit of a value below 10, as text.
fn digit_text(digit: u64) -> (res: String)
    requires
        digit < 10,
    ensures
        res@ == seq![(48 + digit) as char],
{
    match digit {
        0 => {
            proof {
                reveal_strlit("0");
            }
            String::from_str("0")
        },
        1 => {
            proof {
                reveal_strlit("1");
            }
            String::from_str("1")
        },
        2 => {
            proof {
                reveal_strlit("2");
            }
            String::from_str("2")
        },
        3 => {
            proof {
                reveal_strlit("3");
            }
            String::from_str("3")
        },
        4 => {
            proof {
                reveal_strlit("4");
            }
            String::from_str("4")
        },
        5 => {
            proof {
                reveal_strlit("5");
            }
            String::from_str("5")
        },
        6 => {
            proof {
                reveal_strlit("6");
            }
            String::from_str("6")
        },
        7 => {
            proof {
                reveal_strlit("7");
            }
            String::from_str("7")
        },
        8 => {
            proof {
                reveal_strlit("8");
            }
            String::from_str("8")
        },
        _ => {
            proof {
                reveal_strlit("9");
            }
            String::from_str("9")
        },
    }
}

/// The decimal text of `value`: its digits, most significant first, without
/// sign or padding (as `u64`'s `Display` writes it).
pub fn decimal_text(value: u64) -> (res: String)
    ensures
        res@ == decimal_digits(value as nat),
    decreases value,
{
    let last = digit_text(value % 10);
    if value < 10 {
        last
    } else {
        decimal_text(value / 10).concat(last.as_str())
    }
}

impl FixedHexError {
    /// The message with which a malformed hex string is rejected.
    pub fn message(&self) -> (res: String)
        ensures
            match self {
                FixedHexError::MissingPrefix => res@ == "missing 0x prefix"@,
                FixedHexError::WrongLength { expected } => res@ == "expected "@ + decimal_digits(
                    *expected as nat,
                ) + " hex characters"@,
                FixedHexError::Hex(e) => res@ == hex_error_display(*e),
            },
            *self == FixedHexError::Hex(HexDecodeError::OddLength) ==> res@ == "Odd number of digits"@,
            *self == FixedHexError::Hex(HexDecodeError::InvalidStringLength) ==> res@
                == "Invalid string length"@,
    {
        match self {
            FixedHexError::MissingPrefix => String::from_str("missing 0x prefix"),
            FixedHexError::WrongLength { expected } => String::from_str("expected ").concat(
                decimal_text(*expected as u64).as_str(),
            ).concat(" hex characters"),
            FixedHexError::Hex(e) => hex_error_text(*e),
        }
    }
}

/// A byte string written as `0x`-prefixed lowercase hex reads back as itself.
pub proof fn lemma_fixed_hex_round_trip(bytes: Seq<u8>)
    ensures
        fixed_hex_decoding(encode_utf8("0x"@ + lower_hex(bytes)), bytes.len()) == Ok::<
            Seq<u8>,
            FixedHexError,
        >(bytes),
{
    reveal_strlit("0x");
    let chars = "0x"@ + lower_hex(bytes);
    assert forall|i: int| 0 <= i < chars.len() implies '\0' <= #[trigger] chars[i] <= '\u{7f}' by {
        if i >= 2 {
            let j: int = i - 2;
            let v: u8 = if j % 2 == 0 { bytes[j / 2] / 16 } else { bytes[j / 2] % 16 };
            assert(chars[i] == hex_digit(v));
        }
    }
    is_ascii_chars_encode_utf8(chars);
    let text = encode_utf8(chars);
    let digits = text.subrange(2, text.len() as int);
    assert forall|i: int| 0 <= i < digits.len() implies #[trigger] hex_value(digits[i]) == Some(
        if i % 2 == 0 { bytes[i / 2] / 16 } else { bytes[i / 2] % 16 },
    ) by {
        assert(digits[i] == chars[i + 2] as u8);
        let v: u8 = if i % 2 == 0 { bytes[i / 2] / 16 } else { bytes[i / 2] % 16 };
        assert(chars[i + 2] == hex_digit(v));
    }
    assert(forall|i: int| 0 <= i < digits.len() ==> #[trigger] hex_value(digits[i]) is Some);
    let decoded = Seq::new(
        bytes.len(),
        |i: int| (hex_value(digits[2 * i]).unwrap() * 16 + hex_value(digits[2 * i + 1]).unwrap()) as u8,
    );
    assert forall|i: int| 0 <= i < bytes.len() implies decoded[i] == bytes[i] by {
        assert(hex_value(digits[2 * i]) == Some(bytes[i] / 16));
        assert(hex_value(digits[2 * i + 1]) == Some(bytes[i] % 16));
    }
    assert(decoded =~= bytes);
}

/// A byte with ASCII `A`-`Z` turned into `a`-`z`.
pub open spec fn ascii_lower_byte(c: u8) -> u8 {
    if 0x41 <= c <= 0x5a {
        (c + 32) as u8
    } else {
        c
    }
}

/// Text with its ASCII capitals turned into small letters.
pub open spec fn ascii_lowercase(text: Seq<u8>) -> Seq<u8> {
    Seq::new(text.len(), |i: int| ascii_lower_byte(text[i]))
}

proof fn lemma_hex_digit_of_value(c: u8)
    requires
        hex_value(c) is Some,
    ensures
        hex_value(c).unwrap() < 16,
        hex_digit(hex_value(c).unwrap()) as u8 == ascii_lower_byte(c),
{
}

proof fn lemma_nibbles(high: u8, low: u8)
    requires
        high < 16,
        low < 16,
    ensures
        ((high * 16 + low) as u8) / 16 == high,
        ((high * 16 + low) as u8) % 16 == low,
{
    assert(((high * 16 + low) as u8) / 16 == high && ((high * 16 + low) as u8) % 16 == low)
        by (bit_vector)
        requires
            high < 16,
            low < 16,
    ;
}

/// Accepted hex text is, with its capitals made small, exactly how the bytes
/// it decodes to are written: `0x` and their lowercase hex.
pub proof fn lemma_fixed_hex_reencodes_lowercase(text: Seq<u8>, len: nat)
    requires
        fixed_hex_decoding(text, len) is Ok,
    ensures
        encode_utf8("0x"@ + lower_hex(fixed_hex_decoding(text, len)->Ok_0)) == ascii_lowercase(text),
{
    reveal_strlit("0x");
    let bytes = fixed_hex_decoding(text, len)->Ok_0;
    let digits = text.subrange(2, text.len() as int);
    assert(hex_decoding(digits, len) == Ok::<Seq<u8>, HexDecodeError>(bytes));
    assert(forall|i: int| 0 <= i < digits.len() ==> #[trigger] hex_value(digits[i]) is Some);
    assert(bytes.len() == len);
    let chars = "0x"@ + lower_hex(bytes);
    assert forall|i: int| 2 <= i < chars.len() implies chars[i] as u8 == ascii_lower_byte(text[i]) by {
        let j: int = i - 2;
        let k: int = j / 2;
        assert(digits[2 * k] == text[2 * k + 2]);
        assert(digits[2 * k + 1] == text[2 * k + 3]);
        lemma_hex_digit_of_value(digits[2 * k]);
        lemma_hex_digit_of_value(digits[2 * k + 1]);
        let high: u8 = hex_value(digits[2 * k]).unwrap();
        let low: u8 = hex_value(digits[2 * k + 1]).unwrap();
        assert(bytes[k] == (high * 16 + low) as u8);
        lemma_nibbles(high, low);
        if j % 2 == 0 {
            assert(2 * k == j);
            assert(chars[i] == hex_digit(bytes[k] / 16));
        } else {
            assert(2 * k + 1 == j);
            assert(chars[i] == hex_digit(bytes[k] % 16));
        }
    }
    assert forall|i: int| 0 <= i < chars.len() implies '\0' <= #[trigger] chars[i] <= '\u{7f}' by {
        if i >= 2 {
            let j: int = i - 2;
            let v: u8 = if j % 2 == 0 { bytes[j / 2] / 16 } else { bytes[j / 2] % 16 };
            assert(chars[i] == hex_digit(v));
        }
    }
    is_ascii_chars_encode_utf8(chars);
    let encoded = encode_utf8(chars);
    assert forall|i: int| 0 <= i < encoded.len() implies encoded[i] == ascii_lowercase(text)[i] by {
        assert(encoded[i] == chars[i] as u8);
        if i >= 2 {
            assert(chars[i] as u8 == ascii_lower_byte(text[i]));
        }
    }
    assert(encoded =~= ascii_lowercase(text));
}

// ---------------------------------------------------------------------------
// Base64url
// ---------------------------------------------------------------------------

/// The character of a 6-bit value in the URL-safe base64 alphabet
/// (`A`-`Z`, `a`-`z`, `0`-`9`, `-`, `_`).
pub open spec fn base64url_char(value: int) -> char {
    if value < 26 {
        (65 + value) as char
    } else if value < 52 {
        (71 + value) as char
    } else if value < 62 {
        (value - 4) as char
    } else if value == 62 {
        '-'
    } else {
        '_'
    }
}

/// The unpadded base64url encoding of a byte string: each group of three
/// bytes becomes four characters of six bits each, high bits first; a final
/// group of one or two bytes becomes two or three characters, the last one
/// padded with zero bits.
pub open spec fn base64url_encoding(bytes: Seq<u8>) -> Seq<char>
    decreases bytes.len(),
{
    let b0 = bytes[0] as int;
    let b1 = bytes[1] as int;
    let b2 = bytes[2] as int;
    if bytes.len() == 0 {
        Seq::empty()
    } else if bytes.len() == 1 {
        seq![base64url_char(b0 / 4), base64url_char((b0 % 4) * 16)]
    } else if bytes.len() == 2 {
        seq![base64url_char(b0 / 4), base64url_char((b0 % 4) * 16 + b1 / 16), base64url_char((b1 % 16) * 4)]
    } else {
        seq![
            base64url_char(b0 / 4),
            base64url_char((b0 % 4) * 16 + b1 / 16),
            base64url_char((b1 % 16) * 4 + b2 / 64),
            base64url_char(b2 % 64),
        ] + base64url_encoding(bytes.subrange(3, bytes.len() as int))
    }
}

/// The bytes that unpadded base64url text (as UTF-8 bytes) decodes to, or
/// `None` when the text is not canonical unpadded base64url.
pub uninterp spec fn base64url_decoding(text: Seq<u8>) -> Option<Seq<u8>>;

/// Encodes with `base64`'s `URL_SAFE_NO_PAD` engine (`Engine::encode`).
///
/// Trusted: the text is the unpadded URL-safe base64 of the bytes, as the
/// crate's engine writes it.
#[verifier::external_body]
fn base64url_encode(bytes: &[u8]) -> (res: String)
    ensures
        res@ == base64url_encoding(bytes@),
{
    URL_SAFE_NO_PAD.encode(bytes)
}

/// Decodes with `base64`'s `URL_SAFE_NO_PAD` engine (`Engine::decode`);
/// on failure, the `Display` text of its `DecodeError`.
///
/// Trusted: whether decoding succeeds, and the bytes, are a function of the
/// text alone. The error text is not stated.
#[verifier::external_body]
fn base64url_decode(text: &[u8]) -> (res: Result<Vec<u8>, String>)
    ensures
        match base64url_decoding(text@) {
            Some(bytes) => res matches Ok(v) && v@ == bytes,
            None => res is Err,
        },
{
    URL_SAFE_NO_PAD.decode(text).map_err(|error| error.to_string())
}

impl PayloadBytes {
    /// The payload as unpadded base64url text.
    pub fn to_base64url(&self) -> (res: String)
        ensures
            res@ == base64url_encoding(self@),
    {
        base64url_encode(self.0.as_slice())
    }

    /// The payload that unpadded base64url text denotes; otherwise the
    /// decoder's message.
    pub fn from_base64url(text: &str) -> (res: Result<PayloadBytes, String>)
        ensures
            match base64url_decoding(encode_utf8(text@)) {
                Some(bytes) => res matches Ok(p) && p@ == bytes,
                None => res is Err,
            },
    {
        match base64url_decode(text.as_bytes()) {
            Ok(bytes) => Ok(PayloadBytes(bytes)),
            Err(message) => Err(message),
        }
    }
}

} // verus!
