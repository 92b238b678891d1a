use coordinator::backends::{
    backend_failure, controller_from_call_result, disclosure_controller_call, ControllerTable,
    InMemoryAuthorizationBackend,
};
use coordinator::clock::{Clock, SystemClock};
use coordinator::keccak::keccak256;
use coordinator::codec::{decimal_text, decode_fixed_hex, encode_fixed_hex, FixedHexError, HexDecodeError};
use coordinator::error::{CoordinatorError, ErrorKind};
use coordinator::types::{Address, HandleId, PayloadBytes};

#[test]
fn fixed_hex_round_trips() {
    let bytes = [0x00, 0x01, 0x7f, 0x80, 0xab, 0xff];
    let text = encode_fixed_hex(&bytes);
    assert_eq!(text, "0x00017f80abff");
    assert_eq!(decode_fixed_hex(&text, 6).unwrap(), bytes.to_vec());
}

#[test]
fn fixed_hex_accepts_uppercase_digits() {
    assert_eq!(decode_fixed_hex("0xABcd", 2).unwrap(), vec![0xab, 0xcd]);
}

#[test]
fn accepted_fixed_hex_reencodes_lowercased() {
    let decoded = decode_fixed_hex("0xABcd09Ef", 4).unwrap();
    assert_eq!(encode_fixed_hex(&decoded), "0xabcd09ef");
}

#[test]
fn hex_length_errors_use_fixed_messages() {
    assert_eq!(FixedHexError::Hex(HexDecodeError::OddLength).message(), "Odd number of digits");
    assert_eq!(FixedHexError::Hex(HexDecodeError::InvalidStringLength).message(), "Invalid string length");
}

#[test]
fn fixed_hex_requires_prefix() {
    let error = decode_fixed_hex("abcd", 2).unwrap_err();
    assert_eq!(error, FixedHexError::MissingPrefix);
    assert_eq!(error.message(), "missing 0x prefix");
    assert_eq!(decode_fixed_hex("0X", 0).unwrap_err(), FixedHexError::MissingPrefix);
}

#[test]
fn fixed_hex_requires_exact_length() {
    let error = decode_fixed_hex("0xabcd", 20).unwrap_err();
    assert_eq!(error, FixedHexError::WrongLength { expected: 40 });
    assert_eq!(error.message(), "expected 40 hex characters");
    assert_eq!(decode_fixed_hex("0xabc", 2).unwrap_err(), FixedHexError::WrongLength { expected: 4 });
}

#[test]
fn fixed_hex_reports_first_bad_digit() {
    let error = decode_fixed_hex("0xa1zz", 2).unwrap_err();
    assert_eq!(
        error,
        FixedHexError::Hex(HexDecodeError::InvalidHexCharacter { c: 'z', index: 2 })
    );
    assert_eq!(error.message(), "Invalid character 'z' at position 2");
}

#[test]
fn payload_bytes_use_unpadded_base64url() {
    let payload = PayloadBytes(vec![0xfb, 0xff, 0x01]);
    let text = payload.to_base64url();
    assert_eq!(text, "-_8B");
    assert_eq!(PayloadBytes::from_base64url(&text).unwrap(), payload);
    assert_eq!(PayloadBytes(vec![1]).to_base64url(), "AQ");
    assert_eq!(PayloadBytes(b"Man".to_vec()).to_base64url(), "TWFu");
    assert_eq!(PayloadBytes(vec![0xff, 0xee]).to_base64url(), "_-4");
    assert_eq!(PayloadBytes(vec![0xfb, 0xff, 0xbf, 0x00]).to_base64url(), "-_-_AA");
    assert_eq!(PayloadBytes(vec![]).to_base64url(), "");
    assert!(PayloadBytes::from_base64url("AQ==").is_err());
    assert!(PayloadBytes::from_base64url("*").is_err());
}

#[test]
fn decimal_text_formats_numbers() {
    assert_eq!(decimal_text(0), "0");
    assert_eq!(decimal_text(404), "404");
    assert_eq!(decimal_text(u64::MAX), "18446744073709551615");
}

#[test]
fn backend_status_maps_to_error_kind() {
    let cases = [
        (400, ErrorKind::BadRequest),
        (401, ErrorKind::Unauthorized),
        (403, ErrorKind::Forbidden),
        (404, ErrorKind::NotFound),
        (409, ErrorKind::Conflict),
        (410, ErrorKind::Gone),
        (422, ErrorKind::Unprocessable),
        (500, ErrorKind::Unavailable),
        (502, ErrorKind::Unavailable),
    ];
    for (status, kind) in cases {
        assert_eq!(backend_failure(status, String::new()).error_kind(), kind);
    }
    let error = backend_failure(404, String::new());
    assert_eq!(error.message_text(), "backend returned HTTP 404");
    let error = backend_failure(503, "overloaded".to_string());
    assert_eq!(error.message_text(), "backend returned HTTP 503: overloaded");
}

#[test]
fn error_codes_statuses_and_descriptions() {
    let cases = [
        (CoordinatorError::BadRequest("x".to_string()), "bad_request", 400, "malformed request: x"),
        (CoordinatorError::Unauthorized("x".to_string()), "unauthorized", 401, "invalid signature: x"),
        (CoordinatorError::Forbidden("x".to_string()), "forbidden", 403, "authorization failed: x"),
        (CoordinatorError::NotFound("x".to_string()), "not_found", 404, "not found: x"),
        (CoordinatorError::Conflict("x".to_string()), "conflict", 409, "conflict: x"),
        (CoordinatorError::Gone("x".to_string()), "gone", 410, "expired request: x"),
        (CoordinatorError::Unprocessable("x".to_string()), "unprocessable", 422, "unknown reader: x"),
        (CoordinatorError::Unavailable("x".to_string()), "unavailable", 503, "backend unavailable: x"),
    ];
    for (error, code, status, description) in cases {
        assert_eq!(error.code(), code);
        assert_eq!(error.status_code(), status);
        assert_eq!(error.describe(), description);
        let body = error.to_error_response();
        assert_eq!(body.code, code);
        assert_eq!(body.message, description);
    }
    let built = CoordinatorError::new(ErrorKind::Gone, "late");
    assert_eq!(built.error_kind(), ErrorKind::Gone);
    assert_eq!(built.message_text(), "late");
}

#[test]
fn in_memory_authorization_resolves_bound_controllers() {
    let backend = InMemoryAuthorizationBackend::new();
    let contract = Address([1; 20]);
    let handle = HandleId([2; 32]);
    let error = backend.resolve_controller(contract, handle).unwrap_err();
    assert_eq!(error.error_kind(), ErrorKind::NotFound);
    assert_eq!(error.message_text(), "handle controller not found");
    backend.bind_controller(contract, handle, Address([3; 20]));
    assert_eq!(backend.resolve_controller(contract, handle).unwrap(), Address([3; 20]));
    backend.bind_controller(contract, handle, Address([4; 20]));
    assert_eq!(backend.resolve_controller(contract, handle).unwrap(), Address([4; 20]));
    assert!(backend.resolve_controller(contract, HandleId([9; 32])).is_err());
    let default = InMemoryAuthorizationBackend::default();
    assert!(default.resolve_controller(contract, handle).is_err());
}

#[test]
fn in_memory_authorization_clones_share_bindings() {
    let backend = InMemoryAuthorizationBackend::new();
    let handle_for_tests = backend.clone();
    let contract = Address([1; 20]);
    let handle = HandleId([2; 32]);
    handle_for_tests.bind_controller(contract, handle, Address([5; 20]));
    assert_eq!(backend.resolve_controller(contract, handle).unwrap(), Address([5; 20]));
}

#[test]
fn controller_table_binds_and_resolves() {
    let mut table = ControllerTable::new();
    let contract = Address([1; 20]);
    let handle = HandleId([2; 32]);
    assert_eq!(table.resolve_controller(contract, handle).unwrap_err().error_kind(), ErrorKind::NotFound);
    table.bind_controller(contract, handle, Address([3; 20]));
    table.bind_controller(contract, handle, Address([4; 20]));
    assert_eq!(table.resolve_controller(contract, handle).unwrap(), Address([4; 20]));
}

#[test]
fn disclosure_controller_call_is_selector_then_handle() {
    let handle = HandleId([0x5a; 32]);
    let data = disclosure_controller_call(handle);
    assert_eq!(data.len(), 36);
    assert_eq!(&data[..4], &keccak256(b"disclosureController(bytes32)")[..4]);
    assert_eq!(&data[4..], &[0x5a; 32]);
}

#[test]
fn controller_is_read_from_call_result() {
    let mut word = [0u8; 32];
    word[12..].copy_from_slice(&[0x42; 20]);
    assert_eq!(controller_from_call_result(&word).unwrap(), Address([0x42; 20]));

    let error = controller_from_call_result(&[0u8; 32]).unwrap_err();
    assert_eq!(error.error_kind(), ErrorKind::Forbidden);
    assert_eq!(error.message_text(), "disclosure controller is the zero address");

    let error = controller_from_call_result(&[1u8; 31]).unwrap_err();
    assert_eq!(error.error_kind(), ErrorKind::Unavailable);
    assert_eq!(error.message_text(), "malformed disclosureController result");
}

#[test]
fn system_clock_reads_a_recent_time() {
    assert!(SystemClock.now() > 1_600_000_000);
    assert!(SystemClock::default().now() > 1_600_000_000);
}
