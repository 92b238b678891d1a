use std::collections::HashMap;

use coordinator::backends::InMemoryAuthorizationBackend;
use coordinator::clock::{Clock, FixedClock};
use coordinator::eip712::reader_id;
use coordinator::eip712::test_helpers::{
    address_for_signing_key, sign_disclosure, sign_register_reader, signing_key_for_tests,
    test_domain, SigningKey,
};
use coordinator::error::{CoordinatorError, ErrorKind};
use coordinator::service::{check_disclosure_expiry, disclosure_status, DisclosureLookup, NextStep};
use coordinator::state::{AppState, CoordinatorRuntimeConfig, DisclosureRecordState};
use coordinator::types::{
    Address, Bytes32, CiphertextSuite, DisclosureRequest, DisclosureStatus, DomainId, FixedBytes,
    GetDisclosureResponse, GetHandleResponse, HandleId, KeyId, MpcConfigResponse, Nonce,
    PayloadBytes, PostDisclosureRequest, PostDisclosureResponse, PutReaderRequest,
    PutReaderResponse, ReaderCiphertextV1, ReaderId, ReaderKeyAlgorithm, RegisterReader, RequestId,
    ResolveHandleResponse, SystemCiphertextV1, ToReaderRequest, X25519PublicKey,
};

/// The MPC service as the flows see it.
struct MockMpc {
    config: MpcConfigResponse,
    readers: HashMap<ReaderId, X25519PublicKey>,
}

impl MockMpc {
    fn new() -> Self {
        MockMpc {
            config: MpcConfigResponse {
                version: 1,
                chain_id: 31337,
                domain_id: DomainId([0x11; 32]),
                key_id: KeyId([0x22; 32]),
                hpke_public_key: X25519PublicKey([0x33; 32]),
                reader_key_algorithm: ReaderKeyAlgorithm::X25519,
                ciphertext_suite: CiphertextSuite::HpkeX25519HkdfSha256Aes256Gcm,
            },
            readers: HashMap::new(),
        }
    }

    fn to_reader(&self, request: ToReaderRequest) -> Result<ReaderCiphertextV1, CoordinatorError> {
        if !self.readers.contains_key(&request.reader_id) {
            return Err(CoordinatorError::NotFound("reader not found".to_string()));
        }
        Ok(ReaderCiphertextV1 {
            key_id: request.system_ciphertext.key_id,
            enc: PayloadBytes(vec![1, 2, 3]),
            ciphertext: request.system_ciphertext.ciphertext.clone(),
            aad: request.system_ciphertext.aad.clone(),
        })
    }
}

/// The coprocessor as the flows see it.
#[derive(Default)]
struct MockCoprocessor {
    resolve: HashMap<(Address, HandleId), ResolveHandleResponse>,
    get: HashMap<(Address, HandleId), GetHandleResponse>,
}

impl MockCoprocessor {
    fn set_ready(&mut self, contract: Address, handle_id: HandleId, ciphertext: SystemCiphertextV1) {
        self.resolve.insert(
            (contract, handle_id),
            ResolveHandleResponse::Ready {
                system_ciphertext: ciphertext.clone(),
                receipt: PayloadBytes(vec![9]),
            },
        );
        self.get.insert(
            (contract, handle_id),
            GetHandleResponse::Ready {
                handle_id,
                system_ciphertext: ciphertext,
                receipt: PayloadBytes(vec![9]),
            },
        );
    }

    fn set_pending(&mut self, contract: Address, handle_id: HandleId) {
        self.resolve.insert((contract, handle_id), ResolveHandleResponse::Pending);
        self.get.insert((contract, handle_id), GetHandleResponse::Pending { handle_id });
    }

    fn complete_pending(&mut self, contract: Address, handle_id: HandleId, ciphertext: SystemCiphertextV1) {
        self.get.insert(
            (contract, handle_id),
            GetHandleResponse::Ready {
                handle_id,
                system_ciphertext: ciphertext,
                receipt: PayloadBytes(vec![7]),
            },
        );
    }

    fn fail_pending(&mut self, contract: Address, handle_id: HandleId, error: &str) {
        self.get.insert(
            (contract, handle_id),
            GetHandleResponse::Failed { handle_id, error: error.to_string() },
        );
    }
}

struct World {
    state: AppState<FixedClock>,
    clock: FixedClock,
    mpc: MockMpc,
    coprocessor: MockCoprocessor,
    authorization: InMemoryAuthorizationBackend,
}

fn world(now: u64) -> World {
    let clock = FixedClock::new(now);
    World {
        clock: clock.clone(),
        state: AppState::new(
            CoordinatorRuntimeConfig {
                version: 1,
                eip712_name: "Coordinator".to_string(),
                eip712_version: "1".to_string(),
                eip712_salt: Bytes32([0x99; 32]),
            },
            clock,
        ),
        mpc: MockMpc::new(),
        coprocessor: MockCoprocessor::default(),
        authorization: InMemoryAuthorizationBackend::new(),
    }
}

fn put_reader(
    world: &mut World,
    path_reader_id: ReaderId,
    request: PutReaderRequest,
) -> Result<PutReaderResponse, CoordinatorError> {
    let now = world.state.now();
    let checked = world.state.check_put_reader(now, path_reader_id, &request)?;
    let chain_id = world.mpc.config.chain_id;
    let (mpc_request, authenticated) = world.state.authenticate_put_reader(chain_id, checked)?;
    world.mpc.readers.insert(path_reader_id, mpc_request.reader_pubkey);
    Ok(world.state.commit_put_reader(authenticated))
}

fn post_disclosure(
    world: &mut World,
    request: PostDisclosureRequest,
) -> Result<PostDisclosureResponse, CoordinatorError> {
    let now = world.state.now();
    let timely = check_disclosure_expiry(now, &request)?;
    let controller = world.authorization.resolve_controller(request.contract, request.handle_id)?;
    let authorized = world.state.authorize_disclosure(timely, controller)?;
    let chain_id = world.mpc.config.chain_id;
    let (resolve, signed) = world.state.begin_disclosure(authorized, chain_id)?;
    let resolution = world
        .coprocessor
        .resolve
        .get(&(resolve.contract, resolve.handle_id))
        .cloned()
        .ok_or_else(|| CoordinatorError::NotFound("handle not found".to_string()))?;
    assert_eq!(signed.assigned_request_id(), resolve.request_id);
    match world.state.record_handle_resolution(&signed, resolution) {
        NextStep::Respond(response) => Ok(response),
        NextStep::FetchReaderCiphertext(to_reader) => {
            let ciphertext = world.mpc.to_reader(to_reader)?;
            Ok(world.state.complete_disclosure(signed, ciphertext))
        }
    }
}

fn get_disclosure(world: &mut World, request_id: RequestId) -> Result<GetDisclosureResponse, CoordinatorError> {
    let now = world.state.now();
    match world.state.begin_get_disclosure(now, request_id)? {
        DisclosureLookup::Answered(response) => Ok(response),
        DisclosureLookup::Refresh(record) => {
            let chain_id = world.mpc.config.chain_id;
            let status = world
                .coprocessor
                .get
                .get(&(record.contract, record.handle_id))
                .cloned()
                .ok_or_else(|| CoordinatorError::NotFound("handle not found".to_string()))?;
            match world.state.record_handle_status(record.clone(), chain_id, status) {
                NextStep::Respond(response) => Ok(response),
                NextStep::FetchReaderCiphertext(to_reader) => {
                    let ciphertext = world.mpc.to_reader(to_reader)?;
                    Ok(world.state.complete_refresh(record, ciphertext))
                }
            }
        }
    }
}

fn system_ciphertext() -> SystemCiphertextV1 {
    SystemCiphertextV1 {
        key_id: KeyId([0x22; 32]),
        enc: PayloadBytes(vec![1]),
        wrapped_key: PayloadBytes(vec![2]),
        nonce: FixedBytes([3; 12]),
        ciphertext: PayloadBytes(vec![4, 5, 6]),
        aad: PayloadBytes(vec![7, 8]),
    }
}

fn register(world: &mut World, key: &SigningKey, nonce: Nonce, expiry: u64) -> ReaderId {
    let controller = address_for_signing_key(key);
    let reader_pubkey = X25519PublicKey([0x44; 32]);
    let reader = reader_id(reader_pubkey);
    let message = RegisterReader { controller, reader_id: reader, nonce, expiry };
    put_reader(
        world,
        reader,
        PutReaderRequest {
            controller,
            reader_pubkey,
            nonce,
            expiry,
            signature: sign_register_reader(key, &test_domain(31337), &message).unwrap(),
        },
    )
    .unwrap();
    reader
}

fn disclosure_request(key: &SigningKey, reader: ReaderId, nonce: Nonce, expiry: u64) -> PostDisclosureRequest {
    let disclosure = DisclosureRequest {
        contract: Address([0x66; 20]),
        handle_id: HandleId([0x77; 32]),
        reader_id: reader,
        nonce,
        expiry,
    };
    PostDisclosureRequest {
        contract: disclosure.contract,
        handle_id: disclosure.handle_id,
        reader_id: reader,
        nonce,
        expiry,
        signature: sign_disclosure(key, &test_domain(31337), &disclosure).unwrap(),
    }
}

#[test]
fn get_config_returns_public_configuration() {
    let world = world(100);
    let body = world.state.config_response(&world.mpc.config);
    assert_eq!(body.chain_id, 31337);
    assert_eq!(body.eip712_domain, test_domain(31337));
    assert_eq!(body.version, 1);
    assert_eq!(body.mpc_key_id, KeyId([0x22; 32]));
}

#[test]
fn put_reader_registers_reader_key() {
    let mut world = world(100);
    let signing_key = signing_key_for_tests([7; 32]);
    let controller = address_for_signing_key(&signing_key);
    let reader_pubkey = X25519PublicKey([0x44; 32]);
    let reader = reader_id(reader_pubkey);
    let message = RegisterReader { controller, reader_id: reader, nonce: Nonce([0x55; 32]), expiry: 200 };
    let body = PutReaderRequest {
        controller,
        reader_pubkey,
        nonce: message.nonce,
        expiry: message.expiry,
        signature: sign_register_reader(&signing_key, &test_domain(31337), &message).unwrap(),
    };

    let response = put_reader(&mut world, reader, body).unwrap();
    assert_eq!(response.reader_id, reader);
    assert_eq!(response.controller, controller);
    assert_eq!(response.registered_at, 100);
    assert_eq!(response.expires_at, Some(200));
    assert_eq!(*world.mpc.readers.get(&reader).unwrap(), reader_pubkey);
    let registration = world.state.reader_registration(reader).unwrap();
    assert_eq!(registration.controller, controller);
}

#[test]
fn post_disclosure_returns_ready_when_handle_is_materialized() {
    let mut world = world(100);
    let signing_key = signing_key_for_tests([7; 32]);
    let controller = address_for_signing_key(&signing_key);
    let reader = register(&mut world, &signing_key, Nonce([1; 32]), 200);
    let contract = Address([0x66; 20]);
    let handle_id = HandleId([0x77; 32]);
    world.authorization.bind_controller(contract, handle_id, controller);
    world.coprocessor.set_ready(contract, handle_id, system_ciphertext());

    let request = disclosure_request(&signing_key, reader, Nonce([2; 32]), 300);
    match post_disclosure(&mut world, request).unwrap() {
        PostDisclosureResponse::Ready { request_id, ciphertext } => {
            assert_eq!(ciphertext.ciphertext, PayloadBytes(vec![4, 5, 6]));
            let record = world.state.disclosure(request_id).unwrap();
            assert!(matches!(record.state, DisclosureRecordState::Ready { .. }));
        }
        other => panic!("expected ready response, got {other:?}"),
    }
}

#[test]
fn pending_disclosure_becomes_ready_on_poll() {
    let mut world = world(100);
    let signing_key = signing_key_for_tests([7; 32]);
    let controller = address_for_signing_key(&signing_key);
    let reader = register(&mut world, &signing_key, Nonce([1; 32]), 200);
    let contract = Address([0x66; 20]);
    let handle_id = HandleId([0x77; 32]);
    world.authorization.bind_controller(contract, handle_id, controller);
    world.coprocessor.set_pending(contract, handle_id);

    let request = disclosure_request(&signing_key, reader, Nonce([2; 32]), 300);
    let request_id = match post_disclosure(&mut world, request).unwrap() {
        PostDisclosureResponse::Pending { request_id } => request_id,
        other => panic!("expected pending response, got {other:?}"),
    };

    let still_pending = get_disclosure(&mut world, request_id).unwrap();
    assert_eq!(disclosure_status(&still_pending), DisclosureStatus::Pending);

    world.coprocessor.complete_pending(contract, handle_id, system_ciphertext());
    match get_disclosure(&mut world, request_id).unwrap() {
        GetDisclosureResponse::Ready { request_id: got, .. } => assert_eq!(got, request_id),
        other => panic!("expected ready response, got {other:?}"),
    }
    // The ready answer is kept: a later poll answers from the record.
    world.coprocessor.set_pending(contract, handle_id);
    let again = get_disclosure(&mut world, request_id).unwrap();
    assert_eq!(disclosure_status(&again), DisclosureStatus::Ready);
}

#[test]
fn reused_nonce_returns_conflict() {
    let mut world = world(100);
    let signing_key = signing_key_for_tests([7; 32]);
    let controller = address_for_signing_key(&signing_key);
    let reader_pubkey = X25519PublicKey([0x44; 32]);
    let reader = reader_id(reader_pubkey);
    let message = RegisterReader { controller, reader_id: reader, nonce: Nonce([0x55; 32]), expiry: 200 };
    let body = PutReaderRequest {
        controller,
        reader_pubkey,
        nonce: message.nonce,
        expiry: message.expiry,
        signature: sign_register_reader(&signing_key, &test_domain(31337), &message).unwrap(),
    };

    put_reader(&mut world, reader, body).unwrap();
    let second = put_reader(&mut world, reader, body).unwrap_err();
    assert_eq!(second.error_kind(), ErrorKind::Conflict);
    assert_eq!(second.status_code(), 409);
    assert_eq!(second.message_text(), "nonce already used for controller");
}

#[test]
fn expired_registration_request_is_gone() {
    let mut world = world(500);
    let signing_key = signing_key_for_tests([7; 32]);
    let controller = address_for_signing_key(&signing_key);
    let reader_pubkey = X25519PublicKey([0x44; 32]);
    let request = PutReaderRequest {
        controller,
        reader_pubkey,
        nonce: Nonce([1; 32]),
        expiry: 499,
        signature: coordinator::types::EthereumSignature([0; 65]),
    };
    let error = world.state.check_put_reader(500, reader_id(reader_pubkey), &request).unwrap_err();
    assert_eq!(error.error_kind(), ErrorKind::Gone);
    assert_eq!(error.message_text(), "reader registration request expired");
    // Expiry equal to the current time is still accepted.
    let on_time = PutReaderRequest { expiry: 500, ..request };
    world.state.check_put_reader(500, reader_id(reader_pubkey), &on_time).unwrap();
    // The path must name the key's reader id.
    let error = world.state.check_put_reader(500, ReaderId([0; 32]), &on_time).unwrap_err();
    assert_eq!(error.error_kind(), ErrorKind::Conflict);
    assert_eq!(error.message_text(), "reader_id path does not match reader_pubkey");
    world.state.set_clock(FixedClock::new(1));
    assert_eq!(world.state.now(), 1);
}

#[test]
fn bad_registration_signature_is_unauthorized_and_keeps_nonce() {
    let mut world = world(100);
    let signing_key = signing_key_for_tests([7; 32]);
    let other = signing_key_for_tests([9; 32]);
    let controller = address_for_signing_key(&signing_key);
    let reader_pubkey = X25519PublicKey([0x44; 32]);
    let reader = reader_id(reader_pubkey);
    let message = RegisterReader { controller, reader_id: reader, nonce: Nonce([0x55; 32]), expiry: 200 };
    let forged = PutReaderRequest {
        controller,
        reader_pubkey,
        nonce: message.nonce,
        expiry: message.expiry,
        signature: sign_register_reader(&other, &test_domain(31337), &message).unwrap(),
    };
    let error = put_reader(&mut world, reader, forged).unwrap_err();
    assert_eq!(error.error_kind(), ErrorKind::Unauthorized);
    assert_eq!(error.status_code(), 401);
    // The nonce was not consumed: the genuine registration still succeeds.
    let genuine = PutReaderRequest {
        signature: sign_register_reader(&signing_key, &test_domain(31337), &message).unwrap(),
        ..forged
    };
    put_reader(&mut world, reader, genuine).unwrap();
}

#[test]
fn disclosure_rejections() {
    let mut world = world(100);
    let signing_key = signing_key_for_tests([7; 32]);
    let controller = address_for_signing_key(&signing_key);
    let contract = Address([0x66; 20]);
    let handle_id = HandleId([0x77; 32]);

    // Expired request.
    let stale = disclosure_request(&signing_key, ReaderId([1; 32]), Nonce([2; 32]), 99);
    let error = post_disclosure(&mut world, stale).unwrap_err();
    assert_eq!(error.error_kind(), ErrorKind::Gone);
    assert_eq!(error.message_text(), "disclosure request expired");

    // Unknown handle controller.
    let request = disclosure_request(&signing_key, ReaderId([1; 32]), Nonce([2; 32]), 300);
    let error = post_disclosure(&mut world, request).unwrap_err();
    assert_eq!(error.error_kind(), ErrorKind::NotFound);
    assert_eq!(error.message_text(), "handle controller not found");

    // Unregistered reader.
    world.authorization.bind_controller(contract, handle_id, controller);
    let error = post_disclosure(&mut world, request).unwrap_err();
    assert_eq!(error.error_kind(), ErrorKind::Unprocessable);
    assert_eq!(error.message_text(), "reader_id not registered");

    // Reader bound to another controller.
    let other = signing_key_for_tests([9; 32]);
    let reader = register(&mut world, &other, Nonce([1; 32]), 200);
    let request = disclosure_request(&signing_key, reader, Nonce([2; 32]), 300);
    let error = post_disclosure(&mut world, request).unwrap_err();
    assert_eq!(error.error_kind(), ErrorKind::Conflict);
    assert_eq!(error.message_text(), "reader_id is registered to a different controller");

    // Registration expired.
    let mut world2 = self::world(100);
    let reader = register(&mut world2, &signing_key, Nonce([1; 32]), 150);
    world2.authorization.bind_controller(contract, handle_id, controller);
    world2.clock.set(151);
    let request = disclosure_request(&signing_key, reader, Nonce([2; 32]), 300);
    let error = post_disclosure(&mut world2, request).unwrap_err();
    assert_eq!(error.error_kind(), ErrorKind::Unprocessable);
    assert_eq!(error.message_text(), "reader registration expired");
}

#[test]
fn replayed_disclosure_returns_conflict() {
    let mut world = world(100);
    let signing_key = signing_key_for_tests([7; 32]);
    let controller = address_for_signing_key(&signing_key);
    let reader = register(&mut world, &signing_key, Nonce([1; 32]), 200);
    let contract = Address([0x66; 20]);
    let handle_id = HandleId([0x77; 32]);
    world.authorization.bind_controller(contract, handle_id, controller);
    world.coprocessor.set_pending(contract, handle_id);
    let request = disclosure_request(&signing_key, reader, Nonce([2; 32]), 300);
    post_disclosure(&mut world, request).unwrap();
    let error = post_disclosure(&mut world, request).unwrap_err();
    assert_eq!(error.error_kind(), ErrorKind::Conflict);
    assert_eq!(error.message_text(), "nonce already used for controller");
}

#[test]
fn overdue_pending_disclosure_expires_and_stays_expired() {
    let mut world = world(100);
    let signing_key = signing_key_for_tests([7; 32]);
    let controller = address_for_signing_key(&signing_key);
    let reader = register(&mut world, &signing_key, Nonce([1; 32]), 1000);
    let contract = Address([0x66; 20]);
    let handle_id = HandleId([0x77; 32]);
    world.authorization.bind_controller(contract, handle_id, controller);
    world.coprocessor.set_pending(contract, handle_id);
    let request = disclosure_request(&signing_key, reader, Nonce([2; 32]), 300);
    let request_id = match post_disclosure(&mut world, request).unwrap() {
        PostDisclosureResponse::Pending { request_id } => request_id,
        other => panic!("expected pending response, got {other:?}"),
    };
    world.clock.set(301);
    let response = get_disclosure(&mut world, request_id).unwrap();
    assert_eq!(response, GetDisclosureResponse::Expired { request_id });
    // Even if the handle becomes ready and time goes back, the request stays expired.
    world.coprocessor.complete_pending(contract, handle_id, system_ciphertext());
    world.clock.set(100);
    let response = get_disclosure(&mut world, request_id).unwrap();
    assert_eq!(disclosure_status(&response), DisclosureStatus::Expired);
}

#[test]
fn failed_handle_is_reported_as_failed() {
    let mut world = world(100);
    let signing_key = signing_key_for_tests([7; 32]);
    let controller = address_for_signing_key(&signing_key);
    let reader = register(&mut world, &signing_key, Nonce([1; 32]), 1000);
    let contract = Address([0x66; 20]);
    let handle_id = HandleId([0x77; 32]);
    world.authorization.bind_controller(contract, handle_id, controller);
    world.coprocessor.set_pending(contract, handle_id);
    let request = disclosure_request(&signing_key, reader, Nonce([2; 32]), 300);
    let request_id = match post_disclosure(&mut world, request).unwrap() {
        PostDisclosureResponse::Pending { request_id } => request_id,
        other => panic!("expected pending response, got {other:?}"),
    };
    world.coprocessor.fail_pending(contract, handle_id, "decryption denied");
    let response = get_disclosure(&mut world, request_id).unwrap();
    assert_eq!(
        response,
        GetDisclosureResponse::Failed { request_id, error: "decryption denied".to_string() }
    );
    assert_eq!(disclosure_status(&response), DisclosureStatus::Failed);
}

#[test]
fn failed_resolution_is_recorded_but_answered_pending() {
    let mut world = world(100);
    let signing_key = signing_key_for_tests([7; 32]);
    let controller = address_for_signing_key(&signing_key);
    let reader = register(&mut world, &signing_key, Nonce([1; 32]), 1000);
    let contract = Address([0x66; 20]);
    let handle_id = HandleId([0x77; 32]);
    world.authorization.bind_controller(contract, handle_id, controller);
    world
        .coprocessor
        .resolve
        .insert((contract, handle_id), ResolveHandleResponse::Failed { reason: "no such handle".to_string() });
    let request = disclosure_request(&signing_key, reader, Nonce([2; 32]), 300);
    let request_id = match post_disclosure(&mut world, request).unwrap() {
        PostDisclosureResponse::Pending { request_id } => request_id,
        other => panic!("expected pending response, got {other:?}"),
    };
    let response = get_disclosure(&mut world, request_id).unwrap();
    assert_eq!(
        response,
        GetDisclosureResponse::Failed { request_id, error: "no such handle".to_string() }
    );
}

#[test]
fn unknown_disclosure_is_not_found() {
    let mut world = world(100);
    let error = get_disclosure(&mut world, RequestId([9; 32])).unwrap_err();
    assert_eq!(error.error_kind(), ErrorKind::NotFound);
    assert_eq!(error.message_text(), "disclosure request not found");
}

#[test]
fn request_ids_differ_for_repeated_requests() {
    let mut world = world(100);
    let a = world.state.next_request_id(Address([1; 20]), HandleId([2; 32]), ReaderId([3; 32]), Nonce([4; 32]));
    let b = world.state.next_request_id(Address([1; 20]), HandleId([2; 32]), ReaderId([3; 32]), Nonce([4; 32]));
    assert_ne!(a, b);
}

#[test]
fn fixed_clock_reads_what_it_was_set_to() {
    let clock = FixedClock::new(5);
    assert_eq!(clock.now(), 5);
    clock.set(42);
    assert_eq!(clock.now(), 42);
}

#[test]
fn fixed_clock_clones_share_one_time() {
    let clock = FixedClock::new(5);
    let copy = clock.clone();
    copy.set(9);
    assert_eq!(clock.now(), 9);
    let mut world = world(100);
    let handle = world.clock.clone();
    handle.set(250);
    assert_eq!(world.state.now(), 250);
    world.state.set_clock(FixedClock::new(7));
    assert_eq!(world.state.now(), 7);
}

#[test]
fn eip712_domain_uses_configured_fields() {
    let world = world(100);
    assert_eq!(world.state.eip712_domain(31337), test_domain(31337));
    assert_eq!(world.state.config().version, 1);
}

#[test]
fn state_registries_read_back() {
    let mut world = world(100);
    let controller = Address([1; 20]);
    let nonce = Nonce([2; 32]);
    world.state.ensure_nonce_unused(controller, nonce).unwrap();
    world.state.mark_nonce_used(controller, nonce).unwrap();
    let error = world.state.ensure_nonce_unused(controller, nonce).unwrap_err();
    assert_eq!(error.code(), "conflict");
    // Consuming the pair again changes nothing: it stays consumed.
    world.state.mark_nonce_used(controller, nonce).unwrap();
    assert_eq!(world.state.ensure_nonce_unused(controller, nonce).unwrap_err().code(), "conflict");
    // A different controller may use the same nonce.
    world.state.ensure_nonce_unused(Address([3; 20]), nonce).unwrap();

    let error = world.state.reader_registration(ReaderId([5; 32])).unwrap_err();
    assert_eq!(error.code(), "unprocessable");
    assert_eq!(error.status_code(), 422);
}
