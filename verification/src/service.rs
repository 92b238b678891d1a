//! The decisions of each coordinator operation. An operation alternates
//! between these steps and calls to the MPC, coprocessor and authorization
//! services; each step takes what the previous call returned and says what to
//! answer or which call to make next.

use vstd::prelude::*;
use vstd::string::*;

use crate::bytes::bytes_equal;
use crate::clock::Clock;
use crate::eip712::{
    check_signature, disclosure_struct_hash, SignatureCheck, domain_separator_of, reader_id,
    register_reader_struct_hash, signature_result, signing_digest,
    verify_disclosure_signature, verify_register_reader_signature,
};
use crate::error::{failure, CoordinatorError, ErrorKind};
use crate::keccak::keccak256_digest;
use crate::state::{
    request_id_preimage, AppState, CoordinatorRuntimeConfig, DisclosureRecord, DisclosureRecordState,
    DisclosureRecordView, DisclosureStateView, ReaderRegistration,
};
use crate::types::{
    Address, CoordinatorConfigResponse, DisclosureRequest, DisclosureStatus, GetDisclosureResponse,
    GetDisclosureView, GetHandleResponse, MpcConfigResponse, MpcPutReaderRequest,
    PostDisclosureRequest, PostDisclosureResponse, PutReaderRequest, PutReaderResponse,
    ReaderCiphertextV1, ReaderId, RegisterReader, RequestId,
    ResolveHandleRequest, ResolveHandleResponse, ToReaderRequest,
};

verus! {

/// What an operation does after a step: answer, or first ask the MPC service
/// to re-encrypt a system ciphertext for the reader.
pub enum NextStep<R> {
    Respond(R),
    FetchReaderCiphertext(ToReaderRequest),
}

/// The outcome of looking up a disclosure: an answer, or a pending record
/// whose handle must be asked about.
pub enum DisclosureLookup {
    Answered(GetDisclosureResponse),
    Refresh(DisclosureRecord),
}

/// The separator of the coordinator's EIP-712 domain on `chain_id`.
pub open spec fn config_separator(config: CoordinatorRuntimeConfig, chain_id: u64) -> Seq<u8> {
    domain_separator_of(config.eip712_name@, config.eip712_version@, chain_id, config.eip712_salt)
}

/// The record `after` holds `id` with contents `view`, and agrees with `before` elsewhere.
pub open spec fn stored_as(
    after: Map<RequestId, DisclosureRecord>,
    before: Map<RequestId, DisclosureRecord>,
    id: RequestId,
    view: DisclosureRecordView,
) -> bool {
    &&& after.contains_key(id)
    &&& after[id]@ == view
    &&& after.remove(id) == before.remove(id)
}

proof fn lemma_insert_then_remove<K, V>(m: Map<K, V>, k: K, v: V)
    ensures
        m.insert(k, v).remove(k) == m.remove(k),
{
    assert(m.insert(k, v).remove(k) =~= m.remove(k));
}

/// The record of an accepted disclosure request in the given state.
pub open spec fn record_view(
    request_id: RequestId,
    request: PostDisclosureRequest,
    controller: Address,
    state: DisclosureStateView,
) -> DisclosureRecordView {
    DisclosureRecordView {
        request_id,
        contract: request.contract,
        handle_id: request.handle_id,
        reader_id: request.reader_id,
        controller,
        expiry: request.expiry,
        state,
    }
}

/// `record` with its state replaced.
pub open spec fn restated(record: DisclosureRecordView, state: DisclosureStateView) -> DisclosureRecordView {
    DisclosureRecordView { state, ..record }
}

/// The message a controller signs for a disclosure request.
pub open spec fn disclosure_message(request: PostDisclosureRequest) -> DisclosureRequest {
    DisclosureRequest {
        contract: request.contract,
        handle_id: request.handle_id,
        reader_id: request.reader_id,
        nonce: request.nonce,
        expiry: request.expiry,
    }
}

/// The message a controller signs to register a reader.
pub open spec fn registration_message(path_reader_id: ReaderId, request: PutReaderRequest) -> RegisterReader {
    RegisterReader {
        controller: request.controller,
        reader_id: path_reader_id,
        nonce: request.nonce,
        expiry: request.expiry,
    }
}

/// Why a reader registration is refused before its signature is checked.
pub open spec fn put_reader_precheck<C: Clock>(
    state: AppState<C>,
    now: u64,
    path_reader_id: ReaderId,
    request: PutReaderRequest,
) -> Option<(ErrorKind, Seq<char>)> {
    if request.expiry < now {
        Some((ErrorKind::Gone, "reader registration request expired"@))
    } else if path_reader_id.0@ != keccak256_digest(request.reader_pubkey.0@) {
        Some((ErrorKind::Conflict, "reader_id path does not match reader_pubkey"@))
    } else if state.used_nonces().contains((request.controller, request.nonce)) {
        Some((ErrorKind::Conflict, "nonce already used for controller"@))
    } else {
        None
    }
}

/// Why a disclosure request is refused once its handle's controller is known,
/// before its signature is checked.
pub open spec fn disclosure_authorization<C: Clock>(
    state: AppState<C>,
    now: u64,
    request: PostDisclosureRequest,
    controller: Address,
) -> Option<(ErrorKind, Seq<char>)> {
    if state.used_nonces().contains((controller, request.nonce)) {
        Some((ErrorKind::Conflict, "nonce already used for controller"@))
    } else if !state.readers().contains_key(request.reader_id) {
        Some((ErrorKind::Unprocessable, "reader_id not registered"@))
    } else if state.readers()[request.reader_id].expires_at matches Some(expires_at) && expires_at < now {
        Some((ErrorKind::Unprocessable, "reader registration expired"@))
    } else if state.readers()[request.reader_id].controller != controller {
        Some((ErrorKind::Conflict, "reader_id is registered to a different controller"@))
    } else {
        None
    }
}

/// The answer to a poll of a stored record, `None` when the handle must be
/// asked about: an overdue pending request has expired.
pub open spec fn poll_answer(record: DisclosureRecordView, now: u64, request_id: RequestId) -> Option<GetDisclosureView> {
    match record.state {
        DisclosureStateView::Pending => if record.expiry < now {
            Some(GetDisclosureView::Expired { request_id })
        } else {
            None
        },
        DisclosureStateView::Ready { ciphertext } => Some(GetDisclosureView::Ready { request_id, ciphertext }),
        DisclosureStateView::Failed { error } => Some(GetDisclosureView::Failed { request_id, error }),
        DisclosureStateView::Expired => Some(GetDisclosureView::Expired { request_id }),
    }
}

/// The status a poll response reports.
pub open spec fn status_of(response: GetDisclosureView) -> DisclosureStatus {
    match response {
        GetDisclosureView::Pending { .. } => DisclosureStatus::Pending,
        GetDisclosureView::Ready { .. } => DisclosureStatus::Ready,
        GetDisclosureView::Failed { .. } => DisclosureStatus::Failed,
        GetDisclosureView::Expired { .. } => DisclosureStatus::Expired,
    }
}

// ---------------------------------------------------------------------------
// Evidence handed from one step to the next
// ---------------------------------------------------------------------------

/// A reader registration that passed the checks made before its signature:
/// at `checked_at()` it had not expired and the path named the reader id of
/// its key. Only `check_put_reader` makes one.
#[derive(Debug)]
pub struct CheckedRegistration {
    now: u64,
    reader_id: ReaderId,
    request: PutReaderRequest,
}

impl CheckedRegistration {
    #[verifier::type_invariant]
    spec fn in_order(&self) -> bool {
        &&& self.request.expiry >= self.now
        &&& self.reader_id.0@ == keccak256_digest(self.request.reader_pubkey.0@)
    }

    /// The time of the checks.
    pub closed spec fn checked_at(&self) -> u64 {
        self.now
    }

    /// The reader id named by the path.
    pub closed spec fn path_reader_id(&self) -> ReaderId {
        self.reader_id
    }

    /// The registration request.
    pub closed spec fn request(&self) -> PutReaderRequest {
        self.request
    }
}

/// A checked reader registration whose signature was verified under the
/// domain of `chain_id()`. Only `authenticate_put_reader` makes one, and only
/// `commit_put_reader` takes it.
#[derive(Debug)]
pub struct AuthenticatedRegistration {
    now: u64,
    reader_id: ReaderId,
    request: PutReaderRequest,
    chain_id: u64,
}

impl AuthenticatedRegistration {
    #[verifier::type_invariant]
    spec fn in_order(&self) -> bool {
        &&& self.request.expiry >= self.now
        &&& self.reader_id.0@ == keccak256_digest(self.request.reader_pubkey.0@)
    }

    /// The time of the checks.
    pub closed spec fn checked_at(&self) -> u64 {
        self.now
    }

    /// The reader id named by the path.
    pub closed spec fn path_reader_id(&self) -> ReaderId {
        self.reader_id
    }

    /// The registration request.
    pub closed spec fn request(&self) -> PutReaderRequest {
        self.request
    }

    /// The chain whose EIP-712 domain the signature was verified under.
    pub closed spec fn chain_id(&self) -> u64 {
        self.chain_id
    }

    /// The controller's signature is valid for this registration under the
    /// domain that `config` gives on `chain_id()`.
    pub open spec fn signed_under(&self, config: CoordinatorRuntimeConfig) -> bool {
        check_signature(
            signing_digest(
                config_separator(config, self.chain_id()),
                register_reader_struct_hash(registration_message(self.path_reader_id(), self.request())),
            ),
            self.request().signature,
            self.request().controller,
        ) == SignatureCheck::Valid
    }
}

/// A disclosure request that had not expired at `checked_at()`. Only
/// `check_disclosure_expiry` makes one.
#[derive(Debug)]
pub struct TimelyDisclosure {
    now: u64,
    request: PostDisclosureRequest,
}

impl TimelyDisclosure {
    #[verifier::type_invariant]
    spec fn in_time(&self) -> bool {
        self.request.expiry >= self.now
    }

    /// The time of the check.
    pub closed spec fn checked_at(&self) -> u64 {
        self.now
    }

    /// The disclosure request.
    pub closed spec fn request(&self) -> PostDisclosureRequest {
        self.request
    }
}

/// A timely disclosure request whose handle is controlled by `controller()`,
/// to a reader registered to that controller and unexpired at
/// `checked_at()`. Only `authorize_disclosure` makes one.
#[derive(Debug)]
pub struct AuthorizedDisclosure {
    now: u64,
    request: PostDisclosureRequest,
    controller: Address,
    registration: ReaderRegistration,
}

impl AuthorizedDisclosure {
    #[verifier::type_invariant]
    spec fn authorized(&self) -> bool {
        &&& self.request.expiry >= self.now
        &&& self.registration.controller == self.controller
        &&& self.registration.expires_at matches Some(expires_at) ==> self.now <= expires_at
    }

    /// The time of the checks.
    pub closed spec fn checked_at(&self) -> u64 {
        self.now
    }

    /// The disclosure request.
    pub closed spec fn request(&self) -> PostDisclosureRequest {
        self.request
    }

    /// The controller of the request's handle.
    pub closed spec fn controller(&self) -> Address {
        self.controller
    }

    /// The reader's registration as it stood at the checks.
    pub closed spec fn reader_registration(&self) -> ReaderRegistration {
        self.registration
    }
}

/// An authorized disclosure request whose signature was verified under the
/// domain of `chain_id()`, with the request id assigned to it. Only
/// `begin_disclosure` makes one; `record_handle_resolution` and
/// `complete_disclosure` record the request only with it.
#[derive(Debug)]
pub struct SignedDisclosure {
    now: u64,
    request: PostDisclosureRequest,
    controller: Address,
    registration: ReaderRegistration,
    chain_id: u64,
    request_id: RequestId,
}

impl SignedDisclosure {
    #[verifier::type_invariant]
    spec fn authorized(&self) -> bool {
        &&& self.request.expiry >= self.now
        &&& self.registration.controller == self.controller
        &&& self.registration.expires_at matches Some(expires_at) ==> self.now <= expires_at
    }

    /// The time of the checks.
    pub closed spec fn checked_at(&self) -> u64 {
        self.now
    }

    /// The disclosure request.
    pub closed spec fn request(&self) -> PostDisclosureRequest {
        self.request
    }

    /// The controller of the request's handle.
    pub closed spec fn controller(&self) -> Address {
        self.controller
    }

    /// The reader's registration as it stood at the checks.
    pub closed spec fn reader_registration(&self) -> ReaderRegistration {
        self.registration
    }

    /// The chain whose EIP-712 domain the signature was verified under.
    pub closed spec fn chain_id(&self) -> u64 {
        self.chain_id
    }

    /// The request id assigned to the request.
    pub closed spec fn request_id(&self) -> RequestId {
        self.request_id
    }

    /// The controller's signature is valid for this request under the domain
    /// that `config` gives on `chain_id()`.
    pub open spec fn signed_under(&self, config: CoordinatorRuntimeConfig) -> bool {
        check_signature(
            signing_digest(
                config_separator(config, self.chain_id()),
                disclosure_struct_hash(disclosure_message(self.request())),
            ),
            self.request().signature,
            self.controller(),
        ) == SignatureCheck::Valid
    }

    /// The request id assigned to the request.
    pub fn assigned_request_id(&self) -> (res: RequestId)
        ensures
            res == self.request_id(),
    {
        self.request_id
    }
}

/// The status of a poll response.
pub fn disclosure_status(response: &GetDisclosureResponse) -> (res: DisclosureStatus)
    ensures
        res == status_of(response@),
{
    match response {
        GetDisclosureResponse::Pending { .. } => DisclosureStatus::Pending,
        GetDisclosureResponse::Ready { .. } => DisclosureStatus::Ready,
        GetDisclosureResponse::Failed { .. } => DisclosureStatus::Failed,
        GetDisclosureResponse::Expired { .. } => DisclosureStatus::Expired,
    }
}

/// Refuses a disclosure request whose expiry has passed at `now`; otherwise
/// the request, checked as timely.
pub fn check_disclosure_expiry(now: u64, request: &PostDisclosureRequest) -> (res: Result<TimelyDisclosure, CoordinatorError>)
    ensures
        failure(res) == if request.expiry < now {
            Some((ErrorKind::Gone, "disclosure request expired"@))
        } else {
            None
        },
        res matches Ok(timely) ==> timely.checked_at() == now && timely.request() == *request,
{
    if request.expiry < now {
        return Err(CoordinatorError::new(ErrorKind::Gone, "disclosure request expired"));
    }
    Ok(TimelyDisclosure { now, request: *request })
}

impl<C: Clock> AppState<C> {
    /// The public configuration: the MPC service's chain, keys and suites with
    /// the coordinator's version and EIP-712 domain on that chain.
    pub fn config_response(&self, mpc: &MpcConfigResponse) -> (res: CoordinatorConfigResponse)
        ensures
            res.version == self.runtime_config().version,
            res.chain_id == mpc.chain_id,
            res.domain_id == mpc.domain_id,
            res.mpc_key_id == mpc.key_id,
            res.mpc_hpke_public_key == mpc.hpke_public_key,
            res.reader_key_algorithm == mpc.reader_key_algorithm,
            res.ciphertext_suite == mpc.ciphertext_suite,
            res.eip712_domain.name@ == self.runtime_config().eip712_name@,
            res.eip712_domain.version@ == self.runtime_config().eip712_version@,
            res.eip712_domain.chain_id == mpc.chain_id,
            res.eip712_domain.salt == self.runtime_config().eip712_salt,
    {
        CoordinatorConfigResponse {
            version: self.config().version,
            chain_id: mpc.chain_id,
            domain_id: mpc.domain_id,
            mpc_key_id: mpc.key_id,
            mpc_hpke_public_key: mpc.hpke_public_key,
            reader_key_algorithm: mpc.reader_key_algorithm,
            ciphertext_suite: mpc.ciphertext_suite,
            eip712_domain: self.eip712_domain(mpc.chain_id),
        }
    }

    // -----------------------------------------------------------------------
    // Reader registration
    // -----------------------------------------------------------------------

    /// Checks a registration before its signature: it has not expired, the
    /// path names the reader id of the key, and the nonce is unused.
    pub fn check_put_reader(&self, now: u64, path_reader_id: ReaderId, request: &PutReaderRequest) -> (res: Result<CheckedRegistration, CoordinatorError>)
        ensures
            failure(res) == put_reader_precheck(*self, now, path_reader_id, *request),
            res matches Ok(checked) ==> {
                &&& checked.checked_at() == now
                &&& checked.path_reader_id() == path_reader_id
                &&& checked.request() == *request
            },
    {
        if request.expiry < now {
            return Err(CoordinatorError::new(ErrorKind::Gone, "reader registration request expired"));
        }
        let derived_reader_id = reader_id(request.reader_pubkey);
        if !bytes_equal(&path_reader_id.0, &derived_reader_id.0) {
            proof {
                if path_reader_id.0@ == derived_reader_id.0@ {
                    assert(path_reader_id.0 =~= derived_reader_id.0);
                }
            }
            return Err(CoordinatorError::new(ErrorKind::Conflict, "reader_id path does not match reader_pubkey"));
        }
        match self.ensure_nonce_unused(request.controller, request.nonce) {
            Ok(()) => Ok(CheckedRegistration { now, reader_id: path_reader_id, request: *request }),
            Err(e) => Err(e),
        }
    }

    /// Checks the controller's signature over a checked registration under
    /// the domain of `chain_id`; on success, the request that registers the
    /// key with the MPC service, and the authenticated registration.
    pub fn authenticate_put_reader(&self, chain_id: u64, checked: CheckedRegistration) -> (res: Result<
        (MpcPutReaderRequest, AuthenticatedRegistration),
        CoordinatorError,
    >)
        ensures
            signature_result(
                res,
                check_signature(
                    signing_digest(
                        config_separator(self.runtime_config(), chain_id),
                        register_reader_struct_hash(registration_message(checked.path_reader_id(), checked.request())),
                    ),
                    checked.request().signature,
                    checked.request().controller,
                ),
            ),
            res matches Ok((mpc_request, authenticated)) ==> {
                &&& mpc_request == (MpcPutReaderRequest { reader_pubkey: checked.request().reader_pubkey })
                &&& authenticated.checked_at() == checked.checked_at()
                &&& authenticated.path_reader_id() == checked.path_reader_id()
                &&& authenticated.request() == checked.request()
                &&& authenticated.chain_id() == chain_id
                &&& authenticated.signed_under(self.runtime_config())
            },
    {
        proof {
            use_type_invariant(&checked);
        }
        let request = checked.request;
        let domain = self.eip712_domain(chain_id);
        let message = RegisterReader {
            controller: request.controller,
            reader_id: checked.reader_id,
            nonce: request.nonce,
            expiry: request.expiry,
        };
        match verify_register_reader_signature(&domain, &message, request.signature) {
            Ok(()) => Ok(
                (
                    MpcPutReaderRequest { reader_pubkey: request.reader_pubkey },
                    AuthenticatedRegistration {
                        now: checked.now,
                        reader_id: checked.reader_id,
                        request,
                        chain_id,
                    },
                ),
            ),
            Err(e) => Err(e),
        }
    }

    /// Records an authenticated registration once the MPC service holds the
    /// key: the reader belongs to the controller from the time of the checks
    /// until the request's expiry, and the nonce is consumed. Nothing is
    /// recorded without a registration authenticated under this coordinator's
    /// domain.
    pub fn commit_put_reader(&mut self, authenticated: AuthenticatedRegistration) -> (res: PutReaderResponse)
        requires
            authenticated.signed_under(old(self).runtime_config()),
        ensures
            final(self).readers() == old(self).readers().insert(
                authenticated.path_reader_id(),
                ReaderRegistration {
                    controller: authenticated.request().controller,
                    registered_at: authenticated.checked_at(),
                    expires_at: Some(authenticated.request().expiry),
                },
            ),
            final(self).used_nonces() == old(self).used_nonces().insert(
                (authenticated.request().controller, authenticated.request().nonce),
            ),
            final(self).keeps_nonces_of(old(self)),
            final(self).disclosures() == old(self).disclosures(),
            final(self).sequence() == old(self).sequence(),
            final(self).runtime_config() == old(self).runtime_config(),
            res == (PutReaderResponse {
                reader_id: authenticated.path_reader_id(),
                controller: authenticated.request().controller,
                registered_at: authenticated.checked_at(),
                expires_at: Some(authenticated.request().expiry),
            }),
    {
        let now = authenticated.now;
        let path_reader_id = authenticated.reader_id;
        let request = authenticated.request;
        let registration = ReaderRegistration {
            controller: request.controller,
            registered_at: now,
            expires_at: Some(request.expiry),
        };
        let _ = self.register_reader(path_reader_id, registration);
        let _ = self.mark_nonce_used(request.controller, request.nonce);
        PutReaderResponse {
            reader_id: path_reader_id,
            controller: request.controller,
            registered_at: now,
            expires_at: Some(request.expiry),
        }
    }

    // -----------------------------------------------------------------------
    // Disclosure requests
    // -----------------------------------------------------------------------

    /// Checks a timely disclosure request once its handle's controller is
    /// known: the nonce is unused, and the reader is registered, unexpired and
    /// bound to that controller.
    pub fn authorize_disclosure(&self, timely: TimelyDisclosure, controller: Address) -> (res: Result<
        AuthorizedDisclosure,
        CoordinatorError,
    >)
        ensures
            failure(res) == disclosure_authorization(*self, timely.checked_at(), timely.request(), controller),
            res matches Ok(authorized) ==> {
                &&& authorized.checked_at() == timely.checked_at()
                &&& authorized.request() == timely.request()
                &&& authorized.controller() == controller
                &&& authorized.reader_registration() == self.readers()[timely.request().reader_id]
            },
    {
        proof {
            use_type_invariant(&timely);
        }
        let now = timely.now;
        let request = timely.request;
        match self.ensure_nonce_unused(controller, request.nonce) {
            Ok(()) => {},
            Err(e) => return Err(e),
        }
        let registration = match self.reader_registration(request.reader_id) {
            Ok(registration) => registration,
            Err(e) => return Err(e),
        };
        if let Some(expires_at) = registration.expires_at {
            if expires_at < now {
                return Err(CoordinatorError::new(ErrorKind::Unprocessable, "reader registration expired"));
            }
        }
        if !bytes_equal(&registration.controller.0, &controller.0) {
            proof {
                if registration.controller.0@ == controller.0@ {
                    assert(registration.controller.0 =~= controller.0);
                }
            }
            return Err(CoordinatorError::new(ErrorKind::Conflict, "reader_id is registered to a different controller"));
        }
        proof {
            assert(registration.controller.0@ == controller.0@);
            assert(registration.controller.0 =~= controller.0);
        }
        Ok(AuthorizedDisclosure { now, request, controller, registration })
    }

    /// Checks the controller's signature over an authorized request under the
    /// domain of `chain_id`; on success assigns the request id and returns the
    /// request that asks the coprocessor to resolve the handle, with the
    /// signed request.
    pub fn begin_disclosure(&mut self, authorized: AuthorizedDisclosure, chain_id: u64) -> (res: Result<
        (ResolveHandleRequest, SignedDisclosure),
        CoordinatorError,
    >)
        ensures
            signature_result(
                res,
                check_signature(
                    signing_digest(
                        config_separator(old(self).runtime_config(), chain_id),
                        disclosure_struct_hash(disclosure_message(authorized.request())),
                    ),
                    authorized.request().signature,
                    authorized.controller(),
                ),
            ),
            final(self).readers() == old(self).readers(),
            final(self).used_nonces() == old(self).used_nonces(),
            final(self).keeps_nonces_of(old(self)),
            final(self).disclosures() == old(self).disclosures(),
            final(self).runtime_config() == old(self).runtime_config(),
            res is Err ==> final(self).sequence() == old(self).sequence(),
            res matches Ok((r, signed)) ==> {
                let request = authorized.request();
                &&& final(self).sequence() == old(self).sequence().wrapping_add(1)
                &&& r.request_id.0@ == keccak256_digest(
                    request_id_preimage(
                        old(self).sequence(),
                        request.contract,
                        request.handle_id,
                        request.reader_id,
                        request.nonce,
                    ),
                )
                &&& r.chain_id == chain_id
                &&& r.contract == request.contract
                &&& r.handle_id == request.handle_id
                &&& signed.checked_at() == authorized.checked_at()
                &&& signed.request() == request
                &&& signed.controller() == authorized.controller()
                &&& signed.reader_registration() == authorized.reader_registration()
                &&& signed.chain_id() == chain_id
                &&& signed.request_id() == r.request_id
                &&& signed.signed_under(old(self).runtime_config())
            },
    {
        proof {
            use_type_invariant(&authorized);
        }
        let request = authorized.request;
        let controller = authorized.controller;
        let domain = self.eip712_domain(chain_id);
        let message = DisclosureRequest {
            contract: request.contract,
            handle_id: request.handle_id,
            reader_id: request.reader_id,
            nonce: request.nonce,
            expiry: request.expiry,
        };
        match verify_disclosure_signature(&domain, controller, &message, request.signature) {
            Ok(()) => {},
            Err(e) => return Err(e),
        }
        let request_id = self.next_request_id(request.contract, request.handle_id, request.reader_id, request.nonce);
        Ok(
            (
                ResolveHandleRequest {
                    request_id,
                    chain_id,
                    contract: request.contract,
                    handle_id: request.handle_id,
                },
                SignedDisclosure {
                    now: authorized.now,
                    request,
                    controller,
                    registration: authorized.registration,
                    chain_id,
                    request_id,
                },
            ),
        )
    }

    /// Takes the coprocessor's resolution of a signed request's handle. A
    /// ready handle must still be re-encrypted for the reader (nothing is
    /// stored yet); a pending or failed one is recorded as such, the nonce is
    /// consumed, and the request is answered as pending.
    pub fn record_handle_resolution(&mut self, signed: &SignedDisclosure, resolution: ResolveHandleResponse) -> (res:
        NextStep<PostDisclosureResponse>)
        requires
            signed.signed_under(old(self).runtime_config()),
        ensures
            ({
                let request = signed.request();
                let controller = signed.controller();
                let chain_id = signed.chain_id();
                let request_id = signed.request_id();
                match resolution {
                    ResolveHandleResponse::Ready { system_ciphertext, .. } => {
                        &&& res == NextStep::<PostDisclosureResponse>::FetchReaderCiphertext(
                            ToReaderRequest {
                                request_id,
                                chain_id,
                                handle_id: request.handle_id,
                                reader_id: request.reader_id,
                                system_ciphertext,
                            },
                        )
                        &&& final(self).used_nonces() == old(self).used_nonces()
                        &&& final(self).disclosures() == old(self).disclosures()
                    },
                    ResolveHandleResponse::Pending => {
                        &&& res == NextStep::Respond(PostDisclosureResponse::Pending { request_id })
                        &&& final(self).used_nonces() == old(self).used_nonces().insert((controller, request.nonce))
                        &&& stored_as(
                            final(self).disclosures(),
                            old(self).disclosures(),
                            request_id,
                            record_view(request_id, request, controller, DisclosureStateView::Pending),
                        )
                    },
                    ResolveHandleResponse::Failed { reason } => {
                        &&& res == NextStep::Respond(PostDisclosureResponse::Pending { request_id })
                        &&& final(self).used_nonces() == old(self).used_nonces().insert((controller, request.nonce))
                        &&& stored_as(
                            final(self).disclosures(),
                            old(self).disclosures(),
                            request_id,
                            record_view(
                                request_id,
                                request,
                                controller,
                                DisclosureStateView::Failed { error: reason@ },
                            ),
                        )
                    },
                }
            }),
            final(self).keeps_nonces_of(old(self)),
            final(self).readers() == old(self).readers(),
            final(self).sequence() == old(self).sequence(),
            final(self).runtime_config() == old(self).runtime_config(),
    {
        let request = signed.request;
        let controller = signed.controller;
        let chain_id = signed.chain_id;
        let request_id = signed.request_id;
        let state = match resolution {
            ResolveHandleResponse::Ready { system_ciphertext, .. } => {
                return NextStep::FetchReaderCiphertext(ToReaderRequest {
                    request_id,
                    chain_id,
                    handle_id: request.handle_id,
                    reader_id: request.reader_id,
                    system_ciphertext,
                });
            },
            ResolveHandleResponse::Pending => DisclosureRecordState::Pending,
            ResolveHandleResponse::Failed { reason } => DisclosureRecordState::Failed { error: reason },
        };
        let record = DisclosureRecord {
            request_id,
            contract: request.contract,
            handle_id: request.handle_id,
            reader_id: request.reader_id,
            controller,
            expiry: request.expiry,
            state,
        };
        proof {
            lemma_insert_then_remove(self.disclosures(), request_id, record);
        }
        let _ = self.upsert_disclosure(record);
        let _ = self.mark_nonce_used(controller, request.nonce);
        NextStep::Respond(PostDisclosureResponse::Pending { request_id })
    }

    /// Takes the reader ciphertext from the MPC service for a signed request:
    /// the request is recorded as ready, the nonce is consumed, and the
    /// ciphertext is answered.
    pub fn complete_disclosure(&mut self, signed: SignedDisclosure, ciphertext: ReaderCiphertextV1) -> (res:
        PostDisclosureResponse)
        requires
            signed.signed_under(old(self).runtime_config()),
        ensures
            final(self).readers() == old(self).readers(),
            final(self).sequence() == old(self).sequence(),
            final(self).runtime_config() == old(self).runtime_config(),
            final(self).used_nonces() == old(self).used_nonces().insert((signed.controller(), signed.request().nonce)),
            final(self).keeps_nonces_of(old(self)),
            stored_as(
                final(self).disclosures(),
                old(self).disclosures(),
                signed.request_id(),
                record_view(
                    signed.request_id(),
                    signed.request(),
                    signed.controller(),
                    DisclosureStateView::Ready { ciphertext: ciphertext@ },
                ),
            ),
            res == (PostDisclosureResponse::Ready { request_id: signed.request_id(), ciphertext }),
    {
        let request = signed.request;
        let controller = signed.controller;
        let request_id = signed.request_id;
        let record = DisclosureRecord {
            request_id,
            contract: request.contract,
            handle_id: request.handle_id,
            reader_id: request.reader_id,
            controller,
            expiry: request.expiry,
            state: DisclosureRecordState::Ready { ciphertext: ciphertext.duplicate() },
        };
        proof {
            lemma_insert_then_remove(self.disclosures(), request_id, record);
        }
        let _ = self.upsert_disclosure(record);
        let _ = self.mark_nonce_used(controller, request.nonce);
        PostDisclosureResponse::Ready { request_id, ciphertext }
    }

    // -----------------------------------------------------------------------
    // Polling a disclosure
    // -----------------------------------------------------------------------

    /// Looks up a disclosure at time `now`. An overdue pending request is
    /// marked expired; a pending one in time must be refreshed from the
    /// coprocessor; any other is answered from the record, which stays as it is.
    pub fn begin_get_disclosure(&mut self, now: u64, request_id: RequestId) -> (res: Result<DisclosureLookup, CoordinatorError>)
        ensures
            final(self).keeps_nonces_of(old(self)),
            final(self).readers() == old(self).readers(),
            final(self).used_nonces() == old(self).used_nonces(),
            final(self).sequence() == old(self).sequence(),
            final(self).runtime_config() == old(self).runtime_config(),
            !old(self).disclosures().contains_key(request_id) ==> {
                &&& failure(res) == Some((ErrorKind::NotFound, "disclosure request not found"@))
                &&& final(self).disclosures() == old(self).disclosures()
            },
            old(self).disclosures().contains_key(request_id) ==> {
                let record = old(self).disclosures()[request_id]@;
                match poll_answer(record, now, request_id) {
                    Some(answer) => {
                        &&& res matches Ok(DisclosureLookup::Answered(response)) && response@ == answer
                        &&& if record.state is Pending {
                            stored_as(
                                final(self).disclosures(),
                                old(self).disclosures(),
                                request_id,
                                restated(record, DisclosureStateView::Expired),
                            )
                        } else {
                            final(self).disclosures() == old(self).disclosures()
                        }
                    },
                    None => {
                        &&& res matches Ok(DisclosureLookup::Refresh(copy)) && copy@ == record
                        &&& final(self).disclosures() == old(self).disclosures()
                    },
                }
            },
    {
        let record = match self.disclosure(request_id) {
            Ok(record) => record,
            Err(e) => return Err(e),
        };
        match &record.state {
            DisclosureRecordState::Pending => {
                if record.expiry < now {
                    let expired = record.with_state(DisclosureRecordState::Expired);
                    assert(expired@ == restated(record@, DisclosureStateView::Expired));
                    proof {
                        lemma_insert_then_remove(self.disclosures(), request_id, expired);
                    }
                    let _ = self.upsert_disclosure(expired);
                    return Ok(DisclosureLookup::Answered(GetDisclosureResponse::Expired { request_id }));
                }
                Ok(DisclosureLookup::Refresh(record))
            },
            DisclosureRecordState::Ready { ciphertext } => Ok(
                DisclosureLookup::Answered(
                    GetDisclosureResponse::Ready { request_id, ciphertext: ciphertext.duplicate() },
                ),
            ),
            DisclosureRecordState::Failed { error } => Ok(
                DisclosureLookup::Answered(GetDisclosureResponse::Failed { request_id, error: error.clone() }),
            ),
            DisclosureRecordState::Expired => Ok(
                DisclosureLookup::Answered(GetDisclosureResponse::Expired { request_id }),
            ),
        }
    }

    /// Takes the coprocessor's status of a pending record's handle. A pending
    /// handle is answered as pending; a failed one is recorded and answered as
    /// failed; a ready one must still be re-encrypted for the reader.
    pub fn record_handle_status(&mut self, record: DisclosureRecord, chain_id: u64, status: GetHandleResponse) -> (res: NextStep<GetDisclosureResponse>)
        ensures
            final(self).keeps_nonces_of(old(self)),
            final(self).readers() == old(self).readers(),
            final(self).used_nonces() == old(self).used_nonces(),
            final(self).sequence() == old(self).sequence(),
            final(self).runtime_config() == old(self).runtime_config(),
            match status {
                GetHandleResponse::Pending { .. } => {
                    &&& res == NextStep::Respond(GetDisclosureResponse::Pending { request_id: record.request_id })
                    &&& final(self).disclosures() == old(self).disclosures()
                },
                GetHandleResponse::Failed { error, .. } => {
                    &&& res == NextStep::Respond(
                        GetDisclosureResponse::Failed { request_id: record.request_id, error },
                    )
                    &&& stored_as(
                        final(self).disclosures(),
                        old(self).disclosures(),
                        record.request_id,
                        restated(record@, DisclosureStateView::Failed { error: error@ }),
                    )
                },
                GetHandleResponse::Ready { system_ciphertext, .. } => {
                    &&& res == NextStep::<GetDisclosureResponse>::FetchReaderCiphertext(
                        ToReaderRequest {
                            request_id: record.request_id,
                            chain_id,
                            handle_id: record.handle_id,
                            reader_id: record.reader_id,
                            system_ciphertext,
                        },
                    )
                    &&& final(self).disclosures() == old(self).disclosures()
                },
            },
    {
        match status {
            GetHandleResponse::Pending { .. } => NextStep::Respond(
                GetDisclosureResponse::Pending { request_id: record.request_id },
            ),
            GetHandleResponse::Ready { system_ciphertext, .. } => NextStep::FetchReaderCiphertext(
                ToReaderRequest {
                    request_id: record.request_id,
                    chain_id,
                    handle_id: record.handle_id,
                    reader_id: record.reader_id,
                    system_ciphertext,
                },
            ),
            GetHandleResponse::Failed { error, .. } => {
                let failed = record.with_state(DisclosureRecordState::Failed { error: error.clone() });
                proof {
                    lemma_insert_then_remove(self.disclosures(), record.request_id, failed);
                }
                let _ = self.upsert_disclosure(failed);
                NextStep::Respond(GetDisclosureResponse::Failed { request_id: record.request_id, error })
            },
        }
    }

    /// Takes the reader ciphertext for a refreshed record: the record becomes
    /// ready and the ciphertext is answered.
    pub fn complete_refresh(&mut self, record: DisclosureRecord, ciphertext: ReaderCiphertextV1) -> (res: GetDisclosureResponse)
        ensures
            final(self).keeps_nonces_of(old(self)),
            final(self).readers() == old(self).readers(),
            final(self).used_nonces() == old(self).used_nonces(),
            final(self).sequence() == old(self).sequence(),
            final(self).runtime_config() == old(self).runtime_config(),
            stored_as(
                final(self).disclosures(),
                old(self).disclosures(),
                record.request_id,
                restated(record@, DisclosureStateView::Ready { ciphertext: ciphertext@ }),
            ),
            res == (GetDisclosureResponse::Ready { request_id: record.request_id, ciphertext }),
    {
        let ready = record.with_state(DisclosureRecordState::Ready { ciphertext: ciphertext.duplicate() });
        proof {
            lemma_insert_then_remove(self.disclosures(), record.request_id, ready);
        }
        let _ = self.upsert_disclosure(ready);
        GetDisclosureResponse::Ready { request_id: record.request_id, ciphertext }
    }
}

// ---------------------------------------------------------------------------
// Laws
// ---------------------------------------------------------------------------

/// A reader registration whose (controller, nonce) pair has been consumed is
/// refused before its signature is looked at; when it is otherwise in order,
/// the refusal is the nonce conflict.
pub proof fn lemma_consumed_nonce_refuses_registration<C: Clock>(
    state: AppState<C>,
    now: u64,
    path_reader_id: ReaderId,
    request: PutReaderRequest,
)
    requires
        state.used_nonces().contains((request.controller, request.nonce)),
    ensures
        put_reader_precheck(state, now, path_reader_id, request) is Some,
        request.expiry >= now && path_reader_id.0@ == keccak256_digest(request.reader_pubkey.0@)
            ==> put_reader_precheck(state, now, path_reader_id, request) == Some(
            (ErrorKind::Conflict, "nonce already used for controller"@),
        ),
{
}

/// A disclosure request whose (controller, nonce) pair has been consumed is
/// refused with a conflict before its signature is looked at.
pub proof fn lemma_consumed_nonce_refuses_disclosure<C: Clock>(
    state: AppState<C>,
    now: u64,
    request: PostDisclosureRequest,
    controller: Address,
)
    requires
        state.used_nonces().contains((controller, request.nonce)),
    ensures
        disclosure_authorization(state, now, request, controller) == Some(
            (ErrorKind::Conflict, "nonce already used for controller"@),
        ),
{
}

/// Replaying a reader registration fails: once a registration is committed,
/// any registration with the same controller and nonce is refused, whatever
/// its other fields and whenever it arrives (in any later state that kept the
/// consumed nonces, as every operation does).
pub proof fn lemma_registration_replay_refused<C: Clock>(
    before: AppState<C>,
    after: AppState<C>,
    later: AppState<C>,
    committed: PutReaderRequest,
    now: u64,
    path_reader_id: ReaderId,
    replay: PutReaderRequest,
)
    requires
        after.used_nonces() == before.used_nonces().insert((committed.controller, committed.nonce)),
        later.keeps_nonces_of(&after),
        replay.controller == committed.controller,
        replay.nonce == committed.nonce,
    ensures
        put_reader_precheck(later, now, path_reader_id, replay) is Some,
{
    lemma_consumed_nonce_refuses_registration(later, now, path_reader_id, replay);
}

/// Replaying a disclosure request fails: once a request is recorded (pending,
/// failed or ready), any request by the same controller with the same nonce
/// is refused with a conflict, in any later state that kept the consumed
/// nonces (as every operation does).
pub proof fn lemma_disclosure_replay_refused<C: Clock>(
    before: AppState<C>,
    after: AppState<C>,
    later: AppState<C>,
    controller: Address,
    committed: PostDisclosureRequest,
    now: u64,
    replay: PostDisclosureRequest,
)
    requires
        after.used_nonces() == before.used_nonces().insert((controller, committed.nonce)),
        later.keeps_nonces_of(&after),
        replay.nonce == committed.nonce,
    ensures
        disclosure_authorization(later, now, replay, controller) == Some(
            (ErrorKind::Conflict, "nonce already used for controller"@),
        ),
{
    lemma_consumed_nonce_refuses_disclosure(later, now, replay, controller);
}

/// A reader registered by a controller may be disclosed to by that
/// controller, with any unused nonce, until the registration's expiry.
pub proof fn lemma_registered_reader_authorized<C: Clock>(
    before: AppState<C>,
    after: AppState<C>,
    registered_at: u64,
    path_reader_id: ReaderId,
    registration: PutReaderRequest,
    now: u64,
    request: PostDisclosureRequest,
)
    requires
        after.readers() == before.readers().insert(
            path_reader_id,
            ReaderRegistration {
                controller: registration.controller,
                registered_at,
                expires_at: Some(registration.expiry),
            },
        ),
        request.reader_id == path_reader_id,
        now <= registration.expiry,
        !after.used_nonces().contains((registration.controller, request.nonce)),
    ensures
        disclosure_authorization(after, now, request, registration.controller) is None,
{
}

/// A reader registered by one controller is refused to every other controller.
pub proof fn lemma_reader_bound_to_controller<C: Clock>(
    state: AppState<C>,
    now: u64,
    request: PostDisclosureRequest,
    controller: Address,
)
    requires
        state.readers().contains_key(request.reader_id),
        state.readers()[request.reader_id].controller != controller,
    ensures
        disclosure_authorization(state, now, request, controller) is Some,
{
}

/// Once a disclosure has expired, every later poll answers that it expired,
/// whatever the time.
pub proof fn lemma_expired_disclosure_stays_expired(record: DisclosureRecordView, now: u64, request_id: RequestId)
    requires
        record.state is Expired,
    ensures
        poll_answer(record, now, request_id) == Some(GetDisclosureView::Expired { request_id }),
{
}

/// A pending disclosure polled after its expiry is answered as expired and
/// recorded so: every later poll answers the same.
pub proof fn lemma_overdue_disclosure_expires(
    before: Map<RequestId, DisclosureRecord>,
    after: Map<RequestId, DisclosureRecord>,
    request_id: RequestId,
    now: u64,
    later: u64,
)
    requires
        before.contains_key(request_id),
        before[request_id]@.state is Pending,
        before[request_id]@.expiry < now,
        stored_as(after, before, request_id, restated(before[request_id]@, DisclosureStateView::Expired)),
    ensures
        poll_answer(before[request_id]@, now, request_id) == Some(GetDisclosureView::Expired { request_id }),
        poll_answer(after[request_id]@, later, request_id) == Some(GetDisclosureView::Expired { request_id }),
{
}

/// Ready and failed disclosures are final: polling answers them from the
/// record, whatever the time.
pub proof fn lemma_settled_disclosure_answered_from_record(record: DisclosureRecordView, now: u64, request_id: RequestId)
    requires
        record.state is Ready || record.state is Failed,
    ensures
        poll_answer(record, now, request_id) is Some,
        record.state matches DisclosureStateView::Ready { ciphertext } ==> poll_answer(record, now, request_id)
            == Some(GetDisclosureView::Ready { request_id, ciphertext }),
        record.state matches DisclosureStateView::Failed { error } ==> poll_answer(record, now, request_id)
            == Some(GetDisclosureView::Failed { request_id, error }),
{
}

} // verus!
