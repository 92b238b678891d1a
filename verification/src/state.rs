use vstd::prelude::*;
use vstd::string::*;
use vstd::utf8::*;

use crate::bytes::append_bytes;
use crate::clock::Clock;
use crate::eip712::u64_be_byte;
use crate::error::{CoordinatorError, ErrorKind};
use crate::keccak::{keccak256, keccak256_digest};
use crate::table::Table;
use crate::types::{
    Address, Bytes32, Eip712Domain, HandleId, Nonce, ReaderCiphertextV1, ReaderCiphertextView,
    ReaderId, RequestId,
};

verus! {

/// Settings of a running coordinator that clients see.
#[derive(Clone, Debug)]
pub struct CoordinatorRuntimeConfig {
    pub version: u16,
    pub eip712_name: String,
    pub eip712_version: String,
    pub eip712_salt: Bytes32,
}

/// A registered reader: who controls it, when it was registered, and when
/// the registration lapses.
#[derive(Clone, Copy, Debug, PartialEq, Eq)]
pub struct ReaderRegistration {
    pub controller: Address,
    pub registered_at: u64,
    pub expires_at: Option<u64>,
}

/// A disclosure request the coordinator has accepted.
#[derive(Clone, Debug, PartialEq, Eq)]
pub struct DisclosureRecord {
    pub request_id: RequestId,
    pub contract: Address,
    pub handle_id: HandleId,
    pub reader_id: ReaderId,
    pub controller: Address,
    pub expiry: u64,
    pub state: DisclosureRecordState,
}

#[derive(Clone, Debug, PartialEq, Eq)]
pub enum DisclosureRecordState {
    Pending,
    Ready { ciphertext: ReaderCiphertextV1 },
    Failed { error: String },
    Expired,
}

/// The state of a disclosure, with payloads and text as sequences.
pub enum DisclosureStateView {
    Pending,
    Ready { ciphertext: ReaderCiphertextView },
    Failed { error: Seq<char> },
    Expired,
}

/// A disclosure record, with payloads and text as sequences.
pub struct DisclosureRecordView {
    pub request_id: RequestId,
    pub contract: Address,
    pub handle_id: HandleId,
    pub reader_id: ReaderId,
    pub controller: Address,
    pub expiry: u64,
    pub state: DisclosureStateView,
}

impl View for DisclosureRecordState {
    type V = DisclosureStateView;

    open spec fn view(&self) -> DisclosureStateView {
        match self {
            DisclosureRecordState::Pending => DisclosureStateView::Pending,
            DisclosureRecordState::Ready { ciphertext } => DisclosureStateView::Ready {
                ciphertext: ciphertext@,
            },
            DisclosureRecordState::Failed { error } => DisclosureStateView::Failed { error: error@ },
            DisclosureRecordState::Expired => DisclosureStateView::Expired,
        }
    }
}

impl View for DisclosureRecord {
    type V = DisclosureRecordView;

    open spec fn view(&self) -> DisclosureRecordView {
        DisclosureRecordView {
            request_id: self.request_id,
            contract: self.contract,
            handle_id: self.handle_id,
            reader_id: self.reader_id,
            controller: self.controller,
            expiry: self.expiry,
            state: self.state@,
        }
    }
}

impl DisclosureRecordState {
    /// A copy of the state.
    pub fn duplicate(&self) -> (res: DisclosureRecordState)
        ensures
            res@ == self@,
    {
        match self {
            DisclosureRecordState::Pending => DisclosureRecordState::Pending,
            DisclosureRecordState::Ready { ciphertext } => DisclosureRecordState::Ready {
                ciphertext: ciphertext.duplicate(),
            },
            DisclosureRecordState::Failed { error } => DisclosureRecordState::Failed {
                error: error.clone(),
            },
            DisclosureRecordState::Expired => DisclosureRecordState::Expired,
        }
    }
}

impl DisclosureRecord {
    /// A copy of the record.
    pub fn duplicate(&self) -> (res: DisclosureRecord)
        ensures
            res@ == self@,
    {
        self.with_state(self.state.duplicate())
    }

    /// The record with its state replaced.
    pub fn with_state(&self, state: DisclosureRecordState) -> (res: DisclosureRecord)
        ensures
            res.request_id == self.request_id,
            res.contract == self.contract,
            res.handle_id == self.handle_id,
            res.reader_id == self.reader_id,
            res.controller == self.controller,
            res.expiry == self.expiry,
            res.state == state,
    {
        DisclosureRecord {
            request_id: self.request_id,
            contract: self.contract,
            handle_id: self.handle_id,
            reader_id: self.reader_id,
            controller: self.controller,
            expiry: self.expiry,
            state,
        }
    }
}

pub const REQUEST_ID_TAG: &'static str = "coordinator-request-id-v1";

/// The big-endian encoding of `value`.
pub open spec fn u64_be(value: u64) -> Seq<u8> {
    Seq::new(8, |k: int| u64_be_byte(value, k))
}

/// The bytes hashed into the request id assigned for sequence number `sequence`.
pub open spec fn request_id_preimage(
    sequence: u64,
    contract: Address,
    handle_id: HandleId,
    reader_id: ReaderId,
    nonce: Nonce,
) -> Seq<u8> {
    encode_utf8(REQUEST_ID_TAG@) + u64_be(sequence) + contract.0@ + handle_id.0@ + reader_id.0@
        + nonce.0@
}

fn encode_u64_be(value: u64) -> (res: [u8; 8])
    ensures
        res@ == u64_be(value),
{
    let mut bytes = [0u8; 8];
    let mut k: usize = 0;
    while k < 8
        invariant
            k <= 8,
            bytes@.len() == 8,
            forall|i: int| 0 <= i < k ==> bytes@[i] == u64_be_byte(value, i),
        decreases 8 - k,
    {
        let byte: u8 = ((value >> ((8 * (7 - k)) as u64)) & 0xff) as u8;
        bytes.set(k, byte);
        k = k + 1;
    }
    assert(bytes@ =~= u64_be(value));
    bytes
}

/// The coordinator's registries: readers, used nonces and disclosures, with
/// the configuration, the clock, and the counter behind request ids.
pub struct AppState<C: Clock> {
    config: CoordinatorRuntimeConfig,
    clock: C,
    readers: Table<ReaderId, ReaderRegistration>,
    used_nonces: Table<(Address, Nonce), ()>,
    disclosures: Table<RequestId, DisclosureRecord>,
    request_sequence: u64,
}

impl<C: Clock> AppState<C> {
    #[verifier::type_invariant]
    spec fn tables_well_formed(&self) -> bool {
        &&& self.readers.wf()
        &&& self.used_nonces.wf()
        &&& self.disclosures.wf()
        &&& forall|id: RequestId| #[trigger] self.disclosures.map().contains_key(id)
            ==> self.disclosures.map()[id].request_id == id
    }

    /// The registered readers.
    pub closed spec fn readers(&self) -> Map<ReaderId, ReaderRegistration> {
        self.readers.map()
    }

    /// The (controller, nonce) pairs that have been consumed.
    pub closed spec fn used_nonces(&self) -> Set<(Address, Nonce)> {
        self.used_nonces.map().dom()
    }

    /// The disclosure requests, by request id.
    pub closed spec fn disclosures(&self) -> Map<RequestId, DisclosureRecord> {
        self.disclosures.map()
    }

    /// The sequence number that the next request id will use.
    pub closed spec fn sequence(&self) -> u64 {
        self.request_sequence
    }

    pub closed spec fn runtime_config(&self) -> CoordinatorRuntimeConfig {
        self.config
    }

    pub closed spec fn clock_value(&self) -> C {
        self.clock
    }

    /// Every (controller, nonce) pair consumed in `earlier` is still consumed here.
    pub open spec fn keeps_nonces_of(&self, earlier: &Self) -> bool {
        earlier.used_nonces().subset_of(self.used_nonces())
    }

    /// Everything but the readers is as in `other`.
    pub open spec fn same_but_readers(&self, other: &Self) -> bool {
        &&& self.used_nonces() == other.used_nonces()
        &&& self.disclosures() == other.disclosures()
        &&& self.sequence() == other.sequence()
        &&& self.runtime_config() == other.runtime_config()
    }

    /// Everything but the used nonces is as in `other`.
    pub open spec fn same_but_nonces(&self, other: &Self) -> bool {
        &&& self.readers() == other.readers()
        &&& self.disclosures() == other.disclosures()
        &&& self.sequence() == other.sequence()
        &&& self.runtime_config() == other.runtime_config()
    }

    /// Everything but the disclosures is as in `other`.
    pub open spec fn same_but_disclosures(&self, other: &Self) -> bool {
        &&& self.readers() == other.readers()
        &&& self.used_nonces() == other.used_nonces()
        &&& self.sequence() == other.sequence()
        &&& self.runtime_config() == other.runtime_config()
    }

    /// A coordinator with empty registries whose first request id uses sequence number 1.
    pub fn new(config: CoordinatorRuntimeConfig, clock: C) -> (res: Self)
        ensures
            res.readers() == Map::<ReaderId, ReaderRegistration>::empty(),
            res.used_nonces() == Set::<(Address, Nonce)>::empty(),
            res.disclosures() == Map::<RequestId, DisclosureRecord>::empty(),
            res.sequence() == 1,
            res.runtime_config() == config,
            res.clock_value() == clock,
    {
        let res = AppState {
            config,
            clock,
            readers: Table::new(),
            used_nonces: Table::new(),
            disclosures: Table::new(),
            request_sequence: 1,
        };
        assert(res.used_nonces.map().dom() =~= Set::<(Address, Nonce)>::empty());
        res
    }

    pub fn config(&self) -> (res: &CoordinatorRuntimeConfig)
        ensures
            *res == self.runtime_config(),
    {
        &self.config
    }

    /// The clock the coordinator reads.
    pub fn clock(&self) -> (res: &C)
        ensures
            *res == self.clock_value(),
    {
        &self.clock
    }

    /// Replaces the clock.
    pub fn set_clock(&mut self, clock: C)
        ensures
            final(self).keeps_nonces_of(old(self)),
            final(self).clock_value() == clock,
            final(self).readers() == old(self).readers(),
            final(self).used_nonces() == old(self).used_nonces(),
            final(self).disclosures() == old(self).disclosures(),
            final(self).sequence() == old(self).sequence(),
            final(self).runtime_config() == old(self).runtime_config(),
    {
        proof {
            use_type_invariant(&*self);
        }
        self.clock = clock;
    }

    /// The current time, as the clock reads it.
    pub fn now(&self) -> u64 {
        self.clock.now()
    }

    /// The EIP-712 domain for `chain_id`: the configured name, version and salt.
    pub fn eip712_domain(&self, chain_id: u64) -> (res: Eip712Domain)
        ensures
            res.name@ == self.runtime_config().eip712_name@,
            res.version@ == self.runtime_config().eip712_version@,
            res.chain_id == chain_id,
            res.salt == self.runtime_config().eip712_salt,
    {
        Eip712Domain {
            name: self.config.eip712_name.clone(),
            version: self.config.eip712_version.clone(),
            chain_id,
            salt: self.config.eip712_salt,
        }
    }

    /// Refuses a (controller, nonce) pair that has been consumed.
    pub fn ensure_nonce_unused(&self, controller: Address, nonce: Nonce) -> (res: Result<(), CoordinatorError>)
        ensures
            res is Ok <==> !self.used_nonces().contains((controller, nonce)),
            res matches Err(e) ==> e.kind() == ErrorKind::Conflict && e.message()
                == "nonce already used for controller"@,
    {
        proof {
            use_type_invariant(self);
        }
        if self.used_nonces.contains(&(controller, nonce)) {
            return Err(CoordinatorError::new(ErrorKind::Conflict, "nonce already used for controller"));
        }
        Ok(())
    }

    /// Consumes a (controller, nonce) pair.
    pub fn mark_nonce_used(&mut self, controller: Address, nonce: Nonce) -> (res: Result<(), CoordinatorError>)
        ensures
            final(self).keeps_nonces_of(old(self)),
            res is Ok,
            final(self).used_nonces() == old(self).used_nonces().insert((controller, nonce)),
            final(self).same_but_nonces(old(self)),
    {
        proof {
            use_type_invariant(&*self);
        }
        let mut used_nonces = Table::new();
        std::mem::swap(&mut used_nonces, &mut self.used_nonces);
        used_nonces.insert((controller, nonce), ());
        self.used_nonces = used_nonces;
        assert(self.used_nonces.map().dom() =~= old(self).used_nonces.map().dom().insert((controller, nonce)));
        Ok(())
    }

    /// Registers (or re-registers) a reader.
    pub fn register_reader(&mut self, reader_id: ReaderId, registration: ReaderRegistration) -> (res: Result<(), CoordinatorError>)
        ensures
            final(self).keeps_nonces_of(old(self)),
            res is Ok,
            final(self).readers() == old(self).readers().insert(reader_id, registration),
            final(self).same_but_readers(old(self)),
    {
        proof {
            use_type_invariant(&*self);
        }
        let mut readers = Table::new();
        std::mem::swap(&mut readers, &mut self.readers);
        readers.insert(reader_id, registration);
        self.readers = readers;
        Ok(())
    }

    /// The registration of a reader.
    pub fn reader_registration(&self, reader_id: ReaderId) -> (res: Result<ReaderRegistration, CoordinatorError>)
        ensures
            match res {
                Ok(registration) => self.readers().contains_key(reader_id) && registration
                    == self.readers()[reader_id],
                Err(e) => !self.readers().contains_key(reader_id) && e.kind()
                    == ErrorKind::Unprocessable && e.message() == "reader_id not registered"@,
            },
    {
        proof {
            use_type_invariant(self);
        }
        match self.readers.get(&reader_id) {
            Some(registration) => Ok(*registration),
            None => Err(CoordinatorError::new(ErrorKind::Unprocessable, "reader_id not registered")),
        }
    }

    /// The request id for the next disclosure: Keccak-256 of a fixed tag, the
    /// sequence number (big-endian) and the request's fields. The sequence
    /// number advances, wrapping around at `u64::MAX`.
    pub fn next_request_id(
        &mut self,
        contract: Address,
        handle_id: HandleId,
        reader_id: ReaderId,
        nonce: Nonce,
    ) -> (res: RequestId)
        ensures
            final(self).keeps_nonces_of(old(self)),
            res.0@ == keccak256_digest(
                request_id_preimage(old(self).sequence(), contract, handle_id, reader_id, nonce),
            ),
            final(self).sequence() == old(self).sequence().wrapping_add(1),
            final(self).readers() == old(self).readers(),
            final(self).used_nonces() == old(self).used_nonces(),
            final(self).disclosures() == old(self).disclosures(),
            final(self).runtime_config() == old(self).runtime_config(),
    {
        proof {
            use_type_invariant(&*self);
        }
        let sequence: u64 = self.request_sequence;
        self.request_sequence = sequence.wrapping_add(1);
        let mut preimage: Vec<u8> = Vec::new();
        append_bytes(&mut preimage, REQUEST_ID_TAG.as_bytes());
        append_bytes(&mut preimage, &encode_u64_be(sequence));
        append_bytes(&mut preimage, &contract.0);
        append_bytes(&mut preimage, &handle_id.0);
        append_bytes(&mut preimage, &reader_id.0);
        append_bytes(&mut preimage, &nonce.0);
        RequestId(keccak256(preimage.as_slice()))
    }

    /// Stores a disclosure record under its request id, replacing any earlier one.
    pub fn upsert_disclosure(&mut self, disclosure: DisclosureRecord) -> (res: Result<(), CoordinatorError>)
        ensures
            final(self).keeps_nonces_of(old(self)),
            res is Ok,
            final(self).disclosures() == old(self).disclosures().insert(disclosure.request_id, disclosure),
            final(self).same_but_disclosures(old(self)),
    {
        proof {
            use_type_invariant(&*self);
        }
        let request_id = disclosure.request_id;
        let mut disclosures = Table::new();
        std::mem::swap(&mut disclosures, &mut self.disclosures);
        disclosures.insert(request_id, disclosure);
        self.disclosures = disclosures;
        Ok(())
    }

    /// A copy of the disclosure record with the given request id.
    pub fn disclosure(&self, request_id: RequestId) -> (res: Result<DisclosureRecord, CoordinatorError>)
        ensures
            match res {
                Ok(record) => self.disclosures().contains_key(request_id) && record@
                    == self.disclosures()[request_id]@ && record.request_id == request_id,
                Err(e) => !self.disclosures().contains_key(request_id) && e.kind()
                    == ErrorKind::NotFound && e.message() == "disclosure request not found"@,
            },
    {
        proof {
            use_type_invariant(self);
        }
        match self.disclosures.get(&request_id) {
            Some(record) => Ok(record.duplicate()),
            None => Err(CoordinatorError::new(ErrorKind::NotFound, "disclosure request not found")),
        }
    }
}

/// A reader registration reads back as it was stored.
pub proof fn lemma_registration_read_back<C: Clock>(
    before: AppState<C>,
    after: AppState<C>,
    reader_id: ReaderId,
    registration: ReaderRegistration,
)
    requires
        after.readers() == before.readers().insert(reader_id, registration),
    ensures
        after.readers().contains_key(reader_id),
        after.readers()[reader_id] == registration,
{
}

/// A disclosure record reads back as it was stored.
pub proof fn lemma_disclosure_read_back<C: Clock>(
    before: AppState<C>,
    after: AppState<C>,
    disclosure: DisclosureRecord,
)
    requires
        after.disclosures() == before.disclosures().insert(disclosure.request_id, disclosure),
    ensures
        after.disclosures().contains_key(disclosure.request_id),
        after.disclosures()[disclosure.request_id]@ == disclosure@,
{
}

/// A consumed nonce stays consumed: along any run of states in which each
/// state keeps the consumed pairs of the one before (as every `&mut` method
/// of `AppState` ensures), a pair consumed in one state is consumed in every
/// later one, so it is refused from then on.
pub proof fn lemma_consumed_nonce_stays_consumed<C: Clock>(
    states: Seq<AppState<C>>,
    controller: Address,
    nonce: Nonce,
    consumed_at: int,
)
    requires
        forall|k: int| 0 < k < states.len() ==> #[trigger] states[k].keeps_nonces_of(&states[k - 1]),
        0 <= consumed_at < states.len(),
        states[consumed_at].used_nonces().contains((controller, nonce)),
    ensures
        forall|later: int|
            consumed_at <= later < states.len() ==> #[trigger] states[later].used_nonces().contains(
                (controller, nonce),
            ),
{
    assert forall|later: int| consumed_at <= later < states.len() implies #[trigger] states[later].used_nonces().contains(
        (controller, nonce),
    ) by {
        lemma_consumed_through(states, controller, nonce, consumed_at, later);
    }
}

proof fn lemma_consumed_through<C: Clock>(
    states: Seq<AppState<C>>,
    controller: Address,
    nonce: Nonce,
    consumed_at: int,
    later: int,
)
    requires
        forall|k: int| 0 < k < states.len() ==> #[trigger] states[k].keeps_nonces_of(&states[k - 1]),
        0 <= consumed_at <= later < states.len(),
        states[consumed_at].used_nonces().contains((controller, nonce)),
    ensures
        states[later].used_nonces().contains((controller, nonce)),
    decreases later - consumed_at,
{
    if later > consumed_at {
        lemma_consumed_through(states, controller, nonce, consumed_at, later - 1);
        assert(states[later].keeps_nonces_of(&states[later - 1]));
    }
}

/// Consuming a pair that is already consumed changes nothing: a second
/// identical `mark_nonce_used` leaves the state's registries as they were.
pub proof fn lemma_mark_nonce_used_idempotent<C: Clock>(
    before: AppState<C>,
    after: AppState<C>,
    controller: Address,
    nonce: Nonce,
)
    requires
        before.used_nonces().contains((controller, nonce)),
        after.used_nonces() == before.used_nonces().insert((controller, nonce)),
        after.same_but_nonces(&before),
    ensures
        after.used_nonces() == before.used_nonces(),
        after.readers() == before.readers(),
        after.disclosures() == before.disclosures(),
{
    assert(before.used_nonces().insert((controller, nonce)) =~= before.used_nonces());
}

} // verus!
