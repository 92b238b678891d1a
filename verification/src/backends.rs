//! The parts of the backend clients that decide something: how a failed
//! backend response is reported, and the in-memory table of handle controllers.

use std::sync::Arc;
use vstd::prelude::*;
use vstd::rwlock::{RwLock, RwLockPredicate};
use vstd::string::*;

use crate::bytes::append_bytes;
use crate::codec::{decimal_digits, decimal_text};
use crate::eip712::keccak_of_text;
use crate::error::{CoordinatorError, ErrorKind};
use crate::keccak::keccak256;
use crate::table::Table;
use crate::types::{Address, HandleId};

verus! {

/// The kind of error with which a backend's HTTP status is reported.
pub open spec fn backend_error_kind(status: u16) -> ErrorKind {
    if status == 400 {
        ErrorKind::BadRequest
    } else if status == 401 {
        ErrorKind::Unauthorized
    } else if status == 403 {
        ErrorKind::Forbidden
    } else if status == 404 {
        ErrorKind::NotFound
    } else if status == 409 {
        ErrorKind::Conflict
    } else if status == 410 {
        ErrorKind::Gone
    } else if status == 422 {
        ErrorKind::Unprocessable
    } else {
        ErrorKind::Unavailable
    }
}

/// The message reporting a backend's HTTP status and response body.
pub open spec fn backend_error_message(status: u16, body: Seq<char>) -> Seq<char> {
    if body.len() == 0 {
        "backend returned HTTP "@ + decimal_digits(status as nat)
    } else {
        "backend returned HTTP "@ + decimal_digits(status as nat) + ": "@ + body
    }
}

/// The error for a backend response with an unsuccessful status: the status
/// picks the kind, and the message quotes the status and any body.
pub fn backend_failure(status: u16, body: String) -> (res: CoordinatorError)
    ensures
        res.kind() == backend_error_kind(status),
        res.message() == backend_error_message(status, body@),
{
    let mut message = String::from_str("backend returned HTTP ").concat(decimal_text(status as u64).as_str());
    if !body.as_str().is_empty() {
        message = message.concat(": ").concat(body.as_str());
    }
    let kind = if status == 400 {
        ErrorKind::BadRequest
    } else if status == 401 {
        ErrorKind::Unauthorized
    } else if status == 403 {
        ErrorKind::Forbidden
    } else if status == 404 {
        ErrorKind::NotFound
    } else if status == 409 {
        ErrorKind::Conflict
    } else if status == 410 {
        ErrorKind::Gone
    } else if status == 422 {
        ErrorKind::Unprocessable
    } else {
        ErrorKind::Unavailable
    };
    CoordinatorError::with_message(kind, message)
}

/// Which address controls each (contract, handle) pair: one table, owned by
/// whoever holds it.
pub struct ControllerTable {
    controllers: Table<(Address, HandleId), Address>,
}

impl ControllerTable {
    #[verifier::type_invariant]
    spec fn well_formed(&self) -> bool {
        self.controllers.wf()
    }

    /// The controller bound to each (contract, handle) pair.
    pub closed spec fn bindings(&self) -> Map<(Address, HandleId), Address> {
        self.controllers.map()
    }

    pub fn new() -> (res: ControllerTable)
        ensures
            res.bindings() == Map::<(Address, HandleId), Address>::empty(),
    {
        ControllerTable { controllers: Table::new() }
    }

    /// Binds a handle of a contract to its controller, replacing any earlier binding.
    pub fn bind_controller(&mut self, contract: Address, handle_id: HandleId, controller: Address)
        ensures
            final(self).bindings() == old(self).bindings().insert((contract, handle_id), controller),
    {
        proof {
            use_type_invariant(&*self);
        }
        let mut controllers = Table::new();
        std::mem::swap(&mut controllers, &mut self.controllers);
        controllers.insert((contract, handle_id), controller);
        self.controllers = controllers;
    }

    /// The controller of a handle of a contract.
    pub fn resolve_controller(&self, contract: Address, handle_id: HandleId) -> (res: Result<Address, CoordinatorError>)
        ensures
            match res {
                Ok(controller) => self.bindings().contains_key((contract, handle_id)) && controller
                    == self.bindings()[(contract, handle_id)],
                Err(e) => !self.bindings().contains_key((contract, handle_id)) && e.kind()
                    == ErrorKind::NotFound && e.message() == "handle controller not found"@,
            },
    {
        proof {
            use_type_invariant(self);
        }
        match self.controllers.get(&(contract, handle_id)) {
            Some(controller) => Ok(*controller),
            None => Err(CoordinatorError::new(ErrorKind::NotFound, "handle controller not found")),
        }
    }
}

/// Every controller table may stand in the lock: the table keeps its own invariant.
pub struct AnyControllerTable;

impl RwLockPredicate<ControllerTable> for AnyControllerTable {
    open spec fn inv(self, table: ControllerTable) -> bool {
        true
    }
}

/// A controller table shared between handles: clones see one table, so a
/// binding made through one handle is resolved through every other.
///
/// Since any handle may bind at any moment, what a resolution returns is not
/// stated beyond its error; the table's own contracts (`ControllerTable`) say
/// exactly what a binding does and what a lookup finds.
#[derive(Clone)]
pub struct InMemoryAuthorizationBackend {
    controllers: Arc<RwLock<ControllerTable, AnyControllerTable>>,
}

impl InMemoryAuthorizationBackend {
    /// A handle on a new, empty table.
    pub fn new() -> InMemoryAuthorizationBackend {
        InMemoryAuthorizationBackend {
            controllers: Arc::new(RwLock::new(ControllerTable::new(), Ghost(AnyControllerTable))),
        }
    }

    /// Binds a handle of a contract to its controller in the shared table,
    /// replacing any earlier binding.
    pub fn bind_controller(&self, contract: Address, handle_id: HandleId, controller: Address) {
        let (mut table, write_handle) = self.controllers.acquire_write();
        table.bind_controller(contract, handle_id, controller);
        write_handle.release_write(table);
    }

    /// The controller of a handle of a contract, as the shared table holds it
    /// now; `NotFound` when it holds none.
    pub fn resolve_controller(&self, contract: Address, handle_id: HandleId) -> (res: Result<Address, CoordinatorError>)
        ensures
            res matches Err(e) ==> e.kind() == ErrorKind::NotFound && e.message() == "handle controller not found"@,
    {
        let read_handle = self.controllers.acquire_read();
        let res = read_handle.borrow().resolve_controller(contract, handle_id);
        read_handle.release_read();
        res
    }
}

impl Default for InMemoryAuthorizationBackend {
    fn default() -> InMemoryAuthorizationBackend {
        InMemoryAuthorizationBackend::new()
    }
}

/// The Solidity function a contract exposes to name the controller of a handle.
pub const DISCLOSURE_CONTROLLER_FUNCTION: &'static str = "disclosureController(bytes32)";

/// The ABI call data of `disclosureController(handle_id)`: the function's
/// 4-byte selector, then the handle id.
pub open spec fn disclosure_controller_calldata(handle_id: HandleId) -> Seq<u8> {
    keccak_of_text(DISCLOSURE_CONTROLLER_FUNCTION@).subrange(0, 4) + handle_id.0@
}

/// The call data that asks a contract for the controller of `handle_id`.
pub fn disclosure_controller_call(handle_id: HandleId) -> (res: Vec<u8>)
    ensures
        res@ == disclosure_controller_calldata(handle_id),
{
    let hash = keccak256(DISCLOSURE_CONTROLLER_FUNCTION.as_bytes());
    let mut data: Vec<u8> = Vec::with_capacity(36);
    data.push(hash[0]);
    data.push(hash[1]);
    data.push(hash[2]);
    data.push(hash[3]);
    append_bytes(&mut data, &handle_id.0);
    assert(data@ =~= keccak_of_text(DISCLOSURE_CONTROLLER_FUNCTION@).subrange(0, 4) + handle_id.0@);
    data
}

/// What the 32-byte ABI word returned by `disclosureController` means: the
/// address in its low 20 bytes, where the zero address means the handle has
/// no controller and the disclosure is not authorized.
pub open spec fn controller_from_word(word: Seq<u8>) -> Result<Seq<u8>, (ErrorKind, Seq<char>)> {
    if word.len() != 32 {
        Err((ErrorKind::Unavailable, "malformed disclosureController result"@))
    } else if forall|i: int| 12 <= i < 32 ==> word[i] == 0 {
        Err((ErrorKind::Forbidden, "disclosure controller is the zero address"@))
    } else {
        Ok(word.subrange(12, 32))
    }
}

/// The controller that a `disclosureController` result word names is the
/// word's low twenty bytes, in order; a word whose low twenty bytes are all
/// zero names none, and is refused as the zero address.
pub proof fn lemma_controller_is_low_twenty_bytes(word: Seq<u8>)
    requires
        word.len() == 32,
    ensures
        (exists|i: int| 12 <= i < 32 && word[i] != 0) ==> controller_from_word(word) == Ok::<
            Seq<u8>,
            (ErrorKind, Seq<char>),
        >(word.subrange(12, 32)),
        (forall|i: int| 12 <= i < 32 ==> word[i] == 0) ==> controller_from_word(word) == Err::<
            Seq<u8>,
            (ErrorKind, Seq<char>),
        >((ErrorKind::Forbidden, "disclosure controller is the zero address"@)),
{
}

/// Reads the controller out of the result of a `disclosureController` call.
pub fn controller_from_call_result(result: &[u8]) -> (res: Result<Address, CoordinatorError>)
    ensures
        match controller_from_word(result@) {
            Ok(address) => res matches Ok(a) && a.0@ == address,
            Err((kind, message)) => res matches Err(e) && e.kind() == kind && e.message() == message,
        },
        res is Ok <==> result@.len() == 32 && exists|i: int| 12 <= i < 32 && result@[i] != 0,
        res matches Ok(a) ==> a.0@ == result@.subrange(12, 32),
{
    if result.len() != 32 {
        return Err(CoordinatorError::new(ErrorKind::Unavailable, "malformed disclosureController result"));
    }
    let mut address = [0u8; 20];
    let mut nonzero = false;
    let mut k: usize = 0;
    while k < 20
        invariant
            k <= 20,
            address@.len() == 20,
            result@.len() == 32,
            forall|i: int| 0 <= i < k ==> address@[i] == result@[i + 12],
            nonzero <==> exists|i: int| 12 <= i < 12 + k && result@[i] != 0,
        decreases 20 - k,
    {
        let byte: u8 = result[12 + k];
        address.set(k, byte);
        if byte != 0 {
            nonzero = true;
        }
        k = k + 1;
    }
    if !nonzero {
        return Err(CoordinatorError::new(ErrorKind::Forbidden, "disclosure controller is the zero address"));
    }
    assert(address@ =~= result@.subrange(12, 32));
    Ok(Address(address))
}

} // verus!
