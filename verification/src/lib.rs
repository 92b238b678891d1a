//! Verified core of the disclosure coordinator: EIP-712 message hashing and
//! signature checks, the in-memory registries of readers, nonces and
//! disclosure requests, and the decision steps of each HTTP operation.

pub mod backends;
pub mod bytes;
pub mod clock;
pub mod codec;
pub mod eip712;
pub mod error;
pub mod keccak;
pub mod service;
pub mod state;
pub mod table;
pub mod types;
