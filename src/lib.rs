//! Deployment bookkeeping for contract artifacts: a local store of addresses
//! and code identifiers, code references with their checksums, extraction of
//! identifiers from transaction responses, and the reconciliation rules that
//! decide whether an upload or a migration is needed.

pub mod block;
pub mod code_reference;
pub mod contract;
pub mod error;
pub mod laws;
pub mod manifest;
pub mod response;
pub mod state;
pub mod text;
