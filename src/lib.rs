//! Constraint submission and inclusion-proof verification for a block-building relay.
pub mod api;
pub mod proof_data;
pub mod proofs;
pub mod trace;
pub mod types;
