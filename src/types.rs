use vstd::prelude::*;

use crate::proofs::Hash32;

verus! {

/// Length in bytes of a compressed BLS public key.
pub const BLS_PUBLIC_KEY_LEN: usize = 48;

/// Length in bytes of a BLS signature.
pub const BLS_SIGNATURE_LEN: usize = 96;

/// The most transactions that one constraints message may carry.
pub const MAX_CONSTRAINTS_PER_SLOT: usize = 256;

/// The largest transaction, in bytes, that the consensus layer admits.
pub const MAX_BYTES_PER_TRANSACTION: usize = 1073741824;

/// A validator's (or its delegate's) request that the given raw transactions
/// be included in the block of `slot`, at the top of it when `top` holds.
#[derive(Debug, Clone)]
pub struct ConstraintsMessage {
    pub validator_index: u64,
    pub slot: u64,
    pub top: bool,
    pub transactions: Vec<Vec<u8>>,
}

/// A constraints message with the BLS signature over its signing root.
#[derive(Debug, Clone)]
pub struct SignedConstraints {
    pub message: ConstraintsMessage,
    pub signature: [u8; BLS_SIGNATURE_LEN],
}

/// A constraints message together with, for each of its transactions in
/// order, the transaction hash and the transaction's hash-tree root.
#[derive(Debug, Clone)]
pub struct ConstraintsWithProofData {
    pub message: ConstraintsMessage,
    pub proof_data: Vec<(Hash32, Hash32)>,
}

/// Grants `pubkey` the right to submit constraints for `validator_index`.
#[derive(Debug, Clone)]
pub struct Delegation {
    pub validator_index: u64,
    pub pubkey: [u8; BLS_PUBLIC_KEY_LEN],
}

/// A delegation signed by the validator's key.
#[derive(Debug, Clone)]
pub struct SignedDelegation {
    pub message: Delegation,
    pub signature: [u8; BLS_SIGNATURE_LEN],
}

/// Withdraws from `pubkey` the right to submit constraints for `validator_index`.
#[derive(Debug, Clone)]
pub struct Revocation {
    pub validator_index: u64,
    pub pubkey: [u8; BLS_PUBLIC_KEY_LEN],
}

/// A revocation signed by the validator's key.
#[derive(Debug, Clone)]
pub struct SignedRevocation {
    pub message: Revocation,
    pub signature: [u8; BLS_SIGNATURE_LEN],
}

} // verus!
