use vstd::prelude::*;

use crate::proofs::{Hash32, ProofError};
use crate::types::{
    ConstraintsMessage, ConstraintsWithProofData, MAX_BYTES_PER_TRANSACTION,
    MAX_CONSTRAINTS_PER_SLOT,
};

verus! {

/// The Keccak-256 digest of a byte string.
pub uninterp spec fn keccak_of(data: Seq<u8>) -> Seq<u8>;

/// The root of the SSZ Merkle tree over the 32-byte chunks of `bytes`, the
/// tree padded with zero chunks to at least `minimum_leaf_count` leaves.
pub uninterp spec fn merkle_root_of(bytes: Seq<u8>, minimum_leaf_count: nat) -> Seq<u8>;

/// The SSZ node that mixes a list's length into its contents' root.
pub uninterp spec fn length_mixed_of(root: Seq<u8>, length: nat) -> Seq<u8>;

/// Relies on alloy_primitives::keccak256: the Keccak-256 digest of the bytes,
/// which depends on the bytes alone.
#[verifier::external_body]
fn keccak256(data: &Vec<u8>) -> (r: Hash32)
    ensures
        r@ == keccak_of(data@),
{
    alloy_primitives::keccak256(data.as_slice()).0
}

/// Relies on tree_hash::merkle_root: the SSZ root of the zero-padded chunks of
/// `bytes`, which depends on its arguments alone. The bounds keep the tree's
/// depth where its hasher neither overflows nor runs out of zero hashes.
#[verifier::external_body]
fn merkle_root(bytes: &Vec<u8>, minimum_leaf_count: usize) -> (r: Hash32)
    requires
        bytes@.len() <= MAX_BYTES_PER_TRANSACTION,
        minimum_leaf_count <= TRANSACTION_CHUNKS,
    ensures
        r@ == merkle_root_of(bytes@, minimum_leaf_count as nat),
{
    tree_hash::merkle_root(bytes.as_slice(), minimum_leaf_count).0
}

/// Relies on tree_hash::mix_in_length: the hash of `root` with the
/// little-endian length, which depends on its arguments alone.
#[verifier::external_body]
fn mix_in_length(root: &Hash32, length: usize) -> (r: Hash32)
    ensures
        r@ == length_mixed_of(root@, length as nat),
{
    tree_hash::mix_in_length(&alloy_primitives::B256::from(*root), length).0
}

/// Number of 32-byte chunks in the largest transaction.
pub const TRANSACTION_CHUNKS: usize = 33554432;

/// The hash-tree root of a transaction, an SSZ byte list bounded by
/// `MAX_BYTES_PER_TRANSACTION`.
pub open spec fn transaction_root_spec(tx: Seq<u8>) -> Seq<u8> {
    length_mixed_of(merkle_root_of(tx, TRANSACTION_CHUNKS as nat), tx.len())
}

/// Why no proof data can be derived for a message, if it cannot: too many
/// transactions, else a transaction that is too large.
pub open spec fn proof_data_error(m: ConstraintsMessage) -> Option<ProofError> {
    if m.transactions@.len() > MAX_CONSTRAINTS_PER_SLOT {
        Some(ProofError::TooManyTransactions)
    } else if exists|i: int|
        0 <= i < m.transactions@.len() && #[trigger] m.transactions@[i]@.len()
            > MAX_BYTES_PER_TRANSACTION {
        Some(ProofError::TransactionTooLarge)
    } else {
        None
    }
}

/// A message that the relay accepts for storage: not too many transactions,
/// none of them too large.
pub open spec fn message_within_limits(m: ConstraintsMessage) -> bool {
    &&& m.transactions@.len() <= MAX_CONSTRAINTS_PER_SLOT
    &&& forall|i: int|
        0 <= i < m.transactions@.len() ==> #[trigger] m.transactions@[i]@.len()
            <= MAX_BYTES_PER_TRANSACTION
}

/// `pairs` holds, for each transaction of `m` in order, its hash and its
/// hash-tree root.
pub open spec fn proof_data_of(m: ConstraintsMessage, pairs: Seq<(Hash32, Hash32)>) -> bool {
    &&& pairs.len() == m.transactions@.len()
    &&& forall|i: int|
        0 <= i < pairs.len() ==> {
            &&& (#[trigger] pairs[i]).0@ == keccak_of(m.transactions@[i]@)
            &&& pairs[i].1@ == transaction_root_spec(m.transactions@[i]@)
        }
}

/// Returns the hash-tree root of a transaction.
pub fn transaction_root(tx: &Vec<u8>) -> (r: Hash32)
    requires
        tx@.len() <= MAX_BYTES_PER_TRANSACTION,
    ensures
        r@ == transaction_root_spec(tx@),
{
    let contents = merkle_root(tx, TRANSACTION_CHUNKS);
    mix_in_length(&contents, tx.len())
}

impl ConstraintsWithProofData {
    /// Pairs each transaction of the message with its hash and hash-tree
    /// root. Fails with `TooManyTransactions` when the message holds too many
    /// transactions, else with `TransactionTooLarge` when one of them is too
    /// large.
    pub fn from_message(message: ConstraintsMessage) -> (r: Result<
        ConstraintsWithProofData,
        ProofError,
    >)
        ensures
            message_within_limits(message) <==> proof_data_error(message) is None,
            match proof_data_error(message) {
                Some(e) => r == Err::<ConstraintsWithProofData, ProofError>(e),
                None => r matches Ok(c) && c.message == message && proof_data_of(
                    message,
                    c.proof_data@,
                ),
            },
    {
        let txs = &message.transactions;
        if txs.len() > MAX_CONSTRAINTS_PER_SLOT {
            return Err(ProofError::TooManyTransactions);
        }
        let mut proof_data: Vec<(Hash32, Hash32)> = Vec::with_capacity(txs.len());
        let mut i: usize = 0;
        while i < txs.len()
            invariant
                0 <= i <= txs@.len(),
                txs == &message.transactions,
                txs@.len() <= MAX_CONSTRAINTS_PER_SLOT,
                proof_data@.len() == i,
                forall|j: int|
                    0 <= j < i ==> #[trigger] txs@[j]@.len() <= MAX_BYTES_PER_TRANSACTION,
                forall|j: int|
                    0 <= j < i ==> {
                        &&& (#[trigger] proof_data@[j]).0@ == keccak_of(txs@[j]@)
                        &&& proof_data@[j].1@ == transaction_root_spec(txs@[j]@)
                    },
            decreases txs@.len() - i,
        {
            let tx = &txs[i];
            if tx.len() > MAX_BYTES_PER_TRANSACTION {
                assert(txs@[i as int]@.len() > MAX_BYTES_PER_TRANSACTION);
                return Err(ProofError::TransactionTooLarge);
            }
            let pair = (keccak256(tx), transaction_root(tx));
            proof_data.push(pair);
            i += 1;
        }
        Ok(ConstraintsWithProofData { message, proof_data })
    }
}

} // verus!
