use vstd::prelude::*;

use crate::types::ConstraintsWithProofData;

verus! {

/// A 32-byte hash: a transaction hash, a hash-tree root or a Merkle node.
pub type Hash32 = [u8; 32];

/// Returns whether two hashes hold the same bytes.
pub fn hash_eq(a: &Hash32, b: &Hash32) -> (r: bool)
    ensures
        r == (*a == *b),
{
    let mut i: usize = 0;
    while i < 32
        invariant
            0 <= i <= 32,
            forall|j: int| 0 <= j < i ==> a@[j] == b@[j],
        decreases 32 - i,
    {
        if a[i] != b[i] {
            assert(a@[i as int] != b@[i as int]);
            return false;
        }
        i += 1;
    }
    assert(*a =~= *b);
    true
}

} // verus!

verus! {

/// A builder's claim that the given transactions sit at the given generalized
/// indices of a transactions tree, with the sibling hashes that prove it.
#[derive(Debug, Clone)]
pub struct InclusionProofs {
    pub transaction_hashes: Vec<Hash32>,
    pub generalized_indexes: Vec<usize>,
    pub merkle_hashes: Vec<Hash32>,
}

/// Why an inclusion proof was not accepted.
#[derive(Debug, Clone, PartialEq, Eq)]
pub enum ProofError {
    /// The claimed hashes and the generalized indices differ in number.
    LengthMismatch,
    /// The stored constraints hold another number of leaves than the proof claims.
    LeavesMismatch,
    /// No stored constraint holds this transaction hash.
    MissingHash(Hash32),
    /// A constraints message holds more transactions than one slot admits,
    /// so no proof data is derived for it.
    TooManyTransactions,
    /// A transaction is larger than the consensus layer admits, so it has no
    /// hash-tree root.
    TransactionTooLarge,
    /// The leaves and sibling hashes do not rebuild the transactions root.
    VerificationFailed,
}

impl InclusionProofs {
    /// Returns the number of leaves that the proof claims.
    pub fn total_leaves(&self) -> (r: usize)
        ensures
            r == self.transaction_hashes@.len(),
    {
        self.transaction_hashes.len()
    }
}

/// The number of (hash, root) pairs over all the records.
pub open spec fn total_leaves_spec(cs: Seq<ConstraintsWithProofData>) -> nat
    decreases cs.len(),
{
    if cs.len() == 0 {
        0
    } else {
        total_leaves_spec(cs.drop_last()) + cs.last().proof_data@.len()
    }
}

/// The root paired with the first occurrence of `h` among `pairs`.
pub open spec fn find_in_pairs(pairs: Seq<(Hash32, Hash32)>, h: Hash32) -> Option<Hash32>
    decreases pairs.len(),
{
    if pairs.len() == 0 {
        None
    } else {
        match find_in_pairs(pairs.drop_last(), h) {
            Some(r) => Some(r),
            None => if pairs.last().0 == h {
                Some(pairs.last().1)
            } else {
                None
            },
        }
    }
}

/// The root paired with the first occurrence of `h`, scanning the records in
/// order and the pairs of each record in order.
pub open spec fn find_in(cs: Seq<ConstraintsWithProofData>, h: Hash32) -> Option<Hash32>
    decreases cs.len(),
{
    if cs.len() == 0 {
        None
    } else {
        match find_in(cs.drop_last(), h) {
            Some(r) => Some(r),
            None => find_in_pairs(cs.last().proof_data@, h),
        }
    }
}

/// The roots found for the claimed hashes, in order, or the first claimed
/// hash that no record holds.
pub open spec fn leaves_spec(cs: Seq<ConstraintsWithProofData>, hs: Seq<Hash32>) -> Result<
    Seq<Hash32>,
    Hash32,
>
    decreases hs.len(),
{
    if hs.len() == 0 {
        Ok(Seq::empty())
    } else {
        match leaves_spec(cs, hs.drop_last()) {
            Err(h) => Err(h),
            Ok(ls) => match find_in(cs, hs.last()) {
                Some(r) => Ok(ls.push(r)),
                None => Err(hs.last()),
            },
        }
    }
}

/// The leaves to verify for a proof request, or the structural error that
/// stops it before any hashing.
pub open spec fn resolve_spec(cs: Seq<ConstraintsWithProofData>, p: InclusionProofs) -> Result<
    Seq<Hash32>,
    ProofError,
> {
    if p.transaction_hashes@.len() != p.generalized_indexes@.len() {
        Err(ProofError::LengthMismatch)
    } else if total_leaves_spec(cs) != p.transaction_hashes@.len() {
        Err(ProofError::LeavesMismatch)
    } else {
        match leaves_spec(cs, p.transaction_hashes@) {
            Ok(ls) => Ok(ls),
            Err(h) => Err(ProofError::MissingHash(h)),
        }
    }
}

proof fn lemma_total_leaves_prefix(cs: Seq<ConstraintsWithProofData>, i: int)
    requires
        0 <= i <= cs.len(),
    ensures
        total_leaves_spec(cs.take(i)) <= total_leaves_spec(cs),
    decreases cs.len(),
{
    if i < cs.len() {
        assert(cs.drop_last().take(i) =~= cs.take(i));
        lemma_total_leaves_prefix(cs.drop_last(), i);
    } else {
        assert(cs.take(i) =~= cs);
    }
}

proof fn lemma_find_in_pairs_prefix(pairs: Seq<(Hash32, Hash32)>, h: Hash32, i: int)
    requires
        0 <= i <= pairs.len(),
        find_in_pairs(pairs.take(i), h) is Some,
    ensures
        find_in_pairs(pairs, h) == find_in_pairs(pairs.take(i), h),
    decreases pairs.len(),
{
    if i < pairs.len() {
        assert(pairs.drop_last().take(i) =~= pairs.take(i));
        lemma_find_in_pairs_prefix(pairs.drop_last(), h, i);
    } else {
        assert(pairs.take(i) =~= pairs);
    }
}

proof fn lemma_find_in_prefix(cs: Seq<ConstraintsWithProofData>, h: Hash32, i: int)
    requires
        0 <= i <= cs.len(),
        find_in(cs.take(i), h) is Some,
    ensures
        find_in(cs, h) == find_in(cs.take(i), h),
    decreases cs.len(),
{
    if i < cs.len() {
        assert(cs.drop_last().take(i) =~= cs.take(i));
        lemma_find_in_prefix(cs.drop_last(), h, i);
    } else {
        assert(cs.take(i) =~= cs);
    }
}

/// Returns the number of leaves held over all the records.
pub fn total_leaves(constraints: &[ConstraintsWithProofData]) -> (r: usize)
    requires
        total_leaves_spec(constraints@) <= usize::MAX,
    ensures
        r == total_leaves_spec(constraints@),
{
    let mut sum: usize = 0;
    let mut i: usize = 0;
    while i < constraints.len()
        invariant
            0 <= i <= constraints@.len(),
            sum == total_leaves_spec(constraints@.take(i as int)),
            total_leaves_spec(constraints@) <= usize::MAX,
        decreases constraints@.len() - i,
    {
        proof {
            assert(constraints@.take(i + 1).drop_last() =~= constraints@.take(i as int));
            lemma_total_leaves_prefix(constraints@, i + 1);
        }
        sum = sum + constraints[i].proof_data.len();
        i += 1;
    }
    assert(constraints@.take(i as int) =~= constraints@);
    sum
}

/// Returns whether the records hold exactly `n` leaves in all.
fn leaf_count_is(constraints: &[ConstraintsWithProofData], n: usize) -> (r: bool)
    ensures
        r == (total_leaves_spec(constraints@) == n),
{
    let mut sum: usize = 0;
    let mut i: usize = 0;
    while i < constraints.len()
        invariant
            0 <= i <= constraints@.len(),
            sum == total_leaves_spec(constraints@.take(i as int)),
            sum <= n,
        decreases constraints@.len() - i,
    {
        assert(constraints@.take(i + 1).drop_last() =~= constraints@.take(i as int));
        let len = constraints[i].proof_data.len();
        if len > n - sum {
            proof {
                lemma_total_leaves_prefix(constraints@, i + 1);
            }
            return false;
        }
        sum = sum + len;
        i += 1;
    }
    assert(constraints@.take(i as int) =~= constraints@);
    sum == n
}

/// Returns the root paired with the first occurrence of `hash` in `pairs`.
fn find_root_in_pairs(pairs: &Vec<(Hash32, Hash32)>, hash: &Hash32) -> (r: Option<Hash32>)
    ensures
        r == find_in_pairs(pairs@, *hash),
{
    let mut i: usize = 0;
    while i < pairs.len()
        invariant
            0 <= i <= pairs@.len(),
            find_in_pairs(pairs@.take(i as int), *hash) is None,
        decreases pairs@.len() - i,
    {
        assert(pairs@.take(i + 1).drop_last() =~= pairs@.take(i as int));
        if hash_eq(&pairs[i].0, hash) {
            proof {
                lemma_find_in_pairs_prefix(pairs@, *hash, i + 1);
            }
            return Some(pairs[i].1);
        }
        i += 1;
    }
    assert(pairs@.take(i as int) =~= pairs@);
    None
}

/// Returns the root paired with the first occurrence of `hash`, scanning the
/// records in order and the pairs of each record in order.
pub fn find_root(constraints: &[ConstraintsWithProofData], hash: &Hash32) -> (r: Option<Hash32>)
    ensures
        r == find_in(constraints@, *hash),
{
    let mut i: usize = 0;
    while i < constraints.len()
        invariant
            0 <= i <= constraints@.len(),
            find_in(constraints@.take(i as int), *hash) is None,
        decreases constraints@.len() - i,
    {
        assert(constraints@.take(i + 1).drop_last() =~= constraints@.take(i as int));
        let found = find_root_in_pairs(&constraints[i].proof_data, hash);
        if found.is_some() {
            proof {
                lemma_find_in_prefix(constraints@, *hash, i + 1);
            }
            return found;
        }
        i += 1;
    }
    assert(constraints@.take(i as int) =~= constraints@);
    None
}

/// Returns the leaves that a proof request claims, looked up among the
/// stored records: one hash-tree root per claimed transaction hash, in the
/// order of the claims. Fails with `LengthMismatch` when the claimed hashes
/// and the generalized indices differ in number, else with `LeavesMismatch`
/// when the records hold another number of leaves than are claimed, else with
/// `MissingHash` of the first claimed hash that no record holds.
pub fn resolve_leaves(constraints: &[ConstraintsWithProofData], proofs: &InclusionProofs) -> (r:
    Result<Vec<Hash32>, ProofError>)
    ensures
        match resolve_spec(constraints@, *proofs) {
            Ok(ls) => r is Ok && r->Ok_0@ == ls,
            Err(e) => r == Err::<Vec<Hash32>, ProofError>(e),
        },
{
    let hashes = &proofs.transaction_hashes;
    if hashes.len() != proofs.generalized_indexes.len() {
        return Err(ProofError::LengthMismatch);
    }
    if !leaf_count_is(constraints, proofs.total_leaves()) {
        return Err(ProofError::LeavesMismatch);
    }
    let mut leaves: Vec<Hash32> = Vec::with_capacity(hashes.len());
    let mut i: usize = 0;
    while i < hashes.len()
        invariant
            0 <= i <= hashes@.len(),
            hashes == &proofs.transaction_hashes,
            hashes@.len() == proofs.generalized_indexes@.len(),
            total_leaves_spec(constraints@) == hashes@.len(),
            leaves_spec(constraints@, hashes@.take(i as int)) == Ok::<Seq<Hash32>, Hash32>(
                leaves@,
            ),
        decreases hashes@.len() - i,
    {
        assert(hashes@.take(i + 1).drop_last() =~= hashes@.take(i as int));
        match find_root(constraints, &hashes[i]) {
            Some(leaf) => {
                assert(hashes@.take(i + 1).last() == hashes@[i as int]);
                leaves.push(leaf);
            },
            None => {
                proof {
                    assert(hashes@.take(i + 1).last() == hashes@[i as int]);
                    assert(leaves_spec(constraints@, hashes@.take(i + 1)) == Err::<
                        Seq<Hash32>,
                        Hash32,
                    >(hashes@[i as int]));
                    lemma_leaves_prefix_err(constraints@, hashes@, i + 1);
                    assert(leaves_spec(constraints@, proofs.transaction_hashes@) == Err::<
                        Seq<Hash32>,
                        Hash32,
                    >(hashes@[i as int]));
                }
                return Err(ProofError::MissingHash(hashes[i]));
            },
        }
        i += 1;
    }
    assert(hashes@.take(i as int) =~= hashes@);
    Ok(leaves)
}

proof fn lemma_leaves_prefix_err(cs: Seq<ConstraintsWithProofData>, hs: Seq<Hash32>, i: int)
    requires
        0 <= i <= hs.len(),
        leaves_spec(cs, hs.take(i)) is Err,
    ensures
        leaves_spec(cs, hs) == leaves_spec(cs, hs.take(i)),
    decreases hs.len(),
{
    if i < hs.len() {
        assert(hs.drop_last().take(i) =~= hs.take(i));
        lemma_leaves_prefix_err(cs, hs.drop_last(), i);
    } else {
        assert(hs.take(i) =~= hs);
    }
}

/// Verifies a proof request against the stored constraints and the block's
/// transactions root. The leaves are looked up as `resolve_leaves` does; its
/// errors are returned unchanged. Otherwise `multiproof` is asked once whether
/// the leaves, the sibling hashes and the generalized indices rebuild `root`,
/// and a `false` from it gives `VerificationFailed`.
///
/// The multiproof check is taken as an argument because no published version
/// of the SSZ crate offers generalized-index multiproof verification; the
/// embedding program supplies one. Everything this function decides besides
/// that answer is fixed by the contract below.
pub fn verify_multiproofs<F>(
    constraints: &[ConstraintsWithProofData],
    proofs: &InclusionProofs,
    root: Hash32,
    multiproof: F,
) -> (r: Result<(), ProofError>) where
    F: Fn(&Vec<Hash32>, &Vec<Hash32>, &Vec<usize>, &Hash32) -> bool,

    requires
        forall|l: &Vec<Hash32>, p: &Vec<Hash32>, g: &Vec<usize>, t: &Hash32|
            multiproof.requires((l, p, g, t)),
    ensures
        match resolve_spec(constraints@, *proofs) {
            Err(e) => r == Err::<(), ProofError>(e),
            Ok(ls) => exists|l: Vec<Hash32>, ok: bool|
                {
                    &&& l@ == ls
                    &&& multiproof.ensures(
                        (&l, &proofs.merkle_hashes, &proofs.generalized_indexes, &root),
                        ok,
                    )
                    &&& r == if ok {
                        Ok::<(), ProofError>(())
                    } else {
                        Err(ProofError::VerificationFailed)
                    }
                },
        },
{
    let leaves = resolve_leaves(constraints, proofs)?;
    let ok = multiproof(&leaves, &proofs.merkle_hashes, &proofs.generalized_indexes, &root);
    if ok {
        Ok(())
    } else {
        Err(ProofError::VerificationFailed)
    }
}

/// Claimed hashes and generalized indices of different numbers are refused
/// with `LengthMismatch` before anything else is looked at.
pub proof fn lemma_length_mismatch(cs: Seq<ConstraintsWithProofData>, p: InclusionProofs)
    requires
        p.transaction_hashes@.len() != p.generalized_indexes@.len(),
    ensures
        resolve_spec(cs, p) == Err::<Seq<Hash32>, ProofError>(ProofError::LengthMismatch),
{
}

/// With matching lengths, records that hold another number of leaves than
/// are claimed are refused with `LeavesMismatch`.
pub proof fn lemma_leaves_mismatch(cs: Seq<ConstraintsWithProofData>, p: InclusionProofs)
    requires
        p.transaction_hashes@.len() == p.generalized_indexes@.len(),
        total_leaves_spec(cs) != p.transaction_hashes@.len(),
    ensures
        resolve_spec(cs, p) == Err::<Seq<Hash32>, ProofError>(ProofError::LeavesMismatch),
{
}

proof fn lemma_leaves_first_missing(cs: Seq<ConstraintsWithProofData>, hs: Seq<Hash32>, i: int)
    requires
        0 <= i < hs.len(),
        find_in(cs, hs[i]) is None,
        forall|j: int| 0 <= j < i ==> find_in(cs, #[trigger] hs[j]) is Some,
    ensures
        leaves_spec(cs, hs) == Err::<Seq<Hash32>, Hash32>(hs[i]),
    decreases hs.len(),
{
    if i < hs.len() - 1 {
        lemma_leaves_first_missing(cs, hs.drop_last(), i);
    } else {
        lemma_leaves_all_found(cs, hs.drop_last());
    }
}

proof fn lemma_leaves_all_found(cs: Seq<ConstraintsWithProofData>, hs: Seq<Hash32>)
    requires
        forall|j: int| 0 <= j < hs.len() ==> find_in(cs, #[trigger] hs[j]) is Some,
    ensures
        leaves_spec(cs, hs) is Ok,
        leaves_spec(cs, hs) matches Ok(ls) && ls.len() == hs.len(),
    decreases hs.len(),
{
    if hs.len() > 0 {
        assert forall|j: int| 0 <= j < hs.drop_last().len() implies find_in(
            cs,
            #[trigger] hs.drop_last()[j],
        ) is Some by {
            assert(hs.drop_last()[j] == hs[j]);
        }
        lemma_leaves_all_found(cs, hs.drop_last());
        assert(find_in(cs, hs[hs.len() - 1]) is Some);
    }
}

/// With matching lengths and leaf count, a claimed hash that no record holds,
/// preceded only by claimed hashes that some record holds, is refused with
/// `MissingHash` of that very hash.
pub proof fn lemma_missing_hash(cs: Seq<ConstraintsWithProofData>, p: InclusionProofs, i: int)
    requires
        p.transaction_hashes@.len() == p.generalized_indexes@.len(),
        total_leaves_spec(cs) == p.transaction_hashes@.len(),
        0 <= i < p.transaction_hashes@.len(),
        find_in(cs, p.transaction_hashes@[i]) is None,
        forall|j: int| 0 <= j < i ==> find_in(cs, #[trigger] p.transaction_hashes@[j]) is Some,
    ensures
        resolve_spec(cs, p) == Err::<Seq<Hash32>, ProofError>(
            ProofError::MissingHash(p.transaction_hashes@[i]),
        ),
{
    lemma_leaves_first_missing(cs, p.transaction_hashes@, i);
}

/// With matching lengths and leaf count, claimed hashes that the records all
/// hold resolve to one leaf per claim.
pub proof fn lemma_all_found(cs: Seq<ConstraintsWithProofData>, p: InclusionProofs)
    requires
        p.transaction_hashes@.len() == p.generalized_indexes@.len(),
        total_leaves_spec(cs) == p.transaction_hashes@.len(),
        forall|j: int|
            0 <= j < p.transaction_hashes@.len() ==> find_in(cs, #[trigger] p.transaction_hashes@[j]) is Some,
    ensures
        resolve_spec(cs, p) matches Ok(ls) && ls.len() == p.transaction_hashes@.len(),
{
    lemma_leaves_all_found(cs, p.transaction_hashes@);
}

} // verus!
