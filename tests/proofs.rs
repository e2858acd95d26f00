use constraints_relay::proofs::{
    find_root, hash_eq, resolve_leaves, total_leaves, verify_multiproofs, Hash32,
    InclusionProofs, ProofError,
};
use constraints_relay::types::{ConstraintsMessage, ConstraintsWithProofData};

fn h(b: u8) -> Hash32 {
    [b; 32]
}

fn parent(left: &Hash32, right: &Hash32) -> Hash32 {
    let mut bytes = left.to_vec();
    bytes.extend_from_slice(right);
    tree_hash::merkle_root(&bytes, 2).0
}

fn record(pairs: Vec<(Hash32, Hash32)>) -> ConstraintsWithProofData {
    let message = ConstraintsMessage {
        validator_index: 1,
        slot: 10,
        top: false,
        transactions: pairs.iter().map(|_| vec![0u8]).collect(),
    };
    ConstraintsWithProofData { message, proof_data: pairs }
}

fn proofs(hashes: Vec<Hash32>, indexes: Vec<usize>, siblings: Vec<Hash32>) -> InclusionProofs {
    InclusionProofs {
        transaction_hashes: hashes,
        generalized_indexes: indexes,
        merkle_hashes: siblings,
    }
}

/// Checks a two-leaf tree: leaves at generalized indices 2 and 3, no siblings.
fn two_leaf_check(l: &Vec<Hash32>, p: &Vec<Hash32>, g: &Vec<usize>, root: &Hash32) -> bool {
    l.len() == 2 && p.is_empty() && g == &vec![2, 3] && parent(&l[0], &l[1]) == *root
}

/// Checks leaves at generalized indices 4 and 5 of a four-leaf tree, with the
/// node at index 3 as the one sibling.
fn four_leaf_check(l: &Vec<Hash32>, p: &Vec<Hash32>, g: &Vec<usize>, root: &Hash32) -> bool {
    l.len() == 2 && p.len() == 1 && g == &vec![4, 5] && parent(&parent(&l[0], &l[1]), &p[0]) == *root
}

#[test]
fn length_mismatch_comes_first() {
    let cs = vec![record(vec![(h(1), h(11))])];
    let p = proofs(vec![h(1)], vec![2, 3], vec![]);
    assert_eq!(resolve_leaves(&cs, &p), Err(ProofError::LengthMismatch));
    assert_eq!(verify_multiproofs(&cs, &p, h(0), two_leaf_check), Err(ProofError::LengthMismatch));
}

#[test]
fn leaves_mismatch_on_fewer_claims() {
    let cs = vec![record(vec![(h(1), h(11)), (h(2), h(12))])];
    let p = proofs(vec![h(1)], vec![2], vec![]);
    assert_eq!(resolve_leaves(&cs, &p), Err(ProofError::LeavesMismatch));
}

#[test]
fn leaves_mismatch_counts_every_record() {
    let cs = vec![record(vec![(h(1), h(11))]), record(vec![(h(2), h(12))])];
    let p = proofs(vec![h(1)], vec![2], vec![]);
    assert_eq!(resolve_leaves(&cs, &p), Err(ProofError::LeavesMismatch));
    let p = proofs(vec![h(1), h(2), h(1)], vec![4, 5, 6], vec![]);
    assert_eq!(resolve_leaves(&cs, &p), Err(ProofError::LeavesMismatch));
}

#[test]
fn two_leaf_proof_succeeds() {
    let (r1, r2) = (h(11), h(12));
    let cs = vec![record(vec![(h(1), r1), (h(2), r2)])];
    let root = parent(&r1, &r2);
    let p = proofs(vec![h(1), h(2)], vec![2, 3], vec![]);
    assert_eq!(resolve_leaves(&cs, &p), Ok(vec![r1, r2]));
    assert_eq!(verify_multiproofs(&cs, &p, root, two_leaf_check), Ok(()));
}

#[test]
fn unknown_hash_is_named() {
    let (r1, r2) = (h(11), h(12));
    let cs = vec![record(vec![(h(1), r1), (h(2), r2)])];
    let root = parent(&r1, &r2);
    let p = proofs(vec![h(1), h(3)], vec![2, 3], vec![]);
    assert_eq!(verify_multiproofs(&cs, &p, root, two_leaf_check), Err(ProofError::MissingHash(h(3))));
}

#[test]
fn first_missing_hash_is_named() {
    let cs = vec![record(vec![(h(1), h(11)), (h(2), h(12))])];
    let p = proofs(vec![h(7), h(8)], vec![2, 3], vec![]);
    assert_eq!(resolve_leaves(&cs, &p), Err(ProofError::MissingHash(h(7))));
}

#[test]
fn leaves_follow_claim_order_across_records() {
    let cs = vec![record(vec![(h(1), h(11))]), record(vec![(h(2), h(12))])];
    let p = proofs(vec![h(2), h(1)], vec![3, 2], vec![]);
    assert_eq!(resolve_leaves(&cs, &p), Ok(vec![h(12), h(11)]));
}

#[test]
fn first_match_wins() {
    let cs = vec![record(vec![(h(1), h(11)), (h(1), h(21))]), record(vec![(h(1), h(31))])];
    assert_eq!(find_root(&cs, &h(1)), Some(h(11)));
    assert_eq!(find_root(&cs, &h(9)), None);
    assert_eq!(find_root(&[], &h(1)), None);
}

#[test]
fn four_leaf_proof_with_sibling() {
    let (r1, r2) = (h(11), h(12));
    let sibling = parent(&h(13), &h(14));
    let root = parent(&parent(&r1, &r2), &sibling);
    let cs = vec![record(vec![(h(1), r1)]), record(vec![(h(2), r2)])];
    let good = proofs(vec![h(1), h(2)], vec![4, 5], vec![sibling]);
    assert_eq!(verify_multiproofs(&cs, &good, root, four_leaf_check), Ok(()));

    let mut flipped = sibling;
    flipped[0] ^= 1;
    let bad_sibling = proofs(vec![h(1), h(2)], vec![4, 5], vec![flipped]);
    assert_eq!(
        verify_multiproofs(&cs, &bad_sibling, root, four_leaf_check),
        Err(ProofError::VerificationFailed)
    );

    let bad_index = proofs(vec![h(1), h(2)], vec![4, 6], vec![sibling]);
    assert_eq!(
        verify_multiproofs(&cs, &bad_index, root, four_leaf_check),
        Err(ProofError::VerificationFailed)
    );
}

#[test]
fn wrong_root_fails() {
    let cs = vec![record(vec![(h(1), h(11)), (h(2), h(12))])];
    let p = proofs(vec![h(1), h(2)], vec![2, 3], vec![]);
    assert_eq!(verify_multiproofs(&cs, &p, h(0), two_leaf_check), Err(ProofError::VerificationFailed));
}

#[test]
fn empty_request_against_empty_records() {
    let p = proofs(vec![], vec![], vec![]);
    assert_eq!(resolve_leaves(&[], &p), Ok(vec![]));
    assert_eq!(p.total_leaves(), 0);
}

#[test]
fn leaf_totals() {
    let cs = vec![record(vec![(h(1), h(11)), (h(2), h(12))]), record(vec![]), record(vec![(h(3), h(13))])];
    assert_eq!(total_leaves(&cs), 3);
    assert_eq!(total_leaves(&[]), 0);
    let p = proofs(vec![h(1), h(2)], vec![2, 3], vec![]);
    assert_eq!(p.total_leaves(), 2);
}

#[test]
fn hash_equality() {
    assert!(hash_eq(&h(4), &h(4)));
    let mut other = h(4);
    other[31] = 5;
    assert!(!hash_eq(&h(4), &other));
}

#[test]
fn checker_is_not_asked_after_a_structural_error() {
    let cs = vec![record(vec![(h(1), h(11))])];
    let refuse = |_: &Vec<Hash32>, _: &Vec<Hash32>, _: &Vec<usize>, _: &Hash32| -> bool {
        panic!("the multiproof check must not run")
    };
    let p = proofs(vec![h(1)], vec![], vec![]);
    assert_eq!(verify_multiproofs(&cs, &p, h(0), refuse), Err(ProofError::LengthMismatch));
    let p = proofs(vec![h(5)], vec![1], vec![]);
    assert_eq!(verify_multiproofs(&cs, &p, h(0), refuse), Err(ProofError::MissingHash(h(5))));
}
