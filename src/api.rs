use vstd::prelude::*;

use vstd::string::StringSliceAdditionalSpecFns;

use crate::proof_data::{message_within_limits, proof_data_error, proof_data_of};
use crate::proofs::ProofError;
use crate::types::{ConstraintsWithProofData, SignedConstraints, SignedDelegation, SignedRevocation};

verus! {

/// What a constraints, delegation or revocation request fails with.
#[derive(Debug, Clone, PartialEq, Eq)]
pub enum ConstraintsApiError {
    /// A constraints message breaks the relay's limits.
    InvalidConstraints,
    /// The delegation body could not be decoded.
    InvalidDelegation,
    /// The revocation body could not be decoded.
    InvalidRevocation,
    /// A BLS signature did not verify against the message and its key.
    InvalidSignature,
    /// The submission decoded to an empty list of constraints.
    NilConstraints,
    /// The store refused a write; the store's own message.
    AuctioneerError(String),
    /// The request body could not be read; the transport's message.
    AxumError(String),
    /// The host clock or another internal facility failed.
    InternalError,
    /// Neither wire format decoded the body; the decoder's message.
    SerdeDecodeError(String),
    /// Proof data could not be derived or checked.
    ConstraintsProofDataError(ProofError),
}

/// The media type that marks a body as SSZ-encoded.
pub const SSZ_CONTENT_TYPE: &'static str = "application/octet-stream";

/// Returns whether a request's content type asks for SSZ decoding: it is
/// present and equal, byte for byte, to `application/octet-stream`.
pub fn is_ssz_content_type(content_type: Option<&str>) -> (r: bool)
    ensures
        r == (content_type matches Some(ct) && ct.spec_bytes() == SSZ_CONTENT_TYPE.spec_bytes()),
{
    match content_type {
        None => false,
        Some(ct) => {
            let a = ct.as_bytes();
            let b = SSZ_CONTENT_TYPE.as_bytes();
            if a.len() != b.len() {
                return false;
            }
            let mut i: usize = 0;
            while i < a.len()
                invariant
                    0 <= i <= a@.len(),
                    a@.len() == b@.len(),
                    a@ == ct.spec_bytes(),
                    content_type == Some(ct),
                    b@ == SSZ_CONTENT_TYPE.spec_bytes(),
                    forall|j: int| 0 <= j < i ==> a@[j] == b@[j],
                decreases a@.len() - i,
            {
                if a[i] != b[i] {
                    assert(a@[i as int] != b@[i as int]);
                    return false;
                }
                i += 1;
            }
            assert(a@ =~= b@);
            true
        },
    }
}

/// Picks the decoded submission: the SSZ result when the request was marked
/// as SSZ and that decoding succeeded; otherwise the JSON decoding, which
/// `decode_json` performs when it is needed and only then. A JSON failure
/// gives `SerdeDecodeError` with the decoder's message.
pub fn decode_constraints_submission<F>(
    is_ssz: bool,
    ssz_decoded: Option<Vec<SignedConstraints>>,
    decode_json: F,
) -> (r: Result<Vec<SignedConstraints>, ConstraintsApiError>) where
    F: FnOnce() -> Result<Vec<SignedConstraints>, String>,

    requires
        decode_json.requires(()),
    ensures
        is_ssz && ssz_decoded is Some ==> r == Ok::<
            Vec<SignedConstraints>,
            ConstraintsApiError,
        >(ssz_decoded->Some_0),
        !(is_ssz && ssz_decoded is Some) ==> exists|j: Result<Vec<SignedConstraints>, String>|
            {
                &&& decode_json.ensures((), j)
                &&& r == match j {
                    Ok(v) => Ok::<Vec<SignedConstraints>, ConstraintsApiError>(v),
                    Err(m) => Err(ConstraintsApiError::SerdeDecodeError(m)),
                }
            },
{
    if is_ssz {
        if let Some(v) = ssz_decoded {
            return Ok(v);
        }
    }
    match decode_json() {
        Ok(v) => Ok(v),
        Err(m) => Err(ConstraintsApiError::SerdeDecodeError(m)),
    }
}

/// The outcome that a constraints submission owes, given the decoded batches
/// and whether each batch's signature verified: an empty list is refused,
/// then any bad signature, then the first batch whose proof data cannot be
/// derived, with the reason.
pub open spec fn submission_error(
    batches: Seq<SignedConstraints>,
    signature_ok: Seq<bool>,
) -> Option<ConstraintsApiError> {
    if batches.len() == 0 {
        Some(ConstraintsApiError::NilConstraints)
    } else if exists|i: int| 0 <= i < signature_ok.len() && !#[trigger] signature_ok[i] {
        Some(ConstraintsApiError::InvalidSignature)
    } else {
        match first_proof_data_error(batches) {
            Some(p) => Some(ConstraintsApiError::ConstraintsProofDataError(p)),
            None => None,
        }
    }
}

/// The reason that the first batch, in order, whose proof data cannot be
/// derived fails with, if any batch does.
pub open spec fn first_proof_data_error(batches: Seq<SignedConstraints>) -> Option<ProofError>
    decreases batches.len(),
{
    if batches.len() == 0 {
        None
    } else {
        match first_proof_data_error(batches.drop_last()) {
            Some(p) => Some(p),
            None => proof_data_error(batches.last().message),
        }
    }
}

proof fn lemma_first_error_prefix(batches: Seq<SignedConstraints>, i: int)
    requires
        0 <= i <= batches.len(),
        first_proof_data_error(batches.take(i)) is Some,
    ensures
        first_proof_data_error(batches) == first_proof_data_error(batches.take(i)),
    decreases batches.len(),
{
    if i < batches.len() {
        assert(batches.drop_last().take(i) =~= batches.take(i));
        lemma_first_error_prefix(batches.drop_last(), i);
    } else {
        assert(batches.take(i) =~= batches);
    }
}

proof fn lemma_no_proof_data_error(batches: Seq<SignedConstraints>)
    requires
        forall|i: int| 0 <= i < batches.len() ==> message_within_limits(#[trigger] batches[i].message),
    ensures
        first_proof_data_error(batches) is None,
    decreases batches.len(),
{
    if batches.len() > 0 {
        assert forall|i: int| 0 <= i < batches.drop_last().len() implies message_within_limits(
            #[trigger] batches.drop_last()[i].message,
        ) by {
            assert(batches.drop_last()[i] == batches[i]);
        }
        lemma_no_proof_data_error(batches.drop_last());
        assert(message_within_limits(batches[batches.len() - 1].message));
    }
}

/// `writes` is one store write per batch, in order: the batch's slot and its
/// message with the proof data of each of its transactions.
pub open spec fn store_writes_for(
    batches: Seq<SignedConstraints>,
    writes: Seq<(u64, ConstraintsWithProofData)>,
) -> bool {
    &&& writes.len() == batches.len()
    &&& forall|i: int|
        0 <= i < writes.len() ==> {
            &&& (#[trigger] writes[i]).0 == batches[i].message.slot
            &&& writes[i].1.message == batches[i].message
            &&& proof_data_of(batches[i].message, writes[i].1.proof_data@)
        }
}

/// Decides a constraints submission. `signature_ok[i]` says whether the
/// signature of `batches[i]` verified. Every batch is checked before any is
/// handed on, so a failure leaves nothing to store; on success the result is
/// the store writes, one per batch in order.
pub fn plan_submission(batches: Vec<SignedConstraints>, signature_ok: &Vec<bool>) -> (r: Result<
    Vec<(u64, ConstraintsWithProofData)>,
    ConstraintsApiError,
>)
    requires
        signature_ok@.len() == batches@.len(),
    ensures
        match submission_error(batches@, signature_ok@) {
            Some(e) => r == Err::<Vec<(u64, ConstraintsWithProofData)>, ConstraintsApiError>(e),
            None => r matches Ok(w) && store_writes_for(batches@, w@),
        },
{
    if batches.len() == 0 {
        return Err(ConstraintsApiError::NilConstraints);
    }
    let mut k: usize = 0;
    while k < signature_ok.len()
        invariant
            0 <= k <= signature_ok@.len(),
            batches@.len() > 0,
            forall|j: int| 0 <= j < k ==> #[trigger] signature_ok@[j],
        decreases signature_ok@.len() - k,
    {
        if !signature_ok[k] {
            assert(!signature_ok@[k as int]);
            return Err(ConstraintsApiError::InvalidSignature);
        }
        k += 1;
    }
    let ghost all = batches@;
    let mut rest = batches;
    let mut writes: Vec<(u64, ConstraintsWithProofData)> = Vec::new();
    while rest.len() > 0
        invariant
            all == batches@,
            writes@.len() + rest@.len() == all.len(),
            rest@ == all.skip(writes@.len() as int),
            forall|j: int| 0 <= j < all.len() ==> #[trigger] signature_ok@[j],
            signature_ok@.len() == all.len(),
            first_proof_data_error(all.take(writes@.len() as int)) is None,
            store_writes_for(all.take(writes@.len() as int), writes@),
        decreases rest@.len(),
    {
        let ghost n = writes@.len() as int;
        let batch = rest.remove(0);
        assert(batch == all[n]);
        let slot = batch.message.slot;
        match ConstraintsWithProofData::from_message(batch.message) {
            Ok(c) => {
                writes.push((slot, c));
                assert(all.take(n + 1).drop_last() =~= all.take(n));
                assert(rest@ =~= all.skip(n + 1));
            },
            Err(p) => {
                assert(all.take(n + 1).drop_last() =~= all.take(n));
                assert(first_proof_data_error(all.take(n + 1)) == Some(p));
                proof {
                    lemma_first_error_prefix(all, n + 1);
                }
                assert(!(exists|i: int| 0 <= i < signature_ok@.len() && !#[trigger] signature_ok@[i]));
                return Err(ConstraintsApiError::ConstraintsProofDataError(p));
            },
        }
    }
    assert(all.take(writes@.len() as int) =~= all);
    Ok(writes)
}

/// The outcome of a delegation request: a body that did not decode is
/// refused, then a bad signature; otherwise the delegation is handed on.
pub open spec fn delegation_outcome(decoded: Option<SignedDelegation>, signature_ok: bool) -> Result<
    SignedDelegation,
    ConstraintsApiError,
> {
    match decoded {
        None => Err(ConstraintsApiError::InvalidDelegation),
        Some(d) => if signature_ok {
            Ok(d)
        } else {
            Err(ConstraintsApiError::InvalidSignature)
        },
    }
}

/// The outcome of a revocation request, shaped as a delegation's.
pub open spec fn revocation_outcome(decoded: Option<SignedRevocation>, signature_ok: bool) -> Result<
    SignedRevocation,
    ConstraintsApiError,
> {
    match decoded {
        None => Err(ConstraintsApiError::InvalidRevocation),
        Some(d) => if signature_ok {
            Ok(d)
        } else {
            Err(ConstraintsApiError::InvalidSignature)
        },
    }
}

/// Decides a delegation request: `decoded` is the body if it decoded and
/// `signature_ok` whether the validator's signature over it verified. On
/// success the delegation is handed back to be forwarded to the store.
pub fn authorize_delegation(decoded: Option<SignedDelegation>, signature_ok: bool) -> (r: Result<
    SignedDelegation,
    ConstraintsApiError,
>)
    ensures
        r == delegation_outcome(decoded, signature_ok),
{
    match decoded {
        None => Err(ConstraintsApiError::InvalidDelegation),
        Some(d) => if signature_ok {
            Ok(d)
        } else {
            Err(ConstraintsApiError::InvalidSignature)
        },
    }
}

/// Decides a revocation request, as `authorize_delegation` does a delegation.
pub fn authorize_revocation(decoded: Option<SignedRevocation>, signature_ok: bool) -> (r: Result<
    SignedRevocation,
    ConstraintsApiError,
>)
    ensures
        r == revocation_outcome(decoded, signature_ok),
{
    match decoded {
        None => Err(ConstraintsApiError::InvalidRevocation),
        Some(d) => if signature_ok {
            Ok(d)
        } else {
            Err(ConstraintsApiError::InvalidSignature)
        },
    }
}

/// A delegation followed by a revocation of the same validator and delegate
/// key: each is accepted on its own once decoded and validly signed. No prior
/// delegation has to be visible for the revocation to go through.
pub proof fn lemma_delegate_then_revoke(d: SignedDelegation, v: SignedRevocation)
    requires
        d.message.validator_index == v.message.validator_index,
        d.message.pubkey == v.message.pubkey,
    ensures
        delegation_outcome(Some(d), true) == Ok::<SignedDelegation, ConstraintsApiError>(d),
        revocation_outcome(Some(v), true) == Ok::<SignedRevocation, ConstraintsApiError>(v),
{
}

/// An empty submission is refused as empty, whichever wire format it came in
/// and whatever the signatures.
pub proof fn lemma_empty_submission_refused(signature_ok: Seq<bool>)
    ensures
        submission_error(Seq::empty(), signature_ok) == Some(ConstraintsApiError::NilConstraints),
{
}

/// A submission with a bad signature on any batch is refused as such, and
/// nothing of it is stored.
pub proof fn lemma_bad_signature_refused(batches: Seq<SignedConstraints>, signature_ok: Seq<bool>, i: int)
    requires
        batches.len() > 0,
        signature_ok.len() == batches.len(),
        0 <= i < signature_ok.len(),
        !signature_ok[i],
    ensures
        submission_error(batches, signature_ok) == Some(ConstraintsApiError::InvalidSignature),
{
}

/// A non-empty submission whose batches are all validly signed and within
/// the limits is accepted; its store writes are one per batch, each with as
/// many proof-data pairs as its message has transactions.
pub proof fn lemma_valid_submission_writes(
    batches: Seq<SignedConstraints>,
    signature_ok: Seq<bool>,
    writes: Seq<(u64, ConstraintsWithProofData)>,
)
    requires
        batches.len() > 0,
        signature_ok.len() == batches.len(),
        forall|i: int| 0 <= i < signature_ok.len() ==> #[trigger] signature_ok[i],
        forall|i: int| 0 <= i < batches.len() ==> message_within_limits(#[trigger] batches[i].message),
        store_writes_for(batches, writes),
    ensures
        submission_error(batches, signature_ok) is None,
        writes.len() == batches.len(),
        forall|i: int|
            0 <= i < writes.len() ==> (#[trigger] writes[i]).1.proof_data@.len()
                == batches[i].message.transactions@.len(),
{
    lemma_no_proof_data_error(batches);
    assert forall|i: int| 0 <= i < writes.len() implies (#[trigger] writes[i]).1.proof_data@.len()
        == batches[i].message.transactions@.len() by {
        assert(proof_data_of(batches[i].message, writes[i].1.proof_data@));
    }
}

} // verus!
