//! What holds of the codec and of the engine as a whole.

use crate::backend::g1_point_status;
use crate::batch::batch_outcome;
use crate::blob::{blob_decoding, blob_element, Blob};
use crate::blob_proof::{blob_proof_outcome, blob_verify_outcome, challenge_bytes};
use crate::engine::{is_commit_result, opening_outcome, verify_outcome};
use crate::error::Error;
use crate::field::{field_decoding, scalar_modulus, FieldElement};
use crate::harness::{
    blob_proof_test_verdict, commitment_test_verdict, expected_bytes, expected_pair,
    opening_test_verdict, Failure, TestCase,
};
use crate::hex::text_decoding;
use crate::numeric::be_value;
use crate::point::{point_decoding, G1Point, KzgCommitment, KzgProof, PointStatus};
use crate::settings::TrustedSetup;
use crate::wire::{
    batch_bytes_outcome, batch_decodes, blob_proof_bytes_outcome, commit_bytes_outcome,
    opening_bytes_outcome, opening_inputs_error, verify_bytes_outcome,
};
use vstd::prelude::*;

verus! {

/// Decoding the encoding of a field element gives the element back.
pub proof fn law_field_element_round_trip(x: FieldElement)
    requires
        x.wf(),
    ensures
        field_decoding(x@) == Ok::<Seq<u8>, Error>(x@),
{
}

/// Decoding the encoding of a point gives the point back.
pub proof fn law_point_round_trip(p: G1Point)
    requires
        p.wf(),
    ensures
        point_decoding(p@) == Ok::<Seq<u8>, Error>(p@),
{
}

/// Decoding the encoding of a commitment gives the commitment back.
pub proof fn law_commitment_round_trip(c: KzgCommitment)
    requires
        c.wf(),
    ensures
        point_decoding(c@) == Ok::<Seq<u8>, Error>(c@),
{
}

/// Decoding the encoding of a proof gives the proof back.
pub proof fn law_proof_round_trip(p: KzgProof)
    requires
        p.wf(),
    ensures
        point_decoding(p@) == Ok::<Seq<u8>, Error>(p@),
{
}

/// Decoding the encoding of a blob gives the blob back.
pub proof fn law_blob_round_trip(blob: Blob)
    requires
        blob.wf(),
    ensures
        blob_decoding(blob@) == Ok::<Seq<u8>, Error>(blob@),
{
}

/// Two calls of `commit` on one blob under one setup have the same
/// outcome: both fail with the same error, or both return the same
/// commitment.
pub proof fn law_commit_is_deterministic(
    blob: Blob,
    setup: TrustedSetup,
    first: Result<KzgCommitment, Error>,
    second: Result<KzgCommitment, Error>,
)
    requires
        is_commit_result(blob@, setup, first),
        is_commit_result(blob@, setup, second),
    ensures
        first is Ok <==> second is Ok,
        first is Ok ==> first->Ok_0@ == second->Ok_0@,
        first is Err ==> first->Err_0 == second->Err_0,
{
}

/// Two challenges derived from one blob and one commitment are the same
/// field element.
pub proof fn law_challenge_is_deterministic(
    blob: Blob,
    commitment: KzgCommitment,
    first: FieldElement,
    second: FieldElement,
)
    requires
        first@ == challenge_bytes(blob@, commitment@),
        second@ == challenge_bytes(blob@, commitment@),
    ensures
        first@ == second@,
        first.value() == second.value(),
{
}

/// A blob of any length but the exact one does not decode.
pub proof fn law_blob_of_wrong_length_is_rejected(bytes: Seq<u8>)
    requires
        bytes.len() != 131072,
    ensures
        blob_decoding(bytes) == Err::<Seq<u8>, Error>(Error::InvalidEncoding),
{
}

/// Thirty-two bytes that denote a number at or above the modulus do not
/// decode as a field element.
pub proof fn law_unreduced_scalar_is_rejected(bytes: Seq<u8>)
    requires
        be_value(bytes) >= scalar_modulus(),
    ensures
        field_decoding(bytes) == Err::<Seq<u8>, Error>(Error::InvalidEncoding),
{
}

/// A blob with one element at or above the modulus does not decode.
pub proof fn law_blob_with_unreduced_element_is_rejected(bytes: Seq<u8>, i: int)
    requires
        0 <= i < 4096,
        be_value(blob_element(bytes, i)) >= scalar_modulus(),
    ensures
        blob_decoding(bytes) == Err::<Seq<u8>, Error>(Error::InvalidEncoding),
{
}

/// Forty-eight bytes that name no point of the curve do not decode, and
/// the error says so.
pub proof fn law_point_off_curve_is_rejected(bytes: Seq<u8>)
    requires
        bytes.len() == 48,
        g1_point_status(bytes) == PointStatus::NotOnCurve,
    ensures
        point_decoding(bytes) == Err::<Seq<u8>, Error>(Error::NotOnCurve),
{
}

/// A verification whose inputs do not all decode fails with the decoding
/// error of the first such input, never with the engine's error: the
/// inputs do not reach the pairing check.
pub proof fn law_undecodable_input_is_not_an_invalid_proof(
    commitment: Seq<u8>,
    z: Seq<u8>,
    y: Seq<u8>,
    witness: Seq<u8>,
    setup: TrustedSetup,
)
    requires
        opening_inputs_error(commitment, z, y, witness) is Some,
    ensures
        verify_bytes_outcome(commitment, z, y, witness, setup) == Err::<bool, Error>(
            opening_inputs_error(commitment, z, y, witness)->Some_0,
        ),
        verify_bytes_outcome(commitment, z, y, witness, setup) != Err::<bool, Error>(
            Error::BackendError,
        ),
{
}

/// A batch in which one input fails to decode, or whose lists differ in
/// length, is refused as a whole with `BackendError`.
pub proof fn law_undecodable_triple_aborts_the_batch(
    blobs: Seq<Seq<u8>>,
    commitments: Seq<Seq<u8>>,
    proofs: Seq<Seq<u8>>,
    setup: TrustedSetup,
)
    requires
        !batch_decodes(blobs, commitments, proofs),
    ensures
        batch_bytes_outcome(blobs, commitments, proofs, setup) == Err::<bool, Error>(
            Error::BackendError,
        ),
{
}

/// No verification reports a refusal as a value: an opening, a blob proof
/// or a batch that does not verify fails with `BackendError`.
pub proof fn law_verification_never_returns_false(
    blob: Seq<u8>,
    commitment: Seq<u8>,
    z: Seq<u8>,
    y: Seq<u8>,
    witness: Seq<u8>,
    blobs: Seq<Seq<u8>>,
    commitments: Seq<Seq<u8>>,
    proofs: Seq<Seq<u8>>,
    setup: TrustedSetup,
)
    ensures
        ({
            let r = verify_outcome(commitment, z, y, witness, setup);
            r == Ok::<bool, Error>(true) || r == Err::<bool, Error>(Error::BackendError)
        }),
        ({
            let r = blob_verify_outcome(blob, commitment, witness, setup);
            r == Ok::<bool, Error>(true) || r == Err::<bool, Error>(Error::BackendError)
        }),
        ({
            let r = batch_outcome(blobs, commitments, proofs, setup);
            r == Ok::<bool, Error>(true) || r == Err::<bool, Error>(Error::BackendError)
        }),
{
}

/// A blob proof is the proof of the opening at the challenge, and it is
/// checked exactly as that opening is: against the evaluation that the
/// opening itself gives.
pub proof fn law_blob_proof_is_checked_as_its_opening(
    blob: Seq<u8>,
    commitment: Seq<u8>,
    witness: Seq<u8>,
    y: Seq<u8>,
    setup: TrustedSetup,
)
    requires
        opening_outcome(blob, challenge_bytes(blob, commitment), setup) == Ok::<
            (Seq<u8>, Seq<u8>),
            Error,
        >((witness, y)),
    ensures
        blob_proof_outcome(blob, commitment, setup) == Ok::<Seq<u8>, Error>(witness),
        blob_verify_outcome(blob, commitment, witness, setup) == verify_outcome(
            commitment,
            challenge_bytes(blob, commitment),
            y,
            witness,
            setup,
        ),
{
}

/// The empty batch verifies.
pub proof fn law_empty_batch_verifies(setup: TrustedSetup)
    ensures
        batch_outcome(Seq::empty(), Seq::empty(), Seq::empty(), setup) == Ok::<bool, Error>(true),
{
}

/// A batch of one triple has the verdict that `verify_blob_proof` gives
/// the triple.
pub proof fn law_batch_of_one_is_the_single_check(
    blob: Seq<u8>,
    commitment: Seq<u8>,
    witness: Seq<u8>,
    setup: TrustedSetup,
)
    ensures
        batch_outcome(seq![blob], seq![commitment], seq![witness], setup) == blob_verify_outcome(
            blob,
            commitment,
            witness,
            setup,
        ),
{
}

/// A commitment vector whose expected output is what the engine computes
/// for its blob passes.
pub proof fn law_commitment_vector_of_the_engine_passes(
    test: TestCase,
    setup: TrustedSetup,
    blob: Seq<u8>,
    c: Seq<u8>,
)
    requires
        test.input.blob is Some,
        text_decoding(test.input.blob->Some_0@) == Some(blob),
        commit_bytes_outcome(blob, setup) == Ok::<Seq<u8>, Error>(c),
        expected_bytes(test.output, 48) == Some(Some(c)),
    ensures
        commitment_test_verdict(test, setup) == Ok::<(), Failure>(()),
{
}

/// An opening vector that expects a value passes if and only if the
/// expected proof and evaluation are those that the engine computes.
pub proof fn law_opening_vector_passes_iff_it_matches(
    test: TestCase,
    setup: TrustedSetup,
    blob: Seq<u8>,
    z: Seq<u8>,
    computed: (Seq<u8>, Seq<u8>),
    expected: (Seq<u8>, Seq<u8>),
)
    requires
        test.input.blob is Some,
        test.input.z is Some,
        text_decoding(test.input.blob->Some_0@) == Some(blob),
        text_decoding(test.input.z->Some_0@) == Some(z),
        opening_bytes_outcome(blob, z, setup) == Ok::<(Seq<u8>, Seq<u8>), Error>(computed),
        expected_pair(test.output) == Some(Some(expected)),
    ensures
        opening_test_verdict(test, setup) == Ok::<(), Failure>(()) <==> expected == computed,
{
}

/// A blob-proof vector that expects a value passes if and only if the
/// expected proof is the one that the engine computes.
pub proof fn law_blob_proof_vector_passes_iff_it_matches(
    test: TestCase,
    setup: TrustedSetup,
    blob: Seq<u8>,
    commitment: Seq<u8>,
    computed: Seq<u8>,
    expected: Seq<u8>,
)
    requires
        test.input.blob is Some,
        test.input.commitment is Some,
        text_decoding(test.input.blob->Some_0@) == Some(blob),
        text_decoding(test.input.commitment->Some_0@) == Some(commitment),
        blob_proof_bytes_outcome(blob, commitment, setup) == Ok::<Seq<u8>, Error>(computed),
        expected_bytes(test.output, 48) == Some(Some(expected)),
    ensures
        blob_proof_test_verdict(test, setup) == Ok::<(), Failure>(()) <==> expected == computed,
{
}

} // verus!
