//! The commitment engine: committing to a blob, opening the commitment at
//! a point, and checking an opening.

use crate::backend::{
    backend_check_opening, backend_commit, backend_open, kzg_commitment, kzg_opening,
    kzg_opening_verdict, optional_bytes, optional_pair,
};
use crate::blob::Blob;
use crate::error::Error;
use crate::field::{decode_field_element, is_canonical_scalar, FieldElement};
use crate::point::{is_g1_encoding, KzgCommitment, KzgProof};
use crate::settings::TrustedSetup;
use vstd::prelude::*;

verus! {

/// An opening proof together with the value that the polynomial takes at
/// the queried point.
#[derive(Debug, PartialEq, Eq)]
pub struct ProofAndEvaluation {
    pub proof: KzgProof,
    pub evaluation: FieldElement,
}

/// How a reply of the engine that should hold a point is read: it is
/// taken only if it decodes as one.
pub open spec fn point_reading(reply: Option<Seq<u8>>) -> Result<Seq<u8>, Error> {
    match reply {
        Some(bytes) => if is_g1_encoding(bytes) {
            Ok(bytes)
        } else {
            Err(Error::BackendError)
        },
        None => Err(Error::BackendError),
    }
}

/// How a reply of the engine that should hold a proof and an evaluation
/// is read: it is taken only if both decode.
pub open spec fn opening_reading(reply: Option<(Seq<u8>, Seq<u8>)>) -> Result<
    (Seq<u8>, Seq<u8>),
    Error,
> {
    match reply {
        Some(pair) => if is_g1_encoding(pair.0) && is_canonical_scalar(pair.1) {
            Ok(pair)
        } else {
            Err(Error::BackendError)
        },
        None => Err(Error::BackendError),
    }
}

/// How the engine's reply to a verification is read: only an explicit
/// acceptance succeeds.
pub open spec fn verdict_reading(reply: Option<bool>) -> Result<bool, Error> {
    if reply == Some(true) {
        Ok(true)
    } else {
        Err(Error::BackendError)
    }
}

/// The result of committing to a blob under a setup. A blob whose element
/// count is not the size of the setup's domain is refused.
pub open spec fn commit_outcome(blob: Seq<u8>, setup: TrustedSetup) -> Result<Seq<u8>, Error> {
    if blob.len() != 32 * setup.domain() {
        Err(Error::BackendError)
    } else {
        point_reading(kzg_commitment(blob, setup.g1_points(), setup.g2_points()))
    }
}

/// The result of opening a blob at the point `z` under a setup: the proof
/// and the evaluation.
pub open spec fn opening_outcome(blob: Seq<u8>, z: Seq<u8>, setup: TrustedSetup) -> Result<
    (Seq<u8>, Seq<u8>),
    Error,
> {
    if blob.len() != 32 * setup.domain() {
        Err(Error::BackendError)
    } else {
        opening_reading(kzg_opening(blob, z, setup.g1_points(), setup.g2_points()))
    }
}

/// The result of checking that `commitment` opens to `y` at `z` with
/// witness `proof`: `Ok(true)` where the engine's pairing check accepts,
/// `BackendError` otherwise, and never `Ok(false)`.
pub open spec fn verify_outcome(
    commitment: Seq<u8>,
    z: Seq<u8>,
    y: Seq<u8>,
    proof: Seq<u8>,
    setup: TrustedSetup,
) -> Result<bool, Error> {
    verdict_reading(
        kzg_opening_verdict(commitment, z, y, proof, setup.g1_points(), setup.g2_points()),
    )
}

/// Whether `r` is the result of committing to a blob under a setup.
pub open spec fn is_commit_result(
    blob: Seq<u8>,
    setup: TrustedSetup,
    r: Result<KzgCommitment, Error>,
) -> bool {
    match r {
        Ok(c) => commit_outcome(blob, setup) == Ok::<Seq<u8>, Error>(c@),
        Err(e) => commit_outcome(blob, setup) == Err::<Seq<u8>, Error>(e),
    }
}

/// Whether `r` is the result of opening a blob at `z` under a setup.
pub open spec fn is_opening_result(
    blob: Seq<u8>,
    z: Seq<u8>,
    setup: TrustedSetup,
    r: Result<ProofAndEvaluation, Error>,
) -> bool {
    match r {
        Ok(opening) => opening_outcome(blob, z, setup) == Ok::<(Seq<u8>, Seq<u8>), Error>(
            (opening.proof@, opening.evaluation@),
        ),
        Err(e) => opening_outcome(blob, z, setup) == Err::<(Seq<u8>, Seq<u8>), Error>(e),
    }
}

/// Reads the engine's reply to a request for a commitment. A reply is
/// taken only if it decodes as a point; anything else is a failure of the
/// engine.
pub fn commitment_from_reply(reply: Option<Vec<u8>>) -> (r: Result<KzgCommitment, Error>)
    ensures
        match r {
            Ok(c) => point_reading(optional_bytes(reply)) == Ok::<Seq<u8>, Error>(c@),
            Err(e) => point_reading(optional_bytes(reply)) == Err::<Seq<u8>, Error>(e),
        },
{
    match reply {
        Some(bytes) => match KzgCommitment::decode(bytes.as_slice()) {
            Ok(c) => Ok(c),
            Err(_) => Err(Error::BackendError),
        },
        None => Err(Error::BackendError),
    }
}

/// Reads the engine's reply to a request for a proof and an evaluation.
/// A reply is taken only if its proof decodes as a point and its
/// evaluation as a field element.
pub fn opening_from_reply(reply: Option<(Vec<u8>, Vec<u8>)>) -> (r: Result<
    ProofAndEvaluation,
    Error,
>)
    ensures
        match r {
            Ok(opening) => opening_reading(optional_pair(reply)) == Ok::<
                (Seq<u8>, Seq<u8>),
                Error,
            >((opening.proof@, opening.evaluation@)),
            Err(e) => opening_reading(optional_pair(reply)) == Err::<(Seq<u8>, Seq<u8>), Error>(e),
        },
{
    match reply {
        Some(pair) => {
            let witness = match KzgProof::decode(pair.0.as_slice()) {
                Ok(p) => p,
                Err(_) => {
                    return Err(Error::BackendError);
                },
            };
            match decode_field_element(pair.1.as_slice()) {
                Ok(evaluation) => Ok(ProofAndEvaluation { proof: witness, evaluation }),
                Err(_) => Err(Error::BackendError),
            }
        },
        None => Err(Error::BackendError),
    }
}

/// Reads the engine's reply to a verification. Only an explicit
/// acceptance succeeds: a refusal and a failure of the engine both come
/// out as `BackendError`, so that no caller can overlook a truth value.
pub fn verdict_from_reply(reply: Option<bool>) -> (r: Result<bool, Error>)
    ensures
        r == verdict_reading(reply),
{
    match reply {
        Some(true) => Ok(true),
        _ => Err(Error::BackendError),
    }
}

/// Commits to a blob: the linear combination of the setup's Lagrange
/// points weighted by the blob's elements.
pub fn commit(blob: &Blob, setup: &TrustedSetup) -> (r: Result<KzgCommitment, Error>)
    ensures
        is_commit_result(blob@, *setup, r),
{
    if blob.len() != setup.domain_size() {
        return Err(Error::BackendError);
    }
    commitment_from_reply(backend_commit(blob.as_bytes(), setup.handle()))
}

/// Evaluates the blob's polynomial at `z` and proves the evaluation.
pub fn compute_proof(blob: &Blob, z: &FieldElement, setup: &TrustedSetup) -> (r: Result<
    ProofAndEvaluation,
    Error,
>)
    ensures
        is_opening_result(blob@, z@, *setup, r),
{
    if blob.len() != setup.domain_size() {
        return Err(Error::BackendError);
    }
    opening_from_reply(backend_open(blob.as_bytes(), z.as_bytes(), setup.handle()))
}

/// Checks that `commitment` opens to `y` at `z` with witness `proof`.
pub fn verify_proof(
    commitment: &KzgCommitment,
    z: &FieldElement,
    y: &FieldElement,
    proof: &KzgProof,
    setup: &TrustedSetup,
) -> (r: Result<bool, Error>)
    ensures
        r == verify_outcome(commitment@, z@, y@, proof@, *setup),
{
    verdict_from_reply(
        backend_check_opening(
            commitment.as_bytes(),
            z.as_bytes(),
            y.as_bytes(),
            proof.as_bytes(),
            setup.handle(),
        ),
    )
}

} // verus!
