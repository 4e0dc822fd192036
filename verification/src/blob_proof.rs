//! Blob proofs: openings at a point that is derived from the blob and its
//! commitment, so that the caller chooses no point.

use crate::backend::{sha256, sha256_digest};
use crate::blob::Blob;
use crate::engine::{compute_proof, opening_outcome, verify_outcome, verify_proof};
use crate::error::Error;
use crate::field::{hash_to_field, scalar_modulus, FieldElement};
use crate::numeric::{be_bytes, be_value, lemma_be_bytes_of_be_value, write_u128};
use crate::point::{KzgCommitment, KzgProof};
use crate::settings::TrustedSetup;
use vstd::prelude::*;

verus! {

/// The domain-separation tag of the challenge, `FSBLOBVERIFY_V1_` in ASCII.
pub open spec fn fiat_shamir_tag() -> Seq<u8> {
    seq![
        0x46u8, 0x53u8, 0x42u8, 0x4cu8, 0x4fu8, 0x42u8, 0x56u8, 0x45u8,
        0x52u8, 0x49u8, 0x46u8, 0x59u8, 0x5fu8, 0x56u8, 0x31u8, 0x5fu8,
    ]
}

/// What is hashed for the challenge: the tag, the blob's element count on
/// 16 bytes, the blob's encoding and the commitment's encoding.
pub open spec fn challenge_preimage(blob: Seq<u8>, commitment: Seq<u8>) -> Seq<u8> {
    fiat_shamir_tag() + be_bytes((blob.len() / 32) as nat, 16) + blob + commitment
}

/// The challenge as a number: the digest of the preimage, read most
/// significant byte first and reduced into the scalar field.
pub open spec fn challenge_value(blob: Seq<u8>, commitment: Seq<u8>) -> nat {
    be_value(sha256_digest(challenge_preimage(blob, commitment))) % scalar_modulus()
}

/// The canonical encoding of the challenge.
pub open spec fn challenge_bytes(blob: Seq<u8>, commitment: Seq<u8>) -> Seq<u8> {
    be_bytes(challenge_value(blob, commitment), 32)
}

/// The result of proving a blob against a commitment: the proof of the
/// opening at the challenge, the evaluation being dropped.
pub open spec fn blob_proof_outcome(
    blob: Seq<u8>,
    commitment: Seq<u8>,
    setup: TrustedSetup,
) -> Result<Seq<u8>, Error> {
    match opening_outcome(blob, challenge_bytes(blob, commitment), setup) {
        Ok(pair) => Ok(pair.0),
        Err(e) => Err(e),
    }
}

/// The result of checking a blob proof: the blob's polynomial is evaluated
/// at the challenge, and the commitment must open to that value there with
/// the given proof.
pub open spec fn blob_verify_outcome(
    blob: Seq<u8>,
    commitment: Seq<u8>,
    proof: Seq<u8>,
    setup: TrustedSetup,
) -> Result<bool, Error> {
    let z = challenge_bytes(blob, commitment);
    match opening_outcome(blob, z, setup) {
        Ok(pair) => verify_outcome(commitment, z, pair.1, proof, setup),
        Err(e) => Err(e),
    }
}

/// Builds what is hashed for the challenge.
fn build_preimage(blob: &Blob, commitment: &KzgCommitment) -> (out: Vec<u8>)
    ensures
        out@ == challenge_preimage(blob@, commitment@),
{
    let tag: [u8; 16] = [
        0x46, 0x53, 0x42, 0x4c, 0x4f, 0x42, 0x56, 0x45,
        0x52, 0x49, 0x46, 0x59, 0x5f, 0x56, 0x31, 0x5f,
    ];
    let mut out: Vec<u8> = Vec::new();
    out.extend_from_slice(tag.as_slice());
    assert(out@ =~= fiat_shamir_tag());
    let count: Vec<u8> = write_u128(blob.len() as u128);
    out.extend_from_slice(count.as_slice());
    out.extend_from_slice(blob.as_bytes());
    out.extend_from_slice(commitment.as_bytes());
    out
}

/// Derives the evaluation point for a blob and its commitment. The same
/// inputs always give the same challenge.
pub fn challenge(blob: &Blob, commitment: &KzgCommitment) -> (z: FieldElement)
    ensures
        z.value() == challenge_value(blob@, commitment@),
        z@ == challenge_bytes(blob@, commitment@),
{
    let preimage = build_preimage(blob, commitment);
    let digest = sha256(preimage.as_slice());
    let z = hash_to_field(&digest);
    proof {
        use_type_invariant(&z);
        lemma_be_bytes_of_be_value(z@);
    }
    z
}

/// Proves the blob's evaluation at its challenge. The evaluation itself
/// is dropped: a verifier recomputes it from the blob.
pub fn compute_blob_proof(blob: &Blob, commitment: &KzgCommitment, setup: &TrustedSetup) -> (r:
    Result<KzgProof, Error>)
    ensures
        match r {
            Ok(p) => blob_proof_outcome(blob@, commitment@, *setup) == Ok::<Seq<u8>, Error>(p@),
            Err(e) => blob_proof_outcome(blob@, commitment@, *setup) == Err::<Seq<u8>, Error>(e),
        },
{
    let z = challenge(blob, commitment);
    match compute_proof(blob, &z, setup) {
        Ok(opening) => Ok(opening.proof),
        Err(e) => Err(e),
    }
}

/// Checks a blob proof. The expected evaluation is recomputed from the
/// blob, never taken from the caller.
pub fn verify_blob_proof(
    blob: &Blob,
    commitment: &KzgCommitment,
    proof: &KzgProof,
    setup: &TrustedSetup,
) -> (r: Result<bool, Error>)
    ensures
        r == blob_verify_outcome(blob@, commitment@, proof@, *setup),
{
    let z = challenge(blob, commitment);
    let opening = match compute_proof(blob, &z, setup) {
        Ok(opening) => opening,
        Err(e) => {
            return Err(e);
        },
    };
    verify_proof(commitment, &z, &opening.evaluation, proof, setup)
}

} // verus!
