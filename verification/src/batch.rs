//! Batch verification: many blob proofs checked at once.

use crate::backend::{backend_check_batch, byte_strings, kzg_batch_verdict};
use crate::blob::{blob_encodings, Blob};
use crate::blob_proof::{blob_verify_outcome, verify_blob_proof};
use crate::engine::{verdict_from_reply, verdict_reading};
use crate::error::Error;
use crate::point::{commitment_encodings, proof_encodings, KzgCommitment, KzgProof};
use crate::settings::TrustedSetup;
use vstd::prelude::*;

verus! {

/// The result of checking a batch. Lists of different lengths are
/// refused. The empty batch is valid. A batch of one is judged as its
/// only triple is. A larger batch succeeds exactly where the engine's
/// combined check accepts it.
pub open spec fn batch_outcome(
    blobs: Seq<Seq<u8>>,
    commitments: Seq<Seq<u8>>,
    proofs: Seq<Seq<u8>>,
    setup: TrustedSetup,
) -> Result<bool, Error> {
    if blobs.len() != commitments.len() || blobs.len() != proofs.len() {
        Err(Error::BackendError)
    } else if blobs.len() == 0 {
        Ok(true)
    } else if blobs.len() == 1 {
        blob_verify_outcome(blobs[0], commitments[0], proofs[0], setup)
    } else {
        verdict_reading(
            kzg_batch_verdict(blobs, commitments, proofs, setup.g1_points(), setup.g2_points()),
        )
    }
}

fn encode_blobs(blobs: &Vec<Blob>) -> (out: Vec<Vec<u8>>)
    ensures
        byte_strings(out@) == blob_encodings(blobs@),
{
    let mut out: Vec<Vec<u8>> = Vec::new();
    let mut i: usize = 0;
    while i < blobs.len()
        invariant
            i <= blobs@.len(),
            out@.len() == i,
            forall|j: int| 0 <= j < i ==> (#[trigger] out@[j])@ == blobs@[j]@,
        decreases blobs@.len() - i,
    {
        out.push(blobs[i].encode());
        i = i + 1;
    }
    assert(byte_strings(out@) =~= blob_encodings(blobs@));
    out
}

fn encode_commitments(commitments: &Vec<KzgCommitment>) -> (out: Vec<Vec<u8>>)
    ensures
        byte_strings(out@) == commitment_encodings(commitments@),
{
    let mut out: Vec<Vec<u8>> = Vec::new();
    let mut i: usize = 0;
    while i < commitments.len()
        invariant
            i <= commitments@.len(),
            out@.len() == i,
            forall|j: int| 0 <= j < i ==> (#[trigger] out@[j])@ == commitments@[j]@,
        decreases commitments@.len() - i,
    {
        out.push(commitments[i].encode());
        i = i + 1;
    }
    assert(byte_strings(out@) =~= commitment_encodings(commitments@));
    out
}

fn encode_proofs(proofs: &Vec<KzgProof>) -> (out: Vec<Vec<u8>>)
    ensures
        byte_strings(out@) == proof_encodings(proofs@),
{
    let mut out: Vec<Vec<u8>> = Vec::new();
    let mut i: usize = 0;
    while i < proofs.len()
        invariant
            i <= proofs@.len(),
            out@.len() == i,
            forall|j: int| 0 <= j < i ==> (#[trigger] out@[j])@ == proofs@[j]@,
        decreases proofs@.len() - i,
    {
        out.push(proofs[i].encode());
        i = i + 1;
    }
    assert(byte_strings(out@) =~= proof_encodings(proofs@));
    out
}

/// Checks the proofs of a batch of blobs against their commitments with
/// one combined check.
pub fn verify_blob_proof_batch(
    blobs: &Vec<Blob>,
    commitments: &Vec<KzgCommitment>,
    proofs: &Vec<KzgProof>,
    setup: &TrustedSetup,
) -> (r: Result<bool, Error>)
    ensures
        r == batch_outcome(
            blob_encodings(blobs@),
            commitment_encodings(commitments@),
            proof_encodings(proofs@),
            *setup,
        ),
{
    if blobs.len() != commitments.len() || blobs.len() != proofs.len() {
        return Err(Error::BackendError);
    }
    if blobs.len() == 0 {
        return Ok(true);
    }
    if blobs.len() == 1 {
        return verify_blob_proof(&blobs[0], &commitments[0], &proofs[0], setup);
    }
    let raw_blobs = encode_blobs(blobs);
    let raw_commitments = encode_commitments(commitments);
    let raw_proofs = encode_proofs(proofs);
    verdict_from_reply(
        backend_check_batch(&raw_blobs, &raw_commitments, &raw_proofs, setup.handle()),
    )
}

} // verus!
