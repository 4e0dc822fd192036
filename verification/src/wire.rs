//! The engine on byte strings: every input is decoded before any
//! arithmetic, and every output is encoded.

use crate::backend::byte_strings;
use crate::batch::{batch_outcome, verify_blob_proof_batch};
use crate::blob::{blob_encodings, is_blob_encoding, Blob};
use crate::blob_proof::{
    blob_proof_outcome, blob_verify_outcome, compute_blob_proof, verify_blob_proof,
};
use crate::engine::{
    commit, commit_outcome, compute_proof, opening_outcome, verify_outcome, verify_proof,
};
use crate::error::Error;
use crate::field::{decode_field_element, is_canonical_scalar};
use crate::point::{
    commitment_encodings, g1_verdict, proof_encodings, KzgCommitment, KzgProof,
};
use crate::settings::TrustedSetup;
use vstd::prelude::*;

verus! {

/// The error, if any, with which a blob and a point `z` are refused at
/// decode time. The blob is decoded first.
pub open spec fn blob_and_point_error(blob: Seq<u8>, z: Seq<u8>) -> Option<Error> {
    if !is_blob_encoding(blob) || !is_canonical_scalar(z) {
        Some(Error::InvalidEncoding)
    } else {
        None
    }
}

/// The error, if any, with which the inputs of a verification are refused
/// at decode time: commitment, `z`, `y` and proof are decoded in this
/// order, and the first failure is reported.
pub open spec fn opening_inputs_error(
    commitment: Seq<u8>,
    z: Seq<u8>,
    y: Seq<u8>,
    proof: Seq<u8>,
) -> Option<Error> {
    if g1_verdict(commitment) is Err {
        Some(g1_verdict(commitment)->Err_0)
    } else if !is_canonical_scalar(z) || !is_canonical_scalar(y) {
        Some(Error::InvalidEncoding)
    } else if g1_verdict(proof) is Err {
        Some(g1_verdict(proof)->Err_0)
    } else {
        None
    }
}

/// The error, if any, with which a blob and a commitment are refused at
/// decode time. The blob is decoded first.
pub open spec fn blob_and_commitment_error(blob: Seq<u8>, commitment: Seq<u8>) -> Option<Error> {
    if !is_blob_encoding(blob) {
        Some(Error::InvalidEncoding)
    } else if g1_verdict(commitment) is Err {
        Some(g1_verdict(commitment)->Err_0)
    } else {
        None
    }
}

/// The error, if any, with which a blob, a commitment and a proof are
/// refused at decode time, decoded in this order.
pub open spec fn blob_proof_inputs_error(
    blob: Seq<u8>,
    commitment: Seq<u8>,
    proof: Seq<u8>,
) -> Option<Error> {
    if blob_and_commitment_error(blob, commitment) is Some {
        blob_and_commitment_error(blob, commitment)
    } else if g1_verdict(proof) is Err {
        Some(g1_verdict(proof)->Err_0)
    } else {
        None
    }
}

/// Whether every triple of a batch decodes.
pub open spec fn batch_decodes(
    blobs: Seq<Seq<u8>>,
    commitments: Seq<Seq<u8>>,
    proofs: Seq<Seq<u8>>,
) -> bool {
    &&& blobs.len() == commitments.len()
    &&& blobs.len() == proofs.len()
    &&& forall|i: int|
        0 <= i < blobs.len() ==> blob_proof_inputs_error(
            #[trigger] blobs[i],
            commitments[i],
            proofs[i],
        ) is None
}

/// The result of committing to a blob given in encoded form.
pub open spec fn commit_bytes_outcome(blob: Seq<u8>, setup: TrustedSetup) -> Result<
    Seq<u8>,
    Error,
> {
    if !is_blob_encoding(blob) {
        Err(Error::InvalidEncoding)
    } else {
        commit_outcome(blob, setup)
    }
}

/// The result of opening a blob at a point, both given in encoded form.
pub open spec fn opening_bytes_outcome(blob: Seq<u8>, z: Seq<u8>, setup: TrustedSetup) -> Result<
    (Seq<u8>, Seq<u8>),
    Error,
> {
    match blob_and_point_error(blob, z) {
        Some(e) => Err(e),
        None => opening_outcome(blob, z, setup),
    }
}

/// The result of checking an opening given in encoded form.
pub open spec fn verify_bytes_outcome(
    commitment: Seq<u8>,
    z: Seq<u8>,
    y: Seq<u8>,
    proof: Seq<u8>,
    setup: TrustedSetup,
) -> Result<bool, Error> {
    match opening_inputs_error(commitment, z, y, proof) {
        Some(e) => Err(e),
        None => verify_outcome(commitment, z, y, proof, setup),
    }
}

/// The result of proving a blob against a commitment, both given in
/// encoded form.
pub open spec fn blob_proof_bytes_outcome(
    blob: Seq<u8>,
    commitment: Seq<u8>,
    setup: TrustedSetup,
) -> Result<Seq<u8>, Error> {
    match blob_and_commitment_error(blob, commitment) {
        Some(e) => Err(e),
        None => blob_proof_outcome(blob, commitment, setup),
    }
}

/// The result of checking a blob proof given in encoded form.
pub open spec fn blob_verify_bytes_outcome(
    blob: Seq<u8>,
    commitment: Seq<u8>,
    proof: Seq<u8>,
    setup: TrustedSetup,
) -> Result<bool, Error> {
    match blob_proof_inputs_error(blob, commitment, proof) {
        Some(e) => Err(e),
        None => blob_verify_outcome(blob, commitment, proof, setup),
    }
}

/// The result of checking a batch given in encoded form. A batch in which
/// any input fails to decode, or whose lists differ in length, is refused
/// as a whole; otherwise the decoded batch decides.
pub open spec fn batch_bytes_outcome(
    blobs: Seq<Seq<u8>>,
    commitments: Seq<Seq<u8>>,
    proofs: Seq<Seq<u8>>,
    setup: TrustedSetup,
) -> Result<bool, Error> {
    if !batch_decodes(blobs, commitments, proofs) {
        Err(Error::BackendError)
    } else {
        batch_outcome(blobs, commitments, proofs, setup)
    }
}

/// The view of the result of an operation that returns a byte string.
pub open spec fn bytes_result(r: Result<Vec<u8>, Error>) -> Result<Seq<u8>, Error> {
    match r {
        Ok(bytes) => Ok(bytes@),
        Err(e) => Err(e),
    }
}

/// The view of the result of an operation that returns two byte strings.
pub open spec fn pair_result(r: Result<(Vec<u8>, Vec<u8>), Error>) -> Result<
    (Seq<u8>, Seq<u8>),
    Error,
> {
    match r {
        Ok(pair) => Ok((pair.0@, pair.1@)),
        Err(e) => Err(e),
    }
}

/// The encoded commitment of an encoded blob.
pub fn commit_bytes(blob: &[u8], setup: &TrustedSetup) -> (r: Result<Vec<u8>, Error>)
    ensures
        bytes_result(r) == commit_bytes_outcome(blob@, *setup),
{
    let blob = match Blob::decode(blob) {
        Ok(b) => b,
        Err(e) => {
            return Err(e);
        },
    };
    match commit(&blob, setup) {
        Ok(c) => Ok(c.encode()),
        Err(e) => Err(e),
    }
}

/// The encoded proof and evaluation of an encoded blob at an encoded
/// point.
pub fn compute_proof_bytes(blob: &[u8], z: &[u8], setup: &TrustedSetup) -> (r: Result<
    (Vec<u8>, Vec<u8>),
    Error,
>)
    ensures
        pair_result(r) == opening_bytes_outcome(blob@, z@, *setup),
{
    let blob = match Blob::decode(blob) {
        Ok(b) => b,
        Err(e) => {
            return Err(e);
        },
    };
    let z = match decode_field_element(z) {
        Ok(z) => z,
        Err(e) => {
            return Err(e);
        },
    };
    match compute_proof(&blob, &z, setup) {
        Ok(opening) => Ok(
            (opening.proof.encode(), crate::field::encode_field_element(&opening.evaluation)),
        ),
        Err(e) => Err(e),
    }
}

/// Checks an opening given in encoded form. An input that does not decode
/// is reported as such, never as an invalid proof.
pub fn verify_proof_bytes(
    commitment: &[u8],
    z: &[u8],
    y: &[u8],
    proof: &[u8],
    setup: &TrustedSetup,
) -> (r: Result<bool, Error>)
    ensures
        r == verify_bytes_outcome(commitment@, z@, y@, proof@, *setup),
{
    let commitment = match KzgCommitment::decode(commitment) {
        Ok(c) => c,
        Err(e) => {
            return Err(e);
        },
    };
    let z = match decode_field_element(z) {
        Ok(z) => z,
        Err(e) => {
            return Err(e);
        },
    };
    let y = match decode_field_element(y) {
        Ok(y) => y,
        Err(e) => {
            return Err(e);
        },
    };
    let proof = match KzgProof::decode(proof) {
        Ok(p) => p,
        Err(e) => {
            return Err(e);
        },
    };
    verify_proof(&commitment, &z, &y, &proof, setup)
}

/// The encoded blob proof of an encoded blob and commitment.
pub fn compute_blob_proof_bytes(blob: &[u8], commitment: &[u8], setup: &TrustedSetup) -> (r:
    Result<Vec<u8>, Error>)
    ensures
        bytes_result(r) == blob_proof_bytes_outcome(blob@, commitment@, *setup),
{
    let blob = match Blob::decode(blob) {
        Ok(b) => b,
        Err(e) => {
            return Err(e);
        },
    };
    let commitment = match KzgCommitment::decode(commitment) {
        Ok(c) => c,
        Err(e) => {
            return Err(e);
        },
    };
    match compute_blob_proof(&blob, &commitment, setup) {
        Ok(p) => Ok(p.encode()),
        Err(e) => Err(e),
    }
}

/// Checks a blob proof given in encoded form.
pub fn verify_blob_proof_bytes(
    blob: &[u8],
    commitment: &[u8],
    proof: &[u8],
    setup: &TrustedSetup,
) -> (r: Result<bool, Error>)
    ensures
        r == blob_verify_bytes_outcome(blob@, commitment@, proof@, *setup),
{
    let blob = match Blob::decode(blob) {
        Ok(b) => b,
        Err(e) => {
            return Err(e);
        },
    };
    let commitment = match KzgCommitment::decode(commitment) {
        Ok(c) => c,
        Err(e) => {
            return Err(e);
        },
    };
    let proof = match KzgProof::decode(proof) {
        Ok(p) => p,
        Err(e) => {
            return Err(e);
        },
    };
    verify_blob_proof(&blob, &commitment, &proof, setup)
}

/// Checks a batch given in encoded form. One input that fails to decode
/// aborts the whole batch: no triple is silently left out.
pub fn verify_blob_proof_batch_bytes(
    blobs: &Vec<Vec<u8>>,
    commitments: &Vec<Vec<u8>>,
    proofs: &Vec<Vec<u8>>,
    setup: &TrustedSetup,
) -> (r: Result<bool, Error>)
    ensures
        r == batch_bytes_outcome(
            byte_strings(blobs@),
            byte_strings(commitments@),
            byte_strings(proofs@),
            *setup,
        ),
{
    let n: usize = blobs.len();
    if n != commitments.len() || n != proofs.len() {
        return Err(Error::BackendError);
    }
    let ghost raw_blobs = byte_strings(blobs@);
    let ghost raw_commitments = byte_strings(commitments@);
    let ghost raw_proofs = byte_strings(proofs@);
    let mut decoded_blobs: Vec<Blob> = Vec::new();
    let mut decoded_commitments: Vec<KzgCommitment> = Vec::new();
    let mut decoded_proofs: Vec<KzgProof> = Vec::new();
    let mut i: usize = 0;
    while i < n
        invariant
            i <= n,
            n == blobs@.len(),
            n == commitments@.len(),
            n == proofs@.len(),
            raw_blobs == byte_strings(blobs@),
            raw_commitments == byte_strings(commitments@),
            raw_proofs == byte_strings(proofs@),
            decoded_blobs@.len() == i,
            decoded_commitments@.len() == i,
            decoded_proofs@.len() == i,
            forall|j: int| 0 <= j < i ==> (#[trigger] decoded_blobs@[j])@ == raw_blobs[j],
            forall|j: int|
                0 <= j < i ==> (#[trigger] decoded_commitments@[j])@ == raw_commitments[j],
            forall|j: int| 0 <= j < i ==> (#[trigger] decoded_proofs@[j])@ == raw_proofs[j],
            forall|j: int|
                0 <= j < i ==> blob_proof_inputs_error(
                    #[trigger] raw_blobs[j],
                    raw_commitments[j],
                    raw_proofs[j],
                ) is None,
        decreases n - i,
    {
        assert(raw_blobs[i as int] == blobs@[i as int]@);
        assert(raw_commitments[i as int] == commitments@[i as int]@);
        assert(raw_proofs[i as int] == proofs@[i as int]@);
        let blob = match Blob::decode(blobs[i].as_slice()) {
            Ok(b) => b,
            Err(_) => {
                return Err(Error::BackendError);
            },
        };
        let commitment = match KzgCommitment::decode(commitments[i].as_slice()) {
            Ok(c) => c,
            Err(_) => {
                return Err(Error::BackendError);
            },
        };
        let proof = match KzgProof::decode(proofs[i].as_slice()) {
            Ok(p) => p,
            Err(_) => {
                return Err(Error::BackendError);
            },
        };
        decoded_blobs.push(blob);
        decoded_commitments.push(commitment);
        decoded_proofs.push(proof);
        i = i + 1;
    }
    let r = verify_blob_proof_batch(&decoded_blobs, &decoded_commitments, &decoded_proofs, setup);
    proof {
        assert(blob_encodings(decoded_blobs@) =~= raw_blobs);
        assert(commitment_encodings(decoded_commitments@) =~= raw_commitments);
        assert(proof_encodings(decoded_proofs@) =~= raw_proofs);
        assert(batch_decodes(raw_blobs, raw_commitments, raw_proofs));
    }
    r
}

} // verus!
