//! The arithmetic that this library does not do itself: hashing, point
//! validation and the pairing-based engine. Each function here hands its
//! arguments to another crate, and its contract is taken on trust.

use crate::point::PointStatus;
use sha2::Digest;
use vstd::prelude::*;

verus! {

/// The engine's trusted setup, as `c-kzg` holds it.
#[verifier::external_type_specification]
#[verifier::external_body]
pub struct ExKzgSettings(c_kzg::KzgSettings);

/// The byte strings that a list of byte vectors holds.
pub open spec fn byte_strings(list: Seq<Vec<u8>>) -> Seq<Seq<u8>> {
    list.map_values(|item: Vec<u8>| item@)
}

/// The compressed G1 points, in Lagrange form, that a setup was loaded from.
pub uninterp spec fn setup_g1(settings: c_kzg::KzgSettings) -> Seq<Seq<u8>>;

/// The compressed G2 points, in monomial form, that a setup was loaded from.
pub uninterp spec fn setup_g2(settings: c_kzg::KzgSettings) -> Seq<Seq<u8>>;

/// What `blst` finds when it decompresses 48 bytes as a point of G1 and
/// tests the point for membership in the subgroup.
pub uninterp spec fn g1_point_status(bytes: Seq<u8>) -> PointStatus;

/// What `blst` finds when it decompresses 96 bytes as a point of G2 and
/// tests the point for membership in the subgroup.
pub uninterp spec fn g2_point_status(bytes: Seq<u8>) -> PointStatus;

/// The SHA-256 digest of `data`.
pub uninterp spec fn sha256_digest(data: Seq<u8>) -> Seq<u8>;

/// Whether the engine takes a setup of these points.
pub uninterp spec fn setup_accepted(g1: Seq<Seq<u8>>, g2: Seq<Seq<u8>>) -> bool;

/// The commitment that the engine computes for a blob under a setup, or
/// `None` where it refuses.
pub uninterp spec fn kzg_commitment(blob: Seq<u8>, g1: Seq<Seq<u8>>, g2: Seq<Seq<u8>>) -> Option<
    Seq<u8>,
>;

/// The proof and the evaluation that the engine computes for a blob at the
/// point `z` under a setup, or `None` where it refuses.
pub uninterp spec fn kzg_opening(
    blob: Seq<u8>,
    z: Seq<u8>,
    g1: Seq<Seq<u8>>,
    g2: Seq<Seq<u8>>,
) -> Option<(Seq<u8>, Seq<u8>)>;

/// Whether the engine's pairing check accepts `proof` as a witness that
/// `commitment` opens to `y` at `z`, or `None` where the engine refuses
/// the inputs.
pub uninterp spec fn kzg_opening_verdict(
    commitment: Seq<u8>,
    z: Seq<u8>,
    y: Seq<u8>,
    proof: Seq<u8>,
    g1: Seq<Seq<u8>>,
    g2: Seq<Seq<u8>>,
) -> Option<bool>;

/// Whether the engine's combined check accepts a batch of blobs,
/// commitments and proofs, or `None` where the engine refuses the inputs.
pub uninterp spec fn kzg_batch_verdict(
    blobs: Seq<Seq<u8>>,
    commitments: Seq<Seq<u8>>,
    proofs: Seq<Seq<u8>>,
    g1: Seq<Seq<u8>>,
    g2: Seq<Seq<u8>>,
) -> Option<bool>;

/// The view of an optional byte string.
pub open spec fn optional_bytes(value: Option<Vec<u8>>) -> Option<Seq<u8>> {
    match value {
        Some(bytes) => Some(bytes@),
        None => None,
    }
}

/// The view of an optional pair of byte strings.
pub open spec fn optional_pair(value: Option<(Vec<u8>, Vec<u8>)>) -> Option<(Seq<u8>, Seq<u8>)> {
    match value {
        Some(pair) => Some((pair.0@, pair.1@)),
        None => None,
    }
}

/// Calls `blst::min_sig::Signature::sig_validate` without the infinity
/// check. The contract claims that the outcome is a function of the 48
/// bytes alone: the point at infinity and every point of the subgroup are
/// valid, and each refusal is reported under its own status.
#[verifier::external_body]
pub(crate) fn check_g1_point(bytes: &[u8]) -> (status: PointStatus)
    requires
        bytes@.len() == 48,
    ensures
        status == g1_point_status(bytes@),
{
    match blst::min_sig::Signature::sig_validate(bytes, false) {
        Ok(_) => PointStatus::Valid,
        Err(blst::BLST_ERROR::BLST_POINT_NOT_ON_CURVE) => PointStatus::NotOnCurve,
        Err(blst::BLST_ERROR::BLST_POINT_NOT_IN_GROUP) => PointStatus::NotInSubgroup,
        Err(_) => PointStatus::BadEncoding,
    }
}

/// Calls `blst::min_pk::Signature::sig_validate` without the infinity
/// check, which does for 96 bytes and G2 what the function above does for
/// G1. The contract claims the same of it.
#[verifier::external_body]
pub(crate) fn check_g2_point(bytes: &[u8]) -> (status: PointStatus)
    requires
        bytes@.len() == 96,
    ensures
        status == g2_point_status(bytes@),
{
    match blst::min_pk::Signature::sig_validate(bytes, false) {
        Ok(_) => PointStatus::Valid,
        Err(blst::BLST_ERROR::BLST_POINT_NOT_ON_CURVE) => PointStatus::NotOnCurve,
        Err(blst::BLST_ERROR::BLST_POINT_NOT_IN_GROUP) => PointStatus::NotInSubgroup,
        Err(_) => PointStatus::BadEncoding,
    }
}

/// Calls `sha2::Sha256::digest`. The contract claims that the 32 bytes
/// returned are the SHA-256 digest of the input.
#[verifier::external_body]
pub(crate) fn sha256(data: &[u8]) -> (digest: [u8; 32])
    ensures
        digest@ == sha256_digest(data@),
{
    sha2::Sha256::digest(data).into()
}

/// Calls `c_kzg::KzgSettings::load_trusted_setup`. The contract claims
/// that whether a setup is taken depends on the points alone, and that a
/// setup which is returned holds the points it was given, in the order
/// given.
#[verifier::external_body]
pub(crate) fn backend_load(g1: &Vec<Vec<u8>>, g2: &Vec<Vec<u8>>) -> (r: Option<c_kzg::KzgSettings>)
    requires
        forall|i: int| 0 <= i < g1@.len() ==> (#[trigger] g1@[i])@.len() == 48,
        forall|i: int| 0 <= i < g2@.len() ==> (#[trigger] g2@[i])@.len() == 96,
    ensures
        r is Some <==> setup_accepted(byte_strings(g1@), byte_strings(g2@)),
        r matches Some(s) ==> setup_g1(s) == byte_strings(g1@) && setup_g2(s) == byte_strings(g2@),
{
    let g1: Vec<[u8; 48]> = g1.iter().map(|p| <[u8; 48]>::try_from(p.as_slice()).unwrap()).collect();
    let g2: Vec<[u8; 96]> = g2.iter().map(|p| <[u8; 96]>::try_from(p.as_slice()).unwrap()).collect();
    c_kzg::KzgSettings::load_trusted_setup(&g1, &g2).ok()
}

/// Calls `c_kzg::KzgCommitment::blob_to_kzg_commitment`. The contract
/// claims that the outcome, a commitment or a refusal, depends on the blob
/// and on the setup's points alone.
#[verifier::external_body]
pub(crate) fn backend_commit(blob: &[u8], settings: &c_kzg::KzgSettings) -> (r: Option<Vec<u8>>)
    ensures
        optional_bytes(r) == kzg_commitment(blob@, setup_g1(*settings), setup_g2(*settings)),
{
    let blob = c_kzg::Blob::from_bytes(blob).ok()?;
    let commitment = c_kzg::KzgCommitment::blob_to_kzg_commitment(&blob, settings).ok()?;
    Some(commitment.to_bytes().into_inner().to_vec())
}

/// Calls `c_kzg::KzgProof::compute_kzg_proof`. The contract claims that
/// the outcome, a proof with an evaluation or a refusal, depends on the
/// blob, the point `z` and the setup's points alone.
#[verifier::external_body]
pub(crate) fn backend_open(blob: &[u8], z: &[u8], settings: &c_kzg::KzgSettings) -> (r: Option<
    (Vec<u8>, Vec<u8>),
>)
    ensures
        optional_pair(r) == kzg_opening(blob@, z@, setup_g1(*settings), setup_g2(*settings)),
{
    let blob = c_kzg::Blob::from_bytes(blob).ok()?;
    let z = c_kzg::Bytes32::from_bytes(z).ok()?;
    let (proof, y) = c_kzg::KzgProof::compute_kzg_proof(&blob, &z, settings).ok()?;
    Some((proof.to_bytes().into_inner().to_vec(), y.to_vec()))
}

/// Calls `c_kzg::KzgProof::verify_kzg_proof`. The contract claims that the
/// outcome, a verdict or a refusal, depends on the four encodings and on
/// the setup's points alone.
#[verifier::external_body]
pub(crate) fn backend_check_opening(
    commitment: &[u8],
    z: &[u8],
    y: &[u8],
    proof: &[u8],
    settings: &c_kzg::KzgSettings,
) -> (r: Option<bool>)
    ensures
        r == kzg_opening_verdict(
            commitment@,
            z@,
            y@,
            proof@,
            setup_g1(*settings),
            setup_g2(*settings),
        ),
{
    let commitment = c_kzg::Bytes48::from_bytes(commitment).ok()?;
    let z = c_kzg::Bytes32::from_bytes(z).ok()?;
    let y = c_kzg::Bytes32::from_bytes(y).ok()?;
    let proof = c_kzg::Bytes48::from_bytes(proof).ok()?;
    c_kzg::KzgProof::verify_kzg_proof(&commitment, &z, &y, &proof, settings).ok()
}

/// Calls `c_kzg::KzgProof::verify_blob_kzg_proof_batch`. The contract
/// claims that the outcome, a verdict or a refusal, depends on the three
/// lists and on the setup's points alone: the weights of the combined check
/// are derived by hashing the inputs.
#[verifier::external_body]
pub(crate) fn backend_check_batch(
    blobs: &Vec<Vec<u8>>,
    commitments: &Vec<Vec<u8>>,
    proofs: &Vec<Vec<u8>>,
    settings: &c_kzg::KzgSettings,
) -> (r: Option<bool>)
    ensures
        r == kzg_batch_verdict(
            byte_strings(blobs@),
            byte_strings(commitments@),
            byte_strings(proofs@),
            setup_g1(*settings),
            setup_g2(*settings),
        ),
{
    let blobs: Vec<c_kzg::Blob> = blobs.iter().map(|b| c_kzg::Blob::from_bytes(b))
        .collect::<Result<_, _>>().ok()?;
    let commitments: Vec<c_kzg::Bytes48> = commitments.iter().map(
        |c| c_kzg::Bytes48::from_bytes(c)).collect::<Result<_, _>>().ok()?;
    let proofs: Vec<c_kzg::Bytes48> = proofs.iter().map(
        |p| c_kzg::Bytes48::from_bytes(p)).collect::<Result<_, _>>().ok()?;
    c_kzg::KzgProof::verify_blob_kzg_proof_batch(&blobs, &commitments, &proofs, settings).ok()
}

} // verus!
