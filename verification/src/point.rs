//! Compressed points of the group G1: commitments and opening proofs.

use crate::backend::{check_g1_point, g1_point_status};
use crate::error::Error;
use vstd::prelude::*;
use vstd::slice::slice_to_vec;

verus! {

/// Width in bytes of a compressed G1 point.
pub const BYTES_PER_G1_POINT: usize = 48;

/// Width in bytes of an encoded commitment.
pub const BYTES_PER_COMMITMENT: usize = 48;

/// Width in bytes of an encoded proof.
pub const BYTES_PER_PROOF: usize = 48;

/// What a point decoder finds in a byte string of the right length.
#[derive(Debug, Clone, Copy, PartialEq, Eq, Structural)]
pub enum PointStatus {
    /// A point of the curve that lies in the prime-order subgroup.
    Valid,
    /// The flag bits or the coordinate are not those of any encoding.
    BadEncoding,
    /// No point of the curve has the encoded x-coordinate.
    NotOnCurve,
    /// A point of the curve outside the prime-order subgroup.
    NotInSubgroup,
}

/// The decoding error, if any, that a status stands for.
pub open spec fn status_verdict(status: PointStatus) -> Result<(), Error> {
    match status {
        PointStatus::Valid => Ok(()),
        PointStatus::BadEncoding => Err(Error::InvalidEncoding),
        PointStatus::NotOnCurve => Err(Error::NotOnCurve),
        PointStatus::NotInSubgroup => Err(Error::NotInSubgroup),
    }
}

/// The outcome of decoding `bytes` as a G1 point: the length is judged
/// first, then the point itself.
pub open spec fn g1_verdict(bytes: Seq<u8>) -> Result<(), Error> {
    if bytes.len() != 48 {
        Err(Error::InvalidEncoding)
    } else {
        status_verdict(g1_point_status(bytes))
    }
}

/// The outcome of decoding `bytes` as a G1 point: the bytes themselves
/// where they are accepted, the decoder's error otherwise.
pub open spec fn point_decoding(bytes: Seq<u8>) -> Result<Seq<u8>, Error> {
    match g1_verdict(bytes) {
        Ok(_) => Ok(bytes),
        Err(e) => Err(e),
    }
}

/// Whether `bytes` encodes a point of G1 that decoding accepts.
pub open spec fn is_g1_encoding(bytes: Seq<u8>) -> bool {
    g1_verdict(bytes) is Ok
}

/// Turns what the point decoder found into the result of decoding.
pub fn verdict_of_status(status: PointStatus) -> (r: Result<(), Error>)
    ensures
        r == status_verdict(status),
{
    match status {
        PointStatus::Valid => Ok(()),
        PointStatus::BadEncoding => Err(Error::InvalidEncoding),
        PointStatus::NotOnCurve => Err(Error::NotOnCurve),
        PointStatus::NotInSubgroup => Err(Error::NotInSubgroup),
    }
}

/// A point of G1 in the prime-order subgroup, held in its compressed
/// encoding.
#[derive(Debug, PartialEq, Eq)]
pub struct G1Point {
    bytes: Vec<u8>,
}

impl View for G1Point {
    type V = Seq<u8>;

    /// The compressed encoding.
    closed spec fn view(&self) -> Seq<u8> {
        self.bytes@
    }
}

impl G1Point {
    /// Every point in memory has passed the decoder.
    #[verifier::type_invariant]
    pub open spec fn wf(&self) -> bool {
        is_g1_encoding(self@)
    }

    /// The compressed encoding, borrowed.
    pub fn as_bytes(&self) -> (out: &[u8])
        ensures
            out@ == self@,
            is_g1_encoding(out@),
    {
        proof {
            use_type_invariant(self);
        }
        self.bytes.as_slice()
    }

    /// A copy of the point.
    pub fn duplicate(&self) -> (copy: G1Point)
        ensures
            copy@ == self@,
            is_g1_encoding(copy@),
    {
        proof {
            use_type_invariant(self);
        }
        G1Point { bytes: slice_to_vec(self.bytes.as_slice()) }
    }
}

/// Decodes a compressed G1 point. A wrong length or a byte string that is
/// no encoding gives `InvalidEncoding`; the two other errors say that the
/// point is off the curve or outside the subgroup.
pub fn decode_point(bytes: &[u8]) -> (r: Result<G1Point, Error>)
    ensures
        match r {
            Ok(p) => point_decoding(bytes@) == Ok::<Seq<u8>, Error>(p@),
            Err(e) => point_decoding(bytes@) == Err::<Seq<u8>, Error>(e),
        },
{
    if bytes.len() != BYTES_PER_G1_POINT {
        return Err(Error::InvalidEncoding);
    }
    match verdict_of_status(check_g1_point(bytes)) {
        Ok(()) => Ok(G1Point { bytes: slice_to_vec(bytes) }),
        Err(e) => Err(e),
    }
}

/// Encodes a point; the result always decodes to the same point.
pub fn encode_point(p: &G1Point) -> (out: Vec<u8>)
    ensures
        out@ == p@,
        is_g1_encoding(out@),
{
    slice_to_vec(p.as_bytes())
}

/// The encodings of a list of commitments.
pub open spec fn commitment_encodings(commitments: Seq<KzgCommitment>) -> Seq<Seq<u8>> {
    commitments.map_values(|c: KzgCommitment| c@)
}

/// The encodings of a list of proofs.
pub open spec fn proof_encodings(proofs: Seq<KzgProof>) -> Seq<Seq<u8>> {
    proofs.map_values(|p: KzgProof| p@)
}

/// A commitment to a blob's polynomial.
#[derive(Debug, PartialEq, Eq)]
pub struct KzgCommitment {
    point: G1Point,
}

impl View for KzgCommitment {
    type V = Seq<u8>;

    /// The compressed encoding of the committed point.
    closed spec fn view(&self) -> Seq<u8> {
        self.point@
    }
}

impl KzgCommitment {
    /// Every commitment in memory is a decoded point.
    #[verifier::type_invariant]
    pub open spec fn wf(&self) -> bool {
        is_g1_encoding(self@)
    }

    /// Decodes a commitment, as [`decode_point`] decodes a point.
    pub fn decode(bytes: &[u8]) -> (r: Result<KzgCommitment, Error>)
        ensures
            match r {
                Ok(c) => point_decoding(bytes@) == Ok::<Seq<u8>, Error>(c@),
                Err(e) => point_decoding(bytes@) == Err::<Seq<u8>, Error>(e),
            },
    {
        match decode_point(bytes) {
            Ok(point) => Ok(KzgCommitment { point }),
            Err(e) => Err(e),
        }
    }

    /// Encodes the commitment.
    pub fn encode(&self) -> (out: Vec<u8>)
        ensures
            out@ == self@,
            is_g1_encoding(out@),
    {
        encode_point(&self.point)
    }

    /// The encoding, borrowed.
    pub fn as_bytes(&self) -> (out: &[u8])
        ensures
            out@ == self@,
            is_g1_encoding(out@),
    {
        self.point.as_bytes()
    }

    /// A copy of the commitment.
    pub fn duplicate(&self) -> (copy: KzgCommitment)
        ensures
            copy@ == self@,
    {
        KzgCommitment { point: self.point.duplicate() }
    }
}

/// An opening proof for one evaluation of a committed polynomial.
#[derive(Debug, PartialEq, Eq)]
pub struct KzgProof {
    point: G1Point,
}

impl View for KzgProof {
    type V = Seq<u8>;

    /// The compressed encoding of the proof's point.
    closed spec fn view(&self) -> Seq<u8> {
        self.point@
    }
}

impl KzgProof {
    /// Every proof in memory is a decoded point.
    #[verifier::type_invariant]
    pub open spec fn wf(&self) -> bool {
        is_g1_encoding(self@)
    }

    /// Decodes a proof, as [`decode_point`] decodes a point.
    pub fn decode(bytes: &[u8]) -> (r: Result<KzgProof, Error>)
        ensures
            match r {
                Ok(p) => point_decoding(bytes@) == Ok::<Seq<u8>, Error>(p@),
                Err(e) => point_decoding(bytes@) == Err::<Seq<u8>, Error>(e),
            },
    {
        match decode_point(bytes) {
            Ok(point) => Ok(KzgProof { point }),
            Err(e) => Err(e),
        }
    }

    /// Encodes the proof.
    pub fn encode(&self) -> (out: Vec<u8>)
        ensures
            out@ == self@,
            is_g1_encoding(out@),
    {
        encode_point(&self.point)
    }

    /// The encoding, borrowed.
    pub fn as_bytes(&self) -> (out: &[u8])
        ensures
            out@ == self@,
            is_g1_encoding(out@),
    {
        self.point.as_bytes()
    }

    /// A copy of the proof.
    pub fn duplicate(&self) -> (copy: KzgProof)
        ensures
            copy@ == self@,
    {
        KzgProof { point: self.point.duplicate() }
    }
}

} // verus!
