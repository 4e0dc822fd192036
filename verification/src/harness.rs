//! The conformance harness: test vectors, the operation that each one
//! names, and the verdict on what the engine did with it.

use crate::backend::{optional_bytes, optional_pair};
use crate::error::Error;
use crate::hex::{decode_hex_list, decode_hex_text, text_decoding, texts_decoding};
use crate::numeric::bytes_equal;
use crate::settings::TrustedSetup;
use crate::wire::{
    batch_bytes_outcome, blob_proof_bytes_outcome, blob_verify_bytes_outcome, bytes_result,
    commit_bytes, commit_bytes_outcome, compute_blob_proof_bytes, compute_proof_bytes,
    opening_bytes_outcome, pair_result, verify_blob_proof_batch_bytes, verify_blob_proof_bytes,
    verify_bytes_outcome, verify_proof_bytes,
};
use vstd::prelude::*;

verus! {

/// The operations that a test vector can name.
#[derive(Debug, Clone, Copy, PartialEq, Eq, Structural)]
pub enum Operation {
    BlobToKzgCommitment,
    ComputeKzgProof,
    VerifyKzgProof,
    ComputeBlobKzgProof,
    VerifyBlobKzgProof,
    VerifyBlobKzgProofBatch,
}

/// Why a test vector did not pass.
#[derive(Debug, Clone, Copy, PartialEq, Eq, Structural)]
pub enum Failure {
    /// The vector names no operation of the engine.
    UnknownHandler,
    /// The vector lacks an input of its operation, or its expected output
    /// has the wrong form.
    MalformedVector,
    /// The operation succeeded where the vector expects it to fail.
    UnexpectedSuccess,
    /// The operation failed where the vector expects a value.
    UnexpectedFailure,
    /// The operation's outcome is not the expected one.
    Mismatch,
}

/// The inputs of a test vector, each as the text that the vector holds.
/// A text may be malformed: that is how invalid inputs are exercised.
#[derive(Debug)]
pub struct TestInput {
    pub blob: Option<String>,
    pub z: Option<String>,
    pub y: Option<String>,
    pub commitment: Option<String>,
    pub proof: Option<String>,
    pub blobs: Option<Vec<String>>,
    pub commitments: Option<Vec<String>>,
    pub proofs: Option<Vec<String>>,
}

/// The expected output of a test vector.
#[derive(Debug)]
pub enum Expected {
    /// The operation must fail, at decode time or in the engine.
    NoValue,
    /// The verdict of a verification.
    Flag(bool),
    /// One encoded value, as hexadecimal text.
    Bytes(String),
    /// An encoded proof and an encoded evaluation, as hexadecimal text.
    Pair(String, String),
}

/// A test vector together with the name of its operation.
#[derive(Debug)]
pub struct TestCase {
    pub handler: String,
    pub input: TestInput,
    pub output: Expected,
}

/// The operation that a handler name selects.
pub open spec fn operation_named(name: Seq<char>) -> Option<Operation> {
    if name =~= "blob_to_kzg_commitment"@ {
        Some(Operation::BlobToKzgCommitment)
    } else if name =~= "compute_kzg_proof"@ {
        Some(Operation::ComputeKzgProof)
    } else if name =~= "verify_kzg_proof"@ {
        Some(Operation::VerifyKzgProof)
    } else if name =~= "compute_blob_kzg_proof"@ {
        Some(Operation::ComputeBlobKzgProof)
    } else if name =~= "verify_blob_kzg_proof"@ {
        Some(Operation::VerifyBlobKzgProof)
    } else if name =~= "verify_blob_kzg_proof_batch"@ {
        Some(Operation::VerifyBlobKzgProofBatch)
    } else {
        None
    }
}

/// The value or failure that a vector expects of an operation that
/// returns one encoded value of `width` bytes; `None` where the expected
/// output has another form.
pub open spec fn expected_bytes(output: Expected, width: nat) -> Option<Option<Seq<u8>>> {
    match output {
        Expected::NoValue => Some(None),
        Expected::Bytes(text) => match text_decoding(text@) {
            Some(bytes) => if bytes.len() == width {
                Some(Some(bytes))
            } else {
                None
            },
            None => None,
        },
        _ => None,
    }
}

/// The proof and evaluation, or the failure, that a vector expects.
pub open spec fn expected_pair(output: Expected) -> Option<Option<(Seq<u8>, Seq<u8>)>> {
    match output {
        Expected::NoValue => Some(None),
        Expected::Pair(proof, evaluation) => match (
            text_decoding(proof@),
            text_decoding(evaluation@),
        ) {
            (Some(p), Some(y)) => if p.len() == 48 && y.len() == 32 {
                Some(Some((p, y)))
            } else {
                None
            },
            _ => None,
        },
        _ => None,
    }
}

/// The verdict, or the failure, that a vector expects.
pub open spec fn expected_flag(output: Expected) -> Option<Option<bool>> {
    match output {
        Expected::NoValue => Some(None),
        Expected::Flag(flag) => Some(Some(flag)),
        _ => None,
    }
}

/// The verdict on an operation that returns a value: an expected value
/// must be matched exactly, and an expected failure by any failure.
pub open spec fn verdict_for_value<T>(expected: Option<T>, actual: Option<T>) -> Result<
    (),
    Failure,
> {
    match (expected, actual) {
        (Some(e), Some(a)) => if a == e {
            Ok(())
        } else {
            Err(Failure::Mismatch)
        },
        (Some(_), None) => Err(Failure::UnexpectedFailure),
        (None, Some(_)) => Err(Failure::UnexpectedSuccess),
        (None, None) => Ok(()),
    }
}

/// The verdict on a verification. An expected `true` is met by an
/// accepted proof. An expected `false` is met by a proof that the engine
/// refuses, not by inputs that fail to decode. An expected failure is met
/// by a failure of either kind.
pub open spec fn verdict_for_flag(expected: Option<bool>, actual: Result<bool, Error>) -> Result<
    (),
    Failure,
> {
    match expected {
        Some(true) => match actual {
            Ok(true) => Ok(()),
            _ => Err(Failure::UnexpectedFailure),
        },
        Some(false) => match actual {
            Ok(true) => Err(Failure::UnexpectedSuccess),
            Ok(false) => Ok(()),
            Err(Error::BackendError) => Ok(()),
            Err(_) => Err(Failure::Mismatch),
        },
        None => match actual {
            Ok(true) => Err(Failure::UnexpectedSuccess),
            _ => Ok(()),
        },
    }
}

/// The value that a result holds, if it holds one.
pub open spec fn value_of<T>(r: Result<T, Error>) -> Option<T> {
    match r {
        Ok(v) => Some(v),
        Err(_) => None,
    }
}

/// The operation that a handler name selects, if it selects one.
pub fn operation_of(name: &String) -> (r: Option<Operation>)
    ensures
        r == operation_named(name@),
{
    if *name == "blob_to_kzg_commitment".to_owned() {
        Some(Operation::BlobToKzgCommitment)
    } else if *name == "compute_kzg_proof".to_owned() {
        Some(Operation::ComputeKzgProof)
    } else if *name == "verify_kzg_proof".to_owned() {
        Some(Operation::VerifyKzgProof)
    } else if *name == "compute_blob_kzg_proof".to_owned() {
        Some(Operation::ComputeBlobKzgProof)
    } else if *name == "verify_blob_kzg_proof".to_owned() {
        Some(Operation::VerifyBlobKzgProof)
    } else if *name == "verify_blob_kzg_proof_batch".to_owned() {
        Some(Operation::VerifyBlobKzgProofBatch)
    } else {
        None
    }
}

/// Compares the encoded value that an operation returned, if any, with
/// what the vector expects.
pub fn judge_bytes(expected: &Option<Vec<u8>>, actual: &Option<Vec<u8>>) -> (r: Result<
    (),
    Failure,
>)
    ensures
        r == verdict_for_value(optional_bytes(*expected), optional_bytes(*actual)),
{
    match (expected, actual) {
        (Some(e), Some(a)) => if bytes_equal(a.as_slice(), e.as_slice()) {
            Ok(())
        } else {
            Err(Failure::Mismatch)
        },
        (Some(_), None) => Err(Failure::UnexpectedFailure),
        (None, Some(_)) => Err(Failure::UnexpectedSuccess),
        (None, None) => Ok(()),
    }
}

/// Compares the proof and evaluation that an operation returned, if any,
/// with what the vector expects.
pub fn judge_pair(
    expected: &Option<(Vec<u8>, Vec<u8>)>,
    actual: &Option<(Vec<u8>, Vec<u8>)>,
) -> (r: Result<(), Failure>)
    ensures
        r == verdict_for_value(optional_pair(*expected), optional_pair(*actual)),
{
    match (expected, actual) {
        (Some(e), Some(a)) => if bytes_equal(a.0.as_slice(), e.0.as_slice()) && bytes_equal(
            a.1.as_slice(),
            e.1.as_slice(),
        ) {
            Ok(())
        } else {
            Err(Failure::Mismatch)
        },
        (Some(_), None) => Err(Failure::UnexpectedFailure),
        (None, Some(_)) => Err(Failure::UnexpectedSuccess),
        (None, None) => Ok(()),
    }
}

/// Compares the outcome of a verification with what the vector expects.
pub fn judge_flag(expected: &Option<bool>, actual: &Result<bool, Error>) -> (r: Result<
    (),
    Failure,
>)
    ensures
        r == verdict_for_flag(*expected, *actual),
{
    match expected {
        Some(true) => match actual {
            Ok(true) => Ok(()),
            _ => Err(Failure::UnexpectedFailure),
        },
        Some(false) => match actual {
            Ok(true) => Err(Failure::UnexpectedSuccess),
            Ok(false) => Ok(()),
            Err(Error::BackendError) => Ok(()),
            Err(_) => Err(Failure::Mismatch),
        },
        None => match actual {
            Ok(true) => Err(Failure::UnexpectedSuccess),
            _ => Ok(()),
        },
    }
}

/// The result of committing to a blob given as text: text that is not
/// hexadecimal fails to decode, and the bytes are judged as `commit_bytes`
/// judges them.
pub open spec fn commit_text_outcome(blob: Seq<char>, setup: TrustedSetup) -> Result<
    Seq<u8>,
    Error,
> {
    match text_decoding(blob) {
        Some(b) => commit_bytes_outcome(b, setup),
        None => Err(Error::InvalidEncoding),
    }
}

/// The result of opening a blob at a point, both given as text.
pub open spec fn opening_text_outcome(
    blob: Seq<char>,
    z: Seq<char>,
    setup: TrustedSetup,
) -> Result<(Seq<u8>, Seq<u8>), Error> {
    match (text_decoding(blob), text_decoding(z)) {
        (Some(b), Some(point)) => opening_bytes_outcome(b, point, setup),
        _ => Err(Error::InvalidEncoding),
    }
}

/// The result of checking an opening given as text.
pub open spec fn verify_text_outcome(
    commitment: Seq<char>,
    z: Seq<char>,
    y: Seq<char>,
    proof: Seq<char>,
    setup: TrustedSetup,
) -> Result<bool, Error> {
    match (text_decoding(commitment), text_decoding(z), text_decoding(y), text_decoding(proof)) {
        (Some(c), Some(point), Some(value), Some(p)) => verify_bytes_outcome(
            c,
            point,
            value,
            p,
            setup,
        ),
        _ => Err(Error::InvalidEncoding),
    }
}

/// The result of proving a blob against a commitment, both given as text.
pub open spec fn blob_proof_text_outcome(
    blob: Seq<char>,
    commitment: Seq<char>,
    setup: TrustedSetup,
) -> Result<Seq<u8>, Error> {
    match (text_decoding(blob), text_decoding(commitment)) {
        (Some(b), Some(c)) => blob_proof_bytes_outcome(b, c, setup),
        _ => Err(Error::InvalidEncoding),
    }
}

/// The result of checking a blob proof given as text.
pub open spec fn blob_verify_text_outcome(
    blob: Seq<char>,
    commitment: Seq<char>,
    proof: Seq<char>,
    setup: TrustedSetup,
) -> Result<bool, Error> {
    match (text_decoding(blob), text_decoding(commitment), text_decoding(proof)) {
        (Some(b), Some(c), Some(p)) => blob_verify_bytes_outcome(b, c, p, setup),
        _ => Err(Error::InvalidEncoding),
    }
}

/// The result of checking a batch given as lists of texts.
pub open spec fn batch_text_outcome(
    blobs: Seq<String>,
    commitments: Seq<String>,
    proofs: Seq<String>,
    setup: TrustedSetup,
) -> Result<bool, Error> {
    match (texts_decoding(blobs), texts_decoding(commitments), texts_decoding(proofs)) {
        (Some(b), Some(c), Some(p)) => batch_bytes_outcome(b, c, p, setup),
        _ => Err(Error::InvalidEncoding),
    }
}

/// The verdict of the test of `blob_to_kzg_commitment` on a vector.
pub open spec fn commitment_test_verdict(test: TestCase, setup: TrustedSetup) -> Result<
    (),
    Failure,
> {
    match (test.input.blob, expected_bytes(test.output, 48)) {
        (Some(blob), Some(expected)) => verdict_for_value(
            expected,
            value_of(commit_text_outcome(blob@, setup)),
        ),
        _ => Err(Failure::MalformedVector),
    }
}

/// The verdict of the test of `compute_kzg_proof` on a vector.
pub open spec fn opening_test_verdict(test: TestCase, setup: TrustedSetup) -> Result<
    (),
    Failure,
> {
    match (test.input.blob, test.input.z, expected_pair(test.output)) {
        (Some(blob), Some(z), Some(expected)) => verdict_for_value(
            expected,
            value_of(opening_text_outcome(blob@, z@, setup)),
        ),
        _ => Err(Failure::MalformedVector),
    }
}

/// The verdict of the test of `verify_kzg_proof` on a vector.
pub open spec fn verify_test_verdict(test: TestCase, setup: TrustedSetup) -> Result<(), Failure> {
    match (
        test.input.commitment,
        test.input.z,
        test.input.y,
        test.input.proof,
        expected_flag(test.output),
    ) {
        (Some(commitment), Some(z), Some(y), Some(proof), Some(expected)) => verdict_for_flag(
            expected,
            verify_text_outcome(commitment@, z@, y@, proof@, setup),
        ),
        _ => Err(Failure::MalformedVector),
    }
}

/// The verdict of the test of `compute_blob_kzg_proof` on a vector.
pub open spec fn blob_proof_test_verdict(test: TestCase, setup: TrustedSetup) -> Result<
    (),
    Failure,
> {
    match (test.input.blob, test.input.commitment, expected_bytes(test.output, 48)) {
        (Some(blob), Some(commitment), Some(expected)) => verdict_for_value(
            expected,
            value_of(blob_proof_text_outcome(blob@, commitment@, setup)),
        ),
        _ => Err(Failure::MalformedVector),
    }
}

/// The verdict of the test of `verify_blob_kzg_proof` on a vector.
pub open spec fn blob_verify_test_verdict(test: TestCase, setup: TrustedSetup) -> Result<
    (),
    Failure,
> {
    match (
        test.input.blob,
        test.input.commitment,
        test.input.proof,
        expected_flag(test.output),
    ) {
        (Some(blob), Some(commitment), Some(proof), Some(expected)) => verdict_for_flag(
            expected,
            blob_verify_text_outcome(blob@, commitment@, proof@, setup),
        ),
        _ => Err(Failure::MalformedVector),
    }
}

/// The verdict of the test of `verify_blob_kzg_proof_batch` on a vector.
pub open spec fn batch_test_verdict(test: TestCase, setup: TrustedSetup) -> Result<(), Failure> {
    match (
        test.input.blobs,
        test.input.commitments,
        test.input.proofs,
        expected_flag(test.output),
    ) {
        (Some(blobs), Some(commitments), Some(proofs), Some(expected)) => verdict_for_flag(
            expected,
            batch_text_outcome(blobs@, commitments@, proofs@, setup),
        ),
        _ => Err(Failure::MalformedVector),
    }
}

/// The verdict of an operation's test on a vector.
pub open spec fn run_verdict(operation: Operation, test: TestCase, setup: TrustedSetup) -> Result<
    (),
    Failure,
> {
    match operation {
        Operation::BlobToKzgCommitment => commitment_test_verdict(test, setup),
        Operation::ComputeKzgProof => opening_test_verdict(test, setup),
        Operation::VerifyKzgProof => verify_test_verdict(test, setup),
        Operation::ComputeBlobKzgProof => blob_proof_test_verdict(test, setup),
        Operation::VerifyBlobKzgProof => blob_verify_test_verdict(test, setup),
        Operation::VerifyBlobKzgProofBatch => batch_test_verdict(test, setup),
    }
}

/// The verdict on a vector: an unknown handler is reported as such, and a
/// known one has the verdict of its operation's test.
pub open spec fn dispatch_verdict(test: TestCase, setup: TrustedSetup) -> Result<(), Failure> {
    match operation_named(test.handler@) {
        Some(operation) => run_verdict(operation, test, setup),
        None => Err(Failure::UnknownHandler),
    }
}

/// Reads the expected output of an operation that returns one encoded
/// value of `width` bytes.
pub fn read_expected_bytes(output: &Expected, width: usize) -> (r: Option<Option<Vec<u8>>>)
    ensures
        match r {
            Some(e) => expected_bytes(*output, width as nat) == Some(optional_bytes(e)),
            None => expected_bytes(*output, width as nat) is None,
        },
{
    match output {
        Expected::NoValue => Some(None),
        Expected::Bytes(text) => match decode_hex_text(text.as_str()) {
            Some(bytes) => if bytes.len() == width {
                Some(Some(bytes))
            } else {
                None
            },
            None => None,
        },
        _ => None,
    }
}

/// Reads the expected output of `compute_kzg_proof`.
pub fn read_expected_pair(output: &Expected) -> (r: Option<Option<(Vec<u8>, Vec<u8>)>>)
    ensures
        match r {
            Some(e) => expected_pair(*output) == Some(optional_pair(e)),
            None => expected_pair(*output) is None,
        },
{
    match output {
        Expected::NoValue => Some(None),
        Expected::Pair(proof, evaluation) => {
            let p = match decode_hex_text(proof.as_str()) {
                Some(p) => p,
                None => {
                    return None;
                },
            };
            let y = match decode_hex_text(evaluation.as_str()) {
                Some(y) => y,
                None => {
                    return None;
                },
            };
            if p.len() == 48 && y.len() == 32 {
                Some(Some((p, y)))
            } else {
                None
            }
        },
        _ => None,
    }
}

/// Reads the expected output of a verification.
pub fn read_expected_flag(output: &Expected) -> (r: Option<Option<bool>>)
    ensures
        r == expected_flag(*output),
{
    match output {
        Expected::NoValue => Some(None),
        Expected::Flag(flag) => Some(Some(*flag)),
        _ => None,
    }
}

/// Tests `blob_to_kzg_commitment` on a vector.
pub fn run_blob_to_kzg_commitment_test(test: &TestCase, setup: &TrustedSetup) -> (r: Result<
    (),
    Failure,
>)
    ensures
        r == commitment_test_verdict(*test, *setup),
{
    let blob = match &test.input.blob {
        Some(text) => text,
        None => {
            return Err(Failure::MalformedVector);
        },
    };
    let expected = match read_expected_bytes(&test.output, 48) {
        Some(e) => e,
        None => {
            return Err(Failure::MalformedVector);
        },
    };
    let actual = match decode_hex_text(blob.as_str()) {
        Some(b) => commit_bytes(b.as_slice(), setup),
        None => Err(Error::InvalidEncoding),
    };
    assert(bytes_result(actual) == commit_text_outcome(blob@, *setup));
    let value = match actual {
        Ok(v) => Some(v),
        Err(_) => None,
    };
    judge_bytes(&expected, &value)
}

/// Tests `compute_kzg_proof` on a vector.
pub fn run_compute_kzg_proof_test(test: &TestCase, setup: &TrustedSetup) -> (r: Result<
    (),
    Failure,
>)
    ensures
        r == opening_test_verdict(*test, *setup),
{
    let blob = match &test.input.blob {
        Some(text) => text,
        None => {
            return Err(Failure::MalformedVector);
        },
    };
    let z = match &test.input.z {
        Some(text) => text,
        None => {
            return Err(Failure::MalformedVector);
        },
    };
    let expected = match read_expected_pair(&test.output) {
        Some(e) => e,
        None => {
            return Err(Failure::MalformedVector);
        },
    };
    let actual = match (decode_hex_text(blob.as_str()), decode_hex_text(z.as_str())) {
        (Some(b), Some(point)) => compute_proof_bytes(b.as_slice(), point.as_slice(), setup),
        _ => Err(Error::InvalidEncoding),
    };
    assert(pair_result(actual) == opening_text_outcome(blob@, z@, *setup));
    let value = match actual {
        Ok(v) => Some(v),
        Err(_) => None,
    };
    judge_pair(&expected, &value)
}

/// Tests `verify_kzg_proof` on a vector. The verdict is compared with
/// the expected one, not only with the absence of an error.
pub fn run_verify_kzg_proof_test(test: &TestCase, setup: &TrustedSetup) -> (r: Result<
    (),
    Failure,
>)
    ensures
        r == verify_test_verdict(*test, *setup),
{
    let commitment = match &test.input.commitment {
        Some(text) => text,
        None => {
            return Err(Failure::MalformedVector);
        },
    };
    let z = match &test.input.z {
        Some(text) => text,
        None => {
            return Err(Failure::MalformedVector);
        },
    };
    let y = match &test.input.y {
        Some(text) => text,
        None => {
            return Err(Failure::MalformedVector);
        },
    };
    let proof_field = &test.input.proof;
    let proof = match proof_field {
        Some(text) => text,
        None => {
            return Err(Failure::MalformedVector);
        },
    };
    let expected = match read_expected_flag(&test.output) {
        Some(e) => e,
        None => {
            return Err(Failure::MalformedVector);
        },
    };
    let actual = match (
        decode_hex_text(commitment.as_str()),
        decode_hex_text(z.as_str()),
        decode_hex_text(y.as_str()),
        decode_hex_text(proof.as_str()),
    ) {
        (Some(c), Some(point), Some(value), Some(p)) => verify_proof_bytes(
            c.as_slice(),
            point.as_slice(),
            value.as_slice(),
            p.as_slice(),
            setup,
        ),
        _ => Err(Error::InvalidEncoding),
    };
    assert(actual == verify_text_outcome(commitment@, z@, y@, proof@, *setup));
    judge_flag(&expected, &actual)
}

/// Tests `compute_blob_kzg_proof` on a vector.
pub fn run_compute_blob_kzg_proof_test(test: &TestCase, setup: &TrustedSetup) -> (r: Result<
    (),
    Failure,
>)
    ensures
        r == blob_proof_test_verdict(*test, *setup),
{
    let blob = match &test.input.blob {
        Some(text) => text,
        None => {
            return Err(Failure::MalformedVector);
        },
    };
    let commitment = match &test.input.commitment {
        Some(text) => text,
        None => {
            return Err(Failure::MalformedVector);
        },
    };
    let expected = match read_expected_bytes(&test.output, 48) {
        Some(e) => e,
        None => {
            return Err(Failure::MalformedVector);
        },
    };
    let actual = match (decode_hex_text(blob.as_str()), decode_hex_text(commitment.as_str())) {
        (Some(b), Some(c)) => compute_blob_proof_bytes(b.as_slice(), c.as_slice(), setup),
        _ => Err(Error::InvalidEncoding),
    };
    assert(bytes_result(actual) == blob_proof_text_outcome(blob@, commitment@, *setup));
    let value = match actual {
        Ok(v) => Some(v),
        Err(_) => None,
    };
    judge_bytes(&expected, &value)
}

/// Tests `verify_blob_kzg_proof` on a vector. The verdict is compared
/// with the expected one, not only with the absence of an error.
pub fn run_verify_blob_kzg_proof_test(test: &TestCase, setup: &TrustedSetup) -> (r: Result<
    (),
    Failure,
>)
    ensures
        r == blob_verify_test_verdict(*test, *setup),
{
    let blob = match &test.input.blob {
        Some(text) => text,
        None => {
            return Err(Failure::MalformedVector);
        },
    };
    let commitment = match &test.input.commitment {
        Some(text) => text,
        None => {
            return Err(Failure::MalformedVector);
        },
    };
    let proof_field = &test.input.proof;
    let proof = match proof_field {
        Some(text) => text,
        None => {
            return Err(Failure::MalformedVector);
        },
    };
    let expected = match read_expected_flag(&test.output) {
        Some(e) => e,
        None => {
            return Err(Failure::MalformedVector);
        },
    };
    let actual = match (
        decode_hex_text(blob.as_str()),
        decode_hex_text(commitment.as_str()),
        decode_hex_text(proof.as_str()),
    ) {
        (Some(b), Some(c), Some(p)) => verify_blob_proof_bytes(
            b.as_slice(),
            c.as_slice(),
            p.as_slice(),
            setup,
        ),
        _ => Err(Error::InvalidEncoding),
    };
    assert(actual == blob_verify_text_outcome(blob@, commitment@, proof@, *setup));
    judge_flag(&expected, &actual)
}

/// Tests `verify_blob_kzg_proof_batch` on a vector.
pub fn run_verify_blob_kzg_proof_batch_test(test: &TestCase, setup: &TrustedSetup) -> (r: Result<
    (),
    Failure,
>)
    ensures
        r == batch_test_verdict(*test, *setup),
{
    let blobs = match &test.input.blobs {
        Some(texts) => texts,
        None => {
            return Err(Failure::MalformedVector);
        },
    };
    let commitments = match &test.input.commitments {
        Some(texts) => texts,
        None => {
            return Err(Failure::MalformedVector);
        },
    };
    let proofs = match &test.input.proofs {
        Some(texts) => texts,
        None => {
            return Err(Failure::MalformedVector);
        },
    };
    let expected = match read_expected_flag(&test.output) {
        Some(e) => e,
        None => {
            return Err(Failure::MalformedVector);
        },
    };
    let actual = match (
        decode_hex_list(blobs),
        decode_hex_list(commitments),
        decode_hex_list(proofs),
    ) {
        (Some(b), Some(c), Some(p)) => verify_blob_proof_batch_bytes(&b, &c, &p, setup),
        _ => Err(Error::InvalidEncoding),
    };
    assert(actual == batch_text_outcome(blobs@, commitments@, proofs@, *setup));
    judge_flag(&expected, &actual)
}

/// Runs the test that the vector's handler names.
pub fn dispatch(test: &TestCase, setup: &TrustedSetup) -> (r: Result<(), Failure>)
    ensures
        r == dispatch_verdict(*test, *setup),
{
    match operation_of(&test.handler) {
        Some(Operation::BlobToKzgCommitment) => run_blob_to_kzg_commitment_test(test, setup),
        Some(Operation::ComputeKzgProof) => run_compute_kzg_proof_test(test, setup),
        Some(Operation::VerifyKzgProof) => run_verify_kzg_proof_test(test, setup),
        Some(Operation::ComputeBlobKzgProof) => run_compute_blob_kzg_proof_test(test, setup),
        Some(Operation::VerifyBlobKzgProof) => run_verify_blob_kzg_proof_test(test, setup),
        Some(Operation::VerifyBlobKzgProofBatch) => run_verify_blob_kzg_proof_batch_test(
            test,
            setup,
        ),
        None => Err(Failure::UnknownHandler),
    }
}

} // verus!
