//! KZG polynomial commitments over blobs of scalar-field elements.

pub mod backend;
pub mod batch;
pub mod blob;
pub mod blob_proof;
pub mod engine;
pub mod error;
pub mod field;
pub mod harness;
pub mod hex;
pub mod laws;
pub mod numeric;
pub mod point;
pub mod settings;
pub mod validation;
pub mod wire;

pub use crate::batch::verify_blob_proof_batch;
pub use crate::blob::Blob;
pub use crate::blob_proof::{challenge, compute_blob_proof, verify_blob_proof};
pub use crate::engine::{commit, compute_proof, verify_proof, ProofAndEvaluation};
pub use crate::error::Error;
pub use crate::field::{decode_field_element, encode_field_element, FieldElement};
pub use crate::harness::{dispatch, Expected, Failure, Operation, TestCase, TestInput};
pub use crate::point::{decode_point, encode_point, G1Point, KzgCommitment, KzgProof};
pub use crate::settings::TrustedSetup;
pub use crate::validation::Validation;
