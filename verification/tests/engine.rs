use bls12_381::Scalar;
use blob_kzg::engine::{commitment_from_reply, opening_from_reply, verdict_from_reply};
use blob_kzg::wire::{
    commit_bytes, compute_blob_proof_bytes, compute_proof_bytes, verify_blob_proof_batch_bytes,
    verify_blob_proof_bytes, verify_proof_bytes,
};
use blob_kzg::{
    challenge, commit, compute_blob_proof, compute_proof, decode_field_element,
    verify_blob_proof, verify_blob_proof_batch, verify_proof, Blob, Error, FieldElement,
    KzgCommitment, KzgProof, TrustedSetup,
};
use sha2::Digest;

const N: usize = 4096;

fn be(s: &Scalar) -> Vec<u8> {
    let mut bytes = s.to_bytes();
    bytes.reverse();
    bytes.to_vec()
}

fn g1_times(s: &Scalar) -> Vec<u8> {
    blst::min_pk::SecretKey::from_bytes(&be(s)).unwrap().sk_to_pk().compress().to_vec()
}

fn g2_times(s: &Scalar) -> Vec<u8> {
    blst::min_sig::SecretKey::from_bytes(&be(s)).unwrap().sk_to_pk().compress().to_vec()
}

fn g1_infinity() -> Vec<u8> {
    let mut bytes = vec![0u8; 48];
    bytes[0] = 0xc0;
    bytes
}

fn root_of_unity() -> Scalar {
    Scalar::from(7).pow_vartime(&[
        0xbfeffffffff00000,
        0x80553bda402fffe5,
        0xd483339d80809a1d,
        0x00073eda753299d7,
    ])
}

fn reverse_bits(j: usize) -> usize {
    let mut out = 0;
    for bit in 0..12 {
        if j & (1 << bit) != 0 {
            out |= 1 << (11 - bit);
        }
    }
    out
}

fn domain() -> Vec<Scalar> {
    let w = root_of_unity();
    let mut out = Vec::with_capacity(N);
    let mut cur = Scalar::one();
    for _ in 0..N {
        out.push(cur);
        cur *= w;
    }
    out
}

fn tau() -> Scalar {
    Scalar::from(0x0123_4567_89ab_cdef).square() + Scalar::from(11)
}

fn setup_points() -> (Vec<Vec<u8>>, Vec<Vec<u8>>) {
    let t = tau();
    let roots = domain();
    let scale = (t.pow_vartime(&[N as u64, 0, 0, 0]) - Scalar::one())
        * Scalar::from(N as u64).invert().unwrap();
    let g1 = roots
        .iter()
        .map(|w| g1_times(&(scale * w * (t - w).invert().unwrap())))
        .collect();
    let mut g2 = Vec::new();
    let mut power = Scalar::one();
    for _ in 0..65 {
        g2.push(g2_times(&power));
        power *= t;
    }
    (g1, g2)
}

fn setup() -> TrustedSetup {
    let (g1, g2) = setup_points();
    TrustedSetup::load(&g1, &g2).unwrap()
}

fn blob_bytes_of(poly: impl Fn(&Scalar) -> Scalar) -> Vec<u8> {
    let roots = domain();
    let mut bytes = Vec::with_capacity(N * 32);
    for j in 0..N {
        bytes.extend_from_slice(&be(&poly(&roots[reverse_bits(j)])));
    }
    bytes
}

fn blob_of(poly: impl Fn(&Scalar) -> Scalar) -> Blob {
    Blob::decode(&blob_bytes_of(poly)).unwrap()
}

fn element(v: u64) -> FieldElement {
    decode_field_element(&be(&Scalar::from(v))).unwrap()
}

fn quadratic(x: &Scalar) -> Scalar {
    x * x + Scalar::from(3) * x + Scalar::one()
}

fn off_curve_point() -> Vec<u8> {
    for x in 1u8..=80 {
        let mut bytes = [0u8; 48];
        bytes[0] = 0x80;
        bytes[47] = x;
        let on_curve: bool =
            bls12_381::G1Affine::from_compressed_unchecked(&bytes).is_some().into();
        if !on_curve {
            return bytes.to_vec();
        }
    }
    unreachable!()
}

fn off_subgroup_point() -> Vec<u8> {
    for x in 1u8..=80 {
        let mut bytes = [0u8; 48];
        bytes[0] = 0x80;
        bytes[47] = x;
        let on_curve: bool =
            bls12_381::G1Affine::from_compressed_unchecked(&bytes).is_some().into();
        let in_subgroup: bool = bls12_381::G1Affine::from_compressed(&bytes).is_some().into();
        if on_curve && !in_subgroup {
            return bytes.to_vec();
        }
    }
    unreachable!()
}

fn expected_challenge(blob: &[u8], commitment: &[u8]) -> Vec<u8> {
    let mut preimage = b"FSBLOBVERIFY_V1_".to_vec();
    preimage.extend_from_slice(&[0u8; 8]);
    preimage.extend_from_slice(&4096u64.to_be_bytes());
    preimage.extend_from_slice(blob);
    preimage.extend_from_slice(commitment);
    let digest = sha2::Sha256::digest(&preimage);
    let mut wide = [0u8; 64];
    for i in 0..32 {
        wide[i] = digest[31 - i];
    }
    be(&Scalar::from_bytes_wide(&wide))
}

#[test]
fn zero_blob_commits_to_the_identity() {
    let setup = setup();
    let blob = Blob::decode(&vec![0u8; N * 32]).unwrap();
    let commitment = commit(&blob, &setup).unwrap();
    assert_eq!(commitment.encode(), g1_infinity());
    for z in [element(0), element(5), element(u64::MAX)] {
        let opening = compute_proof(&blob, &z, &setup).unwrap();
        assert_eq!(opening.proof.encode(), g1_infinity());
        assert_eq!(opening.evaluation.as_bytes(), &[0u8; 32][..]);
        assert_eq!(
            verify_proof(&commitment, &z, &opening.evaluation, &opening.proof, &setup),
            Ok(true)
        );
    }
}

#[test]
fn constant_blob_commits_to_a_multiple_of_the_generator() {
    let setup = setup();
    let c = Scalar::from(77);
    let blob = blob_of(|_| c);
    let commitment = commit(&blob, &setup).unwrap();
    assert_eq!(commitment.encode(), g1_times(&c));
    let z = element(123456);
    let opening = compute_proof(&blob, &z, &setup).unwrap();
    assert_eq!(opening.evaluation.as_bytes(), &be(&c)[..]);
    assert_eq!(opening.proof.encode(), g1_infinity());
    assert_eq!(
        verify_proof(&commitment, &z, &opening.evaluation, &opening.proof, &setup),
        Ok(true)
    );
}

#[test]
fn identity_polynomial_commits_to_tau() {
    let setup = setup();
    let blob = blob_of(|x| *x);
    let commitment = commit(&blob, &setup).unwrap();
    assert_eq!(commitment.encode(), g1_times(&tau()));
    let z = element(99);
    let opening = compute_proof(&blob, &z, &setup).unwrap();
    assert_eq!(opening.evaluation.as_bytes(), &be(&Scalar::from(99))[..]);
    assert_eq!(opening.proof.encode(), g1_times(&Scalar::one()));
    assert_eq!(
        verify_proof(&commitment, &z, &opening.evaluation, &opening.proof, &setup),
        Ok(true)
    );
}

#[test]
fn quadratic_opens_outside_the_domain() {
    let setup = setup();
    let blob = blob_of(quadratic);
    let commitment = commit(&blob, &setup).unwrap();
    assert_eq!(commitment.encode(), g1_times(&quadratic(&tau())));
    let point = Scalar::from(0xdead_beef);
    let z = decode_field_element(&be(&point)).unwrap();
    let opening = compute_proof(&blob, &z, &setup).unwrap();
    assert_eq!(opening.evaluation.as_bytes(), &be(&quadratic(&point))[..]);
    // (p(x) - p(z)) / (x - z) = x + z + 3
    assert_eq!(opening.proof.encode(), g1_times(&(tau() + point + Scalar::from(3))));
    assert_eq!(
        verify_proof(&commitment, &z, &opening.evaluation, &opening.proof, &setup),
        Ok(true)
    );
}

#[test]
fn quadratic_opens_at_points_of_the_domain() {
    let setup = setup();
    let blob = blob_of(quadratic);
    let commitment = commit(&blob, &setup).unwrap();
    let roots = domain();
    for index in [0usize, 1, 5, 2048, 4095] {
        let point = roots[index];
        let z = decode_field_element(&be(&point)).unwrap();
        let opening = compute_proof(&blob, &z, &setup).unwrap();
        assert_eq!(opening.evaluation.as_bytes(), &be(&quadratic(&point))[..]);
        assert_eq!(opening.proof.encode(), g1_times(&(tau() + point + Scalar::from(3))));
        assert_eq!(
            verify_proof(&commitment, &z, &opening.evaluation, &opening.proof, &setup),
            Ok(true)
        );
    }
}

#[test]
fn proof_for_another_value_is_refused() {
    let setup = setup();
    let blob = blob_of(quadratic);
    let commitment = commit(&blob, &setup).unwrap();
    let z = element(31337);
    let opening = compute_proof(&blob, &z, &setup).unwrap();
    let y = Scalar::from_bytes(&{
        let mut le: [u8; 32] = opening.evaluation.as_bytes().try_into().unwrap();
        le.reverse();
        le
    })
    .unwrap();
    for other in [y + Scalar::one(), y - Scalar::one(), Scalar::zero(), -y] {
        let wrong = decode_field_element(&be(&other)).unwrap();
        assert_eq!(
            verify_proof(&commitment, &z, &wrong, &opening.proof, &setup),
            Err(Error::BackendError)
        );
    }
    // the right value at another point, and another commitment
    assert_eq!(
        verify_proof(&commitment, &element(31338), &opening.evaluation, &opening.proof, &setup),
        Err(Error::BackendError)
    );
    let other = KzgCommitment::decode(&g1_times(&Scalar::from(2))).unwrap();
    assert_eq!(
        verify_proof(&other, &z, &opening.evaluation, &opening.proof, &setup),
        Err(Error::BackendError)
    );
}

#[test]
fn commit_and_challenge_repeat_their_results() {
    let setup = setup();
    let blob = blob_of(quadratic);
    let first = commit(&blob, &setup).unwrap();
    let second = commit(&blob.duplicate(), &setup).unwrap();
    assert_eq!(first, second);
    let z1 = challenge(&blob, &first);
    let z2 = challenge(&blob.duplicate(), &second);
    assert_eq!(z1, z2);
    let other = challenge(&blob, &KzgCommitment::decode(&g1_infinity()).unwrap());
    assert_ne!(z1, other);
}

#[test]
fn challenge_is_the_reduced_digest_of_tag_count_blob_and_commitment() {
    let zero = Blob::decode(&vec![0u8; N * 32]).unwrap();
    let identity = KzgCommitment::decode(&g1_infinity()).unwrap();
    assert_eq!(
        challenge(&zero, &identity).as_bytes(),
        &expected_challenge(zero.as_bytes(), &g1_infinity())[..]
    );
    let blob = blob_of(quadratic);
    let commitment = KzgCommitment::decode(&g1_times(&Scalar::from(3))).unwrap();
    assert_eq!(
        challenge(&blob, &commitment).as_bytes(),
        &expected_challenge(blob.as_bytes(), commitment.as_bytes())[..]
    );
}

#[test]
fn blob_proof_verifies_against_its_commitment() {
    let setup = setup();
    for blob in [blob_of(quadratic), blob_of(|x| *x), Blob::decode(&vec![0u8; N * 32]).unwrap()] {
        let commitment = commit(&blob, &setup).unwrap();
        let witness = compute_blob_proof(&blob, &commitment, &setup).unwrap();
        assert_eq!(verify_blob_proof(&blob, &commitment, &witness, &setup), Ok(true));
        let z = challenge(&blob, &commitment);
        let opening = compute_proof(&blob, &z, &setup).unwrap();
        assert_eq!(opening.proof, witness);
    }
}

#[test]
fn blob_proof_is_the_one_that_the_engine_computes_by_itself() {
    let (g1, g2) = setup_points();
    let setup = TrustedSetup::load(&g1, &g2).unwrap();
    let g1: Vec<[u8; 48]> = g1.iter().map(|p| p.as_slice().try_into().unwrap()).collect();
    let g2: Vec<[u8; 96]> = g2.iter().map(|p| p.as_slice().try_into().unwrap()).collect();
    let direct = c_kzg::KzgSettings::load_trusted_setup(&g1, &g2).unwrap();
    let blob = blob_of(quadratic);
    let commitment = commit(&blob, &setup).unwrap();
    let witness = compute_blob_proof(&blob, &commitment, &setup).unwrap();
    let raw_blob = c_kzg::Blob::from_bytes(blob.as_bytes()).unwrap();
    let raw_commitment = c_kzg::Bytes48::from_bytes(commitment.as_bytes()).unwrap();
    let expected =
        c_kzg::KzgProof::compute_blob_kzg_proof(&raw_blob, &raw_commitment, &direct).unwrap();
    assert_eq!(witness.encode(), expected.to_bytes().into_inner().to_vec());
    let raw_proof = c_kzg::Bytes48::from_bytes(witness.as_bytes()).unwrap();
    assert_eq!(
        c_kzg::KzgProof::verify_blob_kzg_proof(&raw_blob, &raw_commitment, &raw_proof, &direct)
            .unwrap(),
        true
    );
}

#[test]
fn blob_proof_for_other_data_is_refused() {
    let setup = setup();
    let blob = blob_of(quadratic);
    let commitment = commit(&blob, &setup).unwrap();
    let witness = compute_blob_proof(&blob, &commitment, &setup).unwrap();
    let other_blob = blob_of(|x| *x);
    let other_commitment = commit(&other_blob, &setup).unwrap();
    let other_witness = compute_blob_proof(&other_blob, &other_commitment, &setup).unwrap();
    assert_eq!(
        verify_blob_proof(&blob, &commitment, &other_witness, &setup),
        Err(Error::BackendError)
    );
    assert_eq!(
        verify_blob_proof(&blob, &other_commitment, &witness, &setup),
        Err(Error::BackendError)
    );
    assert_eq!(
        verify_blob_proof(&other_blob, &commitment, &witness, &setup),
        Err(Error::BackendError)
    );
}

#[test]
fn empty_batch_verifies() {
    let setup = setup();
    assert_eq!(verify_blob_proof_batch(&vec![], &vec![], &vec![], &setup), Ok(true));
    assert_eq!(verify_blob_proof_batch_bytes(&vec![], &vec![], &vec![], &setup), Ok(true));
}

#[test]
fn batch_verifies_when_every_triple_does() {
    let setup = setup();
    let mut blobs = vec![];
    let mut commitments = vec![];
    let mut proofs = vec![];
    for k in 1u64..=3 {
        let blob = blob_of(|x| quadratic(x) * Scalar::from(k));
        let commitment = commit(&blob, &setup).unwrap();
        let witness = compute_blob_proof(&blob, &commitment, &setup).unwrap();
        assert_eq!(verify_blob_proof(&blob, &commitment, &witness, &setup), Ok(true));
        blobs.push(blob);
        commitments.push(commitment);
        proofs.push(witness);
        assert_eq!(verify_blob_proof_batch(&blobs, &commitments, &proofs, &setup), Ok(true));
    }
}

#[test]
fn batch_with_one_corrupted_proof_fails() {
    let setup = setup();
    let mut blobs = vec![];
    let mut commitments = vec![];
    let mut proofs = vec![];
    for k in 1u64..=3 {
        let blob = blob_of(|x| quadratic(x) + Scalar::from(k));
        let commitment = commit(&blob, &setup).unwrap();
        proofs.push(compute_blob_proof(&blob, &commitment, &setup).unwrap());
        blobs.push(blob);
        commitments.push(commitment);
    }
    for corrupted in 0..3 {
        let mut bad: Vec<KzgProof> = proofs.iter().map(|p| p.duplicate()).collect();
        bad[corrupted] = KzgProof::decode(&g1_times(&Scalar::from(5))).unwrap();
        assert_eq!(
            verify_blob_proof(&blobs[corrupted], &commitments[corrupted], &bad[corrupted], &setup),
            Err(Error::BackendError)
        );
        assert_eq!(
            verify_blob_proof_batch(&blobs, &commitments, &bad, &setup),
            Err(Error::BackendError)
        );
    }
    // a batch of one corrupted triple
    let single = vec![KzgProof::decode(&g1_infinity()).unwrap()];
    assert_eq!(
        verify_blob_proof_batch(
            &vec![blobs[0].duplicate()],
            &vec![commitments[0].duplicate()],
            &single,
            &setup
        ),
        Err(Error::BackendError)
    );
    // two proofs swapped
    proofs.swap(0, 1);
    assert_eq!(
        verify_blob_proof_batch(&blobs, &commitments, &proofs, &setup),
        Err(Error::BackendError)
    );
}

#[test]
fn batch_of_unequal_lists_is_refused() {
    let setup = setup();
    let blob = blob_of(quadratic);
    let commitment = commit(&blob, &setup).unwrap();
    let witness = compute_blob_proof(&blob, &commitment, &setup).unwrap();
    assert_eq!(
        verify_blob_proof_batch(&vec![blob.duplicate()], &vec![], &vec![], &setup),
        Err(Error::BackendError)
    );
    assert_eq!(
        verify_blob_proof_batch(
            &vec![blob.duplicate()],
            &vec![commitment.duplicate()],
            &vec![witness.duplicate(), witness.duplicate()],
            &setup
        ),
        Err(Error::BackendError)
    );
    assert_eq!(
        verify_blob_proof_batch(&vec![], &vec![commitment], &vec![witness], &setup),
        Err(Error::BackendError)
    );
    assert_eq!(
        verify_blob_proof_batch_bytes(&vec![blob.encode()], &vec![], &vec![], &setup),
        Err(Error::BackendError)
    );
}

#[test]
fn operations_on_bytes_decode_before_they_compute() {
    let setup = setup();
    let blob = blob_bytes_of(quadratic);
    let commitment = commit_bytes(&blob, &setup).unwrap();
    assert_eq!(commitment, g1_times(&quadratic(&tau())));
    let z = be(&Scalar::from(4242));
    let (witness, y) = compute_proof_bytes(&blob, &z, &setup).unwrap();
    assert_eq!(y, be(&quadratic(&Scalar::from(4242))));
    assert_eq!(verify_proof_bytes(&commitment, &z, &y, &witness, &setup), Ok(true));
    let blob_witness = compute_blob_proof_bytes(&blob, &commitment, &setup).unwrap();
    assert_eq!(verify_blob_proof_bytes(&blob, &commitment, &blob_witness, &setup), Ok(true));
    assert_eq!(
        verify_blob_proof_batch_bytes(
            &vec![blob.clone(), blob.clone()],
            &vec![commitment.clone(), commitment.clone()],
            &vec![blob_witness.clone(), blob_witness.clone()],
            &setup
        ),
        Ok(true)
    );

    let short = &blob[..blob.len() - 32];
    let unreduced = vec![0xffu8; 32];
    assert_eq!(commit_bytes(short, &setup), Err(Error::InvalidEncoding));
    assert_eq!(commit_bytes(&vec![0xffu8; N * 32], &setup), Err(Error::InvalidEncoding));
    assert_eq!(compute_proof_bytes(short, &z, &setup), Err(Error::InvalidEncoding));
    assert_eq!(compute_proof_bytes(&blob, &unreduced, &setup), Err(Error::InvalidEncoding));
    assert_eq!(compute_proof_bytes(&blob, &z[..31], &setup), Err(Error::InvalidEncoding));
    assert_eq!(
        verify_proof_bytes(&off_curve_point(), &z, &y, &witness, &setup),
        Err(Error::NotOnCurve)
    );
    assert_eq!(
        verify_proof_bytes(&commitment, &z, &y, &off_subgroup_point(), &setup),
        Err(Error::NotInSubgroup)
    );
    assert_eq!(
        verify_proof_bytes(&commitment, &unreduced, &y, &witness, &setup),
        Err(Error::InvalidEncoding)
    );
    assert_eq!(
        verify_proof_bytes(&commitment, &z, &unreduced, &witness, &setup),
        Err(Error::InvalidEncoding)
    );
    assert_eq!(
        verify_proof_bytes(&commitment[..47], &z, &y, &witness, &setup),
        Err(Error::InvalidEncoding)
    );
    // the first input that fails to decode names the error
    assert_eq!(
        verify_proof_bytes(&off_curve_point(), &unreduced, &y, &off_subgroup_point(), &setup),
        Err(Error::NotOnCurve)
    );
    assert_eq!(
        compute_blob_proof_bytes(&blob, &off_subgroup_point(), &setup),
        Err(Error::NotInSubgroup)
    );
    assert_eq!(
        compute_blob_proof_bytes(short, &off_subgroup_point(), &setup),
        Err(Error::InvalidEncoding)
    );
    assert_eq!(
        verify_blob_proof_bytes(&blob, &commitment, &off_curve_point(), &setup),
        Err(Error::NotOnCurve)
    );
    assert_eq!(
        verify_blob_proof_bytes(short, &commitment, &blob_witness, &setup),
        Err(Error::InvalidEncoding)
    );
    // in a batch, one input that fails to decode aborts the whole batch
    assert_eq!(
        verify_blob_proof_batch_bytes(
            &vec![blob.clone(), blob.clone()],
            &vec![commitment.clone(), off_curve_point()],
            &vec![blob_witness.clone(), blob_witness.clone()],
            &setup
        ),
        Err(Error::BackendError)
    );
    assert_eq!(
        verify_blob_proof_batch_bytes(
            &vec![short.to_vec()],
            &vec![commitment.clone()],
            &vec![blob_witness.clone()],
            &setup
        ),
        Err(Error::BackendError)
    );
}

#[test]
fn replies_of_the_engine_are_read_strictly() {
    assert_eq!(commitment_from_reply(None), Err(Error::BackendError));
    assert_eq!(commitment_from_reply(Some(vec![])), Err(Error::BackendError));
    assert_eq!(commitment_from_reply(Some(off_curve_point())), Err(Error::BackendError));
    assert_eq!(commitment_from_reply(Some(off_subgroup_point())), Err(Error::BackendError));
    let g = g1_times(&Scalar::one());
    assert_eq!(commitment_from_reply(Some(g.clone())).unwrap().encode(), g);

    assert_eq!(opening_from_reply(None), Err(Error::BackendError));
    assert_eq!(opening_from_reply(Some((g.clone(), vec![0xff; 32]))), Err(Error::BackendError));
    assert_eq!(opening_from_reply(Some((vec![0; 48], vec![0; 32]))), Err(Error::BackendError));
    assert_eq!(opening_from_reply(Some((g.clone(), vec![0; 31]))), Err(Error::BackendError));
    let opening = opening_from_reply(Some((g.clone(), vec![7; 32]))).unwrap();
    assert_eq!(opening.proof.encode(), g);
    assert_eq!(opening.evaluation.as_bytes(), &[7u8; 32][..]);

    assert_eq!(verdict_from_reply(Some(true)), Ok(true));
    assert_eq!(verdict_from_reply(Some(false)), Err(Error::BackendError));
    assert_eq!(verdict_from_reply(None), Err(Error::BackendError));
}
