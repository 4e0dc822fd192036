use blob_kzg::hex::{decode_hex, decode_hex_text, hex_digit};
use blob_kzg::field::{hash_to_field, scalar_is_canonical};
use blob_kzg::numeric::{bytes_equal, read_u128, write_u128};
use blob_kzg::point::{verdict_of_status, PointStatus};
use blob_kzg::{
    decode_field_element, decode_point, encode_field_element, encode_point, Blob, Error,
    KzgCommitment, KzgProof,
};

const MODULUS: [u8; 32] = [
    0x73, 0xed, 0xa7, 0x53, 0x29, 0x9d, 0x7d, 0x48, 0x33, 0x39, 0xd8, 0x08, 0x09, 0xa1, 0xd8, 0x05,
    0x53, 0xbd, 0xa4, 0x02, 0xff, 0xfe, 0x5b, 0xfe, 0xff, 0xff, 0xff, 0xff, 0x00, 0x00, 0x00, 0x01,
];

const GENERATOR: [u8; 48] = [
    0x97, 0xf1, 0xd3, 0xa7, 0x31, 0x97, 0xd7, 0x94, 0x26, 0x95, 0x63, 0x8c, 0x4f, 0xa9, 0xac, 0x0f,
    0xc3, 0x68, 0x8c, 0x4f, 0x97, 0x74, 0xb9, 0x05, 0xa1, 0x4e, 0x3a, 0x3f, 0x17, 0x1b, 0xac, 0x58,
    0x6c, 0x55, 0xe8, 0x3f, 0xf9, 0x7a, 0x1a, 0xef, 0xfb, 0x3a, 0xf0, 0x0a, 0xdb, 0x22, 0xc6, 0xbb,
];

fn modulus_plus(delta: i8) -> Vec<u8> {
    let mut bytes = MODULUS.to_vec();
    if delta >= 0 {
        bytes[31] += delta as u8;
    } else {
        // the modulus ends in ...00000001: borrow through the zero bytes
        bytes[31] = 0;
        if delta < -1 {
            bytes[31] = 0xff;
            bytes[30] = 0xff;
            bytes[29] = 0xff;
            bytes[28] = 0xff;
            bytes[27] = 0xfe;
        }
    }
    bytes
}

fn infinity() -> Vec<u8> {
    let mut bytes = vec![0u8; 48];
    bytes[0] = 0xc0;
    bytes
}

fn with_x(flags: u8, x: u8) -> [u8; 48] {
    let mut bytes = [0u8; 48];
    bytes[0] = flags;
    bytes[47] = x;
    bytes
}

#[test]
fn field_element_below_the_modulus_decodes() {
    for bytes in [vec![0u8; 32], modulus_plus(-1), modulus_plus(-2)] {
        let x = decode_field_element(&bytes).unwrap();
        assert_eq!(x.as_bytes(), &bytes[..]);
        assert!(scalar_is_canonical(&bytes));
    }
    let mut one = vec![0u8; 32];
    one[31] = 1;
    assert!(decode_field_element(&one).is_ok());
    // the largest element is the modulus less one
    assert_eq!(modulus_plus(-1)[28..], [0, 0, 0, 0]);
    assert_eq!(modulus_plus(-2)[27..], [0xfe, 0xff, 0xff, 0xff, 0xff]);
}

#[test]
fn field_element_at_or_above_the_modulus_is_rejected() {
    assert_eq!(decode_field_element(&MODULUS), Err(Error::InvalidEncoding));
    assert_eq!(decode_field_element(&modulus_plus(1)), Err(Error::InvalidEncoding));
    assert_eq!(decode_field_element(&[0xffu8; 32]), Err(Error::InvalidEncoding));
    let mut high = [0u8; 32];
    high[0] = 0x74;
    assert_eq!(decode_field_element(&high), Err(Error::InvalidEncoding));
    assert!(!scalar_is_canonical(&MODULUS));
}

#[test]
fn field_element_of_wrong_length_is_rejected() {
    assert_eq!(decode_field_element(&[]), Err(Error::InvalidEncoding));
    assert_eq!(decode_field_element(&[0u8; 31]), Err(Error::InvalidEncoding));
    assert_eq!(decode_field_element(&[0u8; 33]), Err(Error::InvalidEncoding));
    assert!(!scalar_is_canonical(&[0u8; 31]));
}

#[test]
fn field_element_round_trip() {
    let mut bytes = vec![0u8; 32];
    for (i, b) in bytes.iter_mut().enumerate() {
        *b = (i as u8).wrapping_mul(7);
    }
    let x = decode_field_element(&bytes).unwrap();
    let encoded = encode_field_element(&x);
    assert_eq!(encoded, bytes);
    assert_eq!(decode_field_element(&encoded).unwrap(), x);
    assert_eq!(x.duplicate(), x);
}

#[test]
fn digest_is_reduced_into_the_field() {
    assert_eq!(hash_to_field(&[0u8; 32]).as_bytes(), &[0u8; 32][..]);
    assert_eq!(hash_to_field(&MODULUS).as_bytes(), &[0u8; 32][..]);
    let below: [u8; 32] = modulus_plus(-1).try_into().unwrap();
    assert_eq!(hash_to_field(&below).as_bytes(), &below[..]);
    // 2^256 - 1 is twice the modulus and this much more
    let expected: [u8; 32] = [
        0x18, 0x24, 0xb1, 0x59, 0xac, 0xc5, 0x05, 0x6f, 0x99, 0x8c, 0x4f, 0xef, 0xec, 0xbc, 0x4f,
        0xf5, 0x58, 0x84, 0xb7, 0xfa, 0x00, 0x03, 0x48, 0x02, 0x00, 0x00, 0x00, 0x01, 0xff, 0xff,
        0xff, 0xfd,
    ];
    assert_eq!(hash_to_field(&[0xffu8; 32]).as_bytes(), &expected[..]);
    // twice the modulus plus five
    let twice_plus_five: [u8; 32] = [
        0xe7, 0xdb, 0x4e, 0xa6, 0x53, 0x3a, 0xfa, 0x90, 0x66, 0x73, 0xb0, 0x10, 0x13, 0x43, 0xb0,
        0x0a, 0xa7, 0x7b, 0x48, 0x05, 0xff, 0xfc, 0xb7, 0xfd, 0xff, 0xff, 0xff, 0xfe, 0x00, 0x00,
        0x00, 0x07,
    ];
    let mut five = [0u8; 32];
    five[31] = 5;
    assert_eq!(hash_to_field(&twice_plus_five).as_bytes(), &five[..]);
}

#[test]
fn digest_reduction_agrees_with_an_independent_field() {
    for seed in 0u8..40 {
        let mut digest = [0u8; 32];
        for (i, b) in digest.iter_mut().enumerate() {
            *b = seed.wrapping_mul(37).wrapping_add((i as u8).wrapping_mul(101)) ^ 0xa5;
        }
        let mut wide = [0u8; 64];
        for i in 0..32 {
            wide[i] = digest[31 - i];
        }
        let mut expected = bls12_381::Scalar::from_bytes_wide(&wide).to_bytes();
        expected.reverse();
        assert_eq!(hash_to_field(&digest).as_bytes(), &expected[..]);
    }
}

#[test]
fn sixteen_bytes_read_and_written_as_a_number() {
    let bytes: Vec<u8> = (1u8..=20).collect();
    assert_eq!(read_u128(&bytes, 0), 0x0102030405060708090a0b0c0d0e0f10);
    assert_eq!(read_u128(&bytes, 4), 0x05060708090a0b0c0d0e0f1011121314);
    assert_eq!(write_u128(0x0102030405060708090a0b0c0d0e0f10), bytes[..16].to_vec());
    assert_eq!(write_u128(0), vec![0u8; 16]);
    assert_eq!(write_u128(4096), [vec![0u8; 14], vec![0x10, 0x00]].concat());
    assert_eq!(write_u128(u128::MAX), vec![0xffu8; 16]);
    assert!(bytes_equal(&bytes, &bytes.clone()));
    assert!(!bytes_equal(&bytes, &bytes[..19]));
    assert!(!bytes_equal(&[1, 2, 3], &[1, 2, 4]));
    assert!(bytes_equal(&[], &[]));
}

#[test]
fn generator_and_identity_decode_as_points() {
    assert_eq!(bls12_381::G1Affine::generator().to_compressed(), GENERATOR);
    let g = decode_point(&GENERATOR).unwrap();
    assert_eq!(g.as_bytes(), &GENERATOR[..]);
    assert_eq!(encode_point(&g), GENERATOR.to_vec());
    let o = decode_point(&infinity()).unwrap();
    assert_eq!(encode_point(&o), infinity());
    assert_eq!(decode_point(&encode_point(&g)).unwrap(), g);
    assert_eq!(g.duplicate(), g);
}

#[test]
fn commitment_and_proof_round_trip() {
    let c = KzgCommitment::decode(&GENERATOR).unwrap();
    assert_eq!(c.encode(), GENERATOR.to_vec());
    assert_eq!(c.as_bytes(), &GENERATOR[..]);
    assert_eq!(KzgCommitment::decode(&c.encode()).unwrap(), c);
    assert_eq!(c.duplicate(), c);
    let p = KzgProof::decode(&infinity()).unwrap();
    assert_eq!(p.encode(), infinity());
    assert_eq!(p.as_bytes(), &infinity()[..]);
    assert_eq!(KzgProof::decode(&p.encode()).unwrap(), p);
    assert_eq!(p.duplicate(), p);
}

#[test]
fn point_of_wrong_length_is_rejected() {
    assert_eq!(decode_point(&[]), Err(Error::InvalidEncoding));
    assert_eq!(decode_point(&GENERATOR[..47]), Err(Error::InvalidEncoding));
    let mut long = GENERATOR.to_vec();
    long.push(0);
    assert_eq!(decode_point(&long), Err(Error::InvalidEncoding));
    assert_eq!(decode_point(&[0u8; 96]), Err(Error::InvalidEncoding));
    assert_eq!(KzgCommitment::decode(&long), Err(Error::InvalidEncoding));
    assert_eq!(KzgProof::decode(&[]), Err(Error::InvalidEncoding));
}

#[test]
fn point_with_bad_flags_or_coordinate_is_rejected() {
    // compression flag missing
    let mut bytes = GENERATOR;
    bytes[0] &= 0x7f;
    assert_eq!(decode_point(&bytes), Err(Error::InvalidEncoding));
    assert_eq!(decode_point(&[0u8; 48]), Err(Error::InvalidEncoding));
    // infinity flag with a coordinate
    let mut bytes = infinity();
    bytes[47] = 1;
    assert_eq!(decode_point(&bytes), Err(Error::InvalidEncoding));
    // infinity flag with the sign flag
    let mut bytes = infinity();
    bytes[0] = 0xe0;
    assert_eq!(decode_point(&bytes), Err(Error::InvalidEncoding));
    // x-coordinate not below the base field's modulus
    let mut bytes = [0xffu8; 48];
    bytes[0] = 0x9f;
    assert_eq!(decode_point(&bytes), Err(Error::InvalidEncoding));
}

#[test]
fn point_decoding_agrees_with_an_independent_curve() {
    let mut off_curve = 0;
    let mut off_subgroup = 0;
    for flags in [0x80u8, 0xa0u8] {
        for x in 0u8..=80 {
            let bytes = with_x(flags, x);
            let on_curve: bool = bls12_381::G1Affine::from_compressed_unchecked(&bytes)
                .is_some()
                .into();
            let in_subgroup: bool = bls12_381::G1Affine::from_compressed(&bytes).is_some().into();
            let expected = if in_subgroup {
                Ok(())
            } else if on_curve {
                off_subgroup += 1;
                Err(Error::NotInSubgroup)
            } else {
                off_curve += 1;
                Err(Error::NotOnCurve)
            };
            assert_eq!(decode_point(&bytes).map(|_| ()), expected, "x = {}", x);
            assert_eq!(KzgCommitment::decode(&bytes).map(|_| ()), expected);
            assert_eq!(KzgProof::decode(&bytes).map(|_| ()), expected);
        }
    }
    assert!(off_curve > 0);
    assert!(off_subgroup > 0);
}

#[test]
fn each_point_status_has_its_error() {
    assert_eq!(verdict_of_status(PointStatus::Valid), Ok(()));
    assert_eq!(verdict_of_status(PointStatus::BadEncoding), Err(Error::InvalidEncoding));
    assert_eq!(verdict_of_status(PointStatus::NotOnCurve), Err(Error::NotOnCurve));
    assert_eq!(verdict_of_status(PointStatus::NotInSubgroup), Err(Error::NotInSubgroup));
}

#[test]
fn blob_of_exact_length_decodes() {
    let mut bytes = vec![0u8; 131072];
    bytes[32 * 7..32 * 8].copy_from_slice(&modulus_plus(-1));
    bytes[131071] = 9;
    let blob = Blob::decode(&bytes).unwrap();
    assert_eq!(blob.len(), 4096);
    assert_eq!(blob.as_bytes(), &bytes[..]);
    assert_eq!(blob.encode(), bytes);
    assert_eq!(Blob::decode(&blob.encode()).unwrap(), blob);
    assert_eq!(blob.duplicate(), blob);
    assert_eq!(blob.element(7).unwrap().as_bytes(), &modulus_plus(-1)[..]);
    assert_eq!(blob.element(4095).unwrap().as_bytes()[31], 9);
    assert_eq!(blob.element(0).unwrap().as_bytes(), &[0u8; 32][..]);
    assert_eq!(blob.element(4096), None);
}

#[test]
fn blob_is_built_from_its_elements() {
    let mut elements = Vec::new();
    let mut bytes = Vec::new();
    for i in 0..4096u32 {
        let mut e = [0u8; 32];
        e[28..].copy_from_slice(&i.to_be_bytes());
        e[0] = (i % 0x74) as u8;
        bytes.extend_from_slice(&e);
        elements.push(decode_field_element(&e).unwrap());
    }
    let blob = Blob::from_elements(&elements).unwrap();
    assert_eq!(blob.encode(), bytes);
    assert_eq!(blob, Blob::decode(&bytes).unwrap());
    assert_eq!(blob.element(4095).unwrap(), elements[4095]);
    elements.pop();
    assert_eq!(Blob::from_elements(&elements), None);
    assert_eq!(Blob::from_elements(&vec![]), None);
    elements.push(decode_field_element(&[0u8; 32]).unwrap());
    elements.push(decode_field_element(&[0u8; 32]).unwrap());
    assert_eq!(Blob::from_elements(&elements), None);
}

#[test]
fn blob_of_wrong_element_count_is_rejected() {
    assert_eq!(Blob::decode(&[]), Err(Error::InvalidEncoding));
    assert_eq!(Blob::decode(&vec![0u8; 131072 - 32]), Err(Error::InvalidEncoding));
    assert_eq!(Blob::decode(&vec![0u8; 131072 + 32]), Err(Error::InvalidEncoding));
    assert_eq!(Blob::decode(&vec![0u8; 131071]), Err(Error::InvalidEncoding));
    assert_eq!(Blob::decode(&vec![0u8; 131073]), Err(Error::InvalidEncoding));
}

#[test]
fn blob_with_one_unreduced_element_is_rejected() {
    for position in [0usize, 1, 2047, 4095] {
        let mut bytes = vec![0u8; 131072];
        bytes[32 * position..32 * position + 32].copy_from_slice(&MODULUS);
        assert_eq!(Blob::decode(&bytes), Err(Error::InvalidEncoding));
        bytes[32 * position + 31] = 0;
        assert!(Blob::decode(&bytes).is_ok());
    }
    assert_eq!(Blob::decode(&vec![0xffu8; 131072]), Err(Error::InvalidEncoding));
}

#[test]
fn hexadecimal_text_decodes() {
    assert_eq!(decode_hex_text("0x"), Some(vec![]));
    assert_eq!(decode_hex_text("0x00"), Some(vec![0]));
    assert_eq!(decode_hex_text("0x0aFf10"), Some(vec![0x0a, 0xff, 0x10]));
    assert_eq!(
        decode_hex_text("0x0123456789abcdefABCDEF"),
        Some(vec![0x01, 0x23, 0x45, 0x67, 0x89, 0xab, 0xcd, 0xef, 0xab, 0xcd, 0xef])
    );
    assert_eq!(decode_hex(b"0x7f"), Some(vec![0x7f]));
    assert_eq!(hex_digit(b'0'), Some(0));
    assert_eq!(hex_digit(b'9'), Some(9));
    assert_eq!(hex_digit(b'a'), Some(10));
    assert_eq!(hex_digit(b'f'), Some(15));
    assert_eq!(hex_digit(b'A'), Some(10));
    assert_eq!(hex_digit(b'F'), Some(15));
}

#[test]
fn malformed_hexadecimal_text_is_rejected() {
    assert_eq!(decode_hex_text(""), None);
    assert_eq!(decode_hex_text("0"), None);
    assert_eq!(decode_hex_text("00"), None);
    assert_eq!(decode_hex_text("0aff"), None);
    assert_eq!(decode_hex_text("0X0a"), None);
    assert_eq!(decode_hex_text("0x0"), None);
    assert_eq!(decode_hex_text("0x0g"), None);
    assert_eq!(decode_hex_text("0xg0"), None);
    assert_eq!(decode_hex_text("0x 0"), None);
    assert_eq!(decode_hex_text("0x00\u{e9}"), None);
    assert_eq!(hex_digit(b'g'), None);
    assert_eq!(hex_digit(b'G'), None);
    assert_eq!(hex_digit(b'/'), None);
    assert_eq!(hex_digit(b':'), None);
    assert_eq!(hex_digit(b'@'), None);
    assert_eq!(hex_digit(b'`'), None);
}
