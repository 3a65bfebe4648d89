use bellman::groth16::VerifyingKey;
use bls12_381::{Bls12, G1Affine, G1Projective, G2Affine, G2Projective, Scalar};
use groth16_params::params::{write_g1_array, write_g2_array};
use groth16_params::{read, G1Element, G2Element, ReadError};

fn g1_point(k: u64) -> G1Affine {
    G1Affine::from(G1Projective::generator() * Scalar::from(k))
}

fn g2_point(k: u64) -> G2Affine {
    G2Affine::from(G2Projective::generator() * Scalar::from(k))
}

fn g1_bytes(p: &G1Affine) -> Vec<u8> {
    p.to_uncompressed().to_vec()
}

fn g2_bytes(p: &G2Affine) -> Vec<u8> {
    p.to_uncompressed().to_vec()
}

fn vk_bytes() -> Vec<u8> {
    let vk = VerifyingKey::<Bls12> {
        alpha_g1: g1_point(7),
        beta_g1: g1_point(8),
        beta_g2: g2_point(9),
        gamma_g2: g2_point(10),
        delta_g1: g1_point(11),
        delta_g2: g2_point(12),
        ic: vec![g1_point(13), g1_point(14)],
    };
    let mut out = Vec::new();
    vk.write(&mut out).expect("writing a verifying key to a vector cannot fail");
    out
}

fn push_array(out: &mut Vec<u8>, blocks: &[Vec<u8>]) {
    out.extend_from_slice(&(blocks.len() as u32).to_be_bytes());
    for b in blocks {
        out.extend_from_slice(b);
    }
}

fn stream(
    h: &[Vec<u8>],
    l: &[Vec<u8>],
    a: &[Vec<u8>],
    b_g1: &[Vec<u8>],
    b_g2: &[Vec<u8>],
) -> Vec<u8> {
    let mut out = vk_bytes();
    push_array(&mut out, h);
    push_array(&mut out, l);
    push_array(&mut out, a);
    push_array(&mut out, b_g1);
    push_array(&mut out, b_g2);
    out
}

/// A point that is on the curve but outside the prime-order subgroup, in
/// canonical uncompressed form: the strict decoder rejects it, the lenient
/// one accepts it.
fn off_subgroup_g1_bytes() -> Vec<u8> {
    vec![
        18, 141, 72, 98, 164, 4, 57, 166, 127, 215, 106, 156, 117, 96, 226, 255, 21, 158, 119, 13,
        207, 104, 143, 247, 178, 221, 22, 87, 146, 84, 28, 136, 238, 118, 200, 46, 183, 125, 214,
        233, 231, 44, 137, 203, 241, 165, 106, 104, 9, 220, 242, 170, 19, 194, 155, 248, 135, 135,
        247, 37, 233, 156, 36, 127, 242, 232, 246, 188, 93, 134, 186, 41, 225, 96, 99, 170, 250,
        18, 76, 253, 212, 17, 3, 125, 57, 241, 211, 168, 24, 234, 127, 133, 189, 76, 161, 207,
    ]
}

fn expect_err(r: Result<groth16_params::ProvingParameters, ReadError>) -> ReadError {
    match r {
        Ok(_) => panic!("expected the read to fail"),
        Err(e) => e,
    }
}

#[test]
fn empty_arrays_succeed() {
    let data = stream(&[], &[], &[], &[], &[]);
    for checked in [false, true] {
        let p = read(&data, checked).expect("an artifact with five empty arrays is valid");
        assert_eq!(p.h.len(), 0);
        assert_eq!(p.l.len(), 0);
        assert_eq!(p.a.len(), 0);
        assert_eq!(p.b_g1.len(), 0);
        assert_eq!(p.b_g2.len(), 0);
    }
}

#[test]
fn order_preserved_in_all_arrays() {
    let h = vec![g1_bytes(&g1_point(1)), g1_bytes(&g1_point(2)), g1_bytes(&g1_point(3))];
    let l = vec![g1_bytes(&g1_point(4))];
    let a = vec![g1_bytes(&g1_point(5)), g1_bytes(&g1_point(6))];
    let b_g1 = vec![g1_bytes(&g1_point(7))];
    let b_g2 = vec![g2_bytes(&g2_point(1)), g2_bytes(&g2_point(2))];
    let data = stream(&h, &l, &a, &b_g1, &b_g2);
    let p = read(&data, true).expect("all marker points are valid");
    assert_eq!(p.h.len(), 3);
    for (i, want) in h.iter().enumerate() {
        assert_eq!(&p.h[i].encoding(), want);
    }
    for (i, want) in l.iter().enumerate() {
        assert_eq!(&p.l[i].encoding(), want);
    }
    for (i, want) in a.iter().enumerate() {
        assert_eq!(&p.a[i].encoding(), want);
    }
    for (i, want) in b_g1.iter().enumerate() {
        assert_eq!(&p.b_g1[i].encoding(), want);
    }
    for (i, want) in b_g2.iter().enumerate() {
        assert_eq!(&p.b_g2[i].encoding(), want);
    }
}

#[test]
fn round_trip_reserializes_identical_encodings() {
    let h = vec![g1_bytes(&g1_point(1)), g1_bytes(&g1_point(2))];
    let l = vec![g1_bytes(&g1_point(3))];
    let a = vec![g1_bytes(&g1_point(4))];
    let b_g1 = vec![g1_bytes(&g1_point(5))];
    let b_g2 = vec![g2_bytes(&g2_point(3))];
    let data = stream(&h, &l, &a, &b_g1, &b_g2);
    let p = read(&data, true).expect("the fixture is valid");

    // Re-serializing each array must reproduce the wire bytes exactly,
    // length prefix included.
    let mut data2 = vk_bytes();
    data2.extend_from_slice(&write_g1_array(&p.h));
    data2.extend_from_slice(&write_g1_array(&p.l));
    data2.extend_from_slice(&write_g1_array(&p.a));
    data2.extend_from_slice(&write_g1_array(&p.b_g1));
    data2.extend_from_slice(&write_g2_array(&p.b_g2));
    assert_eq!(data2, data);

    // And re-reading yields byte-identical raw encodings.
    let p2 = read(&data2, true).expect("the re-serialized artifact is valid");
    for i in 0..h.len() {
        assert_eq!(p2.h[i].encoding(), p.h[i].encoding());
    }
    assert_eq!(p2.b_g2[0].encoding(), p.b_g2[0].encoding());
}

#[test]
fn length_prefix_is_big_endian() {
    let h = vec![g1_bytes(&g1_point(1)), g1_bytes(&g1_point(2)), g1_bytes(&g1_point(3))];
    let data = stream(&h, &[], &[], &[], &[]);
    let p = read(&data, true).expect("the fixture is valid");
    let written = write_g1_array(&p.h);
    assert_eq!(&written[0..4], &[0u8, 0, 0, 3]);
    assert_eq!(written.len(), 4 + 3 * 96);
}

#[test]
fn corrupted_flag_bits_fail_both_modes() {
    for checked in [false, true] {
        let mut h = vec![g1_bytes(&g1_point(1)), g1_bytes(&g1_point(2))];
        // Setting the compression flag breaks basic well-formedness, so even
        // unchecked mode must reject the block.
        h[1][0] |= 0x80;
        let data = stream(&h, &[], &[], &[], &[]);
        assert_eq!(expect_err(read(&data, checked)), ReadError::InvalidEncoding);
    }
}

#[test]
fn off_curve_point_fails_checked_mode() {
    let mut h = vec![g1_bytes(&g1_point(1)), g1_bytes(&g1_point(2)), g1_bytes(&g1_point(3))];
    // Flipping a low bit of the y-coordinate keeps the field encoding
    // canonical but moves the point off the curve.
    h[1][95] ^= 0x01;
    let data = stream(&h, &[], &[], &[], &[]);
    assert_eq!(expect_err(read(&data, true)), ReadError::InvalidEncoding);
}

#[test]
fn identity_point_fails_read_in_both_modes() {
    for checked in [false, true] {
        let h = vec![g1_bytes(&g1_point(1)), g1_bytes(&G1Affine::identity())];
        let data = stream(&h, &[], &[], &[], &[]);
        assert_eq!(expect_err(read(&data, checked)), ReadError::PointAtInfinity);
    }
}

#[test]
fn identity_blocks_rejected_in_both_modes() {
    let g1_id = g1_bytes(&G1Affine::identity());
    let g2_id = g2_bytes(&G2Affine::identity());
    for checked in [false, true] {
        match G1Element::validate(&g1_id, checked) {
            Err(e) => assert_eq!(e, ReadError::PointAtInfinity),
            Ok(_) => panic!("the identity encoding must be rejected"),
        }
        match G2Element::validate(&g2_id, checked) {
            Err(e) => assert_eq!(e, ReadError::PointAtInfinity),
            Ok(_) => panic!("the identity encoding must be rejected"),
        }
    }
}

#[test]
fn identity_in_g2_array_fails() {
    let b_g2 = vec![g2_bytes(&g2_point(1)), g2_bytes(&G2Affine::identity())];
    let data = stream(&[], &[], &[], &[], &b_g2);
    assert_eq!(expect_err(read(&data, true)), ReadError::PointAtInfinity);
}

#[test]
fn off_subgroup_point_accepted_only_unchecked() {
    let off = off_subgroup_g1_bytes();
    let element = G1Element::validate(&off, false).expect("unchecked mode trusts the encoding");
    assert_eq!(element.encoding(), off);
    match G1Element::validate(&off, true) {
        Err(e) => assert_eq!(e, ReadError::InvalidEncoding),
        Ok(_) => panic!("checked mode must reject an off-subgroup point"),
    }

    let data = stream(&[g1_bytes(&g1_point(1)), off.clone()], &[], &[], &[], &[]);
    let p = read(&data, false).expect("unchecked mode accepts the whole stream");
    assert_eq!(p.h[1].encoding(), off);
    assert_eq!(expect_err(read(&data, true)), ReadError::InvalidEncoding);
}

#[test]
fn decoded_elements_reserialize_to_their_input() {
    let b = g1_bytes(&g1_point(42));
    let e = G1Element::validate(&b, true).expect("a subgroup point is valid");
    assert_eq!(e.encoding(), b);
    let b2 = g2_bytes(&g2_point(42));
    let e2 = G2Element::validate(&b2, true).expect("a subgroup point is valid");
    assert_eq!(e2.encoding(), b2);
}

#[test]
fn truncated_array_fails_with_truncation_error() {
    let h = vec![g1_bytes(&g1_point(1)), g1_bytes(&g1_point(2))];
    let full = stream(&h, &[], &[], &[], &[]);
    // Cut the stream in the middle of the second block of `h`: the length
    // prefix still announces two elements.
    let cut = full.len() - (16 + 96);
    let data = full[..cut].to_vec();
    for checked in [false, true] {
        assert_eq!(expect_err(read(&data, checked)), ReadError::Truncated);
    }
}

#[test]
fn truncated_length_prefix_fails() {
    let mut data = vk_bytes();
    data.extend_from_slice(&[0u8, 0]);
    assert_eq!(expect_err(read(&data, true)), ReadError::Truncated);
}

#[test]
fn missing_later_arrays_fail() {
    let mut data = vk_bytes();
    // Only `h` is present (and empty); the stream ends before `l`.
    data.extend_from_slice(&[0u8, 0, 0, 0]);
    assert_eq!(expect_err(read(&data, true)), ReadError::Truncated);
}

#[test]
fn malformed_verifying_key_fails() {
    let data = vec![0xFFu8; 100];
    assert_eq!(expect_err(read(&data, true)), ReadError::VerifyingKey);
}

#[test]
fn truncated_verifying_key_fails_as_verifying_key_error() {
    let full = vk_bytes();
    let data = full[..10].to_vec();
    assert_eq!(expect_err(read(&data, true)), ReadError::VerifyingKey);
}

#[test]
fn verifying_key_fields_survive() {
    let data = stream(&[], &[], &[], &[], &[]);
    let p = read(&data, true).expect("the fixture is valid");
    assert_eq!(p.verifying_key.key.alpha_g1, g1_point(7));
    assert_eq!(p.verifying_key.key.gamma_g2, g2_point(10));
    assert_eq!(p.verifying_key.key.ic, vec![g1_point(13), g1_point(14)]);
}

#[test]
fn trailing_bytes_are_ignored() {
    let mut data = stream(&[g1_bytes(&g1_point(1))], &[], &[], &[], &[]);
    data.extend_from_slice(&[1, 2, 3, 4]);
    let p = read(&data, true).expect("trailing bytes do not invalidate the artifact");
    assert_eq!(p.h.len(), 1);
}
