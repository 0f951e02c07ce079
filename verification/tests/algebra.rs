use ibe_chl::ibe::{ro4, xor};
use ibe_chl::pairings::{
    ceil, pair, G1Element, G2Element, GTElement, Scalar, G1_BYTES, G2_BYTES, GT_BYTES,
    SCALAR_BYTES,
};
use ibe_chl::Error;

#[test]
fn test_scalar_random_deterministic() {
    let a = Scalar::random(b"seed");
    let b = Scalar::random(b"seed");
    assert!(a == b);
    assert_eq!(a.to_bytes(), b.to_bytes());
    let c = Scalar::random(b"other seed");
    assert!(!(a == c));
    assert_ne!(a.to_bytes(), c.to_bytes());
    // The alias entry point performs the same derivation.
    let d = Scalar::from_bytes_random(b"seed");
    assert!(a == d);
}

#[test]
fn test_scalar_codec_round_trip() {
    let s = Scalar::random(b"codec seed");
    let bytes = s.to_bytes();
    assert_eq!(bytes.len(), SCALAR_BYTES);
    let s2 = Scalar::from_bytes(&bytes).unwrap();
    assert!(s2 == s);
}

#[test]
fn test_scalar_decode_rejects() {
    // A value at or above the group order is not canonical.
    let too_big = [0xFFu8; 48];
    assert!(matches!(Scalar::from_bytes(&too_big), Err(Error::DecodeError)));
    // Wrong length.
    let short = [0u8; 47];
    assert!(matches!(Scalar::from_bytes(&short), Err(Error::DecodeError)));
}

#[test]
fn test_g1_codec_round_trip() {
    let p = G1Element::hash_to_curve(b"a G1 point");
    let bytes = p.to_bytes();
    assert_eq!(bytes.len(), G1_BYTES);
    let p2 = G1Element::from_bytes(&bytes).unwrap();
    assert!(p2 == p);

    let g = G1Element::generator();
    let g2 = G1Element::from_bytes(&g.to_bytes()).unwrap();
    assert!(g2 == g);
    assert!(!(g == p));
}

#[test]
fn test_g2_codec_round_trip() {
    let g = G2Element::generator();
    let bytes = g.to_bytes();
    assert_eq!(bytes.len(), G2_BYTES);
    let g2 = G2Element::from_bytes(&bytes).unwrap();
    assert!(g2 == g);

    let s = Scalar::random(b"g2 scalar");
    let h = s.mul_g2(&g);
    let h2 = G2Element::from_bytes(&h.to_bytes()).unwrap();
    assert!(h2 == h);
    assert!(!(h == g));

    let m = G2Element::hash_to_curve(b"a G2 point");
    let m2 = G2Element::from_bytes(&m.to_bytes()).unwrap();
    assert!(m2 == m);
}

#[test]
fn test_gt_codec_round_trip() {
    let p = G1Element::generator();
    let q = G2Element::generator();
    let e = pair(&p, &q);
    let bytes = e.to_bytes();
    assert_eq!(bytes.len(), GT_BYTES);
    let e2 = GTElement::from_bytes(&bytes).unwrap();
    assert!(e2 == e);
}

#[test]
fn test_group_decode_rejects() {
    // Wrong lengths.
    assert!(matches!(G1Element::from_bytes(&[0u8; 10]), Err(Error::DecodeError)));
    assert!(matches!(G2Element::from_bytes(&[0u8; 58]), Err(Error::DecodeError)));
    assert!(matches!(GTElement::from_bytes(&[0u8; 10]), Err(Error::DecodeError)));
    // A tag byte that is neither 2 nor 3.
    let mut bad_tag = [0u8; 58];
    bad_tag[0] = 9;
    assert!(matches!(G1Element::from_bytes(&bad_tag), Err(Error::DecodeError)));
    // An x-coordinate at or above the field modulus.
    let mut bad_x = [0xFFu8; 58];
    bad_x[0] = 2;
    assert!(matches!(G1Element::from_bytes(&bad_x), Err(Error::DecodeError)));
}

#[test]
fn test_bilinearity() {
    let a = Scalar::random(b"scalar a");
    let b = Scalar::random(b"scalar b");
    let p = G1Element::generator();
    let q = G2Element::generator();
    // pairing(a*P, b*Q) == pairing(b*P, a*Q): both sides equal
    // pairing(P, Q) raised to a*b.
    let left = pair(&a.mul_g1(&p), &b.mul_g2(&q));
    let right = pair(&b.mul_g1(&p), &a.mul_g2(&q));
    assert!(left == right);
    // Moving a scalar across the pairing does not change the result.
    let e1 = pair(&a.mul_g1(&p), &q);
    let e2 = pair(&p, &a.mul_g2(&q));
    assert!(e1 == e2);
    // Distinct exponents give distinct results.
    assert!(!(left == e1));
}

#[test]
fn test_scalar_mul_changes_point() {
    let s = Scalar::random(b"mul scalar");
    let p = G1Element::hash_to_curve(b"base");
    let sp = s.mul_g1(&p);
    assert!(!(sp == p));
    let q = G2Element::generator();
    let sq = s.mul_g2(&q);
    assert!(!(sq == q));
}

#[test]
fn test_ro4_values() {
    // One sponge evaluation with 32-byte output on b"sigma".
    let expected: Vec<u8> = vec![
        232, 21, 249, 129, 152, 89, 53, 45, 217, 25, 238, 73, 81, 106, 165, 248, 81, 12, 43, 215,
        118, 66, 190, 86, 225, 162, 212, 202, 177, 171, 153, 38,
    ];
    assert_eq!(ro4(b"sigma", 32), expected);
    // The pad has exactly the requested length and is not the input.
    let pad = ro4(b"sigma", 5);
    assert_eq!(pad.len(), 5);
    assert_ne!(pad, b"sigma".to_vec());
}

#[test]
fn test_xor_values() {
    assert_eq!(xor(&[0x0F, 0xF0, 0xAA], &[0xFF, 0xF0, 0x0F]), vec![0xF0u8, 0x00, 0xA5]);
    // The result is as long as the shorter input.
    assert_eq!(xor(&[0x01, 0x02, 0x03], &[0x01]), vec![0x00u8]);
    assert_eq!(xor(&[], &[0x01]), Vec::<u8>::new());
}

#[test]
fn test_ceil_values() {
    assert_eq!(ceil(255, 8), 32);
    assert_eq!(ceil(96, 2), 48);
    assert_eq!(ceil(1, 1), 1);
    assert_eq!(ceil(8, 8), 1);
    assert_eq!(ceil(9, 8), 2);
}
