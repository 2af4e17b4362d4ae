use group::{Group, GroupEncoding};
use ironfish_sapling::curve::{Base, Point};
use ironfish_sapling::error::ReadError;
use ironfish_sapling::redjubjub::{PublicKey, Signature};
use ironfish_sapling::sapling::{
    read_base, read_point, read_zkproof, Authorized, CompactOutputDescription, Nullifier,
    OutputDescription, OutputDescriptionV5, SpendDescription, SpendDescriptionV5,
};

fn generator_bytes() -> [u8; 32] {
    ironfish_jubjub::ExtendedPoint::generator().to_bytes()
}

fn identity_bytes() -> [u8; 32] {
    let mut b = [0u8; 32];
    b[0] = 1;
    b
}

fn invalid(msg: &str) -> ReadError {
    ReadError::InvalidInput(msg.to_string())
}

fn sample_spend() -> SpendDescription<Authorized> {
    let mut anchor = [0u8; 32];
    anchor[0] = 7;
    anchor[31] = 0x12;
    SpendDescription {
        cv: Point::from_bytes(generator_bytes()).unwrap(),
        anchor: Base::from_repr(anchor).unwrap(),
        nullifier: Nullifier([3u8; 32]),
        rk: PublicKey(Point::from_bytes(identity_bytes()).unwrap()),
        zkproof: [9u8; 192],
        spend_auth_sig: Signature { rbar: [4u8; 32], sbar: [5u8; 32] },
    }
}

fn sample_output() -> OutputDescription<[u8; 192]> {
    let mut cmu = [0u8; 32];
    cmu[5] = 0xaa;
    let mut enc = [0u8; 580];
    for (i, b) in enc.iter_mut().enumerate() {
        *b = (i % 251) as u8;
    }
    OutputDescription {
        cv: Point::from_bytes(generator_bytes()).unwrap(),
        cmu: Base::from_repr(cmu).unwrap(),
        ephemeral_key: [0x21u8; 32],
        enc_ciphertext: enc,
        out_ciphertext: [0x42u8; 80],
        zkproof: [0x55u8; 192],
    }
}

#[test]
fn point_accepts_generator_and_identity() {
    let p = read_point(&generator_bytes(), "cv").unwrap();
    assert_eq!(p.to_bytes(), generator_bytes());
    let q = read_point(&identity_bytes(), "cv").unwrap();
    assert_eq!(q.to_bytes(), identity_bytes());
}

#[test]
fn point_refuses_non_canonical_encodings() {
    let mut above_modulus = [0xffu8; 32];
    above_modulus[31] = 0x7f;
    assert_eq!(read_point(&above_modulus, "cv"), Err(invalid("invalid cv")));
    let mut negative_zero = identity_bytes();
    negative_zero[31] |= 0x80;
    assert_eq!(read_point(&negative_zero, "rk"), Err(invalid("invalid rk")));
}

#[test]
fn point_reports_short_input() {
    assert_eq!(read_point(&generator_bytes()[..31], "cv"), Err(ReadError::UnexpectedEof));
}

#[test]
fn base_checks_canonical_encoding() {
    let zero = read_base(&[0u8; 32], "anchor").unwrap();
    assert_eq!(zero.to_repr(), [0u8; 32]);
    assert_eq!(read_base(&[0xffu8; 32], "anchor"), Err(invalid("anchor not in field")));
    // The modulus itself is not canonical, one less is.
    let modulus: [u8; 32] = [
        0x01, 0x00, 0x00, 0x00, 0xff, 0xff, 0xff, 0xff, 0xfe, 0x5b, 0xfe, 0xff, 0x02, 0xa4,
        0xbd, 0x53, 0x05, 0xd8, 0xa1, 0x09, 0x08, 0xd8, 0x39, 0x33, 0x48, 0x7d, 0x9d, 0x29,
        0x53, 0xa7, 0xed, 0x73,
    ];
    assert_eq!(read_base(&modulus, "cmu"), Err(invalid("cmu not in field")));
    let mut below = modulus;
    below[0] = 0;
    assert_eq!(read_base(&below, "cmu").unwrap().to_repr(), below);
    assert_eq!(read_base(&[0u8; 10], "cmu"), Err(ReadError::UnexpectedEof));
}

#[test]
fn zkproof_takes_192_bytes() {
    let bytes: Vec<u8> = (0..200u32).map(|i| i as u8).collect();
    let proof = read_zkproof(&bytes).unwrap();
    assert_eq!(&proof[..], &bytes[..192]);
    assert_eq!(read_zkproof(&bytes[..191]), Err(ReadError::UnexpectedEof));
}

#[test]
fn spend_v4_roundtrip() {
    let d = sample_spend();
    let mut out = Vec::new();
    d.write_v4(&mut out);
    assert_eq!(out.len(), 384);
    assert_eq!(&out[..32], &generator_bytes()[..]);
    let e = SpendDescription::<Authorized>::read(&out).unwrap();
    assert_eq!(e.cv, d.cv);
    assert_eq!(e.anchor, d.anchor);
    assert_eq!(e.nullifier, d.nullifier);
    assert_eq!(e.rk, d.rk);
    assert_eq!(e.zkproof, d.zkproof);
    assert_eq!(e.spend_auth_sig, d.spend_auth_sig);
    let mut again = Vec::new();
    e.write_v4(&mut again);
    assert_eq!(again, out);
}

#[test]
fn spend_v4_reports_first_failure() {
    let d = sample_spend();
    let mut out = Vec::new();
    d.write_v4(&mut out);
    // A short input that still holds a valid cv fails on length.
    assert_eq!(SpendDescription::<Authorized>::read(&out[..383]).err(), Some(ReadError::UnexpectedEof));
    // A bad anchor is reported even when the input is short.
    let mut bad_anchor = out[..100].to_vec();
    for b in &mut bad_anchor[32..64] {
        *b = 0xff;
    }
    assert_eq!(
        SpendDescription::<Authorized>::read(&bad_anchor).err(),
        Some(invalid("anchor not in field"))
    );
    let mut bad_rk = out.clone();
    for b in &mut bad_rk[96..128] {
        *b = 0xff;
    }
    bad_rk[127] = 0x7f;
    assert_eq!(
        SpendDescription::<Authorized>::read(&bad_rk).err(),
        Some(invalid("invalid RedJubjub public key"))
    );
    let mut bad_cv = out.clone();
    bad_cv[31] = 0xff;
    bad_cv[30] = 0xff;
    for b in &mut bad_cv[..30] {
        *b = 0xff;
    }
    assert_eq!(SpendDescription::<Authorized>::read(&bad_cv).err(), Some(invalid("invalid cv")));
}

#[test]
fn spend_v5_split_and_join() {
    let d = sample_spend();
    let mut out = Vec::new();
    d.write_v5_without_witness_data(&mut out);
    assert_eq!(out.len(), 96);
    let v = SpendDescriptionV5::read(&mut out.as_slice()).unwrap();
    let e = v.into_spend_description(d.anchor, d.zkproof, d.spend_auth_sig);
    let (mut a, mut b) = (Vec::new(), Vec::new());
    d.write_v4(&mut a);
    e.write_v4(&mut b);
    assert_eq!(a, b);
    assert_eq!(SpendDescriptionV5::read(&out[..95]), Err(ReadError::UnexpectedEof));
}

#[test]
fn output_v4_roundtrip() {
    let d = sample_output();
    let mut out = Vec::new();
    d.write_v4(&mut out);
    assert_eq!(out.len(), 948);
    let e = OutputDescription::<[u8; 192]>::read(&out).unwrap();
    assert_eq!(e.cv, d.cv);
    assert_eq!(e.cmu, d.cmu);
    assert_eq!(e.ephemeral_key, d.ephemeral_key);
    assert_eq!(e.enc_ciphertext[..], d.enc_ciphertext[..]);
    assert_eq!(e.out_ciphertext[..], d.out_ciphertext[..]);
    assert_eq!(e.zkproof[..], d.zkproof[..]);
    assert_eq!(OutputDescription::<[u8; 192]>::read(&out[..947]).err(), Some(ReadError::UnexpectedEof));
    let mut bad_cmu = out.clone();
    for b in &mut bad_cmu[32..64] {
        *b = 0xff;
    }
    assert_eq!(
        OutputDescription::<[u8; 192]>::read(&bad_cmu).err(),
        Some(invalid("cmu not in field"))
    );
}

#[test]
fn output_v5_split_and_join() {
    let d = sample_output();
    let mut out = Vec::new();
    d.write_v5_without_proof(&mut out);
    assert_eq!(out.len(), 756);
    let v = OutputDescriptionV5::read(&mut out.as_slice()).unwrap();
    let e = v.into_output_description(d.zkproof);
    let (mut a, mut b) = (Vec::new(), Vec::new());
    d.write_v4(&mut a);
    e.write_v4(&mut b);
    assert_eq!(a, b);
    assert_eq!(OutputDescriptionV5::read(&out[..700]), Err(ReadError::UnexpectedEof));
}

#[test]
fn output_accessors() {
    let d = sample_output();
    assert_eq!(d.ephemeral_key(), [0x21u8; 32]);
    assert_eq!(d.cmstar_bytes(), d.cmu.to_repr());
    assert_eq!(d.enc_ciphertext()[..], d.enc_ciphertext[..]);
}

#[test]
fn compact_output_keeps_prefix_of_ciphertext() {
    let d = sample_output();
    let c = CompactOutputDescription::from(d.clone());
    assert_eq!(c.ephemeral_key(), d.ephemeral_key);
    assert_eq!(c.cmstar_bytes(), d.cmu.to_repr());
    assert_eq!(&c.enc_ciphertext()[..], &d.enc_ciphertext[..52]);
    assert_eq!(c.enc_ciphertext[51], 51);
}
