use ironfish_sapling::curve::{Base, Point};
use ironfish_sapling::error::ReadError;
use ironfish_sapling::redjubjub::{PublicKey, Signature};

#[test]
fn signature_roundtrip() {
    let bytes: Vec<u8> = (0..70u8).collect();
    let sig = Signature::read(&bytes).unwrap();
    assert_eq!(&sig.rbar[..], &bytes[..32]);
    assert_eq!(&sig.sbar[..], &bytes[32..64]);
    let mut out = vec![0xeeu8];
    sig.write(&mut out);
    assert_eq!(&out[1..], &bytes[..64]);
    assert_eq!(Signature::read(&bytes[..63]), Err(ReadError::UnexpectedEof));
}

#[test]
fn public_key_checks_point() {
    let mut identity = [0u8; 32];
    identity[0] = 1;
    let pk = PublicKey::read(&identity).unwrap();
    let mut out = Vec::new();
    pk.write(&mut out);
    assert_eq!(out, identity.to_vec());
    let mut bad = [0xffu8; 32];
    bad[31] = 0x7f;
    assert_eq!(
        PublicKey::read(&bad),
        Err(ReadError::InvalidInput("invalid RedJubjub public key".to_string()))
    );
    assert_eq!(PublicKey::read(&identity[..5]), Err(ReadError::UnexpectedEof));
}

#[test]
fn point_and_base_constructors() {
    let mut bad = [0xffu8; 32];
    bad[31] = 0x7f;
    assert!(Point::from_bytes(bad).is_none());
    assert!(Base::from_repr([0xffu8; 32]).is_none());
    let mut one = [0u8; 32];
    one[0] = 1;
    assert_eq!(Base::from_repr(one).unwrap().to_repr(), one);
}
