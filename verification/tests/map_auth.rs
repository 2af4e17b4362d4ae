use ironfish_sapling::curve::{Base, Point};
use ironfish_sapling::redjubjub::{PublicKey, Signature};
use ironfish_sapling::sapling::{
    Authorized, Bundle, MapAuth, Nullifier, OutputDescription, SpendDescription, Unproven,
};

fn point() -> Point {
    let mut b = [0u8; 32];
    b[0] = 1;
    Point::from_bytes(b).unwrap()
}

fn unproven_bundle(spends: usize, outputs: usize) -> Bundle<Unproven> {
    Bundle {
        shielded_spends: (0..spends)
            .map(|i| SpendDescription {
                cv: point(),
                anchor: Base::from_repr([i as u8; 32]).unwrap(),
                nullifier: Nullifier([i as u8; 32]),
                rk: PublicKey(point()),
                zkproof: (),
                spend_auth_sig: (),
            })
            .collect(),
        shielded_outputs: (0..outputs)
            .map(|i| OutputDescription {
                cv: point(),
                cmu: Base::from_repr([0u8; 32]).unwrap(),
                ephemeral_key: [i as u8; 32],
                enc_ciphertext: [0u8; 580],
                out_ciphertext: [0u8; 80],
                zkproof: (),
            })
            .collect(),
        value_balance: -17,
        authorization: Unproven,
    }
}

struct Prove {
    proof_byte: u8,
}

impl MapAuth<Unproven, Authorized> for Prove {
    fn map_proof(&self, _p: ()) -> [u8; 192] {
        [self.proof_byte; 192]
    }

    fn map_auth_sig(&self, _s: ()) -> Signature {
        Signature { rbar: [1u8; 32], sbar: [2u8; 32] }
    }

    fn map_authorization(&self, _a: Unproven) -> Authorized {
        Authorized { binding_sig: Signature { rbar: [3u8; 32], sbar: [4u8; 32] } }
    }
}

#[test]
fn map_authorization_keeps_order_and_fields() {
    let b = unproven_bundle(3, 2).map_authorization(Prove { proof_byte: 0xab });
    assert_eq!(b.shielded_spends.len(), 3);
    assert_eq!(b.shielded_outputs.len(), 2);
    for (i, s) in b.shielded_spends.iter().enumerate() {
        assert_eq!(s.nullifier, Nullifier([i as u8; 32]));
        assert_eq!(s.anchor.to_repr(), [i as u8; 32]);
        assert_eq!(s.zkproof, [0xab; 192]);
        assert_eq!(s.spend_auth_sig, Signature { rbar: [1u8; 32], sbar: [2u8; 32] });
    }
    for (i, o) in b.shielded_outputs.iter().enumerate() {
        assert_eq!(o.ephemeral_key, [i as u8; 32]);
        assert_eq!(o.zkproof, [0xab; 192]);
    }
    assert_eq!(b.value_balance, -17);
    assert_eq!(b.authorization.binding_sig.rbar, [3u8; 32]);
}

#[test]
fn map_authorization_of_empty_bundle() {
    let b = unproven_bundle(0, 0).map_authorization(Prove { proof_byte: 0 });
    assert!(b.shielded_spends.is_empty());
    assert!(b.shielded_outputs.is_empty());
}
