//! Sapling spend and output descriptions: their byte formats, the checks
//! that reading them enforces, and the change of authorization of a bundle.

use crate::bytes::{append_bytes, take_bytes};
use crate::curve::{bls_scalar_modulus, jubjub_point_decodes, le_nat, Base, Point};
use crate::error::{first_failure, outcome_matches, raw_failure, ReadError, ReadFailure};
use crate::redjubjub::{public_key_failure, PublicKey, Signature};
use vstd::prelude::*;
use vstd::slice::slice_subrange;
use vstd::string::*;

verus! {

/// Size in bytes of a Groth16 proof.
pub const GROTH_PROOF_SIZE: usize = 192;

/// Size in bytes of an encrypted note.
pub const ENC_CIPHERTEXT_SIZE: usize = 580;

/// Size in bytes of an encrypted outgoing plaintext.
pub const OUT_CIPHERTEXT_SIZE: usize = 80;

/// Size in bytes of the part of an encrypted note that a compact output keeps.
pub const COMPACT_NOTE_SIZE: usize = 52;

/// A Groth16 proof in its serialized form.
pub type GrothProofBytes = [u8; 192];

/// The nullifier of a spent note.
#[derive(Clone, Copy, Debug, PartialEq, Eq)]
pub struct Nullifier(pub [u8; 32]);

/// What a bundle carries as proofs and signatures at some stage of its life.
pub trait Authorization {
    type Proof;
    type AuthSig;
}

/// A bundle whose proofs and signatures are not there yet.
#[derive(Debug, Copy, Clone, PartialEq, Eq)]
pub struct Unproven;

impl Authorization for Unproven {
    type Proof = ();
    type AuthSig = ();
}

/// A bundle with its proofs, spend signatures and binding signature.
#[derive(Debug, Copy, Clone)]
pub struct Authorized {
    pub binding_sig: Signature,
}

impl Authorization for Authorized {
    type Proof = GrothProofBytes;
    type AuthSig = Signature;
}

/// A change of authorization from `A` to `B`, applied part by part.
///
/// Each method returns what its spec function says: an implementation maps
/// each value in one way. A verified implementation defines the spec
/// functions; left at their defaults they say nothing of the result.
pub trait MapAuth<A: Authorization, B: Authorization> {
    closed spec fn spec_map_proof(&self, p: A::Proof) -> B::Proof {
        arbitrary()
    }

    closed spec fn spec_map_auth_sig(&self, s: A::AuthSig) -> B::AuthSig {
        arbitrary()
    }

    closed spec fn spec_map_authorization(&self, a: A) -> B {
        arbitrary()
    }

    fn map_proof(&self, p: A::Proof) -> (r: B::Proof)
        ensures
            r == self.spec_map_proof(p),
    ;

    fn map_auth_sig(&self, s: A::AuthSig) -> (r: B::AuthSig)
        ensures
            r == self.spec_map_auth_sig(s),
    ;

    fn map_authorization(&self, a: A) -> (r: B)
        ensures
            r == self.spec_map_authorization(a),
    ;
}

/// A Sapling spend description.
pub struct SpendDescription<A: Authorization> {
    pub cv: Point,
    pub anchor: Base,
    pub nullifier: Nullifier,
    pub rk: PublicKey,
    pub zkproof: A::Proof,
    pub spend_auth_sig: A::AuthSig,
}

/// A Sapling output description.
#[derive(Clone)]
pub struct OutputDescription<Proof> {
    pub cv: Point,
    pub cmu: Base,
    pub ephemeral_key: [u8; 32],
    pub enc_ciphertext: [u8; 580],
    pub out_ciphertext: [u8; 80],
    pub zkproof: Proof,
}

/// The Sapling part of a transaction.
pub struct Bundle<A: Authorization> {
    pub shielded_spends: Vec<SpendDescription<A>>,
    pub shielded_outputs: Vec<OutputDescription<A::Proof>>,
    pub value_balance: i64,
    pub authorization: A,
}

impl<A: Authorization> Clone for SpendDescription<A> where A::Proof: Clone, A::AuthSig: Clone {
    fn clone(&self) -> Self {
        SpendDescription {
            cv: self.cv,
            anchor: self.anchor,
            nullifier: self.nullifier,
            rk: self.rk,
            zkproof: self.zkproof.clone(),
            spend_auth_sig: self.spend_auth_sig.clone(),
        }
    }
}

impl<A: Authorization + Clone> Clone for Bundle<A> where A::Proof: Clone, A::AuthSig: Clone {
    fn clone(&self) -> Self {
        Bundle {
            shielded_spends: self.shielded_spends.clone(),
            shielded_outputs: self.shielded_outputs.clone(),
            value_balance: self.value_balance,
            authorization: self.authorization.clone(),
        }
    }
}

/// The failure of reading a point named `field` from the front of `s`.
pub open spec fn point_failure(s: Seq<u8>, field: Seq<char>) -> Option<ReadFailure> {
    if s.len() < 32 {
        Some(ReadFailure::UnexpectedEof)
    } else if !jubjub_point_decodes(s.take(32)) {
        Some(ReadFailure::InvalidInput("invalid "@ + field))
    } else {
        None
    }
}

/// The failure of reading a field element named `field` from the front of `s`.
pub open spec fn base_failure(s: Seq<u8>, field: Seq<char>) -> Option<ReadFailure> {
    if s.len() < 32 {
        Some(ReadFailure::UnexpectedEof)
    } else if !(le_nat(s.take(32)) < bls_scalar_modulus()) {
        Some(ReadFailure::InvalidInput(field + " not in field"@))
    } else {
        None
    }
}

/// Reads a Jubjub point from the first 32 bytes of `input`, refusing
/// encodings that are not canonical or not on the curve.
pub fn read_point(input: &[u8], field: &str) -> (r: Result<Point, ReadError>)
    ensures
        outcome_matches(r, point_failure(input@, field@)),
        r matches Ok(p) ==> p@ == input@.take(32),
        input@.len() < 32 ==> r matches Err(ReadError::UnexpectedEof),
        input@.len() >= 32 && !jubjub_point_decodes(input@.take(32)) ==> (r matches Err(
            ReadError::InvalidInput(m),
        ) && m@ == "invalid "@ + field@),
        input@.len() >= 32 && jubjub_point_decodes(input@.take(32)) ==> r is Ok,
{
    if input.len() < 32 {
        return Err(ReadError::UnexpectedEof);
    }
    let bytes: [u8; 32] = take_bytes(input, 0);
    match Point::from_bytes(bytes) {
        Some(p) => Ok(p),
        None => {
            let mut message = "invalid ".to_owned();
            message.append(field);
            Err(ReadError::InvalidInput(message))
        },
    }
}

/// Reads an element of the Jubjub base field from the first 32 bytes of
/// `input`, refusing encodings that are not canonical.
pub fn read_base(input: &[u8], field: &str) -> (r: Result<Base, ReadError>)
    ensures
        outcome_matches(r, base_failure(input@, field@)),
        r matches Ok(f) ==> f@ == input@.take(32),
        input@.len() < 32 ==> r matches Err(ReadError::UnexpectedEof),
        input@.len() >= 32 && le_nat(input@.take(32)) >= bls_scalar_modulus() ==> (r matches Err(
            ReadError::InvalidInput(m),
        ) && m@ == field@ + " not in field"@),
        input@.len() >= 32 && le_nat(input@.take(32)) < bls_scalar_modulus() ==> r is Ok,
{
    if input.len() < 32 {
        return Err(ReadError::UnexpectedEof);
    }
    let bytes: [u8; 32] = take_bytes(input, 0);
    match Base::from_repr(bytes) {
        Some(f) => Ok(f),
        None => {
            let mut message = field.to_owned();
            message.append(" not in field");
            Err(ReadError::InvalidInput(message))
        },
    }
}

/// Reads a serialized Groth16 proof from the first 192 bytes of `input`.
pub fn read_zkproof(input: &[u8]) -> (r: Result<GrothProofBytes, ReadError>)
    ensures
        outcome_matches(r, raw_failure(input@, 192)),
        r matches Ok(p) ==> p@ == input@.take(192),
{
    if input.len() < GROTH_PROOF_SIZE {
        return Err(ReadError::UnexpectedEof);
    }
    let zkproof: [u8; 192] = take_bytes(input, 0);
    Ok(zkproof)
}

/// The failure of reading a spend description in its v4 layout from the
/// front of `s`: the first of its parts, in order, that fails.
pub open spec fn spend_v4_failure(s: Seq<u8>) -> Option<ReadFailure> {
    first_failure(
        point_failure(s, "cv"@),
        first_failure(
            base_failure(s.skip(32), "anchor"@),
            first_failure(
                raw_failure(s.skip(64), 32),
                first_failure(
                    public_key_failure(s.skip(96)),
                    first_failure(raw_failure(s.skip(128), 192), raw_failure(s.skip(320), 64)),
                ),
            ),
        ),
    )
}

/// The failure of reading a spend description in its v5 layout (without
/// witness data) from the front of `s`.
pub open spec fn spend_v5_failure(s: Seq<u8>) -> Option<ReadFailure> {
    first_failure(
        point_failure(s, "cv"@),
        first_failure(raw_failure(s.skip(32), 32), public_key_failure(s.skip(64))),
    )
}

impl SpendDescription<Authorized> {
    /// The 384 bytes of the v4 layout: cv, anchor, nullifier, rk, proof,
    /// spend authorization signature.
    pub open spec fn v4_encoding(self) -> Seq<u8> {
        self.cv@ + self.anchor@ + self.nullifier.0@ + self.rk.encoding() + self.zkproof@
            + self.spend_auth_sig.encoding()
    }

    /// The 96 bytes of the v5 layout without witness data: cv, nullifier, rk.
    pub open spec fn v5_encoding_without_witness_data(self) -> Seq<u8> {
        self.cv@ + self.nullifier.0@ + self.rk.encoding()
    }

    /// Reads a nullifier from the first 32 bytes of `input`.
    pub fn read_nullifier(input: &[u8]) -> (r: Result<Nullifier, ReadError>)
        ensures
            outcome_matches(r, raw_failure(input@, 32)),
            r matches Ok(nf) ==> nf.0@ == input@.take(32),
    {
        if input.len() < 32 {
            return Err(ReadError::UnexpectedEof);
        }
        let bytes: [u8; 32] = take_bytes(input, 0);
        Ok(Nullifier(bytes))
    }

    /// Reads the randomized public key from the first 32 bytes of `input`,
    /// refusing encodings that are not canonical or not on the curve.
    pub fn read_rk(input: &[u8]) -> (r: Result<PublicKey, ReadError>)
        ensures
            outcome_matches(r, public_key_failure(input@)),
            r matches Ok(pk) ==> pk.encoding() == input@.take(32),
    {
        PublicKey::read(input)
    }

    /// Reads the spend authorization signature from the first 64 bytes of
    /// `input`.
    pub fn read_spend_auth_sig(input: &[u8]) -> (r: Result<Signature, ReadError>)
        ensures
            outcome_matches(r, raw_failure(input@, 64)),
            r matches Ok(sig) ==> sig.encoding() == input@.take(64),
    {
        Signature::read(input)
    }

    /// Reads a spend description in its v4 layout from the first 384 bytes
    /// of `input`. Each part is read in turn and the first failure is
    /// returned; on success the result is the description whose encoding
    /// is those 384 bytes.
    pub fn read(input: &[u8]) -> (r: Result<Self, ReadError>)
        ensures
            outcome_matches(r, spend_v4_failure(input@)),
            r matches Ok(d) ==> d.v4_encoding() == input@.take(384),
            r matches Ok(d) ==> {
                &&& input@.len() >= 384
                &&& d.cv@ == input@.subrange(0, 32)
                &&& d.anchor@ == input@.subrange(32, 64)
                &&& d.nullifier.0@ == input@.subrange(64, 96)
                &&& d.rk.0@ == input@.subrange(96, 128)
                &&& d.zkproof@ == input@.subrange(128, 320)
                &&& d.spend_auth_sig.rbar@ == input@.subrange(320, 352)
                &&& d.spend_auth_sig.sbar@ == input@.subrange(352, 384)
            },
    {
        let cv = read_point(input, "cv")?;
        let anchor = read_base(slice_subrange(input, 32, input.len()), "anchor")?;
        let nullifier = Self::read_nullifier(slice_subrange(input, 64, input.len()))?;
        let rk = Self::read_rk(slice_subrange(input, 96, input.len()))?;
        let zkproof = read_zkproof(slice_subrange(input, 128, input.len()))?;
        let spend_auth_sig = Self::read_spend_auth_sig(slice_subrange(input, 320, input.len()))?;
        let d = SpendDescription { cv, anchor, nullifier, rk, zkproof, spend_auth_sig };
        proof {
            lemma_spend_v4_layout(d);
            assert(d.cv@ =~= input@.subrange(0, 32));
            assert(d.anchor@ =~= input@.subrange(32, 64));
            assert(d.nullifier.0@ =~= input@.subrange(64, 96));
            assert(d.rk.0@ =~= input@.subrange(96, 128));
            assert(d.zkproof@ =~= input@.subrange(128, 320));
            assert(d.spend_auth_sig.rbar@ =~= input@.subrange(320, 352));
            assert(d.spend_auth_sig.sbar@ =~= input@.subrange(352, 384));
        }
        assert(d.v4_encoding() =~= input@.take(384));
        Ok(d)
    }

    /// Appends the v4 layout of the description to `writer`.
    pub fn write_v4(&self, writer: &mut Vec<u8>)
        ensures
            final(writer)@ == old(writer)@ + self.v4_encoding(),
            final(writer)@.len() == old(writer)@.len() + 384,
            final(writer)@.take(old(writer)@.len() as int) == old(writer)@,
            final(writer)@.subrange(old(writer)@.len() as int, old(writer)@.len() as int + 32) == self.cv@,
            final(writer)@.subrange(old(writer)@.len() as int + 32, old(writer)@.len() as int + 64)
                == self.anchor@,
            final(writer)@.subrange(old(writer)@.len() as int + 64, old(writer)@.len() as int + 96)
                == self.nullifier.0@,
            final(writer)@.subrange(old(writer)@.len() as int + 96, old(writer)@.len() as int + 128)
                == self.rk.0@,
            final(writer)@.subrange(old(writer)@.len() as int + 128, old(writer)@.len() as int + 320)
                == self.zkproof@,
            final(writer)@.subrange(old(writer)@.len() as int + 320, old(writer)@.len() as int + 352)
                == self.spend_auth_sig.rbar@,
            final(writer)@.subrange(old(writer)@.len() as int + 352, old(writer)@.len() as int + 384)
                == self.spend_auth_sig.sbar@,
    {
        append_bytes(writer, &self.cv.to_bytes());
        append_bytes(writer, &self.anchor.to_repr());
        append_bytes(writer, &self.nullifier.0);
        self.rk.write(writer);
        append_bytes(writer, &self.zkproof);
        self.spend_auth_sig.write(writer);
        assert(writer@ =~= old(writer)@ + self.v4_encoding());
        proof {
            let a = old(writer)@;
            let e = self.v4_encoding();
            lemma_spend_v4_layout(*self);
            assert((a + e).take(a.len() as int) =~= a);
            lemma_concat_subrange(a, e, 0, 32);
            lemma_concat_subrange(a, e, 32, 64);
            lemma_concat_subrange(a, e, 64, 96);
            lemma_concat_subrange(a, e, 96, 128);
            lemma_concat_subrange(a, e, 128, 320);
            lemma_concat_subrange(a, e, 320, 352);
            lemma_concat_subrange(a, e, 352, 384);
        }
    }

    /// Appends the v5 layout without witness data (cv, nullifier, rk) to
    /// `writer`.
    pub fn write_v5_without_witness_data(&self, writer: &mut Vec<u8>)
        ensures
            final(writer)@ == old(writer)@ + self.v5_encoding_without_witness_data(),
            final(writer)@.len() == old(writer)@.len() + 96,
            final(writer)@.take(old(writer)@.len() as int) == old(writer)@,
            final(writer)@.subrange(old(writer)@.len() as int, old(writer)@.len() as int + 32) == self.cv@,
            final(writer)@.subrange(old(writer)@.len() as int + 32, old(writer)@.len() as int + 64)
                == self.nullifier.0@,
            final(writer)@.subrange(old(writer)@.len() as int + 64, old(writer)@.len() as int + 96)
                == self.rk.0@,
    {
        append_bytes(writer, &self.cv.to_bytes());
        append_bytes(writer, &self.nullifier.0);
        self.rk.write(writer);
        assert(writer@ =~= old(writer)@ + self.v5_encoding_without_witness_data());
        proof {
            let a = old(writer)@;
            let e = self.v5_encoding_without_witness_data();
            lemma_spend_v5_layout(*self);
            assert((a + e).take(a.len() as int) =~= a);
            lemma_concat_subrange(a, e, 0, 32);
            lemma_concat_subrange(a, e, 32, 64);
            lemma_concat_subrange(a, e, 64, 96);
        }
    }
}

/// The parts of a spend description that the v5 layout carries outside the
/// witness data.
#[derive(Clone, Copy, Debug, PartialEq, Eq)]
pub struct SpendDescriptionV5 {
    pub cv: Point,
    pub nullifier: Nullifier,
    pub rk: PublicKey,
}

impl SpendDescriptionV5 {
    /// The 96 bytes of the layout: cv, nullifier, rk.
    pub open spec fn encoding(self) -> Seq<u8> {
        self.cv@ + self.nullifier.0@ + self.rk.encoding()
    }

    /// Reads cv, nullifier and rk from the first 96 bytes of `input`,
    /// returning the first failure.
    pub fn read(input: &[u8]) -> (r: Result<Self, ReadError>)
        ensures
            outcome_matches(r, spend_v5_failure(input@)),
            r matches Ok(d) ==> d.encoding() == input@.take(96),
            r matches Ok(d) ==> {
                &&& input@.len() >= 96
                &&& d.cv@ == input@.subrange(0, 32)
                &&& d.nullifier.0@ == input@.subrange(32, 64)
                &&& d.rk.0@ == input@.subrange(64, 96)
            },
    {
        let cv = read_point(input, "cv")?;
        let nullifier = SpendDescription::read_nullifier(slice_subrange(input, 32, input.len()))?;
        let rk = SpendDescription::read_rk(slice_subrange(input, 64, input.len()))?;
        let d = SpendDescriptionV5 { cv, nullifier, rk };
        proof {
            Point::lemma_view_len(d.cv);
            Point::lemma_view_len(d.rk.0);
            assert(d.cv@ =~= input@.subrange(0, 32));
            assert(d.nullifier.0@ =~= input@.subrange(32, 64));
            assert(d.rk.0@ =~= input@.subrange(64, 96));
        }
        assert(d.encoding() =~= input@.take(96));
        Ok(d)
    }

    /// Completes the description with its witness data.
    pub fn into_spend_description(
        self,
        anchor: Base,
        zkproof: GrothProofBytes,
        spend_auth_sig: Signature,
    ) -> (r: SpendDescription<Authorized>)
        ensures
            r == (SpendDescription::<Authorized> {
                cv: self.cv,
                anchor,
                nullifier: self.nullifier,
                rk: self.rk,
                zkproof,
                spend_auth_sig,
            }),
    {
        SpendDescription {
            cv: self.cv,
            anchor,
            nullifier: self.nullifier,
            rk: self.rk,
            zkproof,
            spend_auth_sig,
        }
    }
}

/// The failure of reading the parts that both output layouts share (cv,
/// cmu, ephemeral key, both ciphertexts) from the front of `s`.
pub open spec fn output_v5_failure(s: Seq<u8>) -> Option<ReadFailure> {
    first_failure(
        point_failure(s, "cv"@),
        first_failure(
            base_failure(s.skip(32), "cmu"@),
            first_failure(
                raw_failure(s.skip(64), 32),
                first_failure(raw_failure(s.skip(96), 580), raw_failure(s.skip(676), 80)),
            ),
        ),
    )
}

/// The failure of reading an output description in its v4 layout from the
/// front of `s`.
pub open spec fn output_v4_failure(s: Seq<u8>) -> Option<ReadFailure> {
    first_failure(output_v5_failure(s), raw_failure(s.skip(756), 192))
}

impl<P> OutputDescription<P> {
    /// The 756 bytes of everything but the proof: cv, cmu, ephemeral key,
    /// encrypted note, encrypted outgoing plaintext.
    pub open spec fn encoding_without_proof(self) -> Seq<u8> {
        self.cv@ + self.cmu@ + self.ephemeral_key@ + self.enc_ciphertext@ + self.out_ciphertext@
    }

    /// The ephemeral public key, as bytes.
    pub fn ephemeral_key(&self) -> (r: [u8; 32])
        ensures
            r == self.ephemeral_key,
    {
        self.ephemeral_key
    }

    /// The encoding of the note commitment's u-coordinate.
    pub fn cmstar_bytes(&self) -> (r: [u8; 32])
        ensures
            r@ == self.cmu@,
    {
        self.cmu.to_repr()
    }

    /// The encrypted note.
    pub fn enc_ciphertext(&self) -> (r: &[u8; 580])
        ensures
            r == &self.enc_ciphertext,
    {
        &self.enc_ciphertext
    }
}

impl OutputDescription<GrothProofBytes> {
    /// The 948 bytes of the v4 layout: everything but the proof, then the
    /// proof.
    pub open spec fn v4_encoding(self) -> Seq<u8> {
        self.encoding_without_proof() + self.zkproof@
    }

    /// Reads an output description in its v4 layout from the first 948 bytes
    /// of `input`, returning the first failure.
    pub fn read(input: &[u8]) -> (r: Result<Self, ReadError>)
        ensures
            outcome_matches(r, output_v4_failure(input@)),
            r matches Ok(d) ==> d.v4_encoding() == input@.take(948),
            r matches Ok(d) ==> {
                &&& input@.len() >= 948
                &&& d.cv@ == input@.subrange(0, 32)
                &&& d.cmu@ == input@.subrange(32, 64)
                &&& d.ephemeral_key@ == input@.subrange(64, 96)
                &&& d.enc_ciphertext@ == input@.subrange(96, 676)
                &&& d.out_ciphertext@ == input@.subrange(676, 756)
                &&& d.zkproof@ == input@.subrange(756, 948)
            },
    {
        let v5 = OutputDescriptionV5::read(input)?;
        let zkproof = read_zkproof(slice_subrange(input, 756, input.len()))?;
        let d = v5.into_output_description(zkproof);
        assert(d.zkproof@ =~= input@.subrange(756, 948));
        assert(d.v4_encoding() =~= input@.take(948));
        Ok(d)
    }

    /// Appends the v4 layout of the description to `writer`.
    pub fn write_v4(&self, writer: &mut Vec<u8>)
        ensures
            final(writer)@ == old(writer)@ + self.v4_encoding(),
            final(writer)@.len() == old(writer)@.len() + 948,
            final(writer)@.take(old(writer)@.len() as int) == old(writer)@,
            final(writer)@.subrange(old(writer)@.len() as int, old(writer)@.len() as int + 32) == self.cv@,
            final(writer)@.subrange(old(writer)@.len() as int + 32, old(writer)@.len() as int + 64) == self.cmu@,
            final(writer)@.subrange(old(writer)@.len() as int + 64, old(writer)@.len() as int + 96)
                == self.ephemeral_key@,
            final(writer)@.subrange(old(writer)@.len() as int + 96, old(writer)@.len() as int + 676)
                == self.enc_ciphertext@,
            final(writer)@.subrange(old(writer)@.len() as int + 676, old(writer)@.len() as int + 756)
                == self.out_ciphertext@,
            final(writer)@.subrange(old(writer)@.len() as int + 756, old(writer)@.len() as int + 948)
                == self.zkproof@,
    {
        self.write_v5_without_proof(writer);
        append_bytes(writer, &self.zkproof);
        assert(writer@ =~= old(writer)@ + self.v4_encoding());
        proof {
            let a = old(writer)@;
            let e = self.v4_encoding();
            lemma_output_layout(*self);
            assert((a + e).take(a.len() as int) =~= a);
            lemma_concat_subrange(a, e, 0, 32);
            lemma_concat_subrange(a, e, 32, 64);
            lemma_concat_subrange(a, e, 64, 96);
            lemma_concat_subrange(a, e, 96, 676);
            lemma_concat_subrange(a, e, 676, 756);
            lemma_concat_subrange(a, e, 756, 948);
        }
    }

    /// Appends everything but the proof to `writer`.
    pub fn write_v5_without_proof(&self, writer: &mut Vec<u8>)
        ensures
            final(writer)@ == old(writer)@ + self.encoding_without_proof(),
            final(writer)@.len() == old(writer)@.len() + 756,
            final(writer)@.take(old(writer)@.len() as int) == old(writer)@,
            final(writer)@.subrange(old(writer)@.len() as int, old(writer)@.len() as int + 32) == self.cv@,
            final(writer)@.subrange(old(writer)@.len() as int + 32, old(writer)@.len() as int + 64) == self.cmu@,
            final(writer)@.subrange(old(writer)@.len() as int + 64, old(writer)@.len() as int + 96)
                == self.ephemeral_key@,
            final(writer)@.subrange(old(writer)@.len() as int + 96, old(writer)@.len() as int + 676)
                == self.enc_ciphertext@,
            final(writer)@.subrange(old(writer)@.len() as int + 676, old(writer)@.len() as int + 756)
                == self.out_ciphertext@,
    {
        append_bytes(writer, &self.cv.to_bytes());
        append_bytes(writer, &self.cmu.to_repr());
        append_bytes(writer, &self.ephemeral_key);
        append_bytes(writer, &self.enc_ciphertext);
        append_bytes(writer, &self.out_ciphertext);
        assert(writer@ =~= old(writer)@ + self.encoding_without_proof());
        proof {
            let a = old(writer)@;
            let e = self.encoding_without_proof();
            lemma_output_layout(*self);
            assert((a + e).take(a.len() as int) =~= a);
            lemma_concat_subrange(a, e, 0, 32);
            lemma_concat_subrange(a, e, 32, 64);
            lemma_concat_subrange(a, e, 64, 96);
            lemma_concat_subrange(a, e, 96, 676);
            lemma_concat_subrange(a, e, 676, 756);
        }
    }
}

/// An output description as the v5 layout carries it, without its proof.
#[derive(Clone, Copy, Debug, PartialEq, Eq)]
pub struct OutputDescriptionV5 {
    pub cv: Point,
    pub cmu: Base,
    pub ephemeral_key: [u8; 32],
    pub enc_ciphertext: [u8; 580],
    pub out_ciphertext: [u8; 80],
}

impl OutputDescriptionV5 {
    /// The 756 bytes of the layout.
    pub open spec fn encoding(self) -> Seq<u8> {
        self.cv@ + self.cmu@ + self.ephemeral_key@ + self.enc_ciphertext@ + self.out_ciphertext@
    }

    /// Reads cv, cmu, ephemeral key and both ciphertexts from the first 756
    /// bytes of `input`, returning the first failure.
    pub fn read(input: &[u8]) -> (r: Result<Self, ReadError>)
        ensures
            outcome_matches(r, output_v5_failure(input@)),
            r matches Ok(d) ==> d.encoding() == input@.take(756),
            r matches Ok(d) ==> {
                &&& input@.len() >= 756
                &&& d.cv@ == input@.subrange(0, 32)
                &&& d.cmu@ == input@.subrange(32, 64)
                &&& d.ephemeral_key@ == input@.subrange(64, 96)
                &&& d.enc_ciphertext@ == input@.subrange(96, 676)
                &&& d.out_ciphertext@ == input@.subrange(676, 756)
            },
    {
        let cv = read_point(input, "cv")?;
        let cmu = read_base(slice_subrange(input, 32, input.len()), "cmu")?;
        if input.len() < 96 {
            return Err(ReadError::UnexpectedEof);
        }
        let ephemeral_key: [u8; 32] = take_bytes(input, 64);
        if input.len() < 676 {
            return Err(ReadError::UnexpectedEof);
        }
        let enc_ciphertext: [u8; 580] = take_bytes(input, 96);
        if input.len() < 756 {
            return Err(ReadError::UnexpectedEof);
        }
        let out_ciphertext: [u8; 80] = take_bytes(input, 676);
        let d = OutputDescriptionV5 { cv, cmu, ephemeral_key, enc_ciphertext, out_ciphertext };
        proof {
            Point::lemma_view_len(d.cv);
            Base::lemma_view_len(d.cmu);
            assert(d.cv@ =~= input@.subrange(0, 32));
            assert(d.cmu@ =~= input@.subrange(32, 64));
        }
        assert(d.encoding() =~= input@.take(756));
        Ok(d)
    }

    /// Completes the description with its proof.
    pub fn into_output_description(self, zkproof: GrothProofBytes) -> (r: OutputDescription<
        GrothProofBytes,
    >)
        ensures
            r == (OutputDescription::<GrothProofBytes> {
                cv: self.cv,
                cmu: self.cmu,
                ephemeral_key: self.ephemeral_key,
                enc_ciphertext: self.enc_ciphertext,
                out_ciphertext: self.out_ciphertext,
                zkproof,
            }),
    {
        OutputDescription {
            cv: self.cv,
            cmu: self.cmu,
            ephemeral_key: self.ephemeral_key,
            enc_ciphertext: self.enc_ciphertext,
            out_ciphertext: self.out_ciphertext,
            zkproof,
        }
    }
}

/// The parts of an output description that trial decryption reads.
#[derive(Clone, Copy, Debug, PartialEq, Eq)]
pub struct CompactOutputDescription {
    pub ephemeral_key: [u8; 32],
    pub cmu: Base,
    pub enc_ciphertext: [u8; 52],
}

/// The array holding the first 52 bytes of an encrypted note.
pub open spec fn compact_ciphertext(enc: [u8; 580]) -> [u8; 52] {
    choose|c: [u8; 52]| c@ == enc@.take(52)
}

impl<P> vstd::std_specs::convert::FromSpecImpl<OutputDescription<P>> for CompactOutputDescription {
    open spec fn obeys_from_spec() -> bool {
        true
    }

    open spec fn from_spec(out: OutputDescription<P>) -> CompactOutputDescription {
        CompactOutputDescription {
            ephemeral_key: out.ephemeral_key,
            cmu: out.cmu,
            enc_ciphertext: compact_ciphertext(out.enc_ciphertext),
        }
    }
}

impl<P> From<OutputDescription<P>> for CompactOutputDescription {
    /// Keeps the ephemeral key, the note commitment and the first 52 bytes
    /// of the encrypted note.
    fn from(out: OutputDescription<P>) -> (r: CompactOutputDescription)
        ensures
            r.ephemeral_key == out.ephemeral_key,
            r.ephemeral_key@ == out.ephemeral_key@,
            r.cmu == out.cmu,
            r.enc_ciphertext@ == out.enc_ciphertext@.subrange(0, 52),
    {
        let enc_ciphertext: [u8; 52] = take_bytes(&out.enc_ciphertext, 0);
        proof {
            let c = compact_ciphertext(out.enc_ciphertext);
            assert(enc_ciphertext@ == out.enc_ciphertext@.take(52));
            assert(c@ == out.enc_ciphertext@.take(52));
            assert(c =~= enc_ciphertext);
        }
        CompactOutputDescription { ephemeral_key: out.ephemeral_key, cmu: out.cmu, enc_ciphertext }
    }
}

impl CompactOutputDescription {
    /// The ephemeral public key, as bytes.
    pub fn ephemeral_key(&self) -> (r: [u8; 32])
        ensures
            r == self.ephemeral_key,
    {
        self.ephemeral_key
    }

    /// The encoding of the note commitment's u-coordinate.
    pub fn cmstar_bytes(&self) -> (r: [u8; 32])
        ensures
            r@ == self.cmu@,
    {
        self.cmu.to_repr()
    }

    /// The first 52 bytes of the encrypted note.
    pub fn enc_ciphertext(&self) -> (r: &[u8; 52])
        ensures
            r == &self.enc_ciphertext,
    {
        &self.enc_ciphertext
    }
}

/// The spend description that `f` makes of `d`: the same commitments, keys
/// and nullifier, with the proof and signature mapped.
pub open spec fn mapped_spend<A: Authorization, B: Authorization, F: MapAuth<A, B>>(
    f: F,
    d: SpendDescription<A>,
) -> SpendDescription<B> {
    SpendDescription {
        cv: d.cv,
        anchor: d.anchor,
        nullifier: d.nullifier,
        rk: d.rk,
        zkproof: f.spec_map_proof(d.zkproof),
        spend_auth_sig: f.spec_map_auth_sig(d.spend_auth_sig),
    }
}

/// The output description that `f` makes of `o`: the same fields, with the
/// proof mapped.
pub open spec fn mapped_output<A: Authorization, B: Authorization, F: MapAuth<A, B>>(
    f: F,
    o: OutputDescription<A::Proof>,
) -> OutputDescription<B::Proof> {
    OutputDescription {
        cv: o.cv,
        cmu: o.cmu,
        ephemeral_key: o.ephemeral_key,
        enc_ciphertext: o.enc_ciphertext,
        out_ciphertext: o.out_ciphertext,
        zkproof: f.spec_map_proof(o.zkproof),
    }
}

/// Moves the elements of `v` into a vector in the opposite order.
fn reversed<T>(v: Vec<T>) -> (r: Vec<T>)
    ensures
        r@ == v@.reverse(),
{
    let mut v = v;
    let ghost orig = v@;
    let mut r: Vec<T> = Vec::new();
    while v.len() > 0
        invariant
            v@ == orig.take(v@.len() as int),
            v@.len() + r@.len() == orig.len(),
            forall|i: int| 0 <= i < r@.len() ==> #[trigger] r@[i] == orig[orig.len() - 1 - i],
        decreases v@.len(),
    {
        let x = v.pop().unwrap();
        r.push(x);
        assert(v@ =~= orig.take(v@.len() as int));
    }
    assert(r@ =~= orig.reverse());
    r
}

impl<A: Authorization> Bundle<A> {
    /// Changes the authorization of the bundle with `f`: every spend and
    /// output keeps its place and its fields, its proof (and, for spends,
    /// its signature) mapped by `f`; the value balance stays; the bundle's
    /// authorization is mapped by `f`.
    pub fn map_authorization<B: Authorization, F: MapAuth<A, B>>(self, f: F) -> (r: Bundle<B>)
        ensures
            r.shielded_spends@.len() == self.shielded_spends@.len(),
            forall|i: int|
                0 <= i < self.shielded_spends@.len() ==> #[trigger] r.shielded_spends@[i]
                    == mapped_spend(f, self.shielded_spends@[i]),
            r.shielded_outputs@.len() == self.shielded_outputs@.len(),
            forall|i: int|
                0 <= i < self.shielded_outputs@.len() ==> #[trigger] r.shielded_outputs@[i]
                    == mapped_output::<A, B, F>(f, self.shielded_outputs@[i]),
            forall|i: int|
                0 <= i < self.shielded_spends@.len() ==> {
                    &&& (#[trigger] r.shielded_spends@[i]).cv == self.shielded_spends@[i].cv
                    &&& r.shielded_spends@[i].anchor == self.shielded_spends@[i].anchor
                    &&& r.shielded_spends@[i].nullifier == self.shielded_spends@[i].nullifier
                    &&& r.shielded_spends@[i].rk == self.shielded_spends@[i].rk
                    &&& r.shielded_spends@[i].zkproof == f.spec_map_proof(
                        self.shielded_spends@[i].zkproof,
                    )
                    &&& r.shielded_spends@[i].spend_auth_sig == f.spec_map_auth_sig(
                        self.shielded_spends@[i].spend_auth_sig,
                    )
                },
            forall|i: int|
                0 <= i < self.shielded_outputs@.len() ==> {
                    &&& (#[trigger] r.shielded_outputs@[i]).cv == self.shielded_outputs@[i].cv
                    &&& r.shielded_outputs@[i].cmu == self.shielded_outputs@[i].cmu
                    &&& r.shielded_outputs@[i].ephemeral_key
                        == self.shielded_outputs@[i].ephemeral_key
                    &&& r.shielded_outputs@[i].enc_ciphertext
                        == self.shielded_outputs@[i].enc_ciphertext
                    &&& r.shielded_outputs@[i].out_ciphertext
                        == self.shielded_outputs@[i].out_ciphertext
                    &&& r.shielded_outputs@[i].zkproof == f.spec_map_proof(
                        self.shielded_outputs@[i].zkproof,
                    )
                },
            r.value_balance == self.value_balance,
            r.authorization == f.spec_map_authorization(self.authorization),
    {
        let Bundle { shielded_spends, shielded_outputs, value_balance, authorization } = self;
        let ghost spends_in = shielded_spends@;
        let ghost outputs_in = shielded_outputs@;

        let mut pending = reversed(shielded_spends);
        let mut spends: Vec<SpendDescription<B>> = Vec::new();
        while pending.len() > 0
            invariant
                pending@ == spends_in.reverse().take(pending@.len() as int),
                pending@.len() + spends@.len() == spends_in.len(),
                forall|i: int|
                    0 <= i < spends@.len() ==> #[trigger] spends@[i] == mapped_spend(
                        f,
                        spends_in[i],
                    ),
            decreases pending@.len(),
        {
            let d = pending.pop().unwrap();
            assert(d == spends_in[spends@.len() as int]);
            let m = SpendDescription {
                cv: d.cv,
                anchor: d.anchor,
                nullifier: d.nullifier,
                rk: d.rk,
                zkproof: f.map_proof(d.zkproof),
                spend_auth_sig: f.map_auth_sig(d.spend_auth_sig),
            };
            spends.push(m);
            assert(pending@ =~= spends_in.reverse().take(pending@.len() as int));
        }

        let mut pending = reversed(shielded_outputs);
        let mut outputs: Vec<OutputDescription<B::Proof>> = Vec::new();
        while pending.len() > 0
            invariant
                pending@ == outputs_in.reverse().take(pending@.len() as int),
                pending@.len() + outputs@.len() == outputs_in.len(),
                forall|i: int|
                    0 <= i < outputs@.len() ==> #[trigger] outputs@[i] == mapped_output::<
                        A,
                        B,
                        F,
                    >(f, outputs_in[i]),
            decreases pending@.len(),
        {
            let o = pending.pop().unwrap();
            assert(o == outputs_in[outputs@.len() as int]);
            let m = OutputDescription {
                cv: o.cv,
                cmu: o.cmu,
                ephemeral_key: o.ephemeral_key,
                enc_ciphertext: o.enc_ciphertext,
                out_ciphertext: o.out_ciphertext,
                zkproof: f.map_proof(o.zkproof),
            };
            outputs.push(m);
            assert(pending@ =~= outputs_in.reverse().take(pending@.len() as int));
        }

        Bundle {
            shielded_spends: spends,
            shielded_outputs: outputs,
            value_balance,
            authorization: f.map_authorization(authorization),
        }
    }
}

/// The bytes of `b` between `i` and `j` stand in `a + b` between
/// `a.len() + i` and `a.len() + j`.
pub proof fn lemma_concat_subrange(a: Seq<u8>, b: Seq<u8>, i: int, j: int)
    requires
        0 <= i <= j <= b.len(),
    ensures
        (a + b).subrange(a.len() + i, a.len() + j) == b.subrange(i, j),
{
    assert((a + b).subrange(a.len() + i, a.len() + j) =~= b.subrange(i, j));
}

/// The v4 spend layout: cv at 0..32, anchor at 32..64, nullifier at 64..96,
/// rk at 96..128, the proof at 128..320, then the signature's rbar at
/// 320..352 and sbar at 352..384.
pub proof fn lemma_spend_v4_layout(d: SpendDescription<Authorized>)
    ensures
        d.v4_encoding().len() == 384,
        d.v4_encoding().subrange(0, 32) == d.cv@,
        d.v4_encoding().subrange(32, 64) == d.anchor@,
        d.v4_encoding().subrange(64, 96) == d.nullifier.0@,
        d.v4_encoding().subrange(96, 128) == d.rk.0@,
        d.v4_encoding().subrange(128, 320) == d.zkproof@,
        d.v4_encoding().subrange(320, 352) == d.spend_auth_sig.rbar@,
        d.v4_encoding().subrange(352, 384) == d.spend_auth_sig.sbar@,
{
    let s = d.v4_encoding();
    Point::lemma_view_len(d.cv);
    Base::lemma_view_len(d.anchor);
    Point::lemma_view_len(d.rk.0);
    assert(s.subrange(0, 32) =~= d.cv@);
    assert(s.subrange(32, 64) =~= d.anchor@);
    assert(s.subrange(64, 96) =~= d.nullifier.0@);
    assert(s.subrange(96, 128) =~= d.rk.0@);
    assert(s.subrange(128, 320) =~= d.zkproof@);
    assert(s.subrange(320, 352) =~= d.spend_auth_sig.rbar@);
    assert(s.subrange(352, 384) =~= d.spend_auth_sig.sbar@);
}

/// The v5 spend layout without witness data: cv at 0..32, nullifier at
/// 32..64, rk at 64..96; it is the same for a spend and for its v5 part.
pub proof fn lemma_spend_v5_layout(d: SpendDescription<Authorized>)
    ensures
        d.v5_encoding_without_witness_data().len() == 96,
        d.v5_encoding_without_witness_data().subrange(0, 32) == d.cv@,
        d.v5_encoding_without_witness_data().subrange(32, 64) == d.nullifier.0@,
        d.v5_encoding_without_witness_data().subrange(64, 96) == d.rk.0@,
{
    let s = d.v5_encoding_without_witness_data();
    Point::lemma_view_len(d.cv);
    Point::lemma_view_len(d.rk.0);
    assert(s.subrange(0, 32) =~= d.cv@);
    assert(s.subrange(32, 64) =~= d.nullifier.0@);
    assert(s.subrange(64, 96) =~= d.rk.0@);
}

/// The layout of the v5 part of a spend: cv at 0..32, nullifier at 32..64,
/// rk at 64..96.
pub proof fn lemma_spend_v5_part_layout(v: SpendDescriptionV5)
    ensures
        v.encoding().len() == 96,
        v.encoding().subrange(0, 32) == v.cv@,
        v.encoding().subrange(32, 64) == v.nullifier.0@,
        v.encoding().subrange(64, 96) == v.rk.0@,
{
    let s = v.encoding();
    Point::lemma_view_len(v.cv);
    Point::lemma_view_len(v.rk.0);
    assert(s.subrange(0, 32) =~= v.cv@);
    assert(s.subrange(32, 64) =~= v.nullifier.0@);
    assert(s.subrange(64, 96) =~= v.rk.0@);
}

/// The output layout: cv at 0..32, cmu at 32..64, the ephemeral key at
/// 64..96, the encrypted note at 96..676, the encrypted outgoing plaintext
/// at 676..756; the v4 layout adds the proof at 756..948.
pub proof fn lemma_output_layout(d: OutputDescription<GrothProofBytes>)
    ensures
        d.encoding_without_proof().len() == 756,
        d.v4_encoding().len() == 948,
        d.v4_encoding().take(756) == d.encoding_without_proof(),
        d.encoding_without_proof().subrange(0, 32) == d.cv@,
        d.encoding_without_proof().subrange(32, 64) == d.cmu@,
        d.encoding_without_proof().subrange(64, 96) == d.ephemeral_key@,
        d.encoding_without_proof().subrange(96, 676) == d.enc_ciphertext@,
        d.encoding_without_proof().subrange(676, 756) == d.out_ciphertext@,
        d.v4_encoding().subrange(0, 32) == d.cv@,
        d.v4_encoding().subrange(32, 64) == d.cmu@,
        d.v4_encoding().subrange(64, 96) == d.ephemeral_key@,
        d.v4_encoding().subrange(96, 676) == d.enc_ciphertext@,
        d.v4_encoding().subrange(676, 756) == d.out_ciphertext@,
        d.v4_encoding().subrange(756, 948) == d.zkproof@,
{
    let s = d.encoding_without_proof();
    let t = d.v4_encoding();
    Point::lemma_view_len(d.cv);
    Base::lemma_view_len(d.cmu);
    assert(s.subrange(0, 32) =~= d.cv@);
    assert(s.subrange(32, 64) =~= d.cmu@);
    assert(s.subrange(64, 96) =~= d.ephemeral_key@);
    assert(s.subrange(96, 676) =~= d.enc_ciphertext@);
    assert(s.subrange(676, 756) =~= d.out_ciphertext@);
    assert(t.take(756) =~= s);
    assert(t.subrange(0, 32) =~= d.cv@);
    assert(t.subrange(32, 64) =~= d.cmu@);
    assert(t.subrange(64, 96) =~= d.ephemeral_key@);
    assert(t.subrange(96, 676) =~= d.enc_ciphertext@);
    assert(t.subrange(676, 756) =~= d.out_ciphertext@);
    assert(t.subrange(756, 948) =~= d.zkproof@);
}

/// The layout of an output without its proof: cv at 0..32, cmu at 32..64,
/// the ephemeral key at 64..96, the encrypted note at 96..676, the
/// encrypted outgoing plaintext at 676..756.
pub proof fn lemma_output_v5_part_layout(v: OutputDescriptionV5)
    ensures
        v.encoding().len() == 756,
        v.encoding().subrange(0, 32) == v.cv@,
        v.encoding().subrange(32, 64) == v.cmu@,
        v.encoding().subrange(64, 96) == v.ephemeral_key@,
        v.encoding().subrange(96, 676) == v.enc_ciphertext@,
        v.encoding().subrange(676, 756) == v.out_ciphertext@,
{
    let s = v.encoding();
    Point::lemma_view_len(v.cv);
    Base::lemma_view_len(v.cmu);
    assert(s.subrange(0, 32) =~= v.cv@);
    assert(s.subrange(32, 64) =~= v.cmu@);
    assert(s.subrange(64, 96) =~= v.ephemeral_key@);
    assert(s.subrange(96, 676) =~= v.enc_ciphertext@);
    assert(s.subrange(676, 756) =~= v.out_ciphertext@);
}

/// Changing the authorization of a spend keeps its value commitment,
/// anchor, nullifier and randomized key, and changes only its proof and
/// signature, as `f` maps them.
pub proof fn lemma_mapped_spend_keeps_fields<A: Authorization, B: Authorization, F: MapAuth<A, B>>(
    f: F,
    d: SpendDescription<A>,
)
    ensures
        mapped_spend(f, d).cv == d.cv,
        mapped_spend(f, d).anchor == d.anchor,
        mapped_spend(f, d).nullifier == d.nullifier,
        mapped_spend(f, d).rk == d.rk,
        mapped_spend(f, d).zkproof == f.spec_map_proof(d.zkproof),
        mapped_spend(f, d).spend_auth_sig == f.spec_map_auth_sig(d.spend_auth_sig),
{
}

/// Changing the authorization of an output keeps every field but its proof,
/// which `f` maps.
pub proof fn lemma_mapped_output_keeps_fields<
    A: Authorization,
    B: Authorization,
    F: MapAuth<A, B>,
>(f: F, o: OutputDescription<A::Proof>)
    ensures
        mapped_output::<A, B, F>(f, o).cv == o.cv,
        mapped_output::<A, B, F>(f, o).cmu == o.cmu,
        mapped_output::<A, B, F>(f, o).ephemeral_key == o.ephemeral_key,
        mapped_output::<A, B, F>(f, o).enc_ciphertext == o.enc_ciphertext,
        mapped_output::<A, B, F>(f, o).out_ciphertext == o.out_ciphertext,
        mapped_output::<A, B, F>(f, o).zkproof == f.spec_map_proof(o.zkproof),
{
}

/// The compact form of an output keeps its ephemeral key and note
/// commitment, and the first 52 bytes of its encrypted note.
pub proof fn lemma_compact_keeps_fields<P>(out: OutputDescription<P>)
    ensures
        <CompactOutputDescription as vstd::std_specs::convert::FromSpec<
            OutputDescription<P>,
        >>::from_spec(out).ephemeral_key == out.ephemeral_key,
        <CompactOutputDescription as vstd::std_specs::convert::FromSpec<
            OutputDescription<P>,
        >>::from_spec(out).cmu == out.cmu,
        (exists|c: [u8; 52]| #[trigger] c@ == out.enc_ciphertext@.take(52)) ==> <CompactOutputDescription as vstd::std_specs::convert::FromSpec<
            OutputDescription<P>,
        >>::from_spec(out).enc_ciphertext@ == out.enc_ciphertext@.subrange(0, 52),
{
    assert(out.enc_ciphertext@.take(52) =~= out.enc_ciphertext@.subrange(0, 52));
}

} // verus!
