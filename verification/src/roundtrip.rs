//! What reading gives back of what writing wrote, and which inputs reading
//! accepts.

use crate::curve::{bls_scalar_modulus, jubjub_point_decodes, le_nat, Base, Point};
use crate::error::ReadFailure;
use crate::sapling::{
    output_v4_failure, output_v5_failure, spend_v4_failure, spend_v5_failure, Authorized,
    GrothProofBytes, OutputDescription, OutputDescriptionV5, SpendDescription, SpendDescriptionV5,
};
use vstd::prelude::*;

verus! {

/// A spend description all of whose points decode and whose anchor is
/// canonical, as every value built by this library is.
pub open spec fn spend_is_valid(d: SpendDescription<Authorized>) -> bool {
    &&& d.cv.is_valid()
    &&& d.anchor.is_canonical()
    &&& d.rk.0.is_valid()
}

/// An output description whose value commitment decodes and whose note
/// commitment is canonical, as every value built by this library is.
pub open spec fn output_is_valid<P>(o: OutputDescription<P>) -> bool {
    &&& o.cv.is_valid()
    &&& o.cmu.is_canonical()
}

/// Reading the v4 encoding of a spend description gives that description
/// back: the 384 bytes are accepted, and the only description with that
/// encoding is the one that was written.
pub proof fn lemma_spend_v4_roundtrip(
    d: SpendDescription<Authorized>,
    e: SpendDescription<Authorized>,
)
    requires
        spend_is_valid(d),
        e.v4_encoding() == d.v4_encoding(),
    ensures
        d.v4_encoding().len() == 384,
        spend_v4_failure(d.v4_encoding()) is None,
        e == d,
{
    let s = d.v4_encoding();
    Point::lemma_view_len(d.cv);
    Base::lemma_view_len(d.anchor);
    Point::lemma_view_len(d.rk.0);
    Point::lemma_view_len(e.cv);
    Base::lemma_view_len(e.anchor);
    Point::lemma_view_len(e.rk.0);
    assert(s.subrange(0, 32) =~= d.cv@);
    assert(s.subrange(32, 64) =~= d.anchor@);
    assert(s.subrange(64, 96) =~= d.nullifier.0@);
    assert(s.subrange(96, 128) =~= d.rk.0@);
    assert(s.subrange(128, 320) =~= d.zkproof@);
    assert(s.subrange(320, 352) =~= d.spend_auth_sig.rbar@);
    assert(s.subrange(352, 384) =~= d.spend_auth_sig.sbar@);
    assert(s.take(32) =~= d.cv@);
    assert(s.skip(32).take(32) =~= d.anchor@);
    assert(s.skip(96).take(32) =~= d.rk.0@);
    assert(e.cv@ =~= s.subrange(0, 32));
    assert(e.anchor@ =~= s.subrange(32, 64));
    assert(e.nullifier.0@ =~= s.subrange(64, 96));
    assert(e.rk.0@ =~= s.subrange(96, 128));
    assert(e.zkproof@ =~= s.subrange(128, 320));
    assert(e.spend_auth_sig.rbar@ =~= s.subrange(320, 352));
    assert(e.spend_auth_sig.sbar@ =~= s.subrange(352, 384));
    Point::lemma_view_injective(e.cv, d.cv);
    Base::lemma_view_injective(e.anchor, d.anchor);
    Point::lemma_view_injective(e.rk.0, d.rk.0);
    assert(e.nullifier.0 =~= d.nullifier.0);
    assert(e.zkproof =~= d.zkproof);
    assert(e.spend_auth_sig.rbar =~= d.spend_auth_sig.rbar);
    assert(e.spend_auth_sig.sbar =~= d.spend_auth_sig.sbar);
}

/// Reading a spend description in its v4 layout accepts exactly the inputs
/// of at least 384 bytes whose cv and rk encode Jubjub points and whose
/// anchor is a canonical field element.
pub proof fn lemma_spend_v4_accepts(s: Seq<u8>)
    ensures
        spend_v4_failure(s) is None <==> {
            &&& s.len() >= 384
            &&& jubjub_point_decodes(s.subrange(0, 32))
            &&& le_nat(s.subrange(32, 64)) < bls_scalar_modulus()
            &&& jubjub_point_decodes(s.subrange(96, 128))
        },
{
    if s.len() >= 384 {
        assert(s.take(32) =~= s.subrange(0, 32));
        assert(s.skip(32).take(32) =~= s.subrange(32, 64));
        assert(s.skip(96).take(32) =~= s.subrange(96, 128));
    }
}

/// Reading the v5 encoding of a spend description without its witness data
/// accepts it, and completing what it reads with the description's anchor,
/// proof and signature gives the description back.
pub proof fn lemma_spend_v5_roundtrip(d: SpendDescription<Authorized>, v: SpendDescriptionV5)
    requires
        d.cv.is_valid(),
        d.rk.0.is_valid(),
        v.encoding() == d.v5_encoding_without_witness_data(),
    ensures
        d.v5_encoding_without_witness_data().len() == 96,
        spend_v5_failure(d.v5_encoding_without_witness_data()) is None,
        (SpendDescription::<Authorized> {
            cv: v.cv,
            anchor: d.anchor,
            nullifier: v.nullifier,
            rk: v.rk,
            zkproof: d.zkproof,
            spend_auth_sig: d.spend_auth_sig,
        }) == d,
{
    let s = d.v5_encoding_without_witness_data();
    Point::lemma_view_len(d.cv);
    Point::lemma_view_len(d.rk.0);
    Point::lemma_view_len(v.cv);
    Point::lemma_view_len(v.rk.0);
    assert(s.take(32) =~= d.cv@);
    assert(s.skip(64).take(32) =~= d.rk.0@);
    assert(v.cv@ =~= s.subrange(0, 32));
    assert(d.cv@ =~= s.subrange(0, 32));
    assert(v.nullifier.0@ =~= s.subrange(32, 64));
    assert(d.nullifier.0@ =~= s.subrange(32, 64));
    assert(v.rk.0@ =~= s.subrange(64, 96));
    assert(d.rk.0@ =~= s.subrange(64, 96));
    Point::lemma_view_injective(v.cv, d.cv);
    Point::lemma_view_injective(v.rk.0, d.rk.0);
    assert(v.nullifier.0 =~= d.nullifier.0);
}

/// Reading the v4 encoding of an output description gives that description
/// back: the 948 bytes are accepted, and the only description with that
/// encoding is the one that was written.
pub proof fn lemma_output_v4_roundtrip(
    d: OutputDescription<GrothProofBytes>,
    e: OutputDescription<GrothProofBytes>,
)
    requires
        output_is_valid(d),
        e.v4_encoding() == d.v4_encoding(),
    ensures
        d.v4_encoding().len() == 948,
        output_v4_failure(d.v4_encoding()) is None,
        e == d,
{
    let s = d.v4_encoding();
    Point::lemma_view_len(d.cv);
    Base::lemma_view_len(d.cmu);
    Point::lemma_view_len(e.cv);
    Base::lemma_view_len(e.cmu);
    assert(s.take(32) =~= d.cv@);
    assert(s.skip(32).take(32) =~= d.cmu@);
    assert(e.cv@ =~= s.subrange(0, 32));
    assert(d.cv@ =~= s.subrange(0, 32));
    assert(e.cmu@ =~= s.subrange(32, 64));
    assert(d.cmu@ =~= s.subrange(32, 64));
    assert(e.ephemeral_key@ =~= s.subrange(64, 96));
    assert(d.ephemeral_key@ =~= s.subrange(64, 96));
    assert(e.enc_ciphertext@ =~= s.subrange(96, 676));
    assert(d.enc_ciphertext@ =~= s.subrange(96, 676));
    assert(e.out_ciphertext@ =~= s.subrange(676, 756));
    assert(d.out_ciphertext@ =~= s.subrange(676, 756));
    assert(e.zkproof@ =~= s.subrange(756, 948));
    assert(d.zkproof@ =~= s.subrange(756, 948));
    Point::lemma_view_injective(e.cv, d.cv);
    Base::lemma_view_injective(e.cmu, d.cmu);
    assert(e.ephemeral_key =~= d.ephemeral_key);
    assert(e.enc_ciphertext =~= d.enc_ciphertext);
    assert(e.out_ciphertext =~= d.out_ciphertext);
    assert(e.zkproof =~= d.zkproof);
}

/// Reading an output description in its v4 layout accepts exactly the
/// inputs of at least 948 bytes whose cv encodes a Jubjub point and whose
/// cmu is a canonical field element.
pub proof fn lemma_output_v4_accepts(s: Seq<u8>)
    ensures
        output_v4_failure(s) is None <==> {
            &&& s.len() >= 948
            &&& jubjub_point_decodes(s.subrange(0, 32))
            &&& le_nat(s.subrange(32, 64)) < bls_scalar_modulus()
        },
{
    if s.len() >= 64 {
        assert(s.take(32) =~= s.subrange(0, 32));
        assert(s.skip(32).take(32) =~= s.subrange(32, 64));
    }
}

/// Reading the encoding of an output description without its proof
/// accepts it, and completing what it reads with the description's proof
/// gives the description back.
pub proof fn lemma_output_v5_roundtrip(
    d: OutputDescription<GrothProofBytes>,
    v: OutputDescriptionV5,
)
    requires
        output_is_valid(d),
        v.encoding() == d.encoding_without_proof(),
    ensures
        d.encoding_without_proof().len() == 756,
        output_v5_failure(d.encoding_without_proof()) is None,
        (OutputDescription::<GrothProofBytes> {
            cv: v.cv,
            cmu: v.cmu,
            ephemeral_key: v.ephemeral_key,
            enc_ciphertext: v.enc_ciphertext,
            out_ciphertext: v.out_ciphertext,
            zkproof: d.zkproof,
        }) == d,
{
    let s = d.encoding_without_proof();
    Point::lemma_view_len(d.cv);
    Base::lemma_view_len(d.cmu);
    Point::lemma_view_len(v.cv);
    Base::lemma_view_len(v.cmu);
    assert(s.take(32) =~= d.cv@);
    assert(s.skip(32).take(32) =~= d.cmu@);
    assert(v.cv@ =~= s.subrange(0, 32));
    assert(d.cv@ =~= s.subrange(0, 32));
    assert(v.cmu@ =~= s.subrange(32, 64));
    assert(d.cmu@ =~= s.subrange(32, 64));
    assert(v.ephemeral_key@ =~= s.subrange(64, 96));
    assert(d.ephemeral_key@ =~= s.subrange(64, 96));
    assert(v.enc_ciphertext@ =~= s.subrange(96, 676));
    assert(d.enc_ciphertext@ =~= s.subrange(96, 676));
    assert(v.out_ciphertext@ =~= s.subrange(676, 756));
    assert(d.out_ciphertext@ =~= s.subrange(676, 756));
    Point::lemma_view_injective(v.cv, d.cv);
    Base::lemma_view_injective(v.cmu, d.cmu);
    assert(v.ephemeral_key =~= d.ephemeral_key);
    assert(v.enc_ciphertext =~= d.enc_ciphertext);
    assert(v.out_ciphertext =~= d.out_ciphertext);
}

/// Reading the v5 part of a spend accepts exactly the inputs of at least 96
/// bytes whose first 32 bytes (cv) and last 32 bytes (rk) encode Jubjub
/// points; a cv that does not decode is the failure reported, before any
/// other.
pub proof fn lemma_spend_v5_accepts(s: Seq<u8>)
    ensures
        spend_v5_failure(s) is None <==> {
            &&& s.len() >= 96
            &&& jubjub_point_decodes(s.subrange(0, 32))
            &&& jubjub_point_decodes(s.subrange(64, 96))
        },
        s.len() >= 32 && !jubjub_point_decodes(s.subrange(0, 32)) ==> spend_v5_failure(s)
            == Some(ReadFailure::InvalidInput("invalid "@ + "cv"@)),
        s.len() >= 96 && jubjub_point_decodes(s.subrange(0, 32)) && !jubjub_point_decodes(
            s.subrange(64, 96),
        ) ==> spend_v5_failure(s) == Some(
            ReadFailure::InvalidInput("invalid RedJubjub public key"@),
        ),
{
    if s.len() >= 32 {
        assert(s.take(32) =~= s.subrange(0, 32));
    }
    if s.len() >= 96 {
        assert(s.skip(64).take(32) =~= s.subrange(64, 96));
    }
}

/// In the v4 spend layout a cv that does not decode is reported before any
/// other failure, and a non-canonical anchor before anything after it.
pub proof fn lemma_spend_v4_first_failures(s: Seq<u8>)
    ensures
        s.len() >= 32 && !jubjub_point_decodes(s.subrange(0, 32)) ==> spend_v4_failure(s)
            == Some(ReadFailure::InvalidInput("invalid "@ + "cv"@)),
        s.len() >= 64 && jubjub_point_decodes(s.subrange(0, 32)) && !(le_nat(s.subrange(32, 64))
            < bls_scalar_modulus()) ==> spend_v4_failure(s) == Some(
            ReadFailure::InvalidInput("anchor"@ + " not in field"@),
        ),
{
    if s.len() >= 32 {
        assert(s.take(32) =~= s.subrange(0, 32));
    }
    if s.len() >= 64 {
        assert(s.skip(32).take(32) =~= s.subrange(32, 64));
    }
}

/// Reading an output without its proof accepts exactly the inputs of at
/// least 756 bytes whose cv encodes a Jubjub point and whose cmu is a
/// canonical field element.
pub proof fn lemma_output_v5_accepts(s: Seq<u8>)
    ensures
        output_v5_failure(s) is None <==> {
            &&& s.len() >= 756
            &&& jubjub_point_decodes(s.subrange(0, 32))
            &&& le_nat(s.subrange(32, 64)) < bls_scalar_modulus()
        },
{
    if s.len() >= 64 {
        assert(s.take(32) =~= s.subrange(0, 32));
        assert(s.skip(32).take(32) =~= s.subrange(32, 64));
    }
}

/// In the output layouts a cv that does not decode is reported before any
/// other failure, and a non-canonical cmu before anything after it.
pub proof fn lemma_output_first_failures(s: Seq<u8>)
    ensures
        s.len() >= 32 && !jubjub_point_decodes(s.subrange(0, 32)) ==> output_v5_failure(s)
            == Some(ReadFailure::InvalidInput("invalid "@ + "cv"@)) && output_v4_failure(s)
            == Some(ReadFailure::InvalidInput("invalid "@ + "cv"@)),
        s.len() >= 64 && jubjub_point_decodes(s.subrange(0, 32)) && !(le_nat(s.subrange(32, 64))
            < bls_scalar_modulus()) ==> output_v5_failure(s) == Some(
            ReadFailure::InvalidInput("cmu"@ + " not in field"@),
        ) && output_v4_failure(s) == Some(ReadFailure::InvalidInput("cmu"@ + " not in field"@)),
{
    if s.len() >= 32 {
        assert(s.take(32) =~= s.subrange(0, 32));
    }
    if s.len() >= 64 {
        assert(s.skip(32).take(32) =~= s.subrange(32, 64));
    }
}

} // verus!
