//! Jubjub points and BLS12-381 scalars, held as their canonical encodings.

use ff::PrimeField;
use group::GroupEncoding;
use vstd::prelude::*;

verus! {

/// Whether the 32 bytes `b` decode, under `ironfish_jubjub`'s
/// `ExtendedPoint::from_bytes`, to a point of the Jubjub curve.
pub uninterp spec fn jubjub_point_decodes(b: Seq<u8>) -> bool;

/// Calls `<ironfish_jubjub::ExtendedPoint as group::GroupEncoding>::from_bytes`
/// and reports whether it returned a point. The contract names the outcome
/// `jubjub_point_decodes` of the bytes and says nothing more about it.
#[verifier::external_body]
fn jubjub_from_bytes_is_some(b: &[u8; 32]) -> (r: bool)
    ensures
        r == jubjub_point_decodes(b@),
{
    bool::from(ironfish_jubjub::ExtendedPoint::from_bytes(b).is_some())
}

/// The little-endian integer that the bytes `b` denote.
pub open spec fn le_nat(b: Seq<u8>) -> nat
    decreases b.len(),
{
    if b.len() == 0 {
        0
    } else {
        b[0] as nat + 256 * le_nat(b.skip(1))
    }
}

/// The order of the BLS12-381 scalar field (the Jubjub base field).
pub open spec fn bls_scalar_modulus() -> nat {
    0x73eda753299d7d483339d80809a1d80553bda402fffe5bfeffffffff00000001nat
}

/// Calls `<blstrs::Scalar as ff::PrimeField>::from_repr` and reports whether
/// it returned an element. As `ff` documents it, `from_repr` fails exactly on
/// inputs that are not canonical, that is not smaller than the modulus; the
/// representation of `blstrs::Scalar` is little-endian.
#[verifier::external_body]
fn scalar_from_repr_is_some(b: &[u8; 32]) -> (r: bool)
    ensures
        r == (le_nat(b@) < bls_scalar_modulus()),
{
    bool::from(blstrs::Scalar::from_repr(*b).is_some())
}

/// A point of the Jubjub curve, held as its canonical 32-byte encoding.
#[derive(Clone, Copy, Debug, PartialEq, Eq)]
pub struct Point {
    bytes: [u8; 32],
}

impl View for Point {
    type V = Seq<u8>;

    closed spec fn view(&self) -> Seq<u8> {
        self.bytes@
    }
}

impl Point {
    /// Every point decodes: the invariant that `from_bytes` establishes.
    #[verifier::type_invariant]
    pub open spec fn is_valid(self) -> bool {
        jubjub_point_decodes(self@)
    }

    /// Accepts `bytes` exactly when they decode to a Jubjub point.
    pub fn from_bytes(bytes: [u8; 32]) -> (r: Option<Point>)
        ensures
            r is Some <==> jubjub_point_decodes(bytes@),
            r matches Some(p) ==> p@ == bytes@,
    {
        if jubjub_from_bytes_is_some(&bytes) {
            Some(Point { bytes })
        } else {
            None
        }
    }

    /// The canonical encoding of the point.
    pub fn to_bytes(&self) -> (r: [u8; 32])
        ensures
            r@ == self@,
            jubjub_point_decodes(self@),
    {
        proof {
            use_type_invariant(self);
        }
        self.bytes
    }

    /// Two points are the same exactly when their encodings are.
    pub proof fn lemma_view_injective(a: Point, b: Point)
        requires
            a@ == b@,
        ensures
            a == b,
    {
        assert(a.bytes =~= b.bytes);
    }

    /// The encoding of a point is 32 bytes long.
    pub proof fn lemma_view_len(a: Point)
        ensures
            a@.len() == 32,
    {
    }
}

/// An element of the BLS12-381 scalar field, held as its canonical
/// little-endian 32-byte encoding.
#[derive(Clone, Copy, Debug, PartialEq, Eq)]
pub struct Base {
    bytes: [u8; 32],
}

impl View for Base {
    type V = Seq<u8>;

    closed spec fn view(&self) -> Seq<u8> {
        self.bytes@
    }
}

impl Base {
    /// Every element is held canonically: the invariant that `from_repr`
    /// establishes.
    #[verifier::type_invariant]
    pub open spec fn is_canonical(self) -> bool {
        le_nat(self@) < bls_scalar_modulus()
    }

    /// Accepts `repr` exactly when it is a canonical encoding.
    pub fn from_repr(repr: [u8; 32]) -> (r: Option<Base>)
        ensures
            r is Some <==> le_nat(repr@) < bls_scalar_modulus(),
            r matches Some(f) ==> f@ == repr@,
    {
        if scalar_from_repr_is_some(&repr) {
            Some(Base { bytes: repr })
        } else {
            None
        }
    }

    /// The canonical little-endian encoding of the element.
    pub fn to_repr(&self) -> (r: [u8; 32])
        ensures
            r@ == self@,
            le_nat(self@) < bls_scalar_modulus(),
    {
        proof {
            use_type_invariant(self);
        }
        self.bytes
    }

    /// Two elements are the same exactly when their encodings are.
    pub proof fn lemma_view_injective(a: Base, b: Base)
        requires
            a@ == b@,
        ensures
            a == b,
    {
        assert(a.bytes =~= b.bytes);
    }

    /// The encoding of an element is 32 bytes long.
    pub proof fn lemma_view_len(a: Base)
        ensures
            a@.len() == 32,
    {
    }
}

} // verus!
