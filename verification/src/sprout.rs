//! The Sprout note commitment: the bits that it hashes.

use ironfish_bellperson::gadgets::boolean::Boolean;
use vstd::prelude::*;

verus! {

#[verifier::external_type_specification]
#[verifier::external_body]
pub struct ExBoolean(Boolean);

/// The circuit boolean that `Boolean::constant(b)` builds: the constant `b`.
pub uninterp spec fn constant_boolean(b: bool) -> Boolean;

/// Calls `ironfish_bellperson::gadgets::boolean::Boolean::constant`; its
/// result is named `constant_boolean` of the bit.
#[verifier::external_body]
fn boolean_constant(b: bool) -> (r: Boolean)
    ensures
        r == constant_boolean(b),
{
    Boolean::constant(b)
}

/// Calls `Clone::clone` on a `Boolean`, whose `Clone` is derived: the copy
/// is the same value.
#[verifier::external_body]
fn boolean_clone(b: &Boolean) -> (r: Boolean)
    ensures
        r == *b,
{
    b.clone()
}

/// The eight leading bits of a Sprout note commitment preimage.
pub open spec fn note_comm_prefix() -> Seq<bool> {
    seq![true, false, true, true, false, false, false, false]
}

/// The circuit booleans of the leading bits.
pub open spec fn note_comm_prefix_booleans() -> Seq<Boolean> {
    note_comm_prefix().map_values(|b: bool| constant_boolean(b))
}

/// Appends clones of the booleans of `bits` to `image`.
fn extend_cloned(image: &mut Vec<Boolean>, bits: &[Boolean])
    ensures
        final(image)@ == old(image)@ + bits@,
{
    let mut i: usize = 0;
    while i < bits.len()
        invariant
            i <= bits@.len(),
            image@ == old(image)@ + bits@.subrange(0, i as int),
        decreases bits@.len() - i,
    {
        image.push(boolean_clone(&bits[i]));
        i = i + 1;
        assert(image@ =~= old(image)@ + bits@.subrange(0, i as int));
    }
    assert(bits@.subrange(0, bits@.len() as int) =~= bits@);
}

/// The 840 bits that a Sprout note commitment hashes: the constant bits
/// 1011 0000, then `a_pk` (256 bits), `value` (64 bits), `rho` (256 bits)
/// and `r` (256 bits).
pub fn note_comm_preimage(
    a_pk: &[Boolean],
    value: &[Boolean],
    rho: &[Boolean],
    r: &[Boolean],
) -> (image: Vec<Boolean>)
    requires
        a_pk@.len() == 256,
        value@.len() == 64,
        rho@.len() == 256,
        r@.len() == 256,
    ensures
        image@ == note_comm_prefix_booleans() + a_pk@ + value@ + rho@ + r@,
        image@.len() == 840,
        image@[0] == constant_boolean(true),
        image@[1] == constant_boolean(false),
        image@[2] == constant_boolean(true),
        image@[3] == constant_boolean(true),
        image@[4] == constant_boolean(false),
        image@[5] == constant_boolean(false),
        image@[6] == constant_boolean(false),
        image@[7] == constant_boolean(false),
        image@.subrange(8, 264) == a_pk@,
        image@.subrange(264, 328) == value@,
        image@.subrange(328, 584) == rho@,
        image@.subrange(584, 840) == r@,
{
    let mut image: Vec<Boolean> = Vec::new();
    image.push(boolean_constant(true));
    image.push(boolean_constant(false));
    image.push(boolean_constant(true));
    image.push(boolean_constant(true));
    image.push(boolean_constant(false));
    image.push(boolean_constant(false));
    image.push(boolean_constant(false));
    image.push(boolean_constant(false));
    assert(image@ =~= note_comm_prefix_booleans());
    extend_cloned(&mut image, a_pk);
    extend_cloned(&mut image, value);
    extend_cloned(&mut image, rho);
    extend_cloned(&mut image, r);
    assert(image@.subrange(8, 264) =~= a_pk@);
    assert(image@.subrange(264, 328) =~= value@);
    assert(image@.subrange(328, 584) =~= rho@);
    assert(image@.subrange(584, 840) =~= r@);
    image
}

/// An output note of a Sprout JoinSplit circuit: its commitment, as bits.
pub struct OutputNote {
    pub cm: Vec<Boolean>,
}

} // verus!
