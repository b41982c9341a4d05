//! What holds of the operations on durations, whatever the values.

use vstd::prelude::*;
use vstd::std_specs::cmp::PartialEqSpec;
use crate::clock::Mytime;

verus! {

/// A normalized duration is its own normal form.
pub proof fn lemma_normalized_is_fixed(x: Mytime)
    requires
        x.in_range(),
        x.is_normalized(),
    ensures
        x.normalized() == x,
{
}

/// Normalizing twice gives what normalizing once gives, field for field.
pub proof fn lemma_normalize_idempotent(x: Mytime)
    requires
        x.in_range(),
    ensures
        x.normalized().normalized() == x.normalized(),
{
    Mytime::lemma_of_seconds(x@);
}

/// Adding the zero duration gives a value equal to the one it was added to.
pub proof fn lemma_add_zero(x: Mytime)
    requires
        x.in_range(),
    ensures
        x.sum(Mytime { hour: 0, minute: 0, second: 0 }).eq_spec(&x),
{
    Mytime::lemma_of_seconds(x@);
}

/// A difference does not depend on the order of its operands.
pub proof fn lemma_sub_symmetric(a: Mytime, b: Mytime)
    ensures
        a.difference(b) == b.difference(a),
{
}

/// Multiplying by one factor and then by another gives what multiplying by
/// the product of the two gives, field for field.
pub proof fn lemma_mul_twice(x: Mytime, a: usize, b: usize)
    requires
        x@ * a <= usize::MAX,
        a * b <= usize::MAX,
    ensures
        x.product(a).product(b) == x.product((a * b) as usize),
{
    Mytime::lemma_of_seconds(x@ * a as nat);
    assert(x@ * a * b == x@ * (a * b)) by (nonlinear_arith);
}

/// Two durations are equal exactly when they have the same normal form.
pub proof fn lemma_equal_iff_same_normal_form(a: Mytime, b: Mytime)
    requires
        a.in_range(),
        b.in_range(),
    ensures
        a.eq_spec(&b) <==> a.normalized() == b.normalized(),
{
    Mytime::lemma_of_seconds(a@);
    Mytime::lemma_of_seconds(b@);
}

} // verus!
