//! Algebraic laws of vectors, stated over the integer model that the
//! operations' contracts use.
use crate::meta::Coord;
use crate::vectors::{
    add_model, cross_model, dot_model, neg_model, scale_model, sub_model, unit_x, unit_y, Vector,
};
use vstd::prelude::*;
use vstd::std_specs::cmp::PartialEqSpec;

verus! {

/// A vector plus its negation is the zero vector, the value of `default`.
pub proof fn lemma_add_neg_is_zero<T: Coord>(v: Vector<T>)
    ensures
        add_model(v@, neg_model(v@)) == (0int, 0int),
{
}

/// Subtracting `w` is adding the negation of `w`.
pub proof fn lemma_sub_is_add_neg<T: Coord>(v: Vector<T>, w: Vector<T>)
    ensures
        sub_model(v@, w@) == add_model(v@, neg_model(w@)),
{
}

/// Subtraction undoes addition: `(v + w) - w` is `v`.
pub proof fn lemma_add_then_sub<T: Coord>(v: Vector<T>, w: Vector<T>)
    ensures
        sub_model(add_model(v@, w@), w@) == v@,
{
}

/// Multiplying by a scalar distributes over addition:
/// `(v + w) * s` is `v * s + w * s`.
pub proof fn lemma_scale_distributes<T: Coord>(v: Vector<T>, w: Vector<T>, s: T)
    ensures
        scale_model(add_model(v@, w@), s.value()) == add_model(
            scale_model(v@, s.value()),
            scale_model(w@, s.value()),
        ),
{
    let k = s.value();
    assert((v@.0 + w@.0) * k == v@.0 * k + w@.0 * k) by (nonlinear_arith);
    assert((v@.1 + w@.1) * k == v@.1 * k + w@.1 * k) by (nonlinear_arith);
}

/// The dot product does not depend on the order of its operands.
pub proof fn lemma_dot_commutes<T: Coord>(v: Vector<T>, w: Vector<T>)
    ensures
        dot_model(v@, w@) == dot_model(w@, v@),
{
    assert(v@.0 * w@.0 == w@.0 * v@.0) by (nonlinear_arith);
    assert(v@.1 * w@.1 == w@.1 * v@.1) by (nonlinear_arith);
}

/// Swapping the operands of the cross product negates it.
pub proof fn lemma_cross_anticommutes<T: Coord>(v: Vector<T>, w: Vector<T>)
    ensures
        cross_model(v@, w@) == -cross_model(w@, v@),
{
}

/// The dot product with the horizontal unit vector is the `x` coordinate,
/// and with the vertical unit vector the `y` coordinate.
pub proof fn lemma_unit_dot<T: Coord>(v: Vector<T>)
    ensures
        dot_model(unit_x(), v@) == v@.0,
        dot_model(unit_y(), v@) == v@.1,
{
}

/// Equality of vectors is reflexive and symmetric, and exact: it holds
/// just when both coordinates hold the same integers.
pub proof fn lemma_eq_exact<T: Coord>(v: Vector<T>, w: Vector<T>)
    ensures
        v.eq_spec(&v),
        v.eq_spec(&w) == w.eq_spec(&v),
        v.eq_spec(&w) <==> (v.x.value() == w.x.value() && v.y.value() == w.y.value()),
{
}

} // verus!
