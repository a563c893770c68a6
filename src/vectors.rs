use crate::meta::{decimal, trunc_div, Coord};
use vstd::prelude::*;

verus! {

/// Whether the integer `v` can be held by a coordinate of type `T`.
pub open spec fn fits<T: Coord>(v: int) -> bool {
    T::min_value() <= v <= T::max_value()
}

/// Coordinate-wise negation of a vector in the integer model.
pub open spec fn neg_model(a: (int, int)) -> (int, int) {
    (-a.0, -a.1)
}

/// Coordinate-wise sum in the integer model.
pub open spec fn add_model(a: (int, int), b: (int, int)) -> (int, int) {
    (a.0 + b.0, a.1 + b.1)
}

/// Coordinate-wise difference in the integer model.
pub open spec fn sub_model(a: (int, int), b: (int, int)) -> (int, int) {
    (a.0 - b.0, a.1 - b.1)
}

/// Each coordinate times the scalar `s`, in the integer model.
pub open spec fn scale_model(a: (int, int), s: int) -> (int, int) {
    (a.0 * s, a.1 * s)
}

/// Each coordinate divided by `s`, rounded toward zero.
pub open spec fn div_model(a: (int, int), s: int) -> (int, int) {
    (trunc_div(a.0, s), trunc_div(a.1, s))
}

/// Dot product in the integer model.
pub open spec fn dot_model(a: (int, int), b: (int, int)) -> int {
    a.0 * b.0 + a.1 * b.1
}

/// Scalar cross product (the z part of the 3D cross product) in the
/// integer model.
pub open spec fn cross_model(a: (int, int), b: (int, int)) -> int {
    a.0 * b.1 - b.0 * a.1
}

/// The horizontal unit vector in the integer model.
pub open spec fn unit_x() -> (int, int) {
    (1, 0)
}

/// The vertical unit vector in the integer model.
pub open spec fn unit_y() -> (int, int) {
    (0, 1)
}

/// Text of a vector with coordinates `a`: `[x, y]`.
pub open spec fn render_model(a: (int, int)) -> Seq<char> {
    seq!['['] + decimal(a.0) + seq![',', ' '] + decimal(a.1) + seq![']']
}

/// A vector of the plane with coordinates of type `T`.
#[derive(Debug)]
pub struct Vector<T> where T: Coord {
    pub x: T,
    pub y: T,
}

impl<T> View for Vector<T> where T: Coord {
    type V = (int, int);

    open spec fn view(&self) -> (int, int) {
        (self.x.value(), self.y.value())
    }
}

impl<T> Vector<T> where T: Coord {
    /// The vector whose coordinates are the integers `a`, for `a` within
    /// the bounds of `T`.
    pub open spec fn from_model(a: (int, int)) -> Vector<T> {
        Vector { x: T::from_value(a.0), y: T::from_value(a.1) }
    }

    pub fn with_coords(x: T, y: T) -> (r: Self)
        ensures
            r.x == x,
            r.y == y,
    {
        Vector { x, y }
    }

    pub fn i_hat() -> (r: Self)
        ensures
            r@ == unit_x(),
    {
        Self::with_coords(T::one(), T::zero())
    }

    pub fn j_hat() -> (r: Self)
        ensures
            r@ == unit_y(),
    {
        Self::with_coords(T::zero(), T::one())
    }

    pub fn dot(self, other: Self) -> (r: T)
        requires
            fits::<T>(self.x.value() * other.x.value()),
            fits::<T>(self.y.value() * other.y.value()),
            fits::<T>(dot_model(self@, other@)),
        ensures
            r.value() == dot_model(self@, other@),
    {
        self.x.times(other.x).plus(self.y.times(other.y))
    }

    pub fn cross(self, other: Self) -> (r: T)
        requires
            fits::<T>(self.x.value() * other.y.value()),
            fits::<T>(other.x.value() * self.y.value()),
            fits::<T>(cross_model(self@, other@)),
        ensures
            r.value() == cross_model(self@, other@),
    {
        self.x.times(other.y).minus(other.x.times(self.y))
    }

    /// Text of the vector, `[x, y]`, each coordinate in decimal.
    pub fn to_string(&self) -> (r: String)
        ensures
            r@ == render_model(self@),
    {
        let mut s = String::from_str("[");
        let xs = self.x.render();
        s.append(xs.as_str());
        s.append(", ");
        let ys = self.y.render();
        s.append(ys.as_str());
        s.append("]");
        proof {
            reveal_strlit("[");
            reveal_strlit(", ");
            reveal_strlit("]");
            assert(s@ =~= render_model(self@));
        }
        s
    }
}

impl<T> Default for Vector<T> where T: Coord {
    fn default() -> (r: Self)
        ensures
            r@ == (0int, 0int),
    {
        Self::with_coords(T::zero(), T::zero())
    }
}

impl<T> PartialEq for Vector<T> where T: Coord {
    fn eq(&self, other: &Self) -> (r: bool) {
        self.x.equals(other.x) && self.y.equals(other.y)
    }
}

impl<T> vstd::std_specs::cmp::PartialEqSpecImpl for Vector<T> where T: Coord {
    open spec fn obeys_eq_spec() -> bool {
        true
    }

    /// Two vectors are equal when both coordinates hold the same integers.
    open spec fn eq_spec(&self, other: &Self) -> bool {
        self@ == other@
    }
}

impl<T> Eq for Vector<T> where T: Coord {}

impl<T> vstd::std_specs::ops::NegSpecImpl for Vector<T> where T: Coord {
    open spec fn obeys_neg_spec() -> bool {
        true
    }

    open spec fn neg_req(self) -> bool {
        fits::<T>(-self.x.value()) && fits::<T>(-self.y.value())
    }

    open spec fn neg_spec(self) -> Vector<T> {
        Vector::from_model(neg_model(self@))
    }
}

impl<T> std::ops::Neg for Vector<T> where T: Coord {
    type Output = Self;

    fn neg(self) -> (r: Self)
        ensures
            r@ == neg_model(self@),
    {
        let r = Self::with_coords(self.x.negate(), self.y.negate());
        proof {
            T::lemma_round_trip(r.x);
            T::lemma_round_trip(r.y);
        }
        r
    }
}

impl<T> vstd::std_specs::ops::AddSpecImpl for Vector<T> where T: Coord {
    open spec fn obeys_add_spec() -> bool {
        true
    }

    open spec fn add_req(self, rhs: Self) -> bool {
        fits::<T>(self.x.value() + rhs.x.value()) && fits::<T>(self.y.value() + rhs.y.value())
    }

    open spec fn add_spec(self, rhs: Self) -> Vector<T> {
        Vector::from_model(add_model(self@, rhs@))
    }
}

impl<T> std::ops::Add for Vector<T> where T: Coord {
    type Output = Self;

    fn add(self, other: Self) -> (r: Self)
        ensures
            r@ == add_model(self@, other@),
    {
        let r = Self::with_coords(self.x.plus(other.x), self.y.plus(other.y));
        proof {
            T::lemma_round_trip(r.x);
            T::lemma_round_trip(r.y);
        }
        r
    }
}

impl<T> vstd::std_specs::ops::SubSpecImpl for Vector<T> where T: Coord {
    open spec fn obeys_sub_spec() -> bool {
        true
    }

    open spec fn sub_req(self, rhs: Self) -> bool {
        fits::<T>(self.x.value() - rhs.x.value()) && fits::<T>(self.y.value() - rhs.y.value())
    }

    open spec fn sub_spec(self, rhs: Self) -> Vector<T> {
        Vector::from_model(sub_model(self@, rhs@))
    }
}

impl<T> std::ops::Sub for Vector<T> where T: Coord {
    type Output = Self;

    fn sub(self, other: Self) -> (r: Self)
        ensures
            r@ == sub_model(self@, other@),
    {
        let r = Self::with_coords(self.x.minus(other.x), self.y.minus(other.y));
        proof {
            T::lemma_round_trip(r.x);
            T::lemma_round_trip(r.y);
        }
        r
    }
}

impl<T> vstd::std_specs::ops::MulSpecImpl<T> for Vector<T> where T: Coord {
    open spec fn obeys_mul_spec() -> bool {
        true
    }

    open spec fn mul_req(self, rhs: T) -> bool {
        fits::<T>(self.x.value() * rhs.value()) && fits::<T>(self.y.value() * rhs.value())
    }

    open spec fn mul_spec(self, rhs: T) -> Vector<T> {
        Vector::from_model(scale_model(self@, rhs.value()))
    }
}

impl<T> std::ops::Mul<T> for Vector<T> where T: Coord {
    type Output = Self;

    fn mul(self, scalar: T) -> (r: Self)
        ensures
            r@ == scale_model(self@, scalar.value()),
    {
        let r = Self::with_coords(self.x.times(scalar), self.y.times(scalar));
        proof {
            T::lemma_round_trip(r.x);
            T::lemma_round_trip(r.y);
        }
        r
    }
}

impl<T> vstd::std_specs::ops::DivSpecImpl<T> for Vector<T> where T: Coord {
    open spec fn obeys_div_spec() -> bool {
        true
    }

    open spec fn div_req(self, rhs: T) -> bool {
        &&& rhs.value() != 0
        &&& fits::<T>(trunc_div(self.x.value(), rhs.value()))
        &&& fits::<T>(trunc_div(self.y.value(), rhs.value()))
    }

    open spec fn div_spec(self, rhs: T) -> Vector<T> {
        Vector::from_model(div_model(self@, rhs.value()))
    }
}

impl<T> std::ops::Div<T> for Vector<T> where T: Coord {
    type Output = Self;

    fn div(self, scalar: T) -> (r: Self)
        ensures
            r@ == div_model(self@, scalar.value()),
    {
        let r = Self::with_coords(self.x.quotient(scalar), self.y.quotient(scalar));
        proof {
            T::lemma_round_trip(r.x);
            T::lemma_round_trip(r.y);
        }
        r
    }
}

} // verus!
