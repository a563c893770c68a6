use vstd::prelude::*;

verus! {

/// Character of the decimal digit `d` (`0 <= d < 10`).
pub open spec fn digit_char(d: nat) -> char {
    seq!['0', '1', '2', '3', '4', '5', '6', '7', '8', '9'][d as int]
}

/// Decimal digits of `n`, most significant first, with no leading zero.
pub open spec fn digits(n: nat) -> Seq<char>
    decreases n,
{
    if n < 10 {
        seq![digit_char(n)]
    } else {
        digits(n / 10).push(digit_char(n % 10))
    }
}

/// Decimal text of `v`, with a leading `-` when it is negative.
pub open spec fn decimal(v: int) -> Seq<char> {
    if v < 0 {
        seq!['-'] + digits((-v) as nat)
    } else {
        digits(v as nat)
    }
}

/// Integer division rounded toward zero, as Rust's `/` on integers does.
pub open spec fn trunc_div(a: int, b: int) -> int {
    let q = (if a < 0 { -a } else { a }) / (if b < 0 { -b } else { b });
    if (a < 0) == (b < 0) {
        q
    } else {
        -q
    }
}

/// The case split by which std's `checked_div` on signed integers is
/// specified gives the quotient rounded toward zero.
proof fn lemma_checked_div_truncates(x: int, d: int)
    requires
        d != 0,
    ensures
        trunc_div(x, d) == (if x == 0 {
            0
        } else if x > 0 && d > 0 {
            x / d
        } else if x < 0 && d < 0 {
            (x * -1) / (d * -1)
        } else if x < 0 {
            ((x * -1) / d) * -1
        } else {
            (x / (d * -1)) * -1
        }),
{
    if x == 0 {
        let e = if d < 0 { -d } else { d };
        assert(0int / e == 0) by (nonlinear_arith)
            requires e > 0;
    }
}

/// A signed numeric coordinate.  Each value stands for an integer
/// (`value`) between the type's bounds; the operations compute on those
/// integers and are only called where the exact result fits.
pub trait Coord: Copy + Sized {
    /// The integer this coordinate holds.
    spec fn value(self) -> int;

    /// The coordinate that holds `v`, for `v` within the bounds.
    spec fn from_value(v: int) -> Self;

    /// Least value of the type.
    spec fn min_value() -> int;

    /// Greatest value of the type.
    spec fn max_value() -> int;

    /// Every coordinate holds a value within the bounds.
    proof fn lemma_value_in_bounds(c: Self)
        ensures
            Self::min_value() <= c.value() <= Self::max_value(),
    ;

    /// `from_value` gives back the value it was handed, within the bounds.
    proof fn lemma_from_value(v: int)
        requires
            Self::min_value() <= v <= Self::max_value(),
        ensures
            Self::from_value(v).value() == v,
    ;

    /// A coordinate is determined by its value.
    proof fn lemma_round_trip(c: Self)
        ensures
            Self::from_value(c.value()) == c,
    ;

    /// The additive identity.
    fn zero() -> (r: Self)
        ensures
            r.value() == 0,
    ;

    /// The multiplicative identity.
    fn one() -> (r: Self)
        ensures
            r.value() == 1,
    ;

    fn negate(self) -> (r: Self)
        requires
            Self::min_value() <= -self.value() <= Self::max_value(),
        ensures
            r.value() == -self.value(),
    ;

    fn plus(self, o: Self) -> (r: Self)
        requires
            Self::min_value() <= self.value() + o.value() <= Self::max_value(),
        ensures
            r.value() == self.value() + o.value(),
    ;

    fn minus(self, o: Self) -> (r: Self)
        requires
            Self::min_value() <= self.value() - o.value() <= Self::max_value(),
        ensures
            r.value() == self.value() - o.value(),
    ;

    fn times(self, o: Self) -> (r: Self)
        requires
            Self::min_value() <= self.value() * o.value() <= Self::max_value(),
        ensures
            r.value() == self.value() * o.value(),
    ;

    fn quotient(self, o: Self) -> (r: Self)
        requires
            o.value() != 0,
            Self::min_value() <= trunc_div(self.value(), o.value()) <= Self::max_value(),
        ensures
            r.value() == trunc_div(self.value(), o.value()),
    ;

    fn equals(self, o: Self) -> (r: bool)
        ensures
            r == (self.value() == o.value()),
    ;

    /// Decimal text of the coordinate.
    fn render(self) -> (r: String)
        ensures
            r@ == decimal(self.value()),
    ;
}

/// Relies on `<i128 as ToString>::to_string` (through `Display`): the
/// decimal digits of the value, preceded by `-` when it is negative.
#[verifier::external_body]
fn decimal_text(v: i128) -> (r: String)
    ensures
        r@ == decimal(v as int),
{
    v.to_string()
}

impl Coord for i8 {
    open spec fn value(self) -> int {
        self as int
    }

    open spec fn from_value(v: int) -> i8 {
        v as i8
    }

    open spec fn min_value() -> int {
        i8::MIN as int
    }

    open spec fn max_value() -> int {
        i8::MAX as int
    }

    proof fn lemma_value_in_bounds(c: i8) {
    }

    proof fn lemma_from_value(v: int) {
    }

    proof fn lemma_round_trip(c: i8) {
    }

    fn zero() -> (r: i8) {
        0
    }

    fn one() -> (r: i8) {
        1
    }

    fn negate(self) -> (r: i8) {
        -self
    }

    fn plus(self, o: i8) -> (r: i8) {
        self + o
    }

    fn minus(self, o: i8) -> (r: i8) {
        self - o
    }

    fn times(self, o: i8) -> (r: i8) {
        self * o
    }

    fn quotient(self, o: i8) -> (r: i8) {
        proof {
            lemma_checked_div_truncates(self as int, o as int);
        }
        self.checked_div(o).unwrap()
    }

    fn equals(self, o: i8) -> (r: bool) {
        self == o
    }

    fn render(self) -> (r: String) {
        decimal_text(self as i128)
    }
}

impl Coord for i16 {
    open spec fn value(self) -> int {
        self as int
    }

    open spec fn from_value(v: int) -> i16 {
        v as i16
    }

    open spec fn min_value() -> int {
        i16::MIN as int
    }

    open spec fn max_value() -> int {
        i16::MAX as int
    }

    proof fn lemma_value_in_bounds(c: i16) {
    }

    proof fn lemma_from_value(v: int) {
    }

    proof fn lemma_round_trip(c: i16) {
    }

    fn zero() -> (r: i16) {
        0
    }

    fn one() -> (r: i16) {
        1
    }

    fn negate(self) -> (r: i16) {
        -self
    }

    fn plus(self, o: i16) -> (r: i16) {
        self + o
    }

    fn minus(self, o: i16) -> (r: i16) {
        self - o
    }

    fn times(self, o: i16) -> (r: i16) {
        self * o
    }

    fn quotient(self, o: i16) -> (r: i16) {
        proof {
            lemma_checked_div_truncates(self as int, o as int);
        }
        self.checked_div(o).unwrap()
    }

    fn equals(self, o: i16) -> (r: bool) {
        self == o
    }

    fn render(self) -> (r: String) {
        decimal_text(self as i128)
    }
}

impl Coord for i32 {
    open spec fn value(self) -> int {
        self as int
    }

    open spec fn from_value(v: int) -> i32 {
        v as i32
    }

    open spec fn min_value() -> int {
        i32::MIN as int
    }

    open spec fn max_value() -> int {
        i32::MAX as int
    }

    proof fn lemma_value_in_bounds(c: i32) {
    }

    proof fn lemma_from_value(v: int) {
    }

    proof fn lemma_round_trip(c: i32) {
    }

    fn zero() -> (r: i32) {
        0
    }

    fn one() -> (r: i32) {
        1
    }

    fn negate(self) -> (r: i32) {
        -self
    }

    fn plus(self, o: i32) -> (r: i32) {
        self + o
    }

    fn minus(self, o: i32) -> (r: i32) {
        self - o
    }

    fn times(self, o: i32) -> (r: i32) {
        self * o
    }

    fn quotient(self, o: i32) -> (r: i32) {
        proof {
            lemma_checked_div_truncates(self as int, o as int);
        }
        self.checked_div(o).unwrap()
    }

    fn equals(self, o: i32) -> (r: bool) {
        self == o
    }

    fn render(self) -> (r: String) {
        decimal_text(self as i128)
    }
}

impl Coord for i64 {
    open spec fn value(self) -> int {
        self as int
    }

    open spec fn from_value(v: int) -> i64 {
        v as i64
    }

    open spec fn min_value() -> int {
        i64::MIN as int
    }

    open spec fn max_value() -> int {
        i64::MAX as int
    }

    proof fn lemma_value_in_bounds(c: i64) {
    }

    proof fn lemma_from_value(v: int) {
    }

    proof fn lemma_round_trip(c: i64) {
    }

    fn zero() -> (r: i64) {
        0
    }

    fn one() -> (r: i64) {
        1
    }

    fn negate(self) -> (r: i64) {
        -self
    }

    fn plus(self, o: i64) -> (r: i64) {
        self + o
    }

    fn minus(self, o: i64) -> (r: i64) {
        self - o
    }

    fn times(self, o: i64) -> (r: i64) {
        self * o
    }

    fn quotient(self, o: i64) -> (r: i64) {
        proof {
            lemma_checked_div_truncates(self as int, o as int);
        }
        self.checked_div(o).unwrap()
    }

    fn equals(self, o: i64) -> (r: bool) {
        self == o
    }

    fn render(self) -> (r: String) {
        decimal_text(self as i128)
    }
}

impl Coord for i128 {
    open spec fn value(self) -> int {
        self as int
    }

    open spec fn from_value(v: int) -> i128 {
        v as i128
    }

    open spec fn min_value() -> int {
        i128::MIN as int
    }

    open spec fn max_value() -> int {
        i128::MAX as int
    }

    proof fn lemma_value_in_bounds(c: i128) {
    }

    proof fn lemma_from_value(v: int) {
    }

    proof fn lemma_round_trip(c: i128) {
    }

    fn zero() -> (r: i128) {
        0
    }

    fn one() -> (r: i128) {
        1
    }

    fn negate(self) -> (r: i128) {
        -self
    }

    fn plus(self, o: i128) -> (r: i128) {
        self + o
    }

    fn minus(self, o: i128) -> (r: i128) {
        self - o
    }

    fn times(self, o: i128) -> (r: i128) {
        self * o
    }

    fn quotient(self, o: i128) -> (r: i128) {
        proof {
            lemma_checked_div_truncates(self as int, o as int);
        }
        self.checked_div(o).unwrap()
    }

    fn equals(self, o: i128) -> (r: bool) {
        self == o
    }

    fn render(self) -> (r: String) {
        decimal_text(self)
    }
}

impl Coord for isize {
    open spec fn value(self) -> int {
        self as int
    }

    open spec fn from_value(v: int) -> isize {
        v as isize
    }

    open spec fn min_value() -> int {
        isize::MIN as int
    }

    open spec fn max_value() -> int {
        isize::MAX as int
    }

    proof fn lemma_value_in_bounds(c: isize) {
    }

    proof fn lemma_from_value(v: int) {
    }

    proof fn lemma_round_trip(c: isize) {
    }

    fn zero() -> (r: isize) {
        0
    }

    fn one() -> (r: isize) {
        1
    }

    fn negate(self) -> (r: isize) {
        -self
    }

    fn plus(self, o: isize) -> (r: isize) {
        self + o
    }

    fn minus(self, o: isize) -> (r: isize) {
        self - o
    }

    fn times(self, o: isize) -> (r: isize) {
        self * o
    }

    fn quotient(self, o: isize) -> (r: isize) {
        proof {
            lemma_checked_div_truncates(self as int, o as int);
        }
        self.checked_div(o).unwrap()
    }

    fn equals(self, o: isize) -> (r: bool) {
        self == o
    }

    fn render(self) -> (r: String) {
        decimal_text(self as i128)
    }
}

} // verus!
