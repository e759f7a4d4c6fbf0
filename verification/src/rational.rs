//! Exact fraction arithmetic over 64-bit integers.
//!
//! Hosts report camera matrices, scale factors and clip rectangles as
//! single-precision floats.  The pipeline carries those scalars as exact
//! fractions instead: every float is exactly some `num / den`, and with
//! fractions each transform step has a precise result.  Overflow of the
//! 64-bit numerator or denominator is an explicit `None` outcome — the
//! caller treats it as "do not draw / do not hit-test" — never a silent
//! wrap.
//!
//! The representation is not reduced: `2/4` and `1/2` are different
//! representations of the same value.  Contracts therefore speak of the
//! exact numerator and denominator, and value-level facts (such as "this
//! fraction is exactly the integer v") are stated through [`Rational::is_int_value`].

use vstd::prelude::*;

verus! {

/// Lower magnitude bound of a signed 64-bit value, as a plain integer.
pub open spec fn in_i64(x: int) -> bool {
    i64::MIN <= x <= i64::MAX
}

/// Quotient of `n / d` truncated toward zero, for `d > 0`; this is the
/// rounding a float-to-integer cast performs.
pub open spec fn trunc_div(n: int, d: int) -> int {
    if n >= 0 {
        n / d
    } else {
        -((-n) / d)
    }
}

/// Clamp an integer into the signed 32-bit range, as a float-to-`i32`
/// cast does.
pub open spec fn sat_i32(v: int) -> int {
    if v < i32::MIN {
        i32::MIN as int
    } else if v > i32::MAX {
        i32::MAX as int
    } else {
        v
    }
}

/// An exact fraction `num / den` with `den > 0` (see [`Rational::wf`]).
#[derive(Clone, Copy, Debug)]
pub struct Rational {
    pub num: i64,
    pub den: i64,
}

/// The fraction with value zero.
pub open spec fn spec_zero() -> Rational {
    Rational { num: 0, den: 1 }
}

/// The fraction with value one.
pub open spec fn spec_one() -> Rational {
    Rational { num: 1, den: 1 }
}

/// What [`Rational::new`] returns: the sign is moved to the numerator so
/// that the denominator is positive; a zero denominator, or a negation
/// that would leave the 64-bit range, gives `None`.
pub open spec fn spec_new(num: i64, den: i64) -> Option<Rational> {
    if den > 0 {
        Some(Rational { num, den })
    } else if den < 0 && num > i64::MIN && den > i64::MIN {
        Some(Rational { num: (-num) as i64, den: (-den) as i64 })
    } else {
        None
    }
}

/// Exact product: `None` exactly when the product numerator or
/// denominator leaves the 64-bit range.
pub open spec fn spec_mul(a: Rational, b: Rational) -> Option<Rational> {
    let n = a.num * b.num;
    let d = a.den * b.den;
    if in_i64(n) && in_i64(d) {
        Some(Rational { num: n as i64, den: d as i64 })
    } else {
        None
    }
}

/// Exact sum.  Adding zero hands the other operand back unchanged (same
/// representation); otherwise the result is over the product denominator,
/// and `None` exactly when that leaves the 64-bit range.
pub open spec fn spec_add(a: Rational, b: Rational) -> Option<Rational> {
    if b.num == 0 {
        Some(a)
    } else if a.num == 0 {
        Some(b)
    } else {
        let n = a.num * b.den + b.num * a.den;
        let d = a.den * b.den;
        if in_i64(n) && in_i64(d) {
            Some(Rational { num: n as i64, den: d as i64 })
        } else {
            None
        }
    }
}

/// Exact difference; subtracting zero hands `a` back unchanged.
pub open spec fn spec_sub(a: Rational, b: Rational) -> Option<Rational> {
    if b.num == 0 {
        Some(a)
    } else {
        let n = a.num * b.den - b.num * a.den;
        let d = a.den * b.den;
        if in_i64(n) && in_i64(d) {
            Some(Rational { num: n as i64, den: d as i64 })
        } else {
            None
        }
    }
}

/// Exact quotient `a / b`: `None` when `b` is zero (the degenerate
/// perspective divide is a checked case, not an IEEE infinity) or on
/// 64-bit overflow.  The sign moves to the numerator.
pub open spec fn spec_div(a: Rational, b: Rational) -> Option<Rational> {
    if b.num == 0 {
        None
    } else {
        let n = if b.num > 0 { a.num * b.den } else { -(a.num * b.den) };
        let d = if b.num > 0 { a.den * b.num } else { -(a.den * b.num) };
        if in_i64(n) && in_i64(d) {
            Some(Rational { num: n as i64, den: d as i64 })
        } else {
            None
        }
    }
}

/// The value of `a`, truncated toward zero.
pub open spec fn spec_trunc(a: Rational) -> int {
    trunc_div(a.num as int, a.den as int)
}

impl Rational {
    /// Well-formed fractions keep their denominator strictly positive.
    pub open spec fn wf(self) -> bool {
        self.den > 0
    }

    /// The fraction is exactly the integer `v`.
    pub open spec fn is_int_value(self, v: int) -> bool {
        self.num == v * self.den
    }

    /// Both fractions stand for the same value.
    pub open spec fn same_value(self, other: Rational) -> bool {
        self.num * other.den == other.num * self.den
    }

    /// The fraction `v / 1`.
    pub fn from_int(v: i64) -> (r: Rational)
        ensures
            r == (Rational { num: v, den: 1 }),
    {
        Rational { num: v, den: 1 }
    }

    /// Build `num / den`, moving the sign to the numerator.
    pub fn new(num: i64, den: i64) -> (r: Option<Rational>)
        ensures
            r == spec_new(num, den),
    {
        if den > 0 {
            Some(Rational { num, den })
        } else if den < 0 && num > i64::MIN && den > i64::MIN {
            Some(Rational { num: -num, den: -den })
        } else {
            None
        }
    }

    /// Exact product; see [`spec_mul`].
    pub fn mul(self, b: Rational) -> (r: Option<Rational>)
        ensures
            r == spec_mul(self, b),
    {
        let n = wide_mul(self.num, b.num);
        let d = wide_mul(self.den, b.den);
        clamp_pair(n, d)
    }

    /// Exact sum; see [`spec_add`].
    pub fn add(self, b: Rational) -> (r: Option<Rational>)
        requires
            self.wf(),
            b.wf(),
        ensures
            r == spec_add(self, b),
    {
        if b.num == 0 {
            Some(self)
        } else if self.num == 0 {
            Some(b)
        } else {
            proof {
                lemma_num_den_product_bound(self.num as int, b.den as int);
                lemma_num_den_product_bound(b.num as int, self.den as int);
            }
            let n1 = wide_mul(self.num, b.den);
            let n2 = wide_mul(b.num, self.den);
            let d = wide_mul(self.den, b.den);
            clamp_pair(n1 + n2, d)
        }
    }

    /// Exact difference; see [`spec_sub`].
    pub fn sub(self, b: Rational) -> (r: Option<Rational>)
        requires
            self.wf(),
            b.wf(),
        ensures
            r == spec_sub(self, b),
    {
        if b.num == 0 {
            Some(self)
        } else {
            proof {
                lemma_num_den_product_bound(self.num as int, b.den as int);
                lemma_num_den_product_bound(b.num as int, self.den as int);
            }
            let n1 = wide_mul(self.num, b.den);
            let n2 = wide_mul(b.num, self.den);
            let d = wide_mul(self.den, b.den);
            clamp_pair(n1 - n2, d)
        }
    }

    /// Exact quotient; see [`spec_div`].
    pub fn div(self, b: Rational) -> (r: Option<Rational>)
        requires
            self.wf(),
        ensures
            r == spec_div(self, b),
    {
        if b.num == 0 {
            None
        } else {
            let n0 = wide_mul(self.num, b.den);
            let d0 = wide_mul(self.den, b.num);
            proof {
                lemma_i64_product_in_i128(self.num as int, b.den as int);
                lemma_i64_product_in_i128(self.den as int, b.num as int);
            }
            if b.num > 0 {
                clamp_pair(n0, d0)
            } else {
                clamp_pair(-n0, -d0)
            }
        }
    }

    /// The value truncated toward zero, as a float-to-integer cast rounds.
    pub fn trunc(self) -> (t: i64)
        requires
            self.wf(),
        ensures
            t == spec_trunc(self),
    {
        proof {
            lemma_trunc_div_in_range(self.num as int, self.den as int);
        }
        let q = self.num.checked_div(self.den);
        match q {
            Some(v) => v,
            None => vstd::pervasive::unreached(),
        }
    }

    /// Truncate toward zero and clamp into the 32-bit range, as the
    /// hosts' float-to-`i32` pixel casts do.
    pub fn trunc_sat_i32(self) -> (t: i32)
        requires
            self.wf(),
        ensures
            t == sat_i32(spec_trunc(self)),
    {
        let q = self.trunc();
        if q < i32::MIN as i64 {
            i32::MIN
        } else if q > i32::MAX as i64 {
            i32::MAX
        } else {
            q as i32
        }
    }
}

/// The product of two 64-bit values always fits a 128-bit value.
proof fn lemma_i64_product_in_i128(a: int, b: int)
    by (nonlinear_arith)
    requires
        i64::MIN <= a <= i64::MAX,
        i64::MIN <= b <= i64::MAX,
    ensures
        -0x40000000000000000000000000000000 <= a * b
            <= 0x40000000000000000000000000000000,
{
}

/// A numerator times a positive denominator stays far enough from the
/// 128-bit bounds that two such products can be added.
proof fn lemma_num_den_product_bound(n: int, d: int)
    by (nonlinear_arith)
    requires
        i64::MIN <= n <= i64::MAX,
        1 <= d <= i64::MAX,
    ensures
        -0x3FFFFFFFFFFFFFFF8000000000000000 <= n * d
            <= 0x3FFFFFFFFFFFFFFF8000000000000000,
{
}

/// Truncating division by a positive divisor never leaves the range of
/// its dividend's type.
proof fn lemma_trunc_div_in_range(n: int, d: int)
    by (nonlinear_arith)
    requires
        i64::MIN <= n <= i64::MAX,
        1 <= d <= i64::MAX,
    ensures
        i64::MIN <= trunc_div(n, d) <= i64::MAX,
        n >= 0 ==> 0 <= n / d <= n,
        n < 0 ==> 0 <= (-n) / d <= -n,
{
}

/// The truncated value of a well-formed fraction stays in the 64-bit
/// range of its numerator.
pub proof fn lemma_trunc_in_i64(a: Rational)
    requires
        a.wf(),
    ensures
        in_i64(spec_trunc(a)),
{
    lemma_trunc_div_in_range(a.num as int, a.den as int);
}

/// Widening product of two 64-bit values.
fn wide_mul(a: i64, b: i64) -> (p: i128)
    ensures
        p == a * b,
{
    proof {
        lemma_i64_product_in_i128(a as int, b as int);
    }
    (a as i128) * (b as i128)
}

/// Narrow an exact numerator/denominator pair back to 64 bits, or report
/// that it does not fit.
fn clamp_pair(n: i128, d: i128) -> (r: Option<Rational>)
    ensures
        r == (if in_i64(n as int) && in_i64(d as int) {
            Some(Rational { num: n as i64, den: d as i64 })
        } else {
            None
        }),
{
    if n >= i64::MIN as i128 && n <= i64::MAX as i128 && d >= i64::MIN as i128
        && d <= i64::MAX as i128 {
        Some(Rational { num: n as i64, den: d as i64 })
    } else {
        None
    }
}

/// Multiplying two well-formed fractions keeps the denominator positive.
pub proof fn lemma_mul_wf(a: Rational, b: Rational)
    requires
        a.wf(),
        b.wf(),
    ensures
        spec_mul(a, b) matches Some(c) ==> c.wf(),
{
    vstd::arithmetic::mul::lemma_mul_strictly_positive(a.den as int, b.den as int);
}

/// Adding two well-formed fractions keeps the denominator positive.
pub proof fn lemma_add_wf(a: Rational, b: Rational)
    requires
        a.wf(),
        b.wf(),
    ensures
        spec_add(a, b) matches Some(c) ==> c.wf(),
{
    vstd::arithmetic::mul::lemma_mul_strictly_positive(a.den as int, b.den as int);
}

/// Subtracting two well-formed fractions keeps the denominator positive.
pub proof fn lemma_sub_wf(a: Rational, b: Rational)
    requires
        a.wf(),
        b.wf(),
    ensures
        spec_sub(a, b) matches Some(c) ==> c.wf(),
{
    vstd::arithmetic::mul::lemma_mul_strictly_positive(a.den as int, b.den as int);
}

/// Dividing a well-formed fraction keeps the denominator positive: the
/// sign of the divisor moves into the numerator.
pub proof fn lemma_div_wf(a: Rational, b: Rational)
    requires
        a.wf(),
    ensures
        spec_div(a, b) matches Some(c) ==> c.wf(),
{
    if b.num > 0 {
        vstd::arithmetic::mul::lemma_mul_strictly_positive(a.den as int, b.num as int);
    } else if b.num < 0 {
        vstd::arithmetic::mul::lemma_mul_strictly_positive(a.den as int, -b.num as int);
        assert(a.den * b.num == -(a.den * -b.num)) by (nonlinear_arith);
    }
}

} // verus!
