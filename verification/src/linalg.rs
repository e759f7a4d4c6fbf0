//! Homogeneous 4-vectors and row-major 4×4 matrices over exact fractions.
//!
//! The multiply convention matches the host cameras: the vector is a row
//! vector multiplied on the left, `out[i] = Σ_j v[j] * m[j*4 + i]`.
//! Getting the transpose wrong silently mirrors the scene instead of
//! crashing, so the convention is pinned down by the contracts here and
//! exercised by the identity law.

use crate::rational::{spec_add, spec_mul, spec_one, spec_zero, Rational};
use vstd::prelude::*;

verus! {

/// A homogeneous coordinate `[x, y, z, w]`.
#[derive(Clone, Copy, Debug)]
pub struct Vec4 {
    pub x: Rational,
    pub y: Rational,
    pub z: Rational,
    pub w: Rational,
}

impl Vec4 {
    pub open spec fn wf(self) -> bool {
        self.x.wf() && self.y.wf() && self.z.wf() && self.w.wf()
    }

    /// Spec-level component access by index, in `[x, y, z, w]` order.
    pub open spec fn spec_comp(self, j: int) -> Rational {
        if j == 0 {
            self.x
        } else if j == 1 {
            self.y
        } else if j == 2 {
            self.z
        } else {
            self.w
        }
    }

    pub fn new(x: Rational, y: Rational, z: Rational, w: Rational) -> (v: Vec4)
        ensures
            v == (Vec4 { x, y, z, w }),
    {
        Vec4 { x, y, z, w }
    }
}

/// A row-major 4×4 matrix: entry `(row j, column i)` is `e[j*4 + i]`.
#[derive(Clone, Copy, Debug)]
pub struct Mat4 {
    pub e: [Rational; 16],
}

impl Mat4 {
    pub open spec fn wf(self) -> bool {
        forall|k: int| 0 <= k < 16 ==> #[trigger] self.e[k].wf()
    }

    pub fn new(e: [Rational; 16]) -> (m: Mat4)
        ensures
            m == (Mat4 { e }),
    {
        Mat4 { e }
    }

    /// The matrix whose diagonal entries are one and whose remaining
    /// entries are zero, each in lowest terms.
    pub open spec fn is_identity(self) -> bool {
        &&& self.e[0] == spec_one()
        &&& self.e[1] == spec_zero()
        &&& self.e[2] == spec_zero()
        &&& self.e[3] == spec_zero()
        &&& self.e[4] == spec_zero()
        &&& self.e[5] == spec_one()
        &&& self.e[6] == spec_zero()
        &&& self.e[7] == spec_zero()
        &&& self.e[8] == spec_zero()
        &&& self.e[9] == spec_zero()
        &&& self.e[10] == spec_one()
        &&& self.e[11] == spec_zero()
        &&& self.e[12] == spec_zero()
        &&& self.e[13] == spec_zero()
        &&& self.e[14] == spec_zero()
        &&& self.e[15] == spec_one()
    }

    /// The identity matrix.
    pub fn identity() -> (m: Mat4)
        ensures
            m.is_identity(),
            m.wf(),
    {
        let o = Rational { num: 1, den: 1 };
        let z = Rational { num: 0, den: 1 };
        let m = Mat4 { e: [o, z, z, z, z, o, z, z, z, z, o, z, z, z, z, o] };
        proof {
            assert forall|k: int| 0 <= k < 16 implies #[trigger] m.e[k].wf() by {
                assert(o.wf() && z.wf());
            }
        }
        m
    }
}

/// Sum of two optional fractions; `None` is absorbing, as an overflow
/// anywhere in a chain poisons the whole chain.
pub open spec fn opt_add(a: Option<Rational>, b: Option<Rational>) -> Option<Rational> {
    match (a, b) {
        (Some(x), Some(y)) => spec_add(x, y),
        _ => None,
    }
}

/// The dot product of the vector with matrix column `i`:
/// `v.x*m[i] + v.y*m[4+i] + v.z*m[8+i] + v.w*m[12+i]`, left to right.
pub open spec fn spec_dot_col(m: Mat4, v: Vec4, i: int) -> Option<Rational> {
    let t0 = spec_mul(v.x, m.e[i]);
    let t1 = spec_mul(v.y, m.e[4 + i]);
    let t2 = spec_mul(v.z, m.e[8 + i]);
    let t3 = spec_mul(v.w, m.e[12 + i]);
    opt_add(opt_add(opt_add(t0, t1), t2), t3)
}

/// The row-vector product of `v` and `m`, component by component.
pub open spec fn spec_mat_vec_mul(m: Mat4, v: Vec4) -> Option<Vec4> {
    match (
        spec_dot_col(m, v, 0),
        spec_dot_col(m, v, 1),
        spec_dot_col(m, v, 2),
        spec_dot_col(m, v, 3),
    ) {
        (Some(x), Some(y), Some(z), Some(w)) => Some(Vec4 { x, y, z, w }),
        _ => None,
    }
}

/// One term of the dot product, with its well-formedness carried along.
fn term(m: &Mat4, v: &Vec4, j: usize, i: usize) -> (t: Option<Rational>)
    requires
        j < 4,
        i < 4,
        m.wf(),
        v.wf(),
    ensures
        t == spec_mul(v.spec_comp(j as int), m.e[(j * 4 + i) as int]),
        t matches Some(q) ==> q.wf(),
{
    let c = match j {
        0 => v.x,
        1 => v.y,
        2 => v.z,
        _ => v.w,
    };
    let r = c.mul(m.e[j * 4 + i]);
    proof {
        crate::rational::lemma_mul_wf(v.spec_comp(j as int), m.e[(j * 4 + i) as int]);
    }
    r
}

/// The dot product of `v` with column `i` of `m`; `None` on 64-bit
/// overflow of any partial result.
fn dot_col(m: &Mat4, v: &Vec4, i: usize) -> (r: Option<Rational>)
    requires
        i < 4,
        m.wf(),
        v.wf(),
    ensures
        r == spec_dot_col(*m, *v, i as int),
        r matches Some(q) ==> q.wf(),
{
    let t0 = match term(m, v, 0, i) {
        Some(t) => t,
        None => {
            return None;
        },
    };
    let t1 = match term(m, v, 1, i) {
        Some(t) => t,
        None => {
            return None;
        },
    };
    let t2 = match term(m, v, 2, i) {
        Some(t) => t,
        None => {
            return None;
        },
    };
    let t3 = match term(m, v, 3, i) {
        Some(t) => t,
        None => {
            return None;
        },
    };
    proof {
        crate::rational::lemma_add_wf(t0, t1);
    }
    let s1 = match t0.add(t1) {
        Some(s) => s,
        None => {
            return None;
        },
    };
    proof {
        crate::rational::lemma_add_wf(s1, t2);
    }
    let s2 = match s1.add(t2) {
        Some(s) => s,
        None => {
            return None;
        },
    };
    proof {
        crate::rational::lemma_add_wf(s2, t3);
    }
    s2.add(t3)
}

/// Multiply the row vector `v` by the row-major matrix `m`:
/// `out[i] = Σ_j v[j] * m[j*4 + i]`.  Pure arithmetic: the only failure
/// is 64-bit overflow of an exact intermediate, reported as `None`.
pub fn mat_vec_mul(m: &Mat4, v: &Vec4) -> (r: Option<Vec4>)
    requires
        m.wf(),
        v.wf(),
    ensures
        r == spec_mat_vec_mul(*m, *v),
        r matches Some(u) ==> u.wf(),
{
    let x = match dot_col(m, v, 0) {
        Some(c) => c,
        None => {
            return None;
        },
    };
    let y = match dot_col(m, v, 1) {
        Some(c) => c,
        None => {
            return None;
        },
    };
    let z = match dot_col(m, v, 2) {
        Some(c) => c,
        None => {
            return None;
        },
    };
    match dot_col(m, v, 3) {
        Some(w) => Some(Vec4 { x, y, z, w }),
        None => None,
    }
}

/// Multiplying a fraction by one returns it unchanged.
pub proof fn lemma_mul_one(a: Rational)
    ensures
        spec_mul(a, spec_one()) == Some(a),
{
    assert(a.num * 1 == a.num);
    assert(a.den * 1 == a.den);
    assert((Rational { num: a.num, den: a.den }) == a);
}

/// Multiplying a fraction by zero gives zero over the same denominator.
pub proof fn lemma_mul_zero(a: Rational)
    ensures
        spec_mul(a, spec_zero()) == Some(Rational { num: 0, den: a.den }),
{
    assert(a.num * 0 == 0);
    assert(a.den * 1 == a.den);
}

/// Multiplying any well-formed vector by the identity matrix succeeds —
/// no overflow is possible — and returns the input vector unchanged in
/// value, component by component.  (The representation of a zero
/// component may pick up another positive denominator; the value never
/// changes.)
pub proof fn lemma_identity_mat_vec(m: Mat4, v: Vec4)
    requires
        m.is_identity(),
        v.wf(),
    ensures
        spec_mat_vec_mul(m, v) is Some,
        spec_mat_vec_mul(m, v) matches Some(u) ==> u.wf() && u.x.same_value(v.x)
            && u.y.same_value(v.y) && u.z.same_value(v.z) && u.w.same_value(v.w),
{
    lemma_mul_one(v.x);
    lemma_mul_one(v.y);
    lemma_mul_one(v.z);
    lemma_mul_one(v.w);
    lemma_mul_zero(v.x);
    lemma_mul_zero(v.y);
    lemma_mul_zero(v.z);
    lemma_mul_zero(v.w);
    let o = Rational { num: 0i64, den: v.x.den };
    assert(spec_dot_col(m, v, 0) == Some(v.x));
    if v.y.num == 0 {
        assert(spec_dot_col(m, v, 1) == Some(o));
        assert(o.same_value(v.y));
    } else {
        assert(spec_dot_col(m, v, 1) == Some(v.y));
    }
    if v.z.num == 0 {
        assert(spec_dot_col(m, v, 2) == Some(o));
        assert(o.same_value(v.z));
    } else {
        assert(spec_dot_col(m, v, 2) == Some(v.z));
    }
    if v.w.num == 0 {
        assert(spec_dot_col(m, v, 3) == Some(o));
        assert(o.same_value(v.w));
    } else {
        assert(spec_dot_col(m, v, 3) == Some(v.w));
    }
    assert(v.x.same_value(v.x));
    assert(v.y.same_value(v.y));
    assert(v.z.same_value(v.z));
    assert(v.w.same_value(v.w));
}

} // verus!
