//! Exact fixed-point scalars, vectors and matrices.
//!
//! A coordinate is an `i64` holding `value * 65536`; all products are
//! computed in `i128` and truncated toward zero, as a binary fixed-point
//! unit would. The bounds [`MAT_LIMIT`] and [`VEC_LIMIT`] keep every
//! intermediate of a matrix application inside `i64`.

use vstd::prelude::*;

verus! {

use vstd::arithmetic::div_mod::{lemma_div_is_ordered, lemma_div_pos_is_pos};

/// Number of fixed-point units in one whole unit.
pub const FX_ONE: i64 = 65536;

/// One half, in fixed-point units.
pub const FX_HALF: i64 = 32768;

/// Largest magnitude accepted for a matrix entry or an origin coordinate
/// (32768 whole units).
pub const MAT_LIMIT: i64 = 0x8000_0000;

/// Largest magnitude accepted for a coordinate of a vector that a matrix is
/// applied to.
pub const VEC_LIMIT: i64 = 0x10_0000_0000;

/// Largest magnitude of a single product term inside a dot product:
/// `MAT_LIMIT * VEC_LIMIT / FX_ONE`.
pub const TERM_LIMIT: i64 = 0x8_0000_0000_0000;

/// Division truncated toward zero, for a positive divisor.
pub open spec fn div_trunc(x: int, d: int) -> int {
    if x >= 0 {
        x / d
    } else {
        -((-x) / d)
    }
}

/// The exact value of a fixed-point multiplication.
pub open spec fn fmul_spec(a: int, b: int) -> int {
    div_trunc(a * b, FX_ONE as int)
}

/// The magnitude of a product is bounded by the product of the bounds.
pub proof fn lemma_mul_bound(a: int, b: int, al: int, bl: int)
    by (nonlinear_arith)
    requires
        -al <= a <= al,
        -bl <= b <= bl,
        0 <= al,
        0 <= bl,
    ensures
        -(al * bl) <= a * b <= al * bl,
{
}

/// Truncated division keeps a symmetric bound: `|x| <= l` gives
/// `|div_trunc(x, 65536)| <= l / 65536`.
pub proof fn lemma_div_trunc_bound(x: int, l: int)
    requires
        0 <= l,
        -l <= x <= l,
    ensures
        -(l / (FX_ONE as int)) <= div_trunc(x, FX_ONE as int) <= l / (FX_ONE as int),
{
    let d = FX_ONE as int;
    if x >= 0 {
        lemma_div_is_ordered(x, l, d);
        lemma_div_pos_is_pos(x, d);
        lemma_div_pos_is_pos(l, d);
    } else {
        lemma_div_is_ordered(-x, l, d);
        lemma_div_pos_is_pos(-x, d);
        lemma_div_pos_is_pos(l, d);
    }
}

/// Bound on the exact fixed-point product from bounds on its factors.
pub proof fn lemma_fmul_spec_bound(a: int, b: int, al: int, bl: int)
    requires
        -al <= a <= al,
        -bl <= b <= bl,
        0 <= al,
        0 <= bl,
    ensures
        -((al * bl) / (FX_ONE as int)) <= fmul_spec(a, b) <= (al * bl) / (FX_ONE as int),
{
    lemma_mul_bound(a, b, al, bl);
    lemma_mul_bound(al, bl, al, bl);
    lemma_div_trunc_bound(a * b, al * bl);
}

/// Fixed-point multiplication: `a * b / 65536`, truncated toward zero.
pub fn fmul(a: i64, b: i64) -> (r: i64)
    requires
        -MAT_LIMIT <= a <= MAT_LIMIT,
        -VEC_LIMIT <= b <= VEC_LIMIT,
    ensures
        r == fmul_spec(a as int, b as int),
        -TERM_LIMIT <= r <= TERM_LIMIT,
{
    proof {
        lemma_mul_bound(a as int, b as int, MAT_LIMIT as int, VEC_LIMIT as int);
        lemma_fmul_spec_bound(a as int, b as int, MAT_LIMIT as int, VEC_LIMIT as int);
    }
    let p: i128 = (a as i128) * (b as i128);
    if p >= 0 {
        let q: u128 = (p as u128) / 65536;
        proof {
            assert((p as u128) / 65536 == (p as int) / (FX_ONE as int)) by {
                assert(p as u128 == p as int);
            }
        }
        q as i64
    } else {
        let m: i128 = -p;
        let q: u128 = (m as u128) / 65536;
        proof {
            assert((m as u128) / 65536 == (m as int) / (FX_ONE as int)) by {
                assert(m as u128 == m as int);
            }
        }
        -(q as i64)
    }
}

/// A point on the presentation plane, in fixed-point units.
#[derive(Debug, Clone, Copy, PartialEq, Eq, Structural)]
pub struct Vec2 {
    pub x: i64,
    pub y: i64,
}

/// A point or direction in world space, in fixed-point units.
#[derive(Debug, Clone, Copy, PartialEq, Eq, Structural)]
pub struct Vec3 {
    pub x: i64,
    pub y: i64,
    pub z: i64,
}

/// A homogeneous coordinate, in fixed-point units.
#[derive(Debug, Clone, Copy, PartialEq, Eq, Structural)]
pub struct Vec4 {
    pub x: i64,
    pub y: i64,
    pub z: i64,
    pub w: i64,
}

/// A 4x4 matrix of fixed-point entries, stored by rows.
#[derive(Debug, Clone, Copy, PartialEq, Eq, Structural)]
pub struct Mat4 {
    pub r0: Vec4,
    pub r1: Vec4,
    pub r2: Vec4,
    pub r3: Vec4,
}

impl Vec4 {
    /// Every coordinate has magnitude at most `l`.
    pub open spec fn abs_le(self, l: int) -> bool {
        &&& -l <= self.x <= l
        &&& -l <= self.y <= l
        &&& -l <= self.z <= l
        &&& -l <= self.w <= l
    }

    /// The coordinates as unbounded integers.
    pub open spec fn to_ints(self) -> (int, int, int, int) {
        (self.x as int, self.y as int, self.z as int, self.w as int)
    }
}

impl Vec3 {
    /// Every coordinate has magnitude at most `l`.
    pub open spec fn abs_le(self, l: int) -> bool {
        &&& -l <= self.x <= l
        &&& -l <= self.y <= l
        &&& -l <= self.z <= l
    }
}

impl Mat4 {
    /// Every entry has magnitude at most `l`.
    pub open spec fn abs_le(self, l: int) -> bool {
        &&& self.r0.abs_le(l)
        &&& self.r1.abs_le(l)
        &&& self.r2.abs_le(l)
        &&& self.r3.abs_le(l)
    }
}

/// Every component of the integer 4-tuple has magnitude at most `l`.
pub open spec fn tup_abs_le(v: (int, int, int, int), l: int) -> bool {
    &&& -l <= v.0 <= l
    &&& -l <= v.1 <= l
    &&& -l <= v.2 <= l
    &&& -l <= v.3 <= l
}

/// The exact value of the fixed-point dot product of a matrix row with a
/// homogeneous coordinate.
pub open spec fn dot4_spec(r: Vec4, v: (int, int, int, int)) -> int {
    fmul_spec(r.x as int, v.0) + fmul_spec(r.y as int, v.1) + fmul_spec(r.z as int, v.2)
        + fmul_spec(r.w as int, v.3)
}

/// The exact value of a matrix applied to a homogeneous coordinate.
pub open spec fn mat_vec_spec(m: Mat4, v: (int, int, int, int)) -> (int, int, int, int) {
    (dot4_spec(m.r0, v), dot4_spec(m.r1, v), dot4_spec(m.r2, v), dot4_spec(m.r3, v))
}

/// Bound on a fixed-point dot product from bounds on the row and the vector.
pub proof fn lemma_dot4_spec_bound(r: Vec4, v: (int, int, int, int), al: int, bl: int)
    requires
        r.abs_le(al),
        tup_abs_le(v, bl),
        0 <= al,
        0 <= bl,
    ensures
        -4 * ((al * bl) / (FX_ONE as int)) <= dot4_spec(r, v) <= 4 * ((al * bl) / (
        FX_ONE as int)),
{
    lemma_fmul_spec_bound(r.x as int, v.0, al, bl);
    lemma_fmul_spec_bound(r.y as int, v.1, al, bl);
    lemma_fmul_spec_bound(r.z as int, v.2, al, bl);
    lemma_fmul_spec_bound(r.w as int, v.3, al, bl);
}

/// Componentwise bound on a matrix application.
pub proof fn lemma_mat_vec_spec_bound(m: Mat4, v: (int, int, int, int), al: int, bl: int)
    requires
        m.abs_le(al),
        tup_abs_le(v, bl),
        0 <= al,
        0 <= bl,
    ensures
        tup_abs_le(mat_vec_spec(m, v), 4 * ((al * bl) / (FX_ONE as int))),
{
    lemma_dot4_spec_bound(m.r0, v, al, bl);
    lemma_dot4_spec_bound(m.r1, v, al, bl);
    lemma_dot4_spec_bound(m.r2, v, al, bl);
    lemma_dot4_spec_bound(m.r3, v, al, bl);
}

/// Fixed-point dot product of a matrix row with a homogeneous coordinate.
pub fn dot4(r: &Vec4, v: &Vec4) -> (d: i64)
    requires
        r.abs_le(MAT_LIMIT as int),
        v.abs_le(VEC_LIMIT as int),
    ensures
        d == dot4_spec(*r, v.to_ints()),
        -4 * (TERM_LIMIT as int) <= d <= 4 * (TERM_LIMIT as int),
{
    let a = fmul(r.x, v.x);
    let b = fmul(r.y, v.y);
    let c = fmul(r.z, v.z);
    let e = fmul(r.w, v.w);
    a + b + c + e
}

/// Applies a matrix to a homogeneous coordinate, all in fixed point.
pub fn mat_vec(m: &Mat4, v: &Vec4) -> (r: Vec4)
    requires
        m.abs_le(MAT_LIMIT as int),
        v.abs_le(VEC_LIMIT as int),
    ensures
        r.to_ints() == mat_vec_spec(*m, v.to_ints()),
{
    Vec4 { x: dot4(&m.r0, v), y: dot4(&m.r1, v), z: dot4(&m.r2, v), w: dot4(&m.r3, v) }
}

} // verus!
