//! Exact rational scalars and 4x4 matrices.
//!
//! The renderer's camera math is carried out over exact rationals rather than
//! machine floats: every binary floating-point value is a dyadic rational, so
//! a rational scalar loses nothing, and matrix identities (where the near and
//! far planes land, where the camera maps to) become provable algebra instead
//! of rounding folklore.  A scalar is a numerator/denominator pair of `i128`
//! with a positive denominator; fractions are not reduced, and equality of
//! values is cross-multiplication.

use vstd::prelude::*;

verus! {

/// An exact rational scalar `n / d`.  Well-formed values keep `d > 0`.
/// Fractions are left unreduced; compare values with [`seqv`] on views.
#[derive(Clone, Copy, Debug, PartialEq, Eq, Structural)]
pub struct Rat {
    pub n: i128,
    pub d: i128,
}

/// The mathematical value of a [`Rat`]: an unbounded rational, again as a
/// numerator/denominator pair.
pub struct SRat {
    pub n: int,
    pub d: int,
}

impl View for Rat {
    type V = SRat;

    open spec fn view(&self) -> SRat {
        SRat { n: self.n as int, d: self.d as int }
    }
}

impl Rat {
    /// Well-formedness: the denominator is positive.
    pub open spec fn wf(self) -> bool {
        0 < self.d
    }

    /// The scalar lies within magnitude `b` in both components.
    pub open spec fn fits(self, b: int) -> bool {
        &&& -b <= self.n <= b
        &&& 0 < self.d <= b
    }
}

/// The rational value of the integer `i`.
pub open spec fn s_int(i: int) -> SRat {
    SRat { n: i, d: 1 }
}

/// Well-formedness of a spec rational: nonzero denominator.
pub open spec fn swf(a: SRat) -> bool {
    a.d != 0
}

/// Value equality of two rationals, by cross-multiplication.
pub open spec fn seqv(a: SRat, b: SRat) -> bool {
    a.n * b.d == b.n * a.d
}

/// Sum of two rationals, unreduced.
pub open spec fn sadd(a: SRat, b: SRat) -> SRat {
    SRat { n: a.n * b.d + b.n * a.d, d: a.d * b.d }
}

/// Difference of two rationals, unreduced.
pub open spec fn ssub(a: SRat, b: SRat) -> SRat {
    SRat { n: a.n * b.d - b.n * a.d, d: a.d * b.d }
}

/// Product of two rationals, unreduced.
pub open spec fn smul(a: SRat, b: SRat) -> SRat {
    SRat { n: a.n * b.n, d: a.d * b.d }
}

/// Quotient of two rationals, unreduced.  Meaningful when `b.n != 0`.
pub open spec fn sdiv(a: SRat, b: SRat) -> SRat {
    SRat { n: a.n * b.d, d: a.d * b.n }
}

/// Negation of a rational.
pub open spec fn sneg(a: SRat) -> SRat {
    SRat { n: -a.n, d: a.d }
}

/// The rational `a` denotes a value strictly less than `b` (both well-formed
/// with positive denominators).
pub open spec fn slt(a: SRat, b: SRat) -> bool {
    a.n * b.d < b.n * a.d
}

/// Largest magnitude the components of an arithmetic operand may reach so
/// that the operation stays inside `i128`: `2^125`.
pub const RAT_OP_MAX: i128 = 0x2000000000000000000000000000000;

/// The spec rational lies within magnitude `b` in both components, with a
/// positive denominator.
pub open spec fn sfits(a: SRat, b: int) -> bool {
    &&& -b <= a.n <= b
    &&& 0 < a.d <= b
}

/// Operands within `ba` and `bb` with `ba * bb` under [`RAT_OP_MAX`] make
/// every product an exact arithmetic operation needs representable.
pub proof fn lemma_rat_op_safe(a: Rat, b: Rat, ba: int, bb: int)
    by (nonlinear_arith)
    requires
        sfits(a@, ba),
        sfits(b@, bb),
        ba * bb <= RAT_OP_MAX as int,
    ensures
        -RAT_OP_MAX <= a.n * b.d <= RAT_OP_MAX,
        -RAT_OP_MAX <= b.n * a.d <= RAT_OP_MAX,
        -RAT_OP_MAX <= a.n * b.n <= RAT_OP_MAX,
        0 < a.d * b.d <= RAT_OP_MAX,
        -RAT_OP_MAX <= a.d * b.n <= RAT_OP_MAX,
{
}

/// A sum or difference of bounded rationals is bounded.
pub proof fn lemma_sadd_fits(a: SRat, b: SRat, ba: int, bb: int)
    by (nonlinear_arith)
    requires
        sfits(a, ba),
        sfits(b, bb),
    ensures
        sfits(sadd(a, b), 2 * (ba * bb)),
        sfits(ssub(a, b), 2 * (ba * bb)),
{
}

/// A product of bounded rationals is bounded.
pub proof fn lemma_smul_fits(a: SRat, b: SRat, ba: int, bb: int)
    by (nonlinear_arith)
    requires
        sfits(a, ba),
        sfits(b, bb),
    ensures
        sfits(smul(a, b), ba * bb),
{
}

/// A quotient of bounded rationals (positive divisor) is bounded.
pub proof fn lemma_sdiv_fits(a: SRat, b: SRat, ba: int, bb: int)
    by (nonlinear_arith)
    requires
        sfits(a, ba),
        sfits(b, bb),
        0 < b.n,
    ensures
        sfits(sdiv(a, b), ba * bb),
{
}

/// Rational multiplication commutes.
pub proof fn lemma_smul_comm(a: SRat, b: SRat)
    by (nonlinear_arith)
    ensures
        smul(a, b) == smul(b, a),
{
}

/// Bound on a product of two bounded factors.
pub proof fn lemma_mul_bound(x: int, y: int, bx: int, by: int)
    by (nonlinear_arith)
    requires
        -bx <= x <= bx,
        -by <= y <= by,
    ensures
        -(bx * by) <= x * y <= bx * by,
{
}

/// A product of positive factors is positive.
pub proof fn lemma_mul_pos(x: int, y: int)
    by (nonlinear_arith)
    requires
        0 < x,
        0 < y,
    ensures
        0 < x * y,
{
}

/// Exact rational addition.
pub fn rat_add(a: Rat, b: Rat) -> (r: Rat)
    requires
        a.wf(),
        b.wf(),
        -RAT_OP_MAX <= a.n * b.d <= RAT_OP_MAX,
        -RAT_OP_MAX <= b.n * a.d <= RAT_OP_MAX,
        a.d * b.d <= RAT_OP_MAX,
    ensures
        r@ == sadd(a@, b@),
        r.wf(),
{
    proof {
        lemma_mul_pos(a.d as int, b.d as int);
    }
    Rat { n: a.n * b.d + b.n * a.d, d: a.d * b.d }
}

/// Exact rational subtraction.
pub fn rat_sub(a: Rat, b: Rat) -> (r: Rat)
    requires
        a.wf(),
        b.wf(),
        -RAT_OP_MAX <= a.n * b.d <= RAT_OP_MAX,
        -RAT_OP_MAX <= b.n * a.d <= RAT_OP_MAX,
        a.d * b.d <= RAT_OP_MAX,
    ensures
        r@ == ssub(a@, b@),
        r.wf(),
{
    proof {
        lemma_mul_pos(a.d as int, b.d as int);
    }
    Rat { n: a.n * b.d - b.n * a.d, d: a.d * b.d }
}

/// Exact rational multiplication.
pub fn rat_mul(a: Rat, b: Rat) -> (r: Rat)
    requires
        a.wf(),
        b.wf(),
        -RAT_OP_MAX <= a.n * b.n <= RAT_OP_MAX,
        a.d * b.d <= RAT_OP_MAX,
    ensures
        r@ == smul(a@, b@),
        r.wf(),
{
    proof {
        lemma_mul_pos(a.d as int, b.d as int);
    }
    Rat { n: a.n * b.n, d: a.d * b.d }
}

/// Exact rational division by a strictly positive divisor.
pub fn rat_div(a: Rat, b: Rat) -> (r: Rat)
    requires
        a.wf(),
        b.wf(),
        0 < b.n,
        -RAT_OP_MAX <= a.n * b.d <= RAT_OP_MAX,
        a.d * b.n <= RAT_OP_MAX,
    ensures
        r@ == sdiv(a@, b@),
        r.wf(),
{
    proof {
        lemma_mul_pos(a.d as int, b.n as int);
    }
    Rat { n: a.n * b.d, d: a.d * b.n }
}

/// Exact rational negation.
pub fn rat_neg(a: Rat) -> (r: Rat)
    requires
        a.wf(),
        -RAT_OP_MAX <= a.n <= RAT_OP_MAX,
    ensures
        r@ == sneg(a@),
        r.wf(),
{
    Rat { n: -a.n, d: a.d }
}

/// The rational holding the integer `i`.
pub fn rat_int(i: i64) -> (r: Rat)
    ensures
        r@ == s_int(i as int),
        r.wf(),
{
    Rat { n: i as i128, d: 1 }
}

/// A column of four scalars.
#[derive(Clone, Copy, Debug, PartialEq, Eq, Structural)]
pub struct Vec4 {
    pub x: Rat,
    pub y: Rat,
    pub z: Rat,
    pub w: Rat,
}

/// The value of a [`Vec4`].
pub struct SVec4 {
    pub x: SRat,
    pub y: SRat,
    pub z: SRat,
    pub w: SRat,
}

impl View for Vec4 {
    type V = SVec4;

    open spec fn view(&self) -> SVec4 {
        SVec4 { x: self.x@, y: self.y@, z: self.z@, w: self.w@ }
    }
}

impl Vec4 {
    pub open spec fn wf(self) -> bool {
        self.x.wf() && self.y.wf() && self.z.wf() && self.w.wf()
    }
}

/// A 4x4 matrix in column-major layout: `c0` through `c3` are the columns,
/// matching the nested-array layout the graphics layer expects.
#[derive(Clone, Copy, Debug, PartialEq, Eq, Structural)]
pub struct Mat4 {
    pub c0: Vec4,
    pub c1: Vec4,
    pub c2: Vec4,
    pub c3: Vec4,
}

/// The value of a [`Mat4`].
pub struct SMat4 {
    pub c0: SVec4,
    pub c1: SVec4,
    pub c2: SVec4,
    pub c3: SVec4,
}

impl View for Mat4 {
    type V = SMat4;

    open spec fn view(&self) -> SMat4 {
        SMat4 { c0: self.c0@, c1: self.c1@, c2: self.c2@, c3: self.c3@ }
    }
}

impl Mat4 {
    pub open spec fn wf(self) -> bool {
        self.c0.wf() && self.c1.wf() && self.c2.wf() && self.c3.wf()
    }
}

/// First coordinate of `m` applied to the homogeneous point `p`
/// (column-major: the image is `p.x*c0 + p.y*c1 + p.z*c2 + p.w*c3`).
pub open spec fn sxform_x(m: SMat4, p: SVec4) -> SRat {
    sadd(sadd(sadd(smul(p.x, m.c0.x), smul(p.y, m.c1.x)), smul(p.z, m.c2.x)), smul(p.w, m.c3.x))
}

/// Second coordinate of `m` applied to `p`.
pub open spec fn sxform_y(m: SMat4, p: SVec4) -> SRat {
    sadd(sadd(sadd(smul(p.x, m.c0.y), smul(p.y, m.c1.y)), smul(p.z, m.c2.y)), smul(p.w, m.c3.y))
}

/// Third coordinate of `m` applied to `p`.
pub open spec fn sxform_z(m: SMat4, p: SVec4) -> SRat {
    sadd(sadd(sadd(smul(p.x, m.c0.z), smul(p.y, m.c1.z)), smul(p.z, m.c2.z)), smul(p.w, m.c3.z))
}

/// Fourth (clip `w`) coordinate of `m` applied to `p`.
pub open spec fn sxform_w(m: SMat4, p: SVec4) -> SRat {
    sadd(sadd(sadd(smul(p.x, m.c0.w), smul(p.y, m.c1.w)), smul(p.z, m.c2.w)), smul(p.w, m.c3.w))
}

} // verus!
