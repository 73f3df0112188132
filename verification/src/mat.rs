//! 4x4 homogeneous transform matrices over fixed-point scalars, row-major.
//! Every executable operation is specified against a mathematical model
//! (`Mat4V`, with unbounded integer entries) so that the pose and camera
//! composition laws can be stated and proved exactly.

use crate::fixed::fx_abs;
use crate::fixed::fx_mul;
use crate::fixed::fxs;
use crate::fixed::lemma_fxs_bound;
use crate::fixed::lemma_fxs_units;
use crate::fixed::FX_ONE;
use crate::fixed::FX_OPERAND_BOUND;
use vstd::prelude::*;

verus! {

/// Mathematical model of a matrix: the sixteen entries as integers,
/// row-major (`mRC` is row R, column C).
pub ghost struct Mat4V {
    pub m00: int,
    pub m01: int,
    pub m02: int,
    pub m03: int,
    pub m10: int,
    pub m11: int,
    pub m12: int,
    pub m13: int,
    pub m20: int,
    pub m21: int,
    pub m22: int,
    pub m23: int,
    pub m30: int,
    pub m31: int,
    pub m32: int,
    pub m33: int,
}

/// A 4x4 matrix of fixed-point scalars, row-major.
#[derive(Clone, Copy, Debug, PartialEq, Eq)]
pub struct Mat4 {
    pub m00: i64,
    pub m01: i64,
    pub m02: i64,
    pub m03: i64,
    pub m10: i64,
    pub m11: i64,
    pub m12: i64,
    pub m13: i64,
    pub m20: i64,
    pub m21: i64,
    pub m22: i64,
    pub m23: i64,
    pub m30: i64,
    pub m31: i64,
    pub m32: i64,
    pub m33: i64,
}

impl View for Mat4 {
    type V = Mat4V;

    open spec fn view(&self) -> Mat4V {
        Mat4V {
            m00: self.m00 as int,
            m01: self.m01 as int,
            m02: self.m02 as int,
            m03: self.m03 as int,
            m10: self.m10 as int,
            m11: self.m11 as int,
            m12: self.m12 as int,
            m13: self.m13 as int,
            m20: self.m20 as int,
            m21: self.m21 as int,
            m22: self.m22 as int,
            m23: self.m23 as int,
            m30: self.m30 as int,
            m31: self.m31 as int,
            m32: self.m32 as int,
            m33: self.m33 as int,
        }
    }
}

/// Mathematical model of a 3-component vector.
pub ghost struct Vec3V {
    pub x: int,
    pub y: int,
    pub z: int,
}

/// A 3-component vector of fixed-point scalars (a point or a pivot).
#[derive(Clone, Copy, Debug, PartialEq, Eq)]
pub struct Vec3Fx {
    pub x: i64,
    pub y: i64,
    pub z: i64,
}

impl View for Vec3Fx {
    type V = Vec3V;

    open spec fn view(&self) -> Vec3V {
        Vec3V { x: self.x as int, y: self.y as int, z: self.z as int }
    }
}

/// Componentwise negation of a vector model.
pub open spec fn neg_v(p: Vec3V) -> Vec3V {
    Vec3V { x: -p.x, y: -p.y, z: -p.z }
}

/// All entries of `m` have magnitude at most `b`.
pub open spec fn mat_bounded(m: Mat4V, b: int) -> bool {
    &&& fx_abs(m.m00) <= b
    &&& fx_abs(m.m01) <= b
    &&& fx_abs(m.m02) <= b
    &&& fx_abs(m.m03) <= b
    &&& fx_abs(m.m10) <= b
    &&& fx_abs(m.m11) <= b
    &&& fx_abs(m.m12) <= b
    &&& fx_abs(m.m13) <= b
    &&& fx_abs(m.m20) <= b
    &&& fx_abs(m.m21) <= b
    &&& fx_abs(m.m22) <= b
    &&& fx_abs(m.m23) <= b
    &&& fx_abs(m.m30) <= b
    &&& fx_abs(m.m31) <= b
    &&& fx_abs(m.m32) <= b
    &&& fx_abs(m.m33) <= b
}

/// All components of `p` have magnitude at most `b`.
pub open spec fn vec_bounded(p: Vec3V, b: int) -> bool {
    &&& fx_abs(p.x) <= b
    &&& fx_abs(p.y) <= b
    &&& fx_abs(p.z) <= b
}

/// The identity transform.
pub open spec fn identity_v() -> Mat4V {
    Mat4V {
        m00: FX_ONE as int,
        m01: 0,
        m02: 0,
        m03: 0,
        m10: 0,
        m11: FX_ONE as int,
        m12: 0,
        m13: 0,
        m20: 0,
        m21: 0,
        m22: FX_ONE as int,
        m23: 0,
        m30: 0,
        m31: 0,
        m32: 0,
        m33: FX_ONE as int,
    }
}

/// Translation by `p`.
pub open spec fn translation_v(p: Vec3V) -> Mat4V {
    Mat4V {
        m00: FX_ONE as int,
        m01: 0,
        m02: 0,
        m03: p.x,
        m10: 0,
        m11: FX_ONE as int,
        m12: 0,
        m13: p.y,
        m20: 0,
        m21: 0,
        m22: FX_ONE as int,
        m23: p.z,
        m30: 0,
        m31: 0,
        m32: 0,
        m33: FX_ONE as int,
    }
}

/// Rotation about the vertical (y) axis, given the sine and cosine of the
/// angle as fixed-point scalars.
pub open spec fn rotation_y_v(s: int, c: int) -> Mat4V {
    Mat4V {
        m00: c,
        m01: 0,
        m02: s,
        m03: 0,
        m10: 0,
        m11: FX_ONE as int,
        m12: 0,
        m13: 0,
        m20: -s,
        m21: 0,
        m22: c,
        m23: 0,
        m30: 0,
        m31: 0,
        m32: 0,
        m33: FX_ONE as int,
    }
}

/// Rotation about the horizontal (x) axis, given the sine and cosine of the
/// angle as fixed-point scalars.
pub open spec fn rotation_x_v(s: int, c: int) -> Mat4V {
    Mat4V {
        m00: FX_ONE as int,
        m01: 0,
        m02: 0,
        m03: 0,
        m10: 0,
        m11: c,
        m12: -s,
        m13: 0,
        m20: 0,
        m21: s,
        m22: c,
        m23: 0,
        m30: 0,
        m31: 0,
        m32: 0,
        m33: FX_ONE as int,
    }
}

/// Fixed-point dot product of a matrix row with a matrix column.
pub open spec fn dot4(a0: int, a1: int, a2: int, a3: int, b0: int, b1: int, b2: int, b3: int) -> int {
    fxs(a0, b0) + fxs(a1, b1) + fxs(a2, b2) + fxs(a3, b3)
}

/// The fixed-point matrix product.
pub open spec fn mul_v(a: Mat4V, b: Mat4V) -> Mat4V {
    Mat4V {
        m00: dot4(a.m00, a.m01, a.m02, a.m03, b.m00, b.m10, b.m20, b.m30),
        m01: dot4(a.m00, a.m01, a.m02, a.m03, b.m01, b.m11, b.m21, b.m31),
        m02: dot4(a.m00, a.m01, a.m02, a.m03, b.m02, b.m12, b.m22, b.m32),
        m03: dot4(a.m00, a.m01, a.m02, a.m03, b.m03, b.m13, b.m23, b.m33),
        m10: dot4(a.m10, a.m11, a.m12, a.m13, b.m00, b.m10, b.m20, b.m30),
        m11: dot4(a.m10, a.m11, a.m12, a.m13, b.m01, b.m11, b.m21, b.m31),
        m12: dot4(a.m10, a.m11, a.m12, a.m13, b.m02, b.m12, b.m22, b.m32),
        m13: dot4(a.m10, a.m11, a.m12, a.m13, b.m03, b.m13, b.m23, b.m33),
        m20: dot4(a.m20, a.m21, a.m22, a.m23, b.m00, b.m10, b.m20, b.m30),
        m21: dot4(a.m20, a.m21, a.m22, a.m23, b.m01, b.m11, b.m21, b.m31),
        m22: dot4(a.m20, a.m21, a.m22, a.m23, b.m02, b.m12, b.m22, b.m32),
        m23: dot4(a.m20, a.m21, a.m22, a.m23, b.m03, b.m13, b.m23, b.m33),
        m30: dot4(a.m30, a.m31, a.m32, a.m33, b.m00, b.m10, b.m20, b.m30),
        m31: dot4(a.m30, a.m31, a.m32, a.m33, b.m01, b.m11, b.m21, b.m31),
        m32: dot4(a.m30, a.m31, a.m32, a.m33, b.m02, b.m12, b.m22, b.m32),
        m33: dot4(a.m30, a.m31, a.m32, a.m33, b.m03, b.m13, b.m23, b.m33),
    }
}

/// The identity transform as a value.
pub fn identity() -> (r: Mat4)
    ensures
        r@ == identity_v(),
        mat_bounded(r@, FX_ONE as int),
{
    Mat4 {
        m00: FX_ONE,
        m01: 0,
        m02: 0,
        m03: 0,
        m10: 0,
        m11: FX_ONE,
        m12: 0,
        m13: 0,
        m20: 0,
        m21: 0,
        m22: FX_ONE,
        m23: 0,
        m30: 0,
        m31: 0,
        m32: 0,
        m33: FX_ONE,
    }
}

/// Translation by `p` as a value.
pub fn translation(p: &Vec3Fx) -> (r: Mat4)
    ensures
        r@ == translation_v(p@),
{
    Mat4 {
        m00: FX_ONE,
        m01: 0,
        m02: 0,
        m03: p.x,
        m10: 0,
        m11: FX_ONE,
        m12: 0,
        m13: p.y,
        m20: 0,
        m21: 0,
        m22: FX_ONE,
        m23: p.z,
        m30: 0,
        m31: 0,
        m32: 0,
        m33: FX_ONE,
    }
}

/// Componentwise negation of a vector.
pub fn vec_neg(p: &Vec3Fx) -> (r: Vec3Fx)
    requires
        vec_bounded(p@, FX_OPERAND_BOUND as int),
    ensures
        r@ == neg_v(p@),
        vec_bounded(r@, FX_OPERAND_BOUND as int),
{
    Vec3Fx { x: -p.x, y: -p.y, z: -p.z }
}

/// Rotation about the vertical axis from the sine and cosine of the angle.
pub fn rotation_y(s: i64, c: i64) -> (r: Mat4)
    requires
        -FX_ONE <= s <= FX_ONE,
        -FX_ONE <= c <= FX_ONE,
    ensures
        r@ == rotation_y_v(s as int, c as int),
        mat_bounded(r@, FX_ONE as int),
{
    Mat4 {
        m00: c,
        m01: 0,
        m02: s,
        m03: 0,
        m10: 0,
        m11: FX_ONE,
        m12: 0,
        m13: 0,
        m20: -s,
        m21: 0,
        m22: c,
        m23: 0,
        m30: 0,
        m31: 0,
        m32: 0,
        m33: FX_ONE,
    }
}

/// Rotation about the horizontal axis from the sine and cosine of the angle.
pub fn rotation_x(s: i64, c: i64) -> (r: Mat4)
    requires
        -FX_ONE <= s <= FX_ONE,
        -FX_ONE <= c <= FX_ONE,
    ensures
        r@ == rotation_x_v(s as int, c as int),
        mat_bounded(r@, FX_ONE as int),
{
    Mat4 {
        m00: FX_ONE,
        m01: 0,
        m02: 0,
        m03: 0,
        m10: 0,
        m11: c,
        m12: -s,
        m13: 0,
        m20: 0,
        m21: s,
        m22: c,
        m23: 0,
        m30: 0,
        m31: 0,
        m32: 0,
        m33: FX_ONE,
    }
}

/// The matrix product. Each entry of the result is exactly the model
/// product's entry; operand entries must be within `FX_OPERAND_BOUND`.
pub fn mat_mul(a: &Mat4, b: &Mat4) -> (r: Mat4)
    requires
        mat_bounded(a@, FX_OPERAND_BOUND as int),
        mat_bounded(b@, FX_OPERAND_BOUND as int),
    ensures
        r@ == mul_v(a@, b@),
{
    let r00: i64 = fx_mul(a.m00, b.m00) + fx_mul(a.m01, b.m10) + fx_mul(a.m02, b.m20) + fx_mul(
        a.m03,
        b.m30,
    );
    let r01: i64 = fx_mul(a.m00, b.m01) + fx_mul(a.m01, b.m11) + fx_mul(a.m02, b.m21) + fx_mul(
        a.m03,
        b.m31,
    );
    let r02: i64 = fx_mul(a.m00, b.m02) + fx_mul(a.m01, b.m12) + fx_mul(a.m02, b.m22) + fx_mul(
        a.m03,
        b.m32,
    );
    let r03: i64 = fx_mul(a.m00, b.m03) + fx_mul(a.m01, b.m13) + fx_mul(a.m02, b.m23) + fx_mul(
        a.m03,
        b.m33,
    );
    let r10: i64 = fx_mul(a.m10, b.m00) + fx_mul(a.m11, b.m10) + fx_mul(a.m12, b.m20) + fx_mul(
        a.m13,
        b.m30,
    );
    let r11: i64 = fx_mul(a.m10, b.m01) + fx_mul(a.m11, b.m11) + fx_mul(a.m12, b.m21) + fx_mul(
        a.m13,
        b.m31,
    );
    let r12: i64 = fx_mul(a.m10, b.m02) + fx_mul(a.m11, b.m12) + fx_mul(a.m12, b.m22) + fx_mul(
        a.m13,
        b.m32,
    );
    let r13: i64 = fx_mul(a.m10, b.m03) + fx_mul(a.m11, b.m13) + fx_mul(a.m12, b.m23) + fx_mul(
        a.m13,
        b.m33,
    );
    let r20: i64 = fx_mul(a.m20, b.m00) + fx_mul(a.m21, b.m10) + fx_mul(a.m22, b.m20) + fx_mul(
        a.m23,
        b.m30,
    );
    let r21: i64 = fx_mul(a.m20, b.m01) + fx_mul(a.m21, b.m11) + fx_mul(a.m22, b.m21) + fx_mul(
        a.m23,
        b.m31,
    );
    let r22: i64 = fx_mul(a.m20, b.m02) + fx_mul(a.m21, b.m12) + fx_mul(a.m22, b.m22) + fx_mul(
        a.m23,
        b.m32,
    );
    let r23: i64 = fx_mul(a.m20, b.m03) + fx_mul(a.m21, b.m13) + fx_mul(a.m22, b.m23) + fx_mul(
        a.m23,
        b.m33,
    );
    let r30: i64 = fx_mul(a.m30, b.m00) + fx_mul(a.m31, b.m10) + fx_mul(a.m32, b.m20) + fx_mul(
        a.m33,
        b.m30,
    );
    let r31: i64 = fx_mul(a.m30, b.m01) + fx_mul(a.m31, b.m11) + fx_mul(a.m32, b.m21) + fx_mul(
        a.m33,
        b.m31,
    );
    let r32: i64 = fx_mul(a.m30, b.m02) + fx_mul(a.m31, b.m12) + fx_mul(a.m32, b.m22) + fx_mul(
        a.m33,
        b.m32,
    );
    let r33: i64 = fx_mul(a.m30, b.m03) + fx_mul(a.m31, b.m13) + fx_mul(a.m32, b.m23) + fx_mul(
        a.m33,
        b.m33,
    );
    Mat4 {
        m00: r00,
        m01: r01,
        m02: r02,
        m03: r03,
        m10: r10,
        m11: r11,
        m12: r12,
        m13: r13,
        m20: r20,
        m21: r21,
        m22: r22,
        m23: r23,
        m30: r30,
        m31: r31,
        m32: r32,
        m33: r33,
    }
}

/// Magnitude bound on a row-column dot product from bounds on its operands.
pub proof fn lemma_dot4_bound(
    a0: int,
    a1: int,
    a2: int,
    a3: int,
    b0: int,
    b1: int,
    b2: int,
    b3: int,
    ba: int,
    bb: int,
)
    requires
        fx_abs(a0) <= ba,
        fx_abs(a1) <= ba,
        fx_abs(a2) <= ba,
        fx_abs(a3) <= ba,
        fx_abs(b0) <= bb,
        fx_abs(b1) <= bb,
        fx_abs(b2) <= bb,
        fx_abs(b3) <= bb,
    ensures
        fx_abs(dot4(a0, a1, a2, a3, b0, b1, b2, b3)) <= 4 * ((ba * bb) / (FX_ONE as int)),
{
    lemma_fxs_bound(a0, b0, ba, bb);
    lemma_fxs_bound(a1, b1, ba, bb);
    lemma_fxs_bound(a2, b2, ba, bb);
    lemma_fxs_bound(a3, b3, ba, bb);
}

/// Entry bound on a matrix product from entry bounds on its operands.
pub proof fn lemma_mul_v_bound(a: Mat4V, b: Mat4V, ba: int, bb: int)
    requires
        mat_bounded(a, ba),
        mat_bounded(b, bb),
    ensures
        mat_bounded(mul_v(a, b), 4 * ((ba * bb) / (FX_ONE as int))),
{
    lemma_dot4_bound(a.m00, a.m01, a.m02, a.m03, b.m00, b.m10, b.m20, b.m30, ba, bb);
    lemma_dot4_bound(a.m00, a.m01, a.m02, a.m03, b.m01, b.m11, b.m21, b.m31, ba, bb);
    lemma_dot4_bound(a.m00, a.m01, a.m02, a.m03, b.m02, b.m12, b.m22, b.m32, ba, bb);
    lemma_dot4_bound(a.m00, a.m01, a.m02, a.m03, b.m03, b.m13, b.m23, b.m33, ba, bb);
    lemma_dot4_bound(a.m10, a.m11, a.m12, a.m13, b.m00, b.m10, b.m20, b.m30, ba, bb);
    lemma_dot4_bound(a.m10, a.m11, a.m12, a.m13, b.m01, b.m11, b.m21, b.m31, ba, bb);
    lemma_dot4_bound(a.m10, a.m11, a.m12, a.m13, b.m02, b.m12, b.m22, b.m32, ba, bb);
    lemma_dot4_bound(a.m10, a.m11, a.m12, a.m13, b.m03, b.m13, b.m23, b.m33, ba, bb);
    lemma_dot4_bound(a.m20, a.m21, a.m22, a.m23, b.m00, b.m10, b.m20, b.m30, ba, bb);
    lemma_dot4_bound(a.m20, a.m21, a.m22, a.m23, b.m01, b.m11, b.m21, b.m31, ba, bb);
    lemma_dot4_bound(a.m20, a.m21, a.m22, a.m23, b.m02, b.m12, b.m22, b.m32, ba, bb);
    lemma_dot4_bound(a.m20, a.m21, a.m22, a.m23, b.m03, b.m13, b.m23, b.m33, ba, bb);
    lemma_dot4_bound(a.m30, a.m31, a.m32, a.m33, b.m00, b.m10, b.m20, b.m30, ba, bb);
    lemma_dot4_bound(a.m30, a.m31, a.m32, a.m33, b.m01, b.m11, b.m21, b.m31, ba, bb);
    lemma_dot4_bound(a.m30, a.m31, a.m32, a.m33, b.m02, b.m12, b.m22, b.m32, ba, bb);
    lemma_dot4_bound(a.m30, a.m31, a.m32, a.m33, b.m03, b.m13, b.m23, b.m33, ba, bb);
}

/// Multiplying by the identity on the right is exact for every matrix.
pub proof fn lemma_mul_identity_right(a: Mat4V)
    ensures
        mul_v(a, identity_v()) == a,
{
    lemma_fxs_units();
}

/// A translation composed with the translation by the opposite vector is
/// exactly the identity: truncation never loses anything here because each
/// entry only multiplies by the unit or by zero.
pub proof fn lemma_translation_cancel(p: Vec3V)
    ensures
        mul_v(translation_v(p), translation_v(neg_v(p))) == identity_v(),
{
    lemma_fxs_units();
}

} // verus!
