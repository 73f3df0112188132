//! Perspective projection: fixed field of view of pi/3, near plane 0.1,
//! far plane 1024. Only the horizontal scale term depends on the
//! framebuffer's aspect ratio, which is recomputed every frame from the
//! current width and height.

use crate::mat::Mat4;
use crate::mat::Mat4V;
use vstd::arithmetic::div_mod::lemma_div_nonincreasing;
use vstd::arithmetic::div_mod::lemma_div_pos_is_pos;
use vstd::prelude::*;

verus! {

/// The vertical focal scale `1 / tan(fov / 2)` for a field of view of pi/3:
/// the square root of three, in fixed point.
pub const PROJ_F: i64 = 113512;

/// The depth-range scale `-(far + near) / (far - near)` in fixed point, for
/// near 0.1 and far 1024.
pub const PROJ_ZA: i64 = -65549;

/// The depth-range offset `-2 * far * near / (far - near)` in fixed point,
/// for near 0.1 and far 1024.
pub const PROJ_ZB: i64 = -13108;

/// The fixed-point unit, locally: the perspective divide term is -1.
pub const PROJ_W: i64 = 65536;

/// The projection matrix as a model value. The horizontal scale divides the
/// focal scale by the aspect ratio `width / height`; every other entry is a
/// constant.
pub open spec fn projection_v(width: int, height: int) -> Mat4V {
    Mat4V {
        m00: ((PROJ_F as int) * height) / width,
        m01: 0,
        m02: 0,
        m03: 0,
        m10: 0,
        m11: PROJ_F as int,
        m12: 0,
        m13: 0,
        m20: 0,
        m21: 0,
        m22: PROJ_ZA as int,
        m23: PROJ_ZB as int,
        m30: 0,
        m31: 0,
        m32: -(PROJ_W as int),
        m33: 0,
    }
}

/// The projection matrix for the current framebuffer size.
pub fn projection_matrix(width: u32, height: u32) -> (r: Mat4)
    requires
        1 <= width,
    ensures
        r@ == projection_v(width as int, height as int),
{
    let num: u64 = (PROJ_F as u64) * (height as u64);
    let q: u64 = num / (width as u64);
    proof {
        lemma_div_nonincreasing(num as int, width as int);
        lemma_div_pos_is_pos(num as int, width as int);
    }
    let m00: i64 = q as i64;
    Mat4 {
        m00,
        m01: 0,
        m02: 0,
        m03: 0,
        m10: 0,
        m11: PROJ_F,
        m12: 0,
        m13: 0,
        m20: 0,
        m21: 0,
        m22: PROJ_ZA,
        m23: PROJ_ZB,
        m30: 0,
        m31: 0,
        m32: -PROJ_W,
        m33: 0,
    }
}

/// Resizing the framebuffer changes only the projection's horizontal scale
/// term: every entry other than the top-left one is the same for any two
/// framebuffer sizes. The model and view matrices take no part in this at
/// all: they are functions of other inputs entirely.
pub proof fn lemma_projection_aspect_only(w1: int, h1: int, w2: int, h2: int)
    ensures
        projection_v(w1, h1).m01 == projection_v(w2, h2).m01,
        projection_v(w1, h1).m02 == projection_v(w2, h2).m02,
        projection_v(w1, h1).m03 == projection_v(w2, h2).m03,
        projection_v(w1, h1).m10 == projection_v(w2, h2).m10,
        projection_v(w1, h1).m11 == projection_v(w2, h2).m11,
        projection_v(w1, h1).m12 == projection_v(w2, h2).m12,
        projection_v(w1, h1).m13 == projection_v(w2, h2).m13,
        projection_v(w1, h1).m20 == projection_v(w2, h2).m20,
        projection_v(w1, h1).m21 == projection_v(w2, h2).m21,
        projection_v(w1, h1).m22 == projection_v(w2, h2).m22,
        projection_v(w1, h1).m23 == projection_v(w2, h2).m23,
        projection_v(w1, h1).m30 == projection_v(w2, h2).m30,
        projection_v(w1, h1).m31 == projection_v(w2, h2).m31,
        projection_v(w1, h1).m32 == projection_v(w2, h2).m32,
        projection_v(w1, h1).m33 == projection_v(w2, h2).m33,
{
}

} // verus!
