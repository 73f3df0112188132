//! Camera composition: the view matrix orbits the viewpoint about a fixed
//! look-at point by the accumulated yaw and pitch angles, conjugating the
//! rotations by translations to and from that point (pitch applied after
//! yaw in the matrix chain).

use crate::fixed::FX_ONE;
use crate::mat::identity_v;
use crate::mat::lemma_mul_identity_right;
use crate::mat::lemma_mul_v_bound;
use crate::mat::lemma_translation_cancel;
use crate::mat::mat_bounded;
use crate::mat::mat_mul;
use crate::mat::mul_v;
use crate::mat::neg_v;
use crate::mat::rotation_x;
use crate::mat::rotation_x_v;
use crate::mat::rotation_y;
use crate::mat::rotation_y_v;
use crate::mat::translation;
use crate::mat::translation_v;
use crate::mat::vec_bounded;
use crate::mat::vec_neg;
use crate::mat::Mat4;
use crate::mat::Mat4V;
use crate::mat::Vec3Fx;
use crate::mat::Vec3V;
use vstd::prelude::*;

verus! {

/// Magnitude bound accepted for the orbit center's components
/// (128 world units).
pub const CENTER_BOUND: i64 = 0x80_0000;

/// Magnitude bound on the entries of a view matrix.
pub const VIEW_BOUND: i64 = 0x10_0000_0000;

/// The view matrix as a model value:
/// `T(center) * Rx(pitch) * Ry(yaw) * T(-center)`.
pub open spec fn view_matrix_v(center: Vec3V, sy: int, cy: int, sx: int, cx: int) -> Mat4V {
    mul_v(
        mul_v(mul_v(translation_v(center), rotation_x_v(sx, cx)), rotation_y_v(sy, cy)),
        translation_v(neg_v(center)),
    )
}

/// The view matrix that orbits the camera about `center` by the yaw and
/// pitch angles, each given as its sine and cosine. The angles are
/// unbounded accumulators upstream; only their sines and cosines enter
/// here, so no clamping applies.
pub fn view_matrix(center: &Vec3Fx, sin_yaw: i64, cos_yaw: i64, sin_pitch: i64, cos_pitch: i64) -> (r:
    Mat4)
    requires
        vec_bounded(center@, CENTER_BOUND as int),
        -FX_ONE <= sin_yaw <= FX_ONE,
        -FX_ONE <= cos_yaw <= FX_ONE,
        -FX_ONE <= sin_pitch <= FX_ONE,
        -FX_ONE <= cos_pitch <= FX_ONE,
    ensures
        r@ == view_matrix_v(
            center@,
            sin_yaw as int,
            cos_yaw as int,
            sin_pitch as int,
            cos_pitch as int,
        ),
        mat_bounded(r@, VIEW_BOUND as int),
{
    let t1 = translation(center);
    let rx = rotation_x(sin_pitch, cos_pitch);
    let ry = rotation_y(sin_yaw, cos_yaw);
    let nc = vec_neg(center);
    let t2 = translation(&nc);
    let m1 = mat_mul(&t1, &rx);
    proof {
        lemma_mul_v_bound(t1@, rx@, CENTER_BOUND as int, FX_ONE as int);
    }
    let m2 = mat_mul(&m1, &ry);
    proof {
        lemma_mul_v_bound(m1@, ry@, 4 * (CENTER_BOUND as int), FX_ONE as int);
    }
    let r = mat_mul(&m2, &t2);
    proof {
        lemma_mul_v_bound(m2@, t2@, 16 * (CENTER_BOUND as int), CENTER_BOUND as int);
    }
    r
}

/// Orbiting by zero yaw and zero pitch yields no change: the view matrix is
/// exactly the identity, because both rotations degenerate to the identity
/// and the two center translations cancel without any fixed-point loss.
pub proof fn lemma_view_zero_orbit(center: Vec3V)
    ensures
        view_matrix_v(center, 0, FX_ONE as int, 0, FX_ONE as int) == identity_v(),
{
    assert(rotation_x_v(0, FX_ONE as int) == identity_v());
    assert(rotation_y_v(0, FX_ONE as int) == identity_v());
    lemma_mul_identity_right(translation_v(center));
    lemma_translation_cancel(center);
}

} // verus!
