//! Pose composition for the humanoid model: each animatable piece carries an
//! optional pivot (its joint), and its per-frame placement conjugates a
//! rotation about the vertical axis by translations to and from that pivot,
//! left-multiplied by the shared global placement.

use crate::fixed::fx_abs;
use crate::fixed::fx_mul;
use crate::fixed::fxs;
use crate::fixed::lemma_fxs_bound;
use crate::fixed::FX_ONE;
use crate::mat::identity;
use crate::mat::identity_v;
use crate::mat::lemma_mul_identity_right;
use crate::mat::lemma_mul_v_bound;
use crate::mat::lemma_translation_cancel;
use crate::mat::mat_bounded;
use crate::mat::mat_mul;
use crate::mat::mul_v;
use crate::mat::neg_v;
use crate::mat::rotation_x;
use crate::mat::rotation_x_v;
use crate::mat::rotation_y;
use crate::mat::rotation_y_v;
use crate::mat::translation;
use crate::mat::translation_v;
use crate::mat::vec_bounded;
use crate::mat::vec_neg;
use crate::mat::Mat4;
use crate::mat::Mat4V;
use crate::mat::Vec3Fx;
use crate::mat::Vec3V;
use vstd::prelude::*;

verus! {

/// Magnitude bound accepted for a pivot's components (64 world units).
pub const PIVOT_BOUND: i64 = 0x40_0000;

/// Magnitude bound on the entries of the global placement matrix
/// (128 world units after composition).
pub const GLOBAL_BOUND: i64 = 0x800_0000;

/// Magnitude bound on the entries of a piece's animation matrix.
pub const ANIM_BOUND: i64 = 0x1_0000_0000;

/// Magnitude bound on the entries of a composed limb placement.
pub const LIMB_BOUND: i64 = 0x2000_0000_0000;

/// The swing amplitude: pi/2 in fixed point.
pub const HALF_PI_FX: i64 = 102944;

/// One rigid piece of the model: the pivot about which it swings while
/// walking, or no pivot for the pieces (head, torso) that do not animate.
#[derive(Clone, Copy, Debug, PartialEq, Eq)]
pub struct ModelPiece {
    pub bone: Option<Vec3Fx>,
}

impl ModelPiece {
    /// The pivot as a model value.
    pub open spec fn bone_view(&self) -> Option<Vec3V> {
        match self.bone {
            Some(p) => Some(p@),
            None => None,
        }
    }

    /// A piece is well formed when its pivot, if any, is within
    /// `PIVOT_BOUND`.
    pub open spec fn wf(&self) -> bool {
        match self.bone {
            Some(p) => vec_bounded(p@, PIVOT_BOUND as int),
            None => true,
        }
    }

    /// A piece with the given pivot.
    pub fn new(bone: Option<Vec3Fx>) -> (r: ModelPiece)
        requires
            (bone matches Some(p) ==> vec_bounded(p@, PIVOT_BOUND as int)),
        ensures
            r.bone == bone,
            r.wf(),
    {
        ModelPiece { bone }
    }

    /// The animation matrix of this piece for a swing angle given by its
    /// sine and cosine: `T(pivot) * Ry(angle) * T(-pivot)`, or the identity
    /// when the piece has no pivot.
    pub fn make_anim_matrix(&self, sin_a: i64, cos_a: i64) -> (r: Mat4)
        requires
            self.wf(),
            -FX_ONE <= sin_a <= FX_ONE,
            -FX_ONE <= cos_a <= FX_ONE,
        ensures
            r@ == anim_matrix_v(self.bone_view(), sin_a as int, cos_a as int),
            mat_bounded(r@, ANIM_BOUND as int),
    {
        match &self.bone {
            Some(p) => {
                let t1 = translation(p);
                let ry = rotation_y(sin_a, cos_a);
                let m1 = mat_mul(&t1, &ry);
                let np = vec_neg(p);
                let t2 = translation(&np);
                proof {
                    lemma_mul_v_bound(t1@, ry@, PIVOT_BOUND as int, FX_ONE as int);
                }
                let r = mat_mul(&m1, &t2);
                proof {
                    lemma_mul_v_bound(m1@, t2@, 4 * (PIVOT_BOUND as int), PIVOT_BOUND as int);
                }
                r
            },
            None => identity(),
        }
    }
}

/// The animation matrix of a pivot as a model value: the rotation about the
/// vertical axis conjugated by translations to and from the pivot, or the
/// identity when there is no pivot.
pub open spec fn anim_matrix_v(bone: Option<Vec3V>, s: int, c: int) -> Mat4V {
    match bone {
        Some(p) => mul_v(mul_v(translation_v(p), rotation_y_v(s, c)), translation_v(neg_v(p))),
        None => identity_v(),
    }
}

/// The full placement of a limb: the global placement for a piece with no
/// pivot, and the global placement composed with the animation matrix for a
/// piece with one.
pub open spec fn limb_transform_v(bone: Option<Vec3V>, g: Mat4V, s: int, c: int) -> Mat4V {
    match bone {
        Some(_) => mul_v(g, anim_matrix_v(bone, s, c)),
        None => g,
    }
}

/// The per-frame model matrix of one piece under the shared global
/// placement, for a swing angle given by its sine and cosine.
pub fn limb_transform(piece: &ModelPiece, global: &Mat4, sin_a: i64, cos_a: i64) -> (r: Mat4)
    requires
        piece.wf(),
        mat_bounded(global@, GLOBAL_BOUND as int),
        -FX_ONE <= sin_a <= FX_ONE,
        -FX_ONE <= cos_a <= FX_ONE,
    ensures
        r@ == limb_transform_v(piece.bone_view(), global@, sin_a as int, cos_a as int),
        mat_bounded(r@, LIMB_BOUND as int),
{
    match &piece.bone {
        Some(_) => {
            let anim = piece.make_anim_matrix(sin_a, cos_a);
            let r = mat_mul(global, &anim);
            proof {
                lemma_mul_v_bound(global@, anim@, GLOBAL_BOUND as int, ANIM_BOUND as int);
            }
            r
        },
        None => *global,
    }
}

/// With a swing angle of zero (sine 0, cosine 1) the limb transform is
/// exactly the global placement, pivot or no pivot: the rotation degenerates
/// to the identity and the two pivot translations cancel without any
/// fixed-point loss.
pub proof fn lemma_limb_transform_zero_swing(bone: Option<Vec3V>, g: Mat4V)
    ensures
        limb_transform_v(bone, g, 0, FX_ONE as int) == g,
{
    match bone {
        Some(p) => {
            assert(rotation_y_v(0, FX_ONE as int) == identity_v());
            lemma_mul_identity_right(translation_v(p));
            lemma_translation_cancel(p);
            lemma_mul_identity_right(g);
        },
        None => {},
    }
}

/// The swing angle of a limb for the animation phase's sine: the amplitude
/// is pi/2, and paired limbs use opposite signs.
pub open spec fn swing_angle_v(positive: bool, sin_t: int) -> int {
    if positive {
        fxs(HALF_PI_FX as int, sin_t)
    } else {
        -fxs(HALF_PI_FX as int, sin_t)
    }
}

/// The swing angle of a limb, in fixed-point radians, from the sine of the
/// animation phase. `positive` selects which of the two opposite swing
/// directions the limb uses.
pub fn swing_angle(positive: bool, sin_t: i64) -> (r: i64)
    requires
        -FX_ONE <= sin_t <= FX_ONE,
    ensures
        r == swing_angle_v(positive, sin_t as int),
        -HALF_PI_FX <= r <= HALF_PI_FX,
{
    let m = fx_mul(HALF_PI_FX, sin_t);
    proof {
        lemma_fxs_bound(HALF_PI_FX as int, sin_t as int, HALF_PI_FX as int, FX_ONE as int);
    }
    if positive {
        m
    } else {
        -m
    }
}

/// Paired limbs (the two arms, the two legs) always swing with equal
/// magnitude and opposite sign for the same animation phase.
pub proof fn lemma_paired_swing_opposite(sin_t: int)
    ensures
        swing_angle_v(false, sin_t) == -swing_angle_v(true, sin_t),
        fx_abs(swing_angle_v(false, sin_t)) == fx_abs(swing_angle_v(true, sin_t)),
{
}

/// The four swing angles of one frame, in the order left arm, right arm,
/// left leg, right leg. The left arm and the right leg swing one way, the
/// right arm and the left leg the other, so each pair's angles are equal in
/// magnitude and opposite in sign.
pub fn limb_swing_angles(sin_t: i64) -> (r: (i64, i64, i64, i64))
    requires
        -FX_ONE <= sin_t <= FX_ONE,
    ensures
        r.0 == swing_angle_v(false, sin_t as int),
        r.1 == swing_angle_v(true, sin_t as int),
        r.2 == swing_angle_v(true, sin_t as int),
        r.3 == swing_angle_v(false, sin_t as int),
        r.0 == -r.1,
        r.2 == -r.3,
{
    proof {
        lemma_paired_swing_opposite(sin_t as int);
    }
    let neg = swing_angle(false, sin_t);
    let pos = swing_angle(true, sin_t);
    (neg, pos, pos, neg)
}

/// The fixed global placement shared by all pieces: the orientation fix
/// (quarter turns about the vertical and horizontal axes, whose sines and
/// cosines are exact in fixed point) followed by the world offset.
pub open spec fn global_placement_v() -> Mat4V {
    mul_v(
        mul_v(
            translation_v(Vec3V { x: 0, y: 16 * (FX_ONE as int), z: 100 * (FX_ONE as int) }),
            rotation_y_v(FX_ONE as int, 0),
        ),
        rotation_x_v(-(FX_ONE as int), 0),
    )
}

/// The global placement as a matrix value.
pub fn global_placement() -> (r: Mat4)
    ensures
        r@ == global_placement_v(),
        mat_bounded(r@, GLOBAL_BOUND as int),
{
    let offset = Vec3Fx { x: 0, y: 16 * FX_ONE, z: 100 * FX_ONE };
    let t = translation(&offset);
    let ry = rotation_y(FX_ONE, 0);
    let rx = rotation_x(-FX_ONE, 0);
    let m1 = mat_mul(&t, &ry);
    proof {
        lemma_mul_v_bound(t@, ry@, 100 * (FX_ONE as int), FX_ONE as int);
    }
    let r = mat_mul(&m1, &rx);
    proof {
        lemma_mul_v_bound(m1@, rx@, 4 * (100 * (FX_ONE as int)), FX_ONE as int);
    }
    r
}

} // verus!
