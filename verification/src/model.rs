//! The player model: six rigid pieces, the current texture (tracked by a
//! generation number, since every load uploads a fresh texture object),
//! whether that texture is the embedded default, and whether a live watch
//! remains on the skin file. A reload replaces the model wholesale; it
//! never patches fields in place.

use crate::fixed::FX_ONE;
use crate::mat::mat_bounded;
use crate::mat::Mat4;
use crate::pose::global_placement;
use crate::pose::global_placement_v;
use crate::pose::limb_transform;
use crate::pose::limb_transform_v;
use crate::pose::ModelPiece;
use crate::pose::LIMB_BOUND;
use crate::skin::skin_action_of;
use crate::skin::skin_load_plan_v;
use crate::skin::skin_update_of;
use crate::skin::SkinLoad;
use crate::skin::WatchEvent;
use vstd::prelude::*;

verus! {

/// The sine and cosine of one limb's swing angle for the current frame.
#[derive(Clone, Copy, Debug, PartialEq, Eq)]
pub struct LimbTrig {
    pub sin: i64,
    pub cos: i64,
}

impl LimbTrig {
    /// Sines and cosines are fixed-point values in [-1, 1].
    pub open spec fn wf(&self) -> bool {
        &&& -FX_ONE <= self.sin <= FX_ONE
        &&& -FX_ONE <= self.cos <= FX_ONE
    }
}

/// The whole humanoid model for one skin load.
#[derive(Clone, Copy, Debug, PartialEq, Eq)]
pub struct PlayerModel {
    pub head: ModelPiece,
    pub torso: ModelPiece,
    pub larm: ModelPiece,
    pub rarm: ModelPiece,
    pub lleg: ModelPiece,
    pub rleg: ModelPiece,
    pub texture_gen: u64,
    pub texture_is_default: bool,
    pub texture_watch: bool,
}

/// The model after a reload: the pieces are kept, the texture is a fresh
/// one (the generation advances), and the default flag and the watch come
/// from the load's outcome.
pub open spec fn apply_reload_v(m: PlayerModel, load: SkinLoad) -> PlayerModel {
    PlayerModel {
        texture_gen: (m.texture_gen + 1) as u64,
        texture_is_default: load.uses_default,
        texture_watch: load.has_watch,
        ..m
    }
}

impl PlayerModel {
    /// All pieces have well-formed pivots.
    pub open spec fn wf(&self) -> bool {
        &&& self.head.wf()
        &&& self.torso.wf()
        &&& self.larm.wf()
        &&& self.rarm.wf()
        &&& self.lleg.wf()
        &&& self.rleg.wf()
    }

    /// A freshly built model for a first load.
    pub fn new(
        head: ModelPiece,
        torso: ModelPiece,
        larm: ModelPiece,
        rarm: ModelPiece,
        lleg: ModelPiece,
        rleg: ModelPiece,
        load: &SkinLoad,
    ) -> (m: PlayerModel)
        ensures
            m.head == head,
            m.torso == torso,
            m.larm == larm,
            m.rarm == rarm,
            m.lleg == lleg,
            m.rleg == rleg,
            m.texture_gen == 0,
            m.texture_is_default == load.uses_default,
            m.texture_watch == load.has_watch,
    {
        PlayerModel {
            head,
            torso,
            larm,
            rarm,
            lleg,
            rleg,
            texture_gen: 0,
            texture_is_default: load.uses_default,
            texture_watch: load.has_watch,
        }
    }

    /// Rebuild the model after a skin load: the replacement is wholesale,
    /// with a fresh texture, so the generation advances by one.
    pub fn apply_reload(&self, load: &SkinLoad) -> (m: PlayerModel)
        requires
            self.texture_gen < u64::MAX,
        ensures
            m == apply_reload_v(*self, *load),
    {
        PlayerModel {
            head: self.head,
            torso: self.torso,
            larm: self.larm,
            rarm: self.rarm,
            lleg: self.lleg,
            rleg: self.rleg,
            texture_gen: self.texture_gen + 1,
            texture_is_default: load.uses_default,
            texture_watch: load.has_watch,
        }
    }

    /// The six per-piece model matrices for one frame, in the order head,
    /// torso, left arm, right arm, left leg, right leg. The head and torso
    /// never swing; each limb's swing angle enters as its sine and cosine.
    #[verifier::rlimit(60)]
    pub fn frame_matrices(
        &self,
        larm_t: LimbTrig,
        rarm_t: LimbTrig,
        lleg_t: LimbTrig,
        rleg_t: LimbTrig,
    ) -> (r: Vec<Mat4>)
        requires
            self.wf(),
            larm_t.wf(),
            rarm_t.wf(),
            lleg_t.wf(),
            rleg_t.wf(),
        ensures
            r@.len() == 6,
            r@[0]@ == limb_transform_v(self.head.bone_view(), global_placement_v(), 0, FX_ONE as int),
            r@[1]@ == limb_transform_v(
                self.torso.bone_view(),
                global_placement_v(),
                0,
                FX_ONE as int,
            ),
            r@[2]@ == limb_transform_v(
                self.larm.bone_view(),
                global_placement_v(),
                larm_t.sin as int,
                larm_t.cos as int,
            ),
            r@[3]@ == limb_transform_v(
                self.rarm.bone_view(),
                global_placement_v(),
                rarm_t.sin as int,
                rarm_t.cos as int,
            ),
            r@[4]@ == limb_transform_v(
                self.lleg.bone_view(),
                global_placement_v(),
                lleg_t.sin as int,
                lleg_t.cos as int,
            ),
            r@[5]@ == limb_transform_v(
                self.rleg.bone_view(),
                global_placement_v(),
                rleg_t.sin as int,
                rleg_t.cos as int,
            ),
            forall|i: int| 0 <= i < 6 ==> mat_bounded(#[trigger] r@[i]@, LIMB_BOUND as int),
    {
        let g = global_placement();
        let mut out: Vec<Mat4> = Vec::new();
        out.push(limb_transform(&self.head, &g, 0, FX_ONE));
        out.push(limb_transform(&self.torso, &g, 0, FX_ONE));
        out.push(limb_transform(&self.larm, &g, larm_t.sin, larm_t.cos));
        out.push(limb_transform(&self.rarm, &g, rarm_t.sin, rarm_t.cos));
        out.push(limb_transform(&self.lleg, &g, lleg_t.sin, lleg_t.cos));
        out.push(limb_transform(&self.rleg, &g, rleg_t.sin, rleg_t.cos));
        out
    }
}

/// A reload always uploads a fresh texture: the model after a reload never
/// shares its texture with the model before it.
pub proof fn lemma_reload_changes_texture(m: PlayerModel, load: SkinLoad)
    requires
        m.texture_gen < u64::MAX,
    ensures
        apply_reload_v(m, load).texture_gen != m.texture_gen,
{
}

/// A polling cycle that reports a modification or a newly created file asks
/// for a reload, and the reload replaces the model wholesale with one fresh
/// load's outcome: a new texture (the generation advances), the pieces
/// unchanged, and the default flag and the watch determined by that outcome
/// alone. The model is an owned value swapped in one piece, so at every
/// instant exactly one texture and at most one watch exist, and the reload
/// is atomic to the consumer — never a partially patched model.
pub proof fn lemma_update_reloads_wholesale(
    evs: Seq<WatchEvent>,
    skinfile: Option<String>,
    m: PlayerModel,
    requested: bool,
    file_exists: bool,
    watch_created: bool,
    decode_ok: bool,
)
    requires
        m.texture_gen < u64::MAX,
        skin_update_of(evs) is Modified || skin_update_of(evs) is New,
    ensures
        skin_action_of(skin_update_of(evs), skinfile) is ReloadFrom,
        ({
            let after = apply_reload_v(
                m,
                skin_load_plan_v(requested, file_exists, watch_created, decode_ok),
            );
            &&& after.texture_gen != m.texture_gen
            &&& after.head == m.head
            &&& after.torso == m.torso
            &&& after.larm == m.larm
            &&& after.rarm == m.rarm
            &&& after.lleg == m.lleg
            &&& after.rleg == m.rleg
            &&& after.texture_is_default == !(requested && file_exists && decode_ok)
            &&& after.texture_watch == (requested && file_exists && watch_created)
        }),
{
}

/// When the watched file is gone by the time the reload looks for it, the
/// model falls back to the embedded default image and no live watch
/// remains, whatever the watch subscription or the decoder would have said.
pub proof fn lemma_deleted_file_falls_back(
    m: PlayerModel,
    requested: bool,
    watch_created: bool,
    decode_ok: bool,
)
    requires
        m.texture_gen < u64::MAX,
    ensures
        ({
            let after = apply_reload_v(m, skin_load_plan_v(requested, false, watch_created, decode_ok));
            &&& after.texture_is_default
            &&& !after.texture_watch
        }),
{
}

} // verus!
