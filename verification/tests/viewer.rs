use steve_viewer::camera::view_matrix;
use steve_viewer::fixed::fx_mul;
use steve_viewer::fixed::FX_ONE;
use steve_viewer::input::advance_frame;
use steve_viewer::input::handle_input;
use steve_viewer::input::handle_mouse_button;
use steve_viewer::input::handle_mouse_motion;
use steve_viewer::input::sat_add_i64;
use steve_viewer::input::Key;
use steve_viewer::input::KeyState;
use steve_viewer::input::MouseButton;
use steve_viewer::input::MouseState;
use steve_viewer::input::NextAction;
use steve_viewer::input::ANIM_RATE;
use steve_viewer::input::MOUSE_STEP;
use steve_viewer::input::TURN_STEP;
use steve_viewer::mat::identity;
use steve_viewer::mat::mat_mul;
use steve_viewer::mat::rotation_y;
use steve_viewer::mat::translation;
use steve_viewer::mat::vec_neg;
use steve_viewer::mat::Mat4;
use steve_viewer::mat::Vec3Fx;
use steve_viewer::model::LimbTrig;
use steve_viewer::model::PlayerModel;
use steve_viewer::pose::global_placement;
use steve_viewer::pose::limb_transform;
use steve_viewer::pose::swing_angle;
use steve_viewer::pose::ModelPiece;
use steve_viewer::pose::HALF_PI_FX;
use steve_viewer::projection::projection_matrix;
use steve_viewer::projection::PROJ_F;
use steve_viewer::projection::PROJ_ZA;
use steve_viewer::projection::PROJ_ZB;
use steve_viewer::skin::get_skin_file_update;
use steve_viewer::skin::load_skin_image;
use steve_viewer::skin::skin_load_plan;
use steve_viewer::skin::skin_update_action;
use steve_viewer::skin::SkinAction;
use steve_viewer::skin::SkinFileUpdate;
use steve_viewer::skin::SkinLoad;
use steve_viewer::skin::WatchEvent;

fn event(is_dir: bool, is_modify: bool, is_create: bool, is_delete_self: bool, name: &str) -> WatchEvent {
    WatchEvent {
        is_dir,
        is_modify,
        is_create,
        is_delete_self,
        name: name.to_string(),
    }
}

fn piece_with_pivot(x: i64, y: i64, z: i64) -> ModelPiece {
    ModelPiece::new(Some(Vec3Fx { x, y, z }))
}

fn sample_model() -> PlayerModel {
    let load = SkinLoad {
        uses_default: true,
        has_watch: false,
    };
    PlayerModel::new(
        ModelPiece::new(None),
        ModelPiece::new(None),
        piece_with_pivot(-4 * FX_ONE, 22 * FX_ONE, 0),
        piece_with_pivot(4 * FX_ONE, 22 * FX_ONE, 0),
        piece_with_pivot(-2 * FX_ONE, 12 * FX_ONE, 0),
        piece_with_pivot(2 * FX_ONE, 12 * FX_ONE, 0),
        &load,
    )
}

fn png_bytes() -> Vec<u8> {
    let img = image::DynamicImage::ImageRgba8(image::RgbaImage::new(2, 2));
    let mut buf: Vec<u8> = Vec::new();
    img.write_to(&mut std::io::Cursor::new(&mut buf), image::ImageFormat::Png)
        .unwrap();
    buf
}

#[test]
fn fx_mul_by_one_is_exact() {
    assert_eq!(fx_mul(FX_ONE, FX_ONE), FX_ONE);
    assert_eq!(fx_mul(123456, FX_ONE), 123456);
    assert_eq!(fx_mul(FX_ONE, -987654), -987654);
}

#[test]
fn fx_mul_by_zero() {
    assert_eq!(fx_mul(123456, 0), 0);
    assert_eq!(fx_mul(0, -123456), 0);
}

#[test]
fn fx_mul_truncates_toward_zero() {
    assert_eq!(fx_mul(100000, 3), 4);
    assert_eq!(fx_mul(-100000, 3), -4);
    assert_eq!(fx_mul(-FX_ONE, 32768), -32768);
}

#[test]
fn mat_mul_identity_right() {
    let p = Vec3Fx {
        x: 3 * FX_ONE,
        y: -7 * FX_ONE,
        z: 11 * FX_ONE,
    };
    let t = translation(&p);
    let i = identity();
    assert_eq!(mat_mul(&t, &i), t);
    assert_eq!(mat_mul(&i, &t), t);
}

#[test]
fn translations_cancel_exactly() {
    let p = Vec3Fx {
        x: 5 * FX_ONE,
        y: 9 * FX_ONE,
        z: -13 * FX_ONE,
    };
    let t1 = translation(&p);
    let t2 = translation(&vec_neg(&p));
    assert_eq!(mat_mul(&t1, &t2), identity());
}

#[test]
fn zero_rotation_is_identity() {
    assert_eq!(rotation_y(0, FX_ONE), identity());
}

#[test]
fn limb_transform_zero_swing_equals_global() {
    let g = global_placement();
    let piece = piece_with_pivot(-4 * FX_ONE, 22 * FX_ONE, 0);
    assert_eq!(limb_transform(&piece, &g, 0, FX_ONE), g);
}

#[test]
fn limb_transform_no_pivot_equals_global() {
    let g = global_placement();
    let piece = ModelPiece::new(None);
    assert_eq!(limb_transform(&piece, &g, 40000, 51000), g);
}

#[test]
fn anim_matrix_zero_swing_is_identity() {
    let piece = piece_with_pivot(2 * FX_ONE, 12 * FX_ONE, 0);
    assert_eq!(piece.make_anim_matrix(0, FX_ONE), identity());
}

#[test]
fn paired_swing_angles_are_opposite() {
    let samples: [i64; 5] = [0, 17, -65536, 65536, -40000];
    for s in samples {
        assert_eq!(swing_angle(false, s), -swing_angle(true, s));
    }
}

#[test]
fn limb_swing_angles_pair_up() {
    let (larm, rarm, lleg, rleg) = steve_viewer::pose::limb_swing_angles(FX_ONE);
    assert_eq!(larm, -HALF_PI_FX);
    assert_eq!(rarm, HALF_PI_FX);
    assert_eq!(lleg, HALF_PI_FX);
    assert_eq!(rleg, -HALF_PI_FX);
    assert_eq!(larm, -rarm);
    assert_eq!(lleg, -rleg);
}

#[test]
fn swing_angle_full_amplitude() {
    assert_eq!(swing_angle(true, FX_ONE), HALF_PI_FX);
    assert_eq!(swing_angle(true, -FX_ONE), -HALF_PI_FX);
    assert_eq!(swing_angle(true, 0), 0);
}

#[test]
fn global_placement_exact_entries() {
    let g = global_placement();
    let expected = Mat4 {
        m00: 0,
        m01: -FX_ONE,
        m02: 0,
        m03: 0,
        m10: 0,
        m11: 0,
        m12: FX_ONE,
        m13: 16 * FX_ONE,
        m20: -FX_ONE,
        m21: 0,
        m22: 0,
        m23: 100 * FX_ONE,
        m30: 0,
        m31: 0,
        m32: 0,
        m33: FX_ONE,
    };
    assert_eq!(g, expected);
}

#[test]
fn view_zero_orbit_is_identity() {
    let center = Vec3Fx {
        x: 0,
        y: 0,
        z: 100 * FX_ONE,
    };
    assert_eq!(view_matrix(&center, 0, FX_ONE, 0, FX_ONE), identity());
}

#[test]
fn view_quarter_yaw_exact() {
    let center = Vec3Fx {
        x: 0,
        y: 0,
        z: 100 * FX_ONE,
    };
    let v = view_matrix(&center, FX_ONE, 0, 0, FX_ONE);
    let expected = Mat4 {
        m00: 0,
        m01: 0,
        m02: FX_ONE,
        m03: -100 * FX_ONE,
        m10: 0,
        m11: FX_ONE,
        m12: 0,
        m13: 0,
        m20: -FX_ONE,
        m21: 0,
        m22: 0,
        m23: 100 * FX_ONE,
        m30: 0,
        m31: 0,
        m32: 0,
        m33: FX_ONE,
    };
    assert_eq!(v, expected);
}

#[test]
fn projection_exact_entries() {
    let p = projection_matrix(800, 600);
    assert_eq!(p.m00, 85134);
    assert_eq!(p.m11, PROJ_F);
    assert_eq!(p.m22, PROJ_ZA);
    assert_eq!(p.m23, PROJ_ZB);
    assert_eq!(p.m32, -FX_ONE);
    assert_eq!(p.m33, 0);
    assert_eq!(p.m01, 0);
    assert_eq!(p.m30, 0);
}

#[test]
fn resize_changes_only_horizontal_scale() {
    let before = projection_matrix(800, 600);
    let after = projection_matrix(1920, 1080);
    assert_eq!(after.m00, 63850);
    assert_ne!(before.m00, after.m00);
    let mut patched = after;
    patched.m00 = before.m00;
    assert_eq!(patched, before);
}

#[test]
fn arrow_keys_set_turn_rates() {
    let mut try_: i64 = 0;
    let mut trx: i64 = 0;
    let mut anim = false;
    let mut t: i64 = 7;
    let r = handle_input(
        &mut try_,
        &mut trx,
        &mut anim,
        &mut t,
        KeyState::Pressed,
        &Some(Key::Right),
    );
    assert_eq!(r, None);
    assert_eq!(try_, TURN_STEP);
    handle_input(
        &mut try_,
        &mut trx,
        &mut anim,
        &mut t,
        KeyState::Released,
        &Some(Key::Right),
    );
    assert_eq!(try_, 0);
    handle_input(
        &mut try_,
        &mut trx,
        &mut anim,
        &mut t,
        KeyState::Pressed,
        &Some(Key::Down),
    );
    assert_eq!(trx, -TURN_STEP);
    handle_input(
        &mut try_,
        &mut trx,
        &mut anim,
        &mut t,
        KeyState::Pressed,
        &Some(Key::Up),
    );
    assert_eq!(trx, TURN_STEP);
    assert_eq!(t, 7);
    assert!(!anim);
}

#[test]
fn animation_toggle_and_reset() {
    let mut try_: i64 = 0;
    let mut trx: i64 = 0;
    let mut anim = false;
    let mut t: i64 = 31337;
    handle_input(
        &mut try_,
        &mut trx,
        &mut anim,
        &mut t,
        KeyState::Released,
        &Some(Key::A),
    );
    assert!(anim);
    handle_input(
        &mut try_,
        &mut trx,
        &mut anim,
        &mut t,
        KeyState::Released,
        &Some(Key::A),
    );
    assert!(!anim);
    handle_input(
        &mut try_,
        &mut trx,
        &mut anim,
        &mut t,
        KeyState::Released,
        &Some(Key::R),
    );
    assert_eq!(t, 0);
}

#[test]
fn reload_and_quit_actions() {
    let mut try_: i64 = 0;
    let mut trx: i64 = 0;
    let mut anim = false;
    let mut t: i64 = 0;
    let r = handle_input(
        &mut try_,
        &mut trx,
        &mut anim,
        &mut t,
        KeyState::Pressed,
        &Some(Key::F5),
    );
    assert_eq!(r, Some(NextAction::Reload));
    let q = handle_input(
        &mut try_,
        &mut trx,
        &mut anim,
        &mut t,
        KeyState::Released,
        &Some(Key::Q),
    );
    assert_eq!(q, Some(NextAction::Quit));
    let n = handle_input(&mut try_, &mut trx, &mut anim, &mut t, KeyState::Pressed, &None);
    assert_eq!(n, None);
}

#[test]
fn mouse_drag_accumulates_deltas() {
    let mut ms = MouseState {
        left_pressed: false,
        position: None,
    };
    let mut ay: i64 = 0;
    let mut ax: i64 = 0;
    handle_mouse_button(MouseButton::Left, KeyState::Pressed, &mut ms);
    assert!(ms.left_pressed);
    handle_mouse_motion((10, 20), &mut ms, &mut ay, &mut ax);
    assert_eq!(ay, 0);
    assert_eq!(ax, 0);
    assert_eq!(ms.position, Some((10, 20)));
    handle_mouse_motion((30, 50), &mut ms, &mut ay, &mut ax);
    assert_eq!(ay, 20 * MOUSE_STEP);
    assert_eq!(ax, -30 * MOUSE_STEP);
    assert_eq!(ms.position, Some((30, 50)));
}

#[test]
fn redrag_first_sample_moves_nothing() {
    let mut ms = MouseState {
        left_pressed: true,
        position: Some((30, 50)),
    };
    let mut ay: i64 = 12345;
    let mut ax: i64 = -67890;
    handle_mouse_button(MouseButton::Left, KeyState::Released, &mut ms);
    assert!(!ms.left_pressed);
    assert_eq!(ms.position, None);
    handle_mouse_button(MouseButton::Left, KeyState::Pressed, &mut ms);
    assert_eq!(ms.position, None);
    handle_mouse_motion((500, 900), &mut ms, &mut ay, &mut ax);
    assert_eq!(ay, 12345);
    assert_eq!(ax, -67890);
    assert_eq!(ms.position, Some((500, 900)));
}

#[test]
fn motion_without_button_does_nothing() {
    let mut ms = MouseState {
        left_pressed: false,
        position: None,
    };
    let mut ay: i64 = 5;
    let mut ax: i64 = 6;
    handle_mouse_motion((100, 100), &mut ms, &mut ay, &mut ax);
    assert_eq!(ay, 5);
    assert_eq!(ax, 6);
    assert_eq!(ms.position, None);
}

#[test]
fn advance_frame_moves_phase_and_angles() {
    let mut t: i64 = 100;
    let mut ay: i64 = 200;
    let mut ax: i64 = 300;
    advance_frame(true, TURN_STEP, -TURN_STEP, &mut t, &mut ay, &mut ax);
    assert_eq!(t, 100 + ANIM_RATE);
    assert_eq!(ay, 200 + TURN_STEP);
    assert_eq!(ax, 300 - TURN_STEP);
    advance_frame(false, 0, 0, &mut t, &mut ay, &mut ax);
    assert_eq!(t, 100 + ANIM_RATE);
}

#[test]
fn saturating_add_clips_at_the_ends() {
    assert_eq!(sat_add_i64(i64::MAX, 1), i64::MAX);
    assert_eq!(sat_add_i64(i64::MIN, -1), i64::MIN);
    assert_eq!(sat_add_i64(40, 2), 42);
    assert_eq!(sat_add_i64(-40, 2), -38);
}

#[test]
fn no_events_is_no_update() {
    let events: Vec<WatchEvent> = Vec::new();
    assert_eq!(get_skin_file_update(&events), SkinFileUpdate::NoUpdate);
}

#[test]
fn modify_event_classifies_as_modified() {
    let events = vec![event(false, true, false, false, "skin.png")];
    assert_eq!(get_skin_file_update(&events), SkinFileUpdate::Modified);
}

#[test]
fn create_event_carries_the_name() {
    let events = vec![event(false, false, true, false, "new_skin.png")];
    assert_eq!(
        get_skin_file_update(&events),
        SkinFileUpdate::New("new_skin.png".to_string())
    );
}

#[test]
fn delete_self_event_classifies_as_deleted() {
    let events = vec![event(false, false, false, true, "skin.png")];
    assert_eq!(get_skin_file_update(&events), SkinFileUpdate::Deleted);
}

#[test]
fn directory_event_is_ignored() {
    let events = vec![event(true, true, false, false, "some_dir")];
    assert_eq!(get_skin_file_update(&events), SkinFileUpdate::NoUpdate);
}

#[test]
fn unknown_event_is_no_update() {
    let events = vec![event(false, false, false, false, "skin.png")];
    assert_eq!(get_skin_file_update(&events), SkinFileUpdate::NoUpdate);
}

#[test]
fn only_first_event_counts() {
    let events = vec![
        event(false, false, false, true, "skin.png"),
        event(false, true, false, false, "skin.png"),
    ];
    assert_eq!(get_skin_file_update(&events), SkinFileUpdate::Deleted);
}

#[test]
fn update_actions_follow_the_update() {
    let skinfile = Some("mine.png".to_string());
    assert_eq!(
        skin_update_action(&SkinFileUpdate::NoUpdate, &skinfile),
        SkinAction::KeepCurrent
    );
    assert_eq!(
        skin_update_action(&SkinFileUpdate::Modified, &skinfile),
        SkinAction::ReloadFrom(Some("mine.png".to_string()))
    );
    assert_eq!(
        skin_update_action(&SkinFileUpdate::New("other.png".to_string()), &skinfile),
        SkinAction::ReloadFrom(Some("other.png".to_string()))
    );
    assert_eq!(
        skin_update_action(&SkinFileUpdate::Deleted, &None),
        SkinAction::ReloadFrom(None)
    );
}

#[test]
fn load_plan_decision_table() {
    let some = Some("skin.png".to_string());
    assert_eq!(
        skin_load_plan(&None, true, true, true),
        SkinLoad {
            uses_default: true,
            has_watch: false
        }
    );
    assert_eq!(
        skin_load_plan(&some, false, true, true),
        SkinLoad {
            uses_default: true,
            has_watch: false
        }
    );
    assert_eq!(
        skin_load_plan(&some, true, true, true),
        SkinLoad {
            uses_default: false,
            has_watch: true
        }
    );
    assert_eq!(
        skin_load_plan(&some, true, false, true),
        SkinLoad {
            uses_default: false,
            has_watch: false
        }
    );
    assert_eq!(
        skin_load_plan(&some, true, true, false),
        SkinLoad {
            uses_default: true,
            has_watch: true
        }
    );
}

#[test]
fn decode_uses_file_bytes_when_they_decode() {
    let good = png_bytes();
    let (img, used_default) = load_skin_image(&Some(good.clone()), &good);
    assert!(img.is_some());
    assert!(!used_default);
}

#[test]
fn decode_falls_back_to_default_on_garbage() {
    let garbage: Vec<u8> = vec![1, 2, 3, 4, 5];
    let good = png_bytes();
    let (img, used_default) = load_skin_image(&Some(garbage), &good);
    assert!(img.is_some());
    assert!(used_default);
}

#[test]
fn decode_without_file_uses_default() {
    let good = png_bytes();
    let (img, used_default) = load_skin_image(&None, &good);
    assert!(img.is_some());
    assert!(used_default);
}

#[test]
fn decode_reports_undecodable_default() {
    let garbage: Vec<u8> = vec![0, 0, 0];
    let (img, used_default) = load_skin_image(&None, &garbage);
    assert!(img.is_none());
    assert!(used_default);
}

#[test]
fn reload_always_changes_the_texture() {
    let m = sample_model();
    let load = SkinLoad {
        uses_default: false,
        has_watch: true,
    };
    let m2 = m.apply_reload(&load);
    assert_ne!(m2.texture_gen, m.texture_gen);
    assert!(!m2.texture_is_default);
    assert!(m2.texture_watch);
    assert_eq!(m2.larm, m.larm);
}

#[test]
fn modified_file_reload_scenario() {
    let skinfile = Some("skin.png".to_string());
    let m = sample_model();
    let events = vec![event(false, true, false, false, "skin.png")];
    let update = get_skin_file_update(&events);
    assert_eq!(update, SkinFileUpdate::Modified);
    let action = skin_update_action(&update, &skinfile);
    assert_eq!(action, SkinAction::ReloadFrom(skinfile.clone()));
    let plan = skin_load_plan(&skinfile, true, true, true);
    let m2 = m.apply_reload(&plan);
    assert_ne!(m2.texture_gen, m.texture_gen);
    assert!(!m2.texture_is_default);
    assert_eq!(m2.head, m.head);
    assert_eq!(m2.torso, m.torso);
    assert_eq!(m2.larm, m.larm);
    assert_eq!(m2.rarm, m.rarm);
    assert_eq!(m2.lleg, m.lleg);
    assert_eq!(m2.rleg, m.rleg);
}

#[test]
fn deleted_file_reload_scenario() {
    let skinfile = Some("skin.png".to_string());
    let m = sample_model();
    let events = vec![event(false, false, false, true, "skin.png")];
    let update = get_skin_file_update(&events);
    assert_eq!(update, SkinFileUpdate::Deleted);
    let plan = skin_load_plan(&skinfile, false, false, false);
    let m2 = m.apply_reload(&plan);
    assert!(m2.texture_is_default);
    assert!(!m2.texture_watch);
    assert_ne!(m2.texture_gen, m.texture_gen);
}

#[test]
fn frame_matrices_zero_phase_all_global() {
    let m = sample_model();
    let zero = LimbTrig { sin: 0, cos: FX_ONE };
    let mats = m.frame_matrices(zero, zero, zero, zero);
    let g = global_placement();
    assert_eq!(mats.len(), 6);
    for mat in &mats {
        assert_eq!(*mat, g);
    }
}
