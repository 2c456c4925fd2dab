use rts_camera::camera::latest_scroll;
use rts_camera::decel::Deceleration;
use rts_camera::fixed::clamp;
use rts_camera::fixed::fx_mul;
use rts_camera::fixed::lerp_in_zone;
use rts_camera::fixed::pan_limit;
use rts_camera::fixed::sat_add;
use rts_camera::fixed::sqrt_ceil;
use rts_camera::fixed::FixedRange;
use rts_camera::fixed::Vec2Fixed;
use rts_camera::fixed::VEL_LIMIT;
use rts_camera::keys::any_pressed;
use rts_camera::keys::key_pressed;
use rts_camera::keys::KeyCode;
use rts_camera::settings::PanSettings;
use rts_camera::settings::TurnSettings;
use rts_camera::settings::ZoomSettings;

#[test]
fn clamp_picks_the_nearest_bound() {
    let range = FixedRange { min: 5_000_000, max: 100_000_000 };
    assert_eq!(clamp(4_999_999, &range), 5_000_000);
    assert_eq!(clamp(5_000_000, &range), 5_000_000);
    assert_eq!(clamp(42_000_000, &range), 42_000_000);
    assert_eq!(clamp(100_000_001, &range), 100_000_000);
    assert_eq!(clamp(-7, &range), 5_000_000);
}

#[test]
fn fx_mul_truncates_toward_zero() {
    assert_eq!(fx_mul(1_500_000, 2_000_000), 3_000_000);
    assert_eq!(fx_mul(-1_500_000, 2_000_000), -3_000_000);
    assert_eq!(fx_mul(999_999, 1), 0);
    assert_eq!(fx_mul(-999_999, 1), 0);
    assert_eq!(fx_mul(0, 123_456), 0);
    assert_eq!(fx_mul(5_000_000, 16_667), 83_335);
}

#[test]
fn sat_add_saturates_at_the_representable_band() {
    assert_eq!(sat_add(0, 250_000), 250_000);
    assert_eq!(sat_add(VEL_LIMIT - 1, 2), VEL_LIMIT);
    assert_eq!(sat_add(-VEL_LIMIT, -5), -VEL_LIMIT);
}

#[test]
fn lerp_in_zone_matches_its_formula() {
    let zone = FixedRange { min: 5_000_000, max: 100_000_000 };
    let out = FixedRange { min: 570_000, max: 1_160_000 };
    // 0.57 + (50 - 5) / (100 - 5) * (1.16 - 0.57).
    assert_eq!(lerp_in_zone(50_000_000, &zone, &out), 849_473);
    // The zone ends map exactly onto the output ends.
    assert_eq!(lerp_in_zone(5_000_000, &zone, &out), 570_000);
    assert_eq!(lerp_in_zone(100_000_000, &zone, &out), 1_160_000);
    // Outside the zone the value is clamped first.
    assert_eq!(lerp_in_zone(1_000_000, &zone, &out), 570_000);
    assert_eq!(lerp_in_zone(400_000_000, &zone, &out), 1_160_000);
}

#[test]
fn lerp_in_zone_accepts_a_descending_target() {
    let zone = FixedRange { min: 5_000_000, max: 100_000_000 };
    let out = FixedRange { min: 2_000_000, max: 1_000_000 };
    assert_eq!(lerp_in_zone(5_000_000, &zone, &out), 2_000_000);
    assert_eq!(lerp_in_zone(100_000_000, &zone, &out), 1_000_000);
    // Midway down: 2.0 + (52.5 - 5) / (100 - 5) * (1.0 - 2.0) = 1.5.
    assert_eq!(lerp_in_zone(52_500_000, &zone, &out), 1_500_000);
    assert_eq!(lerp_in_zone(0, &zone, &out), 2_000_000);
}

#[test]
fn sqrt_ceil_rounds_up() {
    assert_eq!(sqrt_ceil(0), 0);
    assert_eq!(sqrt_ceil(1), 1);
    assert_eq!(sqrt_ceil(2), 2);
    assert_eq!(sqrt_ceil(4), 2);
    assert_eq!(sqrt_ceil(100_000_000_000_000), 10_000_000);
    assert_eq!(sqrt_ceil(100_000_000_000_001), 10_000_001);
}

#[test]
fn pan_limit_rescales_long_vectors_only() {
    // Exactly at the cap: untouched.
    let v = pan_limit(Vec2Fixed { x: 3_000_000, y: 4_000_000 }, 5_000_000);
    assert_eq!(v, Vec2Fixed { x: 3_000_000, y: 4_000_000 });
    // A 3-4-5 triangle twice the cap comes back halved, signs preserved.
    let v = pan_limit(Vec2Fixed { x: 6_000_000, y: -8_000_000 }, 5_000_000);
    assert_eq!(v, Vec2Fixed { x: 3_000_000, y: -4_000_000 });
    // The zero vector is left alone (no normalizing of zero).
    let v = pan_limit(Vec2Fixed { x: 0, y: 0 }, 5_000_000);
    assert_eq!(v, Vec2Fixed { x: 0, y: 0 });
}

#[test]
fn deceleration_steps_toward_zero_without_overshoot() {
    let both = Deceleration { pos: true, neg: true };
    // A small step shrinks the magnitude.
    let mut v: i64 = 1_000_000;
    both.apply(&mut v, 17_500_000, 16_667);
    assert_eq!(v, 708_328);
    // A step larger than the velocity lands exactly on zero.
    let mut v: i64 = 200_000;
    both.apply(&mut v, 17_500_000, 16_667);
    assert_eq!(v, 0);
    // Zero velocity stays zero.
    let mut v: i64 = 0;
    both.apply(&mut v, 17_500_000, 16_667);
    assert_eq!(v, 0);
    // Negative velocities move up toward zero.
    let mut v: i64 = -1_000_000;
    both.apply(&mut v, 17_500_000, 16_667);
    assert_eq!(v, -708_328);
}

#[test]
fn one_sided_deceleration_has_a_fixed_direction() {
    // Only the positive direction armed: the push is always negative.
    let pos_only = Deceleration { pos: true, neg: false };
    let mut v: i64 = 1_000_000;
    pos_only.apply(&mut v, 17_500_000, 16_667);
    assert_eq!(v, 708_328);
    let mut v: i64 = -1_000_000;
    pos_only.apply(&mut v, 17_500_000, 16_667);
    assert_eq!(v, -1_291_672);
    // Neither direction armed: nothing happens.
    let neither = Deceleration { pos: false, neg: false };
    let mut v: i64 = 1_000_000;
    neither.apply(&mut v, 17_500_000, 16_667);
    assert_eq!(v, 1_000_000);
}

#[test]
fn key_lists_answer_membership() {
    let pressed = vec![KeyCode::A, KeyCode::Q];
    assert!(key_pressed(&pressed, KeyCode::Q));
    assert!(!key_pressed(&pressed, KeyCode::E));
    let bindings = vec![KeyCode::Left, KeyCode::A];
    assert!(any_pressed(&bindings, &pressed));
    let other = vec![KeyCode::Right, KeyCode::D];
    assert!(!any_pressed(&other, &pressed));
    let empty: Vec<KeyCode> = Vec::new();
    assert!(!any_pressed(&empty, &pressed));
    assert!(!any_pressed(&bindings, &empty));
}

#[test]
fn open_key_codes_compare_by_their_device_code() {
    let pressed = vec![KeyCode::Other(42), KeyCode::A];
    assert!(key_pressed(&pressed, KeyCode::Other(42)));
    assert!(!key_pressed(&pressed, KeyCode::Other(7)));
    let bindings = vec![KeyCode::Other(41), KeyCode::Other(42)];
    assert!(any_pressed(&bindings, &pressed));
}

#[test]
fn latest_scroll_takes_the_last_event() {
    assert_eq!(latest_scroll(&Vec::new()), None);
    assert_eq!(latest_scroll(&vec![1_000_000]), Some(1_000_000));
    assert_eq!(latest_scroll(&vec![1_000_000, -2_000_000, 500_000]), Some(500_000));
}

#[test]
fn default_settings_match_their_documented_values() {
    let zoom = ZoomSettings::new();
    assert_eq!(zoom.angle_range, FixedRange { min: 570_569, max: 1_163_753 });
    assert_eq!(zoom.angle_change_zone, FixedRange { min: 5_000_000, max: 100_000_000 });
    assert_eq!(zoom.distance_range, FixedRange { min: 5_000_000, max: 100_000_000 });
    assert_eq!(zoom.velocity, 0);
    assert_eq!(zoom.max_velocity, 5_000_000);
    assert_eq!(zoom.scroll_accel, 5_000_000);
    assert_eq!(zoom.keyboard_accel, 5_000_000);
    assert_eq!(zoom.idle_deceleration, 5_000_000);
    assert_eq!(zoom.zoom_in_keys, vec![KeyCode::Equals, KeyCode::NumpadAdd]);
    assert_eq!(zoom.zoom_out_keys, vec![KeyCode::NumpadSubtract, KeyCode::Minus]);
    let pan = PanSettings::new();
    assert_eq!(pan.mouse_accel, 15_000_000);
    assert_eq!(pan.mouse_accel_margin, 10_000_000);
    assert_eq!(pan.keyboard_accel, 5_000_000);
    assert_eq!(pan.max_speed, 5_000_000);
    assert_eq!(pan.idle_deceleration, 17_500_000);
    assert_eq!(pan.pan_speed_zoom_factor_range, FixedRange { min: 1_000_000, max: 2_000_000 });
    assert_eq!(pan.left_keys, vec![KeyCode::Left, KeyCode::A]);
    assert_eq!(pan.right_keys, vec![KeyCode::Right, KeyCode::D]);
    assert_eq!(pan.up_keys, vec![KeyCode::Up, KeyCode::W]);
    assert_eq!(pan.down_keys, vec![KeyCode::Down, KeyCode::S]);
    let turn = TurnSettings::new();
    assert_eq!(turn.mouse_turn_margin, 250_000);
    assert_eq!(turn.yaw_range, FixedRange { min: 0, max: 6_283_185 });
    assert_eq!(turn.mouse_accel, 300_000);
    assert_eq!(turn.keyboard_accel, 1_800_000);
    assert_eq!(turn.max_speed, 1_500_000);
    assert_eq!(turn.idle_deceleration, 5_000_000);
    assert_eq!(turn.left_keys, vec![KeyCode::Q]);
    assert_eq!(turn.right_keys, vec![KeyCode::E]);
    let zoom_default = ZoomSettings::default();
    assert_eq!(zoom_default, zoom);
    assert_eq!(PanSettings::default(), pan);
    assert_eq!(TurnSettings::default(), turn);
}

#[test]
fn default_camera_starts_at_rest() {
    let camera = rts_camera::camera::RtsCamera::default();
    assert_eq!(camera.yaw, 0);
    assert_eq!(camera.zoom_velocity, 0);
    assert_eq!(camera.pan_velocity, Vec2Fixed { x: 0, y: 0 });
    assert_eq!(camera.turn_velocity, 0);
    assert_eq!(camera.last_scroll_sec, 0);
    assert_eq!(camera.zoom_distance, 10_000_000);
}
