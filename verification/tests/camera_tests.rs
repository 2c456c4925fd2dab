use rts_camera::camera::FrameEffect;
use rts_camera::camera::FrameInput;
use rts_camera::camera::RtsCamera;
use rts_camera::fixed::Vec2Fixed;
use rts_camera::keys::KeyCode;
use rts_camera::settings::PanSettings;
use rts_camera::settings::TurnSettings;
use rts_camera::settings::ZoomSettings;

fn quiet_input(delta: i64, now: i64) -> FrameInput {
    FrameInput {
        delta,
        now,
        cursor: Some(Vec2Fixed { x: 400_000_000, y: 300_000_000 }),
        window: Vec2Fixed { x: 800_000_000, y: 600_000_000 },
        scroll: None,
        pressed: Vec::new(),
    }
}

#[test]
fn steady_state_frame_is_identity() {
    let mut camera = RtsCamera::default();
    let before = camera;
    let zoom = ZoomSettings::new();
    let pan = PanSettings::new();
    let turn = TurnSettings::new();
    let input = quiet_input(16_667, 1_000_000);
    let eff = camera.step(&input, &zoom, &pan, &turn).unwrap();
    assert_eq!(camera, before);
    assert_eq!(eff.turn_angle, 0);
    assert_eq!(eff.pan_dx, 0);
    assert_eq!(eff.pan_dy, 0);
    assert_eq!(eff.yaw, 0);
}

#[test]
fn missing_cursor_skips_frame_entirely() {
    let mut camera = RtsCamera {
        yaw: 1_234_567,
        zoom_velocity: -3_000_000,
        pan_velocity: Vec2Fixed { x: 2_000_000, y: -1_000_000 },
        turn_velocity: 500_000,
        last_scroll_sec: 900_000,
        zoom_distance: 42_000_000,
    };
    let before = camera;
    let zoom = ZoomSettings::new();
    let pan = PanSettings::new();
    let turn = TurnSettings::new();
    let mut input = quiet_input(16_667, 1_000_000);
    input.cursor = None;
    let eff = camera.step(&input, &zoom, &pan, &turn);
    assert!(eff.is_none());
    assert_eq!(camera, before);
}

#[test]
fn idle_deceleration_shrinks_pan_velocity_to_exact_zero() {
    let mut camera = RtsCamera::default();
    camera.pan_velocity.x = 1_000_000;
    let zoom = ZoomSettings::new();
    let pan = PanSettings::new();
    let turn = TurnSettings::new();
    // Decay step per frame: 17.5 * 0.016667 = 0.291672 units.
    let input = quiet_input(16_667, 1_000_000);
    camera.step(&input, &zoom, &pan, &turn).unwrap();
    assert_eq!(camera.pan_velocity.x, 708_328);
    let mut previous = camera.pan_velocity.x;
    while camera.pan_velocity.x != 0 {
        camera.step(&input, &zoom, &pan, &turn).unwrap();
        assert!(camera.pan_velocity.x >= 0, "deceleration must never overshoot");
        assert!(
            camera.pan_velocity.x < previous,
            "magnitude must strictly decrease until zero"
        );
        previous = camera.pan_velocity.x;
    }
    // Once at zero it stays there.
    camera.step(&input, &zoom, &pan, &turn).unwrap();
    assert_eq!(camera.pan_velocity.x, 0);
}

#[test]
fn scroll_sets_velocity_and_stamps_clock() {
    let mut camera = RtsCamera::default();
    let zoom = ZoomSettings::new();
    let pan = PanSettings::new();
    let turn = TurnSettings::new();
    let mut input = quiet_input(16_667, 1_000_000);
    input.scroll = Some(1_000_000);
    camera.step(&input, &zoom, &pan, &turn).unwrap();
    // One scroll line adds -5.0; the still-armed negative-direction decay
    // then pushes back by 5.0 * 0.016667 in the same frame, since the last
    // scroll before this one lies outside the grace window.
    assert_eq!(camera.zoom_velocity, -4_916_665);
    assert_eq!(camera.last_scroll_sec, 1_000_000);
}

#[test]
fn scroll_grace_window_shields_then_releases() {
    let mut camera = RtsCamera::default();
    camera.zoom_velocity = -5_000_000;
    camera.last_scroll_sec = 1_000_000;
    let zoom = ZoomSettings::new();
    let pan = PanSettings::new();
    let turn = TurnSettings::new();
    // 0.03 s after the scroll: inside the 0.05 s window, no decay.
    let input = quiet_input(16_667, 1_030_000);
    camera.step(&input, &zoom, &pan, &turn).unwrap();
    assert_eq!(camera.zoom_velocity, -5_000_000);
    // 0.049999 s after the scroll: still inside.
    let input = quiet_input(16_667, 1_049_999);
    camera.step(&input, &zoom, &pan, &turn).unwrap();
    assert_eq!(camera.zoom_velocity, -5_000_000);
    // Exactly 0.05 s after the scroll: eligible again, one decay step of
    // 5 * 0.016667 = 0.083335 units.
    let input = quiet_input(16_667, 1_050_000);
    camera.step(&input, &zoom, &pan, &turn).unwrap();
    assert_eq!(camera.zoom_velocity, -4_916_665);
}

#[test]
fn yaw_wraps_above_full_turn_by_exactly_one_turn() {
    let mut camera = RtsCamera::default();
    camera.yaw = 6_000_000;
    camera.turn_velocity = 1_500_000;
    let zoom = ZoomSettings::new();
    let pan = PanSettings::new();
    let mut turn = TurnSettings::new();
    turn.idle_deceleration = 0;
    let input = quiet_input(1_000_000, 1_000_000);
    let eff = camera.step(&input, &zoom, &pan, &turn).unwrap();
    // 6.0 + 1.5 = 7.5 rad wraps to 7.5 - 6.283185.
    assert_eq!(camera.yaw, 1_216_815);
    assert_eq!(eff.turn_angle, 1_500_000);
}

#[test]
fn yaw_wraps_below_zero_by_exactly_one_turn() {
    let mut camera = RtsCamera::default();
    camera.yaw = 100_000;
    camera.turn_velocity = -1_500_000;
    let zoom = ZoomSettings::new();
    let pan = PanSettings::new();
    let mut turn = TurnSettings::new();
    turn.idle_deceleration = 0;
    let input = quiet_input(1_000_000, 1_000_000);
    camera.step(&input, &zoom, &pan, &turn).unwrap();
    // 0.1 - 1.5 = -1.4 rad wraps to -1.4 + 6.283185.
    assert_eq!(camera.yaw, 4_883_185);
}

#[test]
fn pitch_interpolates_distance_into_angle_range() {
    let mut camera = RtsCamera::default();
    camera.zoom_distance = 50_000_000;
    let mut zoom = ZoomSettings::new();
    zoom.angle_change_zone = rts_camera::fixed::FixedRange { min: 5_000_000, max: 100_000_000 };
    zoom.angle_range = rts_camera::fixed::FixedRange { min: 570_000, max: 1_160_000 };
    let pan = PanSettings::new();
    let turn = TurnSettings::new();
    let input = quiet_input(16_667, 1_000_000);
    let eff = camera.step(&input, &zoom, &pan, &turn).unwrap();
    // 0.57 + (50 - 5) / (100 - 5) * (1.16 - 0.57) = 0.849473...
    assert_eq!(eff.pitch, 849_473);
    assert_eq!(camera.zoom_distance, 50_000_000);
}

#[test]
fn pan_velocity_clamp_preserves_direction() {
    let mut camera = RtsCamera::default();
    camera.pan_velocity = Vec2Fixed { x: 10_000_000, y: 0 };
    let zoom = ZoomSettings::new();
    let pan = PanSettings::new();
    let turn = TurnSettings::new();
    // Zero frame time: no decay this frame, only the caps act.
    let input = quiet_input(0, 1_000_000);
    camera.step(&input, &zoom, &pan, &turn).unwrap();
    assert_eq!(camera.pan_velocity, Vec2Fixed { x: 5_000_000, y: 0 });
}

#[test]
fn zoom_velocity_cap_is_asymmetric() {
    let zoom = ZoomSettings::new();
    let pan = PanSettings::new();
    let turn = TurnSettings::new();
    let input = quiet_input(0, 1_000_000);
    // Inward (negative) velocity above the cap magnitude passes untouched.
    let mut camera = RtsCamera::default();
    camera.zoom_velocity = -3_000_000;
    camera.step(&input, &zoom, &pan, &turn).unwrap();
    assert_eq!(camera.zoom_velocity, -3_000_000);
    // Outward (positive) velocity is capped at max_velocity.
    let mut camera = RtsCamera::default();
    camera.zoom_velocity = 7_000_000;
    camera.step(&input, &zoom, &pan, &turn).unwrap();
    assert_eq!(camera.zoom_velocity, 5_000_000);
}

#[test]
fn busy_frame_keeps_all_clamping_invariants() {
    let mut camera = RtsCamera {
        yaw: 6_200_000,
        zoom_velocity: 4_900_000,
        pan_velocity: Vec2Fixed { x: 4_000_000, y: -3_000_000 },
        turn_velocity: 1_400_000,
        last_scroll_sec: 0,
        zoom_distance: 99_000_000,
    };
    let zoom = ZoomSettings::new();
    let pan = PanSettings::new();
    let turn = TurnSettings::new();
    let input = FrameInput {
        delta: 100_000,
        now: 2_000_000,
        // Cursor in the top-right corner: turning plus vertical panning.
        cursor: Some(Vec2Fixed { x: 799_000_000, y: 599_000_000 }),
        window: Vec2Fixed { x: 800_000_000, y: 600_000_000 },
        scroll: Some(-2_000_000),
        pressed: vec![KeyCode::W, KeyCode::Equals],
    };
    camera.step(&input, &zoom, &pan, &turn).unwrap();
    assert!(camera.zoom_distance >= zoom.distance_range.min);
    assert!(camera.zoom_distance <= zoom.distance_range.max);
    assert!(camera.yaw >= turn.yaw_range.min && camera.yaw <= turn.yaw_range.max);
    assert!(camera.zoom_velocity <= zoom.max_velocity);
    assert!(camera.turn_velocity >= -turn.max_speed && camera.turn_velocity <= turn.max_speed);
    let sx = camera.pan_velocity.x as i128;
    let sy = camera.pan_velocity.y as i128;
    let m = pan.max_speed as i128;
    assert!(sx * sx + sy * sy <= m * m);
    assert_eq!(camera.last_scroll_sec, 2_000_000);
}

#[test]
fn keyboard_pan_accelerates_and_edge_cursor_turns() {
    let zoom = ZoomSettings::new();
    let pan = PanSettings::new();
    let turn = TurnSettings::new();
    // Holding D pans right: 5.0 * 0.1 = 0.5 units from the key, and the
    // still-armed negative-direction decay pushes a further
    // min(17.5 * 0.1, 0.5) = 0.5 the same way (the decay pair only disarms
    // the direction of the active input).
    let mut camera = RtsCamera::default();
    let mut input = quiet_input(100_000, 1_000_000);
    input.pressed = vec![KeyCode::D];
    camera.step(&input, &zoom, &pan, &turn).unwrap();
    assert_eq!(camera.pan_velocity.x, 1_000_000);
    // Cursor in the top-left corner turns left instead of panning:
    // 0.3 * 0.1 = 0.03 from the mouse, doubled by the same armed decay.
    let mut camera = RtsCamera::default();
    let mut input = quiet_input(100_000, 1_000_000);
    input.cursor = Some(Vec2Fixed { x: 1_000_000, y: 599_000_000 });
    camera.step(&input, &zoom, &pan, &turn).unwrap();
    assert_eq!(camera.turn_velocity, 60_000);
    assert_eq!(camera.pan_velocity.x, 0);
    // Cursor at the left edge below the turn zone pans left instead:
    // -15.0 * 0.1 = -1.5 from the mouse, doubled by the armed decay.
    let mut camera = RtsCamera::default();
    let mut input = quiet_input(100_000, 1_000_000);
    input.cursor = Some(Vec2Fixed { x: 1_000_000, y: 300_000_000 });
    camera.step(&input, &zoom, &pan, &turn).unwrap();
    assert_eq!(camera.pan_velocity.x, -3_000_000);
    assert_eq!(camera.turn_velocity, 0);
}

#[test]
fn turn_key_accelerates_with_the_armed_decay() {
    let zoom = ZoomSettings::new();
    let pan = PanSettings::new();
    let turn = TurnSettings::new();
    let mut camera = RtsCamera::default();
    let mut input = quiet_input(100_000, 1_000_000);
    input.pressed = vec![KeyCode::Q];
    camera.step(&input, &zoom, &pan, &turn).unwrap();
    // 1.8 * 0.1 = 0.18 from the key, plus min(5.0 * 0.1, 0.18) from the
    // decay still armed in the positive direction.
    assert_eq!(camera.turn_velocity, 360_000);
}

#[test]
fn zoom_key_alone_is_cancelled_by_the_armed_decay() {
    // A held zoom key clears the decay flag of the positive direction while
    // pushing the velocity negative; the still-armed negative-direction
    // decay pushes back by the same magnitude, so from rest the velocity
    // stays at zero under the default accelerations.  Scroll input, which
    // the grace window shields, is the effective zoom control.
    let zoom = ZoomSettings::new();
    let pan = PanSettings::new();
    let turn = TurnSettings::new();
    let mut camera = RtsCamera::default();
    let mut input = quiet_input(100_000, 1_000_000);
    input.pressed = vec![KeyCode::Equals];
    camera.step(&input, &zoom, &pan, &turn).unwrap();
    assert_eq!(camera.zoom_velocity, 0);
}

#[test]
fn zoom_integrates_and_distance_stays_in_range() {
    let zoom = ZoomSettings::new();
    let pan = PanSettings::new();
    let turn = TurnSettings::new();
    let mut camera = RtsCamera::default();
    camera.zoom_velocity = -2_000_000;
    camera.last_scroll_sec = 999_000;
    // Inside the grace window, so the velocity is not decayed this frame:
    // distance moves by -2.0 * 0.5 = -1.0 exactly.
    let input = quiet_input(500_000, 1_000_000);
    camera.step(&input, &zoom, &pan, &turn).unwrap();
    assert_eq!(camera.zoom_distance, 9_000_000);
    // A huge inward velocity pins the distance at the range floor.
    let mut camera = RtsCamera::default();
    camera.zoom_velocity = -500_000_000;
    camera.last_scroll_sec = 999_000;
    camera.step(&input, &zoom, &pan, &turn).unwrap();
    assert_eq!(camera.zoom_distance, zoom.distance_range.min);
}

#[test]
fn frame_effect_reports_pan_displacement() {
    let zoom = ZoomSettings::new();
    let pan = PanSettings::new();
    let turn = TurnSettings::new();
    let mut camera = RtsCamera::default();
    camera.pan_velocity = Vec2Fixed { x: 1_000_000, y: 2_000_000 };
    camera.last_scroll_sec = 999_000;
    // Pan decay switched off so the displacement formula is read exactly.
    let mut pan_cfg = pan.clone();
    pan_cfg.idle_deceleration = 0;
    let input = quiet_input(500_000, 1_000_000);
    let eff: FrameEffect = camera.step(&input, &zoom, &pan_cfg, &turn).unwrap();
    // The distance 10.0 sits above the angle range used as the factor zone,
    // so the factor clamps to its end, 2.0; displacement is
    // velocity * delta * factor = v * 0.5 * 2.0 = v.
    assert_eq!(eff.pan_dx, 1_000_000);
    assert_eq!(eff.pan_dy, 2_000_000);
}
