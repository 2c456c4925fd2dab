//! The camera state and the per-frame update.  `tick` consumes one frame of
//! input (cursor, window size, pressed keys, the latest scroll event, frame
//! time and clock) and the three settings records, and advances the momenta,
//! the zoom distance and the yaw exactly as `spec_tick` describes; it returns
//! the frame's pose and displacement for the host to turn into a world
//! transform.  `step` wraps `tick` with the documented skip when the host
//! reports no cursor.

use vstd::prelude::*;

use crate::decel::spec_decel_apply;
use crate::decel::Deceleration;
use crate::fixed::clamp;
use crate::fixed::fx_mul;
use crate::fixed::lemma_fx_mul_bound;
use crate::fixed::pan_limit;
use crate::fixed::sat_add;
use crate::fixed::spec_clamp;
use crate::fixed::spec_fx_mul;
use crate::fixed::spec_lerp_in_zone;
use crate::fixed::spec_pan_limit;
use crate::fixed::spec_sat;
use crate::fixed::spec_speed_sq;
use crate::fixed::lerp_in_zone;
use crate::fixed::FixedRange;
use crate::fixed::Vec2Fixed;
use crate::fixed::MAX_DELTA;
use crate::fixed::MAX_MAG;
use crate::fixed::MAX_SCROLL;
use crate::fixed::MAX_TIME;
use crate::fixed::SCALE;
use crate::fixed::TAU_FIXED;
use crate::fixed::VEL_BOUND;
use crate::fixed::VEL_LIMIT;
use crate::keys::spec_any_pressed;
use crate::keys::any_pressed;
use crate::keys::KeyCode;
use crate::settings::PanSettings;
use crate::settings::TurnSettings;
use crate::settings::ZoomSettings;

verus! {

/// Seconds (fixed point) after a scroll event during which idle deceleration
/// of the zoom velocity is suppressed, so scrolling is not throttled between
/// discrete ticks.
pub const SCROLL_GRACE: i64 = 50_000;

/// The state of one orbit camera: the accumulated yaw, the three momenta,
/// the zoom distance and the time of the last scroll event.  The focus point
/// and the orientation quaternion are not stored: the pose is derived anew
/// each frame from this state and handed out as a `FrameEffect`.
#[derive(Clone, Copy, Debug, PartialEq, Eq, Structural)]
pub struct RtsCamera {
    /// The angle the camera has turned to the right, radians in `[0, 2*pi]`.
    pub yaw: i64,
    /// The velocity at which the camera zooms in (negative) or out.
    pub zoom_velocity: i64,
    /// The velocity at which the camera pans, camera-local right and forward.
    pub pan_velocity: Vec2Fixed,
    /// The velocity at which the camera turns.
    pub turn_velocity: i64,
    /// The time of the most recent scroll event.
    pub last_scroll_sec: i64,
    /// The distance from the focus point to the camera eye point.
    pub zoom_distance: i64,
}

/// Mathematical model of a camera state.
#[verifier::ext_equal]
pub ghost struct CamModel {
    pub yaw: int,
    pub zoom_velocity: int,
    pub pan_x: int,
    pub pan_y: int,
    pub turn_velocity: int,
    pub last_scroll_sec: int,
    pub zoom_distance: int,
}

impl View for RtsCamera {
    type V = CamModel;

    open spec fn view(&self) -> CamModel {
        CamModel {
            yaw: self.yaw as int,
            zoom_velocity: self.zoom_velocity as int,
            pan_x: self.pan_velocity.x as int,
            pan_y: self.pan_velocity.y as int,
            turn_velocity: self.turn_velocity as int,
            last_scroll_sec: self.last_scroll_sec as int,
            zoom_distance: self.zoom_distance as int,
        }
    }
}

/// A camera state the update accepts: velocities inside the stored band,
/// distance inside the configuration bound, yaw inside one turn, clock
/// non-negative.  The update preserves this.
pub open spec fn cam_wf(c: CamModel) -> bool {
    &&& -VEL_BOUND <= c.zoom_velocity <= VEL_BOUND
    &&& -VEL_BOUND <= c.pan_x <= VEL_BOUND
    &&& -VEL_BOUND <= c.pan_y <= VEL_BOUND
    &&& -VEL_BOUND <= c.turn_velocity <= VEL_BOUND
    &&& -MAX_MAG <= c.zoom_distance <= MAX_MAG
    &&& 0 <= c.yaw <= TAU_FIXED
    &&& 0 <= c.last_scroll_sec <= MAX_TIME
}

/// What one frame hands back to the host: the new yaw and pitch (the pose),
/// the angle the focus must be rotated around the eye point, and the
/// camera-local pan displacement to add to the focus after rotating it by
/// the yaw.
#[derive(Clone, Copy, Debug, PartialEq, Eq, Structural)]
pub struct FrameEffect {
    /// The yaw after this frame, radians.
    pub yaw: i64,
    /// The pitch after this frame, interpolated from the zoom distance.
    pub pitch: i64,
    /// The angle to rotate the focus point around the eye point.
    pub turn_angle: i64,
    /// Pan displacement along the camera-local right axis.
    pub pan_dx: i64,
    /// Pan displacement along the camera-local forward-on-ground axis.
    pub pan_dy: i64,
}

/// Mathematical model of a frame effect.
#[verifier::ext_equal]
pub ghost struct EffectModel {
    pub yaw: int,
    pub pitch: int,
    pub turn_angle: int,
    pub pan_dx: int,
    pub pan_dy: int,
}

impl View for FrameEffect {
    type V = EffectModel;

    open spec fn view(&self) -> EffectModel {
        EffectModel {
            yaw: self.yaw as int,
            pitch: self.pitch as int,
            turn_angle: self.turn_angle as int,
            pan_dx: self.pan_dx as int,
            pan_dy: self.pan_dy as int,
        }
    }
}

/// One frame of input as the host hands it over: frame time, session clock,
/// the cursor if it is inside the window, the window size, the latest
/// unconsumed scroll amount, and the pressed keys.
pub struct FrameInput {
    /// Seconds since the previous frame.
    pub delta: i64,
    /// Seconds since the session started.
    pub now: i64,
    /// Cursor position in window coordinates, absent when outside.
    pub cursor: Option<Vec2Fixed>,
    /// Window width and height in cursor units.
    pub window: Vec2Fixed,
    /// Signed vertical amount of the latest scroll event this frame.
    pub scroll: Option<i64>,
    /// The keys currently held down.
    pub pressed: Vec<KeyCode>,
}

/// Picks the frame's scroll amount from the scroll events the host collected
/// since the previous frame: the latest one, or none.
pub fn latest_scroll(events: &Vec<i64>) -> (r: Option<i64>)
    ensures
        events@.len() == 0 ==> r is None,
        events@.len() > 0 ==> r == Some(events@[events@.len() - 1]),
{
    if events.len() == 0 {
        None
    } else {
        Some(events[events.len() - 1])
    }
}

/// Input bounds the update accepts.
pub open spec fn input_wf(input: FrameInput) -> bool {
    &&& 0 <= input.delta <= MAX_DELTA
    &&& 0 <= input.now <= MAX_TIME
    &&& 0 <= input.window.x <= MAX_MAG
    &&& 0 <= input.window.y <= MAX_MAG
    &&& match input.scroll {
        Some(y) => -MAX_SCROLL <= y <= MAX_SCROLL,
        None => true,
    }
}

/// The cursor sits in the left acceleration margin.
pub open spec fn cursor_at_left(cursor: Vec2Fixed, pan: PanSettings) -> bool {
    cursor.x < pan.mouse_accel_margin
}

/// The cursor sits in the right acceleration margin (the left margin wins).
pub open spec fn cursor_at_right(cursor: Vec2Fixed, window: Vec2Fixed, pan: PanSettings) -> bool {
    !cursor_at_left(cursor, pan) && cursor.x > window.x - pan.mouse_accel_margin
}

/// The cursor sits in the bottom acceleration margin.
pub open spec fn cursor_at_bottom(cursor: Vec2Fixed, pan: PanSettings) -> bool {
    cursor.y < pan.mouse_accel_margin
}

/// The cursor sits in the top acceleration margin (the bottom margin wins).
pub open spec fn cursor_at_top(cursor: Vec2Fixed, window: Vec2Fixed, pan: PanSettings) -> bool {
    !cursor_at_bottom(cursor, pan) && cursor.y > window.y - pan.mouse_accel_margin
}

/// The cursor sits in the top fraction of the window where a side margin
/// turns the camera instead of panning it.
pub open spec fn cursor_in_turn_zone(cursor: Vec2Fixed, window: Vec2Fixed, turn: TurnSettings) -> bool {
    cursor.y > spec_fx_mul(window.y as int, SCALE - turn.mouse_turn_margin)
}

/// Turn-velocity accumulation for one frame, in execution order: the mouse
/// margin first, then the right and left key bindings.
#[verifier::opaque]
pub open spec fn spec_accum_turn(
    v: int,
    mouse_left: bool,
    mouse_right: bool,
    key_right: bool,
    key_left: bool,
    turn: TurnSettings,
    delta: int,
) -> int {
    let v1 = if mouse_left {
        spec_sat(v + spec_fx_mul(turn.mouse_accel as int, delta))
    } else if mouse_right {
        spec_sat(v - spec_fx_mul(turn.mouse_accel as int, delta))
    } else {
        v
    };
    let v2 = if key_right {
        spec_sat(v1 - spec_fx_mul(turn.keyboard_accel as int, delta))
    } else {
        v1
    };
    if key_left {
        spec_sat(v2 + spec_fx_mul(turn.keyboard_accel as int, delta))
    } else {
        v2
    }
}

/// Horizontal pan-velocity accumulation for one frame, in execution order.
#[verifier::opaque]
pub open spec fn spec_accum_pan_x(
    v: int,
    mouse_left: bool,
    mouse_right: bool,
    key_right: bool,
    key_left: bool,
    pan: PanSettings,
    delta: int,
) -> int {
    let v1 = if mouse_left {
        spec_sat(v - spec_fx_mul(pan.mouse_accel as int, delta))
    } else if mouse_right {
        spec_sat(v + spec_fx_mul(pan.mouse_accel as int, delta))
    } else {
        v
    };
    let v2 = if key_right {
        spec_sat(v1 + spec_fx_mul(pan.keyboard_accel as int, delta))
    } else {
        v1
    };
    if key_left {
        spec_sat(v2 - spec_fx_mul(pan.keyboard_accel as int, delta))
    } else {
        v2
    }
}

/// Vertical pan-velocity accumulation for one frame, in execution order.
#[verifier::opaque]
pub open spec fn spec_accum_pan_y(
    v: int,
    mouse_bottom: bool,
    mouse_top: bool,
    key_up: bool,
    key_down: bool,
    pan: PanSettings,
    delta: int,
) -> int {
    let v1 = if mouse_bottom {
        spec_sat(v - spec_fx_mul(pan.mouse_accel as int, delta))
    } else if mouse_top {
        spec_sat(v + spec_fx_mul(pan.mouse_accel as int, delta))
    } else {
        v
    };
    let v2 = if key_up {
        spec_sat(v1 + spec_fx_mul(pan.keyboard_accel as int, delta))
    } else {
        v1
    };
    if key_down {
        spec_sat(v2 - spec_fx_mul(pan.keyboard_accel as int, delta))
    } else {
        v2
    }
}

/// Zoom-velocity accumulation for one frame: the scroll amount scales the
/// scroll acceleration directly (no frame time, ticks are discrete), then
/// the zoom keys.
#[verifier::opaque]
pub open spec fn spec_accum_zoom(
    v: int,
    scroll: Option<i64>,
    key_in: bool,
    key_out: bool,
    zoom: ZoomSettings,
    delta: int,
) -> int {
    let v1 = match scroll {
        Some(y) => spec_sat(v - spec_fx_mul(y as int, zoom.scroll_accel as int)),
        None => v,
    };
    let v2 = if key_in {
        spec_sat(v1 - spec_fx_mul(zoom.keyboard_accel as int, delta))
    } else {
        v1
    };
    if key_out {
        spec_sat(v2 + spec_fx_mul(zoom.keyboard_accel as int, delta))
    } else {
        v2
    }
}

/// Wraps an accumulated yaw into `[0, 2*pi]` by one subtraction or one
/// addition of a full turn; turning by more than a full turn per frame is a
/// documented design limit and is not unwound further.
pub open spec fn spec_wrap_yaw(y: int) -> int {
    let y1 = if y > TAU_FIXED {
        y - TAU_FIXED
    } else {
        y
    };
    if y1 < 0 {
        y1 + TAU_FIXED
    } else {
        y1
    }
}

/// The complete frame update: input accumulation with per-direction
/// deceleration permits, idle deceleration, the velocity caps, zoom and turn
/// integration with the clamped ranges, the pitch and the pan-speed factor
/// interpolated from the new distance, and the pan displacement.
pub open spec fn spec_tick(
    c: CamModel,
    scroll: Option<i64>,
    cursor: Vec2Fixed,
    window: Vec2Fixed,
    pressed: Seq<KeyCode>,
    zoom: ZoomSettings,
    pan: PanSettings,
    turn: TurnSettings,
    delta: int,
    now: int,
) -> (CamModel, EffectModel) {
    let grace = now - c.last_scroll_sec < SCROLL_GRACE;
    let turn_zone = cursor_in_turn_zone(cursor, window, turn);
    let left = cursor_at_left(cursor, pan);
    let right = cursor_at_right(cursor, window, pan);
    let bottom = cursor_at_bottom(cursor, pan);
    let top = cursor_at_top(cursor, window, pan);
    let key_pan_right = spec_any_pressed(pan.right_keys@, pressed);
    let key_pan_left = spec_any_pressed(pan.left_keys@, pressed);
    let key_pan_up = spec_any_pressed(pan.up_keys@, pressed);
    let key_pan_down = spec_any_pressed(pan.down_keys@, pressed);
    let key_turn_right = spec_any_pressed(turn.right_keys@, pressed);
    let key_turn_left = spec_any_pressed(turn.left_keys@, pressed);
    let key_zoom_in = spec_any_pressed(zoom.zoom_in_keys@, pressed);
    let key_zoom_out = spec_any_pressed(zoom.zoom_out_keys@, pressed);
    let scroll_up = match scroll {
        Some(y) => y > 0,
        None => false,
    };
    let scroll_down = match scroll {
        Some(y) => y <= 0,
        None => false,
    };
    let turn_v = spec_accum_turn(
        c.turn_velocity,
        left && turn_zone,
        right && turn_zone,
        key_turn_right,
        key_turn_left,
        turn,
        delta,
    );
    let pan_x = spec_accum_pan_x(
        c.pan_x,
        left && !turn_zone,
        right && !turn_zone,
        key_pan_right,
        key_pan_left,
        pan,
        delta,
    );
    let pan_y = spec_accum_pan_y(c.pan_y, bottom, top, key_pan_up, key_pan_down, pan, delta);
    let zoom_v = spec_accum_zoom(c.zoom_velocity, scroll, key_zoom_in, key_zoom_out, zoom, delta);
    let last_scroll = if scroll is Some {
        now
    } else {
        c.last_scroll_sec
    };
    let x_decel = (Deceleration {
        pos: !(right && !turn_zone) && !key_pan_right,
        neg: !(left && !turn_zone) && !key_pan_left,
    });
    let y_decel = (Deceleration { pos: !top && !key_pan_up, neg: !bottom && !key_pan_down });
    let turn_decel = (Deceleration {
        pos: !(left && turn_zone) && !key_turn_left,
        neg: !(right && turn_zone) && !key_turn_right,
    });
    let zoom_decel = (Deceleration {
        pos: !grace && !scroll_up && !key_zoom_in,
        neg: !grace && !scroll_down && !key_zoom_out,
    });
    let turn_v4 = spec_decel_apply(turn_decel, turn_v, turn.idle_deceleration as int, delta);
    let zoom_v4 = spec_decel_apply(zoom_decel, zoom_v, zoom.idle_deceleration as int, delta);
    let pan_x4 = spec_decel_apply(x_decel, pan_x, pan.idle_deceleration as int, delta);
    let pan_y4 = spec_decel_apply(y_decel, pan_y, pan.idle_deceleration as int, delta);
    let capped = spec_pan_limit(pan_x4, pan_y4, pan.max_speed as int);
    let pan_x5 = capped.0;
    let pan_y5 = capped.1;
    let zoom_v5 = if zoom_v4 <= zoom.max_velocity {
        zoom_v4
    } else {
        zoom.max_velocity as int
    };
    let turn_v5 = spec_clamp(turn_v4, -(turn.max_speed as int), turn.max_speed as int);
    let dist = spec_clamp(
        c.zoom_distance + spec_fx_mul(zoom_v5, delta),
        zoom.distance_range.min as int,
        zoom.distance_range.max as int,
    );
    let angle = spec_fx_mul(turn_v5, delta);
    let yaw = spec_clamp(
        spec_wrap_yaw(c.yaw + angle),
        turn.yaw_range.min as int,
        turn.yaw_range.max as int,
    );
    let pitch = spec_lerp_in_zone(
        dist,
        zoom.angle_change_zone.min as int,
        zoom.angle_change_zone.max as int,
        zoom.angle_range.min as int,
        zoom.angle_range.max as int,
    );
    let factor = spec_lerp_in_zone(
        dist,
        zoom.angle_range.min as int,
        zoom.angle_range.max as int,
        pan.pan_speed_zoom_factor_range.min as int,
        pan.pan_speed_zoom_factor_range.max as int,
    );
    let pan_dx = spec_fx_mul(spec_fx_mul(pan_x5, delta), factor);
    let pan_dy = spec_fx_mul(spec_fx_mul(pan_y5, delta), factor);
    (
        CamModel {
            yaw,
            zoom_velocity: zoom_v5,
            pan_x: pan_x5,
            pan_y: pan_y5,
            turn_velocity: turn_v5,
            last_scroll_sec: last_scroll,
            zoom_distance: dist,
        },
        EffectModel { yaw, pitch, turn_angle: angle, pan_dx, pan_dy },
    )
}

/// Wraps a yaw into `[0, 2*pi]` by at most one full-turn correction.
pub fn wrap_yaw(y: i64) -> (r: i64)
    requires
        -4_000_000_000_000_000 <= y <= 4_000_000_000_000_000,
    ensures
        r as int == spec_wrap_yaw(y as int),
{
    let mut y1 = y;
    if y1 > TAU_FIXED {
        y1 = y1 - TAU_FIXED;
    }
    if y1 < 0 {
        y1 = y1 + TAU_FIXED;
    }
    y1
}

impl Default for RtsCamera {
    /// A camera at rest, ten units from its focus point.
    fn default() -> (r: Self)
        ensures
            r.yaw == 0,
            r.zoom_velocity == 0,
            r.pan_velocity.x == 0,
            r.pan_velocity.y == 0,
            r.turn_velocity == 0,
            r.last_scroll_sec == 0,
            r.zoom_distance == 10 * SCALE,
            cam_wf(r@),
    {
        RtsCamera {
            yaw: 0,
            zoom_velocity: 0,
            pan_velocity: Vec2Fixed { x: 0, y: 0 },
            turn_velocity: 0,
            last_scroll_sec: 0,
            zoom_distance: 10_000_000,
        }
    }
}

impl RtsCamera {
    /// Step 1 of the frame: input accumulation.  For each active input
    /// source the acceleration is added to the velocity of its axis and the
    /// deceleration permit of its direction is withdrawn; a scroll event
    /// also stamps the clock.  Returns the permits for turn, zoom, pan-x and
    /// pan-y in that order.
    #[verifier::rlimit(100)]
    fn accumulate(
        &mut self,
        scroll: Option<i64>,
        cursor: Vec2Fixed,
        window: Vec2Fixed,
        pressed: &Vec<KeyCode>,
        zoom: &ZoomSettings,
        pan: &PanSettings,
        turn: &TurnSettings,
        delta: i64,
        now: i64,
    ) -> (flags: (Deceleration, Deceleration, Deceleration, Deceleration))
        requires
            cam_wf(old(self)@),
            zoom.wf(),
            pan.wf(),
            turn.wf(),
            0 <= delta <= MAX_DELTA,
            0 <= now <= MAX_TIME,
            0 <= window.x <= MAX_MAG,
            0 <= window.y <= MAX_MAG,
            match scroll {
                Some(y) => -MAX_SCROLL <= y <= MAX_SCROLL,
                None => true,
            },
        ensures
            final(self).turn_velocity as int == spec_accum_turn(
                old(self)@.turn_velocity,
                cursor_at_left(cursor, *pan) && cursor_in_turn_zone(cursor, window, *turn),
                cursor_at_right(cursor, window, *pan) && cursor_in_turn_zone(cursor, window, *turn),
                spec_any_pressed(turn.right_keys@, pressed@),
                spec_any_pressed(turn.left_keys@, pressed@),
                *turn,
                delta as int,
            ),
            final(self).pan_velocity.x as int == spec_accum_pan_x(
                old(self)@.pan_x,
                cursor_at_left(cursor, *pan) && !cursor_in_turn_zone(cursor, window, *turn),
                cursor_at_right(cursor, window, *pan) && !cursor_in_turn_zone(cursor, window, *turn),
                spec_any_pressed(pan.right_keys@, pressed@),
                spec_any_pressed(pan.left_keys@, pressed@),
                *pan,
                delta as int,
            ),
            final(self).pan_velocity.y as int == spec_accum_pan_y(
                old(self)@.pan_y,
                cursor_at_bottom(cursor, *pan),
                cursor_at_top(cursor, window, *pan),
                spec_any_pressed(pan.up_keys@, pressed@),
                spec_any_pressed(pan.down_keys@, pressed@),
                *pan,
                delta as int,
            ),
            final(self).zoom_velocity as int == spec_accum_zoom(
                old(self)@.zoom_velocity,
                scroll,
                spec_any_pressed(zoom.zoom_in_keys@, pressed@),
                spec_any_pressed(zoom.zoom_out_keys@, pressed@),
                *zoom,
                delta as int,
            ),
            final(self).last_scroll_sec as int == (if scroll is Some {
                now as int
            } else {
                old(self).last_scroll_sec as int
            }),
            final(self).yaw == old(self).yaw,
            final(self).zoom_distance == old(self).zoom_distance,
            flags.0 == (Deceleration {
                pos: !(cursor_at_left(cursor, *pan) && cursor_in_turn_zone(cursor, window, *turn))
                    && !spec_any_pressed(turn.left_keys@, pressed@),
                neg: !(cursor_at_right(cursor, window, *pan) && cursor_in_turn_zone(
                    cursor,
                    window,
                    *turn,
                )) && !spec_any_pressed(turn.right_keys@, pressed@),
            }),
            flags.1 == (Deceleration {
                pos: !(now - old(self).last_scroll_sec < SCROLL_GRACE) && !(scroll matches Some(y)
                    && y > 0) && !spec_any_pressed(zoom.zoom_in_keys@, pressed@),
                neg: !(now - old(self).last_scroll_sec < SCROLL_GRACE) && !(scroll matches Some(y)
                    && y <= 0) && !spec_any_pressed(zoom.zoom_out_keys@, pressed@),
            }),
            flags.2 == (Deceleration {
                pos: !(cursor_at_right(cursor, window, *pan) && !cursor_in_turn_zone(
                    cursor,
                    window,
                    *turn,
                )) && !spec_any_pressed(pan.right_keys@, pressed@),
                neg: !(cursor_at_left(cursor, *pan) && !cursor_in_turn_zone(cursor, window, *turn))
                    && !spec_any_pressed(pan.left_keys@, pressed@),
            }),
            flags.3 == (Deceleration {
                pos: !cursor_at_top(cursor, window, *pan) && !spec_any_pressed(
                    pan.up_keys@,
                    pressed@,
                ),
                neg: !cursor_at_bottom(cursor, *pan) && !spec_any_pressed(pan.down_keys@, pressed@),
            }),
            flags.0.pos != flags.0.neg ==> -VEL_LIMIT <= final(self).turn_velocity <= VEL_LIMIT,
            flags.1.pos != flags.1.neg ==> -VEL_LIMIT <= final(self).zoom_velocity <= VEL_LIMIT,
            flags.2.pos != flags.2.neg ==> -VEL_LIMIT <= final(self).pan_velocity.x <= VEL_LIMIT,
            flags.3.pos != flags.3.neg ==> -VEL_LIMIT <= final(self).pan_velocity.y <= VEL_LIMIT,
            cam_wf(final(self)@),
    {
        let key_pan_right = any_pressed(&pan.right_keys, pressed);
        let key_pan_left = any_pressed(&pan.left_keys, pressed);
        let key_pan_up = any_pressed(&pan.up_keys, pressed);
        let key_pan_down = any_pressed(&pan.down_keys, pressed);
        let key_turn_right = any_pressed(&turn.right_keys, pressed);
        let key_turn_left = any_pressed(&turn.left_keys, pressed);
        let key_zoom_in = any_pressed(&zoom.zoom_in_keys, pressed);
        let key_zoom_out = any_pressed(&zoom.zoom_out_keys, pressed);
        let grace = now - self.last_scroll_sec < SCROLL_GRACE;
        proof {
            lemma_fx_mul_bound(
                window.y as int,
                (SCALE - turn.mouse_turn_margin) as int,
                MAX_MAG as int,
                SCALE as int,
            );
            lemma_fx_mul_bound(
                turn.mouse_accel as int,
                delta as int,
                MAX_MAG as int,
                MAX_DELTA as int,
            );
            lemma_fx_mul_bound(pan.mouse_accel as int, delta as int, MAX_MAG as int, MAX_DELTA as int);
            lemma_fx_mul_bound(
                turn.keyboard_accel as int,
                delta as int,
                MAX_MAG as int,
                MAX_DELTA as int,
            );
            lemma_fx_mul_bound(
                pan.keyboard_accel as int,
                delta as int,
                MAX_MAG as int,
                MAX_DELTA as int,
            );
            lemma_fx_mul_bound(
                zoom.keyboard_accel as int,
                delta as int,
                MAX_MAG as int,
                MAX_DELTA as int,
            );
        }
        let turn_threshold = fx_mul(window.y, SCALE - turn.mouse_turn_margin);
        let in_turn_zone = cursor.y > turn_threshold;
        let mut x_decel = Deceleration { pos: true, neg: true };
        let mut y_decel = Deceleration { pos: true, neg: true };
        let mut turn_decel = Deceleration { pos: true, neg: true };
        let mut zoom_decel = if grace {
            Deceleration { pos: false, neg: false }
        } else {
            Deceleration { pos: true, neg: true }
        };

        // Window-edge margins first.
        if cursor.x < pan.mouse_accel_margin {
            if in_turn_zone {
                self.turn_velocity = sat_add(self.turn_velocity, fx_mul(turn.mouse_accel, delta));
                turn_decel.pos = false;
            } else {
                self.pan_velocity.x = sat_add(self.pan_velocity.x, -fx_mul(pan.mouse_accel, delta));
                x_decel.neg = false;
            }
        } else if cursor.x > window.x - pan.mouse_accel_margin {
            if in_turn_zone {
                self.turn_velocity = sat_add(self.turn_velocity, -fx_mul(turn.mouse_accel, delta));
                turn_decel.neg = false;
            } else {
                self.pan_velocity.x = sat_add(self.pan_velocity.x, fx_mul(pan.mouse_accel, delta));
                x_decel.pos = false;
            }
        }
        if cursor.y < pan.mouse_accel_margin {
            self.pan_velocity.y = sat_add(self.pan_velocity.y, -fx_mul(pan.mouse_accel, delta));
            y_decel.neg = false;
        } else if cursor.y > window.y - pan.mouse_accel_margin {
            self.pan_velocity.y = sat_add(self.pan_velocity.y, fx_mul(pan.mouse_accel, delta));
            y_decel.pos = false;
        }

        // Key bindings.
        if key_pan_right {
            self.pan_velocity.x = sat_add(self.pan_velocity.x, fx_mul(pan.keyboard_accel, delta));
            x_decel.pos = false;
        }
        if key_pan_left {
            self.pan_velocity.x = sat_add(self.pan_velocity.x, -fx_mul(pan.keyboard_accel, delta));
            x_decel.neg = false;
        }
        if key_pan_up {
            self.pan_velocity.y = sat_add(self.pan_velocity.y, fx_mul(pan.keyboard_accel, delta));
            y_decel.pos = false;
        }
        if key_pan_down {
            self.pan_velocity.y = sat_add(self.pan_velocity.y, -fx_mul(pan.keyboard_accel, delta));
            y_decel.neg = false;
        }
        if key_turn_right {
            self.turn_velocity = sat_add(self.turn_velocity, -fx_mul(turn.keyboard_accel, delta));
            turn_decel.neg = false;
        }
        if key_turn_left {
            self.turn_velocity = sat_add(self.turn_velocity, fx_mul(turn.keyboard_accel, delta));
            turn_decel.pos = false;
        }

        // The latest scroll event, then the zoom keys.
        if let Some(y) = scroll {
            if y > 0 {
                zoom_decel.pos = false;
            } else {
                zoom_decel.neg = false;
            }
            proof {
                lemma_fx_mul_bound(
                    y as int,
                    zoom.scroll_accel as int,
                    MAX_SCROLL as int,
                    MAX_MAG as int,
                );
            }
            self.zoom_velocity = sat_add(self.zoom_velocity, -fx_mul(y, zoom.scroll_accel));
            self.last_scroll_sec = now;
        }
        if key_zoom_in {
            self.zoom_velocity = sat_add(self.zoom_velocity, -fx_mul(zoom.keyboard_accel, delta));
            zoom_decel.pos = false;
        }
        if key_zoom_out {
            self.zoom_velocity = sat_add(self.zoom_velocity, fx_mul(zoom.keyboard_accel, delta));
            zoom_decel.neg = false;
        }
        proof {
            assert(self.turn_velocity as int == spec_accum_turn(
                old(self)@.turn_velocity,
                cursor_at_left(cursor, *pan) && cursor_in_turn_zone(cursor, window, *turn),
                cursor_at_right(cursor, window, *pan) && cursor_in_turn_zone(cursor, window, *turn),
                spec_any_pressed(turn.right_keys@, pressed@),
                spec_any_pressed(turn.left_keys@, pressed@),
                *turn,
                delta as int,
            )) by {
                reveal(spec_accum_turn);
            };
            assert(self.pan_velocity.x as int == spec_accum_pan_x(
                old(self)@.pan_x,
                cursor_at_left(cursor, *pan) && !cursor_in_turn_zone(cursor, window, *turn),
                cursor_at_right(cursor, window, *pan) && !cursor_in_turn_zone(cursor, window, *turn),
                spec_any_pressed(pan.right_keys@, pressed@),
                spec_any_pressed(pan.left_keys@, pressed@),
                *pan,
                delta as int,
            )) by {
                reveal(spec_accum_pan_x);
            };
            assert(self.pan_velocity.y as int == spec_accum_pan_y(
                old(self)@.pan_y,
                cursor_at_bottom(cursor, *pan),
                cursor_at_top(cursor, window, *pan),
                spec_any_pressed(pan.up_keys@, pressed@),
                spec_any_pressed(pan.down_keys@, pressed@),
                *pan,
                delta as int,
            )) by {
                reveal(spec_accum_pan_y);
            };
            assert(self.zoom_velocity as int == spec_accum_zoom(
                old(self)@.zoom_velocity,
                scroll,
                spec_any_pressed(zoom.zoom_in_keys@, pressed@),
                spec_any_pressed(zoom.zoom_out_keys@, pressed@),
                *zoom,
                delta as int,
            )) by {
                reveal(spec_accum_zoom);
            };
        }
        (turn_decel, zoom_decel, x_decel, y_decel)
    }

    /// Advances the camera by one frame and returns the frame's pose and
    /// displacement.  The state after the call is exactly `spec_tick` of the
    /// state before it; the clamping invariants hold of every result.
    #[verifier::rlimit(100)]
    pub fn tick(
        &mut self,
        scroll: Option<i64>,
        cursor: Vec2Fixed,
        window: Vec2Fixed,
        pressed: &Vec<KeyCode>,
        zoom: &ZoomSettings,
        pan: &PanSettings,
        turn: &TurnSettings,
        delta: i64,
        now: i64,
    ) -> (eff: FrameEffect)
        requires
            cam_wf(old(self)@),
            zoom.wf(),
            pan.wf(),
            turn.wf(),
            0 <= delta <= MAX_DELTA,
            0 <= now <= MAX_TIME,
            0 <= window.x <= MAX_MAG,
            0 <= window.y <= MAX_MAG,
            match scroll {
                Some(y) => -MAX_SCROLL <= y <= MAX_SCROLL,
                None => true,
            },
        ensures
            final(self)@ == spec_tick(
                old(self)@,
                scroll,
                cursor,
                window,
                pressed@,
                *zoom,
                *pan,
                *turn,
                delta as int,
                now as int,
            ).0,
            eff@ == spec_tick(
                old(self)@,
                scroll,
                cursor,
                window,
                pressed@,
                *zoom,
                *pan,
                *turn,
                delta as int,
                now as int,
            ).1,
            cam_wf(final(self)@),
            zoom.distance_range.min <= final(self).zoom_distance <= zoom.distance_range.max,
            turn.yaw_range.min <= final(self).yaw <= turn.yaw_range.max,
            final(self).zoom_velocity <= zoom.max_velocity,
            -turn.max_speed <= final(self).turn_velocity <= turn.max_speed,
            spec_speed_sq(final(self).pan_velocity.x as int, final(self).pan_velocity.y as int) <= (
            pan.max_speed as int) * (pan.max_speed as int),
            zoom.angle_range.min <= eff.pitch <= zoom.angle_range.max,
            scroll is Some ==> final(self).last_scroll_sec == now,
            scroll is None ==> final(self).last_scroll_sec == old(self).last_scroll_sec,
    {
        let ghost c0 = old(self)@;
        let ghost d = delta as int;

        // Step 1: input accumulation with the deceleration permits.
        let flags = self.accumulate(scroll, cursor, window, pressed, zoom, pan, turn, delta, now);
        let turn_decel = flags.0;
        let zoom_decel = flags.1;
        let x_decel = flags.2;
        let y_decel = flags.3;
        let ghost g_turn_acc = self.turn_velocity as int;
        let ghost g_zoom_acc = self.zoom_velocity as int;
        let ghost g_x_acc = self.pan_velocity.x as int;
        let ghost g_y_acc = self.pan_velocity.y as int;

        // Step 2: idle deceleration per axis.
        let ghost g_turn4 = spec_decel_apply(turn_decel, g_turn_acc, turn.idle_deceleration as int, d);
        let ghost g_zoom4 = spec_decel_apply(zoom_decel, g_zoom_acc, zoom.idle_deceleration as int, d);
        let ghost g_x4 = spec_decel_apply(x_decel, g_x_acc, pan.idle_deceleration as int, d);
        let ghost g_y4 = spec_decel_apply(y_decel, g_y_acc, pan.idle_deceleration as int, d);
        let mut turn_v = self.turn_velocity;
        turn_decel.apply(&mut turn_v, turn.idle_deceleration, delta);
        self.turn_velocity = turn_v;
        let mut zoom_v = self.zoom_velocity;
        zoom_decel.apply(&mut zoom_v, zoom.idle_deceleration, delta);
        self.zoom_velocity = zoom_v;
        let mut pan_vx = self.pan_velocity.x;
        x_decel.apply(&mut pan_vx, pan.idle_deceleration, delta);
        self.pan_velocity.x = pan_vx;
        let mut pan_vy = self.pan_velocity.y;
        y_decel.apply(&mut pan_vy, pan.idle_deceleration, delta);
        self.pan_velocity.y = pan_vy;

        // Step 3: velocity caps; the pan vector length, the outward zoom
        // velocity (inward stays uncapped), the turn magnitude.
        let ghost g_capped = spec_pan_limit(g_x4, g_y4, pan.max_speed as int);
        let ghost g_zoom5: int = if g_zoom4 <= zoom.max_velocity {
            g_zoom4
        } else {
            zoom.max_velocity as int
        };
        let ghost g_turn5 = spec_clamp(g_turn4, -(turn.max_speed as int), turn.max_speed as int);
        self.pan_velocity = pan_limit(self.pan_velocity, pan.max_speed);
        if self.zoom_velocity > zoom.max_velocity {
            self.zoom_velocity = zoom.max_velocity;
        }
        self.turn_velocity = clamp(
            self.turn_velocity,
            &FixedRange { min: -turn.max_speed, max: turn.max_speed },
        );
        proof {
            assert(self.pan_velocity.x as int == g_capped.0);
            assert(self.pan_velocity.y as int == g_capped.1);
            assert(self.zoom_velocity as int == g_zoom5);
            assert(self.turn_velocity as int == g_turn5);
        }

        // Step 4: integrate the zoom distance.
        proof {
            lemma_fx_mul_bound(
                self.zoom_velocity as int,
                delta as int,
                VEL_BOUND as int,
                MAX_DELTA as int,
            );
        }
        let dz = fx_mul(self.zoom_velocity, delta);
        self.zoom_distance = clamp(self.zoom_distance + dz, &zoom.distance_range);
        let ghost g_dist = spec_clamp(
            c0.zoom_distance + spec_fx_mul(g_zoom5, d),
            zoom.distance_range.min as int,
            zoom.distance_range.max as int,
        );
        proof {
            assert(self.zoom_distance as int == g_dist);
        }

        // Step 5: integrate the turn; wrap the yaw by one full turn at most,
        // then clamp it into the configured range.
        proof {
            lemma_fx_mul_bound(
                self.turn_velocity as int,
                delta as int,
                MAX_MAG as int,
                MAX_DELTA as int,
            );
        }
        let angle = fx_mul(self.turn_velocity, delta);
        self.yaw = clamp(wrap_yaw(self.yaw + angle), &turn.yaw_range);
        let ghost g_angle = spec_fx_mul(g_turn5, d);
        let ghost g_yaw = spec_clamp(
            spec_wrap_yaw(c0.yaw + g_angle),
            turn.yaw_range.min as int,
            turn.yaw_range.max as int,
        );
        proof {
            assert(angle as int == g_angle);
            assert(self.yaw as int == g_yaw);
        }

        // Steps 6 and 7: the pose; pitch from the distance, and the pan
        // displacement scaled by the distance factor.
        let pitch = lerp_in_zone(self.zoom_distance, &zoom.angle_change_zone, &zoom.angle_range);
        let factor = lerp_in_zone(
            self.zoom_distance,
            &zoom.angle_range,
            &pan.pan_speed_zoom_factor_range,
        );
        proof {
            lemma_fx_mul_bound(
                self.pan_velocity.x as int,
                delta as int,
                MAX_MAG as int,
                MAX_DELTA as int,
            );
            lemma_fx_mul_bound(
                self.pan_velocity.y as int,
                delta as int,
                MAX_MAG as int,
                MAX_DELTA as int,
            );
        }
        let step_x = fx_mul(self.pan_velocity.x, delta);
        let step_y = fx_mul(self.pan_velocity.y, delta);
        proof {
            lemma_fx_mul_bound(step_x as int, factor as int, 2_000_000_000_000, MAX_MAG as int);
            lemma_fx_mul_bound(step_y as int, factor as int, 2_000_000_000_000, MAX_MAG as int);
        }
        let pan_dx = fx_mul(step_x, factor);
        let pan_dy = fx_mul(step_y, factor);
        let eff = FrameEffect { yaw: self.yaw, pitch, turn_angle: angle, pan_dx, pan_dy };
        proof {
            let ghost g_last: int = if scroll is Some {
                now as int
            } else {
                c0.last_scroll_sec
            };
            let ghost g_pitch = spec_lerp_in_zone(
                g_dist,
                zoom.angle_change_zone.min as int,
                zoom.angle_change_zone.max as int,
                zoom.angle_range.min as int,
                zoom.angle_range.max as int,
            );
            let ghost g_factor = spec_lerp_in_zone(
                g_dist,
                zoom.angle_range.min as int,
                zoom.angle_range.max as int,
                pan.pan_speed_zoom_factor_range.min as int,
                pan.pan_speed_zoom_factor_range.max as int,
            );
            let ghost g_cam = CamModel {
                yaw: g_yaw,
                zoom_velocity: g_zoom5,
                pan_x: g_capped.0,
                pan_y: g_capped.1,
                turn_velocity: g_turn5,
                last_scroll_sec: g_last,
                zoom_distance: g_dist,
            };
            let ghost g_eff = EffectModel {
                yaw: g_yaw,
                pitch: g_pitch,
                turn_angle: g_angle,
                pan_dx: spec_fx_mul(spec_fx_mul(g_capped.0, d), g_factor),
                pan_dy: spec_fx_mul(spec_fx_mul(g_capped.1, d), g_factor),
            };
            let ghost spec_result = spec_tick(
                c0,
                scroll,
                cursor,
                window,
                pressed@,
                *zoom,
                *pan,
                *turn,
                d,
                now as int,
            );
            assert(spec_result.0 =~= g_cam);
            assert(spec_result.1 =~= g_eff);
            assert(self@ =~= g_cam);
            assert(eff@ =~= g_eff);
        }
        eff
    }
    /// One frame of the camera system for one camera: skipped wholesale when
    /// the host reports no cursor inside the window (the state and hence the
    /// derived transform stay exactly as they were), otherwise a `tick`.
    pub fn step(
        &mut self,
        input: &FrameInput,
        zoom: &ZoomSettings,
        pan: &PanSettings,
        turn: &TurnSettings,
    ) -> (eff: Option<FrameEffect>)
        requires
            cam_wf(old(self)@),
            input_wf(*input),
            zoom.wf(),
            pan.wf(),
            turn.wf(),
        ensures
            input.cursor is None ==> *final(self) == *old(self) && eff is None,
            input.cursor matches Some(cur) ==> final(self)@ == spec_tick(
                old(self)@,
                input.scroll,
                cur,
                input.window,
                input.pressed@,
                *zoom,
                *pan,
                *turn,
                input.delta as int,
                input.now as int,
            ).0,
            input.cursor matches Some(cur) ==> (eff matches Some(e) && e@ == spec_tick(
                old(self)@,
                input.scroll,
                cur,
                input.window,
                input.pressed@,
                *zoom,
                *pan,
                *turn,
                input.delta as int,
                input.now as int,
            ).1),
            cam_wf(final(self)@),
            input.cursor is Some ==> zoom.distance_range.min <= final(self).zoom_distance
                <= zoom.distance_range.max,
            input.cursor is Some ==> turn.yaw_range.min <= final(self).yaw <= turn.yaw_range.max,
            input.cursor is Some ==> final(self).zoom_velocity <= zoom.max_velocity,
            input.cursor is Some ==> -turn.max_speed <= final(self).turn_velocity <= turn.max_speed,
            input.cursor is Some ==> spec_speed_sq(
                final(self).pan_velocity.x as int,
                final(self).pan_velocity.y as int,
            ) <= (pan.max_speed as int) * (pan.max_speed as int),
    {
        match input.cursor {
            None => None,
            Some(cur) => {
                let e = self.tick(
                    input.scroll,
                    cur,
                    input.window,
                    &input.pressed,
                    zoom,
                    pan,
                    turn,
                    input.delta,
                    input.now,
                );
                Some(e)
            },
        }
    }
}

} // verus!
