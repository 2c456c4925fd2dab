//! Frame-to-frame laws of the update, proved over `spec_tick`: the no-input
//! steady state, deceleration monotonicity, the scroll grace window, and the
//! yaw wrap.

use vstd::prelude::*;

use crate::camera::cursor_at_bottom;
use crate::camera::cursor_at_left;
use crate::camera::cursor_at_right;
use crate::camera::cursor_at_top;
use crate::camera::spec_accum_pan_x;
use crate::camera::spec_accum_pan_y;
use crate::camera::spec_accum_turn;
use crate::camera::spec_accum_zoom;
use crate::camera::spec_tick;
use crate::camera::spec_wrap_yaw;
use crate::camera::CamModel;
use crate::camera::SCROLL_GRACE;
use crate::decel::lemma_decel_apply_toward_zero;
use crate::decel::spec_decel_apply;
use crate::decel::Deceleration;
use crate::fixed::abs_i;
use crate::fixed::spec_fx_mul;
use crate::fixed::spec_pan_limit;
use crate::fixed::spec_speed_sq;
use crate::fixed::Vec2Fixed;
use crate::fixed::TAU_FIXED;
use crate::keys::spec_any_pressed;
use crate::keys::KeyCode;
use crate::settings::PanSettings;
use crate::settings::TurnSettings;
use crate::settings::ZoomSettings;

verus! {

/// No input source is active this frame: no scroll event, the cursor clear
/// of every window-edge margin, and no bound key pressed.
pub open spec fn spec_no_active_input(
    scroll: Option<i64>,
    cursor: Vec2Fixed,
    window: Vec2Fixed,
    pressed: Seq<KeyCode>,
    zoom: ZoomSettings,
    pan: PanSettings,
    turn: TurnSettings,
) -> bool {
    &&& scroll is None
    &&& !cursor_at_left(cursor, pan)
    &&& !cursor_at_right(cursor, window, pan)
    &&& !cursor_at_bottom(cursor, pan)
    &&& !cursor_at_top(cursor, window, pan)
    &&& !spec_any_pressed(pan.right_keys@, pressed)
    &&& !spec_any_pressed(pan.left_keys@, pressed)
    &&& !spec_any_pressed(pan.up_keys@, pressed)
    &&& !spec_any_pressed(pan.down_keys@, pressed)
    &&& !spec_any_pressed(turn.right_keys@, pressed)
    &&& !spec_any_pressed(turn.left_keys@, pressed)
    &&& !spec_any_pressed(zoom.zoom_in_keys@, pressed)
    &&& !spec_any_pressed(zoom.zoom_out_keys@, pressed)
}

/// With no active input and all velocities already zero, a frame changes
/// nothing: the state comes back identical and the frame effects no turn and
/// no displacement.  In fixed point this holds exactly, with no noise term.
/// The premises that the distance and yaw already sit inside their
/// configured ranges are the state invariants every update establishes; a
/// first frame clamps an out-of-range seed and is not an identity.
pub proof fn lemma_steady_state(
    c: CamModel,
    scroll: Option<i64>,
    cursor: Vec2Fixed,
    window: Vec2Fixed,
    pressed: Seq<KeyCode>,
    zoom: ZoomSettings,
    pan: PanSettings,
    turn: TurnSettings,
    delta: int,
    now: int,
)
    requires
        zoom.wf(),
        pan.wf(),
        turn.wf(),
        spec_no_active_input(scroll, cursor, window, pressed, zoom, pan, turn),
        c.zoom_velocity == 0,
        c.pan_x == 0,
        c.pan_y == 0,
        c.turn_velocity == 0,
        zoom.distance_range.min <= c.zoom_distance <= zoom.distance_range.max,
        turn.yaw_range.min <= c.yaw <= turn.yaw_range.max,
    ensures
        spec_tick(c, scroll, cursor, window, pressed, zoom, pan, turn, delta, now).0 == c,
        spec_tick(c, scroll, cursor, window, pressed, zoom, pan, turn, delta, now).1.turn_angle
            == 0,
        spec_tick(c, scroll, cursor, window, pressed, zoom, pan, turn, delta, now).1.pan_dx == 0,
        spec_tick(c, scroll, cursor, window, pressed, zoom, pan, turn, delta, now).1.pan_dy == 0,
{
    reveal(spec_accum_turn);
    reveal(spec_accum_pan_x);
    reveal(spec_accum_pan_y);
    reveal(spec_accum_zoom);
    let r = spec_tick(c, scroll, cursor, window, pressed, zoom, pan, turn, delta, now).0;
    assert(0 * delta == 0);
    assert(spec_fx_mul(0, delta) == 0);
    assert(forall|f: int| 0 * f == 0 && #[trigger] spec_fx_mul(0, f) == 0);
    assert(0 <= (pan.max_speed as int) * (pan.max_speed as int)) by (nonlinear_arith)
        requires
            0 <= pan.max_speed as int,
    ;
    assert(spec_speed_sq(0, 0) == 0);
    assert(spec_pan_limit(0, 0, pan.max_speed as int) == ((0int, 0int)));
    assert(c.yaw <= TAU_FIXED);
    assert(spec_wrap_yaw(c.yaw) == c.yaw);
    assert(r =~= c);
}

/// With no active input, a nonzero velocity, and the scroll grace window
/// expired, each momentum moves strictly toward zero whenever the frame's
/// decay step `idle_deceleration * delta` is at least one fixed-point unit,
/// lands exactly on zero once it is within one step, never flips sign, and a
/// zero velocity stays zero.
pub proof fn lemma_idle_deceleration(
    c: CamModel,
    scroll: Option<i64>,
    cursor: Vec2Fixed,
    window: Vec2Fixed,
    pressed: Seq<KeyCode>,
    zoom: ZoomSettings,
    pan: PanSettings,
    turn: TurnSettings,
    delta: int,
    now: int,
)
    requires
        zoom.wf(),
        pan.wf(),
        turn.wf(),
        spec_no_active_input(scroll, cursor, window, pressed, zoom, pan, turn),
        now - c.last_scroll_sec >= SCROLL_GRACE,
        c.zoom_velocity <= zoom.max_velocity,
        spec_speed_sq(c.pan_x, c.pan_y) <= (pan.max_speed as int) * (pan.max_speed as int),
        -turn.max_speed <= c.turn_velocity <= turn.max_speed,
    ensures
        ({
            let r = spec_tick(c, scroll, cursor, window, pressed, zoom, pan, turn, delta, now).0;
            &&& abs_i(r.turn_velocity) <= abs_i(c.turn_velocity)
            &&& abs_i(r.zoom_velocity) <= abs_i(c.zoom_velocity)
            &&& abs_i(r.pan_x) <= abs_i(c.pan_x)
            &&& abs_i(r.pan_y) <= abs_i(c.pan_y)
            &&& (c.turn_velocity != 0 && abs_i(
                spec_fx_mul(turn.idle_deceleration as int, delta),
            ) >= 1 ==> abs_i(r.turn_velocity) < abs_i(c.turn_velocity))
            &&& (c.zoom_velocity != 0 && abs_i(spec_fx_mul(zoom.idle_deceleration as int, delta))
                >= 1 ==> abs_i(r.zoom_velocity) < abs_i(c.zoom_velocity))
            &&& (c.pan_x != 0 && abs_i(spec_fx_mul(pan.idle_deceleration as int, delta)) >= 1
                ==> abs_i(r.pan_x) < abs_i(c.pan_x))
            &&& (c.pan_y != 0 && abs_i(spec_fx_mul(pan.idle_deceleration as int, delta)) >= 1
                ==> abs_i(r.pan_y) < abs_i(c.pan_y))
            &&& (c.turn_velocity != 0 && abs_i(c.turn_velocity) <= abs_i(
                spec_fx_mul(turn.idle_deceleration as int, delta),
            ) ==> r.turn_velocity == 0)
            &&& (c.zoom_velocity != 0 && abs_i(c.zoom_velocity) <= abs_i(
                spec_fx_mul(zoom.idle_deceleration as int, delta),
            ) ==> r.zoom_velocity == 0)
            &&& (c.pan_x != 0 && abs_i(c.pan_x) <= abs_i(
                spec_fx_mul(pan.idle_deceleration as int, delta),
            ) ==> r.pan_x == 0)
            &&& (c.pan_y != 0 && abs_i(c.pan_y) <= abs_i(
                spec_fx_mul(pan.idle_deceleration as int, delta),
            ) ==> r.pan_y == 0)
            &&& (c.turn_velocity == 0 ==> r.turn_velocity == 0)
            &&& (c.zoom_velocity == 0 ==> r.zoom_velocity == 0)
            &&& (c.pan_x == 0 ==> r.pan_x == 0)
            &&& (c.pan_y == 0 ==> r.pan_y == 0)
            &&& (c.turn_velocity >= 0 ==> r.turn_velocity >= 0)
            &&& (c.turn_velocity <= 0 ==> r.turn_velocity <= 0)
            &&& (c.zoom_velocity >= 0 ==> r.zoom_velocity >= 0)
            &&& (c.zoom_velocity <= 0 ==> r.zoom_velocity <= 0)
            &&& (c.pan_x >= 0 ==> r.pan_x >= 0)
            &&& (c.pan_x <= 0 ==> r.pan_x <= 0)
            &&& (c.pan_y >= 0 ==> r.pan_y >= 0)
            &&& (c.pan_y <= 0 ==> r.pan_y <= 0)
        }),
{
    reveal(spec_accum_turn);
    reveal(spec_accum_pan_x);
    reveal(spec_accum_pan_y);
    reveal(spec_accum_zoom);
    let both = Deceleration { pos: true, neg: true };
    let turn_v4 = spec_decel_apply(both, c.turn_velocity, turn.idle_deceleration as int, delta);
    let zoom_v4 = spec_decel_apply(both, c.zoom_velocity, zoom.idle_deceleration as int, delta);
    let x4 = spec_decel_apply(both, c.pan_x, pan.idle_deceleration as int, delta);
    let y4 = spec_decel_apply(both, c.pan_y, pan.idle_deceleration as int, delta);
    lemma_decel_apply_toward_zero(both, c.turn_velocity, turn.idle_deceleration as int, delta);
    lemma_decel_apply_toward_zero(both, c.zoom_velocity, zoom.idle_deceleration as int, delta);
    lemma_decel_apply_toward_zero(both, c.pan_x, pan.idle_deceleration as int, delta);
    lemma_decel_apply_toward_zero(both, c.pan_y, pan.idle_deceleration as int, delta);
    assert(x4 * x4 + y4 * y4 <= c.pan_x * c.pan_x + c.pan_y * c.pan_y) by (nonlinear_arith)
        requires
            abs_i(x4) <= abs_i(c.pan_x),
            abs_i(y4) <= abs_i(c.pan_y),
    ;
    assert(spec_pan_limit(x4, y4, pan.max_speed as int) == ((x4, y4)));
    assert(zoom_v4 <= zoom.max_velocity);
    assert(-turn.max_speed <= turn_v4 <= turn.max_speed);
}

/// A zoom velocity set by a scroll event at time `t` is shielded from idle
/// deceleration on every later frame with `now - t` inside the grace window
/// (absent further scroll or zoom-key input): the frame returns it
/// unchanged.
pub proof fn lemma_scroll_grace_shields(
    c: CamModel,
    scroll: Option<i64>,
    cursor: Vec2Fixed,
    window: Vec2Fixed,
    pressed: Seq<KeyCode>,
    zoom: ZoomSettings,
    pan: PanSettings,
    turn: TurnSettings,
    delta: int,
    now: int,
)
    requires
        zoom.wf(),
        scroll is None,
        !spec_any_pressed(zoom.zoom_in_keys@, pressed),
        !spec_any_pressed(zoom.zoom_out_keys@, pressed),
        now - c.last_scroll_sec < SCROLL_GRACE,
        c.zoom_velocity <= zoom.max_velocity,
    ensures
        spec_tick(c, scroll, cursor, window, pressed, zoom, pan, turn, delta, now).0.zoom_velocity
            == c.zoom_velocity,
{
    reveal(spec_accum_zoom);
}

/// Once the grace window has expired and no scroll or zoom key is active, a
/// nonzero zoom velocity is eligible for idle deceleration again: it moves
/// strictly toward zero whenever the decay step is at least one fixed-point
/// unit.
pub proof fn lemma_scroll_grace_expiry(
    c: CamModel,
    scroll: Option<i64>,
    cursor: Vec2Fixed,
    window: Vec2Fixed,
    pressed: Seq<KeyCode>,
    zoom: ZoomSettings,
    pan: PanSettings,
    turn: TurnSettings,
    delta: int,
    now: int,
)
    requires
        zoom.wf(),
        scroll is None,
        !spec_any_pressed(zoom.zoom_in_keys@, pressed),
        !spec_any_pressed(zoom.zoom_out_keys@, pressed),
        now - c.last_scroll_sec >= SCROLL_GRACE,
        c.zoom_velocity != 0,
        c.zoom_velocity <= zoom.max_velocity,
        abs_i(spec_fx_mul(zoom.idle_deceleration as int, delta)) >= 1,
    ensures
        abs_i(
            spec_tick(
                c,
                scroll,
                cursor,
                window,
                pressed,
                zoom,
                pan,
                turn,
                delta,
                now,
            ).0.zoom_velocity,
        ) < abs_i(c.zoom_velocity),
{
    reveal(spec_accum_zoom);
    let both = Deceleration { pos: true, neg: true };
    let zoom_v4 = spec_decel_apply(both, c.zoom_velocity, zoom.idle_deceleration as int, delta);
    lemma_decel_apply_toward_zero(both, c.zoom_velocity, zoom.idle_deceleration as int, delta);
    assert(zoom_v4 <= zoom.max_velocity);
}

/// The yaw wrap: an accumulated angle at most one full turn above `2 * pi`
/// comes back by subtracting exactly `2 * pi`; one below `0` comes back by
/// adding exactly `2 * pi`; inside `[0, 2 * pi]` it is untouched.
pub proof fn lemma_yaw_wrap(y: int)
    ensures
        TAU_FIXED < y <= 2 * TAU_FIXED ==> spec_wrap_yaw(y) == y - TAU_FIXED,
        -TAU_FIXED <= y < 0 ==> spec_wrap_yaw(y) == y + TAU_FIXED,
        0 <= y <= TAU_FIXED ==> spec_wrap_yaw(y) == y,
        -TAU_FIXED <= y <= 2 * TAU_FIXED ==> 0 <= spec_wrap_yaw(y) <= TAU_FIXED,
{
}

} // verus!
