//! The three configuration records that parameterize the per-frame update:
//! zoom, pan and turn.  Each is read-only during a frame, may be shared
//! between cameras, and has a default constructor.  A record is usable by the
//! update only when it is well formed: ranges oriented the right way and all
//! magnitudes within the fixed-point configuration bound.

use vstd::prelude::*;

use crate::fixed::FixedRange;
use crate::fixed::MAX_MAG;
use crate::fixed::SCALE;
use crate::fixed::TAU_FIXED;
use crate::keys::KeyCode;

verus! {

/// Configuration of zooming toward and away from the focus point.
#[derive(Clone, Debug, PartialEq)]
pub struct ZoomSettings {
    /// The pitch angles (radians) reached at the ends of `angle_change_zone`.
    pub angle_range: FixedRange,
    /// The distance band inside which the pitch changes with the distance;
    /// outside it the camera only zooms.
    pub angle_change_zone: FixedRange,
    /// The distances the camera may be from the focus point.
    pub distance_range: FixedRange,
    /// Initial zoom velocity a camera may be seeded with.
    pub velocity: i64,
    /// Cap on the outward zoom velocity; inward velocity is deliberately
    /// uncapped.
    pub max_velocity: i64,
    /// Velocity change per line scrolled; scroll ticks are discrete, so frame
    /// time is not folded in.
    pub scroll_accel: i64,
    /// Acceleration applied while a zoom key is held.
    pub keyboard_accel: i64,
    /// Velocity decay while nothing zooms.
    pub idle_deceleration: i64,
    /// Keys which zoom toward the focus point.
    pub zoom_in_keys: Vec<KeyCode>,
    /// Keys which zoom away from the focus point.
    pub zoom_out_keys: Vec<KeyCode>,
}

impl ZoomSettings {
    /// Well-formed: interpolation zones strictly oriented, every magnitude
    /// within the configuration bound, accelerations and caps non-negative.
    pub open spec fn wf(&self) -> bool {
        &&& -MAX_MAG <= self.angle_range.min
        &&& self.angle_range.min < self.angle_range.max
        &&& self.angle_range.max <= MAX_MAG
        &&& -MAX_MAG <= self.angle_change_zone.min
        &&& self.angle_change_zone.min < self.angle_change_zone.max
        &&& self.angle_change_zone.max <= MAX_MAG
        &&& -MAX_MAG <= self.distance_range.min
        &&& self.distance_range.min <= self.distance_range.max
        &&& self.distance_range.max <= MAX_MAG
        &&& -MAX_MAG <= self.velocity <= MAX_MAG
        &&& 0 <= self.max_velocity <= MAX_MAG
        &&& 0 <= self.scroll_accel <= MAX_MAG
        &&& 0 <= self.keyboard_accel <= MAX_MAG
        &&& 0 <= self.idle_deceleration <= MAX_MAG
    }

    /// The default zoom configuration.
    pub fn new() -> (r: Self)
        ensures
            r.wf(),
            r.angle_range == (FixedRange { min: 570_569, max: 1_163_753 }),
            r.angle_change_zone == (FixedRange { min: 5_000_000, max: 100_000_000 }),
            r.distance_range == (FixedRange { min: 5_000_000, max: 100_000_000 }),
            r.velocity == 0,
            r.max_velocity == 5_000_000,
            r.scroll_accel == 5_000_000,
            r.keyboard_accel == 5_000_000,
            r.idle_deceleration == 5_000_000,
            r.zoom_in_keys@ == seq![KeyCode::Equals, KeyCode::NumpadAdd],
            r.zoom_out_keys@ == seq![KeyCode::NumpadSubtract, KeyCode::Minus],
    {
        let mut zoom_in_keys: Vec<KeyCode> = Vec::new();
        zoom_in_keys.push(KeyCode::Equals);
        zoom_in_keys.push(KeyCode::NumpadAdd);
        let mut zoom_out_keys: Vec<KeyCode> = Vec::new();
        zoom_out_keys.push(KeyCode::NumpadSubtract);
        zoom_out_keys.push(KeyCode::Minus);
        proof {
            assert(zoom_in_keys@ =~= seq![KeyCode::Equals, KeyCode::NumpadAdd]);
            assert(zoom_out_keys@ =~= seq![KeyCode::NumpadSubtract, KeyCode::Minus]);
        }
        ZoomSettings {
            angle_range: FixedRange { min: 570_569, max: 1_163_753 },
            angle_change_zone: FixedRange { min: 5_000_000, max: 100_000_000 },
            distance_range: FixedRange { min: 5_000_000, max: 100_000_000 },
            velocity: 0,
            max_velocity: 5_000_000,
            scroll_accel: 5_000_000,
            keyboard_accel: 5_000_000,
            idle_deceleration: 5_000_000,
            zoom_in_keys,
            zoom_out_keys,
        }
    }
}

impl Default for ZoomSettings {
    /// The default zoom configuration: the same record `new` builds.
    fn default() -> (r: Self)
        ensures
            r.wf(),
            r.angle_range == (FixedRange { min: 570_569, max: 1_163_753 }),
            r.angle_change_zone == (FixedRange { min: 5_000_000, max: 100_000_000 }),
            r.distance_range == (FixedRange { min: 5_000_000, max: 100_000_000 }),
            r.velocity == 0,
            r.max_velocity == 5_000_000,
            r.scroll_accel == 5_000_000,
            r.keyboard_accel == 5_000_000,
            r.idle_deceleration == 5_000_000,
            r.zoom_in_keys@ == seq![KeyCode::Equals, KeyCode::NumpadAdd],
            r.zoom_out_keys@ == seq![KeyCode::NumpadSubtract, KeyCode::Minus],
    {
        ZoomSettings::new()
    }
}

/// Configuration of panning across the ground plane.
#[derive(Clone, Debug, PartialEq)]
pub struct PanSettings {
    /// Acceleration applied while the cursor sits in an edge margin.
    pub mouse_accel: i64,
    /// Width of the window-edge band inside which the mouse pans.
    pub mouse_accel_margin: i64,
    /// Acceleration applied while a pan key is held.
    pub keyboard_accel: i64,
    /// Cap on the length of the pan-velocity vector.
    pub max_speed: i64,
    /// Velocity decay while nothing pans in a direction.
    pub idle_deceleration: i64,
    /// Pan speed factor interpolated against the zoom settings' angle range:
    /// the start value applies nearest, the end value farthest.
    pub pan_speed_zoom_factor_range: FixedRange,
    /// Keys which pan left.
    pub left_keys: Vec<KeyCode>,
    /// Keys which pan right.
    pub right_keys: Vec<KeyCode>,
    /// Keys which pan away from the viewer.
    pub up_keys: Vec<KeyCode>,
    /// Keys which pan toward the viewer.
    pub down_keys: Vec<KeyCode>,
}

impl PanSettings {
    /// Well-formed: all magnitudes within the configuration bound and
    /// non-negative.  The factor range may run downward: a pan factor that
    /// shrinks as the camera zooms out is a valid configuration.
    pub open spec fn wf(&self) -> bool {
        &&& 0 <= self.mouse_accel <= MAX_MAG
        &&& 0 <= self.mouse_accel_margin <= MAX_MAG
        &&& 0 <= self.keyboard_accel <= MAX_MAG
        &&& 0 <= self.max_speed <= MAX_MAG
        &&& 0 <= self.idle_deceleration <= MAX_MAG
        &&& -MAX_MAG <= self.pan_speed_zoom_factor_range.min <= MAX_MAG
        &&& -MAX_MAG <= self.pan_speed_zoom_factor_range.max <= MAX_MAG
    }

    /// The default pan configuration.
    pub fn new() -> (r: Self)
        ensures
            r.wf(),
            r.mouse_accel == 15_000_000,
            r.mouse_accel_margin == 10_000_000,
            r.keyboard_accel == 5_000_000,
            r.max_speed == 5_000_000,
            r.idle_deceleration == 17_500_000,
            r.pan_speed_zoom_factor_range == (FixedRange { min: 1_000_000, max: 2_000_000 }),
            r.left_keys@ == seq![KeyCode::Left, KeyCode::A],
            r.right_keys@ == seq![KeyCode::Right, KeyCode::D],
            r.up_keys@ == seq![KeyCode::Up, KeyCode::W],
            r.down_keys@ == seq![KeyCode::Down, KeyCode::S],
    {
        let mut left_keys: Vec<KeyCode> = Vec::new();
        left_keys.push(KeyCode::Left);
        left_keys.push(KeyCode::A);
        let mut right_keys: Vec<KeyCode> = Vec::new();
        right_keys.push(KeyCode::Right);
        right_keys.push(KeyCode::D);
        let mut up_keys: Vec<KeyCode> = Vec::new();
        up_keys.push(KeyCode::Up);
        up_keys.push(KeyCode::W);
        let mut down_keys: Vec<KeyCode> = Vec::new();
        down_keys.push(KeyCode::Down);
        down_keys.push(KeyCode::S);
        proof {
            assert(left_keys@ =~= seq![KeyCode::Left, KeyCode::A]);
            assert(right_keys@ =~= seq![KeyCode::Right, KeyCode::D]);
            assert(up_keys@ =~= seq![KeyCode::Up, KeyCode::W]);
            assert(down_keys@ =~= seq![KeyCode::Down, KeyCode::S]);
        }
        PanSettings {
            mouse_accel: 15_000_000,
            mouse_accel_margin: 10_000_000,
            keyboard_accel: 5_000_000,
            max_speed: 5_000_000,
            idle_deceleration: 17_500_000,
            pan_speed_zoom_factor_range: FixedRange { min: 1_000_000, max: 2_000_000 },
            left_keys,
            right_keys,
            up_keys,
            down_keys,
        }
    }
}

impl Default for PanSettings {
    /// The default pan configuration: the same record `new` builds.
    fn default() -> (r: Self)
        ensures
            r.wf(),
            r.mouse_accel == 15_000_000,
            r.mouse_accel_margin == 10_000_000,
            r.keyboard_accel == 5_000_000,
            r.max_speed == 5_000_000,
            r.idle_deceleration == 17_500_000,
            r.pan_speed_zoom_factor_range == (FixedRange { min: 1_000_000, max: 2_000_000 }),
            r.left_keys@ == seq![KeyCode::Left, KeyCode::A],
            r.right_keys@ == seq![KeyCode::Right, KeyCode::D],
            r.up_keys@ == seq![KeyCode::Up, KeyCode::W],
            r.down_keys@ == seq![KeyCode::Down, KeyCode::S],
    {
        PanSettings::new()
    }
}

/// Configuration of turning (yaw) around the focus point.
#[derive(Clone, Debug, PartialEq)]
pub struct TurnSettings {
    /// Fraction of the window height, measured from the top, inside which an
    /// edge cursor turns instead of panning.
    pub mouse_turn_margin: i64,
    /// The yaw angles (radians) the camera may turn to.
    pub yaw_range: FixedRange,
    /// Acceleration applied while the cursor sits in a turn corner.
    pub mouse_accel: i64,
    /// Acceleration applied while a turn key is held.
    pub keyboard_accel: i64,
    /// Cap on the magnitude of the turn velocity.
    pub max_speed: i64,
    /// Velocity decay while nothing turns.
    pub idle_deceleration: i64,
    /// Keys which turn left.
    pub left_keys: Vec<KeyCode>,
    /// Keys which turn right.
    pub right_keys: Vec<KeyCode>,
}

impl TurnSettings {
    /// Well-formed: the margin is a fraction of one, the yaw range sits
    /// inside one full turn, and all magnitudes are bounded.
    pub open spec fn wf(&self) -> bool {
        &&& 0 <= self.mouse_turn_margin <= SCALE
        &&& 0 <= self.yaw_range.min
        &&& self.yaw_range.min <= self.yaw_range.max
        &&& self.yaw_range.max <= TAU_FIXED
        &&& 0 <= self.mouse_accel <= MAX_MAG
        &&& 0 <= self.keyboard_accel <= MAX_MAG
        &&& 0 <= self.max_speed <= MAX_MAG
        &&& 0 <= self.idle_deceleration <= MAX_MAG
    }

    /// The default turn configuration.
    pub fn new() -> (r: Self)
        ensures
            r.wf(),
            r.mouse_turn_margin == 250_000,
            r.yaw_range == (FixedRange { min: 0, max: TAU_FIXED }),
            r.mouse_accel == 300_000,
            r.keyboard_accel == 1_800_000,
            r.max_speed == 1_500_000,
            r.idle_deceleration == 5_000_000,
            r.left_keys@ == seq![KeyCode::Q],
            r.right_keys@ == seq![KeyCode::E],
    {
        let mut left_keys: Vec<KeyCode> = Vec::new();
        left_keys.push(KeyCode::Q);
        let mut right_keys: Vec<KeyCode> = Vec::new();
        right_keys.push(KeyCode::E);
        proof {
            assert(left_keys@ =~= seq![KeyCode::Q]);
            assert(right_keys@ =~= seq![KeyCode::E]);
        }
        TurnSettings {
            mouse_turn_margin: 250_000,
            yaw_range: FixedRange { min: 0, max: TAU_FIXED },
            mouse_accel: 300_000,
            keyboard_accel: 1_800_000,
            max_speed: 1_500_000,
            idle_deceleration: 5_000_000,
            left_keys,
            right_keys,
        }
    }
}

impl Default for TurnSettings {
    /// The default turn configuration: the same record `new` builds.
    fn default() -> (r: Self)
        ensures
            r.wf(),
            r.mouse_turn_margin == 250_000,
            r.yaw_range == (FixedRange { min: 0, max: TAU_FIXED }),
            r.mouse_accel == 300_000,
            r.keyboard_accel == 1_800_000,
            r.max_speed == 1_500_000,
            r.idle_deceleration == 5_000_000,
            r.left_keys@ == seq![KeyCode::Q],
            r.right_keys@ == seq![KeyCode::E],
    {
        TurnSettings::new()
    }
}

} // verus!
