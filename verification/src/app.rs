//! The frame driver: owns the viewport, camera, cyclic selectors, world
//! and subsystem set; executes one update step per call — measure elapsed
//! time, smooth it, advance the camera, translate input into domain
//! events, dispatch them, run the subsystem pipeline in fixed order, and
//! report the frame's timing.

use vstd::prelude::*;
use crate::geometry::{Position, FP_ONE};
use crate::cycle::Cycle;
use crate::numeric::{mul_frac, mul_div_trunc, abs_int};
use crate::camera::{Inertial, Direction, push_spec, vel_step_spec, pos_step_spec, DT_MAX};
use crate::timing::{MovingAverage, seq_sum, fps_spec, fps_of};
use crate::input::{InputState, Key, key_index_spec};
use crate::ev;
use crate::world::{World, Agent};
use crate::systems::{System, Physics, Ai};
use vstd::arithmetic::div_mod::lemma_div_nonincreasing;

verus! {

/// An HDR color in milli-units per channel: 1000 stands for channel
/// intensity 1.0.
#[derive(Clone, Copy, Debug, PartialEq, Eq, Structural)]
pub struct Rgba {
    pub r: u32,
    pub g: u32,
    pub b: u32,
    pub a: u32,
}

/// The largest viewport side and scale the driver accepts, in pixels.
pub const VIEW_MAX: u32 = 1_000_000;

/// Window and world-mapping geometry.  Replaced wholesale on resize:
/// ratio and scale are never mutated independently of width and height.
pub struct Viewport {
    pub width: u32,
    pub height: u32,
    /// Width over height, in milli-units.
    pub ratio: u32,
    /// World units spanned by the viewport's width.
    pub scale: u32,
}

impl Viewport {
    pub open spec fn wf(&self) -> bool {
        &&& 1 <= self.width <= VIEW_MAX
        &&& 1 <= self.height <= VIEW_MAX
        &&& 1 <= self.scale <= VIEW_MAX
        &&& self.ratio == self.width as int * 1000 / self.height as int
    }

    /// Build a viewport; ratio is recomputed from the sides.
    pub fn rect(w: u32, h: u32, scale: u32) -> (v: Viewport)
        requires
            1 <= w <= VIEW_MAX,
            1 <= h <= VIEW_MAX,
            1 <= scale <= VIEW_MAX,
        ensures
            v.wf(),
            v.width == w,
            v.height == h,
            v.scale == scale,
            v.ratio == w as int * 1000 / h as int,
    {
        Viewport { width: w, height: h, ratio: ((w as u64) * 1000 / (h as u64)) as u32, scale }
    }

    /// The world x-coordinate under pixel column `x`: centered on the
    /// viewport middle, then scaled so the width spans `scale` world
    /// units — `(x - width/2) / (width/scale)` in exact fixed-point form.
    pub open spec fn to_world_x_spec(&self, x: int) -> int {
        mul_div_trunc(2 * x - self.width, self.scale * FP_ONE, 2 * self.width)
    }

    /// The world y-coordinate under pixel row `y`: screen y grows
    /// downward, world y grows upward, and the divisor is the same
    /// width-derived one as for x.
    pub open spec fn to_world_y_spec(&self, y: int) -> int {
        mul_div_trunc(self.height - 2 * y, self.scale * FP_ONE, 2 * self.width)
    }

    /// Map a pixel position to camera-independent world space.  The
    /// transform is linear for every coordinate, on or off the viewport;
    /// the bound of eight viewport spans on either side is a machine
    /// limit keeping the fixed-point result inside `i64`.
    pub fn to_world(&self, x: i64, y: i64) -> (p: Position)
        requires
            self.wf(),
            -8 * self.width <= x <= 8 * self.width,
            -8 * self.height <= y <= 8 * self.height,
        ensures
            p.x == self.to_world_x_spec(x as int),
            p.y == self.to_world_y_spec(y as int),
            -8_500_000_000_000_000_000 <= p.x <= 8_500_000_000_000_000_000,
            -8_500_000_000_000_000_000 <= p.y <= 8_500_000_000_000_000_000,
    {
        let num: u64 = (self.scale as u64) * (FP_ONE as u64);
        let den: u64 = 2 * (self.width as u64);
        let ax: i64 = 2 * x - self.width as i64;
        let ay: i64 = self.height as i64 - 2 * y;
        proof {
            assert(abs_int(ax as int) <= 17 * VIEW_MAX);
            assert(abs_int(ay as int) <= 17 * VIEW_MAX);
            lemma_pixel_product_bound(ax as int, num as int, den as int);
            lemma_pixel_product_bound(ay as int, num as int, den as int);
        }
        let px = mul_frac(ax, num, den);
        let py = mul_frac(ay, num, den);
        Position { x: px, y: py }
    }
}

/// The scaled pixel offset stays far inside `i64` before and after the
/// division.
proof fn lemma_pixel_product_bound(a: int, num: int, den: int)
    requires
        abs_int(a) <= 17 * VIEW_MAX,
        0 < num <= VIEW_MAX * FP_ONE,
        den >= 2,
    ensures
        (abs_int(a) * num) / den <= 8_500_000_000_000_000_000,
        abs_int(mul_div_trunc(a, num, den)) <= 8_500_000_000_000_000_000,
{
    assert(abs_int(a) * num <= 17_000_000_000_000_000_000) by (nonlinear_arith)
        requires
            0 <= abs_int(a) <= 17 * VIEW_MAX,
            0 < num <= VIEW_MAX * FP_ONE,
    ;
    assert((abs_int(a) * num) / den <= (abs_int(a) * num) / 2) by {
        vstd::arithmetic::div_mod::lemma_div_is_ordered_by_denominator(abs_int(a) * num, 2, den);
    };
    assert((abs_int(a) * num) / 2 <= 8_500_000_000_000_000_000);
    if a >= 0 {
        assert(mul_div_trunc(a, num, den) == (a * num) / den);
        lemma_div_nonincreasing(a * num, den);
    } else {
        lemma_div_nonincreasing(-a * num, den);
    }
}

/// Snapshot of the lighting environment: current light color, light
/// position and background color.  Recomputed on demand, never stored.
pub struct Environment {
    pub light: Rgba,
    pub light_position: Position,
    pub background: Rgba,
}

/// One frame's report.
pub struct Update {
    /// Total successful updates so far.
    pub frame_count: u32,
    /// Nanoseconds since the driver was constructed.
    pub wall_clock_elapsed: u64,
    /// Sum of all measured frame times, in nanoseconds.
    pub frame_elapsed: u64,
    /// This frame's raw measured time, in nanoseconds.
    pub frame_time: u64,
    /// Moving average of recent frame times, in nanoseconds.
    pub frame_time_smooth: u64,
    /// Reciprocal of the smoothed frame time.
    pub fps: u64,
}

/// The system clock could not produce a valid elapsed duration (it moved
/// backward).  Fatal to that frame's update; the caller decides whether
/// to skip the frame or abort.
#[derive(Clone, Copy, Debug, PartialEq, Eq, Structural)]
pub struct ClockError;

/// Room left under `u64::MAX` for identities handed out within one frame.
pub const MAX_EVENTS_PER_FRAME: u64 = 16;

/// The fixed palette the light selector cycles through.
pub open spec fn light_palette() -> Seq<Rgba> {
    seq![
        Rgba { r: 1000, g: 1000, b: 1000, a: 1000 },
        Rgba { r: 3100, g: 3100, b: 3100, a: 1000 },
        Rgba { r: 10_000, g: 10_000, b: 10_000, a: 1000 },
        Rgba { r: 31_000, g: 31_000, b: 31_000, a: 1000 },
        Rgba { r: 100_000, g: 100_000, b: 100_000, a: 1000 },
        Rgba { r: 1, g: 1, b: 1, a: 1000 },
        Rgba { r: 10, g: 10, b: 10, a: 1000 },
        Rgba { r: 100, g: 100, b: 100, a: 1000 },
        Rgba { r: 310, g: 310, b: 310, a: 500 },
    ]
}

/// The fixed palette the background selector cycles through.
pub open spec fn background_palette() -> Seq<Rgba> {
    seq![
        Rgba { r: 50, g: 70, b: 100, a: 1000 },
        Rgba { r: 500, g: 500, b: 500, a: 500 },
        Rgba { r: 1000, g: 1000, b: 1000, a: 1000 },
        Rgba { r: 3100, g: 3100, b: 3100, a: 1000 },
        Rgba { r: 10_000, g: 10_000, b: 10_000, a: 1000 },
        Rgba { r: 0, g: 0, b: 0, a: 1000 },
        Rgba { r: 10, g: 10, b: 10, a: 1000 },
    ]
}

/// What the frame driver itself owns and event dispatch may change:
/// camera state, the two selectors, the light position and the running
/// flag.  (The world's entities are tracked separately, since subsystems
/// own their own world effects.)
#[verifier::ext_equal]
pub struct DriverObs {
    pub cam_pos_x: int,
    pub cam_pos_y: int,
    pub cam_vel_x: int,
    pub cam_vel_y: int,
    pub cam_imp_x: int,
    pub cam_imp_y: int,
    pub lights: Seq<Rgba>,
    pub lights_index: int,
    pub backgrounds: Seq<Rgba>,
    pub backgrounds_index: int,
    pub light_position: Position,
    pub is_running: bool,
}

/// The effect of dispatching one domain event on the driver's own state.
/// Entity-creating events act on the world, not on this record.
pub open spec fn apply_event(s: DriverObs, e: ev::Event) -> DriverObs {
    match e {
        ev::Event::CamUp => DriverObs { cam_imp_y: push_spec(s.cam_imp_y, true), ..s },
        ev::Event::CamDown => DriverObs { cam_imp_y: push_spec(s.cam_imp_y, false), ..s },
        ev::Event::CamRight => DriverObs { cam_imp_x: push_spec(s.cam_imp_x, true), ..s },
        ev::Event::CamLeft => DriverObs { cam_imp_x: push_spec(s.cam_imp_x, false), ..s },
        ev::Event::CamReset => DriverObs {
            cam_pos_x: 0,
            cam_pos_y: 0,
            cam_vel_x: 0,
            cam_vel_y: 0,
            cam_imp_x: 0,
            cam_imp_y: 0,
            ..s
        },
        ev::Event::NextLight => DriverObs {
            lights_index: (s.lights_index + 1) % s.lights.len() as int,
            ..s
        },
        ev::Event::PrevLight => DriverObs {
            lights_index: (s.lights_index + s.lights.len() - 1) % s.lights.len() as int,
            ..s
        },
        ev::Event::NextBackground => DriverObs {
            backgrounds_index: (s.backgrounds_index + 1) % s.backgrounds.len() as int,
            ..s
        },
        ev::Event::PrevBackground => DriverObs {
            backgrounds_index: (s.backgrounds_index + s.backgrounds.len() - 1) % s.backgrounds.len() as int,
            ..s
        },
        ev::Event::Reload => s,
        ev::Event::AppQuit => DriverObs { is_running: false, ..s },
        ev::Event::MoveLight(p) => DriverObs { light_position: p, ..s },
        ev::Event::NewMinion(_) => s,
        ev::Event::NewResource(_) => s,
    }
}

/// Left fold of [`apply_event`] over an event sequence.
pub open spec fn apply_events(s: DriverObs, evs: Seq<ev::Event>) -> DriverObs
    decreases evs.len(),
{
    if evs.len() == 0 {
        s
    } else {
        apply_events(apply_event(s, evs[0]), evs.drop_first())
    }
}

/// Unrolling the fold from the right: one more dispatched event applies
/// on top of the fold over the prefix.
pub proof fn lemma_apply_events_snoc(s: DriverObs, evs: Seq<ev::Event>, i: int)
    requires
        0 <= i < evs.len(),
    ensures
        apply_events(s, evs.take(i + 1)) == apply_event(apply_events(s, evs.take(i)), evs[i]),
    decreases i,
{
    if i == 0 {
        assert(evs.take(0) =~= Seq::<ev::Event>::empty());
        assert(apply_events(s, evs.take(0)) == s);
        assert(evs.take(1)[0] == evs[0]);
        assert(evs.take(1).drop_first() =~= Seq::<ev::Event>::empty());
        assert(apply_events(apply_event(s, evs[0]), Seq::<ev::Event>::empty()) == apply_event(s, evs[0]));
        assert(apply_events(s, evs.take(1)) == apply_event(s, evs[0]));
    } else {
        let s1 = apply_event(s, evs[0]);
        let rest = evs.drop_first();
        assert(evs.take(i + 1)[0] == evs[0]);
        assert(evs.take(i + 1).drop_first() =~= rest.take(i));
        assert(apply_events(s, evs.take(i + 1)) == apply_events(s1, rest.take(i)));
        assert(evs.take(i)[0] == evs[0]);
        assert(evs.take(i).drop_first() =~= rest.take(i - 1));
        assert(apply_events(s, evs.take(i)) == apply_events(s1, rest.take(i - 1)));
        lemma_apply_events_snoc(s1, rest, i - 1);
        assert(rest[i - 1] == evs[i]);
    }
}

/// Dispatch without a camera reset never moves the camera position
/// within the frame: events only accumulate impulse (or touch other
/// state), and the position integrates only in the camera's own step.
pub proof fn lemma_dispatch_keeps_camera_position(s: DriverObs, evs: Seq<ev::Event>)
    requires
        forall|i: int| 0 <= i < evs.len() ==> !(#[trigger] evs[i] matches ev::Event::CamReset),
    ensures
        apply_events(s, evs).cam_pos_x == s.cam_pos_x,
        apply_events(s, evs).cam_pos_y == s.cam_pos_y,
    decreases evs.len(),
{
    if evs.len() > 0 {
        let rest = evs.drop_first();
        assert(forall|i: int| 0 <= i < rest.len() ==> !(#[trigger] rest[i] matches ev::Event::CamReset))
            by {
                assert(forall|i: int| 0 <= i < rest.len() ==> rest[i] == evs[i + 1]);
            };
        lemma_dispatch_keeps_camera_position(apply_event(s, evs[0]), rest);
    }
}

/// No camera-resetting event occurs in `evs`.
pub open spec fn no_cam_reset(evs: Seq<ev::Event>) -> bool {
    forall|i: int| 0 <= i < evs.len() ==> !(#[trigger] evs[i] matches ev::Event::CamReset)
}

/// The predicate distributes over concatenation.
proof fn lemma_no_cam_reset_add(a: Seq<ev::Event>, b: Seq<ev::Event>)
    requires
        no_cam_reset(a),
        no_cam_reset(b),
    ensures
        no_cam_reset(a.add(b)),
{
    assert forall|i: int| 0 <= i < a.add(b).len()
        implies !(#[trigger] a.add(b)[i] matches ev::Event::CamReset) by {
        if i < a.len() {
            assert(a.add(b)[i] == a[i]);
        } else {
            assert(a.add(b)[i] == b[i - a.len()]);
        }
    };
}

/// Camera law through one frame: the events a frame's input translates
/// to never reset the camera, so the position `update` leaves behind is
/// the integrator step alone — from rest with net accumulated impulse
/// `k`, displaced by exactly `k * IMPULSE_GAIN * dt` along each axis
/// (zero when pushes cancel, monotone in `k`: see
/// [`crate::camera::lemma_camera_displacement`]).
pub proof fn lemma_frame_camera_displacement(s: DriverObs, vp: Viewport, cam: Position, inp: InputState)
    ensures
        apply_events(s, translate_spec(vp, cam, inp)).cam_pos_x == s.cam_pos_x,
        apply_events(s, translate_spec(vp, cam, inp)).cam_pos_y == s.cam_pos_y,
{
    let wp = world_pos_spec(vp, cam, inp);
    let c1 = Seq::empty().add(opt_ev(inp.spec_held(Key::Up), ev::Event::CamUp));
    let c2 = c1.add(opt_ev(inp.spec_held(Key::Down), ev::Event::CamDown));
    let c3 = c2.add(opt_ev(inp.spec_held(Key::Left), ev::Event::CamLeft));
    let c4 = c3.add(opt_ev(inp.spec_held(Key::Right), ev::Event::CamRight));
    let c5 = c4.add(opt_ev(inp.spec_once(Key::F5), ev::Event::Reload));
    let c6 = c5.add(opt_ev(inp.spec_once(Key::L), ev::Event::NextLight));
    let c7 = c6.add(opt_ev(inp.spec_once(Key::B), ev::Event::NextBackground));
    let c8 = c7.add(opt_ev(inp.spec_once(Key::K), ev::Event::PrevLight));
    let c9 = c8.add(opt_ev(inp.spec_once(Key::V), ev::Event::PrevBackground));
    let c10 = c9.add(opt_ev(inp.spec_once(Key::Esc), ev::Event::AppQuit));
    let spawn = if inp.spec_held(Key::CtrlLeft) || inp.spec_held(Key::CtrlRight) {
        ev::Event::NewMinion(wp)
    } else {
        ev::Event::NewResource(wp)
    };
    let c11 = c10.add(opt_ev(inp.spec_once(Key::MouseRight), spawn));
    let c12 = c11.add(opt_ev(inp.spec_held(Key::MouseLeft), ev::Event::MoveLight(wp)));
    assert(no_cam_reset(Seq::<ev::Event>::empty()));
    lemma_no_cam_reset_add(Seq::empty(), opt_ev(inp.spec_held(Key::Up), ev::Event::CamUp));
    lemma_no_cam_reset_add(c1, opt_ev(inp.spec_held(Key::Down), ev::Event::CamDown));
    lemma_no_cam_reset_add(c2, opt_ev(inp.spec_held(Key::Left), ev::Event::CamLeft));
    lemma_no_cam_reset_add(c3, opt_ev(inp.spec_held(Key::Right), ev::Event::CamRight));
    lemma_no_cam_reset_add(c4, opt_ev(inp.spec_once(Key::F5), ev::Event::Reload));
    lemma_no_cam_reset_add(c5, opt_ev(inp.spec_once(Key::L), ev::Event::NextLight));
    lemma_no_cam_reset_add(c6, opt_ev(inp.spec_once(Key::B), ev::Event::NextBackground));
    lemma_no_cam_reset_add(c7, opt_ev(inp.spec_once(Key::K), ev::Event::PrevLight));
    lemma_no_cam_reset_add(c8, opt_ev(inp.spec_once(Key::V), ev::Event::PrevBackground));
    lemma_no_cam_reset_add(c9, opt_ev(inp.spec_once(Key::Esc), ev::Event::AppQuit));
    lemma_no_cam_reset_add(c10, opt_ev(inp.spec_once(Key::MouseRight), spawn));
    lemma_no_cam_reset_add(c11, opt_ev(inp.spec_held(Key::MouseLeft), ev::Event::MoveLight(wp)));
    assert(translate_spec(vp, cam, inp) == c12);
    lemma_dispatch_keeps_camera_position(s, c12);
}

/// An event sequence that is present exactly when `b` holds.
pub open spec fn opt_ev(b: bool, e: ev::Event) -> Seq<ev::Event> {
    if b { seq![e] } else { Seq::empty() }
}

/// What event dispatch may change of the entity roster: which identities
/// exist, of which kind, and the next identity to hand out.  Entity
/// positions are the subsystems' to adjust and are not part of the
/// roster.
#[verifier::ext_equal]
pub struct WorldObs {
    pub next_id: int,
    pub minion_ids: Seq<u64>,
    pub resource_ids: Seq<u64>,
}

/// The roster of a world.
pub open spec fn world_obs(w: World) -> WorldObs {
    WorldObs {
        next_id: w.next_id as int,
        minion_ids: Seq::new(w.minions@.len(), |i: int| w.minions@[i].id),
        resource_ids: Seq::new(w.resources@.len(), |i: int| w.resources@[i].id),
    }
}

/// The effect of one dispatched event on the roster: a spawn adds one
/// entity of its kind under the next identity; nothing else touches it.
pub open spec fn apply_event_world(s: WorldObs, e: ev::Event) -> WorldObs {
    match e {
        ev::Event::NewMinion(_) => WorldObs {
            next_id: s.next_id + 1,
            minion_ids: s.minion_ids.push(s.next_id as u64),
            ..s
        },
        ev::Event::NewResource(_) => WorldObs {
            next_id: s.next_id + 1,
            resource_ids: s.resource_ids.push(s.next_id as u64),
            ..s
        },
        _ => s,
    }
}

/// Left fold of [`apply_event_world`].
pub open spec fn apply_events_world(s: WorldObs, evs: Seq<ev::Event>) -> WorldObs
    decreases evs.len(),
{
    if evs.len() == 0 {
        s
    } else {
        apply_events_world(apply_event_world(s, evs[0]), evs.drop_first())
    }
}

/// Unrolling the roster fold from the right.
pub proof fn lemma_apply_events_world_snoc(s: WorldObs, evs: Seq<ev::Event>, i: int)
    requires
        0 <= i < evs.len(),
    ensures
        apply_events_world(s, evs.take(i + 1)) == apply_event_world(apply_events_world(s, evs.take(i)), evs[i]),
    decreases i,
{
    if i == 0 {
        assert(evs.take(0) =~= Seq::<ev::Event>::empty());
        assert(apply_events_world(s, evs.take(0)) == s);
        assert(evs.take(1)[0] == evs[0]);
        assert(evs.take(1).drop_first() =~= Seq::<ev::Event>::empty());
        assert(apply_events_world(apply_event_world(s, evs[0]), Seq::<ev::Event>::empty())
            == apply_event_world(s, evs[0]));
        assert(apply_events_world(s, evs.take(1)) == apply_event_world(s, evs[0]));
    } else {
        let s1 = apply_event_world(s, evs[0]);
        let rest = evs.drop_first();
        assert(evs.take(i + 1)[0] == evs[0]);
        assert(evs.take(i + 1).drop_first() =~= rest.take(i));
        assert(apply_events_world(s, evs.take(i + 1)) == apply_events_world(s1, rest.take(i)));
        assert(evs.take(i)[0] == evs[0]);
        assert(evs.take(i).drop_first() =~= rest.take(i - 1));
        assert(apply_events_world(s, evs.take(i)) == apply_events_world(s1, rest.take(i - 1)));
        lemma_apply_events_world_snoc(s1, rest, i - 1);
        assert(rest[i - 1] == evs[i]);
    }
}

/// Where the mouse points in world space under viewport `vp`, camera
/// position `cam` and input state `inp`.
pub open spec fn world_pos_spec(vp: Viewport, cam: Position, inp: InputState) -> Position {
    Position {
        x: (vp.to_world_x_spec(inp.mouse_x as int) + cam.x) as i64,
        y: (vp.to_world_y_spec(inp.mouse_y as int) + cam.y) as i64,
    }
}

/// The domain events one frame's input state translates to, in
/// dispatch order: held camera keys repeat every frame, pressed-once
/// keys fire single discrete actions, and the mouse buttons spawn
/// entities or drag the light at the world position `wp`.
pub open spec fn translate_events_spec(inp: InputState, wp: Position) -> Seq<ev::Event> {
    Seq::empty()
        .add(opt_ev(inp.spec_held(Key::Up), ev::Event::CamUp))
        .add(opt_ev(inp.spec_held(Key::Down), ev::Event::CamDown))
        .add(opt_ev(inp.spec_held(Key::Left), ev::Event::CamLeft))
        .add(opt_ev(inp.spec_held(Key::Right), ev::Event::CamRight))
        .add(opt_ev(inp.spec_once(Key::F5), ev::Event::Reload))
        .add(opt_ev(inp.spec_once(Key::L), ev::Event::NextLight))
        .add(opt_ev(inp.spec_once(Key::B), ev::Event::NextBackground))
        .add(opt_ev(inp.spec_once(Key::K), ev::Event::PrevLight))
        .add(opt_ev(inp.spec_once(Key::V), ev::Event::PrevBackground))
        .add(opt_ev(inp.spec_once(Key::Esc), ev::Event::AppQuit))
        .add(
            opt_ev(
                inp.spec_once(Key::MouseRight),
                if inp.spec_held(Key::CtrlLeft) || inp.spec_held(Key::CtrlRight) {
                    ev::Event::NewMinion(wp)
                } else {
                    ev::Event::NewResource(wp)
                },
            ),
        )
        .add(opt_ev(inp.spec_held(Key::MouseLeft), ev::Event::MoveLight(wp)))
}

/// The events of one frame, with the world position derived from the
/// viewport, camera and mouse.
pub open spec fn translate_spec(vp: Viewport, cam: Position, inp: InputState) -> Seq<ev::Event> {
    translate_events_spec(inp, world_pos_spec(vp, cam, inp))
}

/// The pressed-once table after the translator has consumed its keys.
pub open spec fn consumed_once(once: Seq<bool>) -> Seq<bool> {
    once.update(key_index_spec(Key::F5), false)
        .update(key_index_spec(Key::L), false)
        .update(key_index_spec(Key::B), false)
        .update(key_index_spec(Key::K), false)
        .update(key_index_spec(Key::V), false)
        .update(key_index_spec(Key::Esc), false)
        .update(key_index_spec(Key::MouseRight), false)
}


/// The camera time step for a smoothed frame time: milliseconds,
/// capped at the integrator's maximum.
pub open spec fn dt_ms_spec(smooth: int) -> int {
    if smooth / 1_000_000 > DT_MAX { DT_MAX as int } else { smooth / 1_000_000 }
}

/// The frame driver.
pub struct App<P: Physics, A: System, G: System, I: Ai> {
    pub viewport: Viewport,
    pub input_state: InputState,
    pub wall_clock_start: u64,
    pub frame_count: u32,
    pub frame_start: u64,
    pub frame_elapsed: u64,
    pub frame_smooth: MovingAverage,
    pub is_running: bool,
    pub initialized: bool,
    pub light_position: Position,
    pub camera: Inertial,
    pub lights: Cycle<Rgba>,
    pub backgrounds: Cycle<Rgba>,
    pub world: World,
    pub physics: P,
    pub animation: A,
    pub game: G,
    pub ai: I,
}

impl<P: Physics, A: System, G: System, I: Ai> App<P, A, G, I> {
    /// Every owned component is well-formed and the elapsed-time ledger
    /// matches the frame marker.
    pub open spec fn wf(&self) -> bool {
        &&& self.viewport.wf()
        &&& self.input_state.wf()
        &&& self.camera.wf()
        &&& self.lights.wf()
        &&& self.backgrounds.wf()
        &&& self.frame_smooth.wf()
        &&& self.world.wf()
        &&& self.wall_clock_start <= self.frame_start
        &&& self.frame_elapsed == self.frame_start - self.wall_clock_start
    }

    /// The driver-owned state event dispatch acts on.
    pub open spec fn obs(&self) -> DriverObs {
        DriverObs {
            cam_pos_x: self.camera.position.x as int,
            cam_pos_y: self.camera.position.y as int,
            cam_vel_x: self.camera.vel_x as int,
            cam_vel_y: self.camera.vel_y as int,
            cam_imp_x: self.camera.imp_x as int,
            cam_imp_y: self.camera.imp_y as int,
            lights: self.lights.spec_values(),
            lights_index: self.lights.spec_index(),
            backgrounds: self.backgrounds.spec_values(),
            backgrounds_index: self.backgrounds.spec_index(),
            light_position: self.light_position,
            is_running: self.is_running,
        }
    }

    /// Everything outside the driver's observed state, the world and the
    /// subsystems is unchanged.
    pub open spec fn frame_fields_unchanged(&self, other: &Self) -> bool {
        &&& self.viewport == other.viewport
        &&& self.input_state == other.input_state
        &&& self.wall_clock_start == other.wall_clock_start
        &&& self.frame_count == other.frame_count
        &&& self.frame_start == other.frame_start
        &&& self.frame_elapsed == other.frame_elapsed
        &&& self.frame_smooth == other.frame_smooth
        &&& self.initialized == other.initialized
    }

    fn init_camera() -> (c: Inertial)
        ensures
            c.wf(),
            c.at_rest(),
            c.position == (Position { x: 0, y: 0 }),
    {
        Inertial::new()
    }

    fn init_lights() -> (c: Cycle<Rgba>)
        ensures
            c.wf(),
            c.spec_values() == light_palette(),
            c.spec_index() == 0,
    {
        let mut v: Vec<Rgba> = Vec::new();
        v.push(Rgba { r: 1000, g: 1000, b: 1000, a: 1000 });
        v.push(Rgba { r: 3100, g: 3100, b: 3100, a: 1000 });
        v.push(Rgba { r: 10_000, g: 10_000, b: 10_000, a: 1000 });
        v.push(Rgba { r: 31_000, g: 31_000, b: 31_000, a: 1000 });
        v.push(Rgba { r: 100_000, g: 100_000, b: 100_000, a: 1000 });
        v.push(Rgba { r: 1, g: 1, b: 1, a: 1000 });
        v.push(Rgba { r: 10, g: 10, b: 10, a: 1000 });
        v.push(Rgba { r: 100, g: 100, b: 100, a: 1000 });
        v.push(Rgba { r: 310, g: 310, b: 310, a: 500 });
        proof {
            assert(v@ =~= light_palette());
        }
        Cycle::new(v)
    }

    fn init_backgrounds() -> (c: Cycle<Rgba>)
        ensures
            c.wf(),
            c.spec_values() == background_palette(),
            c.spec_index() == 0,
    {
        let mut v: Vec<Rgba> = Vec::new();
        v.push(Rgba { r: 50, g: 70, b: 100, a: 1000 });
        v.push(Rgba { r: 500, g: 500, b: 500, a: 500 });
        v.push(Rgba { r: 1000, g: 1000, b: 1000, a: 1000 });
        v.push(Rgba { r: 3100, g: 3100, b: 3100, a: 1000 });
        v.push(Rgba { r: 10_000, g: 10_000, b: 10_000, a: 1000 });
        v.push(Rgba { r: 0, g: 0, b: 0, a: 1000 });
        v.push(Rgba { r: 10, g: 10, b: 10, a: 1000 });
        proof {
            assert(v@ =~= background_palette());
        }
        Cycle::new(v)
    }

    /// Construct the driver.  `now` is the construction instant in
    /// nanoseconds; both the wall clock base and the first frame marker
    /// start there.
    pub fn new(w: u32, h: u32, scale: u32, now: u64, physics: P, animation: A, game: G, ai: I) -> (a: App<P, A, G, I>)
        requires
            1 <= w <= VIEW_MAX,
            1 <= h <= VIEW_MAX,
            1 <= scale <= VIEW_MAX,
        ensures
            a.wf(),
            a.viewport.width == w,
            a.viewport.height == h,
            a.viewport.scale == scale,
            a.wall_clock_start == now,
            a.frame_start == now,
            a.frame_elapsed == 0,
            a.frame_count == 0,
            a.is_running,
            !a.initialized,
            a.camera.at_rest(),
            a.camera.position == (Position { x: 0, y: 0 }),
            a.lights.spec_values() == light_palette(),
            a.lights.spec_index() == 0,
            a.backgrounds.spec_values() == background_palette(),
            a.backgrounds.spec_index() == 0,
            a.light_position == (Position { x: (10 * FP_ONE) as i64, y: (10 * FP_ONE) as i64 }),
            a.world.minions@.len() == 0,
            a.world.resources@.len() == 0,
            a.world.next_id == 0,
            a.frame_smooth.samples@.len() == 0,
            a.input_state.held@ == Seq::new(crate::input::KEY_COUNT as nat, |i: int| false),
            a.input_state.once@ == Seq::new(crate::input::KEY_COUNT as nat, |i: int| false),
    {
        App {
            viewport: Viewport::rect(w, h, scale),
            input_state: InputState::new(),
            light_position: Position { x: 10 * FP_ONE, y: 10 * FP_ONE },
            camera: Self::init_camera(),
            lights: Self::init_lights(),
            backgrounds: Self::init_backgrounds(),
            world: World::new(),
            physics,
            animation,
            game,
            ai,
            frame_count: 0,
            frame_elapsed: 0,
            frame_start: now,
            wall_clock_start: now,
            frame_smooth: MovingAverage::new(),
            is_running: true,
            initialized: false,
        }
    }

    fn new_resource(&mut self, pos: Position)
        requires
            old(self).wf(),
            old(self).world.next_id < u64::MAX,
        ensures
            final(self).wf(),
            final(self).obs() == old(self).obs(),
            final(self).frame_fields_unchanged(old(self)),
            final(self).world.resources@ == old(self).world.resources@.push(
                Agent { id: old(self).world.next_id, position: pos },
            ),
            final(self).world.minions@ == old(self).world.minions@,
            final(self).world.next_id == old(self).world.next_id + 1,
            final(self).animation == old(self).animation,
            final(self).game == old(self).game,
            final(self).ai == old(self).ai,
    {
        let id = self.world.new_resource(pos);
        self.register(id);
    }

    fn new_minion(&mut self, pos: Position)
        requires
            old(self).wf(),
            old(self).world.next_id < u64::MAX,
        ensures
            final(self).wf(),
            final(self).obs() == old(self).obs(),
            final(self).frame_fields_unchanged(old(self)),
            final(self).world.minions@ == old(self).world.minions@.push(
                Agent { id: old(self).world.next_id, position: pos },
            ),
            final(self).world.resources@ == old(self).world.resources@,
            final(self).world.next_id == old(self).world.next_id + 1,
            final(self).animation == old(self).animation,
            final(self).game == old(self).game,
            final(self).ai == old(self).ai,
    {
        let id = self.world.new_minion(pos);
        self.register(id);
    }

    /// Register a freshly created entity with physics.  The identity is
    /// the sole channel between creation and registration; its absence
    /// would be a World/Physics desynchronization no caller could recover
    /// from, and is excluded by contract.
    fn register(&mut self, id: u64)
        requires
            old(self).wf(),
            old(self).world.spec_contains_friend(id),
        ensures
            final(self).wf(),
            final(self).obs() == old(self).obs(),
            final(self).frame_fields_unchanged(old(self)),
            final(self).world == old(self).world,
            final(self).animation == old(self).animation,
            final(self).game == old(self).game,
            final(self).ai == old(self).ai,
    {
        let found = self.world.contains_friend(id);
        assert(found);
        self.physics.register(id);
    }

    /// Dispatch one domain event; each handler mutates exactly one piece
    /// of state.
    pub fn on_app_event(&mut self, e: ev::Event)
        requires
            old(self).wf(),
            old(self).world.next_id < u64::MAX,
        ensures
            final(self).wf(),
            final(self).obs() == apply_event(old(self).obs(), e),
            final(self).frame_fields_unchanged(old(self)),
            final(self).animation == old(self).animation,
            final(self).game == old(self).game,
            final(self).ai == old(self).ai,
            final(self).world.minions@ == (if let ev::Event::NewMinion(p) = e {
                old(self).world.minions@.push(Agent { id: old(self).world.next_id, position: p })
            } else {
                old(self).world.minions@
            }),
            final(self).world.resources@ == (if let ev::Event::NewResource(p) = e {
                old(self).world.resources@.push(Agent { id: old(self).world.next_id, position: p })
            } else {
                old(self).world.resources@
            }),
            final(self).world.next_id == (if (e matches ev::Event::NewMinion(_)) || (e matches ev::Event::NewResource(_)) {
                old(self).world.next_id + 1
            } else {
                old(self).world.next_id as int
            }),
            !((e matches ev::Event::NewMinion(_)) || (e matches ev::Event::NewResource(_)))
                ==> final(self).physics == old(self).physics,
    {
        match e {
            ev::Event::CamUp => self.camera.push(Direction::Up),
            ev::Event::CamDown => self.camera.push(Direction::Down),
            ev::Event::CamLeft => self.camera.push(Direction::Left),
            ev::Event::CamRight => self.camera.push(Direction::Right),
            ev::Event::CamReset => self.camera.reset(),
            ev::Event::NextLight => self.lights.next(),
            ev::Event::PrevLight => self.lights.prev(),
            ev::Event::NextBackground => self.backgrounds.next(),
            ev::Event::PrevBackground => self.backgrounds.prev(),
            ev::Event::Reload => {},
            ev::Event::AppQuit => self.quit(),
            ev::Event::MoveLight(pos) => self.light_position = pos,
            ev::Event::NewMinion(pos) => self.new_minion(pos),
            ev::Event::NewResource(pos) => self.new_resource(pos),
        }
        proof {
            assert(final(self).obs() =~= apply_event(old(self).obs(), e));
        }
    }

    /// Stop the frame loop; `is_running` reports false afterwards.
    pub fn quit(&mut self)
        ensures
            *final(self) == (App { is_running: false, ..*old(self) }),
    {
        self.is_running = false;
    }

    pub fn is_running(&self) -> (r: bool)
        ensures
            r == self.is_running,
    {
        self.is_running
    }

    /// Absorb one raw input event into the tracked input state.
    pub fn on_input_event(&mut self, e: &crate::input::Event)
        requires
            old(self).wf(),
        ensures
            final(self).wf(),
            *final(self) == (App { input_state: final(self).input_state, ..*old(self) }),
            ({
                let inp = &final(self).input_state;
                let o = &old(self).input_state;
                match *e {
                    crate::input::Event::KeyDown(k) => {
                        &&& inp.held@ == o.held@.update(key_index_spec(k), true)
                        &&& inp.once@ == (if o.spec_held(k) { o.once@ } else { o.once@.update(key_index_spec(k), true) })
                        &&& inp.mouse_x == o.mouse_x
                        &&& inp.mouse_y == o.mouse_y
                    },
                    crate::input::Event::KeyUp(k) => {
                        &&& inp.held@ == o.held@.update(key_index_spec(k), false)
                        &&& inp.once@ == o.once@
                        &&& inp.mouse_x == o.mouse_x
                        &&& inp.mouse_y == o.mouse_y
                    },
                    crate::input::Event::MouseMove(x, y) => {
                        &&& inp.held@ == o.held@
                        &&& inp.once@ == o.once@
                        &&& inp.mouse_x == x
                        &&& inp.mouse_y == y
                    },
                }
            }),
    {
        self.input_state.event(e);
    }

    /// Replace the viewport on a window resize, keeping the configured
    /// scale.
    pub fn on_resize(&mut self, width: u32, height: u32)
        requires
            old(self).wf(),
            1 <= width <= VIEW_MAX,
            1 <= height <= VIEW_MAX,
        ensures
            final(self).wf(),
            *final(self) == (App { viewport: final(self).viewport, ..*old(self) }),
            final(self).viewport.width == width,
            final(self).viewport.height == height,
            final(self).viewport.scale == old(self).viewport.scale,
            final(self).viewport.wf(),
    {
        self.viewport = Viewport::rect(width, height, self.viewport.scale);
    }

    /// Pixel to camera-independent world space.
    fn to_view(&self, x: i64, y: i64) -> (p: Position)
        requires
            self.viewport.wf(),
            -8 * self.viewport.width <= x <= 8 * self.viewport.width,
            -8 * self.viewport.height <= y <= 8 * self.viewport.height,
        ensures
            p.x == self.viewport.to_world_x_spec(x as int),
            p.y == self.viewport.to_world_y_spec(y as int),
            -8_500_000_000_000_000_000 <= p.x <= 8_500_000_000_000_000_000,
            -8_500_000_000_000_000_000 <= p.y <= 8_500_000_000_000_000_000,
    {
        self.viewport.to_world(x, y)
    }

    /// View space to world space: offset by the camera position.
    fn to_world(&self, t: Position) -> (p: Position)
        requires
            self.camera.wf(),
            -8_500_000_000_000_000_000 <= t.x <= 8_500_000_000_000_000_000,
            -8_500_000_000_000_000_000 <= t.y <= 8_500_000_000_000_000_000,
        ensures
            p.x == t.x + self.camera.position.x,
            p.y == t.y + self.camera.position.y,
    {
        t.add(self.camera.position())
    }

    /// Translate the tracked input state into this frame's domain events,
    /// consuming the edge-triggered keys.  `_dt` is the smoothed frame
    /// time, reserved for time-scaled effects.
    fn update_input(&mut self, _dt: u64) -> (events: Vec<ev::Event>)
        requires
            old(self).wf(),
            -8 * old(self).viewport.width <= old(self).input_state.mouse_x <= 8 * old(self).viewport.width,
            -8 * old(self).viewport.height <= old(self).input_state.mouse_y <= 8 * old(self).viewport.height,
        ensures
            final(self).wf(),
            events@ == translate_spec(old(self).viewport, old(self).camera.position, old(self).input_state),
            *final(self) == (App { input_state: final(self).input_state, ..*old(self) }),
            final(self).input_state.held@ == old(self).input_state.held@,
            final(self).input_state.once@ == consumed_once(old(self).input_state.once@),
            final(self).input_state.mouse_x == old(self).input_state.mouse_x,
            final(self).input_state.mouse_y == old(self).input_state.mouse_y,
            events@.len() <= 12,
    {
        let (mx, my) = self.input_state.mouse_position();
        let view_pos = self.to_view(mx, my);
        let world_pos = self.to_world(view_pos);
        proof {
            assert(world_pos == world_pos_spec(
                old(self).viewport,
                old(self).camera.position,
                old(self).input_state,
            ));
        }
        translate_events(&mut self.input_state, world_pos)
    }

    /// The lighting environment as of the current selector state, by
    /// value: later selector steps cannot invalidate the snapshot.
    pub fn environment(&self) -> (env: Environment)
        requires
            self.wf(),
        ensures
            env.light == self.lights.spec_values()[self.lights.spec_index()],
            env.light_position == self.light_position,
            env.background == self.backgrounds.spec_values()[self.backgrounds.spec_index()],
    {
        Environment {
            light: self.lights.get(),
            light_position: self.light_position,
            background: self.backgrounds.get(),
        }
    }

    /// Run the subsystem pipeline in its fixed order: animation, game,
    /// AI (steering target set from the current light position before its
    /// update), then physics, which must observe every adjustment the
    /// earlier subsystems made in the same frame.
    fn update_systems(&mut self, dt: u64)
        requires
            old(self).wf(),
        ensures
            final(self).wf(),
            final(self).obs() == old(self).obs(),
            final(self).frame_fields_unchanged(old(self)),
            world_obs(final(self).world) == world_obs(old(self).world),
    {
        self.animation.update_world(dt, &mut self.world);
        self.game.update_world(dt, &mut self.world);
        self.ai.follow_me(self.light_position);
        self.ai.update_world(dt, &mut self.world);
        self.physics.update_world(dt, &mut self.world);
        proof {
            assert(world_obs(self.world).minion_ids =~= world_obs(old(self).world).minion_ids);
            assert(world_obs(self.world).resource_ids =~= world_obs(old(self).world).resource_ids);
            assert(world_obs(self.world) =~= world_obs(old(self).world));
        }
    }

    /// One-time subsystem setup; must run once, before the first
    /// `update`.
    pub fn init_systems(&mut self)
        requires
            old(self).wf(),
            !old(self).initialized,
        ensures
            final(self).wf(),
            final(self).initialized,
            final(self).obs() == old(self).obs(),
            final(self).viewport == old(self).viewport,
            final(self).input_state == old(self).input_state,
            final(self).frame_count == old(self).frame_count,
            final(self).frame_start == old(self).frame_start,
            final(self).wall_clock_start == old(self).wall_clock_start,
            final(self).frame_elapsed == old(self).frame_elapsed,
            final(self).frame_smooth == old(self).frame_smooth,
    {
        self.animation.init(&mut self.world);
        self.ai.init(&mut self.world);
        self.game.init(&mut self.world);
        self.physics.init(&mut self.world);
        self.initialized = true;
    }

    /// One frame: measure and smooth the elapsed time, advance the
    /// camera, translate and dispatch input events, run the subsystem
    /// pipeline, and report.  Fails with `ClockError` exactly when the
    /// clock reads earlier than the previous frame's marker, in which
    /// case nothing is touched — the frame count does not advance and no
    /// subsystem runs.
    pub fn update(&mut self, now: u64) -> (r: Result<Update, ClockError>)
        requires
            old(self).wf(),
            old(self).initialized,
            old(self).frame_count < u32::MAX,
            old(self).world.next_id <= u64::MAX - MAX_EVENTS_PER_FRAME,
            -8 * old(self).viewport.width <= old(self).input_state.mouse_x <= 8 * old(self).viewport.width,
            -8 * old(self).viewport.height <= old(self).input_state.mouse_y <= 8 * old(self).viewport.height,
        ensures
            r is Err <==> now < old(self).frame_start,
            r is Err ==> *final(self) == *old(self),
            r is Ok ==> ({
                let ft = now - old(self).frame_start;
                let window = old(self).frame_smooth.spec_absorbed(ft as u64);
                let smooth = seq_sum(window) / window.len() as int;
                let dtms = dt_ms_spec(smooth);
                let cam0 = old(self).camera;
                let obs_mid = DriverObs {
                    cam_pos_x: pos_step_spec(cam0.position.x as int, cam0.vel_x as int, cam0.imp_x as int, dtms),
                    cam_pos_y: pos_step_spec(cam0.position.y as int, cam0.vel_y as int, cam0.imp_y as int, dtms),
                    cam_vel_x: vel_step_spec(cam0.vel_x as int, cam0.imp_x as int),
                    cam_vel_y: vel_step_spec(cam0.vel_y as int, cam0.imp_y as int),
                    cam_imp_x: 0,
                    cam_imp_y: 0,
                    ..old(self).obs()
                };
                let cam_pos_mid = Position { x: obs_mid.cam_pos_x as i64, y: obs_mid.cam_pos_y as i64 };
                let evs = translate_spec(old(self).viewport, cam_pos_mid, old(self).input_state);
                let u = r->Ok_0;
                &&& final(self).wf()
                &&& u.frame_time == ft
                &&& u.frame_time_smooth == smooth
                &&& u.fps == fps_spec(smooth)
                &&& u.frame_elapsed == old(self).frame_elapsed + ft
                &&& u.wall_clock_elapsed == now - old(self).wall_clock_start
                &&& u.frame_count == old(self).frame_count + 1
                &&& final(self).frame_count == old(self).frame_count + 1
                &&& final(self).frame_start == now
                &&& final(self).wall_clock_start == old(self).wall_clock_start
                &&& final(self).frame_elapsed == old(self).frame_elapsed + ft
                &&& final(self).frame_smooth.samples@ == window
                &&& final(self).viewport == old(self).viewport
                &&& final(self).initialized
                &&& final(self).input_state.held@ == old(self).input_state.held@
                &&& final(self).input_state.once@ == consumed_once(old(self).input_state.once@)
                &&& final(self).input_state.mouse_x == old(self).input_state.mouse_x
                &&& final(self).input_state.mouse_y == old(self).input_state.mouse_y
                &&& final(self).obs() == apply_events(obs_mid, evs)
                &&& world_obs(final(self).world) == apply_events_world(world_obs(old(self).world), evs)
            }),
    {
        if now < self.frame_start {
            return Err(ClockError);
        }
        let ft: u64 = now - self.frame_start;
        let smooth = self.frame_smooth.smooth(ft);
        self.frame_elapsed = self.frame_elapsed + ft;
        self.frame_start = now;

        let dt_ms: u64 = if smooth / 1_000_000 > DT_MAX { DT_MAX } else { smooth / 1_000_000 };
        proof {
            lemma_div_nonincreasing(smooth as int, 1_000_000);
        }
        self.camera.update(dt_ms);
        let events = self.update_input(dt_ms);
        let ghost obs_mid = self.obs();
        proof {
            let window = old(self).frame_smooth.spec_absorbed(ft);
            let smooth_g = seq_sum(window) / window.len() as int;
            let dtms = dt_ms_spec(smooth_g);
            let cam0 = old(self).camera;
            assert(dt_ms == dtms);
            assert(obs_mid =~= DriverObs {
                cam_pos_x: pos_step_spec(cam0.position.x as int, cam0.vel_x as int, cam0.imp_x as int, dtms),
                cam_pos_y: pos_step_spec(cam0.position.y as int, cam0.vel_y as int, cam0.imp_y as int, dtms),
                cam_vel_x: vel_step_spec(cam0.vel_x as int, cam0.imp_x as int),
                cam_vel_y: vel_step_spec(cam0.vel_y as int, cam0.imp_y as int),
                cam_imp_x: 0,
                cam_imp_y: 0,
                ..old(self).obs()
            });
        }
        let n = events.len();
        let mut i: usize = 0;
        while i < n
            invariant
                i <= n,
                n == events@.len() <= 12,
                self.wf(),
                self.obs() == apply_events(obs_mid, events@.take(i as int)),
                world_obs(self.world) == apply_events_world(world_obs(old(self).world), events@.take(i as int)),
                self.world.next_id <= old(self).world.next_id + i,
                old(self).world.next_id <= u64::MAX - MAX_EVENTS_PER_FRAME,
                self.viewport == old(self).viewport,
                self.initialized,
                self.frame_count == old(self).frame_count,
                self.frame_start == now,
                self.wall_clock_start == old(self).wall_clock_start,
                self.frame_elapsed == old(self).frame_elapsed + (now - old(self).frame_start),
                self.frame_smooth.samples@ == old(self).frame_smooth.spec_absorbed((now - old(self).frame_start) as u64),
                self.input_state.held@ == old(self).input_state.held@,
                self.input_state.once@ == consumed_once(old(self).input_state.once@),
                self.input_state.mouse_x == old(self).input_state.mouse_x,
                self.input_state.mouse_y == old(self).input_state.mouse_y,
            decreases n - i,
        {
            let e = events[i];
            let ghost roster_prev = world_obs(self.world);
            self.on_app_event(e);
            proof {
                lemma_apply_events_snoc(obs_mid, events@, i as int);
                lemma_apply_events_world_snoc(world_obs(old(self).world), events@, i as int);
                assert(world_obs(self.world).minion_ids =~= apply_event_world(roster_prev, e).minion_ids);
                assert(world_obs(self.world).resource_ids =~= apply_event_world(roster_prev, e).resource_ids);
                assert(world_obs(self.world) =~= apply_event_world(roster_prev, e));
                assert(events@.take(i as int + 1) =~= events@.take(i as int).push(events@[i as int]));
            }
            i = i + 1;
        }
        proof {
            assert(events@.take(n as int) =~= events@);
        }
        self.update_systems(dt_ms);
        self.frame_count = self.frame_count + 1;

        let wall_clock_elapsed: u64 = now - self.wall_clock_start;
        let fps = fps_of(smooth);
        Ok(Update {
            frame_count: self.frame_count,
            wall_clock_elapsed,
            frame_elapsed: self.frame_elapsed,
            frame_time: ft,
            frame_time_smooth: smooth,
            fps,
        })
    }
}

/// Emit the camera-pan events for the held arrow keys.
fn translate_held(inp: &InputState, events: &mut Vec<ev::Event>)
    requires
        inp.wf(),
    ensures
        final(events)@ == old(events)@
            .add(opt_ev(inp.spec_held(Key::Up), ev::Event::CamUp))
            .add(opt_ev(inp.spec_held(Key::Down), ev::Event::CamDown))
            .add(opt_ev(inp.spec_held(Key::Left), ev::Event::CamLeft))
            .add(opt_ev(inp.spec_held(Key::Right), ev::Event::CamRight)),
{
    let up = inp.key_pressed(Key::Up);
    push_if(events, up, ev::Event::CamUp);
    let down = inp.key_pressed(Key::Down);
    push_if(events, down, ev::Event::CamDown);
    let left = inp.key_pressed(Key::Left);
    push_if(events, left, ev::Event::CamLeft);
    let right = inp.key_pressed(Key::Right);
    push_if(events, right, ev::Event::CamRight);
}

/// Emit the discrete actions for the pressed-once keys, consuming their
/// edges.
fn translate_once(inp: &mut InputState, events: &mut Vec<ev::Event>)
    requires
        old(inp).wf(),
    ensures
        final(inp).wf(),
        final(events)@ == old(events)@
            .add(opt_ev(old(inp).spec_once(Key::F5), ev::Event::Reload))
            .add(opt_ev(old(inp).spec_once(Key::L), ev::Event::NextLight))
            .add(opt_ev(old(inp).spec_once(Key::B), ev::Event::NextBackground))
            .add(opt_ev(old(inp).spec_once(Key::K), ev::Event::PrevLight))
            .add(opt_ev(old(inp).spec_once(Key::V), ev::Event::PrevBackground))
            .add(opt_ev(old(inp).spec_once(Key::Esc), ev::Event::AppQuit)),
        final(inp).held@ == old(inp).held@,
        final(inp).once@ == old(inp).once@
            .update(key_index_spec(Key::F5), false)
            .update(key_index_spec(Key::L), false)
            .update(key_index_spec(Key::B), false)
            .update(key_index_spec(Key::K), false)
            .update(key_index_spec(Key::V), false)
            .update(key_index_spec(Key::Esc), false),
        final(inp).mouse_x == old(inp).mouse_x,
        final(inp).mouse_y == old(inp).mouse_y,
{
    let f5 = inp.key_once(Key::F5);
    push_if(events, f5, ev::Event::Reload);
    let l = inp.key_once(Key::L);
    push_if(events, l, ev::Event::NextLight);
    let b = inp.key_once(Key::B);
    push_if(events, b, ev::Event::NextBackground);
    let k = inp.key_once(Key::K);
    push_if(events, k, ev::Event::PrevLight);
    let v = inp.key_once(Key::V);
    push_if(events, v, ev::Event::PrevBackground);
    let esc = inp.key_once(Key::Esc);
    push_if(events, esc, ev::Event::AppQuit);
}

/// Emit the mouse events: a right click spawns a minion (with a control
/// key) or a resource at `wp`, and a held left button drags the light
/// there.
fn translate_mouse(inp: &mut InputState, wp: Position, events: &mut Vec<ev::Event>)
    requires
        old(inp).wf(),
    ensures
        final(inp).wf(),
        final(events)@ == old(events)@
            .add(
                opt_ev(
                    old(inp).spec_once(Key::MouseRight),
                    if old(inp).spec_held(Key::CtrlLeft) || old(inp).spec_held(Key::CtrlRight) {
                        ev::Event::NewMinion(wp)
                    } else {
                        ev::Event::NewResource(wp)
                    },
                ),
            )
            .add(opt_ev(old(inp).spec_held(Key::MouseLeft), ev::Event::MoveLight(wp))),
        final(inp).held@ == old(inp).held@,
        final(inp).once@ == old(inp).once@.update(key_index_spec(Key::MouseRight), false),
        final(inp).mouse_x == old(inp).mouse_x,
        final(inp).mouse_y == old(inp).mouse_y,
{
    let mouse_right = inp.key_once(Key::MouseRight);
    let ctrl = inp.any_ctrl_pressed();
    push_if(
        events,
        mouse_right,
        if ctrl { ev::Event::NewMinion(wp) } else { ev::Event::NewResource(wp) },
    );
    let mouse_left = inp.key_pressed(Key::MouseLeft);
    push_if(events, mouse_left, ev::Event::MoveLight(wp));
}

/// Read the input state in dispatch order and emit this frame's events,
/// consuming the edge-triggered keys; `wp` is where the mouse points in
/// world space.
#[verifier::rlimit(60)]
fn translate_events(inp: &mut InputState, wp: Position) -> (events: Vec<ev::Event>)
    requires
        old(inp).wf(),
    ensures
        final(inp).wf(),
        events@ == translate_events_spec(*old(inp), wp),
        final(inp).held@ == old(inp).held@,
        final(inp).once@ == consumed_once(old(inp).once@),
        final(inp).mouse_x == old(inp).mouse_x,
        final(inp).mouse_y == old(inp).mouse_y,
        events@.len() <= 12,
{
    let mut events: Vec<ev::Event> = Vec::new();
    translate_held(inp, &mut events);
    translate_once(inp, &mut events);
    translate_mouse(inp, wp, &mut events);
    events
}

/// Append `e` exactly when `cond` holds.
fn push_if(events: &mut Vec<ev::Event>, cond: bool, e: ev::Event)
    ensures
        final(events)@ == old(events)@.add(opt_ev(cond, e)),
{
    if cond {
        events.push(e);
        proof {
            assert(events@ =~= old(events)@.add(opt_ev(cond, e)));
        }
    } else {
        proof {
            assert(events@ =~= old(events)@.add(opt_ev(cond, e)));
        }
    }
}

} // verus!
