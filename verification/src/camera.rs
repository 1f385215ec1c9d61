//! Inertial camera: directional pushes accumulate into an impulse, and each
//! frame the impulse feeds a damped velocity that integrates into the
//! camera position.  All state is fixed-point (see [`crate::geometry`]);
//! time steps are integer milliseconds.

use vstd::prelude::*;
use crate::geometry::{Position, COORD_MAX};
use crate::numeric::{mul_frac, mul_div_trunc, clamp, clamp_spec, abs_int};

verus! {

/// Fixed-point velocity gained per accumulated impulse unit, in micro-units
/// per millisecond.
pub const IMPULSE_GAIN: i64 = 100;

/// Damping of the carried-over velocity each update: it is scaled by
/// `DAMP_NUM / DAMP_DEN`.
pub const DAMP_NUM: u64 = 3;

/// See [`DAMP_NUM`].
pub const DAMP_DEN: u64 = 4;

/// Largest impulse magnitude the accumulator holds; further pushes saturate.
pub const IMPULSE_MAX: i64 = 1024;

/// Largest velocity magnitude reachable under the invariant.
pub const VEL_MAX: i64 = 409_600;

/// Largest time step `update` accepts, in milliseconds.
pub const DT_MAX: u64 = 1_000_000;

/// An axis-aligned push direction.  `Up` and `Right` point along positive
/// world axes.
#[derive(Clone, Copy, Debug, PartialEq, Eq, Structural)]
pub enum Direction {
    Up,
    Down,
    Left,
    Right,
}

/// One impulse accumulator component after a push toward positive (`up`
/// true) or negative direction, saturating at `IMPULSE_MAX`.
pub open spec fn push_spec(imp: int, up: bool) -> int {
    if up {
        if imp == IMPULSE_MAX { imp } else { imp + 1 }
    } else {
        if imp == -IMPULSE_MAX { imp } else { imp - 1 }
    }
}

/// The damped carry-over of a velocity component.
pub open spec fn damp_spec(v: int) -> int {
    mul_div_trunc(v, DAMP_NUM as int, DAMP_DEN as int)
}

/// One velocity component after an update.
pub open spec fn vel_step_spec(v: int, imp: int) -> int {
    damp_spec(v) + imp * IMPULSE_GAIN
}

/// One position component after an update, clamped to the working range.
pub open spec fn pos_step_spec(p: int, v: int, imp: int, dt: int) -> int {
    clamp_spec(p + vel_step_spec(v, imp) * dt, COORD_MAX as int)
}

/// Damped integrator turning directional pushes into smooth camera motion.
pub struct Inertial {
    pub position: Position,
    pub vel_x: i64,
    pub vel_y: i64,
    pub imp_x: i64,
    pub imp_y: i64,
}

impl Inertial {
    /// Velocity and impulse bounded, position in the working range.
    pub open spec fn wf(&self) -> bool {
        &&& self.position.in_range()
        &&& -VEL_MAX <= self.vel_x <= VEL_MAX
        &&& -VEL_MAX <= self.vel_y <= VEL_MAX
        &&& -IMPULSE_MAX <= self.imp_x <= IMPULSE_MAX
        &&& -IMPULSE_MAX <= self.imp_y <= IMPULSE_MAX
    }

    /// At rest: no motion carried over and nothing accumulated.
    pub open spec fn at_rest(&self) -> bool {
        self.vel_x == 0 && self.vel_y == 0 && self.imp_x == 0 && self.imp_y == 0
    }

    pub fn new() -> (c: Inertial)
        ensures
            c.wf(),
            c.at_rest(),
            c.position == (Position { x: 0, y: 0 }),
    {
        Inertial { position: Position { x: 0, y: 0 }, vel_x: 0, vel_y: 0, imp_x: 0, imp_y: 0 }
    }

    /// Add one unit impulse along `dir`.  Pushes within a frame accumulate;
    /// opposite pushes cancel.
    pub fn push(&mut self, dir: Direction)
        requires
            old(self).wf(),
        ensures
            final(self).wf(),
            final(self).position == old(self).position,
            final(self).vel_x == old(self).vel_x,
            final(self).vel_y == old(self).vel_y,
            final(self).imp_x == match dir {
                Direction::Left => push_spec(old(self).imp_x as int, false),
                Direction::Right => push_spec(old(self).imp_x as int, true),
                _ => old(self).imp_x as int,
            },
            final(self).imp_y == match dir {
                Direction::Down => push_spec(old(self).imp_y as int, false),
                Direction::Up => push_spec(old(self).imp_y as int, true),
                _ => old(self).imp_y as int,
            },
    {
        match dir {
            Direction::Up => {
                if self.imp_y != IMPULSE_MAX {
                    self.imp_y = self.imp_y + 1;
                }
            }
            Direction::Down => {
                if self.imp_y != -IMPULSE_MAX {
                    self.imp_y = self.imp_y - 1;
                }
            }
            Direction::Right => {
                if self.imp_x != IMPULSE_MAX {
                    self.imp_x = self.imp_x + 1;
                }
            }
            Direction::Left => {
                if self.imp_x != -IMPULSE_MAX {
                    self.imp_x = self.imp_x - 1;
                }
            }
        }
    }

    /// Integrate one frame of `dt` milliseconds: the velocity is damped and
    /// gains the accumulated impulse, the position absorbs the velocity,
    /// and the impulse accumulator empties.
    pub fn update(&mut self, dt: u64)
        requires
            old(self).wf(),
            dt <= DT_MAX,
        ensures
            final(self).wf(),
            final(self).vel_x == vel_step_spec(old(self).vel_x as int, old(self).imp_x as int),
            final(self).vel_y == vel_step_spec(old(self).vel_y as int, old(self).imp_y as int),
            final(self).position.x
                == pos_step_spec(old(self).position.x as int, old(self).vel_x as int, old(self).imp_x as int, dt as int),
            final(self).position.y
                == pos_step_spec(old(self).position.y as int, old(self).vel_y as int, old(self).imp_y as int, dt as int),
            final(self).imp_x == 0,
            final(self).imp_y == 0,
    {
        proof {
            lemma_damp_bound(self.vel_x as int);
            lemma_damp_bound(self.vel_y as int);
        }
        let vx = mul_frac(self.vel_x, DAMP_NUM, DAMP_DEN) + self.imp_x * IMPULSE_GAIN;
        let vy = mul_frac(self.vel_y, DAMP_NUM, DAMP_DEN) + self.imp_y * IMPULSE_GAIN;
        proof {
            lemma_step_product_bound(vx as int, dt as int);
            lemma_step_product_bound(vy as int, dt as int);
        }
        let px = clamp(self.position.x + vx * (dt as i64), COORD_MAX);
        let py = clamp(self.position.y + vy * (dt as i64), COORD_MAX);
        self.vel_x = vx;
        self.vel_y = vy;
        self.position = Position { x: px, y: py };
        self.imp_x = 0;
        self.imp_y = 0;
    }

    /// Return to the origin, at rest.
    pub fn reset(&mut self)
        ensures
            final(self).wf(),
            final(self).at_rest(),
            final(self).position == (Position { x: 0, y: 0 }),
    {
        self.position = Position { x: 0, y: 0 };
        self.vel_x = 0;
        self.vel_y = 0;
        self.imp_x = 0;
        self.imp_y = 0;
    }

    /// Current position, a pure read.
    pub fn position(&self) -> (p: Position)
        ensures
            p == self.position,
    {
        self.position
    }
}

/// The damped carry-over never exceeds three quarters of the magnitude.
proof fn lemma_damp_bound(v: int)
    requires
        -VEL_MAX <= v <= VEL_MAX,
    ensures
        abs_int(damp_spec(v)) <= abs_int(v) * (DAMP_NUM as int) / (DAMP_DEN as int),
        abs_int(damp_spec(v)) <= 307_200,
        (abs_int(v) * DAMP_NUM as int) / (DAMP_DEN as int) <= i64::MAX,
{
    assert(abs_int(damp_spec(v)) == (abs_int(v) * 3) / 4 && (abs_int(v) * 3) / 4 <= 307_200)
        by (nonlinear_arith)
        requires
            -VEL_MAX <= v <= VEL_MAX,
    ;
}

/// The per-frame position change fits well inside the coordinate range.
proof fn lemma_step_product_bound(v: int, dt: int)
    requires
        -VEL_MAX <= v <= VEL_MAX,
        0 <= dt <= DT_MAX,
    ensures
        abs_int(v * dt) <= VEL_MAX * (DT_MAX as int),
{
    assert(abs_int(v * dt) <= VEL_MAX * (DT_MAX as int)) by (nonlinear_arith)
        requires
            -VEL_MAX <= v <= VEL_MAX,
            0 <= dt <= DT_MAX,
    ;
}

/// Opposite pushes cancel: one unit up then one unit down (or the other
/// way round) leaves the accumulated impulse where it started, wherever
/// the accumulator is not saturated.
pub proof fn lemma_push_cancel(imp: int)
    requires
        -IMPULSE_MAX < imp < IMPULSE_MAX,
    ensures
        push_spec(push_spec(imp, true), false) == imp,
        push_spec(push_spec(imp, false), true) == imp,
{
}

/// Law of camera motion: from rest, the displacement of one `update` is
/// `imp * IMPULSE_GAIN * dt` in each axis — zero when the accumulated
/// pushes cancel out, strictly along the net impulse's sign, and monotone
/// in the net impulse.  Holds wherever the step stays inside the clamped
/// coordinate range.
pub proof fn lemma_camera_displacement(p: int, imp_a: int, imp_b: int, dt: int)
    requires
        -IMPULSE_MAX <= imp_a <= imp_b <= IMPULSE_MAX,
        0 <= dt <= DT_MAX,
        -COORD_MAX + IMPULSE_MAX * IMPULSE_GAIN * DT_MAX <= p
            <= COORD_MAX - IMPULSE_MAX * IMPULSE_GAIN * DT_MAX,
    ensures
        pos_step_spec(p, 0, imp_a, dt) == p + imp_a * IMPULSE_GAIN * dt,
        pos_step_spec(p, 0, imp_a, dt) <= pos_step_spec(p, 0, imp_b, dt),
        imp_a == 0 ==> pos_step_spec(p, 0, imp_a, dt) == p,
{
    assert(damp_spec(0) == 0);
    assert(vel_step_spec(0, imp_a) == imp_a * IMPULSE_GAIN);
    assert(vel_step_spec(0, imp_b) == imp_b * IMPULSE_GAIN);
    if imp_a == 0 {
        assert(vel_step_spec(0, 0) == 0);
        assert(vel_step_spec(0, 0) * dt == 0) by (nonlinear_arith);
    }
    assert(abs_int(imp_a * IMPULSE_GAIN * dt) <= IMPULSE_MAX * IMPULSE_GAIN * DT_MAX
        && abs_int(imp_b * IMPULSE_GAIN * dt) <= IMPULSE_MAX * IMPULSE_GAIN * DT_MAX
        && imp_a * IMPULSE_GAIN * dt <= imp_b * IMPULSE_GAIN * dt) by (nonlinear_arith)
        requires
            -IMPULSE_MAX <= imp_a <= imp_b <= IMPULSE_MAX,
            0 <= dt <= DT_MAX,
    ;
}

} // verus!
