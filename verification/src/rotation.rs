//! The animation-loop rotation driver shared by the spinning-cube and
//! spinning-triangle demos.
//!
//! Each frame the host scheduler hands the loop a monotonically increasing
//! timestamp in milliseconds. The driver computes the elapsed time since the
//! previous frame and turns it into one rotation increment per axis,
//! proportional to the elapsed time (`dt * rate`), so rotation speed is
//! independent of the achieved frame rate. The increments are applied to the
//! accumulating model matrix in the fixed order z, then y, then x; matrix
//! arithmetic itself is floating point and lives with the rendering code,
//! which consumes the integer increments this driver produces.
//!
//! Angles are measured in microradians: a rate of `5000` is 0.005 radians
//! per millisecond.

use vstd::prelude::*;
use crate::control::LoopControl;

verus! {

/// Largest accepted timestamp, in milliseconds: far beyond any browser
/// session, and small enough that `time * rate` cannot overflow.
pub const MAX_TIME_MS: u64 = 1_000_000_000_000;

/// Largest accepted rate: one radian per millisecond, in microradians.
pub const MAX_RATE: u64 = 1_000_000;

/// The cube demo's per-axis rates, microradians per millisecond.
pub const CUBE_RATE_Z: u64 = 5000;

pub const CUBE_RATE_Y: u64 = 2000;

pub const CUBE_RATE_X: u64 = 3000;

/// The triangle demo's single rate: it rotates about z alone.
pub const TRIANGLE_RATE_Z: u64 = 2000;

/// Rotation rates about the three axes, microradians per millisecond.
/// An axis the demo does not rotate about has rate zero.
#[derive(Clone, Copy, Debug, PartialEq, Eq, Structural)]
pub struct AxisRates {
    pub z: u64,
    pub y: u64,
    pub x: u64,
}

pub open spec fn rates_ok(r: AxisRates) -> bool {
    &&& r.z <= MAX_RATE
    &&& r.y <= MAX_RATE
    &&& r.x <= MAX_RATE
}

/// One frame's worth of rotation: the elapsed milliseconds and the three
/// angle increments (microradians) to apply to the model matrix, in the
/// order z, then y, then x.
#[derive(Clone, Copy, Debug, PartialEq, Eq, Structural)]
pub struct FrameRotation {
    pub dt: u64,
    pub z: u64,
    pub y: u64,
    pub x: u64,
}

/// The increments a frame owes for the step from timestamp `prev` to
/// timestamp `t`: elapsed time, and `dt * rate` per axis.
pub open spec fn frame_matches(f: FrameRotation, prev: u64, t: u64, rates: AxisRates) -> bool {
    &&& f.dt == t - prev
    &&& f.z == f.dt * rates.z
    &&& f.y == f.dt * rates.y
    &&& f.x == f.dt * rates.x
}

/// The timestamp a frame plan steps from at entry `i`: the previous entry,
/// or the initial zero for the very first frame.
pub open spec fn prev_time(ts: Seq<u64>, i: int) -> u64 {
    if i == 0 {
        0u64
    } else {
        ts[i - 1]
    }
}

/// Product facts for timestamps and rates within their bounds: the products
/// stay far below `u64::MAX`, and an increment adds up with the old total.
proof fn lemma_rate_products(l: int, t: int, r: int)
    by (nonlinear_arith)
    requires
        0 <= l <= t,
        t <= 1_000_000_000_000,
        0 <= r <= 1_000_000,
    ensures
        0 <= l * r <= t * r,
        t * r <= 1_000_000_000_000_000_000,
        (t - l) * r == t * r - l * r,
{
}

/// Rotation state accumulated across frames: the previous frame's
/// timestamp, the per-axis rates, and the total angle turned about each
/// axis so far.
pub struct RotationDriver {
    rates: AxisRates,
    last_time: u64,
    angle_z: u64,
    angle_y: u64,
    angle_x: u64,
    active: bool,
}

impl RotationDriver {
    pub closed spec fn spec_rates(&self) -> AxisRates {
        self.rates
    }

    pub closed spec fn spec_last_time(&self) -> u64 {
        self.last_time
    }

    pub closed spec fn spec_angle_z(&self) -> u64 {
        self.angle_z
    }

    pub closed spec fn spec_angle_y(&self) -> u64 {
        self.angle_y
    }

    pub closed spec fn spec_angle_x(&self) -> u64 {
        self.angle_x
    }

    pub closed spec fn spec_active(&self) -> bool {
        self.active
    }

    /// Well-formedness: bounded rates and timestamp, and each accumulated
    /// angle equal to the last timestamp times that axis's rate — whatever
    /// sequence of frames led here, the per-frame increments telescope to
    /// exactly this total.
    pub open spec fn wf(&self) -> bool {
        &&& rates_ok(self.spec_rates())
        &&& self.spec_last_time() <= MAX_TIME_MS
        &&& self.spec_angle_z() == self.spec_last_time() * self.spec_rates().z
        &&& self.spec_angle_y() == self.spec_last_time() * self.spec_rates().y
        &&& self.spec_angle_x() == self.spec_last_time() * self.spec_rates().x
    }

    /// A fresh driver: no frame seen yet, all angles zero, running.
    pub fn new(rates: AxisRates) -> (d: RotationDriver)
        requires
            rates_ok(rates),
        ensures
            d.wf(),
            d.spec_rates() == rates,
            d.spec_last_time() == 0,
            d.spec_angle_z() == 0,
            d.spec_angle_y() == 0,
            d.spec_angle_x() == 0,
            d.spec_active(),
    {
        RotationDriver { rates, last_time: 0, angle_z: 0, angle_y: 0, angle_x: 0, active: true }
    }

    pub fn rates(&self) -> (r: AxisRates)
        ensures
            r == self.spec_rates(),
    {
        self.rates
    }

    pub fn last_time(&self) -> (r: u64)
        ensures
            r == self.spec_last_time(),
    {
        self.last_time
    }

    /// The accumulated angles about z, y and x, in that order.
    pub fn angles(&self) -> (r: (u64, u64, u64))
        ensures
            r.0 == self.spec_angle_z(),
            r.1 == self.spec_angle_y(),
            r.2 == self.spec_angle_x(),
    {
        (self.angle_z, self.angle_y, self.angle_x)
    }

    pub fn is_active(&self) -> (r: bool)
        ensures
            r == self.spec_active(),
    {
        self.active
    }

    /// Ask the loop to stop: the next `frame` reports `Stop` and changes
    /// nothing.
    pub fn cancel(&mut self)
        ensures
            !final(self).spec_active(),
            final(self).spec_rates() == old(self).spec_rates(),
            final(self).spec_last_time() == old(self).spec_last_time(),
            final(self).spec_angle_z() == old(self).spec_angle_z(),
            final(self).spec_angle_y() == old(self).spec_angle_y(),
            final(self).spec_angle_x() == old(self).spec_angle_x(),
            old(self).wf() ==> final(self).wf(),
    {
        self.active = false;
    }

    /// One animation frame at host timestamp `t` (milliseconds): compute
    /// the elapsed time since the previous frame and the three angle
    /// increments proportional to it, and accumulate them.
    pub fn frame(&mut self, t: u64) -> (r: (LoopControl, FrameRotation))
        requires
            old(self).wf(),
            old(self).spec_active() ==> old(self).spec_last_time() <= t <= MAX_TIME_MS,
        ensures
            final(self).wf(),
            final(self).spec_rates() == old(self).spec_rates(),
            final(self).spec_active() == old(self).spec_active(),
            !old(self).spec_active() ==> {
                &&& r.0 == LoopControl::Stop
                &&& r.1.dt == 0 && r.1.z == 0 && r.1.y == 0 && r.1.x == 0
                &&& final(self).spec_last_time() == old(self).spec_last_time()
                &&& final(self).spec_angle_z() == old(self).spec_angle_z()
                &&& final(self).spec_angle_y() == old(self).spec_angle_y()
                &&& final(self).spec_angle_x() == old(self).spec_angle_x()
            },
            old(self).spec_active() ==> {
                &&& r.0 == LoopControl::Continue
                &&& frame_matches(r.1, old(self).spec_last_time(), t, old(self).spec_rates())
                &&& final(self).spec_last_time() == t
                &&& final(self).spec_angle_z() == old(self).spec_angle_z() + r.1.z
                &&& final(self).spec_angle_y() == old(self).spec_angle_y() + r.1.y
                &&& final(self).spec_angle_x() == old(self).spec_angle_x() + r.1.x
            },
    {
        if !self.active {
            return (LoopControl::Stop, FrameRotation { dt: 0, z: 0, y: 0, x: 0 });
        }
        let dt: u64 = t - self.last_time;
        proof {
            lemma_rate_products(
                self.last_time as int,
                t as int,
                self.rates.z as int,
            );
            lemma_rate_products(
                self.last_time as int,
                t as int,
                self.rates.y as int,
            );
            lemma_rate_products(
                self.last_time as int,
                t as int,
                self.rates.x as int,
            );
        }
        let z: u64 = dt * self.rates.z;
        let y: u64 = dt * self.rates.y;
        let x: u64 = dt * self.rates.x;
        self.angle_z = self.angle_z + z;
        self.angle_y = self.angle_y + y;
        self.angle_x = self.angle_x + x;
        self.last_time = t;
        (LoopControl::Continue, FrameRotation { dt, z, y, x })
    }
}

/// The accumulated rotation state is deterministic and reproducible: two
/// drivers with the same rates that have reached the same timestamp hold
/// the same accumulated angles, whatever frame sequences took each there.
pub proof fn lemma_angles_reproducible(a: RotationDriver, b: RotationDriver)
    requires
        a.wf(),
        b.wf(),
        a.spec_rates() == b.spec_rates(),
        a.spec_last_time() == b.spec_last_time(),
    ensures
        a.spec_angle_z() == b.spec_angle_z(),
        a.spec_angle_y() == b.spec_angle_y(),
        a.spec_angle_x() == b.spec_angle_x(),
{
}

/// Turn a scripted sequence of non-decreasing frame timestamps into the
/// rotation increments a live run would apply, one `FrameRotation` per
/// frame: entry `i` covers the step from timestamp `i - 1` (or the initial
/// zero) to timestamp `i`, with `dt * rate` per axis. Feeding the same
/// timestamps always yields the same plan.
pub fn plan_frames(rates: AxisRates, timestamps: &Vec<u64>) -> (plan: Vec<FrameRotation>)
    requires
        rates_ok(rates),
        forall|i: int|
            0 <= i + 1 < timestamps@.len() ==> #[trigger] timestamps@[i] <= timestamps@[i + 1],
        forall|i: int| 0 <= i < timestamps@.len() ==> #[trigger] timestamps@[i] <= MAX_TIME_MS,
    ensures
        plan@.len() == timestamps@.len(),
        forall|i: int|
            0 <= i < plan@.len() ==> frame_matches(
                #[trigger] plan@[i],
                prev_time(timestamps@, i),
                timestamps@[i],
                rates,
            ),
{
    let mut plan: Vec<FrameRotation> = Vec::new();
    let mut d: RotationDriver = RotationDriver::new(rates);
    let m: usize = timestamps.len();
    let mut j: usize = 0;
    while j < m
        invariant
            m == timestamps@.len(),
            j <= m,
            plan@.len() == j,
            d.wf(),
            d.spec_rates() == rates,
            d.spec_active(),
            d.spec_last_time() == prev_time(timestamps@, j as int),
            forall|i: int|
                0 <= i + 1 < timestamps@.len() ==> #[trigger] timestamps@[i] <= timestamps@[i
                    + 1],
            forall|i: int| 0 <= i < timestamps@.len() ==> #[trigger] timestamps@[i] <= MAX_TIME_MS,
            forall|i: int|
                0 <= i < j ==> frame_matches(
                    #[trigger] plan@[i],
                    prev_time(timestamps@, i),
                    timestamps@[i],
                    rates,
                ),
        decreases m - j,
    {
        let t: u64 = timestamps[j];
        let r: (LoopControl, FrameRotation) = d.frame(t);
        plan.push(r.1);
        j = j + 1;
    }
    plan
}

} // verus!
