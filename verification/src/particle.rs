//! The particle-stress model: a growing swarm of independently moving
//! circles ("balls") with reflective boundary physics.
//!
//! Every frame, each ball moves by its velocity (canvas units per frame) and
//! a velocity component's sign is flipped when the moved bounding circle
//! crosses the corresponding wall: the canvas's horizontal extent, and a
//! vertical band between a raised lower boundary (reserved for the on-canvas
//! HUD text) and the canvas's bottom edge. Positions are never clamped, so a
//! ball may sit just outside a wall for a frame; the flipped velocity brings
//! it back. While the population is below its cap, exactly one new ball with
//! random position and velocity is added per frame.
//!
//! Velocities are canvas units per frame, not per unit time, so apparent
//! speed tracks the achieved frame rate. That diverges from the rotation
//! driver, which scales by elapsed time; it is kept as it is because it is
//! how the demo behaves.

use vstd::prelude::*;
use vstd::math::abs;
use crate::control::LoopControl;

verus! {

/// Radius of every ball, in canvas units.
pub const RADIUS: i64 = 20;

/// The raised lower boundary for vertical reflection: balls bounce off
/// `y = BOUNDARY_Y` rather than the canvas's top edge.
pub const BOUNDARY_Y: i64 = 250;

/// Margin kept from the canvas edges when spawning (one radius).
pub const SPAWN_MARGIN: i64 = 20;

/// Lowest y at which a ball may spawn. Distinct from `BOUNDARY_Y` on
/// purpose: the two are independent knobs.
pub const SPAWN_MIN_Y: i64 = 300;

/// Spawned velocity components are drawn from `[0, SPEED_RANGE)`.
pub const SPEED_RANGE: i64 = 4;

/// Population cap: one ball is added per frame until this many exist.
pub const MAX_BALLS: usize = 5000;

/// Largest accepted canvas dimension.
pub const MAX_DIM: i64 = 1_000_000_000;

/// Coordinate bound under which a single update step cannot overflow.
pub const MAX_COORD: i64 = 0x4000_0000_0000;

/// Canvas dimensions the model accepts: wide enough for the spawn margins,
/// tall enough for the spawn band below `SPAWN_MIN_Y`.
pub open spec fn dims_ok(width: i64, height: i64) -> bool {
    &&& 2 * SPAWN_MARGIN <= width <= MAX_DIM
    &&& SPAWN_MIN_Y + SPAWN_MARGIN <= height <= MAX_DIM
}

/// Reflection test for one axis, applied to a moved position: the bounding
/// circle of radius `RADIUS` crosses the wall at `hi` or the wall at `lo`.
pub open spec fn hits_wall(pos: int, lo: int, hi: int) -> bool {
    pos + RADIUS > hi || pos - RADIUS < lo
}

/// Position after one frame: velocity is in canvas units per frame.
pub open spec fn step_pos(pos: int, speed: int) -> int {
    pos + speed
}

/// Velocity after one frame: the sign flips exactly when the moved
/// position's bounding circle crosses a wall of the axis.
pub open spec fn step_speed(pos: int, speed: int, lo: int, hi: int) -> int {
    if hits_wall(step_pos(pos, speed), lo, hi) {
        -speed
    } else {
        speed
    }
}

/// An independently simulated moving circle.
#[derive(Clone, Copy, Debug, PartialEq, Eq, Structural)]
pub struct Ball {
    pub x: i64,
    pub y: i64,
    pub x_speed: i64,
    pub y_speed: i64,
}

/// The one-frame update relation between an old ball and a new ball:
/// both coordinates move by their velocity, then each velocity component
/// is sign-flipped exactly when its moved coordinate crosses a wall
/// (horizontal walls at `0` and `width`, vertical at `BOUNDARY_Y` and
/// `height`).
pub open spec fn stepped(pre: Ball, post: Ball, width: i64, height: i64) -> bool {
    &&& post.x == step_pos(pre.x as int, pre.x_speed as int)
    &&& post.y == step_pos(pre.y as int, pre.y_speed as int)
    &&& post.x_speed == step_speed(pre.x as int, pre.x_speed as int, 0, width as int)
    &&& post.y_speed == step_speed(pre.y as int, pre.y_speed as int, BOUNDARY_Y as int, height as int)
}

/// Machine bound under which `update` cannot overflow.
pub open spec fn ball_in_range(b: Ball) -> bool {
    &&& -MAX_COORD <= b.x <= MAX_COORD
    &&& -MAX_COORD <= b.y <= MAX_COORD
    &&& -MAX_COORD <= b.x_speed <= MAX_COORD
    &&& -MAX_COORD <= b.y_speed <= MAX_COORD
}

/// Where repeated updates keep one coordinate of a ball: never more than
/// one speed-step beyond the reflection thresholds, and once beyond a
/// threshold the velocity already points back inside.
pub open spec fn in_lane(pos: int, speed: int, lo: int, hi: int) -> bool {
    &&& lo + RADIUS - abs(speed) <= pos <= hi - RADIUS + abs(speed)
    &&& pos > hi - RADIUS ==> speed <= 0
    &&& pos < lo + RADIUS ==> speed >= 0
}

/// The swarm's per-ball invariant: both coordinates stay in their lanes and
/// speed magnitudes stay below `SPEED_RANGE` (reflection only flips signs).
pub open spec fn ball_ok(b: Ball, width: i64, height: i64) -> bool {
    &&& in_lane(b.x as int, b.x_speed as int, 0, width as int)
    &&& in_lane(b.y as int, b.y_speed as int, BOUNDARY_Y as int, height as int)
    &&& -SPEED_RANGE < b.x_speed < SPEED_RANGE
    &&& -SPEED_RANGE < b.y_speed < SPEED_RANGE
}

/// Where a freshly spawned ball lands: inside the canvas minus the margin
/// horizontally, inside the lower spawn band vertically, with velocity
/// components in `[0, SPEED_RANGE)`.
pub open spec fn in_spawn_band(b: Ball, width: i64, height: i64) -> bool {
    &&& SPAWN_MARGIN <= b.x <= width - SPAWN_MARGIN
    &&& SPAWN_MIN_Y <= b.y <= height - SPAWN_MARGIN
    &&& 0 <= b.x_speed < SPEED_RANGE
    &&& 0 <= b.y_speed < SPEED_RANGE
}

/// Relies on rand::random: draws a value from the thread-local generator.
/// Nothing can be promised of a random value, so no clause is stated; every
/// caller must work with every outcome.
pub assume_specification<T>[ rand::random::<T> ]() -> (r: T)
    where
        rand::distributions::Standard: rand::distributions::Distribution<T>,
;

impl Ball {
    /// Spawn a ball at a random position in the spawn band with random
    /// non-negative velocity components below `SPEED_RANGE`. The stated
    /// bands hold for every outcome of the random draws.
    pub fn new(width: i64, height: i64) -> (b: Ball)
        requires
            dims_ok(width, height),
        ensures
            in_spawn_band(b, width, height),
    {
        let rx: u64 = rand::random::<u64>();
        let ry: u64 = rand::random::<u64>();
        let rsx: u64 = rand::random::<u64>();
        let rsy: u64 = rand::random::<u64>();
        let span_x: u64 = (width - 2 * SPAWN_MARGIN + 1) as u64;
        let span_y: u64 = (height - SPAWN_MIN_Y - SPAWN_MARGIN + 1) as u64;
        let x: i64 = SPAWN_MARGIN + (rx % span_x) as i64;
        let y: i64 = SPAWN_MIN_Y + (ry % span_y) as i64;
        let x_speed: i64 = (rsx % (SPEED_RANGE as u64)) as i64;
        let y_speed: i64 = (rsy % (SPEED_RANGE as u64)) as i64;
        Ball { x, y, x_speed, y_speed }
    }

    /// One frame of motion for this ball alone: move by the velocity, then
    /// flip each velocity component whose moved coordinate crossed a wall.
    pub fn update(&mut self, width: i64, height: i64)
        requires
            dims_ok(width, height),
            ball_in_range(*old(self)),
        ensures
            stepped(*old(self), *final(self), width, height),
    {
        self.x = self.x + self.x_speed;
        self.y = self.y + self.y_speed;
        if self.x + RADIUS > width || self.x - RADIUS < 0 {
            self.x_speed = -self.x_speed;
        }
        if self.y + RADIUS > height || self.y - RADIUS < BOUNDARY_Y {
            self.y_speed = -self.y_speed;
        }
    }
}

/// One-axis lane preservation: an update step keeps a coordinate in its
/// lane, provided the two walls leave room for the ball between them.
proof fn lemma_lane_step(pos: int, speed: int, lo: int, hi: int)
    requires
        lo + 2 * RADIUS <= hi,
        in_lane(pos, speed, lo, hi),
    ensures
        in_lane(step_pos(pos, speed), step_speed(pos, speed, lo, hi), lo, hi),
{
}

/// A ball satisfying the swarm invariant still satisfies it after an update.
proof fn lemma_step_keeps_ball_ok(pre: Ball, post: Ball, width: i64, height: i64)
    requires
        dims_ok(width, height),
        ball_ok(pre, width, height),
        stepped(pre, post, width, height),
    ensures
        ball_ok(post, width, height),
{
    lemma_lane_step(pre.x as int, pre.x_speed as int, 0, width as int);
    lemma_lane_step(pre.y as int, pre.y_speed as int, BOUNDARY_Y as int, height as int);
}

/// The frame rate the HUD shows: `1000 / dt` for `dt` milliseconds between
/// frames, undefined (suppressed) when the two timestamps were identical.
pub open spec fn spec_frame_rate(dt: u64) -> Option<u64> {
    if dt == 0 {
        None
    } else {
        Some((1000 as int / dt as int) as u64)
    }
}

/// Frames per second from the elapsed milliseconds between two frames.
/// `None` when `dt` is zero: the quotient is undefined and must not be
/// rendered.
pub fn frame_rate(dt: u64) -> (r: Option<u64>)
    ensures
        r == spec_frame_rate(dt),
{
    if dt == 0 {
        None
    } else {
        Some(1000 / dt)
    }
}

/// What one frame of the swarm reports to the host loop: whether to
/// reschedule, the elapsed milliseconds, the frame rate to display (absent
/// when undefined), and whether a ball was spawned.
#[derive(Clone, Copy, Debug)]
pub struct FrameReport {
    pub control: LoopControl,
    pub dt: u64,
    pub fps: Option<u64>,
    pub spawned: bool,
}

/// The stress demo's state: canvas dimensions, the balls, the previous
/// frame's timestamp, and the cancellation flag the host loop checks.
pub struct Swarm {
    width: i64,
    height: i64,
    balls: Vec<Ball>,
    last_time: u64,
    active: bool,
}

impl Swarm {
    pub closed spec fn spec_width(&self) -> i64 {
        self.width
    }

    pub closed spec fn spec_height(&self) -> i64 {
        self.height
    }

    pub closed spec fn spec_balls(&self) -> Seq<Ball> {
        self.balls@
    }

    pub closed spec fn spec_last_time(&self) -> u64 {
        self.last_time
    }

    pub closed spec fn spec_active(&self) -> bool {
        self.active
    }

    /// Well-formedness: accepted dimensions, population at or below the
    /// cap, and every ball inside its lanes with a bounded speed.
    pub open spec fn wf(&self) -> bool {
        &&& dims_ok(self.spec_width(), self.spec_height())
        &&& self.spec_balls().len() <= MAX_BALLS
        &&& forall|i: int|
            0 <= i < self.spec_balls().len() ==> ball_ok(
                #[trigger] self.spec_balls()[i],
                self.spec_width(),
                self.spec_height(),
            )
    }

    /// An empty swarm over the given canvas, ready to run.
    pub fn new(width: i64, height: i64) -> (s: Swarm)
        requires
            dims_ok(width, height),
        ensures
            s.wf(),
            s.spec_width() == width,
            s.spec_height() == height,
            s.spec_balls().len() == 0,
            s.spec_last_time() == 0,
            s.spec_active(),
    {
        Swarm { width, height, balls: Vec::new(), last_time: 0, active: true }
    }

    pub fn width(&self) -> (r: i64)
        ensures
            r == self.spec_width(),
    {
        self.width
    }

    pub fn height(&self) -> (r: i64)
        ensures
            r == self.spec_height(),
    {
        self.height
    }

    pub fn count(&self) -> (r: usize)
        ensures
            r == self.spec_balls().len(),
    {
        self.balls.len()
    }

    pub fn balls(&self) -> (r: &Vec<Ball>)
        ensures
            r@ == self.spec_balls(),
    {
        &self.balls
    }

    pub fn last_time(&self) -> (r: u64)
        ensures
            r == self.spec_last_time(),
    {
        self.last_time
    }

    pub fn is_active(&self) -> (r: bool)
        ensures
            r == self.spec_active(),
    {
        self.active
    }

    /// Ask the loop to stop: the next `frame` reports `Stop` and changes
    /// nothing.
    pub fn cancel(&mut self)
        ensures
            !final(self).spec_active(),
            final(self).spec_width() == old(self).spec_width(),
            final(self).spec_height() == old(self).spec_height(),
            final(self).spec_balls() == old(self).spec_balls(),
            final(self).spec_last_time() == old(self).spec_last_time(),
            old(self).wf() ==> final(self).wf(),
    {
        self.active = false;
    }

    /// One animation frame at host timestamp `t` (milliseconds): update
    /// every ball, then spawn one new random ball while below the cap.
    /// The report carries the elapsed time, the frame rate to display, and
    /// whether the host should schedule another frame.
    pub fn frame(&mut self, t: u64) -> (r: FrameReport)
        requires
            old(self).wf(),
            old(self).spec_active() ==> t >= old(self).spec_last_time(),
        ensures
            final(self).wf(),
            final(self).spec_width() == old(self).spec_width(),
            final(self).spec_height() == old(self).spec_height(),
            final(self).spec_active() == old(self).spec_active(),
            !old(self).spec_active() ==> {
                &&& r.control == LoopControl::Stop
                &&& r.dt == 0
                &&& r.fps is None
                &&& !r.spawned
                &&& final(self).spec_balls() == old(self).spec_balls()
                &&& final(self).spec_last_time() == old(self).spec_last_time()
            },
            old(self).spec_active() ==> {
                &&& r.control == LoopControl::Continue
                &&& r.dt == t - old(self).spec_last_time()
                &&& r.fps == spec_frame_rate(r.dt)
                &&& final(self).spec_last_time() == t
                &&& r.spawned == (old(self).spec_balls().len() < MAX_BALLS)
                &&& final(self).spec_balls().len() == old(self).spec_balls().len() + (
                if r.spawned {
                    1 as int
                } else {
                    0 as int
                })
                &&& forall|i: int|
                    0 <= i < old(self).spec_balls().len() ==> stepped(
                        old(self).spec_balls()[i],
                        #[trigger] final(self).spec_balls()[i],
                        old(self).spec_width(),
                        old(self).spec_height(),
                    )
                &&& r.spawned ==> in_spawn_band(
                    final(self).spec_balls().last(),
                    old(self).spec_width(),
                    old(self).spec_height(),
                )
            },
    {
        if !self.active {
            return FrameReport { control: LoopControl::Stop, dt: 0, fps: None, spawned: false };
        }
        let dt: u64 = t - self.last_time;
        let fps: Option<u64> = frame_rate(dt);
        self.last_time = t;
        let width: i64 = self.width;
        let height: i64 = self.height;
        let n: usize = self.balls.len();
        let mut k: usize = 0;
        while k < n
            invariant
                n == self.balls@.len(),
                n == old(self).spec_balls().len(),
                k <= n,
                dims_ok(width, height),
                self.spec_width() == width,
                self.spec_height() == height,
                width == old(self).spec_width(),
                height == old(self).spec_height(),
                self.spec_active(),
                self.spec_last_time() == t,
                forall|i: int|
                    0 <= i < n ==> ball_ok(
                        #[trigger] old(self).spec_balls()[i],
                        width,
                        height,
                    ),
                forall|i: int| k <= i < n ==> self.balls@[i] == old(self).spec_balls()[i],
                forall|i: int|
                    0 <= i < k ==> stepped(
                        old(self).spec_balls()[i],
                        #[trigger] self.balls@[i],
                        width,
                        height,
                    ),
                forall|i: int| 0 <= i < k ==> ball_ok(#[trigger] self.balls@[i], width, height),
            decreases n - k,
        {
            let mut b: Ball = self.balls[k];
            proof {
                assert(b == old(self).spec_balls()[k as int]);
                assert(ball_ok(b, width, height));
                assert(abs(b.x_speed as int) < SPEED_RANGE);
                assert(abs(b.y_speed as int) < SPEED_RANGE);
                assert(ball_in_range(b));
            }
            b.update(width, height);
            proof {
                lemma_step_keeps_ball_ok(self.balls@[k as int], b, width, height);
            }
            self.balls[k] = b;
            k = k + 1;
        }
        let spawned: bool;
        if self.balls.len() < MAX_BALLS {
            let b: Ball = Ball::new(width, height);
            assert(ball_ok(b, width, height));
            self.balls.push(b);
            spawned = true;
        } else {
            spawned = false;
        }
        FrameReport { control: LoopControl::Continue, dt, fps, spawned }
    }

    /// Drive the loop over a scripted sequence of non-decreasing
    /// timestamps, one frame per entry, as a test harness would in place
    /// of the host's frame scheduler. Starting from any population, the
    /// population grows by one per frame until it saturates at the cap.
    pub fn run(&mut self, timestamps: &Vec<u64>) -> (n: usize)
        requires
            old(self).wf(),
            forall|i: int|
                0 <= i + 1 < timestamps@.len() ==> #[trigger] timestamps@[i] <= timestamps@[i + 1],
            timestamps@.len() > 0 && old(self).spec_active() ==> timestamps@[0] >= old(
                self,
            ).spec_last_time(),
        ensures
            final(self).wf(),
            n == final(self).spec_balls().len(),
            final(self).spec_width() == old(self).spec_width(),
            final(self).spec_height() == old(self).spec_height(),
            final(self).spec_active() == old(self).spec_active(),
            old(self).spec_active() ==> final(self).spec_balls().len() == (
            if old(self).spec_balls().len() + timestamps@.len() <= MAX_BALLS {
                old(self).spec_balls().len() + timestamps@.len() as int
            } else {
                MAX_BALLS as int
            }),
            old(self).spec_active() && timestamps@.len() > 0 ==> final(self).spec_last_time()
                == timestamps@.last(),
            !old(self).spec_active() ==> {
                &&& final(self).spec_balls() == old(self).spec_balls()
                &&& final(self).spec_last_time() == old(self).spec_last_time()
            },
    {
        let m: usize = timestamps.len();
        let mut j: usize = 0;
        while j < m
            invariant
                m == timestamps@.len(),
                j <= m,
                self.wf(),
                self.spec_width() == old(self).spec_width(),
                self.spec_height() == old(self).spec_height(),
                self.spec_active() == old(self).spec_active(),
                forall|i: int|
                    0 <= i + 1 < timestamps@.len() ==> #[trigger] timestamps@[i] <= timestamps@[i
                        + 1],
                timestamps@.len() > 0 && old(self).spec_active() ==> timestamps@[0] >= old(
                    self,
                ).spec_last_time(),
                old(self).spec_active() ==> self.spec_balls().len() == (
                if old(self).spec_balls().len() + j <= MAX_BALLS {
                    old(self).spec_balls().len() + j as int
                } else {
                    MAX_BALLS as int
                }),
                old(self).spec_active() ==> self.spec_last_time() == (
                if j == 0 {
                    old(self).spec_last_time()
                } else {
                    timestamps@[j - 1]
                }),
                !old(self).spec_active() ==> {
                    &&& self.spec_balls() == old(self).spec_balls()
                    &&& self.spec_last_time() == old(self).spec_last_time()
                },
            decreases m - j,
        {
            let t: u64 = timestamps[j];
            self.frame(t);
            j = j + 1;
        }
        self.balls.len()
    }
}

/// An entity whose velocity is zero is left exactly where it was by an
/// update step: neither its position nor its (zero) velocity changes.
pub proof fn lemma_zero_velocity_fixed(pre: Ball, post: Ball, width: i64, height: i64)
    requires
        stepped(pre, post, width, height),
        pre.x_speed == 0,
        pre.y_speed == 0,
    ensures
        post == pre,
{
}

/// Boundary reflection is exactly a sign flip: when the moved position
/// crosses the right wall, the horizontal velocity is negated (strictly
/// opposite in sign when it was nonzero), the position still moves by the
/// old velocity, and the vertical velocity is untouched whenever the
/// vertical axis did not cross a wall of its own.
pub proof fn lemma_reflection_sign_flip(pre: Ball, post: Ball, width: i64, height: i64)
    requires
        stepped(pre, post, width, height),
        pre.x + pre.x_speed + RADIUS > width,
    ensures
        post.x_speed == -pre.x_speed,
        pre.x_speed > 0 ==> post.x_speed < 0,
        post.x == pre.x + pre.x_speed,
        post.y == pre.y + pre.y_speed,
        !hits_wall(pre.y + pre.y_speed, BOUNDARY_Y as int, height as int) ==> post.y_speed
            == pre.y_speed,
{
}

/// The population invariant: a well-formed swarm never holds more balls
/// than the cap.
pub proof fn lemma_population_bounded(s: Swarm)
    requires
        s.wf(),
    ensures
        s.spec_balls().len() <= MAX_BALLS,
{
}

} // verus!
