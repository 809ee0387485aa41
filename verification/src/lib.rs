//! Verified core of a set of canvas animation demos: a frame-loop rotation
//! driver, a bouncing-particle swarm model, and the small decision logic the
//! demos share. The browser-facing rendering code lives outside this library
//! and consumes the plain values these types produce.

mod control;
mod modes;
mod particle;
mod rotation;

pub use control::LoopControl;
pub use modes::{
    draw_mode, spec_draw_mode, GL_LINES, GL_LINE_LOOP, GL_LINE_STRIP, GL_TRIANGLES,
    GL_TRIANGLE_FAN, GL_TRIANGLE_STRIP,
};
pub use rotation::{
    frame_matches, lemma_angles_reproducible, plan_frames, prev_time, rates_ok, AxisRates,
    FrameRotation, RotationDriver, CUBE_RATE_X, CUBE_RATE_Y, CUBE_RATE_Z, MAX_RATE, MAX_TIME_MS,
    TRIANGLE_RATE_Z,
};
pub use particle::{
    ball_in_range, ball_ok, dims_ok, frame_rate, hits_wall, in_lane, in_spawn_band,
    lemma_population_bounded, lemma_reflection_sign_flip, lemma_zero_velocity_fixed,
    spec_frame_rate, step_pos, step_speed, stepped, Ball, FrameReport, Swarm, BOUNDARY_Y,
    MAX_BALLS, MAX_COORD, MAX_DIM, RADIUS, SPAWN_MARGIN, SPAWN_MIN_Y, SPEED_RANGE,
};
