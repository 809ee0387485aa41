use canvas_core::{frame_rate, Ball, LoopControl, Swarm, MAX_BALLS};

#[test]
fn update_moves_then_flips_at_right_wall() {
    // Canvas 800x600, spawn band y in [300, 580]; ball at (790, 310) with
    // velocity (3, 1): after one update it sits at (793, 311) and, since
    // 793 + 20 > 800, its horizontal velocity has flipped to -3.
    let mut b = Ball { x: 790, y: 310, x_speed: 3, y_speed: 1 };
    b.update(800, 600);
    assert_eq!(b.x, 793);
    assert_eq!(b.y, 311);
    assert_eq!(b.x_speed, -3);
    assert_eq!(b.y_speed, 1);
    // The flip becomes visible in the position only on the following
    // frame: the ball moves back to 790 (still crossing, so the sign
    // flips again, exactly as the reflection rule says).
    b.update(800, 600);
    assert_eq!(b.x, 790);
    assert_eq!(b.y, 312);
    assert_eq!(b.x_speed, 3);
    assert_eq!(b.y_speed, 1);
}

#[test]
fn update_flips_at_left_wall() {
    let mut b = Ball { x: 15, y: 400, x_speed: -2, y_speed: 0 };
    b.update(800, 600);
    assert_eq!(b.x, 13);
    assert_eq!(b.x_speed, 2);
    assert_eq!(b.y_speed, 0);
}

#[test]
fn update_flips_at_raised_lower_boundary() {
    // The vertical reflection happens against y = 250, not the canvas top.
    let mut b = Ball { x: 400, y: 280, x_speed: 0, y_speed: -15 };
    b.update(800, 600);
    assert_eq!(b.y, 265);
    assert_eq!(b.y_speed, 15);
}

#[test]
fn update_flips_at_bottom_wall() {
    let mut b = Ball { x: 400, y: 578, x_speed: 1, y_speed: 3 };
    b.update(800, 600);
    assert_eq!(b.y, 581);
    assert_eq!(b.y_speed, -3);
    assert_eq!(b.x, 401);
    assert_eq!(b.x_speed, 1);
}

#[test]
fn zero_velocity_is_a_fixed_point() {
    let mut b = Ball { x: 100, y: 400, x_speed: 0, y_speed: 0 };
    b.update(800, 600);
    assert_eq!(b, Ball { x: 100, y: 400, x_speed: 0, y_speed: 0 });
    // Even against a wall: the position cannot drift without velocity.
    let mut w = Ball { x: 795, y: 590, x_speed: 0, y_speed: 0 };
    w.update(800, 600);
    assert_eq!(w.x, 795);
    assert_eq!(w.y, 590);
}

#[test]
fn spawned_ball_lands_in_the_spawn_band() {
    let mut s = Swarm::new(800, 600);
    let r = s.frame(16);
    assert!(r.spawned);
    assert_eq!(s.count(), 1);
    let b = s.balls()[0];
    assert!(20 <= b.x && b.x <= 780);
    assert!(300 <= b.y && b.y <= 580);
    assert!(0 <= b.x_speed && b.x_speed < 4);
    assert!(0 <= b.y_speed && b.y_speed < 4);
}

#[test]
fn frame_reports_dt_and_fps() {
    let mut s = Swarm::new(800, 600);
    let r = s.frame(16);
    assert_eq!(r.control, LoopControl::Continue);
    assert_eq!(r.dt, 16);
    assert_eq!(r.fps, Some(62));
    assert_eq!(s.last_time(), 16);
    let r2 = s.frame(16);
    assert_eq!(r2.dt, 0);
    assert_eq!(r2.fps, None);
    let r3 = s.frame(17);
    assert_eq!(r3.dt, 1);
    assert_eq!(r3.fps, Some(1000));
}

#[test]
fn frame_rate_is_undefined_for_zero_dt() {
    assert_eq!(frame_rate(0), None);
    assert_eq!(frame_rate(1), Some(1000));
    assert_eq!(frame_rate(16), Some(62));
    assert_eq!(frame_rate(1000), Some(1));
    assert_eq!(frame_rate(2000), Some(0));
}

#[test]
fn population_grows_one_per_frame() {
    let mut s = Swarm::new(800, 600);
    let timestamps: Vec<u64> = (0..100u64).map(|i| i * 16).collect();
    let n = s.run(&timestamps);
    assert_eq!(n, 100);
    assert_eq!(s.count(), 100);
    assert_eq!(s.last_time(), 99 * 16);
}

#[test]
fn population_saturates_at_the_cap() {
    let mut s = Swarm::new(800, 600);
    let mut t: u64 = 0;
    for _ in 0..MAX_BALLS + 50 {
        s.frame(t);
        t += 16;
    }
    assert_eq!(s.count(), MAX_BALLS);
    s.frame(t);
    assert_eq!(s.count(), MAX_BALLS);
}

#[test]
fn cancelled_swarm_stops_and_keeps_its_state() {
    let mut s = Swarm::new(800, 600);
    s.frame(16);
    s.frame(33);
    assert_eq!(s.count(), 2);
    s.cancel();
    assert!(!s.is_active());
    let r = s.frame(50);
    assert_eq!(r.control, LoopControl::Stop);
    assert_eq!(r.dt, 0);
    assert_eq!(r.fps, None);
    assert!(!r.spawned);
    assert_eq!(s.count(), 2);
    assert_eq!(s.last_time(), 33);
}

#[test]
fn every_ball_stays_near_the_canvas() {
    // Run a while and check the lane property concretely: no ball ever
    // drifts more than one speed-step beyond the reflection thresholds.
    let mut s = Swarm::new(800, 600);
    for i in 0..2000u64 {
        s.frame(i * 16);
        for b in s.balls().iter() {
            assert!(20 - 3 <= b.x && b.x <= 780 + 3);
            assert!(270 - 3 <= b.y && b.y <= 580 + 3);
            assert!(b.x_speed.abs() < 4);
            assert!(b.y_speed.abs() < 4);
        }
    }
}
