use canvas_core::{
    plan_frames, AxisRates, LoopControl, RotationDriver, CUBE_RATE_X, CUBE_RATE_Y, CUBE_RATE_Z,
    TRIANGLE_RATE_Z,
};

fn cube_rates() -> AxisRates {
    AxisRates { z: CUBE_RATE_Z, y: CUBE_RATE_Y, x: CUBE_RATE_X }
}

#[test]
fn scripted_timestamps_give_a_deterministic_plan() {
    // Timestamps 0, 16, 33, 49: each frame's increment is dt * rate per
    // axis, in microradians, applied in the order z, then y, then x.
    let timestamps: Vec<u64> = vec![0, 16, 33, 49];
    let plan = plan_frames(cube_rates(), &timestamps);
    assert_eq!(plan.len(), 4);
    let dts: Vec<u64> = plan.iter().map(|f| f.dt).collect();
    assert_eq!(dts, vec![0, 16, 17, 16]);
    assert_eq!(plan[1].z, 16 * 5000);
    assert_eq!(plan[1].y, 16 * 2000);
    assert_eq!(plan[1].x, 16 * 3000);
    assert_eq!(plan[2].z, 17 * 5000);
    assert_eq!(plan[2].y, 17 * 2000);
    assert_eq!(plan[2].x, 17 * 3000);
    // The same script gives the same plan again.
    let again = plan_frames(cube_rates(), &timestamps);
    assert_eq!(plan, again);
}

#[test]
fn accumulated_angles_depend_only_on_the_last_timestamp() {
    // Step one driver through three frames and another straight to the
    // same final timestamp: the accumulated angles agree.
    let mut a = RotationDriver::new(cube_rates());
    a.frame(16);
    a.frame(33);
    a.frame(50);
    let mut b = RotationDriver::new(cube_rates());
    b.frame(50);
    assert_eq!(a.angles(), b.angles());
    assert_eq!(a.angles(), (50 * 5000, 50 * 2000, 50 * 3000));
    assert_eq!(a.last_time(), 50);
}

#[test]
fn frame_reports_elapsed_time_and_increments() {
    let mut d = RotationDriver::new(cube_rates());
    let (c1, f1) = d.frame(16);
    assert_eq!(c1, LoopControl::Continue);
    assert_eq!(f1.dt, 16);
    assert_eq!(f1.z, 80_000);
    assert_eq!(f1.y, 32_000);
    assert_eq!(f1.x, 48_000);
    let (_, f2) = d.frame(33);
    assert_eq!(f2.dt, 17);
    assert_eq!(f2.z, 85_000);
}

#[test]
fn triangle_demo_rotates_about_z_alone() {
    let rates = AxisRates { z: TRIANGLE_RATE_Z, y: 0, x: 0 };
    let mut d = RotationDriver::new(rates);
    let (_, f) = d.frame(100);
    assert_eq!(f.z, 200_000);
    assert_eq!(f.y, 0);
    assert_eq!(f.x, 0);
    assert_eq!(d.angles(), (200_000, 0, 0));
}

#[test]
fn cancelled_driver_stops_and_keeps_its_angles() {
    let mut d = RotationDriver::new(cube_rates());
    d.frame(16);
    d.cancel();
    assert!(!d.is_active());
    let (c, f) = d.frame(32);
    assert_eq!(c, LoopControl::Stop);
    assert_eq!(f.dt, 0);
    assert_eq!((f.z, f.y, f.x), (0, 0, 0));
    assert_eq!(d.angles(), (16 * 5000, 16 * 2000, 16 * 3000));
    assert_eq!(d.last_time(), 16);
}

#[test]
fn zero_elapsed_time_turns_nothing() {
    let mut d = RotationDriver::new(cube_rates());
    d.frame(40);
    let (_, f) = d.frame(40);
    assert_eq!(f.dt, 0);
    assert_eq!((f.z, f.y, f.x), (0, 0, 0));
}
