use rsglobe::rotation::{Axis, AxisRotation, Orientation, RotationSpeed, TURN_NANOTURNS};

fn speed_x(x: i64) -> RotationSpeed {
    RotationSpeed { x, y: 0, z: 0 }
}

#[test]
fn identity_orientation_is_empty() {
    let o = Orientation::identity();
    assert!(o.steps.is_empty());
}

#[test]
fn one_second_at_five_millituns_per_second() {
    // 0.005 turns per second for one second: one x step of 0.005 turns,
    // y and z untouched.
    let mut o = Orientation::identity();
    o.rotate(&speed_x(5000), 1000);
    assert_eq!(o.steps.len(), 1);
    assert_eq!(o.steps[0].axis, Axis::X);
    assert_eq!(o.steps[0].angle_nanoturns, 5_000_000);
}

#[test]
fn small_steps_accumulate_like_one_large_step() {
    let speed = speed_x(5000);
    let mut many = Orientation::identity();
    for _ in 0..10 {
        many.rotate(&speed, 100);
    }
    let mut once = Orientation::identity();
    once.rotate(&speed, 1000);
    assert_eq!(many.steps, once.steps);
}

#[test]
fn zero_delta_is_a_noop() {
    let mut o = Orientation::identity();
    o.rotate(&speed_x(5000), 500);
    let before = o.steps.clone();
    o.rotate(&speed_x(5000), 0);
    assert_eq!(o.steps, before);
}

#[test]
fn zero_speed_is_a_noop() {
    let mut o = Orientation::identity();
    o.rotate(&RotationSpeed { x: 0, y: 0, z: 0 }, 123_456);
    assert!(o.steps.is_empty());
}

#[test]
fn whole_turns_vanish() {
    // A quarter turn per second for four seconds is a whole turn.
    let mut o = Orientation::identity();
    o.rotate(&speed_x(250_000), 4000);
    assert!(o.steps.is_empty());
}

#[test]
fn wrap_around_keeps_the_remainder() {
    // 0.75 turns then 0.75 turns is 1.5 turns: half a turn remains.
    let mut o = Orientation::identity();
    o.rotate(&speed_x(750_000), 1000);
    o.rotate(&speed_x(750_000), 1000);
    assert_eq!(o.steps.len(), 1);
    assert_eq!(o.steps[0].angle_nanoturns, TURN_NANOTURNS / 2);
}

#[test]
fn negative_speed_spins_the_other_way() {
    let mut o = Orientation::identity();
    o.rotate(&speed_x(-5000), 1000);
    assert_eq!(o.steps.len(), 1);
    assert_eq!(o.steps[0].angle_nanoturns, TURN_NANOTURNS - 5_000_000);
}

#[test]
fn axes_compose_in_x_y_z_order_without_commuting() {
    let speed = RotationSpeed { x: 1000, y: 0, z: 2000 };
    let mut o = Orientation::identity();
    o.rotate(&speed, 1000);
    assert_eq!(
        o.steps,
        vec![
            AxisRotation { axis: Axis::X, angle_nanoturns: 1_000_000 },
            AxisRotation { axis: Axis::Z, angle_nanoturns: 2_000_000 },
        ]
    );
    // A second frame appends: the new x increment cannot merge through z.
    o.rotate(&speed, 1000);
    assert_eq!(o.steps.len(), 4);
    assert_eq!(o.steps[2], AxisRotation { axis: Axis::X, angle_nanoturns: 1_000_000 });
    assert_eq!(o.steps[3], AxisRotation { axis: Axis::Z, angle_nanoturns: 2_000_000 });
}

#[test]
fn same_axis_frames_merge() {
    let mut o = Orientation::identity();
    o.rotate(&speed_x(5000), 1000);
    o.rotate(&speed_x(5000), 1000);
    assert_eq!(o.steps.len(), 1);
    assert_eq!(o.steps[0].angle_nanoturns, 10_000_000);
}
