use caterpillar::{should_grip, should_release, GripState};

#[test]
fn test_grip() {
    let mut s: GripState<(f64, f64, f64)> = GripState::new();
    s.grip((0., 0., 4.));
    assert_eq!(*s.get_gripping_point().unwrap(), (0., 0., 4.));

    // the anchor is not moved while the grip holds
    s.grip((1., 0., 4.));
    assert_eq!(*s.get_gripping_point().unwrap(), (0., 0., 4.));
}

// With a threshold of -0.5, a phase of pi is out of the grip range
// (sin = 0) and a phase of 3pi/2 is in it (sin = -1); a body of radius 1
// at height 1.1 is in the air and at height 1 on the ground.
#[test]
fn test_should_grip() {
    assert!(!should_grip(false, false, false), "in the air & out of grip range");
    assert!(!should_grip(true, false, false), "in the air & in the grip range");
    assert!(!should_grip(false, true, false), "on the ground & out of grip range");
    assert!(!should_grip(true, true, true), "on the ground & in the grip range & gripping");
    assert!(should_grip(true, true, false), "on the ground & in the grip range & not gripping");
}

#[test]
fn test_should_release() {
    assert!(!should_release(false, false), "in the air & out of grip range");
    assert!(!should_release(true, false), "in the air & in the grip range");
    assert!(!should_release(false, false), "on the ground & out of grip range & not gripping");
    assert!(should_release(false, true), "on the ground & out of grip range & gripping");
    assert!(!should_release(true, true), "on the ground & in the grip range & gripping");
    assert!(!should_release(true, false), "on the ground & in the grip range & not gripping");
}

#[test]
fn grip_twice_keeps_first_anchor() {
    let mut s: GripState<(f64, f64, f64)> = GripState::new();
    assert!(!s.is_gripping());
    assert!(s.get_gripping_point().is_none());
    s.grip((0., 0., 4.));
    s.grip((1., 0., 4.));
    assert!(s.is_gripping());
    assert_eq!(s, GripState::Gripped((0., 0., 4.)));
}

#[test]
fn release_then_grip_takes_new_anchor() {
    let mut s: GripState<u32> = GripState::new();
    s.grip(3);
    s.release();
    assert!(!s.is_gripping());
    assert!(s.get_gripping_point().is_none());
    s.grip(8);
    assert_eq!(s.get_gripping_point(), Some(&8));
}

#[test]
fn update_follows_transition_table() {
    let mut s: GripState<u32> = GripState::new();
    // in the air: no grip even in the grip phase
    s.update(true, false, 1);
    assert_eq!(s, GripState::Released);
    // on the ground in the grip phase: grip at the current position
    s.update(true, true, 2);
    assert_eq!(s, GripState::Gripped(2));
    // still in the grip phase, now in the air: the grip holds
    s.update(true, false, 5);
    assert_eq!(s, GripState::Gripped(2));
    // out of the grip phase: release
    s.update(false, true, 6);
    assert_eq!(s, GripState::Released);
    // out of the grip phase while released: nothing happens
    s.update(false, true, 7);
    assert_eq!(s, GripState::Released);
}
