use caterpillar::{update_grippers, Actuation, ChainTopology, GripState, JointDrive, UnknownSegment};

#[test]
fn joints_follow_oscillators_until_pinned() {
    let t = ChainTopology::new(5, vec![1, 3], vec![]).unwrap();
    let mut a: Actuation<f64> = Actuation::new(&t);
    assert_eq!(a.joint_count(), 3);
    assert_eq!(a.take_drives(), vec![JointDrive::Phase(0), JointDrive::Passive, JointDrive::Phase(1)]);

    assert_eq!(a.pin_target(3, 0.25), Ok(()));
    assert_eq!(a.take_drives(), vec![JointDrive::Phase(0), JointDrive::Passive, JointDrive::Pinned(0.25)]);
    // the pin was used up by the step
    assert_eq!(a.take_drives(), vec![JointDrive::Phase(0), JointDrive::Passive, JointDrive::Phase(1)]);
}

#[test]
fn pins_need_an_oscillator() {
    let t = ChainTopology::new(5, vec![1, 3], vec![]).unwrap();
    let mut a: Actuation<f64> = Actuation::new(&t);
    assert_eq!(a.pin_target(2, 0.5), Err(UnknownSegment { id: 2 }));
    assert_eq!(a.pin_target(0, 0.5), Err(UnknownSegment { id: 0 }));
    assert_eq!(a.pin_target(4, 0.5), Err(UnknownSegment { id: 4 }));
    assert_eq!(a.pin_target(9, 0.5), Err(UnknownSegment { id: 9 }));
    assert_eq!(a.pin_target(1, 0.5), Ok(()));
    assert_eq!(a.pin_target(1, 0.75), Ok(()));
    assert_eq!(a.take_drives(), vec![JointDrive::Pinned(0.75), JointDrive::Passive, JointDrive::Phase(1)]);
}

#[test]
fn every_gripper_is_updated() {
    let mut grips: Vec<GripState<(f64, f64, f64)>> =
        vec![GripState::new(), GripState::Gripped((1., 0., 0.)), GripState::Gripped((2., 0., 0.)), GripState::new()];
    let in_grip_phase = vec![true, false, true, true];
    let on_ground = vec![true, true, false, false];
    let positions = vec![(0.5, 0., 0.1), (1.5, 0., 0.1), (2.5, 0., 0.3), (3.5, 0., 0.3)];
    update_grippers(&mut grips, &in_grip_phase, &on_ground, &positions);
    assert_eq!(
        grips,
        vec![GripState::Gripped((0.5, 0., 0.1)), GripState::Released, GripState::Gripped((2., 0., 0.)), GripState::Released]
    );
}
