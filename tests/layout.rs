use caterpillar::{ChainTopology, ConfigKey, TopologyError, UnknownSegment};

#[test]
fn layout_is_validated() {
    assert_eq!(ChainTopology::new(1, vec![], vec![]).err(), Some(TopologyError::TooFewBodies));
    assert_eq!(ChainTopology::new(0, vec![], vec![]).err(), Some(TopologyError::TooFewBodies));
    // an oscillator needs an interior body
    assert_eq!(ChainTopology::new(5, vec![0], vec![]).err(), Some(TopologyError::BadOscillatorIds));
    assert_eq!(ChainTopology::new(5, vec![4], vec![]).err(), Some(TopologyError::BadOscillatorIds));
    assert_eq!(ChainTopology::new(5, vec![3, 1], vec![]).err(), Some(TopologyError::BadOscillatorIds));
    assert_eq!(ChainTopology::new(5, vec![2, 2], vec![]).err(), Some(TopologyError::BadOscillatorIds));
    // a gripper may sit on any body of the chain
    assert!(ChainTopology::new(5, vec![1, 2, 3], vec![0, 4]).is_ok());
    assert_eq!(ChainTopology::new(5, vec![1], vec![5]).err(), Some(TopologyError::BadGripperIds));
    assert_eq!(ChainTopology::new(5, vec![1], vec![2, 0]).err(), Some(TopologyError::BadGripperIds));
    assert!(ChainTopology::new(2, vec![], vec![0, 1]).is_ok());
}

#[test]
fn oscillator_and_gripper_lookup() {
    let t = ChainTopology::new(6, vec![1, 3, 4], vec![0, 2, 5]).unwrap();
    assert_eq!(t.body_count(), 6);
    assert_eq!(t.joint_count(), 4);
    assert_eq!(t.oscillator_index(1), Ok(0));
    assert_eq!(t.oscillator_index(3), Ok(1));
    assert_eq!(t.oscillator_index(4), Ok(2));
    assert_eq!(t.oscillator_index(2), Err(UnknownSegment { id: 2 }));
    assert_eq!(t.oscillator_index(9), Err(UnknownSegment { id: 9 }));
    assert_eq!(t.gripper_index(5), Ok(2));
    assert_eq!(t.gripper_index(0), Ok(0));
    assert_eq!(t.gripper_index(1), Err(UnknownSegment { id: 1 }));
    assert_eq!(t.oscillator_ids(), &vec![1, 3, 4]);
    assert_eq!(t.gripper_ids(), &vec![0, 2, 5]);
}

#[test]
fn unknown_segment_message() {
    assert_eq!(UnknownSegment { id: 7 }.message(), "segment with id 7 does not hold an oscillator");
    assert_eq!(UnknownSegment { id: 40 }.message(), "segment with id 40 does not hold an oscillator");
}

#[test]
fn actuators_by_joint() {
    let t = ChainTopology::new(5, vec![1, 3], vec![]).unwrap();
    assert_eq!(t.actuator_slots(), vec![Some(0), None, Some(1)]);
    let none = ChainTopology::new(5, vec![], vec![]).unwrap();
    assert_eq!(none.actuator_slots(), vec![None, None, None]);
    let all = ChainTopology::new(4, vec![1, 2], vec![]).unwrap();
    assert_eq!(all.actuator_slots(), vec![Some(0), Some(1)]);
    let two = ChainTopology::new(2, vec![], vec![]).unwrap();
    assert_eq!(two.actuator_slots(), vec![]);
}

#[test]
fn config_keys_parse() {
    assert_eq!(ConfigKey::parse("sp_k"), Some(ConfigKey::SpK));
    assert_eq!(ConfigKey::parse("somite_mass"), Some(ConfigKey::SomiteMass));
    assert_eq!(
        ConfigKey::parse("vertical_realtime_tunable_torsion_spirng_k"),
        Some(ConfigKey::VerticalRealtimeTunableTorsionSpirngK)
    );
    assert_eq!(ConfigKey::parse("gripping_shear_stress_c"), Some(ConfigKey::GrippingShearStressC));
    assert_eq!(ConfigKey::parse("time_delta"), Some(ConfigKey::TimeDelta));
    assert_eq!(ConfigKey::parse("sp_"), None);
    assert_eq!(ConfigKey::parse(""), None);
    assert_eq!(ConfigKey::parse("SP_K"), None);
}

#[test]
fn config_key_names_round_trip() {
    for name in ["time_delta", "dp_c", "rts_amp", "static_friction_coeff", "tip_sub_viscosity_friction_coeff", "friction_switch_tan"] {
        let key = ConfigKey::parse(name).unwrap();
        assert_eq!(key.name(), name);
    }
}
