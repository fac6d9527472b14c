use moto_hses::encoding::TextEncoding;
use moto_hses::payload::position::{
    BAxisPlacement, BAxisTurnNum, Configuration, EAxisTurnNum, ExtendedConfiguration,
    IkSolutionBasis, LAxisTurnNum, Position, PulsePosition, RAxisTurnNum, RedundantSAxisPlacement,
    SAxisPlacement, SAxisTurnNum, TAxisTurnNum, UAxisPlacement, UAxisTurnNum, WAxisTurnNum,
};

#[test]
fn test_pulse_position_creation() {
    let joints = vec![1000, 2000, 3000, 0, 0, 0, 0, 0];
    let position = PulsePosition::new(joints.clone());
    assert_eq!(position.joints, joints);
}

#[test]
#[allow(clippy::unwrap_used)]
fn position_test_position_serialization() {
    let position = Position::Pulse(PulsePosition::new(vec![1000, 2000, 3000, 0, 0, 0, 0, 0]));
    let serialized = position.serialize().unwrap();
    let deserialized =
        Position::deserialize(&serialized, TextEncoding::Utf8).unwrap();
    assert_eq!(position, deserialized);
}

#[test]
#[allow(clippy::unwrap_used)]
fn test_position_variable_type_trait() {
    let position = Position::Pulse(PulsePosition::new(vec![1000, 2000, 3000, 0, 0, 0, 0, 0]));

    let serialized = position.serialize().unwrap();
    let deserialized =
        Position::deserialize(&serialized, TextEncoding::Utf8).unwrap();
    assert_eq!(position, deserialized);
}

#[test]
fn test_configuration_serialization() {
    let configuration = Configuration::from_raw(0x55); // 01010101
    assert_eq!(configuration.s_placement, SAxisPlacement::Back);
    assert_eq!(configuration.u_placement, UAxisPlacement::Up);
    assert_eq!(configuration.b_placement, BAxisPlacement::NoFlip);
    assert_eq!(configuration.r_turn_num, RAxisTurnNum::Single);
    assert_eq!(configuration.t_turn_num, TAxisTurnNum::Double);
    assert_eq!(configuration.s_turn_num, SAxisTurnNum::Single);
    assert_eq!(configuration.redundant_s_placement, RedundantSAxisPlacement::Back);
    assert_eq!(configuration.ik_solution_basis, IkSolutionBasis::PreviousStep);

    let raw = configuration.to_raw();
    assert_eq!(raw, 0x55);
}

#[test]
fn test_extended_configuration_serialization() {
    let extended_configuration = ExtendedConfiguration::from_raw(0x1F); // 00011111
    assert_eq!(extended_configuration.bit0, LAxisTurnNum::Double);
    assert_eq!(extended_configuration.bit1, UAxisTurnNum::Double);
    assert_eq!(extended_configuration.bit2, BAxisTurnNum::Double);
    assert_eq!(extended_configuration.bit3, EAxisTurnNum::Double);
    assert_eq!(extended_configuration.bit4, WAxisTurnNum::Double);
    assert!(!extended_configuration.bit5);
    assert!(!extended_configuration.bit6);
    assert!(!extended_configuration.bit7);

    let raw = extended_configuration.to_raw();
    assert_eq!(raw, 0x1F);
}

