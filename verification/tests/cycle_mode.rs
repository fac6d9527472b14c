use moto_hses::commands::{Command, CycleMode, CycleModeSwitchingCommand};

#[test]
fn test_cycle_mode_switching_command_new() {
    let command = CycleModeSwitchingCommand::new(CycleMode::Step);
    assert_eq!(command.mode, CycleMode::Step);
}

#[test]
fn test_cycle_mode_switching_command_trait() {
    let command = CycleModeSwitchingCommand::new(CycleMode::OneCycle);

    assert_eq!(CycleModeSwitchingCommand::command_id(), 0x84);
    assert_eq!(command.instance(), 2);
    assert_eq!(command.attribute(), 1);
    assert_eq!(command.service(), 0x10);
}

#[test]
fn test_cycle_mode_switching_command_serialize() {
    let command = CycleModeSwitchingCommand::new(CycleMode::Step);
    let data = command.serialize().unwrap();
    assert_eq!(data, vec![1, 0, 0, 0]);

    let command = CycleModeSwitchingCommand::new(CycleMode::OneCycle);
    let data = command.serialize().unwrap();
    assert_eq!(data, vec![2, 0, 0, 0]);

    let command = CycleModeSwitchingCommand::new(CycleMode::Continuous);
    let data = command.serialize().unwrap();
    assert_eq!(data, vec![3, 0, 0, 0]);
}

#[test]
fn test_cycle_mode_enum_values() {
    assert_eq!(CycleMode::Step.value(), 1);
    assert_eq!(CycleMode::OneCycle.value(), 2);
    assert_eq!(CycleMode::Continuous.value(), 3);
}

#[test]
fn test_cycle_mode_equality() {
    assert_eq!(CycleMode::Step, CycleMode::Step);
    assert_ne!(CycleMode::Step, CycleMode::OneCycle);
    assert_ne!(CycleMode::OneCycle, CycleMode::Continuous);
}

