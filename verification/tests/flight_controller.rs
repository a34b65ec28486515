use droner::command_generator::Command;
use droner::constants::{MOTOR_FEATHER, MOTOR_MAX, MOTOR_MIN};
use droner::flight_controller::{DroneState, FlightController, MotorDemand, MotorDuties};

fn hold_min() -> MotorDemand {
    MotorDemand::Hold(MotorDuties {
        front_right: MOTOR_MIN,
        bottom_right: MOTOR_MIN,
        bottom_left: MOTOR_MIN,
        front_left: MOTOR_MIN,
    })
}

fn mix(throttle: u16) -> MotorDemand {
    MotorDemand::Mix { throttle, min: MOTOR_MIN, max: MOTOR_MAX }
}

fn armed_at(throttle: u16) -> FlightController {
    let mut fc = FlightController::new();
    fc.iterate_state(Command::Start);
    fc.iterate_state(Command::Throttle(throttle));
    fc
}

#[test]
fn starts_disarmed() {
    let fc = FlightController::new();
    assert_eq!(fc.get_state(), DroneState::Standby);
    assert_eq!(fc.get_throttle(), MOTOR_MIN);
    assert_eq!(fc.update(), hold_min());
}

#[test]
fn throttle_ignored_unless_armed() {
    let mut fc = FlightController::new();
    fc.iterate_state(Command::Throttle(3000));
    assert_eq!(fc.get_throttle(), MOTOR_MIN);
    fc.iterate_state(Command::Feather);
    fc.iterate_state(Command::Throttle(3000));
    assert_eq!(fc.get_state(), DroneState::Feather);
    assert_eq!(fc.get_throttle(), MOTOR_FEATHER);
}

#[test]
fn start_arms_and_keeps_throttle() {
    let mut fc = FlightController::new();
    fc.iterate_state(Command::Start);
    assert_eq!(fc.get_state(), DroneState::On);
    assert_eq!(fc.get_throttle(), MOTOR_MIN);
    assert_eq!(fc.update(), mix(MOTOR_MIN));
    fc.iterate_state(Command::Throttle(3100));
    assert_eq!(fc.update(), mix(3100));
    // Start while armed changes nothing.
    fc.iterate_state(Command::Start);
    assert_eq!(fc.get_state(), DroneState::On);
    assert_eq!(fc.get_throttle(), 3100);
}

#[test]
fn start_from_feather_keeps_feather_throttle() {
    let mut fc = armed_at(3500);
    fc.iterate_state(Command::Feather);
    assert_eq!(fc.get_throttle(), MOTOR_FEATHER);
    fc.iterate_state(Command::Start);
    assert_eq!(fc.get_state(), DroneState::On);
    assert_eq!(fc.get_throttle(), MOTOR_FEATHER);
}

#[test]
fn stop_disarms_from_every_state() {
    for setup in [Command::Start, Command::Feather, Command::Stop] {
        let mut fc = FlightController::new();
        fc.iterate_state(setup);
        fc.iterate_state(Command::Throttle(3999));
        fc.iterate_state(Command::Stop);
        assert_eq!(fc.get_state(), DroneState::Standby);
        assert_eq!(fc.get_throttle(), MOTOR_MIN);
        assert_eq!(fc.update(), hold_min());
    }
}

#[test]
fn feather_command() {
    let mut fc = FlightController::new();
    fc.iterate_state(Command::Feather);
    assert_eq!(fc.get_state(), DroneState::Feather);
    assert_eq!(fc.update(), mix(MOTOR_FEATHER));
    let mut fc = armed_at(3333);
    fc.iterate_state(Command::Feather);
    assert_eq!(fc.get_state(), DroneState::Feather);
    assert_eq!(fc.get_throttle(), MOTOR_FEATHER);
}

#[test]
fn feather_timeout_only_when_armed() {
    let mut fc = FlightController::new();
    fc.set_feather();
    assert_eq!(fc.get_state(), DroneState::Standby);
    assert_eq!(fc.get_throttle(), MOTOR_MIN);
    let mut fc = armed_at(3700);
    fc.set_feather();
    assert_eq!(fc.get_state(), DroneState::Feather);
    assert_eq!(fc.get_throttle(), MOTOR_FEATHER);
    fc.set_feather();
    assert_eq!(fc.get_state(), DroneState::Feather);
}

#[test]
fn standby_timeout_disarms() {
    let mut fc = armed_at(3700);
    fc.set_feather();
    fc.set_standby();
    assert_eq!(fc.get_state(), DroneState::Standby);
    assert_eq!(fc.get_throttle(), MOTOR_MIN);
    fc.set_standby();
    assert_eq!(fc.get_state(), DroneState::Standby);
    assert_eq!(fc.get_throttle(), MOTOR_MIN);
    let mut fc = armed_at(2100);
    fc.set_standby();
    assert_eq!(fc.update(), hold_min());
}
