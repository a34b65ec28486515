use droner::command_generator::{Button, Command, CommandGenerator, ControllerField, ControllerState};
use droner::constants::MOTOR_MIN;

/// The trigger conversion of the board code: 2000/255 duty counts per
/// trigger step above `MOTOR_MIN`.
fn to_throttle(value: i16) -> u16 {
    MOTOR_MIN + ((2000.0f32 / 255.0f32) * value as f32) as u16
}

fn snapshot(trigger: i16, start: bool, north: bool, east: bool, south: bool, west: bool) -> ControllerState {
    ControllerState::from_fields(vec![
        ControllerField::RightTrigger(trigger),
        ControllerField::Button(Button::Start, start),
        ControllerField::Button(Button::North, north),
        ControllerField::Button(Button::East, east),
        ControllerField::Button(Button::South, south),
        ControllerField::Button(Button::West, west),
        ControllerField::Other(0, 17),
    ])
}

fn released() -> ControllerState {
    snapshot(0, false, false, false, false, false)
}

fn commands(list: [Option<Command>; 10]) -> Vec<Command> {
    let n = list.iter().take_while(|c| c.is_some()).count();
    assert!(list[n..].iter().all(|c| c.is_none()));
    list[..n].iter().map(|c| c.unwrap()).collect()
}

#[test]
fn released_controller_gives_nothing() {
    let mut g = CommandGenerator::new();
    assert_eq!(commands(g.generate(released(), to_throttle)), vec![]);
    assert_eq!(commands(g.generate(released(), to_throttle)), vec![]);
}

#[test]
fn start_button_press_feathers() {
    let mut g = CommandGenerator::new();
    let pressed = snapshot(0, true, false, false, false, false);
    assert_eq!(commands(g.generate(pressed, to_throttle)), vec![Command::Feather]);
    // Held: no new edge.
    let still = snapshot(0, true, false, false, false, true);
    assert_eq!(commands(g.generate(still, to_throttle)), vec![]);
    // Released then pressed again: a new edge.
    assert_eq!(commands(g.generate(released(), to_throttle)), vec![]);
    let again = snapshot(0, true, false, false, false, false);
    assert_eq!(commands(g.generate(again, to_throttle)), vec![Command::Feather]);
}

#[test]
fn north_west_south_arms() {
    let mut g = CommandGenerator::new();
    let steps = [
        snapshot(0, false, true, false, false, false),
        released(),
        snapshot(0, false, false, false, false, true),
        released(),
        snapshot(0, false, false, false, true, false),
    ];
    let mut out = vec![];
    for s in steps {
        out.extend(commands(g.generate(s, to_throttle)));
    }
    assert_eq!(out, vec![Command::Start]);
}

#[test]
fn north_east_south_disarms() {
    let mut g = CommandGenerator::new();
    let steps = [
        snapshot(0, false, true, false, false, false),
        released(),
        snapshot(0, false, false, true, false, false),
        released(),
        snapshot(0, false, false, false, true, false),
    ];
    let mut out = vec![];
    for s in steps {
        out.extend(commands(g.generate(s, to_throttle)));
    }
    assert_eq!(out, vec![Command::Stop]);
}

#[test]
fn sequence_in_one_snapshot_follows_field_order() {
    // North, East and South pressed at once: the fields are read in the
    // order North, East, South, which completes the disarm sequence.
    let mut g = CommandGenerator::new();
    let all = snapshot(0, false, true, true, true, false);
    assert_eq!(commands(g.generate(all, to_throttle)), vec![Command::Stop]);
}

#[test]
fn broken_sequence_gives_nothing() {
    let mut g = CommandGenerator::new();
    // North then South directly: the pending step is dropped.
    let steps = [
        snapshot(0, false, true, false, false, false),
        released(),
        snapshot(0, false, false, false, true, false),
        released(),
        // West without a pending North does nothing either.
        snapshot(0, false, false, false, false, true),
        released(),
        snapshot(0, false, false, false, true, false),
    ];
    let mut out = vec![];
    for s in steps {
        out.extend(commands(g.generate(s, to_throttle)));
    }
    assert_eq!(out, vec![]);
}

#[test]
fn east_after_east_cancels() {
    let mut g = CommandGenerator::new();
    let steps = [
        snapshot(0, false, true, false, false, false),
        released(),
        snapshot(0, false, false, true, false, false),
        released(),
        snapshot(0, false, false, true, false, false),
        released(),
        snapshot(0, false, false, false, true, false),
    ];
    let mut out = vec![];
    for s in steps {
        out.extend(commands(g.generate(s, to_throttle)));
    }
    assert_eq!(out, vec![]);
}

#[test]
fn trigger_change_sets_throttle() {
    let mut g = CommandGenerator::new();
    let s = snapshot(255, false, false, false, false, false);
    assert_eq!(commands(g.generate(s, to_throttle)), vec![Command::Throttle(to_throttle(255))]);
    let s = snapshot(0, false, false, false, false, false);
    assert_eq!(commands(g.generate(s, to_throttle)), vec![Command::Throttle(MOTOR_MIN)]);
    // The same trigger with another field changed: no throttle command.
    let s = ControllerState::from_fields(vec![
        ControllerField::RightTrigger(0),
        ControllerField::Other(0, 99),
    ]);
    assert_eq!(commands(g.generate(s, to_throttle)), vec![]);
}

#[test]
fn conversion_is_applied_to_the_trigger_value() {
    let mut g = CommandGenerator::new();
    let s = ControllerState::from_fields(vec![ControllerField::RightTrigger(-3)]);
    assert_eq!(commands(g.generate(s, |v: i16| (v + 10) as u16)), vec![Command::Throttle(7)]);
}

#[test]
fn commands_follow_field_order() {
    let mut g = CommandGenerator::new();
    let s = ControllerState::from_fields(vec![
        ControllerField::Button(Button::Start, true),
        ControllerField::RightTrigger(51),
    ]);
    assert_eq!(commands(g.generate(s, to_throttle)), vec![Command::Feather, Command::Throttle(to_throttle(51))]);
    let mut g = CommandGenerator::new();
    let s = ControllerState::from_fields(vec![
        ControllerField::RightTrigger(51),
        ControllerField::Button(Button::Start, true),
    ]);
    assert_eq!(commands(g.generate(s, to_throttle)), vec![Command::Throttle(to_throttle(51)), Command::Feather]);
}

#[test]
fn at_most_ten_commands() {
    let mut g = CommandGenerator::new();
    let fields: Vec<ControllerField> = (1..=12).map(|v| ControllerField::RightTrigger(v)).collect();
    let list = g.generate(ControllerState::from_fields(fields), |v: i16| v as u16);
    assert_eq!(
        commands(list),
        (1..=10).map(|v| Command::Throttle(v)).collect::<Vec<_>>()
    );
}

#[test]
fn later_fields_ignored_once_full() {
    // Ten trigger changes fill the list; North after them is not seen, so
    // West and South later do not arm.
    let mut g = CommandGenerator::new();
    let mut fields: Vec<ControllerField> = (1..=10).map(|v| ControllerField::RightTrigger(v)).collect();
    fields.push(ControllerField::Button(Button::North, true));
    let list = g.generate(ControllerState::from_fields(fields), |v: i16| v as u16);
    assert_eq!(commands(list).len(), 10);
    let steps = [
        snapshot(10, false, false, false, false, true),
        snapshot(10, false, false, false, true, true),
    ];
    let mut out = vec![];
    for s in steps {
        out.extend(commands(g.generate(s, to_throttle)));
    }
    assert_eq!(out, vec![]);
}

#[test]
fn repeated_snapshot_is_silent() {
    let mut g = CommandGenerator::new();
    let s = snapshot(100, true, true, false, false, false);
    assert_eq!(commands(g.generate(s.clone(), to_throttle)).len(), 2);
    assert_eq!(commands(g.generate(s, to_throttle)), vec![]);
}

#[test]
fn same_as_compares_fields_in_order() {
    let a = ControllerState::from_fields(vec![ControllerField::RightTrigger(1), ControllerField::Other(2, 3)]);
    let b = ControllerState::from_fields(vec![ControllerField::RightTrigger(1), ControllerField::Other(2, 3)]);
    let c = ControllerState::from_fields(vec![ControllerField::Other(2, 3), ControllerField::RightTrigger(1)]);
    let d = ControllerState::from_fields(vec![ControllerField::RightTrigger(1)]);
    assert!(a.same_as(&b));
    assert!(!a.same_as(&c));
    assert!(!a.same_as(&d));
    assert!(ControllerState::new().same_as(&ControllerState::from_fields(vec![])));
}

#[test]
fn edges_count_in_call_then_field_order() {
    // North, then West and South together: South is read before West, so
    // its two latest earlier edges are (North) only, and West comes after.
    let mut g = CommandGenerator::new();
    let steps = [
        snapshot(0, false, true, false, false, false),
        snapshot(0, false, false, false, true, true),
        released(),
        snapshot(0, false, false, false, true, false),
    ];
    let mut out = vec![];
    for s in steps {
        out.extend(commands(g.generate(s, to_throttle)));
    }
    assert_eq!(out, vec![]);
    // North and West in one call, then South in the next: Start.
    let mut g = CommandGenerator::new();
    let steps = [
        snapshot(0, false, true, false, false, true),
        snapshot(0, false, false, false, true, false),
    ];
    let mut out = vec![];
    for s in steps {
        out.extend(commands(g.generate(s, to_throttle)));
    }
    assert_eq!(out, vec![Command::Start]);
}

#[test]
fn full_list_without_skipped_edges_keeps_sequences() {
    // North, then a snapshot whose ten trigger changes fill the list exactly
    // (no field is skipped), then West and South: the drone arms.
    let mut g = CommandGenerator::new();
    let north = ControllerState::from_fields(vec![ControllerField::Button(Button::North, true)]);
    assert_eq!(commands(g.generate(north, to_throttle)), vec![]);
    let mut fields: Vec<ControllerField> = (1..=10).map(|v| ControllerField::RightTrigger(v)).collect();
    fields.push(ControllerField::Button(Button::North, true));
    assert_eq!(commands(g.generate(ControllerState::from_fields(fields), |v: i16| v as u16)).len(), 10);
    let west = ControllerState::from_fields(vec![ControllerField::Button(Button::West, true)]);
    assert_eq!(commands(g.generate(west, to_throttle)), vec![]);
    let south = ControllerState::from_fields(vec![ControllerField::Button(Button::South, true)]);
    assert_eq!(commands(g.generate(south, to_throttle)), vec![Command::Start]);
}
