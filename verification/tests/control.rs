use orbit_sim::control::{Command, ControlDelta, ControlSteps, InputSnapshot, COMMAND_COUNT};

fn net_yaw(deltas: &[ControlDelta]) -> i64 {
    let mut total: i64 = 0;
    for delta in deltas {
        if let ControlDelta::Yaw { angle } = delta {
            total += i64::from(*angle);
        }
    }
    total
}

#[test]
fn standard_steps_are_a_tenth_of_a_unit_and_ten_milliradians() {
    let steps = ControlSteps::standard();
    assert_eq!(steps, ControlSteps { pan: 100, turn: 10 });
}

#[test]
fn each_command_has_its_delta() {
    let steps = ControlSteps { pan: 100, turn: 10 };
    assert_eq!(Command::PanUp.delta(steps), ControlDelta::Pan { x: 0, y: 100, z: 0 });
    assert_eq!(Command::PanDown.delta(steps), ControlDelta::Pan { x: 0, y: -100, z: 0 });
    assert_eq!(Command::PanLeft.delta(steps), ControlDelta::Pan { x: -100, y: 0, z: 0 });
    assert_eq!(Command::PanRight.delta(steps), ControlDelta::Pan { x: 100, y: 0, z: 0 });
    assert_eq!(Command::PanNear.delta(steps), ControlDelta::Pan { x: 0, y: 0, z: -100 });
    assert_eq!(Command::PanFar.delta(steps), ControlDelta::Pan { x: 0, y: 0, z: 100 });
    assert_eq!(Command::RotateCw.delta(steps), ControlDelta::Yaw { angle: 10 });
    assert_eq!(Command::RotateCcw.delta(steps), ControlDelta::Yaw { angle: -10 });
    assert_eq!(Command::PitchUp.delta(steps), ControlDelta::Pitch { angle: 10 });
    assert_eq!(Command::PitchDown.delta(steps), ControlDelta::Pitch { angle: -10 });
}

#[test]
fn largest_steps_do_not_overflow() {
    let steps = ControlSteps { pan: u16::MAX, turn: u16::MAX };
    assert_eq!(Command::PanLeft.delta(steps), ControlDelta::Pan { x: -65535, y: 0, z: 0 });
    assert_eq!(Command::PitchDown.delta(steps), ControlDelta::Pitch { angle: -65535 });
}

#[test]
fn index_and_at_are_inverse() {
    assert_eq!(COMMAND_COUNT, 10);
    for i in 0..COMMAND_COUNT {
        let command = Command::at(i).unwrap();
        assert_eq!(command.index(), i);
    }
    assert_eq!(Command::at(0), Some(Command::PanUp));
    assert_eq!(Command::at(9), Some(Command::PitchDown));
    assert_eq!(Command::at(10), None);
    assert_eq!(Command::at(usize::MAX), None);
}

#[test]
fn idle_snapshot_has_no_deltas() {
    let snapshot = InputSnapshot::idle();
    for i in 0..COMMAND_COUNT {
        assert!(!snapshot.is_active(Command::at(i).unwrap()));
    }
    assert!(snapshot.deltas(ControlSteps::standard()).is_empty());
}

#[test]
fn press_and_release_change_one_command() {
    let mut snapshot = InputSnapshot::idle();
    snapshot.press(Command::PanFar);
    assert!(snapshot.is_active(Command::PanFar));
    assert!(!snapshot.is_active(Command::PanNear));
    snapshot.press(Command::PanFar);
    assert!(snapshot.is_active(Command::PanFar));
    snapshot.release(Command::PanFar);
    assert!(!snapshot.is_active(Command::PanFar));
    assert_eq!(snapshot, InputSnapshot::idle());
}

#[test]
fn deltas_come_in_the_order_of_the_commands() {
    let mut snapshot = InputSnapshot::idle();
    snapshot.press(Command::PitchDown);
    snapshot.press(Command::RotateCw);
    snapshot.press(Command::PanLeft);
    snapshot.press(Command::PanUp);
    let deltas = snapshot.deltas(ControlSteps { pan: 100, turn: 10 });
    assert_eq!(
        deltas,
        vec![
            ControlDelta::Pan { x: 0, y: 100, z: 0 },
            ControlDelta::Pan { x: -100, y: 0, z: 0 },
            ControlDelta::Yaw { angle: 10 },
            ControlDelta::Pitch { angle: -10 },
        ]
    );
}

#[test]
fn all_commands_active_give_ten_deltas() {
    let mut snapshot = InputSnapshot::idle();
    for i in 0..COMMAND_COUNT {
        snapshot.press(Command::at(i).unwrap());
    }
    let steps = ControlSteps { pan: 7, turn: 3 };
    let deltas = snapshot.deltas(steps);
    assert_eq!(deltas.len(), 10);
    for i in 0..COMMAND_COUNT {
        assert_eq!(deltas[i], Command::at(i).unwrap().delta(steps));
    }
    assert_eq!(net_yaw(&deltas), 0);
}

#[test]
fn ten_turns_clockwise_then_ten_back_command_no_net_rotation() {
    let steps = ControlSteps::standard();
    let mut cw = InputSnapshot::idle();
    cw.press(Command::RotateCw);
    let mut ccw = InputSnapshot::idle();
    ccw.press(Command::RotateCcw);
    let mut all: Vec<ControlDelta> = Vec::new();
    for _ in 0..10 {
        all.extend(cw.deltas(steps));
    }
    assert_eq!(all.len(), 10);
    assert_eq!(net_yaw(&all), 100);
    for _ in 0..10 {
        all.extend(ccw.deltas(steps));
    }
    assert_eq!(all.len(), 20);
    assert_eq!(net_yaw(&all), 0);
}

#[test]
fn opposite_turns_in_one_tick_cancel() {
    let mut snapshot = InputSnapshot::idle();
    snapshot.press(Command::RotateCcw);
    snapshot.press(Command::RotateCw);
    snapshot.press(Command::PanNear);
    let deltas = snapshot.deltas(ControlSteps { pan: 100, turn: 250 });
    assert_eq!(
        deltas,
        vec![
            ControlDelta::Pan { x: 0, y: 0, z: -100 },
            ControlDelta::Yaw { angle: 250 },
            ControlDelta::Yaw { angle: -250 },
        ]
    );
    assert_eq!(net_yaw(&deltas), 0);
}
