use orbit_sim::clock::SimulationClock;
use orbit_sim::control::{Command, ControlDelta, ControlSteps, InputSnapshot};
use orbit_sim::elements::OrbitalElements;
use orbit_sim::error::{PropagationError, PropagationFault};
use orbit_sim::propagator::{OrbitPropagator, StateVector};
use orbit_sim::simulation::SimulationState;

const LINE1: &str = "1 25544U 98067A   20194.88612269 -.00002218  00000-0 -31515-4 0  9992";
const LINE2: &str = "2 25544  51.6461 221.2784 0001413  89.1723 280.4612 15.49507896236008";

fn station() -> OrbitPropagator {
    let elements = OrbitalElements::from_tle(None, LINE1.as_bytes(), LINE2.as_bytes()).unwrap();
    OrbitPropagator::new(elements).unwrap()
}

fn state_at(offset_ms: i64, x: f64) -> StateVector {
    StateVector {
        offset_ms,
        prediction: sgp4::Prediction { position: [x, 0.0, 0.0], velocity: [0.0, 1.0, 0.0] },
    }
}

#[test]
fn simulation_starts_without_a_state() {
    let state =
        SimulationState::new(station(), SimulationClock::standard(), ControlSteps::standard());
    assert!(state.satellite().is_none());
    assert_eq!(state.clock().elapsed_ms(), 0);
    assert_eq!(state.steps(), ControlSteps::standard());
    assert_eq!(state.propagator().elements().line1(), LINE1.as_bytes());
}

#[test]
fn tick_advances_the_clock_and_propagates_to_the_new_time() {
    let mut state =
        SimulationState::new(station(), SimulationClock::standard(), ControlSteps::standard());
    let input = InputSnapshot::idle();
    for n in 1..=20_i64 {
        let report = state.tick(&input);
        assert!(report.deltas.is_empty());
        assert_eq!(report.failure, None);
        assert_eq!(state.clock().elapsed_ms(), 6000 * n);
        let satellite = state.satellite().as_ref().unwrap();
        assert_eq!(satellite.offset_ms, 6000 * n);
        let expected = state.propagator().propagate(6000 * n).unwrap();
        assert_eq!(satellite, &expected);
    }
}

#[test]
fn first_tick_can_be_at_the_epoch() {
    let mut state = SimulationState::new(
        station(),
        SimulationClock::new(-6000, 6000),
        ControlSteps::standard(),
    );
    let report = state.tick(&InputSnapshot::idle());
    assert_eq!(report.failure, None);
    assert_eq!(state.satellite().as_ref().unwrap().offset_ms, 0);
}

#[test]
fn tick_reports_the_deltas_of_the_active_commands() {
    let steps = ControlSteps { pan: 100, turn: 10 };
    let mut state = SimulationState::new(station(), SimulationClock::standard(), steps);
    let mut input = InputSnapshot::idle();
    input.press(Command::RotateCw);
    input.press(Command::PanUp);
    let report = state.tick(&input);
    assert_eq!(
        report.deltas,
        vec![ControlDelta::Pan { x: 0, y: 100, z: 0 }, ControlDelta::Yaw { angle: 10 }]
    );
    assert_eq!(report.deltas, input.deltas(steps));
    input.release(Command::PanUp);
    let report = state.tick(&input);
    assert_eq!(report.deltas, vec![ControlDelta::Yaw { angle: 10 }]);
    assert_eq!(state.steps(), steps);
}

#[test]
fn failed_tick_reports_the_failure_and_advances_the_clock() {
    let mut state = SimulationState::new(
        station(),
        SimulationClock::new(i64::MAX - 6001, 6000),
        ControlSteps::standard(),
    );
    let mut input = InputSnapshot::idle();
    input.press(Command::PitchUp);
    let report = state.tick(&input);
    assert_eq!(report.failure, Some(PropagationError::Divergence(PropagationFault::EpochOffset)));
    assert_eq!(report.deltas, vec![ControlDelta::Pitch { angle: 10 }]);
    assert_eq!(state.clock().elapsed_ms(), i64::MAX - 1);
    assert!(state.satellite().is_none());
    let report = state.tick(&input);
    assert!(report.failure.is_some());
    assert_eq!(state.clock().elapsed_ms(), i64::MAX);
    assert!(state.satellite().is_none());
}

#[test]
fn failed_tick_keeps_the_last_state() {
    // Steps of a thousand hours: the first ticks succeed, and after some
    // three hundred years the offset can no longer be expressed.
    let mut state = SimulationState::new(
        station(),
        SimulationClock::new(0, 3_600_000_000),
        ControlSteps::standard(),
    );
    let input = InputSnapshot::idle();
    let mut kept: Option<(i64, [f64; 3])> = None;
    let mut successes = 0;
    let mut failures = 0;
    for n in 1..=3000_i64 {
        let report = state.tick(&input);
        assert_eq!(state.clock().elapsed_ms(), 3_600_000_000 * n);
        let shown = state.satellite().as_ref().map(|s| (s.offset_ms, s.prediction.position));
        match report.failure {
            None => {
                successes += 1;
                assert_eq!(shown.unwrap().0, 3_600_000_000 * n);
            }
            Some(PropagationError::Divergence(_)) => {
                failures += 1;
                assert_eq!(shown, kept);
            }
            Some(other) => panic!("{:?}", other),
        }
        kept = shown;
    }
    assert!(successes > 0);
    assert!(failures > 0);
    assert!(kept.is_some());
}

#[test]
fn absorb_replaces_the_state_on_success() {
    assert_eq!(
        SimulationState::absorb(Some(state_at(1, 1.0)), Ok(state_at(2, 2.0))),
        (Some(state_at(2, 2.0)), None)
    );
    assert_eq!(SimulationState::absorb(None, Ok(state_at(2, 2.0))), (Some(state_at(2, 2.0)), None));
}

#[test]
fn absorb_keeps_the_state_on_failure() {
    let failure = PropagationError::Divergence(PropagationFault::Model(
        sgp4::Error::NegativeSemiLatusRectum { t: 3.0 },
    ));
    let again = PropagationError::Divergence(PropagationFault::Model(
        sgp4::Error::NegativeSemiLatusRectum { t: 3.0 },
    ));
    assert_eq!(
        SimulationState::absorb(Some(state_at(1, 1.0)), Err(failure)),
        (Some(state_at(1, 1.0)), Some(again))
    );
    assert_eq!(
        SimulationState::absorb(None, Err(PropagationError::Divergence(PropagationFault::EpochOffset))),
        (None, Some(PropagationError::Divergence(PropagationFault::EpochOffset)))
    );
}
