//! One tick of the simulation: the active commands become camera deltas, the
//! clock advances, the orbit is propagated to the new time, and the last
//! state that could be computed is kept for display.

use crate::clock::{advanced, SimulationClock};
use crate::control::{ControlDelta, ControlSteps, InputSnapshot};
use crate::error::PropagationError;
use crate::propagator::{OrbitPropagator, StateVector};
use vstd::prelude::*;

verus! {

/// Everything that lives from one tick to the next, but for the viewpoint,
/// which the caller moves by the deltas that each tick reports.
#[derive(Debug)]
pub struct SimulationState {
    clock: SimulationClock,
    steps: ControlSteps,
    propagator: OrbitPropagator,
    satellite: Option<StateVector>,
}

/// What one tick hands to its caller.
#[derive(Debug)]
pub struct TickReport {
    /// The camera deltas of the tick, in the order in which to apply them.
    pub deltas: Vec<ControlDelta>,
    /// Why the tick has no new state of the orbiting body, if it has none.
    pub failure: Option<PropagationError>,
}

/// What a tick keeps of a propagation, and what it reports: a new state
/// replaces the one kept so far; after a failure the one kept so far stays,
/// and the failure is reported.
pub open spec fn absorbed(
    prior: Option<StateVector>,
    outcome: Result<StateVector, PropagationError>,
) -> (Option<StateVector>, Option<PropagationError>) {
    match outcome {
        Ok(state) => (Some(state), None),
        Err(failure) => (prior, Some(failure)),
    }
}

impl SimulationState {
    /// The clock.
    pub closed spec fn spec_clock(&self) -> SimulationClock {
        self.clock
    }

    /// The step magnitudes of the control surface.
    pub closed spec fn spec_steps(&self) -> ControlSteps {
        self.steps
    }

    /// The propagator.
    pub closed spec fn spec_propagator(&self) -> OrbitPropagator {
        self.propagator
    }

    /// The last state of the orbiting body that could be computed.
    pub closed spec fn spec_satellite(&self) -> Option<StateVector> {
        self.satellite
    }

    /// A simulation before its first tick: no state has been computed yet.
    pub fn new(propagator: OrbitPropagator, clock: SimulationClock, steps: ControlSteps) -> (state:
        SimulationState)
        ensures
            state.spec_clock() == clock,
            state.spec_steps() == steps,
            state.spec_propagator() == propagator,
            state.spec_satellite() is None,
    {
        SimulationState { clock, steps, propagator, satellite: None }
    }

    /// What a tick keeps of a propagation: a new state replaces the one
    /// kept so far; after a failure the one kept so far stays, and the
    /// failure is reported.
    pub fn absorb(prior: Option<StateVector>, outcome: Result<StateVector, PropagationError>) -> (res: (
        Option<StateVector>,
        Option<PropagationError>,
    ))
        ensures
            res == absorbed(prior, outcome),
    {
        match outcome {
            Ok(state) => (Some(state), None),
            Err(failure) => (prior, Some(failure)),
        }
    }

    /// Runs one tick. The deltas of the active commands are reported, the
    /// clock advances by its step, and the orbit is propagated to the new
    /// time. The state at that time replaces the one kept so far. A
    /// propagation failure is reported and changes nothing but the clock:
    /// the state kept from earlier ticks stays.
    pub fn tick(&mut self, input: &InputSnapshot) -> (report: TickReport)
        ensures
            report.deltas@ == input.spec_deltas(old(self).spec_steps()),
            final(self).spec_steps() == old(self).spec_steps(),
            final(self).spec_propagator() == old(self).spec_propagator(),
            final(self).spec_clock().spec_step_ms() == old(self).spec_clock().spec_step_ms(),
            final(self).spec_clock().spec_elapsed_ms() == advanced(
                old(self).spec_clock().spec_elapsed_ms() as int,
                old(self).spec_clock().spec_step_ms() as int,
            ),
            final(self).spec_clock().spec_elapsed_ms() >= old(self).spec_clock().spec_elapsed_ms(),
            (final(self).spec_satellite(), report.failure) == absorbed(
                old(self).spec_satellite(),
                old(self).spec_propagator().spec_propagate(final(self).spec_clock().spec_elapsed_ms()),
            ),
            match report.failure {
                Some(failure) => failure is Divergence && final(self).spec_satellite() == old(
                    self,
                ).spec_satellite(),
                None => final(self).spec_satellite() matches Some(state) && state.offset_ms
                    == final(self).spec_clock().spec_elapsed_ms(),
            },
    {
        let deltas = input.deltas(self.steps);
        self.clock.advance();
        let outcome = self.propagator.propagate(self.clock.elapsed_ms());
        let prior = self.satellite.take();
        let (satellite, failure) = SimulationState::absorb(prior, outcome);
        self.satellite = satellite;
        TickReport { deltas, failure }
    }

    /// The clock.
    pub fn clock(&self) -> (clock: &SimulationClock)
        ensures
            *clock == self.spec_clock(),
    {
        &self.clock
    }

    /// The step magnitudes of the control surface.
    pub fn steps(&self) -> (steps: ControlSteps)
        ensures
            steps == self.spec_steps(),
    {
        self.steps
    }

    /// The propagator.
    pub fn propagator(&self) -> (propagator: &OrbitPropagator)
        ensures
            *propagator == self.spec_propagator(),
    {
        &self.propagator
    }

    /// The last state of the orbiting body that could be computed, if any.
    pub fn satellite(&self) -> (satellite: &Option<StateVector>)
        ensures
            *satellite == self.spec_satellite(),
    {
        &self.satellite
    }
}

} // verus!
