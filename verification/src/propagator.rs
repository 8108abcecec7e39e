//! Propagation of an orbit from its elements to a time offset.
//!
//! The propagation model is `sgp4`'s. This module derives the model's
//! constants once per element set, expresses a whole number of milliseconds
//! from the epoch in the model's own time, and sorts the outcomes.

use crate::elements::OrbitalElements;
use crate::error::{ElementsFault, PropagationError, PropagationFault};
use vstd::prelude::*;

verus! {

/// The constants that `sgp4` derives from one element set.
#[verifier::external_type_specification]
#[verifier::external_body]
pub struct ExConstants(sgp4::Constants);

/// Position in kilometres and velocity in kilometres per second, in the
/// inertial frame of the epoch, as `sgp4` predicts them.
#[verifier::external_type_specification]
#[verifier::external_body]
pub struct ExPrediction(sgp4::Prediction);

/// The state of the orbiting body at one time offset. A propagation makes a
/// new one; none is ever changed.
#[derive(Debug, PartialEq)]
pub struct StateVector {
    /// The time of the state, in milliseconds from the epoch.
    pub offset_ms: i64,
    /// Position and velocity at that time.
    pub prediction: sgp4::Prediction,
}

/// Elements together with the constants derived from them.
#[derive(Debug)]
pub struct OrbitPropagator {
    elements: OrbitalElements,
    constants: sgp4::Constants,
}

/// The year of the epoch of elements, in the calendar that `chrono` counts
/// in; years before the year 1 are zero and negative.
pub uninterp spec fn epoch_year(elements: sgp4::Elements) -> int;

/// What `sgp4::Constants::from_elements_afspc_compatibility_mode` derives
/// from elements: the constants of the propagation model, or its report that
/// eccentricity or mean motion is outside the model's domain.
pub uninterp spec fn constants_of(elements: sgp4::Elements) -> Result<
    sgp4::Constants,
    sgp4::ElementsError,
>;

/// What propagation to a whole number of milliseconds from the epoch gives:
/// nothing where the offset has no date or no minutes, else what
/// `sgp4::Constants::propagate` returns for those minutes.
pub uninterp spec fn prediction_at(
    elements: sgp4::Elements,
    constants: sgp4::Constants,
    offset_ms: i64,
) -> Option<Result<sgp4::Prediction, sgp4::Error>>;

/// What becomes of elements once the derivation of their constants has
/// returned.
pub open spec fn with_derived(
    elements: OrbitalElements,
    derived: Result<sgp4::Constants, sgp4::ElementsError>,
    res: Result<OrbitPropagator, PropagationError>,
) -> bool {
    match derived {
        Ok(constants) => {
            &&& res matches Ok(p)
            &&& p.spec_elements() == elements
            &&& p.spec_constants() == constants
        },
        Err(report) => res == Err::<OrbitPropagator, PropagationError>(
            PropagationError::InvalidElements(ElementsFault::Domain(report)),
        ),
    }
}

/// What a propagation to an offset yields once the model has returned: the
/// state at that offset, or the reason why there is none.
pub open spec fn settled(
    offset_ms: i64,
    outcome: Option<Result<sgp4::Prediction, sgp4::Error>>,
) -> Result<StateVector, PropagationError> {
    match outcome {
        Some(Ok(prediction)) => Ok(StateVector { offset_ms, prediction }),
        Some(Err(report)) => Err(PropagationError::Divergence(PropagationFault::Model(report))),
        None => Err(PropagationError::Divergence(PropagationFault::EpochOffset)),
    }
}

/// Reads the year of the epoch, `chrono::Datelike::year` of the `datetime`
/// of the elements.
#[verifier::external_body]
fn year_of_epoch(elements: &sgp4::Elements) -> (year: i32)
    ensures
        year == epoch_year(*elements),
{
    sgp4::chrono::Datelike::year(&elements.datetime)
}

/// Calls `sgp4::Constants::from_elements_afspc_compatibility_mode`, which
/// derives the constants of the propagation model from elements, or reports
/// that their eccentricity or mean motion is outside the model's domain. It
/// counts the days of the epoch in unsigned numbers, so the epoch must not
/// lie before the year 1.
#[verifier::external_body]
fn derive_constants(elements: &sgp4::Elements) -> (res: Result<
    sgp4::Constants,
    sgp4::ElementsError,
>)
    requires
        epoch_year(*elements) >= 1,
    ensures
        res == constants_of(*elements),
{
    sgp4::Constants::from_elements_afspc_compatibility_mode(elements)
}

/// Propagates to a whole number of milliseconds from the epoch. `chrono`
/// adds the offset to the epoch's date, `sgp4::Elements::datetime_to_minutes_since_epoch`
/// turns that date into the model's minutes, and `sgp4::Constants::propagate`
/// predicts the state. `None` where the offset has no date or no minutes;
/// else what the model returns.
#[verifier::external_body]
fn propagate_offset(
    elements: &sgp4::Elements,
    constants: &sgp4::Constants,
    offset_ms: i64,
) -> (res: Option<Result<sgp4::Prediction, sgp4::Error>>)
    ensures
        res == prediction_at(*elements, *constants, offset_ms),
{
    let delta = sgp4::chrono::TimeDelta::try_milliseconds(offset_ms)?;
    let date = elements.datetime.checked_add_signed(delta)?;
    let minutes = elements.datetime_to_minutes_since_epoch(&date).ok()?;
    Some(constants.propagate(minutes))
}

impl OrbitPropagator {
    /// The elements that the propagator was made for.
    pub closed spec fn spec_elements(&self) -> OrbitalElements {
        self.elements
    }

    /// The constants derived from the elements.
    pub closed spec fn spec_constants(&self) -> sgp4::Constants {
        self.constants
    }

    /// The outcome of a propagation to an offset from the epoch.
    pub open spec fn spec_propagate(&self, offset_ms: i64) -> Result<StateVector, PropagationError> {
        settled(
            offset_ms,
            prediction_at(self.spec_elements().spec_parsed(), self.spec_constants(), offset_ms),
        )
    }

    /// What becomes of elements once the derivation of their constants has
    /// returned: a propagator, or the rejection of the elements as out of
    /// the model's domain.
    pub fn with_constants(
        elements: OrbitalElements,
        derived: Result<sgp4::Constants, sgp4::ElementsError>,
    ) -> (res: Result<OrbitPropagator, PropagationError>)
        ensures
            with_derived(elements, derived, res),
    {
        match derived {
            Ok(constants) => Ok(OrbitPropagator { elements, constants }),
            Err(report) => Err(PropagationError::InvalidElements(ElementsFault::Domain(report))),
        }
    }

    /// Derives the constants of the propagation model from elements.
    /// Elements whose epoch lies before the year 1 are rejected, and so are
    /// elements outside the model's domain; all others yield a propagator
    /// with the model's constants for them.
    pub fn new(elements: OrbitalElements) -> (res: Result<OrbitPropagator, PropagationError>)
        ensures
            if epoch_year(elements.spec_parsed()) < 1 {
                res == Err::<OrbitPropagator, PropagationError>(
                    PropagationError::InvalidElements(ElementsFault::EpochYear),
                )
            } else {
                with_derived(elements, constants_of(elements.spec_parsed()), res)
            },
    {
        if year_of_epoch(elements.parsed()) < 1 {
            return Err(PropagationError::InvalidElements(ElementsFault::EpochYear));
        }
        let derived = derive_constants(elements.parsed());
        OrbitPropagator::with_constants(elements, derived)
    }

    /// What a propagation to an offset yields once the model has returned:
    /// the state at that offset, or the reason why there is none.
    pub fn settle(offset_ms: i64, outcome: Option<Result<sgp4::Prediction, sgp4::Error>>) -> (res:
        Result<StateVector, PropagationError>)
        ensures
            res == settled(offset_ms, outcome),
    {
        match outcome {
            Some(Ok(prediction)) => Ok(StateVector { offset_ms, prediction }),
            Some(Err(report)) => Err(PropagationError::Divergence(PropagationFault::Model(report))),
            None => Err(PropagationError::Divergence(PropagationFault::EpochOffset)),
        }
    }

    /// The state of the orbiting body at an offset from the epoch, in
    /// milliseconds; negative offsets lie before the epoch. The elements are
    /// not changed, and a failure at one offset says nothing of another.
    pub fn propagate(&self, offset_ms: i64) -> (res: Result<StateVector, PropagationError>)
        ensures
            res == self.spec_propagate(offset_ms),
            res matches Ok(state) ==> state.offset_ms == offset_ms,
            res matches Err(e) ==> e is Divergence,
    {
        let outcome = propagate_offset(self.elements.parsed(), &self.constants, offset_ms);
        OrbitPropagator::settle(offset_ms, outcome)
    }

    /// The elements that the propagator was made for.
    pub fn elements(&self) -> (elements: &OrbitalElements)
        ensures
            *elements == self.spec_elements(),
    {
        &self.elements
    }
}

} // verus!
