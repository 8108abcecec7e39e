//! The failures that element intake and propagation report.

use vstd::prelude::*;

verus! {

/// The report of `sgp4`'s two-line element parser on a record that it rejects.
#[verifier::external_type_specification]
#[verifier::external_body]
pub struct ExTleError(sgp4::TleError);

/// The report of `sgp4` on elements from which no propagator can be derived.
#[verifier::external_type_specification]
#[verifier::external_body]
pub struct ExElementsError(sgp4::ElementsError);

/// The report of `sgp4` on a propagation whose orbit has diverged.
#[verifier::external_type_specification]
#[verifier::external_body]
pub struct ExModelError(sgp4::Error);

/// One of the two lines of an element record.
#[derive(Clone, Copy, Debug, PartialEq, Eq, Structural)]
pub enum TleLine {
    First,
    Second,
}

/// Why an element record is not accepted.
#[derive(Debug, PartialEq)]
pub enum ElementsFault {
    /// The line does not have the fixed length of a record line.
    LineLength { line: TleLine },
    /// The line holds a byte outside ASCII.
    NonAscii { line: TleLine },
    /// The last character of the line, its checksum, is not a decimal digit.
    ChecksumDigit { line: TleLine },
    /// The parser rejects a field of the record; its report names the field.
    Field(sgp4::TleError),
    /// The inclination is not a plain decimal number of degrees in `[0, 180]`.
    Inclination,
    /// The epoch lies before the year 1, where the propagation model has no
    /// count of days.
    EpochYear,
    /// The elements are outside the domain of the propagation model.
    Domain(sgp4::ElementsError),
}

/// Why no state could be computed for a time offset.
#[derive(Debug, PartialEq)]
pub enum PropagationFault {
    /// The offset from the epoch is too large to be expressed as a date and as minutes.
    EpochOffset,
    /// The propagation model reports that the orbit has diverged at this offset.
    Model(sgp4::Error),
}

/// The failures of element intake and of propagation.
#[derive(Debug, PartialEq)]
pub enum PropagationError {
    /// The element record is malformed or out of domain. Nothing can be
    /// propagated from it.
    InvalidElements(ElementsFault),
    /// No state could be computed for one time offset. Other offsets are not
    /// affected.
    Divergence(PropagationFault),
}

} // verus!
