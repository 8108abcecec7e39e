//! Intake of orbital elements from a two-line element record.
//!
//! The record's fields are read by `sgp4`. This module frames the two lines
//! before they are handed over, checks the inclination's domain on the text,
//! and keeps the record's text beside what was read from it.

use crate::error::{ElementsFault, PropagationError, TleLine};
use vstd::prelude::*;
use vstd::slice::slice_to_vec;

verus! {

/// Orbital elements as `sgp4` holds them.
#[verifier::external_type_specification]
#[verifier::external_body]
pub struct ExElements(sgp4::Elements);

/// The length of each line of an element record, in bytes.
pub const TLE_LINE_LENGTH: usize = 69;

/// The first byte of the inclination field in the second line.
pub const INCLINATION_START: usize = 8;

/// The byte after the inclination field in the second line.
pub const INCLINATION_END: usize = 16;

/// The largest inclination, in degrees.
pub const INCLINATION_MAX_DEGREES: u64 = 180;

/// Whether a byte is an ASCII decimal digit.
pub open spec fn is_digit(b: u8) -> bool {
    0x30 <= b <= 0x39
}

/// Whether every byte of a line is ASCII.
pub open spec fn all_ascii(line: Seq<u8>) -> bool {
    forall|i: int| 0 <= i < line.len() ==> line[i] < 0x80
}

/// The first framing fault of one line, if it has one.
pub open spec fn line_fault(line: Seq<u8>, which: TleLine) -> Option<ElementsFault> {
    if line.len() != TLE_LINE_LENGTH {
        Some(ElementsFault::LineLength { line: which })
    } else if !all_ascii(line) {
        Some(ElementsFault::NonAscii { line: which })
    } else if !is_digit(line[TLE_LINE_LENGTH - 1]) {
        Some(ElementsFault::ChecksumDigit { line: which })
    } else {
        None
    }
}

/// The first framing fault of a record, if it has one: that of the first
/// line, else that of the second.
pub open spec fn framing_fault(line1: Seq<u8>, line2: Seq<u8>) -> Option<ElementsFault> {
    match line_fault(line1, TleLine::First) {
        Some(fault) => Some(fault),
        None => line_fault(line2, TleLine::Second),
    }
}

/// How far the reading of a decimal field has come.
pub enum Phase {
    /// Only leading blanks so far.
    Blank,
    /// In the digits before the decimal point.
    Whole,
    /// After the decimal point.
    Fraction,
}

/// What has been read of a decimal field: the digits read so far as one
/// number, and how many of them stand after the decimal point.
pub struct Reading {
    pub phase: Phase,
    pub mantissa: nat,
    pub places: nat,
}

/// The reading after one more byte, or `None` where the byte cannot follow.
pub open spec fn read_byte(r: Reading, b: u8) -> Option<Reading> {
    if b == 0x20 {
        if r.phase is Blank {
            Some(r)
        } else {
            None
        }
    } else if is_digit(b) {
        let mantissa = r.mantissa * 10 + (b - 0x30) as nat;
        if r.phase is Fraction {
            Some(Reading { phase: Phase::Fraction, mantissa, places: r.places + 1 })
        } else {
            Some(Reading { phase: Phase::Whole, mantissa, places: 0 })
        }
    } else if b == 0x2e {
        if r.phase is Whole {
            Some(Reading { phase: Phase::Fraction, mantissa: r.mantissa, places: 0 })
        } else {
            None
        }
    } else {
        None
    }
}

/// The reading of a field in plain decimal notation: blanks, then digits,
/// then optionally a point and more digits. `None` for any other text.
pub open spec fn read_decimal(field: Seq<u8>) -> Option<Reading>
    decreases field.len(),
{
    if field.len() == 0 {
        Some(Reading { phase: Phase::Blank, mantissa: 0, places: 0 })
    } else {
        match read_decimal(field.drop_last()) {
            Some(r) => read_byte(r, field.last()),
            None => None,
        }
    }
}

/// Ten to the power `n`.
pub open spec fn pow10(n: nat) -> nat
    decreases n,
{
    if n == 0 {
        1
    } else {
        10 * pow10((n - 1) as nat)
    }
}

/// Whether the inclination field of a second line is a plain decimal number
/// of degrees between 0 and 180.
pub open spec fn inclination_in_domain(line2: Seq<u8>) -> bool {
    &&& line2.len() == TLE_LINE_LENGTH
    &&& match read_decimal(line2.subrange(INCLINATION_START as int, INCLINATION_END as int)) {
        Some(r) => !(r.phase is Blank) && r.mantissa <= INCLINATION_MAX_DEGREES * pow10(r.places),
        None => false,
    }
}

/// What `sgp4::Elements::from_tle` makes of a framed record and its name:
/// the elements that the fields of the two lines denote, or its report on
/// the first field that it rejects.
pub uninterp spec fn elements_read(name: Option<Seq<char>>, line1: Seq<u8>, line2: Seq<u8>) -> Result<
    sgp4::Elements,
    sgp4::TleError,
>;

/// A name as a sequence of characters, if there is one.
pub open spec fn name_text(name: Option<String>) -> Option<Seq<char>> {
    match name {
        Some(n) => Some(n@),
        None => None,
    }
}

/// Orbital elements: the text that they were read from, and the elements
/// that were read.
pub struct ElementsText {
    pub name: Option<Seq<char>>,
    pub line1: Seq<u8>,
    pub line2: Seq<u8>,
    pub parsed: sgp4::Elements,
}

/// What intake makes of a record: the first framing fault; else the
/// parser's report; else the rejection of an inclination out of domain; else
/// the elements with their text.
pub open spec fn intake(name: Option<Seq<char>>, line1: Seq<u8>, line2: Seq<u8>) -> Result<
    ElementsText,
    PropagationError,
> {
    match framing_fault(line1, line2) {
        Some(fault) => Err(PropagationError::InvalidElements(fault)),
        None => accepted(name, line1, line2, elements_read(name, line1, line2)),
    }
}

/// What intake makes of a record once its fields have been read.
pub open spec fn accepted(
    name: Option<Seq<char>>,
    line1: Seq<u8>,
    line2: Seq<u8>,
    parsed: Result<sgp4::Elements, sgp4::TleError>,
) -> Result<ElementsText, PropagationError> {
    match parsed {
        Err(report) => Err(PropagationError::InvalidElements(ElementsFault::Field(report))),
        Ok(elements) => if inclination_in_domain(line2) {
            Ok(ElementsText { name, line1, line2, parsed: elements })
        } else {
            Err(PropagationError::InvalidElements(ElementsFault::Inclination))
        },
    }
}

/// The outcome of intake with the elements, if there are any, by their view.
pub open spec fn intake_view(res: Result<OrbitalElements, PropagationError>) -> Result<
    ElementsText,
    PropagationError,
> {
    match res {
        Ok(elements) => Ok(elements@),
        Err(failure) => Err(failure),
    }
}

/// The elements of one orbit, read once from a two-line element record and
/// never changed afterwards.
#[derive(Debug)]
pub struct OrbitalElements {
    name: Option<String>,
    line1: Vec<u8>,
    line2: Vec<u8>,
    parsed: sgp4::Elements,
}

impl View for OrbitalElements {
    type V = ElementsText;

    closed spec fn view(&self) -> ElementsText {
        ElementsText {
            name: name_text(self.name),
            line1: self.line1@,
            line2: self.line2@,
            parsed: self.parsed,
        }
    }
}

/// The values of `pow10` on the exponents that a field of eight bytes can reach.
proof fn lemma_pow10_small(n: nat)
    requires
        n <= 8,
    ensures
        pow10(n) == if n == 0 {
            1nat
        } else if n == 1 {
            10
        } else if n == 2 {
            100
        } else if n == 3 {
            1_000
        } else if n == 4 {
            10_000
        } else if n == 5 {
            100_000
        } else if n == 6 {
            1_000_000
        } else if n == 7 {
            10_000_000
        } else {
            100_000_000
        },
{
    reveal_with_fuel(pow10, 10);
}

/// The first framing fault of one line, if it has one.
fn check_line(line: &[u8], which: TleLine) -> (res: Option<ElementsFault>)
    ensures
        res == line_fault(line@, which),
{
    if line.len() != TLE_LINE_LENGTH {
        return Some(ElementsFault::LineLength { line: which });
    }
    let mut i: usize = 0;
    while i < TLE_LINE_LENGTH
        invariant
            line@.len() == TLE_LINE_LENGTH,
            i <= TLE_LINE_LENGTH,
            forall|k: int| 0 <= k < i ==> line@[k] < 0x80,
        decreases TLE_LINE_LENGTH - i,
    {
        if line[i] >= 0x80 {
            return Some(ElementsFault::NonAscii { line: which });
        }
        i = i + 1;
    }
    let last: u8 = line[TLE_LINE_LENGTH - 1];
    if last < 0x30 || last > 0x39 {
        return Some(ElementsFault::ChecksumDigit { line: which });
    }
    None
}

/// The first framing fault of a record, if it has one.
pub fn check_framing(line1: &[u8], line2: &[u8]) -> (res: Option<ElementsFault>)
    ensures
        res == framing_fault(line1@, line2@),
{
    match check_line(line1, TleLine::First) {
        Some(fault) => Some(fault),
        None => check_line(line2, TleLine::Second),
    }
}

/// Whether the inclination field of a second line is a plain decimal number
/// of degrees between 0 and 180.
pub fn check_inclination(line2: &[u8]) -> (ok: bool)
    ensures
        ok == inclination_in_domain(line2@),
{
    if line2.len() != TLE_LINE_LENGTH {
        return false;
    }
    let ghost field = line2@.subrange(INCLINATION_START as int, INCLINATION_END as int);
    // 0: blank, 1: whole, 2: fraction
    let mut phase: u8 = 0;
    let mut mantissa: u64 = 0;
    let mut scale: u64 = 1;
    let ghost mut places: nat = 0;
    let mut i: usize = INCLINATION_START;
    assert(field.take(0) =~= Seq::<u8>::empty());
    while i < INCLINATION_END
        invariant
            line2@.len() == TLE_LINE_LENGTH,
            field == line2@.subrange(INCLINATION_START as int, INCLINATION_END as int),
            INCLINATION_START <= i <= INCLINATION_END,
            phase <= 2,
            places <= i - INCLINATION_START,
            phase != 2 ==> places == 0,
            scale == pow10(places),
            mantissa < pow10((i - INCLINATION_START) as nat),
            read_decimal(field.take(i - INCLINATION_START)) == Some(
                Reading {
                    phase: if phase == 0 {
                        Phase::Blank
                    } else if phase == 1 {
                        Phase::Whole
                    } else {
                        Phase::Fraction
                    },
                    mantissa: mantissa as nat,
                    places,
                },
            ),
        decreases INCLINATION_END - i,
    {
        let b: u8 = line2[i];
        let ghost n: int = i - INCLINATION_START;
        proof {
            lemma_pow10_small(n as nat);
            lemma_pow10_small((n + 1) as nat);
            lemma_pow10_small(places);
            assert(field.take(n + 1).drop_last() =~= field.take(n as int));
            assert(field.take(n + 1).last() == b);
        }
        let ghost before = read_decimal(field.take(n as int))->0;
        assert(read_decimal(field.take(n + 1)) == read_byte(before, b));
        if b == 0x20 {
            if phase != 0 {
                proof {
                    lemma_rejected_prefix(field, (n + 1) as nat);
                }
                return false;
            }
        } else if 0x30 <= b && b <= 0x39 {
            mantissa = mantissa * 10 + (b - 0x30) as u64;
            if phase == 2 {
                scale = scale * 10;
                proof {
                    places = places + 1;
                }
            } else {
                phase = 1;
            }
        } else if b == 0x2e {
            if phase != 1 {
                proof {
                    lemma_rejected_prefix(field, (n + 1) as nat);
                }
                return false;
            }
            phase = 2;
        } else {
            proof {
                lemma_rejected_prefix(field, (n + 1) as nat);
            }
            return false;
        }
        i = i + 1;
    }
    proof {
        assert(field.take(8) =~= field);
        lemma_pow10_small(places);
    }
    phase != 0 && mantissa <= INCLINATION_MAX_DEGREES * scale
}

/// A field with a prefix that cannot be read cannot be read.
proof fn lemma_rejected_prefix(field: Seq<u8>, n: nat)
    requires
        n <= field.len(),
        read_decimal(field.take(n as int)) is None,
    ensures
        read_decimal(field) is None,
    decreases field.len(),
{
    if n < field.len() {
        assert(field.drop_last().take(n as int) =~= field.take(n as int));
        lemma_rejected_prefix(field.drop_last(), n);
    } else {
        assert(field.take(n as int) =~= field);
    }
}

/// Calls `sgp4::Elements::from_tle`, which reads the fields of a record.
/// The lines handed over are framed: the parser assumes ASCII text and
/// subtracts from the checksum character as from a digit. What it returns
/// depends on the two lines and the name alone.
#[verifier::external_body]
fn read_elements(name: Option<String>, line1: &[u8], line2: &[u8]) -> (res: Result<
    sgp4::Elements,
    sgp4::TleError,
>)
    requires
        framing_fault(line1@, line2@) is None,
    ensures
        res == elements_read(name_text(name), line1@, line2@),
{
    sgp4::Elements::from_tle(name, line1, line2)
}

impl OrbitalElements {
    /// The elements as `sgp4` holds them.
    pub open spec fn spec_parsed(&self) -> sgp4::Elements {
        self@.parsed
    }

    /// What intake makes of a record once its fields have been read: the
    /// parser's rejection is passed on, and what it accepted is kept if the
    /// inclination is in its domain.
    pub fn accept(
        name: Option<String>,
        line1: &[u8],
        line2: &[u8],
        parsed: Result<sgp4::Elements, sgp4::TleError>,
    ) -> (res: Result<OrbitalElements, PropagationError>)
        ensures
            intake_view(res) == accepted(name_text(name), line1@, line2@, parsed),
    {
        match parsed {
            Err(report) => Err(PropagationError::InvalidElements(ElementsFault::Field(report))),
            Ok(elements) => {
                if check_inclination(line2) {
                    Ok(
                        OrbitalElements {
                            name,
                            line1: slice_to_vec(line1),
                            line2: slice_to_vec(line2),
                            parsed: elements,
                        },
                    )
                } else {
                    Err(PropagationError::InvalidElements(ElementsFault::Inclination))
                }
            },
        }
    }

    /// Reads orbital elements from the two lines of an element record, with
    /// the name of the object if it has one.
    ///
    /// A record with a framing fault is rejected with that fault. A framed
    /// record is handed to `sgp4`; one that it rejects is rejected with its
    /// report. Of what it accepts, a record whose inclination is out of
    /// domain is rejected, any other yields the elements.
    pub fn from_tle(name: Option<String>, line1: &[u8], line2: &[u8]) -> (res: Result<
        OrbitalElements,
        PropagationError,
    >)
        ensures
            intake_view(res) == intake(name_text(name), line1@, line2@),
    {
        match check_framing(line1, line2) {
            Some(fault) => Err(PropagationError::InvalidElements(fault)),
            None => {
                let label = match &name {
                    Some(n) => Some(n.clone()),
                    None => None,
                };
                let parsed = read_elements(label, line1, line2);
                OrbitalElements::accept(name, line1, line2, parsed)
            },
        }
    }

    /// The name of the object, if the record came with one.
    pub fn name(&self) -> (name: &Option<String>)
        ensures
            name_text(*name) == self@.name,
    {
        &self.name
    }

    /// The first line of the record.
    pub fn line1(&self) -> (line: &[u8])
        ensures
            line@ == self@.line1,
    {
        self.line1.as_slice()
    }

    /// The second line of the record.
    pub fn line2(&self) -> (line: &[u8])
        ensures
            line@ == self@.line2,
    {
        self.line2.as_slice()
    }

    /// The elements as `sgp4` holds them.
    pub fn parsed(&self) -> (elements: &sgp4::Elements)
        ensures
            *elements == self.spec_parsed(),
    {
        &self.parsed
    }
}

} // verus!
