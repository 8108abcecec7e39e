use orbit_sim::elements::{check_framing, check_inclination, OrbitalElements, TLE_LINE_LENGTH};
use orbit_sim::error::{ElementsFault, PropagationError, TleLine};

const LINE1: &str = "1 25544U 98067A   20194.88612269 -.00002218  00000-0 -31515-4 0  9992";
const LINE2: &str = "2 25544  51.6461 221.2784 0001413  89.1723 280.4612 15.49507896236008";

fn invalid(fault: ElementsFault) -> PropagationError {
    PropagationError::InvalidElements(fault)
}

fn read(line1: &str, line2: &str) -> Result<OrbitalElements, PropagationError> {
    OrbitalElements::from_tle(None, line1.as_bytes(), line2.as_bytes())
}

#[test]
fn record_lines_have_sixty_nine_bytes() {
    assert_eq!(TLE_LINE_LENGTH, 69);
    assert_eq!(LINE1.len(), 69);
    assert_eq!(LINE2.len(), 69);
}

#[test]
fn well_formed_record_is_read() {
    let elements =
        OrbitalElements::from_tle(Some("ISS (ZARYA)".to_owned()), LINE1.as_bytes(), LINE2.as_bytes())
            .unwrap();
    assert_eq!(elements.name(), &Some("ISS (ZARYA)".to_owned()));
    assert_eq!(elements.line1(), LINE1.as_bytes());
    assert_eq!(elements.line2(), LINE2.as_bytes());
    let parsed = elements.parsed();
    assert_eq!(parsed.object_name, Some("ISS (ZARYA)".to_owned()));
    assert_eq!(parsed.norad_id, 25544);
    assert_eq!(parsed.inclination, 51.6461);
    assert_eq!(parsed.right_ascension, 221.2784);
    assert_eq!(parsed.eccentricity, 0.0001413);
    assert_eq!(parsed.argument_of_perigee, 89.1723);
    assert_eq!(parsed.mean_anomaly, 280.4612);
    assert_eq!(parsed.mean_motion, 15.49507896);
}

#[test]
fn record_without_a_name_is_read() {
    let elements = read(LINE1, LINE2).unwrap();
    assert_eq!(elements.name(), &None);
    assert_eq!(elements.parsed().object_name, None);
}

#[test]
fn wrong_line_length_is_invalid_elements() {
    let short = &LINE1[..68];
    assert_eq!(
        read(short, LINE2).err(),
        Some(invalid(ElementsFault::LineLength { line: TleLine::First }))
    );
    let long = format!("{} ", LINE2);
    assert_eq!(
        read(LINE1, &long).err(),
        Some(invalid(ElementsFault::LineLength { line: TleLine::Second }))
    );
    assert_eq!(
        read("", "").err(),
        Some(invalid(ElementsFault::LineLength { line: TleLine::First }))
    );
}

#[test]
fn first_line_is_checked_before_the_second() {
    let non_ascii = format!("{}\u{e9}", &LINE1[..67]);
    assert_eq!(non_ascii.len(), 69);
    assert_eq!(
        read(&non_ascii, "2").err(),
        Some(invalid(ElementsFault::NonAscii { line: TleLine::First }))
    );
}

#[test]
fn non_ascii_byte_is_invalid_elements() {
    let mut line2 = LINE2.as_bytes().to_vec();
    line2[30] = 0x80;
    assert_eq!(
        OrbitalElements::from_tle(None, LINE1.as_bytes(), &line2).err(),
        Some(invalid(ElementsFault::NonAscii { line: TleLine::Second }))
    );
    assert_eq!(
        check_framing(LINE1.as_bytes(), &line2),
        Some(ElementsFault::NonAscii { line: TleLine::Second })
    );
}

#[test]
fn checksum_that_is_no_digit_is_invalid_elements() {
    let blank = format!("{} ", &LINE1[..68]);
    assert_eq!(
        read(&blank, LINE2).err(),
        Some(invalid(ElementsFault::ChecksumDigit { line: TleLine::First }))
    );
    let colon = format!("{}:", &LINE2[..68]);
    assert_eq!(
        read(LINE1, &colon).err(),
        Some(invalid(ElementsFault::ChecksumDigit { line: TleLine::Second }))
    );
}

#[test]
fn framed_record_has_no_framing_fault() {
    assert_eq!(check_framing(LINE1.as_bytes(), LINE2.as_bytes()), None);
    // Framing looks at length, ASCII and the last character only.
    let zeros = "0".repeat(69);
    assert_eq!(check_framing(zeros.as_bytes(), zeros.as_bytes()), None);
}

#[test]
fn wrong_checksum_is_reported_by_the_parser() {
    let wrong = format!("{}3", &LINE1[..68]);
    match read(&wrong, LINE2) {
        Err(PropagationError::InvalidElements(ElementsFault::Field(report))) => {
            let text = format!("{}", report);
            assert!(text.contains("checksum"), "{}", text);
            assert!(text.contains("line 1"), "{}", text);
        }
        other => panic!("{:?}", other),
    }
}

#[test]
fn non_numeric_field_is_reported_with_its_place() {
    let line2 = "2 25544  51.6461 221.2784 0001413  89.1723 280.4612 15.4950789x236002";
    match read(LINE1, line2) {
        Err(PropagationError::InvalidElements(ElementsFault::Field(report))) => {
            let text = format!("{}", report);
            assert!(text.contains("line 2"), "{}", text);
            assert!(text.contains("52"), "{}", text);
            assert!(text.contains("63"), "{}", text);
        }
        other => panic!("{:?}", other),
    }
}

#[test]
fn swapped_lines_are_rejected_by_the_parser() {
    assert!(matches!(
        read(LINE2, LINE1),
        Err(PropagationError::InvalidElements(ElementsFault::Field(_)))
    ));
}

#[test]
fn inclination_above_180_degrees_is_invalid_elements() {
    let line2 = "2 25544 181.0000 221.2784 0001413  89.1723 280.4612 15.49507896236005";
    assert_eq!(read(LINE1, line2).err(), Some(invalid(ElementsFault::Inclination)));
    assert!(!check_inclination(line2.as_bytes()));
}

#[test]
fn inclination_of_180_degrees_is_in_domain() {
    let line2 = "2 25544 180.0000 221.2784 0001413  89.1723 280.4612 15.49507896236004";
    assert!(check_inclination(line2.as_bytes()));
    let elements = read(LINE1, line2).unwrap();
    assert_eq!(elements.parsed().inclination, 180.0);
}

#[test]
fn inclination_of_zero_degrees_is_in_domain() {
    let line2 = "2 25544 00000000 221.2784 0001413  89.1723 280.4612 15.49507896236005";
    assert!(check_inclination(line2.as_bytes()));
    let elements = read(LINE1, line2).unwrap();
    assert_eq!(elements.parsed().inclination, 0.0);
}

#[test]
fn inclination_without_fraction_digits_is_in_domain() {
    let line2 = "2 25544      51. 221.2784 0001413  89.1723 280.4612 15.49507896236001";
    assert!(check_inclination(line2.as_bytes()));
    let elements = read(LINE1, line2).unwrap();
    assert_eq!(elements.parsed().inclination, 51.0);
}

#[test]
fn inclination_in_exponent_notation_is_invalid_elements() {
    let line2 = "2 25544   5.1e+1 221.2784 0001413  89.1723 280.4612 15.49507896236002";
    assert!(!check_inclination(line2.as_bytes()));
    assert_eq!(read(LINE1, line2).err(), Some(invalid(ElementsFault::Inclination)));
}

#[test]
fn inclination_domain_is_decided_on_the_field_alone() {
    assert!(check_inclination(LINE2.as_bytes()));
    let mut line = LINE2.as_bytes().to_vec();
    for (text, expected) in [
        ("180.0001", false),
        ("179.9999", true),
        ("  0.0000", true),
        ("       7", true),
        ("1.234567", true),
        ("1800.000", false),
        ("99999999", false),
        ("        ", false),
        ("       .", false),
        ("     .50", false),
        (" 51.64.1", false),
        ("51.6461 ", false),
        (" 5 .6461", false),
        ("-51.6461", false),
        ("+51.6461", false),
        ("\t51.6461", false),
    ] {
        line[8..16].copy_from_slice(text.as_bytes());
        assert_eq!(check_inclination(&line), expected, "{:?}", text);
    }
    assert!(!check_inclination(&LINE2.as_bytes()[..68]));
    assert!(!check_inclination(b""));
}

#[test]
fn accept_passes_the_parser_report_on() {
    let report = sgp4::Elements::from_tle(None, b"", b"").unwrap_err();
    let expected = sgp4::Elements::from_tle(None, b"", b"").unwrap_err();
    assert_eq!(
        OrbitalElements::accept(None, LINE1.as_bytes(), LINE2.as_bytes(), Err(report)).err(),
        Some(invalid(ElementsFault::Field(expected)))
    );
}

#[test]
fn accept_keeps_what_the_parser_read() {
    let parsed = sgp4::Elements::from_tle(None, LINE1.as_bytes(), LINE2.as_bytes()).unwrap();
    let expected = parsed.clone();
    let elements = OrbitalElements::accept(
        Some("ISS".to_owned()),
        LINE1.as_bytes(),
        LINE2.as_bytes(),
        Ok(parsed),
    )
    .unwrap();
    assert_eq!(elements.parsed(), &expected);
    assert_eq!(elements.name(), &Some("ISS".to_owned()));
    assert_eq!(elements.line1(), LINE1.as_bytes());
    assert_eq!(elements.line2(), LINE2.as_bytes());
}

#[test]
fn accept_rejects_an_inclination_out_of_domain() {
    let parsed = sgp4::Elements::from_tle(None, LINE1.as_bytes(), LINE2.as_bytes()).unwrap();
    let line2 = "2 25544 181.0000 221.2784 0001413  89.1723 280.4612 15.49507896236005";
    assert_eq!(
        OrbitalElements::accept(None, LINE1.as_bytes(), line2.as_bytes(), Ok(parsed)).err(),
        Some(invalid(ElementsFault::Inclination))
    );
}
