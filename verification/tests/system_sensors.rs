use air_sensors::system_sensors::{parse_meminfo_line, parse_temperature, IntErrorKind};

#[test]
fn test_parse_temperature() {
    let temperature = "29250";

    assert_eq!(parse_temperature(temperature).unwrap() as f64 / 1000.0, 29.25);
}

#[test]
fn test_parse_temperature_newline() {
    let temperature = "45750\n";

    assert_eq!(parse_temperature(temperature).unwrap() as f64 / 1000.0, 45.75);
}

#[test]
fn test_parse_temperature_non_num() {
    let trash = "foo bar baz";
    parse_temperature(trash).unwrap_err();
}

#[test]
fn test_parse_temperature_non_integer() {
    let num = "77000.34";

    parse_temperature(num).unwrap_err();
}

#[test]
fn test_parse_meminfo() {
    let input = "MemTotal:       64866396 kB";

    parse_meminfo_line(input).unwrap();
}

#[test]
fn test_parse_meminfo_non_int() {
    let input = "MemTotal:       6486.6396 kB";

    parse_meminfo_line(input).unwrap_err();
}

#[test]
fn test_parse_meminfo_non_num() {
    let input = "MemTotal:       foo kB";

    parse_meminfo_line(input).unwrap_err();
}

#[test]
fn test_parse_meminfo_invalid_line() {
    let input = "foo";

    parse_meminfo_line(input).unwrap_err();
}

#[test]
fn meminfo_values() {
    assert_eq!(parse_meminfo_line("MemTotal:       64866384 kB\n"), Ok(64866384));
    assert_eq!(parse_meminfo_line("MemFree:        34343068 kB"), Ok(34343068));
    assert_eq!(parse_meminfo_line("foo"), Err(IntErrorKind::Empty));
    assert_eq!(parse_meminfo_line("   "), Err(IntErrorKind::Empty));
    assert_eq!(parse_meminfo_line("MemTotal: foo kB"), Err(IntErrorKind::InvalidDigit));
    assert_eq!(parse_meminfo_line("\tA\u{a0}+12"), Ok(12));
}

#[test]
fn parse_errors_match_std() {
    for s in ["", "+", "-", "12a", "+7", "-7", "007", "18446744073709551616", "99999999999999999999x"] {
        let ours = parse_temperature(s);
        let std_result = s.trim_end().parse::<usize>();
        match (ours, std_result) {
            (Ok(a), Ok(b)) => assert_eq!(a, b),
            (Err(a), Err(b)) => {
                let expected = match b.kind() {
                    std::num::IntErrorKind::Empty => IntErrorKind::Empty,
                    std::num::IntErrorKind::InvalidDigit => IntErrorKind::InvalidDigit,
                    std::num::IntErrorKind::PosOverflow => IntErrorKind::PosOverflow,
                    _ => panic!("unexpected kind"),
                };
                assert_eq!(a, expected, "input {s:?}");
            }
            (a, b) => panic!("input {s:?}: {a:?} vs {b:?}"),
        }
    }
}

#[test]
fn temperature_trims_unicode_white_space() {
    assert_eq!(parse_temperature("90525\u{2003}\r\n"), Ok(90525));
    assert_eq!(parse_temperature(" 90525"), Err(IntErrorKind::InvalidDigit));
}
