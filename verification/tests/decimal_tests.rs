use gtk_qq::decimal::{bool_to_string, i64_to_string, parse_bool, parse_i64, parse_usize, usize_to_string};

#[test]
fn i64_text_matches_std() {
    for n in [0i64, 7, 10, 42, -1, -90, 1234567890, i64::MAX, i64::MIN] {
        assert_eq!(i64_to_string(n), n.to_string());
    }
}

#[test]
fn usize_text_matches_std() {
    for n in [0usize, 9, 100, usize::MAX] {
        assert_eq!(usize_to_string(n), n.to_string());
    }
}

#[test]
fn i64_round_trip_on_samples() {
    for n in [0i64, 1, -1, 99, -100, i64::MAX, i64::MIN] {
        assert_eq!(parse_i64(&i64_to_string(n)), Some(n));
    }
}

#[test]
fn parse_i64_matches_std() {
    let samples = [
        "", "-", "+", "0", "+5", "-5", "12a", " 1", "9223372036854775807", "9223372036854775808",
        "-9223372036854775808", "-9223372036854775809", "000123", "１２",
    ];
    for s in samples {
        assert_eq!(parse_i64(s), s.parse::<i64>().ok(), "input {:?}", s);
    }
}

#[test]
fn parse_usize_matches_std() {
    let samples = ["", "-0", "+0", "42", "-1", "18446744073709551615", "18446744073709551616", "x"];
    for s in samples {
        assert_eq!(parse_usize(s), s.parse::<usize>().ok(), "input {:?}", s);
    }
}

#[test]
fn bool_text_and_parse() {
    assert_eq!(bool_to_string(true), "true");
    assert_eq!(bool_to_string(false), "false");
    assert_eq!(parse_bool("true"), Some(true));
    assert_eq!(parse_bool("false"), Some(false));
    assert_eq!(parse_bool("True"), None);
    assert_eq!(parse_bool(""), None);
    assert_eq!(parse_bool(&bool_to_string(true)), Some(true));
}
