use mm_model::str_map::StringMap;
use mm_model::timeutils::{
    format_fraction, format_millis, format_millis_in, format_offset, format_year, normalise,
    parse_formated_millis, parsed_or_refused, TimeParseError,
};
use mm_model::timezones::{
    default_user_timezone, Timezones, AUTOMATIC_TIMEZONE, MANUAL_TIMEZONE, USE_AUTOMATIC_TIMEZONE,
};
use mm_model::utils::get_preferred_timezone;
use mm_model::value::string_map_wire_text;

fn text<'a>(m: &'a StringMap, key: &str) -> Option<&'a str> {
    m.get(key).map(|s| s.as_str())
}

#[test]
fn default_is_three_keys_with_a_string_true() {
    let tz = default_user_timezone();
    assert_eq!(tz.len(), 3);
    assert_eq!(text(&tz, USE_AUTOMATIC_TIMEZONE), Some("true"));
    assert_eq!(text(&tz, AUTOMATIC_TIMEZONE), Some(""));
    assert_eq!(text(&tz, MANUAL_TIMEZONE), Some(""));
}

#[test]
fn each_call_returns_a_fresh_map() {
    let mut a = default_user_timezone();
    let b = default_user_timezone();
    a.insert(MANUAL_TIMEZONE.to_owned(), "Europe/Berlin".to_owned());
    assert_eq!(text(&b, MANUAL_TIMEZONE), Some(""));
}

#[test]
fn the_default_prefers_the_automatic_zone() {
    assert_eq!(get_preferred_timezone(&default_user_timezone()), "");
}

#[test]
fn marshalled_bytes_match_go() {
    let wire = string_map_wire_text(Some(&default_user_timezone()));
    assert_eq!(
        wire,
        "{\"automaticTimezone\":\"\",\"manualTimezone\":\"\",\"useAutomaticTimezone\":\"true\"}"
    );
    assert!(wire.chars().count() < 256);
}

#[test]
fn supported_zones() {
    let zones = Timezones::new();
    let supported = zones.get_supported();
    assert_eq!(supported.len(), 597);
    for name in ["UTC", "Europe/Berlin", "America/New_York", "Asia/Kolkata"] {
        assert!(supported.contains(&name), "{name}");
    }
    assert!(!supported.contains(&"Local"));
    assert!(supported.windows(2).all(|w| w[0] < w[1]), "strictly increasing");
    assert_eq!(Timezones::default().get_supported(), supported);
}

#[test]
fn the_fraction_elides_trailing_zeros() {
    assert_eq!(format_fraction(0), "");
    assert_eq!(format_fraction(1), ".001");
    assert_eq!(format_fraction(10), ".01");
    assert_eq!(format_fraction(100), ".1");
    assert_eq!(format_fraction(123), ".123");
    assert_eq!(format_fraction(120), ".12");
    assert_eq!(format_fraction(999), ".999");
}

#[test]
fn the_year_is_at_least_four_digits_with_the_sign_outside() {
    assert_eq!(format_year(2023), "2023");
    assert_eq!(format_year(1), "0001");
    assert_eq!(format_year(10000), "10000");
    assert_eq!(format_year(-1), "-0001");
}

#[test]
fn an_empty_string_parses_to_zero_rather_than_failing() {
    assert_eq!(parse_formated_millis(""), Ok(0));
}

#[test]
fn extra_precision_is_truncated() {
    assert_eq!(
        parse_formated_millis("2023-11-14T16:43:20.9999Z"),
        Ok(1_699_980_200_999)
    );
}

#[test]
fn an_offset_is_required() {
    assert!(parse_formated_millis("2023-11-14T16:43:20").is_err());
    assert!(parse_formated_millis("2023-11-14").is_err());
}

#[test]
fn offsets_are_written_in_hours_and_minutes() {
    assert_eq!(format_offset(0), "Z");
    assert_eq!(format_offset(19800), "+05:30");
    assert_eq!(format_offset(-12600), "-03:30");
}

#[test]
fn instants_are_written_as_clocks_show_them() {
    assert_eq!(format_millis_in(0, 0), "1970-01-01T00:00:00Z");
    assert_eq!(format_millis_in(-1, 0), "1969-12-31T23:59:59.999Z");
    assert_eq!(
        format_millis_in(1_699_980_200_120, 19800),
        "2023-11-14T22:13:20.12+05:30"
    );
    assert_eq!(
        format_millis_in(951_782_400_000, 0),
        "2000-02-29T00:00:00Z"
    );
}

#[test]
fn format_millis_matches_go() {
    for (millis, text) in [
        (1_700_000_000_000, "2023-11-15T03:43:20+05:30"),
        (1_700_000_000_100, "2023-11-15T03:43:20.1+05:30"),
        (1_700_000_000_010, "2023-11-15T03:43:20.01+05:30"),
        (1_700_000_000_123, "2023-11-15T03:43:20.123+05:30"),
    ] {
        assert_eq!(format_millis_in(millis, 19800), text);
    }
}

#[test]
fn format_millis_at_a_zero_offset_emits_z() {
    assert_eq!(format_millis_in(1_700_000_000_000, 0), "2023-11-14T22:13:20Z");
    assert_eq!(format_millis_in(1_700_000_000_123, 0), "2023-11-14T22:13:20.123Z");
}

#[test]
fn the_round_trip_has_a_hole_at_year_10000() {
    let text = format_millis_in(253_402_300_799_999, 19800);
    assert_eq!(text, "10000-01-01T05:29:59.999+05:30");
    assert!(parse_formated_millis(&text).is_err());
    let text = format_millis_in(253_402_300_799_999, 0);
    assert_eq!(text, "9999-12-31T23:59:59.999Z");
    assert_eq!(parse_formated_millis(&text), Ok(253_402_300_799_999));
}

#[test]
fn written_instants_are_read_back() {
    for millis in [0, 1, 999, 1_699_980_200_120, 1_000_000_000_000, 253_402_200_000_123] {
        for offset in [0, 3600, -12600] {
            let text = format_millis_in(millis, offset);
            assert_eq!(parse_formated_millis(&text), Ok(millis), "{text}");
        }
        assert_eq!(parse_formated_millis(&format_millis(millis)), Ok(millis));
    }
    // There is a hole where a year has five digits.
    let text = format_millis_in(253_402_300_800_000, 0);
    assert_eq!(text, "10000-01-01T00:00:00Z");
    assert!(parse_formated_millis(&text).is_err());
}

#[test]
fn refused_texts_are_named() {
    assert_eq!(
        parse_formated_millis("nonsense"),
        Err(TimeParseError("nonsense".to_string()))
    );
    assert_eq!(parsed_or_refused("x", Some(5)), Ok(5));
    assert_eq!(
        parsed_or_refused("x", None),
        Err(TimeParseError("x".to_string()))
    );
}

#[test]
fn a_comma_or_a_z_is_normalised() {
    assert_eq!(
        normalise("2023-11-14T16:43:20Z"),
        "2023-11-14T16:43:20+00:00"
    );
}
