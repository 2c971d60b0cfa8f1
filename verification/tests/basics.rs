use mm_model::calendar::{
    add_days, civil_date, end_of_day, read_day, start_of_day, whole_days, whole_seconds,
};
use mm_model::serde_helpers::{
    is_empty_map, is_empty_str, is_false, is_none, is_none_or_empty_map,
    is_none_or_empty_string_map, is_none_or_empty_vec, is_zero_i64,
};
use mm_model::str_map::{comes_before, StrMap, StringMap};
use mm_model::text::{
    byte_len, decimal_text, digits_text, from_chars, has_prefix, holds, join_strings, occurs,
    remove_all, remove_duplicates, split_at_char, split_fields, to_chars, trimmed,
    zero_padded_text,
};
use mm_model::utils::{
    collapse_leading_hashes, ensure_id, get_millis, get_or_empty, get_preferred_timezone,
    is_valid_alpha_num, is_valid_channel_identifier, is_valid_email, is_valid_hashtag,
    is_valid_id, new_id, new_random_string, new_username, parse_bool, quote, reserved_names,
    sanitize_unicode, to_lower, AppError,
};
use mm_model::value::{shown_text, wire_string_text, wire_text, Value};

fn strings(items: &[&str]) -> Vec<String> {
    items.iter().map(|s| s.to_string()).collect()
}

#[test]
fn texts_are_taken_apart() {
    assert_eq!(byte_len("é日🙂"), 9);
    assert_eq!(to_chars("aé"), vec!['a', 'é']);
    assert_eq!(from_chars(&['a', 'b', 'c'], 1, 3), "bc");
    assert_eq!(split_at_char("a,,b", ','), vec!["a", "", "b"]);
    assert_eq!(split_at_char("", ','), vec![""]);
    assert_eq!(split_fields(" a\u{a0}b\u{3000}"), vec!["a", "b"]);
    assert_eq!(trimmed("\t a b \u{85}"), "a b");
    assert_eq!(join_strings(&strings(&["a", "", "b"]), ", "), "a, , b");
    assert_eq!(join_strings(&[], ","), "");
    assert!(has_prefix("abc", "ab"));
    assert!(!has_prefix("ab", "abc"));
    assert!(occurs(&['a', 'b', 'c'], &['b', 'c'], 1));
    assert!(!occurs(&['a', 'b', 'c'], &['b', 'c'], 2));
    assert_eq!(remove_all("adminxadmin", "admin"), "x");
    assert!(holds(&strings(&["a", "b"]), "b"));
    assert_eq!(remove_duplicates(&strings(&["a", "b", "a"])), vec!["a", "b"]);
}

#[test]
fn numbers_in_digits() {
    assert_eq!(decimal_text(0), "0");
    assert_eq!(decimal_text(i64::MIN), i64::MIN.to_string());
    assert_eq!(decimal_text(-17), "-17");
    assert_eq!(digits_text(u64::MAX), u64::MAX.to_string());
    assert_eq!(zero_padded_text(7, 3), "007");
    assert_eq!(zero_padded_text(12345, 3), "12345");
}

#[test]
fn maps_are_in_order() {
    let mut m = StrMap::new();
    for (k, v) in [("b", 2), ("a", 1), ("c", 3), ("b", 4)] {
        m.insert(k.to_string(), v);
    }
    assert_eq!(m.len(), 3);
    let listed: Vec<(&str, i32)> = (0..m.len()).map(|i| (m.key_at(i), *m.value_at(i))).collect();
    assert_eq!(listed, vec![("a", 1), ("b", 4), ("c", 3)]);
    assert_eq!(m.get("b"), Some(&4));
    assert_eq!(m.get("d"), None);
    m.remove("b");
    m.remove("zzz");
    assert!(!m.contains_key("b"));
    assert_eq!(m.len(), 2);
    assert_eq!(m.clone(), m);
    assert!(StrMap::<i32>::new().is_empty());
    assert!(comes_before("a", "b"));
    assert!(comes_before("a", "aa"));
    assert!(!comes_before("a", "a"));
}

#[test]
fn the_order_of_two_insertions_does_not_show() {
    let mut a = StringMap::new();
    a.insert("x".into(), "1".into());
    a.insert("y".into(), "2".into());
    let mut b = StringMap::new();
    b.insert("y".into(), "2".into());
    b.insert("x".into(), "1".into());
    assert_eq!(a, b);
}

#[test]
fn ids_and_names() {
    for _ in 0..20 {
        let id = new_id();
        assert!(is_valid_id(&id), "{id}");
        assert!(is_valid_alpha_num(&id));
        assert!(id.chars().all(|c| c.is_ascii_lowercase() || c.is_ascii_digit()));
    }
    assert_ne!(new_id(), new_id());
    assert_eq!(new_random_string(64).len(), 64);
    let name = new_username();
    assert!(name.starts_with('a') && name.len() == 27);
    assert!(!is_valid_id("short"));
    assert!(!is_valid_id(&"-".repeat(26)));
    let mut id = String::new();
    ensure_id(&mut id);
    assert!(is_valid_id(&id));
    let mut kept = "kept".to_string();
    ensure_id(&mut kept);
    assert_eq!(kept, "kept");
}

#[test]
fn the_clock_goes_on() {
    let a = get_millis();
    let b = get_millis();
    assert!(1_600_000_000_000 < a && a <= b);
}

#[test]
fn addresses() {
    for good in ["a@b.c", "ada.lovelace@example.com", "a+b@x", "o'neil@example.com"] {
        assert!(is_valid_email(good), "{good}");
    }
    for bad in ["", "a", "@b", "a@", "a b@c", "a..b@c", "Ada@example.com", "a@b@c", ".a@b"] {
        assert!(!is_valid_email(bad), "{bad}");
    }
}

#[test]
fn shapes_of_names() {
    assert!(is_valid_alpha_num("core-team"));
    assert!(!is_valid_alpha_num("-core"));
    assert!(!is_valid_alpha_num("Core"));
    assert!(is_valid_channel_identifier("town-square"));
    assert!(!is_valid_channel_identifier("Town Square"));
    assert!(is_valid_hashtag("#tag"));
    assert!(!is_valid_hashtag("#a"));
    assert!(!is_valid_hashtag("tag"));
    assert_eq!(collapse_leading_hashes("###tag"), "#tag");
    assert_eq!(collapse_leading_hashes("tag"), "tag");
    assert!(reserved_names().contains(&"admin"));
}

#[test]
fn unwanted_characters_go() {
    let once = sanitize_unicode("a\u{202e}b\u{feff}c\u{e0001}");
    assert_eq!(once, "abc");
    assert_eq!(sanitize_unicode(&once), once);
    assert_eq!(to_lower("AÉZ"), "aéz");
}

#[test]
fn truth_values_of_settings() {
    for t in ["1", "t", "T", "TRUE", "true", "True"] {
        assert_eq!(parse_bool(t), Some(true));
    }
    for f in ["0", "f", "F", "FALSE", "false", "False"] {
        assert_eq!(parse_bool(f), Some(false));
    }
    assert_eq!(parse_bool("yes"), None);
}

#[test]
fn zones_of_settings() {
    let mut m = StringMap::new();
    assert_eq!(get_or_empty(&m, "k"), "");
    m.insert("manualTimezone".into(), "Europe/Berlin".into());
    m.insert("automaticTimezone".into(), "UTC".into());
    m.insert("useAutomaticTimezone".into(), "false".into());
    assert_eq!(get_preferred_timezone(&m), "Europe/Berlin");
    m.insert("useAutomaticTimezone".into(), "true".into());
    assert_eq!(get_preferred_timezone(&m), "UTC");
}

#[test]
fn quoted_texts() {
    assert_eq!(quote("plain"), "\"plain\"");
    assert_eq!(quote("a\"b\\c\n\t"), "\"a\\\"b\\\\c\\n\\t\"");
    assert_eq!(quote("\u{7}\u{1}é"), "\"\\a\\x01é\"");
}

#[test]
fn errors_wrap_errors() {
    let e = AppError::new("Here", "some.id", None, "details", 404).wrap("inner".into());
    assert_eq!(e.message, "some.id");
    assert_eq!(e.status_code, 404);
    assert_eq!(e.wrapped.as_deref(), Some("inner"));
}

#[test]
fn values_on_the_wire_and_in_messages() {
    let v = Value::Object(vec![
        ("a".to_string(), Value::List(vec![Value::Null, Value::Bool(true), Value::Int(-3)])),
        ("b".to_string(), Value::Str("<&>\u{2028}\"".to_string())),
        ("c".to_string(), Value::Number("1.5e3".to_string())),
    ]);
    assert_eq!(
        wire_text(&v),
        "{\"a\":[null,true,-3],\"b\":\"\\u003c\\u0026\\u003e\\u2028\\\"\",\"c\":1.5e3}"
    );
    assert_eq!(v.clone(), v);
    assert_eq!(wire_string_text("a\nb"), "\"a\\nb\"");
    assert_eq!(
        shown_text(&Value::List(vec![Value::Int(1), Value::Str("x".into())])),
        "[1 x]"
    );
}

#[test]
fn empty_things_are_left_out() {
    assert!(is_false(&false) && !is_false(&true));
    assert!(is_empty_str("") && !is_empty_str("x"));
    assert!(is_zero_i64(&0) && !is_zero_i64(&1));
    assert!(is_empty_map(&StrMap::<i32>::new()));
    assert!(is_none(&None::<i32>) && !is_none(&Some(1)));
    assert!(is_none_or_empty_vec(&None::<Vec<i32>>));
    assert!(is_none_or_empty_vec(&Some(Vec::<i32>::new())));
    assert!(!is_none_or_empty_vec(&Some(vec![1])));
    assert!(is_none_or_empty_map(&None) && is_none_or_empty_map(&Some(StrMap::new())));
    assert!(is_none_or_empty_string_map(&Some(StringMap::new())));
}

#[test]
fn days_and_dates() {
    assert_eq!(whole_seconds(-1), -1);
    assert_eq!(whole_seconds(1999), 1);
    assert_eq!(whole_days(-1), -1);
    assert_eq!(civil_date(719_163), (1970, 1, 1));
    assert_eq!(civil_date(1), (1, 1, 1));
    assert_eq!(civil_date(730_179), (2000, 2, 29));
    assert_eq!(read_day("1970-01-01"), Some(719_163));
    assert_eq!(read_day("2000-02-29"), Some(730_179));
    assert_eq!(read_day("2001-02-29"), None);
    assert_eq!(read_day("2001-2-9"), None);
    assert_eq!(start_of_day(719_163, 3600), Some(-3_600_000));
    assert_eq!(end_of_day(719_163, 0), Some(86_399_999));
}

#[test]
fn days_on_the_clocks_of_a_zone() {
    let day = 86_400_000;
    assert_eq!(add_days("UTC", 0, 1), Some(day));
    assert_eq!(add_days("UTC", 0, -1), Some(-day));
    // Noon of 2023-03-25 in Berlin; the clocks go forward in the night.
    assert_eq!(
        add_days("Europe/Berlin", 1_679_742_000_000, 1),
        Some(1_679_742_000_000 + day - 3_600_000)
    );
}
