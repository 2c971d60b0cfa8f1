use mm_model::search_params::{
    build_search_params, is_search_params_list_valid, parse_search_flags, parse_search_params,
    split_words, trim_search_term, SearchFlag, SearchParams, SearchWord,
};
use mm_model::utils::pad_date_string_zeros;

fn terms(text: &str) -> Vec<String> {
    parse_search_params(text, 0)
        .into_iter()
        .map(|p| p.terms)
        .collect()
}

#[test]
fn a_flag_with_no_value_eats_the_next_word_unless_it_is_last() {
    let eaten = parse_search_params("in: town-square", 0);
    assert_eq!(eaten[0].in_channels, vec!["town-square".to_string()]);

    // At the end of the text it is a term.
    assert_eq!(terms("in:"), vec!["in".to_string()]);
    assert_eq!(terms("hello in:"), vec!["hello in".to_string()]);
}

#[test]
fn a_leading_wildcard_is_stripped_and_a_trailing_one_is_kept() {
    assert_eq!(terms("*hello"), vec!["hello".to_string()]);
    assert_eq!(terms("hello*"), vec!["hello*".to_string()]);
}

#[test]
fn a_non_ascii_digit_is_punctuation_to_go() {
    assert_eq!(terms("\u{663}hello"), vec!["hello".to_string()]);
    assert_eq!(terms("hello\u{663}"), vec!["hello".to_string()]);
    // A digit of ASCII is not.
    assert_eq!(terms("3hello"), vec!["3hello".to_string()]);
}

#[test]
fn a_nbsp_splits_words_and_is_stripped_as_punctuation() {
    assert_eq!(terms("a\u{a0}b"), vec!["a b".to_string()]);
    assert_eq!(split_words("a\u{a0}b"), vec!["a", "b"]);
}

#[test]
fn a_hyphen_before_a_quote_joins_it() {
    assert_eq!(split_words(r#"-"a b""#), vec![r#"-"a b""#]);
    assert_eq!(split_words(r#"a-"b""#), vec!["a", r#"-"b""#]);
    // A quotation without an end is split at white space.
    assert_eq!(
        split_words(r#""unclosed phrase"#),
        vec![r#""unclosed"#, "phrase"]
    );
}

#[test]
fn words_keep_all_but_white_space() {
    let text = "  in:a \t-\"b  c\" d\"e f\"g  \"h i ";
    let words = split_words(text);
    assert_eq!(
        words,
        vec!["in:a", "-\"b  c\"", "d", "\"e f\"", "g", "\"h", "i"]
    );
    let kept: String = words.concat().chars().filter(|c| !c.is_whitespace()).collect();
    let had: String = text.chars().filter(|c| !c.is_whitespace()).collect();
    assert_eq!(kept, had);
    for word in words {
        assert!(!word.is_empty());
        if word.contains(' ') {
            assert!(word.trim_start_matches('-').starts_with('"') && word.ends_with('"'));
        }
    }
}

#[test]
fn a_one_letter_hashtag_is_a_plain_term() {
    let params = parse_search_params("#a", 0);
    assert_eq!(params.len(), 1);
    assert!(!params[0].is_hashtag);
    assert_eq!(params[0].terms, "#a");

    let params = parse_search_params("#ab", 0);
    assert!(params[0].is_hashtag);
}

#[test]
fn plain_and_hashtag_terms_produce_two_blocks_sharing_the_filters() {
    let params = parse_search_params("#tag word in:town-square", 19800);
    assert_eq!(params.len(), 2);
    assert!(!params[0].is_hashtag && params[0].terms == "word");
    assert!(params[1].is_hashtag && params[1].terms == "#tag");
    for p in &params {
        assert_eq!(p.in_channels, vec!["town-square".to_string()]);
        assert_eq!(p.time_zone_offset, 19800);
    }
}

#[test]
fn a_filter_with_no_terms_produces_one_empty_block() {
    let params = parse_search_params("in:town-square", 0);
    assert_eq!(params.len(), 1);
    assert!(params[0].terms.is_empty() && !params[0].is_hashtag);

    // No terms and no filters is no search at all.
    assert!(parse_search_params("   ", 0).is_empty());
    assert!(parse_search_params("::", 0).is_empty());
}

#[test]
fn an_unparseable_before_date_is_zero_and_an_after_date_is_not() {
    let bad = SearchParams {
        before_date: "nonsense".into(),
        after_date: "nonsense".into(),
        ..Default::default()
    };
    assert_eq!(bad.get_before_date_millis(), 0);
    assert_ne!(bad.get_after_date_millis(), 0);
    assert_eq!(bad.get_on_date_millis(), (0, 0));
}

#[test]
fn an_empty_list_is_valid_where_the_go_index_looks_unsafe() {
    assert!(is_search_params_list_valid(&[]).is_ok());
}

#[test]
fn strings_fields_matches_split_whitespace() {
    let mut splitters = 0;
    for c in ('\0'..='\u{ffff}').filter(|c| *c != '"') {
        let text = format!("a{c}b");
        let words = split_words(&text);
        assert_eq!(
            words,
            text.split_whitespace().collect::<Vec<_>>(),
            "U+{:04X}",
            c as u32
        );
        if words.len() > 1 {
            splitters += 1;
        }
    }
    assert_eq!(splitters, 25);

    for text in ["", "   ", "a", " a  b ", " a\tb\n\u{3000}c\u{85}d ", "a\u{a0}b"] {
        assert_eq!(
            split_words(text),
            text.split_whitespace().collect::<Vec<_>>(),
            "{text:?}"
        );
    }
}

#[test]
fn every_filter_has_a_flag() {
    let p = &parse_search_params(
        "from:ada -from:eve channel:town -in:off before:2020-01-02 -before:2020-01-03 \
         after:2020-01-04 -after:2020-01-05 on:2020-01-06 -on:2020-01-07 ext:pdf -ext:png",
        0,
    )[0];
    assert_eq!(p.from_users, vec!["ada"]);
    assert_eq!(p.excluded_users, vec!["eve"]);
    assert_eq!(p.in_channels, vec!["town"]);
    assert_eq!(p.excluded_channels, vec!["off"]);
    assert_eq!(p.before_date, "2020-01-02");
    assert_eq!(p.excluded_before_date, "2020-01-03");
    assert_eq!(p.after_date, "2020-01-04");
    assert_eq!(p.excluded_after_date, "2020-01-05");
    assert_eq!(p.on_date, "2020-01-06");
    assert_eq!(p.excluded_date, "2020-01-07");
    assert_eq!(p.extensions, vec!["pdf"]);
    assert_eq!(p.excluded_extensions, vec!["png"]);
}

#[test]
fn excluded_terms_stand_apart() {
    let params = parse_search_params("one -two #three -#four", 0);
    assert_eq!(params.len(), 2);
    assert_eq!(params[0].terms, "one");
    assert_eq!(params[0].excluded_terms, "two");
    assert_eq!(params[1].terms, "#three");
    assert_eq!(params[1].excluded_terms, "#four");
}

#[test]
fn words_and_flags_of_a_text() {
    let words = split_words("hello -from:ada \"a b\"");
    let (terms, flags) = parse_search_flags(&words);
    assert_eq!(flags.len(), 1);
    assert_eq!((flags[0].name, flags[0].value, flags[0].exclude), ("from", "ada", true));
    assert_eq!(terms.len(), 2);
    assert_eq!((terms[0].value.as_str(), terms[0].exclude), ("hello", false));
    assert_eq!(terms[1].value, "\"a b\"");

    let built = build_search_params(
        &[SearchWord {
            value: "x".into(),
            exclude: true,
        }],
        &[SearchFlag {
            name: "ext",
            value: "pdf",
            exclude: false,
        }],
        5,
    );
    assert_eq!(built.len(), 1);
    assert_eq!(built[0].excluded_terms, "x");
    assert_eq!(built[0].extensions, vec!["pdf"]);
    assert_eq!(built[0].time_zone_offset, 5);
}

#[test]
fn terms_are_trimmed_once() {
    for word in ["(hello)", "\"hello\"", "#tag!", "he*llo*", "...", "*x*", "éa!"] {
        let once = trim_search_term(word);
        assert_eq!(trim_search_term(&once), once, "{word}");
    }
    assert_eq!(trim_search_term("(hello)"), "hello");
}

#[test]
fn dates_follow_each_other() {
    let p = SearchParams {
        before_date: "2020-1-5".into(),
        on_date: "2020-01-05".into(),
        after_date: "2020-01-05".into(),
        excluded_date: "2020-01-05".into(),
        time_zone_offset: 3600,
        ..Default::default()
    };
    let midnight = 1_578_182_400_000 - 3_600_000;
    assert_eq!(p.get_on_date_millis(), (midnight, midnight + 86_399_999));
    assert_eq!(p.get_excluded_date_millis(), (midnight, midnight + 86_399_999));
    assert_eq!(p.get_before_date_millis(), midnight - 1);
    assert_eq!(p.get_after_date_millis(), midnight + 86_400_000);
}

#[test]
fn an_unreadable_after_date_is_tomorrow() {
    let p = SearchParams {
        after_date: "nonsense".into(),
        excluded_after_date: "nonsense".into(),
        ..Default::default()
    };
    // The day of the epoch is day 719163.
    assert_eq!(p.get_after_date_millis_on(719_163), 86_400_000);
    assert_eq!(p.get_excluded_after_date_millis_on(719_163), 86_400_000);
    assert_eq!(p.get_excluded_before_date_millis(), 0);
}

#[test]
fn dates_are_padded() {
    assert_eq!(pad_date_string_zeros("2020-1-5"), "2020-01-05");
    assert_eq!(pad_date_string_zeros("2020-11-15"), "2020-11-15");
    assert_eq!(pad_date_string_zeros(""), "");
}

#[test]
fn searches_of_one_kind_of_filter_go_together() {
    let one = SearchParams {
        include_deleted_channels: true,
        ..Default::default()
    };
    let other = SearchParams::default();
    assert!(is_search_params_list_valid(&[one.clone(), one.clone()]).is_ok());
    let e = is_search_params_list_valid(&[one, other]).unwrap_err();
    assert_eq!(e.status_code, 500);
    assert_eq!(
        e.id,
        "model.search_params_list.is_valid.include_deleted_channels.app_error"
    );
    assert_eq!(e.message, e.id);
    assert_eq!(e.where_, "IsSearchParamsListValid");
}
