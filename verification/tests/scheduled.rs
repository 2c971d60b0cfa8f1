use mm_model::draft::Draft;
use mm_model::post::{metadata_value, PostMetadata, PostPriority};
use mm_model::scheduled_post::{
    ScheduledPost, ToPostError, SCHEDULED_POST_ERROR_UNKNOWN_ERROR,
};
use mm_model::scheduled_post_recurrence::{
    ComputeNextScheduledAtError, SCHEDULED_POST_REPEAT_TYPE_WEEKLY,
};
use mm_model::scheduled_recap::{
    deduplicate_channel_ids, is_valid_time_of_day, parse_time_of_day, pick_run, ScheduledRecap,
};
use mm_model::str_map::StrMap;
use mm_model::utils::{get_millis, is_valid_id, new_id};
use mm_model::value::{wire_text, StringInterface, Value};

const WEEK: i64 = 7 * 24 * 60 * 60 * 1000;

fn valid() -> ScheduledPost {
    let mut s = ScheduledPost {
        id: "6bdz674pgq767e4jx75w4pf57a".to_string(),
        scheduled_at: get_millis() + 3_600_000,
        ..ScheduledPost::default()
    };
    s.draft.create_at = 1700000000000;
    s.draft.update_at = 1700000001000;
    s.draft.user_id = "6bdz674pgq767e4jx75w4pf57a".to_string();
    s.draft.channel_id = "qr6kf7ztp7yifxt4wm5xn51bke".to_string();
    s.draft.message = "hello".to_string();
    s
}

fn interface(pairs: &[(&str, Value)]) -> StringInterface {
    let mut m = StrMap::new();
    for (k, v) in pairs {
        m.insert(k.to_string(), v.clone());
    }
    m
}

#[test]
fn the_embedded_half_comes_first() {
    let s = valid();
    let whole = wire_text(&s.serialize());
    let draft = wire_text(&s.draft.to_value());

    // The draft without its closing brace stands in front.
    let prefix = &draft[..draft.len() - 1];
    assert!(
        whole.starts_with(prefix),
        "draft keys are not the leading run:\n  whole = {whole}\n  draft = {draft}"
    );
    assert!(whole[prefix.len()..].starts_with(",\"id\":"));
}

#[test]
fn drafts_on_the_wire() {
    let mut d = Draft {
        create_at: 1,
        update_at: 2,
        user_id: "u".into(),
        channel_id: "c".into(),
        message: "<hi>".into(),
        ..Default::default()
    };
    assert_eq!(
        wire_text(&d.to_value()),
        "{\"create_at\":1,\"update_at\":2,\"delete_at\":0,\"user_id\":\"u\",\
         \"channel_id\":\"c\",\"root_id\":\"\",\"message\":\"\\u003chi\\u003e\",\
         \"type\":\"\",\"props\":null}"
    );
    d.file_ids = Some(Vec::new());
    d.priority = Some(StrMap::new());
    d.props = Some(StrMap::new());
    assert!(wire_text(&d.to_value()).ends_with("\"props\":{}}"));
    d.file_ids = Some(vec!["f".into()]);
    d.priority = Some(interface(&[("priority", Value::Str("urgent".into()))]));
    d.metadata = Some(PostMetadata::default());
    assert!(wire_text(&d.to_value()).ends_with(
        "\"props\":{},\"file_ids\":[\"f\"],\"metadata\":{},\"priority\":{\"priority\":\"urgent\"}}"
    ));
}

#[test]
fn metadata_on_the_wire() {
    let m = PostMetadata {
        files: vec![Value::Int(1), Value::Null],
        priority: Some(PostPriority {
            priority: Some("urgent".into()),
            requested_ack: Some(true),
            persistent_notifications: None,
            post_id: String::new(),
            channel_id: "c".into(),
        }),
        ..Default::default()
    };
    assert_eq!(
        wire_text(&metadata_value(&m)),
        "{\"files\":[1,null],\"priority\":{\"priority\":\"urgent\",\"requested_ack\":true,\
         \"persistent_notifications\":null,\"ChannelId\":\"c\"}}"
    );
}

#[test]
fn deref_reaches_the_draft() {
    let s = valid();
    assert_eq!(s.message, "hello");
    assert_eq!(s.create_at, 1700000000000);
}

#[test]
fn a_post_needs_a_message_or_a_file() {
    let mut s = valid();
    s.draft.message = String::new();
    assert_eq!(
        s.base_is_valid().unwrap_err().id,
        "model.scheduled_post.is_valid.empty_post.app_error"
    );

    s.draft.file_ids = Some(vec!["f1".to_string()]);
    assert!(s.base_is_valid().is_ok());

    // White space is a message.
    s.draft.file_ids = None;
    s.draft.message = " ".to_string();
    assert!(s.base_is_valid().is_ok());
}

#[test]
fn the_five_second_grace_window_is_inclusive_of_the_recent_past() {
    let mut s = valid();
    s.scheduled_at = get_millis() - 1000;
    assert!(s.base_is_valid().is_ok());

    s.scheduled_at = get_millis() - 60_000;
    assert_eq!(
        s.base_is_valid().unwrap_err().id,
        "model.scheduled_post.is_valid.scheduled_at.app_error"
    );
}

#[test]
fn the_grace_window_to_the_millisecond() {
    let mut s = valid();
    s.scheduled_at = 1_000_000;
    assert!(s.base_is_valid_at(1_005_000).is_ok());
    assert!(s.base_is_valid_at(1_005_001).is_err());
}

#[test]
fn pre_save_clears_the_processing_state_and_pre_update_does_not() {
    let mut s = valid();
    s.processed_at = 99;
    s.error_code = SCHEDULED_POST_ERROR_UNKNOWN_ERROR.to_string();
    s.pre_save();
    assert_eq!(s.processed_at, 0);
    assert!(s.error_code.is_empty());

    let mut s = valid();
    s.processed_at = 99;
    s.error_code = SCHEDULED_POST_ERROR_UNKNOWN_ERROR.to_string();
    s.pre_update();
    assert_eq!(s.processed_at, 99);
    assert_eq!(s.error_code, SCHEDULED_POST_ERROR_UNKNOWN_ERROR);
}

#[test]
fn get_priority_reads_the_metadata_not_the_draft_field() {
    let mut s = valid();
    s.draft.priority = Some(interface(&[("priority", Value::Str("urgent".into()))]));
    assert!(s.get_priority().is_none());
    s.draft.metadata = Some(PostMetadata {
        priority: Some(PostPriority::default()),
        ..Default::default()
    });
    assert_eq!(s.get_priority(), Some(&PostPriority::default()));
}

#[test]
fn every_field_of_a_scheduled_post_is_checked() {
    let id = |s: &ScheduledPost| s.is_valid(100).unwrap_err().id;
    assert!(valid().is_valid(100).is_ok());

    let mut s = valid();
    s.draft.message = "x".repeat(101);
    assert_eq!(id(&s), "model.draft.is_valid.message_length.app_error");

    let mut s = valid();
    s.draft.user_id = "nope".into();
    assert_eq!(id(&s), "model.draft.is_valid.user_id.app_error");

    let mut s = valid();
    s.id = String::new();
    assert_eq!(id(&s), "model.scheduled_post.is_valid.id.app_error");

    let mut s = valid();
    s.processed_at = -1;
    assert_eq!(id(&s), "model.scheduled_post.is_valid.processed_at.app_error");

    let mut s = valid();
    s.repeat_type = "daily".into();
    assert_eq!(id(&s), "model.scheduled_post.is_valid.repeat_type.app_error");

    let mut s = valid();
    s.repeat_type = "weekly".into();
    s.repeat_timezone = "Nowhere/Nothing".into();
    let e = s.is_valid(100).unwrap_err();
    assert_eq!(
        e.id,
        "model.scheduled_post.is_valid.repeat_timezone_invalid.app_error"
    );
    assert_eq!(
        e.detailed_error,
        "id=6bdz674pgq767e4jx75w4pf57a, repeat_timezone=Nowhere/Nothing, \
         unknown time zone Nowhere/Nothing"
    );
    s.repeat_timezone = "Local".into();
    assert_eq!(
        s.is_valid(100).unwrap_err().detailed_error,
        "id=6bdz674pgq767e4jx75w4pf57a, repeat_timezone=Local"
    );
    s.repeat_timezone = String::new();
    assert_eq!(id(&s), "model.scheduled_post.is_valid.repeat_timezone.app_error");
    s.repeat_timezone = "Europe/Berlin".into();
    assert!(s.is_valid(100).is_ok());
    s.draft.file_ids = Some(vec!["f1".into()]);
    assert_eq!(id(&s), "model.scheduled_post.is_valid.repeat_files.app_error");
}

#[test]
fn posts_are_made_of_scheduled_posts() {
    let mut s = valid();
    s.draft.root_id = "root".into();
    s.draft.file_ids = Some(vec!["f1".into()]);
    s.draft.props = Some(interface(&[("k", Value::Int(1))]));
    let post = s.to_post().unwrap();
    assert_eq!(post.message, "hello");
    assert_eq!(post.root_id, "root");
    assert_eq!(post.file_ids, Some(vec!["f1".to_string()]));
    assert_eq!(post.props.unwrap().get("k"), Some(&Value::Int(1)));

    s.draft.priority = Some(interface(&[
        ("priority", Value::Str("urgent".into())),
        ("requested_ack", Value::Bool(true)),
        ("persistent_notifications", Value::Bool(false)),
    ]));
    let p = s.to_post().unwrap().metadata.unwrap().priority.unwrap();
    assert_eq!(p.priority, Some("urgent".to_string()));
    assert_eq!(p.requested_ack, Some(true));
    assert_eq!(p.persistent_notifications, Some(false));

    s.draft.priority = Some(interface(&[("priority", Value::Int(3))]));
    assert_eq!(
        s.to_post().unwrap_err(),
        ToPostError::PriorityNotAString("map[priority:3]".into())
    );
    s.draft.priority = Some(interface(&[
        ("priority", Value::Str("urgent".into())),
        ("requested_ack", Value::Str("no".into())),
    ]));
    assert!(matches!(
        s.to_post(),
        Err(ToPostError::RequestedAckNotABool(_))
    ));
    s.draft.priority = Some(interface(&[
        ("priority", Value::Str("urgent".into())),
        ("requested_ack", Value::Bool(true)),
        ("persistent_notifications", Value::Null),
    ]));
    assert!(matches!(
        s.to_post(),
        Err(ToPostError::PersistentNotificationsNotABool(_))
    ));
}

#[test]
fn errors_of_posts_in_words() {
    let shown = "map[priority:3]".to_string();
    for e in [
        ToPostError::PriorityNotAString(shown.clone()),
        ToPostError::RequestedAckNotABool(shown.clone()),
        ToPostError::PersistentNotificationsNotABool(shown.clone()),
    ] {
        assert!(e.to_text().contains(&shown), "{}", e.to_text());
    }
}

#[test]
fn what_users_cannot_change_is_restored() {
    let original = valid();
    let mut s = valid();
    s.id = "other".into();
    s.draft.create_at = 5;
    s.draft.user_id = "someone".into();
    s.draft.message = "changed".into();
    s.restore_non_updatable_fields(&original);
    assert_eq!(s.id, original.id);
    assert_eq!(s.draft.create_at, original.draft.create_at);
    assert_eq!(s.draft.user_id, original.draft.user_id);
    assert_eq!(s.draft.message, "changed");
}

#[test]
fn input_is_sanitized() {
    let mut s = valid();
    s.draft.metadata = Some(PostMetadata {
        embeds: vec![Value::Int(1)],
        files: vec![Value::Int(2)],
        ..Default::default()
    });
    s.sanitize_input();
    assert_eq!(s.draft.create_at, 0);
    let m = s.draft.metadata.unwrap();
    assert!(m.embeds.is_empty());
    assert_eq!(m.files, vec![Value::Int(2)]);
}

#[test]
fn drafts_are_checked_and_saved() {
    let mut d = valid().draft;
    assert!(d.is_valid(10).is_ok());
    let e = {
        d.message = "x".repeat(11);
        d.is_valid(10).unwrap_err()
    };
    assert_eq!(e.id, "model.draft.is_valid.message_length.app_error");
    assert_eq!(
        e.params,
        Some(vec![
            ("Length".to_string(), Value::Int(11)),
            ("MaxLength".to_string(), Value::Int(10)),
        ])
    );
    for (field, change) in [
        ("create_at", 0),
        ("update_at", 1),
        ("user_id", 2),
        ("channel_id", 3),
        ("root_id", 4),
        ("file_ids", 5),
        ("props", 6),
        ("priority", 7),
    ] {
        let mut d = valid().draft;
        match change {
            0 => d.create_at = 0,
            1 => d.update_at = 0,
            2 => d.user_id = "x".into(),
            3 => d.channel_id = "x".into(),
            4 => d.root_id = "x".into(),
            5 => d.file_ids = Some(vec!["x".repeat(300)]),
            6 => d.props = Some(interface(&[("k", Value::Str("x".repeat(800_000)))])),
            _ => d.priority = Some(interface(&[("k", Value::Str("x".repeat(800_000)))])),
        }
        assert_eq!(
            d.base_is_valid().unwrap_err().id,
            format!("model.draft.is_valid.{field}.app_error")
        );
    }

    let mut d = Draft {
        file_ids: Some(vec!["a".into(), "b".into(), "a".into()]),
        delete_at: 4,
        ..Default::default()
    };
    d.pre_save_at(9);
    assert_eq!((d.create_at, d.update_at, d.delete_at), (9, 9, 0));
    assert_eq!(d.file_ids, Some(vec!["a".to_string(), "b".to_string()]));
    assert!(d.props.is_some());
    let once = d.clone();
    d.pre_commit();
    assert_eq!(d, once);
}

// -- repetitions ------------------------------------------------------------------------------

fn weekly(scheduled_at: i64, timezone: &str) -> ScheduledPost {
    ScheduledPost {
        scheduled_at,
        repeat_type: SCHEDULED_POST_REPEAT_TYPE_WEEKLY.to_string(),
        repeat_timezone: timezone.to_string(),
        ..ScheduledPost::default()
    }
}

#[test]
fn is_recurring_is_exact_equality() {
    for (repeat_type, want) in [
        ("weekly", true),
        ("", false),
        ("Weekly", false),
        ("weekly ", false),
        ("daily", false),
    ] {
        let s = ScheduledPost {
            repeat_type: repeat_type.to_string(),
            ..ScheduledPost::default()
        };
        assert_eq!(s.is_recurring(), want, "{repeat_type:?}");
    }
}

#[test]
fn every_repeat_type_but_weekly_is_unsupported() {
    for repeat_type in ["", "daily", "Weekly", "monthly"] {
        let s = ScheduledPost {
            repeat_type: repeat_type.to_string(),
            repeat_timezone: "UTC".to_string(),
            ..ScheduledPost::default()
        };
        assert_eq!(
            s.compute_next_scheduled_at(0),
            Err(ComputeNextScheduledAtError::UnsupportedRepeatType(
                repeat_type.to_string()
            ))
        );
    }
}

#[test]
fn the_repeat_type_is_checked_before_the_timezone() {
    let s = ScheduledPost {
        repeat_type: "daily".to_string(),
        repeat_timezone: "Nowhere/Nothing".to_string(),
        ..ScheduledPost::default()
    };
    assert!(matches!(
        s.compute_next_scheduled_at(0),
        Err(ComputeNextScheduledAtError::UnsupportedRepeatType(_))
    ));
}

#[test]
fn the_error_messages_use_gos_quoting() {
    assert_eq!(
        ComputeNextScheduledAtError::UnsupportedRepeatType("a\"b\nc".to_string()).to_text(),
        r#"unsupported scheduled post repeat type "a\"b\nc""#
    );
    assert_eq!(
        ComputeNextScheduledAtError::LoadTimezone {
            name: "Nowhere/Nothing".to_string()
        }
        .to_text(),
        r#"failed to load repeat timezone "Nowhere/Nothing": unknown time zone Nowhere/Nothing"#
    );
}

#[test]
fn an_empty_timezone_is_utc() {
    let s = weekly(1677915000000, "");
    let utc = weekly(1677915000000, "UTC");
    assert_eq!(
        s.compute_next_scheduled_at(1677915000000),
        utc.compute_next_scheduled_at(1677915000000)
    );
}

#[test]
fn local_is_rejected_where_go_accepts_it() {
    let s = weekly(1677915000000, "Local");
    assert_eq!(
        s.compute_next_scheduled_at(0),
        Err(ComputeNextScheduledAtError::LoadTimezone {
            name: "Local".to_string()
        })
    );
}

#[test]
fn a_zone_without_dst_just_adds_seven_days() {
    let s = weekly(1677915000000, "Asia/Kolkata");
    assert_eq!(
        s.compute_next_scheduled_at(1677915000000),
        Ok(1677915000000 + WEEK)
    );
}

#[test]
fn the_first_step_is_unconditional() {
    let s = weekly(1677915000000, "UTC");
    assert_eq!(s.compute_next_scheduled_at(0), Ok(1677915000000 + WEEK));
}

#[test]
fn a_candidate_landing_exactly_on_now_is_rejected() {
    let s = weekly(1677915000000, "UTC");

    assert_eq!(
        s.compute_next_scheduled_at(1677915000000 + WEEK - 1),
        Ok(1677915000000 + WEEK)
    );
    assert_eq!(
        s.compute_next_scheduled_at(1677915000000 + WEEK),
        Ok(1677915000000 + 2 * WEEK)
    );
}

#[test]
fn a_skipped_local_hour_resolves_backwards_in_new_york_and_forwards_in_london() {
    // 2023-03-12 02:30 does not exist in New York: 01:30 EST, before the gap.
    assert_eq!(
        weekly(1_678_001_400_000, "America/New_York").compute_next_scheduled_at(0),
        Ok(1_678_602_600_000)
    );
    // 2023-03-26 01:30 does not exist in London: 02:30 BST, after it.
    assert_eq!(
        weekly(1_679_189_400_000, "Europe/London").compute_next_scheduled_at(0),
        Ok(1_679_794_200_000)
    );
}

#[test]
fn a_repeated_local_hour_takes_the_earlier_instant_in_new_york_and_the_later_in_london() {
    // 01:30 happens twice on 2023-11-05 in New York: 05:30Z (EDT), then 06:30Z (EST).
    assert_eq!(
        weekly(1_698_557_400_000, "America/New_York").compute_next_scheduled_at(0),
        Ok(1_699_162_200_000),
        "the earlier one"
    );
    // 01:30 happens twice on 2023-10-29 in London: 00:30Z (BST), then 01:30Z (GMT).
    assert_eq!(
        weekly(1_697_934_600_000, "Europe/London").compute_next_scheduled_at(0),
        Ok(1_698_543_000_000),
        "the later one"
    );
}

#[test]
fn the_series_is_not_a_multiple_of_a_week() {
    // Half past two in New York on 2023-03-04; the clocks go forward on 2023-03-12.
    let scheduled = 1_677_915_000_000;
    let s = weekly(scheduled, "America/New_York");
    assert_eq!(
        s.compute_next_scheduled_at(scheduled + WEEK - 1),
        Ok(scheduled + WEEK)
    );
    assert_eq!(
        s.compute_next_scheduled_at(scheduled + 3 * WEEK),
        Ok(scheduled + 4 * WEEK - 3_600_000),
        "four weeks on the clocks are an hour short of four weeks"
    );
}

#[test]
fn weeks_over_a_change_of_clocks() {
    let hour = 3_600_000;
    // Noon in Berlin on 2023-03-20; the clocks go forward on 2023-03-26.
    let noon = 1_679_310_000_000;
    assert_eq!(
        weekly(noon, "Europe/Berlin").compute_next_scheduled_at(0),
        Ok(noon + WEEK - hour)
    );
    // Half past two in New York on 2023-03-05; a week later that hour is skipped.
    let early = 1_678_001_400_000;
    assert_eq!(
        weekly(early, "America/New_York").compute_next_scheduled_at(0),
        Ok(early + WEEK - hour)
    );
}

#[test]
fn repetitions_run_out_of_dates() {
    assert_eq!(
        weekly(8_210_266_876_799_000, "UTC").compute_next_scheduled_at(0),
        Err(ComputeNextScheduledAtError::OutOfRange)
    );
    assert_eq!(
        weekly(i64::MAX, "UTC").compute_next_scheduled_at(0),
        Err(ComputeNextScheduledAtError::OutOfRange)
    );
}

// -- recaps -----------------------------------------------------------------------------------

fn recap() -> ScheduledRecap {
    ScheduledRecap {
        id: new_id(),
        user_id: new_id(),
        title: "title".into(),
        days_of_week: 127,
        time_of_day: "09:30".into(),
        timezone: "UTC".into(),
        time_period: "last_24h".into(),
        channel_mode: "all_unreads".into(),
        agent_id: "agent".into(),
        create_at: 1,
        update_at: 1,
        ..Default::default()
    }
}

#[test]
fn times_of_day() {
    assert_eq!(parse_time_of_day("00:00"), Some(0));
    assert_eq!(parse_time_of_day("09:30"), Some(34200));
    assert_eq!(parse_time_of_day("23:59"), Some(86340));
    for bad in ["", "9:30", "24:00", "23:60", "09-30", "ab:cd", "09:300"] {
        assert!(!is_valid_time_of_day(bad), "{bad}");
    }
}

#[test]
fn repeated_channels_are_dropped() {
    let ids = ["a".to_string(), "b".to_string(), "a".to_string()];
    assert_eq!(deduplicate_channel_ids(&ids), vec!["a", "b"]);
    assert!(deduplicate_channel_ids(&[]).is_empty());
}

#[test]
fn the_next_run() {
    let day = 86_400_000;
    let half_past_nine = 34_200_000;
    // The epoch was a Thursday, whose bit is 16.
    let mut r = recap();
    assert_eq!(r.compute_next_run_at(0).unwrap(), half_past_nine);
    assert_eq!(
        r.compute_next_run_at(half_past_nine).unwrap(),
        half_past_nine + day
    );
    r.days_of_week = 16;
    assert_eq!(
        r.compute_next_run_at(half_past_nine).unwrap(),
        half_past_nine + 7 * day
    );
    r.days_of_week = 1;
    assert_eq!(
        r.compute_next_run_at(0).unwrap(),
        half_past_nine + 3 * day
    );
    r.days_of_week = 127;
    r.timezone = "Asia/Kolkata".into();
    assert_eq!(
        r.compute_next_run_at(0).unwrap(),
        half_past_nine - 19_800_000
    );
}

#[test]
fn runs_at_skipped_and_repeated_hours() {
    let mut r = recap();
    r.timezone = "Europe/Berlin".into();
    r.time_of_day = "02:30".into();
    // On 2023-03-26 the clocks go from two to three at 01:00 UTC.
    let before = 1_679_788_800_000;
    assert_eq!(r.compute_next_run_at(before).unwrap(), before + 3_600_000);
    // On 2023-10-29 the clocks go from three to two at 01:00 UTC: the later half past two counts.
    let before = 1_698_537_600_000;
    assert_eq!(r.compute_next_run_at(before).unwrap(), before + 5_400_000);
}

#[test]
fn steady_zones_are_on_time() {
    // West of Greenwich by five hours, east of it by the same, and at it.
    for (zone, offset) in [("Etc/GMT+5", -18_000), ("Etc/GMT-5", 18_000), ("UTC", 0)] {
        let mut r = recap();
        r.timezone = zone.into();
        for from in [0, 1, 34_200_000, 1_700_000_000_123, -1_700_000_000_123] {
            let t = r.compute_next_run_at(from).unwrap();
            assert!(t > from && t - from <= 86_400_000);
            assert_eq!(t % 1000, 0);
            assert_eq!((t / 1000 + offset).rem_euclid(86_400), 34_200);
        }
    }
    // Elsewhere too, but at the instant of a change.
    let mut r = recap();
    r.timezone = "America/New_York".into();
    assert_eq!(r.compute_next_run_at(1_678_597_200_000).unwrap(), 1_678_627_800_000);
}

#[test]
fn runs_near_the_last_day() {
    let day = 86_400_000;
    let last_midnight = 8_210_266_790_400_000;
    let mut r = recap();
    r.timezone = "UTC".into();
    r.time_of_day = "12:00".into();
    r.days_of_week = 127;
    // The last days but one: today, then tomorrow, which is the last.
    let noon = last_midnight - day + day / 2;
    assert_eq!(r.compute_next_run_at(noon - 1).unwrap(), noon);
    let evening = last_midnight - 1000;
    assert_eq!(r.compute_next_run_at(evening).unwrap(), noon + day);
    // Nothing is left where the days that remain are not in the mask.
    for mask in [1, 2, 4, 8, 16, 32, 64] {
        r.days_of_week = mask;
        match r.compute_next_run_at(evening) {
            Ok(t) => assert_eq!(t, noon + day),
            Err(e) => assert!(e.id.contains("no_valid_day")),
        }
    }
    // The second day of all.
    r.days_of_week = 127;
    let second = -8_334_601_228_800_000 + day;
    assert_eq!(r.compute_next_run_at(second).unwrap(), second + day / 2);
}

#[test]
fn runs_that_cannot_be_computed() {
    let id = |r: &ScheduledRecap| {
        let e = r.compute_next_run_at(0).unwrap_err();
        (e.id, e.detailed_error)
    };
    let mut r = recap();
    r.timezone = "Nowhere".into();
    assert_eq!(
        id(&r),
        (
            "model.scheduled_recap.compute_next_run.timezone.app_error".to_string(),
            "timezone=Nowhere".to_string()
        )
    );
    let mut r = recap();
    r.time_of_day = "9".into();
    assert!(id(&r).0.contains("time_format"));
    let mut r = recap();
    r.days_of_week = 0;
    assert!(id(&r).0.contains("days_of_week"));
}

#[test]
fn the_first_day_of_a_mask() {
    let instants = [Some(5), None, Some(7)];
    assert_eq!(pick_run(127, 0, &instants), Some(5));
    assert_eq!(pick_run(2, 0, &instants), None);
    assert_eq!(pick_run(4, 0, &instants), Some(7));
    assert_eq!(pick_run(0, 0, &instants), None);
}

#[test]
fn recaps_are_checked_and_saved() {
    assert!(recap().is_valid().is_ok());
    for (field, change) in [
        ("id", 0),
        ("user_id", 1),
        ("title_empty", 2),
        ("title_length", 3),
        ("custom_instructions_length", 4),
        ("days_of_week", 5),
        ("time_of_day", 6),
        ("timezone", 7),
        ("time_period", 8),
        ("channel_mode", 9),
        ("channel_ids_empty", 10),
        ("channel_id", 11),
        ("agent_id", 12),
    ] {
        let mut r = recap();
        match change {
            0 => r.id = "x".into(),
            1 => r.user_id = "x".into(),
            2 => r.title = String::new(),
            3 => r.title = "x".repeat(1000),
            4 => r.custom_instructions = "x".repeat(10_000),
            5 => r.days_of_week = 128,
            6 => r.time_of_day = "x".into(),
            7 => r.timezone = "x".into(),
            8 => r.time_period = "x".into(),
            9 => r.channel_mode = "x".into(),
            10 => r.channel_mode = "specific".into(),
            11 => {
                r.channel_mode = "specific".into();
                r.channel_ids = Some(vec![new_id(), "x".into()]);
            }
            _ => r.agent_id = String::new(),
        }
        let id = r.is_valid().unwrap_err().id;
        assert!(id.contains(field), "{field}: {id}");
    }

    let mut r = ScheduledRecap::default();
    r.pre_save_at(11);
    assert!(is_valid_id(&r.id));
    assert_eq!((r.create_at, r.update_at), (11, 11));
    r.pre_update_at(12);
    assert_eq!((r.create_at, r.update_at), (11, 12));
}
