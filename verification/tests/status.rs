use mm_model::status::{
    status_list_to_json, status_map_to_interface_map, Status, STATUS_AWAY, STATUS_OFFLINE,
    STATUS_ONLINE,
};
use mm_model::str_map::StrMap;
use mm_model::value::wire_text;

fn online() -> Status {
    Status {
        user_id: "6bdz674pgq767e4jx75w4pf57a".into(),
        status: STATUS_ONLINE.into(),
        manual: true,
        last_activity_at: 1_700_000_000_000,
        active_channel: "qr6kf7ztp7yifxt4wm5xn51bke".into(),
        dnd_end_time: 1_700_000_060,
        prev_status: STATUS_AWAY.into(),
    }
}

#[test]
fn to_json_strips_active_channel_without_touching_the_receiver() {
    let status = online();
    let encoded = status.to_json();

    assert!(!encoded.contains("active_channel"));
    assert_eq!(status.active_channel, "qr6kf7ztp7yifxt4wm5xn51bke");
    // The whole status has it.
    assert!(wire_text(&status.to_value()).contains("active_channel"));
}

#[test]
fn prev_status_never_reaches_the_wire() {
    assert!(!wire_text(&online().to_value()).contains("prev_status"));
}

#[test]
fn an_empty_list_is_an_array_not_null() {
    assert_eq!(status_list_to_json(&[]), "[]");
}

#[test]
fn statuses_on_the_wire() {
    let one = "{\"user_id\":\"6bdz674pgq767e4jx75w4pf57a\",\"status\":\"online\",\
               \"manual\":true,\"last_activity_at\":1700000000000,\"dnd_end_time\":1700000060}";
    assert_eq!(online().to_json(), one);
    assert_eq!(
        status_list_to_json(&[online(), online()]),
        format!("[{one},{one}]")
    );
}

#[test]
fn only_the_exact_offline_string_is_filtered() {
    let mut map = StrMap::new();
    map.insert(
        "k1".to_string(),
        Status {
            user_id: "u1".into(),
            status: STATUS_OFFLINE.into(),
            ..Default::default()
        },
    );
    map.insert(
        "k2".to_string(),
        Status {
            user_id: "u2".into(),
            status: String::new(),
            ..Default::default()
        },
    );
    map.insert(
        "k3".to_string(),
        Status {
            user_id: "u3".into(),
            status: "OFFLINE".into(),
            ..Default::default()
        },
    );

    let out = status_map_to_interface_map(&map);
    assert_eq!(out.get("u1"), None);
    assert_eq!(out.get("u2").map(String::as_str), Some(""));
    assert_eq!(out.get("u3").map(String::as_str), Some("OFFLINE"));
}

#[test]
fn the_result_is_keyed_by_user_id_not_by_the_map_key() {
    let mut map = StrMap::new();
    map.insert(
        "not-a-user-id".to_string(),
        Status {
            user_id: "u1".into(),
            status: STATUS_AWAY.into(),
            ..Default::default()
        },
    );

    let out = status_map_to_interface_map(&map);
    assert_eq!(out.get("u1").map(String::as_str), Some(STATUS_AWAY));
    assert!(!out.contains_key("not-a-user-id"));
}

#[test]
fn dnd_end_time_is_seconds_while_last_activity_is_millis() {
    let status = online();
    assert_eq!(status.dnd_end_time, 1_700_000_060);
    assert_eq!(status.last_activity_at, 1_700_000_000_000);
    assert_eq!(status.last_activity_at / 1000, status.dnd_end_time - 60);
}
