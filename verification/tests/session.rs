use mm_model::session::external::{
    USER_AUTH_SERVICE_IS_MOBILE, USER_AUTH_SERVICE_IS_OAUTH, USER_AUTH_SERVICE_IS_SAML,
};
use mm_model::session::{
    is_valid_device_id, is_valid_standard_device_id, is_valid_voip_device_id, redact_device_id,
    Session, SESSION_PROP_CSRF, SESSION_PROP_IS_BOT, SESSION_PROP_IS_GUEST, SESSION_PROP_TYPE,
    SESSION_TYPE_USER_ACCESS_TOKEN,
};
use mm_model::team_member::TeamMember;
use mm_model::user::USER_ROLES_MAX_LENGTH;
use mm_model::utils::{get_millis, is_valid_id, new_id};

fn valid_session() -> Session {
    Session {
        id: new_id(),
        user_id: new_id(),
        create_at: 1_700_000_000_000,
        roles: "system_user".into(),
        ..Default::default()
    }
}

#[test]
fn session_is_valid_covers_every_branch() {
    assert!(valid_session().is_valid().is_ok());

    let mut session = valid_session();
    session.id = "short".into();
    assert_eq!(
        session.is_valid().unwrap_err().id,
        "model.session.is_valid.id.app_error"
    );

    let mut session = valid_session();
    session.user_id = String::new();
    assert_eq!(
        session.is_valid().unwrap_err().id,
        "model.session.is_valid.user_id.app_error"
    );

    let mut session = valid_session();
    session.create_at = 0;
    assert_eq!(
        session.is_valid().unwrap_err().id,
        "model.session.is_valid.create_at.app_error"
    );
}

#[test]
fn is_valid_roles_limit_is_the_only_branch_with_details() {
    let mut session = valid_session();
    session.roles = "a".repeat(USER_ROLES_MAX_LENGTH + 1);
    let err = session.is_valid().unwrap_err();
    assert_eq!(err.id, "model.session.is_valid.roles_limit.app_error");
    assert_eq!(err.detailed_error, format!("session_id={}", session.id));

    // Exactly at the limit is fine.
    session.roles = "a".repeat(USER_ROLES_MAX_LENGTH);
    assert!(session.is_valid().is_ok());
}

#[test]
fn pre_save_fills_id_token_and_timestamps() {
    let mut session = Session::default();
    session.pre_save();

    assert!(is_valid_id(&session.id));
    assert!(is_valid_id(&session.token));
    assert!(session.create_at > 0);
    assert_eq!(session.last_activity_at, session.create_at);
    assert!(session.props.is_some());
    assert_eq!(session.expires_at, 0);
}

#[test]
fn pre_save_keeps_existing_id_and_token_but_overwrites_create_at() {
    let mut session = valid_session();
    session.token = "existing-token".into();
    let (id, token) = (session.id.clone(), session.token.clone());
    session.pre_save();

    assert_eq!(session.id, id);
    assert_eq!(session.token, token);
    assert_ne!(session.create_at, 1_700_000_000_000, "always overwritten");
}

#[test]
fn sanitize_strips_only_the_token() {
    let mut session = valid_session();
    session.token = "secret".into();
    session.add_prop(SESSION_PROP_CSRF, "csrf-value");

    session.sanitize();
    assert_eq!(session.token, "");
    assert_eq!(session.get_csrf(), "csrf-value", "props are left alone");
}

#[test]
fn is_expired_treats_non_positive_as_never() {
    let mut session = valid_session();
    session.expires_at = 0;
    assert!(!session.is_expired());

    session.expires_at = -1;
    assert!(!session.is_expired());

    session.expires_at = 1; // 1970
    assert!(session.is_expired());

    session.expires_at = get_millis() + 60_000;
    assert!(!session.is_expired());
}

#[test]
fn add_prop_creates_the_map() {
    let mut session = Session::default();
    assert!(session.props.is_none());
    session.add_prop("k", "v");
    assert_eq!(session.props.as_ref().unwrap().get("k").unwrap(), "v");
}

#[test]
fn csrf_round_trips() {
    let mut session = Session::default();
    assert_eq!(session.get_csrf(), "", "no properties");

    let token = session.generate_csrf();
    assert!(is_valid_id(&token));
    assert_eq!(session.get_csrf(), token);
}

#[test]
fn parse_bool_props_accept_gos_wider_set() {
    for truthy in ["1", "t", "T", "TRUE", "true", "True"] {
        let mut session = Session::default();
        session.add_prop(USER_AUTH_SERVICE_IS_MOBILE, truthy);
        assert!(session.is_mobile(), "{truthy:?} should parse as true");
    }
    for falsy in ["0", "f", "F", "FALSE", "false", "False"] {
        let mut session = Session::default();
        session.add_prop(USER_AUTH_SERVICE_IS_MOBILE, falsy);
        assert!(!session.is_mobile(), "{falsy:?} should parse as false");
    }
    for bad in ["yes", "", "TrUe", "2"] {
        let mut session = Session::default();
        session.add_prop(USER_AUTH_SERVICE_IS_MOBILE, bad);
        assert!(!session.is_mobile(), "{bad:?} should fall back to false");
    }
    assert!(!Session::default().is_mobile(), "absent prop");
}

#[test]
fn is_bot_and_is_guest_use_exact_equality_not_parse_bool() {
    let mut session = Session::default();
    session.add_prop(SESSION_PROP_IS_BOT, "1");
    assert!(!session.is_bot_user());
    session.add_prop(SESSION_PROP_IS_BOT, "True");
    assert!(!session.is_bot_user());
    session.add_prop(SESSION_PROP_IS_BOT, "true");
    assert!(session.is_bot_user());

    let mut session = Session::default();
    session.add_prop(SESSION_PROP_IS_GUEST, "1");
    assert!(!session.is_guest());
    session.add_prop(SESSION_PROP_IS_GUEST, "true");
    assert!(session.is_guest());
}

#[test]
fn is_integration_covers_all_three_sources() {
    assert!(!Session::default().is_integration());

    let mut session = Session::default();
    session.add_prop(SESSION_PROP_IS_BOT, "true");
    assert!(session.is_integration());

    let mut session = Session::default();
    session.add_prop(SESSION_PROP_TYPE, SESSION_TYPE_USER_ACCESS_TOKEN);
    assert!(session.is_user_access_token() && session.is_integration());

    // The field, not a property.
    let session = Session {
        is_oauth: true,
        ..Default::default()
    };
    assert!(session.is_integration());
    assert!(!session.is_oauth_user(), "different thing entirely");
}

#[test]
fn is_sso_login_and_is_mobile_app() {
    let mut session = Session::default();
    assert!(!session.is_sso_login());
    session.add_prop(USER_AUTH_SERVICE_IS_SAML, "true");
    assert!(session.is_sso_login());

    let mut session = Session::default();
    session.add_prop(USER_AUTH_SERVICE_IS_OAUTH, "t");
    assert!(session.is_sso_login());

    // A device is enough, without any property.
    let session = Session {
        device_id: "apple_rn:token".into(),
        ..Default::default()
    };
    assert!(session.is_mobile_app() && !session.is_mobile());
}

#[test]
fn get_team_by_team_id_finds_or_returns_none() {
    let wanted = new_id();
    let session = Session {
        team_members: Some(vec![
            TeamMember {
                team_id: new_id(),
                ..Default::default()
            },
            TeamMember {
                team_id: wanted.clone(),
                roles: "team_admin".into(),
                ..Default::default()
            },
        ]),
        ..Default::default()
    };

    assert_eq!(
        session.get_team_by_team_id(&wanted).unwrap().roles,
        "team_admin"
    );
    assert!(session.get_team_by_team_id("nope").is_none());
    assert!(Session::default().get_team_by_team_id(&wanted).is_none());
}

#[test]
fn is_unrestricted_tracks_local() {
    assert!(!Session::default().is_unrestricted());
    let session = Session {
        local: true,
        ..Default::default()
    };
    assert!(session.is_unrestricted());
}

#[test]
fn is_valid_standard_device_id_matches_go() {
    for id in [
        "apple_rn:token",
        "apple_rnbeta:token",
        "android_rn:token",
        "apple_rn-v2:token",
        "apple_rn-v+2:token",
        "apple_rn-v0:a:b",
        "apple_rn-v-0:token",
        "android_rn-v9223372036854775807:token",
    ] {
        assert!(is_valid_standard_device_id(id), "{id}");
    }
    for id in [
        "",
        "apple_rn",
        "apple_rn:",
        ":token",
        "windows:token",
        "apple_rn-v:token",
        "apple_rn-v-1:token",
        "apple_rn-vx:token",
        "apple_rn-v2-v3:token",
        "apple_rn-v9223372036854775808:token",
        "Apple_rn:token",
    ] {
        assert!(!is_valid_standard_device_id(id), "{id}");
    }
}

#[test]
fn is_valid_voip_device_id_matches_go() {
    assert!(is_valid_voip_device_id("apple_rn:token"));
    assert!(is_valid_voip_device_id("apple_rnbeta-v1:token"));
    assert!(!is_valid_voip_device_id("android_rn:token"));
    assert!(!is_valid_voip_device_id("apple_rn"));
}

#[test]
fn devices_of_chosen_platforms() {
    assert!(is_valid_device_id("tv-v12:x", &["tv"]));
    assert!(is_valid_device_id("tv-vision:x", &["tv-vision"]));
    assert!(!is_valid_device_id("tv:x", &[]));
}

#[test]
fn device_ids_are_redacted() {
    assert_eq!(redact_device_id(""), "");
    assert_eq!(redact_device_id("nocolon"), "nocolon");
    assert_eq!(redact_device_id("apple_rn:"), "apple_rn");
    assert_eq!(redact_device_id("apple_rn:short"), "apple_rn:short");
    assert_eq!(
        redact_device_id("apple_rn:0123456789abcdef"),
        "apple_rn:0123456789abcdef"
    );
    assert_eq!(
        redact_device_id("apple_rn:0123456789abcdefX"),
        "apple_rn:0123456789abcdef\u{2026}"
    );
    // A character that would be cut in two is left out.
    assert_eq!(
        redact_device_id("apple_rn:0123456789abcdéf"),
        "apple_rn:0123456789abcdé\u{2026}"
    );
    assert_eq!(
        redact_device_id("apple_rn:0123456789abcdeéf"),
        "apple_rn:0123456789abcde\u{2026}"
    );
}

#[test]
fn saved_sessions_pass_and_expire_for_good() {
    let mut session = Session {
        user_id: new_id(),
        ..Default::default()
    };
    session.pre_save_at(50);
    assert!(session.is_valid().is_ok());
    assert_eq!(session.create_at, 50);
    session.expires_at = 100;
    assert!(!session.is_expired_at(100));
    assert!(session.is_expired_at(101));
    assert!(session.is_expired_at(102));
}

#[test]
fn roles_of_a_session() {
    let session = Session {
        roles: " system_user\tsystem_admin ".into(),
        ..Default::default()
    };
    assert_eq!(session.get_user_roles(), vec!["system_user", "system_admin"]);
}
