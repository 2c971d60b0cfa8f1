use mm_model::str_map::{StrMap, StringMap};
use mm_model::user::external::{
    SERVICE_GITLAB, SERVICE_GOOGLE, SERVICE_OFFICE365, SERVICE_OPENID, SHOW_FULL_NAME,
    SHOW_NICKNAME_FULL_NAME, SHOW_USERNAME, USER_AUTH_SERVICE_LDAP, USER_AUTH_SERVICE_SAML,
    USER_ORIGINAL_REMOTE_ID_UNKNOWN, USER_PROPS_KEY_CUSTOM_STATUS,
    USER_PROPS_KEY_ORIGINAL_REMOTE_ID, USER_PROPS_KEY_REMOTE_EMAIL,
};
use mm_model::user::{
    custom_status_accepted, invalid_user_error, is_valid_locale, is_valid_user_auth_service,
    is_valid_username, is_valid_username_allow_remote, normalize_email, normalize_username, User,
    UserAuth, UserPatch, DEFAULT_LOCALE, MENTION_KEYS_NOTIFY_PROP, USER_AUTH_DATA_MAX_LENGTH,
    USER_AUTH_SERVICE_EMAIL, USER_AUTH_SERVICE_MAGIC_LINK, USER_EMAIL_MAX_LENGTH,
    USER_FIRST_NAME_MAX_RUNES, USER_LAST_NAME_MAX_RUNES, USER_NICKNAME_MAX_RUNES,
    USER_POSITION_MAX_RUNES, USER_ROLES_MAX_LENGTH, USER_TIMEZONE_MAX_RUNES,
};
use mm_model::utils::{is_valid_id, StringArray, CURRENT_VERSION};
use mm_model::value::{shown_text, string_map_value, string_map_wire_text, Value};

fn entry(map: &Option<StringMap>, key: &str) -> String {
    map.as_ref().unwrap().get(key).unwrap().clone()
}

fn size(map: &Option<StringMap>) -> Option<usize> {
    map.as_ref().map(|m| m.len())
}

fn runes(n: usize, c: char) -> String {
    std::iter::repeat(c).take(n).collect()
}

fn map_of(pairs: &[(&str, &str)]) -> StringMap {
    let mut m = StringMap::new();
    for (k, v) in pairs {
        m.insert(k.to_string(), v.to_string());
    }
    m
}

fn options(pairs: &[(&str, bool)]) -> StrMap<bool> {
    let mut m = StrMap::new();
    for (k, v) in pairs {
        m.insert(k.to_string(), *v);
    }
    m
}

fn full_user() -> User {
    User {
        id: "aaaaaaaaaaaaaaaaaaaaaaaaaa".into(),
        create_at: 1_650_000_000_000,
        update_at: 1_650_000_000_001,
        delete_at: 1_650_000_000_002,
        username: "someuser".into(),
        password: "hashed".into(),
        auth_data: Some("auth-data".into()),
        auth_service: "gitlab".into(),
        email: "someone@example.com".into(),
        email_verified: true,
        nickname: "nick".into(),
        first_name: "First".into(),
        last_name: "Last".into(),
        position: "position".into(),
        roles: "system_user".into(),
        allow_marketing: true,
        props: Some(map_of(&[("k", "v")])),
        notify_props: Some(map_of(&[("email", "true")])),
        last_password_update: 17,
        last_picture_update: 18,
        failed_attempts: 3,
        locale: "en".into(),
        timezone: Some(map_of(&[("manualTimezone", "Europe/Berlin")])),
        mfa_active: true,
        mfa_secret: "secret".into(),
        remote_id: Some("remote".into()),
        last_activity_at: 19,
        is_bot: false,
        bot_description: String::new(),
        bot_last_icon_update: 0,
        terms_of_service_id: String::new(),
        terms_of_service_create_at: 0,
        disable_welcome_email: false,
        last_login: 20,
        mfa_used_timestamps: Some(vec!["21".to_string()]),
    }
}

fn valid_user() -> User {
    User {
        id: "aaaaaaaaaaaaaaaaaaaaaaaaaa".to_owned(),
        create_at: 1_650_000_000_000,
        update_at: 1_650_000_000_000,
        username: "someuser".to_owned(),
        email: "someone@example.com".to_owned(),
        nickname: "nick".to_owned(),
        position: "position".to_owned(),
        first_name: "First".to_owned(),
        last_name: "Last".to_owned(),
        locale: "en".to_owned(),
        roles: "system_user".to_owned(),
        ..Default::default()
    }
}

#[test]
fn roles_helpers_split_differently() {
    // A double blank is harmless: there is an empty role in the middle, and both roles match.
    let mut user = User {
        roles: "system_user  system_admin".into(),
        ..Default::default()
    };
    assert_eq!(user.get_roles(), vec!["system_user", "system_admin"]);
    assert!(user.is_in_role("system_user"));
    assert!(user.is_in_role("system_admin"));
    assert_eq!(user.get_raw_roles(), "system_user  system_admin");

    // A tab separates roles for the one and not for the other.
    user.roles = "system_user\tsystem_admin".into();
    assert_eq!(user.get_roles(), vec!["system_user", "system_admin"]);
    assert!(!user.is_in_role("system_user"));
    assert!(!user.is_in_role("system_admin"));
}

#[test]
fn role_predicates() {
    let mut user = User {
        roles: "system_user system_guest".into(),
        ..Default::default()
    };
    assert!(user.is_guest());
    assert!(!user.is_system_admin());

    user.roles = "system_admin".into();
    assert!(user.is_system_admin());
    assert!(!user.is_guest());
}

#[test]
fn magic_link_requires_guest_role() {
    let mut user = User {
        auth_service: USER_AUTH_SERVICE_MAGIC_LINK.into(),
        ..Default::default()
    };
    assert!(!user.is_magic_link_enabled(), "not a guest");

    user.roles = "system_guest".into();
    assert!(user.is_magic_link_enabled());
}

#[test]
fn auth_service_predicates() {
    let mut user = User::default();
    assert!(!user.is_sso_user(), "no service is not single sign-on");

    user.auth_service = USER_AUTH_SERVICE_EMAIL.into();
    assert!(!user.is_sso_user(), "mail is not single sign-on");

    for service in [
        SERVICE_GITLAB,
        SERVICE_GOOGLE,
        SERVICE_OFFICE365,
        SERVICE_OPENID,
    ] {
        user.auth_service = service.into();
        assert!(user.is_oauth_user(), "{service} should be OAuth");
        assert!(user.is_sso_user());
    }

    user.auth_service = USER_AUTH_SERVICE_LDAP.into();
    assert!(user.is_ldap_user() && !user.is_oauth_user());

    user.auth_service = USER_AUTH_SERVICE_SAML.into();
    assert!(user.is_saml_user() && !user.is_oauth_user());
}

#[test]
fn remote_and_auth_data_dereference_safely() {
    let mut user = User::default();
    assert!(!user.is_remote());
    assert_eq!(user.get_remote_id(), "");
    assert_eq!(user.get_auth_data(), "");

    user.remote_id = Some(String::new());
    assert!(!user.is_remote(), "empty string is not remote");

    user.remote_id = Some("remote1".into());
    assert!(user.is_remote());
    assert_eq!(user.get_remote_id(), "remote1");
}

#[test]
fn original_remote_id_covers_every_branch() {
    let mut user = User::default();
    // no properties, local user
    assert_eq!(user.get_original_remote_id(), "");

    // no properties, remote user
    user.remote_id = Some("r1".into());
    assert_eq!(
        user.get_original_remote_id(),
        USER_ORIGINAL_REMOTE_ID_UNKNOWN
    );

    // the property is set
    user.set_prop(USER_PROPS_KEY_ORIGINAL_REMOTE_ID, "origin1");
    assert_eq!(user.get_original_remote_id(), "origin1");

    // the property is blank, remote user
    user.set_prop(USER_PROPS_KEY_ORIGINAL_REMOTE_ID, "");
    assert_eq!(
        user.get_original_remote_id(),
        USER_ORIGINAL_REMOTE_ID_UNKNOWN
    );

    // the property is blank, local user
    user.remote_id = None;
    assert_eq!(user.get_original_remote_id(), "");
}

#[test]
fn props_accessors_create_the_map_lazily() {
    let mut user = User::default();
    assert_eq!(user.get_prop("k"), None);
    assert!(user.props.is_none());

    user.set_prop("k", "v");
    assert_eq!(user.get_prop("k"), Some("v"));
    assert!(user.props.is_some());
}

#[test]
fn make_non_nil_initialises_both_maps() {
    let mut user = User::default();
    user.make_non_nil();
    assert_eq!(size(&user.props), Some(0));
    assert_eq!(size(&user.notify_props), Some(0));
}

#[test]
fn set_default_notifications_matches_go_exactly() {
    let mut user = User::default();
    user.set_default_notifications();
    let props = user.notify_props;

    assert_eq!(size(&props), Some(13));
    assert_eq!(entry(&props, "email"), "true");
    assert_eq!(entry(&props, "push"), "mention");
    assert_eq!(entry(&props, "desktop"), "mention");
    assert_eq!(entry(&props, "desktop_sound"), "true");
    assert_eq!(entry(&props, "mention_keys"), "");
    assert_eq!(entry(&props, "channel"), "true");
    assert_eq!(entry(&props, "push_status"), "online");
    assert_eq!(entry(&props, "comments"), "never");
    assert_eq!(entry(&props, "first_name"), "false");
    assert_eq!(entry(&props, "desktop_threads"), "all");
    assert_eq!(entry(&props, "email_threads"), "all");
    assert_eq!(entry(&props, "push_threads"), "all");
    assert_eq!(entry(&props, "channel_mention_auto_follow_threads"), "true");
}

#[test]
fn get_mention_keys_trims_and_drops_blanks() {
    let mut user = User::default();
    assert!(user.get_mention_keys().is_empty(), "no settings");

    user.add_notify_prop(MENTION_KEYS_NOTIFY_PROP, "");
    assert!(user.get_mention_keys().is_empty());

    user.add_notify_prop(MENTION_KEYS_NOTIFY_PROP, "one, two ,,  three  ,");
    assert_eq!(user.get_mention_keys(), vec!["one", "two", "three"]);
}

#[test]
fn update_mention_keys_from_username_keeps_gos_leading_comma() {
    let mut user = User::default();
    user.add_notify_prop(MENTION_KEYS_NOTIFY_PROP, "oldname,@oldname,keepme");
    user.update_mention_keys_from_username("oldname");

    assert_eq!(entry(&user.notify_props, MENTION_KEYS_NOTIFY_PROP), ",keepme");
    assert_eq!(user.get_mention_keys(), vec!["keepme"]);
}

#[test]
fn update_mention_keys_clears_when_nothing_survives() {
    let mut user = User::default();
    user.add_notify_prop(MENTION_KEYS_NOTIFY_PROP, "oldname,@oldname");
    user.update_mention_keys_from_username("oldname");
    assert_eq!(entry(&user.notify_props, MENTION_KEYS_NOTIFY_PROP), "");
}

#[test]
fn full_name_covers_every_branch() {
    let mut user = User::default();
    assert_eq!(user.get_full_name(), "");

    user.first_name = "Ada".into();
    assert_eq!(user.get_full_name(), "Ada");

    user.last_name = "Lovelace".into();
    assert_eq!(user.get_full_name(), "Ada Lovelace");

    user.first_name.clear();
    assert_eq!(user.get_full_name(), "Lovelace");
}

#[test]
fn display_name_honours_the_name_format() {
    let mut user = User {
        username: "ada".into(),
        first_name: "Ada".into(),
        last_name: "Lovelace".into(),
        nickname: "countess".into(),
        ..Default::default()
    };

    assert_eq!(user.get_display_name(SHOW_USERNAME), "ada");
    assert_eq!(user.get_display_name(SHOW_FULL_NAME), "Ada Lovelace");
    assert_eq!(user.get_display_name(SHOW_NICKNAME_FULL_NAME), "countess");

    // The nickname format falls back to the full name, then to the user name.
    user.nickname.clear();
    assert_eq!(
        user.get_display_name(SHOW_NICKNAME_FULL_NAME),
        "Ada Lovelace"
    );
    user.first_name.clear();
    user.last_name.clear();
    assert_eq!(user.get_display_name(SHOW_NICKNAME_FULL_NAME), "ada");
    assert_eq!(user.get_display_name(SHOW_FULL_NAME), "ada");
}

#[test]
fn display_name_with_prefix_applies_to_the_base_only() {
    let user = User {
        username: "ada".into(),
        first_name: "Ada".into(),
        ..Default::default()
    };

    assert_eq!(
        user.get_display_name_with_prefix(SHOW_USERNAME, "@"),
        "@ada"
    );
    // Where the full name wins there is no prefix.
    assert_eq!(
        user.get_display_name_with_prefix(SHOW_FULL_NAME, "@"),
        "Ada"
    );
}

#[test]
fn email_domain_extraction() {
    let mut user = User::default();
    assert_eq!(user.email_domain(), "");

    user.email = "ada@example.com".into();
    assert_eq!(user.email_domain(), "example.com");

    user.email = "no-at-sign".into();
    assert_eq!(user.email_domain(), "");
}

#[test]
fn preferred_timezone_handles_a_nil_map() {
    let mut user = User::default();
    assert_eq!(user.get_preferred_timezone(), "");

    let mut tz = StringMap::new();
    tz.insert("useAutomaticTimezone".into(), "true".into());
    tz.insert("automaticTimezone".into(), "Europe/Berlin".into());
    user.timezone = Some(tz);
    assert_eq!(user.get_preferred_timezone(), "Europe/Berlin");
}

#[test]
fn user_patch_applies_only_present_fields() {
    let mut user = full_user();
    let original_email = user.email.clone();

    let patch = UserPatch {
        username: Some("newname".into()),
        ..Default::default()
    };
    user.patch(&patch);

    assert_eq!(user.username, "newname");
    assert_eq!(user.email, original_email, "absent fields are untouched");
}

#[test]
fn patch_can_set_empty_values() {
    let mut user = full_user();
    let patch = UserPatch {
        nickname: Some(String::new()),
        ..Default::default()
    };
    user.patch(&patch);
    assert_eq!(user.nickname, "");
}

#[test]
fn to_patch_drops_the_remote_id() {
    let mut user = full_user();
    user.remote_id = Some("r1".into());
    let patch = user.to_patch();
    assert!(patch.remote_id.is_none());
    assert_eq!(patch.username, Some(user.username.clone()));
}

#[test]
fn set_field_maps_go_field_names() {
    let mut patch = UserPatch::default();
    patch.set_field("FirstName", "Ada");
    patch.set_field("Email", "ada@example.com");
    patch.set_field("Unknown", "ignored");

    assert_eq!(patch.first_name, Some("Ada".into()));
    assert_eq!(patch.email, Some("ada@example.com".into()));
    assert_eq!(patch.last_name, None);
}

#[test]
fn sanitize_with_empty_options_strips_only_secrets() {
    let mut user = full_user();
    let email = user.email.clone();
    user.sanitize(&StrMap::new());

    assert_eq!(user.password, "");
    assert_eq!(user.mfa_secret, "");
    assert!(user.mfa_used_timestamps.is_none());
    assert_eq!(user.last_login, 0);
    assert_eq!(user.email, email);
}

#[test]
fn sanitize_strips_fields_whose_flag_is_absent_or_false() {
    let mut user = full_user();
    user.set_prop(USER_PROPS_KEY_REMOTE_EMAIL, "remote@example.com");
    user.sanitize(&options(&[("email", false), ("fullname", true)]));

    assert_eq!(user.email, "");
    assert_eq!(user.get_prop(USER_PROPS_KEY_REMOTE_EMAIL), None);
    assert_ne!(user.first_name, "");
    assert_eq!(user.last_password_update, 0);
    assert_eq!(user.auth_service, "");
    assert_eq!(user.auth_data, Some(String::new()));
}

#[test]
fn sanitize_keeps_everything_flagged_true() {
    let mut user = full_user();
    let before = user.clone();
    user.sanitize(&options(&[
        ("email", true),
        ("fullname", true),
        ("passwordupdate", true),
        ("authservice", true),
        ("authdata", true),
    ]));

    assert_eq!(user.email, before.email);
    assert_eq!(user.first_name, before.first_name);
    assert_eq!(user.last_password_update, before.last_password_update);
    assert_eq!(user.auth_service, before.auth_service);
    assert_eq!(user.auth_data, before.auth_data);
}

#[test]
fn sanitize_input_clears_server_controlled_fields() {
    let mut user = full_user();
    user.email = "  ada@example.com  ".into();
    user.sanitize_input(false);

    assert_eq!(user.auth_data, Some(String::new()));
    assert_eq!(user.auth_service, "");
    assert!(!user.email_verified);
    assert_eq!(user.remote_id, Some(String::new()));
    assert_eq!(user.create_at, 0);
    assert_eq!(user.update_at, 0);
    assert_eq!(user.delete_at, 0);
    assert_eq!(user.failed_attempts, 0);
    assert!(!user.mfa_active);
    assert_eq!(user.mfa_used_timestamps, Some(StringArray::new()));
    assert_eq!(user.email, "ada@example.com", "trimmed");
    assert_eq!(user.last_activity_at, 0);
}

#[test]
fn sanitize_input_as_admin_keeps_auth_fields() {
    let mut user = full_user();
    let auth_service = user.auth_service.clone();
    let auth_data = user.auth_data.clone();
    user.email_verified = true;

    user.sanitize_input(true);

    assert_eq!(user.auth_service, auth_service);
    assert_eq!(user.auth_data, auth_data);
    assert!(user.email_verified);
    assert_eq!(user.remote_id, Some(String::new()));
}

#[test]
fn clear_non_profile_fields_differs_by_admin() {
    let mut user = full_user();
    user.clear_non_profile_fields(true);
    assert_eq!(user.password, "");
    assert!(!user.email_verified);
    assert!(!user.allow_marketing);
    assert_eq!(user.last_password_update, 0);
    assert!(user.notify_props.is_some());
    assert_eq!(user.failed_attempts, 3);

    let mut user = full_user();
    user.clear_non_profile_fields(false);
    assert_eq!(user.auth_data, Some(String::new()));
    assert_eq!(user.notify_props, Some(StringMap::new()));
    assert_eq!(user.failed_attempts, 0);
}

#[test]
fn sanitize_profile_composes_both_steps() {
    let mut user = full_user();
    user.sanitize_profile(&options(&[("email", true)]), false);

    assert_eq!(user.password, "");
    assert_eq!(user.notify_props, Some(StringMap::new()));
    assert_ne!(user.email, "");
    assert_eq!(user.last_password_update, 0);
}

#[test]
fn pre_save_partial_fills_identity_and_timestamps() {
    let mut user = User {
        email: "ADA@Example.COM".into(),
        ..Default::default()
    };
    user.pre_save_partial();

    assert!(is_valid_id(&user.id));
    assert_eq!(user.username.len(), 27, "generated username is 'a' + 26");
    assert_eq!(user.email, "ada@example.com", "normalised");
    assert!(user.create_at > 0);
    assert_eq!(user.update_at, user.create_at);
    assert_eq!(user.last_password_update, user.create_at);
    assert_eq!(user.locale, DEFAULT_LOCALE);
    assert!(user.props.is_some());
    assert_eq!(size(&user.notify_props), Some(13));
}

#[test]
fn pre_save_partial_preserves_an_existing_id_and_create_at() {
    let mut user = User {
        id: "existingid1234567890abcde".into(),
        create_at: 12345,
        username: "Ada".into(),
        ..Default::default()
    };
    user.pre_save_partial();

    assert_eq!(user.id, "existingid1234567890abcde");
    assert_eq!(user.create_at, 12345);
    assert_eq!(user.update_at, 12345);
    assert_eq!(user.username, "ada");
}

#[test]
fn pre_save_partial_nils_an_empty_auth_data_pointer() {
    let mut user = User {
        auth_data: Some(String::new()),
        ..Default::default()
    };
    user.pre_save_partial();
    assert!(user.auth_data.is_none());
}

#[test]
fn pre_update_normalises_and_cleans_mention_keys() {
    let mut user = User {
        username: "ADA".into(),
        email: "ADA@Example.COM".into(),
        ..Default::default()
    };
    user.add_notify_prop(MENTION_KEYS_NOTIFY_PROP, "One,,TWO,");
    user.pre_update();

    assert_eq!(user.username, "ada");
    assert_eq!(user.email, "ada@example.com");
    assert!(user.update_at > 0);
    assert_eq!(entry(&user.notify_props, MENTION_KEYS_NOTIFY_PROP), "one,two");
}

#[test]
fn pre_update_sets_defaults_when_notify_props_are_empty() {
    let mut user = User::default();
    user.pre_update();
    assert_eq!(size(&user.notify_props), Some(13));
}

#[test]
fn pre_update_strips_unicode_from_names() {
    let mut user = User {
        username: "ad\u{202E}a".into(),
        bot_description: "bot\u{FEFF}desc".into(),
        ..Default::default()
    };
    user.pre_update();
    assert_eq!(user.username, "ada");
    assert_eq!(user.bot_description, "botdesc");
}

#[test]
fn user_auth_is_valid_covers_every_branch() {
    // Unknown service.
    let auth = UserAuth {
        auth_service: "nope".into(),
        auth_data: Some("x".into()),
    };
    assert!(!auth.is_valid());

    // Mail carries no data.
    let auth = UserAuth {
        auth_service: USER_AUTH_SERVICE_EMAIL.into(),
        auth_data: None,
    };
    assert!(auth.is_valid());

    let auth = UserAuth {
        auth_service: USER_AUTH_SERVICE_EMAIL.into(),
        auth_data: Some(String::new()),
    };
    assert!(!auth.is_valid());

    // Other services carry some.
    let auth = UserAuth {
        auth_service: USER_AUTH_SERVICE_LDAP.into(),
        auth_data: Some("cn=ada".into()),
    };
    assert!(auth.is_valid());

    let auth = UserAuth {
        auth_service: USER_AUTH_SERVICE_LDAP.into(),
        auth_data: Some(String::new()),
    };
    assert!(!auth.is_valid());

    let auth = UserAuth {
        auth_service: USER_AUTH_SERVICE_LDAP.into(),
        auth_data: None,
    };
    assert!(!auth.is_valid());
}

#[test]
fn normalize_lowercases() {
    assert_eq!(normalize_username("AdA"), "ada");
    assert_eq!(normalize_email("Ada@Example.COM"), "ada@example.com");
}

#[test]
fn invalid_user_error_formats_details_like_go() {
    let err = invalid_user_error("email", "abc", "bad@");
    assert_eq!(err.id, "model.user.is_valid.email.app_error");
    assert_eq!(err.detailed_error, "user_id=abc email=bad@");
    assert_eq!(err.status_code, 400);

    // Without an id the details begin with a blank.
    let err = invalid_user_error("id", "", "xyz");
    assert_eq!(err.detailed_error, " id=xyz");
}

#[test]
fn syntax_is_not_the_rule() {
    // Well-formed and unregistered.
    for rejected in ["xx", "xxx", "zh-Ha", "en-1", "a-b"] {
        assert!(
            !is_valid_locale(rejected),
            "{rejected:?} should be rejected"
        );
    }
    // Odd-looking and registered.
    for accepted in ["qaa", "mul", "zxx", "und", "root"] {
        assert!(is_valid_locale(accepted), "{accepted:?} should be accepted");
    }
}

#[test]
fn registered_languages_of_three_letters_are_locales() {
    for accepted in ["aaa", "ckb", "CKB", "yue", "hsb", "gsw", "fre", "fra", "zzj", "qtz"] {
        assert!(is_valid_locale(accepted), "{accepted:?} should be accepted");
    }
    for rejected in ["xxx", "zzz", "qzz", "a a", "aa ", "ab1", "aé"] {
        assert!(!is_valid_locale(rejected), "{rejected:?} should be rejected");
    }
}

#[test]
fn withdrawn_regions_are_regions() {
    for accepted in ["en-HV", "de_dd", "en-FQ", "en-PU", "en-vd", "es-JT"] {
        assert!(is_valid_locale(accepted), "{accepted:?} should be accepted");
    }
    for rejected in ["en-jj", "en_bx", "xx-us"] {
        assert!(!is_valid_locale(rejected), "{rejected:?} should be rejected");
    }
}

#[test]
fn the_locales_of_each_shape_are_counted() {
    let letters: Vec<char> = ('a'..='z').collect();
    let signs: Vec<char> = ('a'..='z').chain('0'..='9').chain(['-', '_']).collect();
    let mut two = 0;
    let mut three = 0;
    let mut regions = 0;
    for a in &letters {
        for b in &letters {
            two += is_valid_locale(&format!("{a}{b}")) as u64;
            let hyphen = is_valid_locale(&format!("en-{a}{b}"));
            assert_eq!(hyphen, is_valid_locale(&format!("en_{a}{b}")));
            regions += hyphen as u64;
            for c in &letters {
                three += is_valid_locale(&format!("{a}{b}{c}")) as u64;
            }
        }
    }
    let mut private = 0;
    for separator in ["x-", "x_"] {
        for a in &signs {
            private += is_valid_locale(&format!("{separator}{a}")) as u64;
            for b in &signs {
                private += is_valid_locale(&format!("{separator}{a}{b}")) as u64;
                for c in &signs {
                    private += is_valid_locale(&format!("{separator}{a}{b}{c}")) as u64;
                }
            }
        }
    }
    assert_eq!((two, three, regions, private), (190, 8_794, 327, 101_160));
    // Sixteen irregular tags, and the root.
    let total = two + three + 2 * two * regions + private + 16 + 1;
    assert_eq!(total, 234_421);
}

#[test]
fn empty_passes_and_six_bytes_fails() {
    assert!(is_valid_locale(""));
    assert!(is_valid_locale("en-US"));
    assert!(!is_valid_locale("en-USA"), "six bytes");
}

#[test]
fn the_grandfathered_tags_are_accepted() {
    for tag in ["ami", "bnn", "hak", "lux", "pwn", "tao", "tay", "tsu"] {
        for separator in ["-", "_"] {
            let input = format!("i{separator}{tag}");
            assert!(is_valid_locale(&input), "grandfathered {input:?}");
        }
    }
    assert!(!is_valid_locale("i-en"));
}

#[test]
fn props_gates_the_custom_status_check() {
    let mut none = valid_user();
    none.props = None;
    assert!(none.is_valid().is_ok());

    let mut empty = valid_user();
    empty.props = Some(StringMap::new());
    assert!(empty.is_valid().is_ok(), "an empty map still validates");

    let mut bad = valid_user();
    let mut props = StringMap::new();
    props.insert(
        USER_PROPS_KEY_CUSTOM_STATUS.to_owned(),
        "not json".to_owned(),
    );
    bad.props = Some(props);
    assert!(bad.is_valid().is_err());
}

#[test]
fn a_remote_user_may_hold_an_invalid_email() {
    let mut remote = valid_user();
    remote.remote_id = Some("aaaaaaaaaaaaaaaaaaaaaaaaaa".to_owned());
    remote.email = "not an email".to_owned();
    assert!(remote.is_valid().is_ok(), "format is skipped for remote");
    remote.email = String::new();
    assert!(remote.is_valid().is_err(), "emptiness is not skipped");
    remote.email = runes(USER_EMAIL_MAX_LENGTH + 1, 'a');
    assert!(remote.is_valid().is_err(), "length is not skipped");
}

#[test]
fn the_timezone_cap_measures_gos_json() {
    let empty = StringMap::new();
    assert_eq!(string_map_wire_text(Some(&empty)), "{}");

    let mut typical = StringMap::new();
    typical.insert("automaticTimezone".to_owned(), "America/New_York".to_owned());
    typical.insert("manualTimezone".to_owned(), String::new());
    typical.insert("useAutomaticTimezone".to_owned(), "true".to_owned());
    let wire = string_map_wire_text(Some(&typical));
    assert_eq!(
        wire,
        "{\"automaticTimezone\":\"America/New_York\",\"manualTimezone\":\"\",\
         \"useAutomaticTimezone\":\"true\"}"
    );
    assert_eq!(wire.chars().count(), 90);

    let mut escapable = StringMap::new();
    escapable.insert("a".to_owned(), "<".to_owned());
    let wire = string_map_wire_text(Some(&escapable));
    assert_eq!(wire, "{\"a\":\"\\u003c\"}");
    assert_eq!(wire.chars().count(), 14);
    assert!(wire.contains("\\u003c"));
}

#[test]
fn clear_custom_status_empties_the_key_without_removing_it() {
    let mut user = User::default();
    user.set_custom_status("{\"emoji\":\"a\"}");
    user.clear_custom_status();
    assert_eq!(user.get_prop(USER_PROPS_KEY_CUSTOM_STATUS), Some(""));
    assert_eq!(user.get_custom_status(), None);
    assert!(user.validate_custom_status());
}

#[test]
fn custom_status_is_an_alias_for_get_custom_status() {
    let mut user = User::default();
    user.set_custom_status("{\"emoji\":\"a\",\"text\":\"\"}");
    assert_eq!(user.custom_status(), user.get_custom_status());
    assert_eq!(
        user.custom_status(),
        Some("{\"emoji\":\"a\",\"text\":\"\"}")
    );
}

#[test]
fn set_then_get_round_trips_through_props() {
    let document = "{\"emoji\":\"\\u003ctada\\u003e\",\"text\":\"a\\u0026b\",\
                    \"duration\":\"date_and_time\",\"expires_at\":\"2026-08-14T12:00:00+05:30\"}";
    let mut user = User::default();
    user.set_custom_status(document);
    assert_eq!(user.get_custom_status(), Some(document));
}

#[test]
fn custom_statuses_that_are_no_documents() {
    let mut user = User::default();
    assert!(user.validate_custom_status());
    assert_eq!(user.get_custom_status(), None);

    user.set_custom_status("null");
    assert_eq!(user.get_custom_status(), None);
    assert!(!user.validate_custom_status());

    user.set_custom_status("not json");
    assert_eq!(user.get_custom_status(), None);
    assert!(!user.validate_custom_status());

    user.set_custom_status("17");
    assert_eq!(user.get_custom_status(), Some("17"));
    assert!(user.validate_custom_status());

    assert!(custom_status_accepted(Some(""), None));
    assert!(!custom_status_accepted(Some("x"), None));
    assert!(!custom_status_accepted(Some("null"), Some(true)));
    assert!(custom_status_accepted(Some("{}"), Some(false)));
}

fn refused(u: &User) -> (String, String) {
    let e = u.is_valid().unwrap_err();
    assert_eq!(e.where_, "User.IsValid");
    assert_eq!(e.status_code, 400);
    (e.id, e.detailed_error)
}

fn field_of(u: &User) -> String {
    let (id, _) = refused(u);
    id.strip_prefix("model.user.is_valid.")
        .unwrap()
        .strip_suffix(".app_error")
        .unwrap()
        .to_string()
}

#[test]
fn every_field_of_a_user_is_checked() {
    assert!(valid_user().is_valid().is_ok());

    let mut u = valid_user();
    u.id = "nope".into();
    assert_eq!(
        refused(&u),
        (
            "model.user.is_valid.id.app_error".to_string(),
            " id=nope".to_string()
        )
    );

    let mut u = valid_user();
    u.create_at = 0;
    assert_eq!(
        refused(&u),
        (
            "model.user.is_valid.create_at.app_error".to_string(),
            "user_id=aaaaaaaaaaaaaaaaaaaaaaaaaa create_at=0".to_string()
        )
    );

    let mut u = valid_user();
    u.update_at = 0;
    assert_eq!(field_of(&u), "update_at");

    let mut u = valid_user();
    u.username = "Has Spaces".into();
    assert_eq!(field_of(&u), "username");
    u.username = String::new();
    assert_eq!(field_of(&u), "username");

    let mut u = valid_user();
    u.email = String::new();
    assert_eq!(field_of(&u), "email");
    u.email = "not an email".into();
    assert_eq!(field_of(&u), "email");
    let domain = "@example.com";
    u.email = format!("{}{domain}", runes(USER_EMAIL_MAX_LENGTH - domain.len(), 'a'));
    assert!(u.is_valid().is_ok());
    u.email = format!("{}{domain}", runes(USER_EMAIL_MAX_LENGTH - domain.len() + 1, 'a'));
    assert_eq!(field_of(&u), "email");

    let mut u = valid_user();
    u.nickname = runes(USER_NICKNAME_MAX_RUNES, 'é');
    assert!(u.is_valid().is_ok());
    u.nickname = runes(USER_NICKNAME_MAX_RUNES + 1, 'a');
    assert_eq!(field_of(&u), "nickname");

    let mut u = valid_user();
    u.position = runes(USER_POSITION_MAX_RUNES + 1, 'a');
    assert_eq!(field_of(&u), "position");

    let mut u = valid_user();
    u.first_name = runes(USER_FIRST_NAME_MAX_RUNES + 1, 'a');
    assert_eq!(field_of(&u), "first_name");

    let mut u = valid_user();
    u.last_name = runes(USER_LAST_NAME_MAX_RUNES + 1, 'a');
    assert_eq!(field_of(&u), "last_name");

    let mut u = valid_user();
    u.auth_data = Some(runes(USER_AUTH_DATA_MAX_LENGTH + 1, 'a'));
    u.auth_service = "gitlab".into();
    assert_eq!(field_of(&u), "auth_data");
    u.auth_data = Some("some-auth-data".into());
    assert!(u.is_valid().is_ok());
    u.password = "hashed".into();
    assert_eq!(field_of(&u), "auth_data_pwd");
    u.auth_service = String::new();
    assert_eq!(field_of(&u), "auth_data_type");

    let mut u = valid_user();
    u.locale = "xx".into();
    assert_eq!(field_of(&u), "locale");
    u.locale = String::new();
    assert!(u.is_valid().is_ok());

    let mut u = valid_user();
    u.roles = runes(USER_ROLES_MAX_LENGTH, 'a');
    assert!(u.is_valid().is_ok());
    u.roles = runes(USER_ROLES_MAX_LENGTH + 1, 'a');
    assert_eq!(field_of(&u), "roles_limit");
    let params = u.is_valid().unwrap_err().params;
    assert_eq!(params, Some(vec![("Limit".to_string(), Value::Int(256))]));

    let mut u = valid_user();
    u.timezone = Some(map_of(&[("b", "2"), ("a", "1")]));
    assert!(u.is_valid().is_ok());
    let long = runes(USER_TIMEZONE_MAX_RUNES, 'a');
    u.timezone = Some(map_of(&[("manualTimezone", "b"), ("automaticTimezone", &long)]));
    let (id, details) = refused(&u);
    assert_eq!(id, "model.user.is_valid.timezone_limit.app_error");
    assert_eq!(
        details,
        format!(
            "user_id=aaaaaaaaaaaaaaaaaaaaaaaaaa timezone_limit=map[automaticTimezone:{long} \
             manualTimezone:b]"
        )
    );

    let mut u = valid_user();
    u.props = Some(map_of(&[(USER_PROPS_KEY_CUSTOM_STATUS, "null")]));
    let e = u.is_valid().unwrap_err();
    assert_eq!(e.id, "model.user.is_valid.invalidProperty.app_error");
    assert_eq!(e.detailed_error, "user_id=aaaaaaaaaaaaaaaaaaaaaaaaaa");
    assert_eq!(e.params.unwrap()[0].0, "Props");
}

#[test]
fn the_first_fault_is_reported() {
    let mut u = valid_user();
    u.id = "nope".into();
    u.email = String::new();
    assert_eq!(field_of(&u), "id");

    let mut u = valid_user();
    u.create_at = 0;
    u.username = "Has Spaces".into();
    assert_eq!(field_of(&u), "create_at");
}

#[test]
fn names_of_local_and_remote_users() {
    for name in ["a", "ada", "ada.l-o_v3", &runes(64, 'x')] {
        assert!(is_valid_username(name), "{name}");
        assert!(is_valid_username_allow_remote(name), "{name}");
    }
    for name in ["", "Ada", "a b", "all", "channel", "matterbot", "system", "é"] {
        assert!(!is_valid_username(name), "{name}");
        assert!(!is_valid_username_allow_remote(name), "{name}");
    }
    assert!(!is_valid_username(&runes(65, 'x')));
    assert!(!is_valid_username("ada:home"));
    assert!(is_valid_username_allow_remote("ada:home"));
    assert!(!is_valid_username("ada\n"));
}

#[test]
fn services_to_sign_in_with() {
    for service in ["email", "ldap", "saml", "gitlab", "google", "office365", "openid"] {
        assert!(is_valid_user_auth_service(service), "{service}");
    }
    assert!(!is_valid_user_auth_service(""));
    assert!(!is_valid_user_auth_service("magic_link"));
}

#[test]
fn entity_tags_of_users() {
    let u = User {
        id: "u1".into(),
        update_at: 12,
        terms_of_service_id: "t1".into(),
        terms_of_service_create_at: 34,
        bot_last_icon_update: 56,
        ..Default::default()
    };
    assert_eq!(
        u.etag(true, false),
        format!("{CURRENT_VERSION}.u1.12.t1.34.true.false.56")
    );
}

#[test]
fn patches_twice_own_and_empty() {
    let patch = UserPatch {
        email: Some("new@example.com".into()),
        props: Some(map_of(&[("a", "b")])),
        remote_id: Some("other".into()),
        password: Some("not applied".into()),
        ..Default::default()
    };
    let mut once = full_user();
    once.patch(&patch);
    assert_eq!(once.email, "new@example.com");
    assert_eq!(once.props, Some(map_of(&[("a", "b")])));
    assert_eq!(once.remote_id, Some("other".to_string()));
    assert_eq!(once.password, "hashed");
    let mut twice = once.clone();
    twice.patch(&patch);
    assert_eq!(once, twice);

    let mut own = full_user();
    let patch = own.to_patch();
    own.patch(&patch);
    assert_eq!(own, full_user());

    let mut same = full_user();
    same.patch(&UserPatch::default());
    assert_eq!(same, full_user());
}

#[test]
fn every_field_of_a_patch_has_a_name() {
    let mut patch = UserPatch::default();
    for name in ["FirstName", "LastName", "Nickname", "Email", "Position", "Username"] {
        patch.set_field(name, name);
    }
    assert_eq!(patch.first_name.as_deref(), Some("FirstName"));
    assert_eq!(patch.last_name.as_deref(), Some("LastName"));
    assert_eq!(patch.nickname.as_deref(), Some("Nickname"));
    assert_eq!(patch.email.as_deref(), Some("Email"));
    assert_eq!(patch.position.as_deref(), Some("Position"));
    assert_eq!(patch.username.as_deref(), Some("Username"));
    assert_eq!(patch.locale, None);
}

#[test]
fn sanitizing_twice_is_sanitizing_once() {
    let flags = options(&[("fullname", true)]);
    let mut once = full_user();
    once.set_prop(USER_PROPS_KEY_REMOTE_EMAIL, "remote@example.com");
    once.sanitize(&flags);
    let mut twice = once.clone();
    twice.sanitize(&flags);
    assert_eq!(once, twice);
    assert_eq!(once.username, "someuser");
    assert_eq!(once.get_prop("k"), Some("v"));
}

#[test]
fn mention_keys_are_read_back_after_a_change_of_name() {
    let mut user = User::default();
    user.add_notify_prop(MENTION_KEYS_NOTIFY_PROP, " one,ada, two ,@ada,three");
    user.update_mention_keys_from_username("ada");
    assert_eq!(user.get_mention_keys(), vec!["one", "two", "three"]);
    assert_eq!(entry(&user.notify_props, MENTION_KEYS_NOTIFY_PROP), ",one,two,three");
}

#[test]
fn new_users_have_names_that_pass() {
    let mut user = User {
        email: "ada@example.com".into(),
        ..Default::default()
    };
    user.pre_save_partial_at(77);
    assert_eq!(user.create_at, 77);
    assert!(is_valid_username(&user.username));
    assert!(user.get_mention_keys().is_empty());
    assert!(user.is_valid().is_ok());
    user.pre_update_at(88);
    assert_eq!(user.create_at, 77);
    assert_eq!(user.update_at, 88);
}

#[test]
fn lower_case_is_one_character_for_one() {
    assert_eq!(normalize_username("ÄÉ"), "äé");
    assert_eq!(normalize_username("\u{130}x"), "ix");
}

#[test]
fn maps_in_messages_and_on_the_wire() {
    let map = map_of(&[("z", "26"), ("a", "1"), ("m", "one two")]);
    assert_eq!(shown_text(&string_map_value(&map)), "map[a:1 m:one two z:26]");
    assert_eq!(
        string_map_wire_text(Some(&map)),
        "{\"a\":\"1\",\"m\":\"one two\",\"z\":\"26\"}"
    );
    assert_eq!(string_map_wire_text(None), "null");
    assert_eq!(string_map_wire_text(Some(&StringMap::new())), "{}");
    assert_eq!(shown_text(&string_map_value(&StringMap::new())), "map[]");
}
