use mm_model::role::{is_valid_role_name, Role};
use mm_model::scheme::{
    is_valid_scheme_name, Scheme, SchemeConveyor, SchemeIDPatch, SchemePatch, SchemeRoles,
    SCHEME_SCOPE_CHANNEL, SCHEME_SCOPE_PLAYBOOK, SCHEME_SCOPE_RUN, SCHEME_SCOPE_TEAM,
};
use mm_model::utils::{new_id, FAKE_SETTING};
use mm_model::value::Value;

fn channel_scheme() -> Scheme {
    Scheme {
        id: new_id(),
        name: "custom_scheme".into(),
        display_name: "Custom".into(),
        description: "About".into(),
        scope: SCHEME_SCOPE_CHANNEL.into(),
        default_channel_admin_role: "channel_admin".into(),
        default_channel_user_role: "channel_user".into(),
        default_channel_guest_role: "channel_guest".into(),
        ..Default::default()
    }
}

fn team_scheme() -> Scheme {
    Scheme {
        scope: SCHEME_SCOPE_TEAM.into(),
        default_team_admin_role: "team_admin".into(),
        default_team_user_role: "team_user".into(),
        default_team_guest_role: "team_guest".into(),
        default_playbook_admin_role: "playbook_admin".into(),
        default_playbook_member_role: "playbook_member".into(),
        default_run_admin_role: "run_admin".into(),
        default_run_member_role: "run_member".into(),
        ..channel_scheme()
    }
}

#[test]
fn scheme_sanitize_blanks_the_name_but_role_sanitize_does_not() {
    let mut scheme = Scheme {
        name: "custom_scheme".to_owned(),
        ..Default::default()
    };
    scheme.sanitize();
    assert_eq!(scheme.name, FAKE_SETTING);

    let mut role = Role {
        name: "custom_role".to_owned(),
        display_name: "Custom".to_owned(),
        ..Default::default()
    };
    role.sanitize();
    assert_eq!(role.name, "custom_role");
    assert_eq!(role.display_name, FAKE_SETTING);
}

#[test]
fn scheme_names_need_two_characters_role_names_need_one() {
    assert!(is_valid_role_name("a"));
    assert!(!is_valid_scheme_name("a"));
    assert!(is_valid_scheme_name("a_"));
    assert!(is_valid_role_name("a_"));
    assert!(!is_valid_role_name(""));
    assert!(is_valid_scheme_name(&"a".repeat(64)));
    assert!(!is_valid_scheme_name(&"a".repeat(65)));
    assert!(!is_valid_scheme_name("Ab"));
    assert!(!is_valid_scheme_name("a-b"));
}

#[test]
fn a_trailing_newline_is_rejected() {
    for probe in ["ab\n", "\nab", "ab\ncd", "ab\r"] {
        assert!(!is_valid_scheme_name(probe), "{probe:?}");
    }
}

#[test]
fn schemes_of_both_scopes() {
    assert!(channel_scheme().is_valid());
    assert!(team_scheme().is_valid());

    let mut s = channel_scheme();
    s.default_team_admin_role = "team_admin".into();
    assert!(!s.is_valid(), "a scheme of a channel has no roles of a team");

    let mut s = team_scheme();
    s.default_team_user_role = String::new();
    assert!(!s.is_valid());

    let mut s = channel_scheme();
    s.scope = "system".into();
    assert!(!s.is_valid());

    let mut s = channel_scheme();
    s.display_name = String::new();
    assert!(!s.is_valid());

    let mut s = channel_scheme();
    s.description = "x".repeat(1025);
    assert!(!s.is_valid());
}

#[test]
fn playbook_and_run_roles_are_only_checked_under_the_team_scope() {
    let of_scope = |scope: &str| Scheme {
        scope: scope.into(),
        ..if scope == SCHEME_SCOPE_CHANNEL {
            channel_scheme()
        } else {
            team_scheme()
        }
    };
    let with_playbook_admin = |scope: &str, role: &str| {
        let s = Scheme {
            default_playbook_admin_role: role.into(),
            ..of_scope(scope)
        };
        s.is_valid_for_create()
    };

    // Under the scope of a team, an empty or malformed playbook role is fatal.
    assert!(!with_playbook_admin(SCHEME_SCOPE_TEAM, ""));
    assert!(!with_playbook_admin(SCHEME_SCOPE_TEAM, "Bad Role"));
    // Under the scopes those fields are named for it is not.
    assert!(with_playbook_admin(SCHEME_SCOPE_PLAYBOOK, ""));
    assert!(with_playbook_admin(SCHEME_SCOPE_PLAYBOOK, "Bad Role"));
    let s = Scheme {
        default_run_member_role: String::new(),
        ..of_scope(SCHEME_SCOPE_RUN)
    };
    assert!(s.is_valid_for_create());

    // The scope of a channel forbids the roles of a team but permits those of playbooks and runs.
    let s = Scheme {
        default_team_admin_role: "team_admin".into(),
        ..of_scope(SCHEME_SCOPE_CHANNEL)
    };
    assert!(!s.is_valid_for_create());
    assert!(with_playbook_admin(SCHEME_SCOPE_CHANNEL, "playbook_admin"));

    // The roles of a channel are required by every scope.
    for scope in [
        SCHEME_SCOPE_TEAM,
        SCHEME_SCOPE_CHANNEL,
        SCHEME_SCOPE_PLAYBOOK,
        SCHEME_SCOPE_RUN,
    ] {
        assert!(of_scope(scope).is_valid_for_create(), "{scope}");
        let s = Scheme {
            default_channel_admin_role: String::new(),
            ..of_scope(scope)
        };
        assert!(!s.is_valid_for_create(), "{scope}");
        let s = Scheme {
            default_channel_guest_role: String::new(),
            ..of_scope(scope)
        };
        assert!(!s.is_valid_for_create(), "{scope}");
    }

    let mut s = team_scheme();
    s.default_run_member_role = "Bad Role".into();
    assert!(!s.is_valid());
}

#[test]
fn is_valid_for_create_ignores_the_id() {
    for id in ["", "bad"] {
        for scheme in [channel_scheme(), team_scheme()] {
            let s = Scheme {
                id: id.into(),
                ..scheme
            };
            assert!(s.is_valid_for_create());
            assert!(!s.is_valid());
        }
    }
}

#[test]
fn patches_of_schemes() {
    let patch = SchemePatch {
        name: Some("other".into()),
        description: Some(String::new()),
        ..Default::default()
    };
    let mut once = channel_scheme();
    let before = once.clone();
    once.patch(&patch);
    assert_eq!(once.name, "other");
    assert_eq!(once.display_name, "Custom");
    assert_eq!(once.description, "");
    let mut twice = once.clone();
    twice.patch(&patch);
    assert_eq!(once, twice);

    let mut same = before.clone();
    same.patch(&SchemePatch::default());
    assert_eq!(same, before);
}

#[test]
fn what_is_audited() {
    let s = team_scheme();
    let audited = s.auditable();
    assert_eq!(audited.get("id"), Some(&Value::Str(s.id.clone())));
    assert_eq!(
        audited.get("default_run_member_role"),
        Some(&Value::Str("run_member".into()))
    );
    let patch = SchemePatch::default().auditable();
    assert_eq!(patch.get("name"), Some(&Value::Null));
    let id = SchemeIDPatch {
        scheme_id: Some("s".into()),
    };
    assert_eq!(
        id.auditable().get("scheme_id"),
        Some(&Value::Str("s".into()))
    );
    let roles = SchemeRoles {
        scheme_admin: true,
        ..Default::default()
    }
    .auditable();
    assert_eq!(roles.len(), 0);
}

#[test]
fn conveyed_schemes_are_not_stored_yet() {
    let c = SchemeConveyor {
        name: "custom_scheme".into(),
        display_name: "Custom".into(),
        scope: SCHEME_SCOPE_TEAM.into(),
        team_admin: "team_admin".into(),
        run_member: "run_member".into(),
        ..Default::default()
    };
    let s = c.scheme();
    assert_eq!(s.id, "");
    assert_eq!(s.create_at, 0);
    assert_eq!(s.name, "custom_scheme");
    assert_eq!(s.default_team_admin_role, "team_admin");
    assert_eq!(s.default_run_member_role, "run_member");
    assert!(!s.is_valid());
}
