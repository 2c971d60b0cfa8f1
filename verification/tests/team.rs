use mm_model::str_map::{StrMap, StringMap};
use mm_model::team::{
    clean_team_name, is_reserved_team_name, is_valid_team_name, Invites, Team, TeamPatch,
    TEAM_ALLOWED_DOMAINS_MAX_LENGTH, TEAM_COMPANY_NAME_MAX_LENGTH, TEAM_DESCRIPTION_MAX_LENGTH,
    TEAM_DISPLAY_NAME_MAX_RUNES, TEAM_EMAIL_MAX_LENGTH, TEAM_INVITE, TEAM_NAME_MAX_LENGTH,
    TEAM_OPEN,
};
use mm_model::utils::{is_valid_id, new_id, CURRENT_VERSION, ID_LENGTH};

fn valid_team() -> Team {
    Team {
        id: new_id(),
        create_at: 1_700_000_000_000,
        update_at: 1_700_000_000_000,
        display_name: "Core Team".into(),
        name: "core-team".into(),
        email: "team@example.com".into(),
        team_type: TEAM_OPEN.into(),
        invite_id: new_id(),
        ..Default::default()
    }
}

fn actions(pairs: &[(&str, bool)]) -> StrMap<bool> {
    let mut m = StrMap::new();
    for (k, v) in pairs {
        m.insert(k.to_string(), *v);
    }
    m
}

fn assert_invalid(team: &Team, expected_id: &str) {
    let err = team
        .is_valid()
        .expect_err("expected this team to be invalid");
    assert_eq!(
        err.id,
        format!("model.team.is_valid.{expected_id}.app_error")
    );
    assert_eq!(err.status_code, 400);
}

#[test]
fn policy_actions_are_nil_safe() {
    let mut team = Team::default();
    assert!(!team.has_policy_action("membership"));
    assert!(!team.has_membership_policy_action());

    team.policy_actions = Some(StrMap::new());
    assert!(!team.has_policy_action("membership"), "empty map");

    team.policy_actions = Some(actions(&[("membership", false)]));
    assert!(!team.has_membership_policy_action(), "present but false");

    team.policy_actions = Some(actions(&[("membership", true)]));
    assert!(team.has_membership_policy_action());
}

#[test]
fn group_constrained_is_none_safe() {
    let mut team = Team::default();
    assert!(!team.is_group_constrained());
    team.group_constrained = Some(false);
    assert!(!team.is_group_constrained());
    team.group_constrained = Some(true);
    assert!(team.is_group_constrained());
}

#[test]
fn sanitize_clears_email_and_invite_id() {
    let mut team = valid_team();
    team.sanitize();
    assert_eq!(team.email, "");
    assert_eq!(team.invite_id, "");
    assert_eq!(team.name, "core-team");
}

#[test]
fn is_valid_accepts_a_well_formed_team() {
    assert!(valid_team().is_valid().is_ok());
}

#[test]
fn is_valid_rejects_a_bad_id() {
    let mut team = valid_team();
    team.id = "too-short".into();
    assert_invalid(&team, "id");

    // Only here are there no details.
    let err = team.is_valid().unwrap_err();
    assert_eq!(err.detailed_error, "");
}

#[test]
fn is_valid_rejects_zero_timestamps() {
    let mut team = valid_team();
    team.create_at = 0;
    assert_invalid(&team, "create_at");
    assert_eq!(
        team.is_valid().unwrap_err().detailed_error,
        format!("id={}", team.id)
    );

    let mut team = valid_team();
    team.update_at = 0;
    assert_invalid(&team, "update_at");
}

#[test]
fn is_valid_rejects_bad_email_two_ways() {
    // Too long.
    let mut team = valid_team();
    team.email = format!("{}@example.com", "a".repeat(TEAM_EMAIL_MAX_LENGTH));
    assert_invalid(&team, "email");

    // No address.
    let mut team = valid_team();
    team.email = "not an email".into();
    assert_invalid(&team, "email");

    // None at all is allowed.
    let mut team = valid_team();
    team.email = String::new();
    assert!(team.is_valid().is_ok());
}

#[test]
fn is_valid_rejects_bad_display_name() {
    let mut team = valid_team();
    team.display_name = String::new();
    assert_invalid(&team, "name");

    // Characters, not bytes.
    let mut team = valid_team();
    team.display_name = "é".repeat(TEAM_DISPLAY_NAME_MAX_RUNES);
    assert!(team.is_valid().is_ok(), "64 is the limit, inclusive");

    team.display_name = "é".repeat(TEAM_DISPLAY_NAME_MAX_RUNES + 1);
    assert_invalid(&team, "name");
}

#[test]
fn is_valid_name_failure_uses_the_url_error_id() {
    let mut team = valid_team();
    team.name = "a".repeat(TEAM_NAME_MAX_LENGTH + 1);
    assert_invalid(&team, "url");
}

#[test]
fn is_valid_rejects_long_description() {
    let mut team = valid_team();
    team.description = "a".repeat(TEAM_DESCRIPTION_MAX_LENGTH + 1);
    assert_invalid(&team, "description");
}

#[test]
fn is_valid_requires_an_invite_id() {
    let mut team = valid_team();
    team.invite_id = String::new();
    assert_invalid(&team, "invite_id");
}

#[test]
fn is_valid_rejects_reserved_and_malformed_names() {
    let mut team = valid_team();
    team.name = "admin-team".into(); // reserved by prefix
    assert_invalid(&team, "reserved");

    let mut team = valid_team();
    team.name = "Bad_Name".into(); // upper case and an underscore
    assert_invalid(&team, "characters");
}

#[test]
fn is_valid_rejects_unknown_type() {
    let mut team = valid_team();
    team.team_type = "X".into();
    assert_invalid(&team, "type");

    for team_type in [TEAM_OPEN, TEAM_INVITE] {
        let mut team = valid_team();
        team.team_type = team_type.into();
        assert!(team.is_valid().is_ok(), "{team_type} should be valid");
    }
}

#[test]
fn is_valid_rejects_long_company_and_domains() {
    let mut team = valid_team();
    team.company_name = "a".repeat(TEAM_COMPANY_NAME_MAX_LENGTH + 1);
    assert_invalid(&team, "company");

    let mut team = valid_team();
    team.allowed_domains = "a".repeat(TEAM_ALLOWED_DOMAINS_MAX_LENGTH + 1);
    assert_invalid(&team, "domains");
}

#[test]
fn pre_save_fills_id_invite_id_and_timestamps() {
    let mut team = Team::default();
    team.pre_save();

    assert!(is_valid_id(&team.id));
    assert!(is_valid_id(&team.invite_id));
    assert!(team.create_at > 0);
    assert_eq!(team.update_at, team.create_at);
}

#[test]
fn pre_save_overwrites_create_at_even_when_set() {
    let mut team = valid_team();
    team.create_at = 12345;
    team.pre_save();
    assert_ne!(team.create_at, 12345);
}

#[test]
fn pre_save_keeps_an_existing_id_and_invite_id() {
    let mut team = valid_team();
    let (id, invite_id) = (team.id.clone(), team.invite_id.clone());
    team.pre_save();
    assert_eq!(team.id, id);
    assert_eq!(team.invite_id, invite_id);
}

#[test]
fn pre_save_and_pre_update_strip_unicode() {
    let mut team = Team {
        name: "te\u{202E}am".into(),
        display_name: "Te\u{FEFF}am".into(),
        description: "de\u{2028}sc".into(),
        company_name: "co\u{202A}mp".into(),
        ..Default::default()
    };
    team.pre_save();
    assert_eq!(team.name, "team");
    assert_eq!(team.display_name, "Team");
    assert_eq!(team.description, "desc");
    assert_eq!(team.company_name, "comp");

    let mut team = Team {
        name: "te\u{202E}am".into(),
        ..Default::default()
    };
    team.pre_update();
    assert_eq!(team.name, "team");
    assert!(team.update_at > 0);
}

#[test]
fn team_patch_applies_only_present_fields() {
    let mut team = valid_team();
    team.allow_open_invite = true;
    let original_name = team.name.clone();

    let patch = TeamPatch {
        display_name: Some("New Name".into()),
        allow_open_invite: Some(false),
        ..Default::default()
    };
    team.patch(&patch);

    assert_eq!(team.display_name, "New Name");
    assert!(!team.allow_open_invite);
    assert_eq!(team.name, original_name);
}

#[test]
fn patch_can_set_false_and_empty() {
    let mut team = valid_team();
    team.group_constrained = Some(true);
    team.cloud_limits_archived = true;
    team.description = "text".into();

    let patch = TeamPatch {
        description: Some(String::new()),
        group_constrained: Some(false),
        cloud_limits_archived: Some(false),
        ..Default::default()
    };
    team.patch(&patch);

    assert_eq!(team.description, "");
    assert_eq!(team.group_constrained, Some(false));
    assert!(!team.cloud_limits_archived);
}

#[test]
fn is_reserved_team_name_is_a_prefix_test() {
    assert!(is_reserved_team_name("admin"));
    assert!(
        is_reserved_team_name("administrators"),
        "prefix, not equality"
    );
    assert!(is_reserved_team_name("ADMIN"), "lower case first");
    assert!(is_reserved_team_name("postmaster"), "starts with 'post'");
    assert!(!is_reserved_team_name("my-admin"));
    assert!(!is_reserved_team_name("core-team"));
    assert!(!is_reserved_team_name(""));
}

#[test]
fn is_valid_team_name_needs_two_chars_and_alpha_num() {
    assert!(is_valid_team_name("ab"));
    assert!(is_valid_team_name("core-team"));
    assert!(!is_valid_team_name("a"), "one character");
    assert!(!is_valid_team_name(""));
    assert!(!is_valid_team_name("Ab"), "uppercase");
    assert!(!is_valid_team_name("-ab"), "leading hyphen");
}

#[test]
fn clean_team_name_removes_every_occurrence_of_a_reserved_prefix() {
    // Both occurrences go, and one character is too short for a name.
    let cleaned = clean_team_name("adminxadmin");
    assert_eq!(cleaned.len(), ID_LENGTH);

    assert_eq!(clean_team_name("apiary"), "ary");
    assert_eq!(clean_team_name("postmaster"), "master");

    // Not in front, so nothing goes.
    assert_eq!(clean_team_name("xadmin"), "xadmin");
}

#[test]
fn clean_team_name_normalises_spaces_case_and_junk() {
    assert_eq!(clean_team_name("My Team"), "my-team");
    assert_eq!(clean_team_name("My  Team!!"), "my--team");
    assert_eq!(clean_team_name("--core-team--"), "core-team");
    assert_eq!(clean_team_name("Team_2024"), "team2024");
}

#[test]
fn clean_team_name_falls_back_to_a_new_id() {
    // Nothing is left.
    let cleaned = clean_team_name("!!!");
    assert_eq!(cleaned.len(), ID_LENGTH);
    assert!(is_valid_id(&cleaned));

    // One character is too short.
    let cleaned = clean_team_name("a");
    assert_eq!(cleaned.len(), ID_LENGTH);
}

#[test]
fn invites_to_email_list_keeps_missing_keys_as_empty() {
    let mut first = StringMap::new();
    first.insert("email".to_string(), "a@example.com".to_string());
    let mut second = StringMap::new();
    second.insert("name".to_string(), "no email key".to_string());
    let invites = Invites {
        invites: vec![first, second],
    };
    assert_eq!(invites.to_email_list(), vec!["a@example.com", ""]);
    assert!(Invites::default().to_email_list().is_empty());
}

#[test]
fn team_patches_twice_and_empty() {
    let patch = TeamPatch {
        company_name: Some("Company".into()),
        allowed_domains: Some("example.com".into()),
        ..Default::default()
    };
    let mut once = valid_team();
    let before = once.clone();
    once.patch(&patch);
    assert_eq!(once.company_name, "Company");
    assert_eq!(once.allowed_domains, "example.com");
    let mut twice = once.clone();
    twice.patch(&patch);
    assert_eq!(once, twice);

    let mut same = before.clone();
    same.patch(&TeamPatch::default());
    assert_eq!(same, before);
}

#[test]
fn team_times_and_tags() {
    let mut team = valid_team();
    team.pre_save_at(7);
    assert_eq!((team.create_at, team.update_at), (7, 7));
    team.pre_update_at(9);
    assert_eq!((team.create_at, team.update_at), (7, 9));
    team.id = "t1".into();
    assert_eq!(team.etag(), format!("{CURRENT_VERSION}.t1.9"));
}

#[test]
fn new_ids_are_team_names() {
    assert!(is_valid_team_name(&new_id()));
}
