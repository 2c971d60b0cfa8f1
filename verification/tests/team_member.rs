use mm_model::team_member::{
    team_members_with_error_to_team_members, TeamMember, TeamMemberWithError,
};
use mm_model::user::USER_ROLES_MAX_LENGTH;
use mm_model::utils::{new_id, AppError};

fn valid_member() -> TeamMember {
    TeamMember {
        team_id: new_id(),
        user_id: new_id(),
        roles: "team_user".into(),
        ..Default::default()
    }
}

#[test]
fn the_non_graceful_projection_drops_failures_and_nils_out() {
    let mut first = valid_member();
    first.user_id = "a".into();
    let mut second = valid_member();
    second.user_id = "b".into();
    let entries = vec![
        TeamMemberWithError {
            user_id: "a".into(),
            member: Some(first),
            error: None,
        },
        TeamMemberWithError {
            user_id: "x".into(),
            member: None,
            error: Some(AppError::boxed("W", "nope", None, "", 400)),
        },
        TeamMemberWithError {
            user_id: "b".into(),
            member: Some(second),
            error: None,
        },
    ];
    let kept = team_members_with_error_to_team_members(&entries).unwrap();
    assert_eq!(
        kept.iter().map(|m| m.user_id.as_str()).collect::<Vec<_>>(),
        vec!["a", "b"]
    );

    let all_failed = vec![TeamMemberWithError {
        user_id: "x".into(),
        member: None,
        error: Some(AppError::boxed("W", "nope", None, "", 400)),
    }];
    assert!(team_members_with_error_to_team_members(&all_failed).is_none());
}

#[test]
fn team_member_is_valid_covers_every_branch() {
    assert!(valid_member().is_valid().is_ok());

    let mut member = valid_member();
    member.team_id = "short".into();
    assert_eq!(
        member.is_valid().unwrap_err().id,
        "model.team_member.is_valid.team_id.app_error"
    );

    let mut member = valid_member();
    member.user_id = String::new();
    assert_eq!(
        member.is_valid().unwrap_err().id,
        "model.team_member.is_valid.user_id.app_error"
    );

    let mut member = valid_member();
    member.roles = "a".repeat(USER_ROLES_MAX_LENGTH + 1);
    let err = member.is_valid().unwrap_err();
    assert_eq!(err.id, "model.team_member.is_valid.roles_limit.app_error");
    assert_eq!(err.detailed_error, "");
}

#[test]
fn sanitize_role_data_uses_minus_one_as_the_delete_at_sentinel() {
    let mut member = valid_member();
    member.scheme_admin = true;
    member.explicit_roles = "team_admin".into();
    let other = new_id();

    member.sanitize_role_data(&other);
    assert_eq!(member.roles, "");
    assert_eq!(member.explicit_roles, "");
    assert!(!member.scheme_admin && !member.scheme_guest && !member.scheme_user);
    assert_eq!(member.delete_at, -1);

    let once = member.clone();
    member.sanitize_role_data(&other);
    assert_eq!(member, once);
}

#[test]
fn sanitize_role_data_leaves_the_current_user_alone() {
    let mut member = valid_member();
    member.scheme_admin = true;
    let me = member.user_id.clone();

    member.sanitize_role_data(&me);
    assert_eq!(member.roles, "team_user");
    assert!(member.scheme_admin);
    assert_eq!(member.delete_at, 0);
}

#[test]
fn get_roles_splits_on_whitespace_runs() {
    let member = TeamMember {
        roles: "team_user  team_admin".into(),
        ..Default::default()
    };
    assert_eq!(member.get_roles(), vec!["team_user", "team_admin"]);
    assert!(TeamMember::default().get_roles().is_empty());
}
