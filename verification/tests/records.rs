use mm_model::plugin_constants::PLUGIN_ID_CALLS;
use mm_model::post::Post;
use mm_model::remote_cluster::Bitmask;
use mm_model::service_environment::{default_service_environment, service_environment_from};
use mm_model::shared_channel::{
    RegisterPluginOpts, SharedChannel, SharedChannelAttachment, SharedChannelRemote,
    SharedChannelUser, SyncMsg,
};
use mm_model::sidebar_category::{is_valid_category_id, SidebarCategoryWithChannels};
use mm_model::slack_compatibility::SlackCompatibleBool;
use mm_model::switch_request::SwitchRequest;
use mm_model::team_search::TeamSearch;
use mm_model::temporary_post::{create_temporary_post, TemporaryPost, TemporaryPostError};
use mm_model::terms_of_service::{invalid_terms_of_service_error, TermsOfService};
use mm_model::thread::{Thread, ThreadMembership};
use mm_model::token::{
    Token, TOKEN_SIZE, TOKEN_TYPE_GUEST_INVITATION, TOKEN_TYPE_GUEST_MAGIC_LINK,
    TOKEN_TYPE_OAUTH, TOKEN_TYPE_PASSWORD_RECOVERY, TOKEN_TYPE_TEAM_INVITATION,
};
use mm_model::upload_session::{UploadSession, UploadSessionError, UploadType};
use mm_model::usage::is_ignored_plugin;
use mm_model::user_access_token::UserAccessToken;
use mm_model::utils::{is_valid_id, new_id, CURRENT_VERSION};
use mm_model::value::Value;

// -- truth values -----------------------------------------------------------------------------

#[test]
fn defaults_to_false() {
    assert_eq!(SlackCompatibleBool::default(), SlackCompatibleBool(false));
}

#[test]
fn converts_both_ways() {
    assert!(bool::from(SlackCompatibleBool::from(true)));
    assert!(!bool::from(SlackCompatibleBool::from(false)));
}

#[test]
fn truth_values_as_texts() {
    for text in ["true", "TRUE", "True", "tRuE"] {
        assert_eq!(
            SlackCompatibleBool::from_text(text),
            Ok(SlackCompatibleBool(true))
        );
    }
    assert_eq!(
        SlackCompatibleBool::from_text("False"),
        Ok(SlackCompatibleBool(false))
    );
    assert_eq!(
        SlackCompatibleBool::from_text("yes"),
        Err("unmarshal: unable to convert yes to bool".to_string())
    );
}

// -- tokens -----------------------------------------------------------------------------------

#[test]
fn new_tokens_pass_and_expire() {
    let t = Token::new(TOKEN_TYPE_OAUTH, "extra");
    assert_eq!(t.token.len(), TOKEN_SIZE);
    assert_eq!(t.extra, "extra");
    assert!(t.is_valid().is_ok());
    assert!(!t.is_expired());

    let hour = 3_600_000;
    for (kind, life) in [
        (TOKEN_TYPE_GUEST_MAGIC_LINK, 300_000),
        (TOKEN_TYPE_TEAM_INVITATION, 48 * hour),
        (TOKEN_TYPE_PASSWORD_RECOVERY, 24 * hour),
        (TOKEN_TYPE_OAUTH, 48 * hour),
        ("other", 48 * hour),
    ] {
        let t = Token::new_at(kind, "", 1000);
        assert!(!t.is_expired_at(1000 + life), "{kind}");
        assert!(t.is_expired_at(1001 + life), "{kind}");
        assert!(t.is_expired_at(1002 + life), "{kind}");
    }
}

#[test]
fn faults_of_tokens() {
    let mut t = Token::new_at(TOKEN_TYPE_OAUTH, "", 0);
    let e = t.is_valid().unwrap_err();
    assert_eq!((e.id.as_str(), e.status_code), ("model.token.is_valid.expiry", 500));
    t.token = "short".into();
    assert_eq!(t.is_valid().unwrap_err().id, "model.token.is_valid.size");
}

#[test]
fn kinds_of_tokens() {
    assert!(Token::new_at(TOKEN_TYPE_GUEST_MAGIC_LINK, "", 1).is_guest_magic_link());
    assert!(!Token::new_at(TOKEN_TYPE_GUEST_MAGIC_LINK, "", 1).is_invitation_token());
    assert!(Token::new_at(TOKEN_TYPE_GUEST_INVITATION, "", 1).is_invitation_token());
    assert!(!Token::new_at(TOKEN_TYPE_OAUTH, "", 1).is_guest_magic_link());
}

#[test]
fn access_tokens() {
    let mut t = UserAccessToken {
        token: new_id(),
        user_id: new_id(),
        ..Default::default()
    };
    t.pre_save();
    assert!(is_valid_id(&t.id));
    assert!(t.is_active);
    assert!(t.is_valid().is_ok());
    assert!(!t.is_expired());
    t.expires_at = 5;
    assert!(!t.is_expired_at(4));
    assert!(t.is_expired_at(5));
    assert!(t.is_expired_at(6));
    assert!(t.is_valid().is_ok(), "an expired token may be in order");

    let id = |t: &UserAccessToken| t.is_valid().unwrap_err().id;
    let good = t;
    let mut t = good.clone();
    t.id = String::new();
    assert_eq!(id(&t), "model.user_access_token.is_valid.id.app_error");
    let mut t = good.clone();
    t.token = "x".into();
    assert_eq!(id(&t), "model.user_access_token.is_valid.token.app_error");
    let mut t = good.clone();
    t.user_id = "x".into();
    assert_eq!(id(&t), "model.user_access_token.is_valid.user_id.app_error");
    let mut t = good.clone();
    t.description = "x".repeat(256);
    assert_eq!(id(&t), "model.user_access_token.is_valid.description.app_error");
    let mut t = good.clone();
    t.expires_at = -1;
    assert_eq!(id(&t), "model.user_access_token.is_valid.expires_at.app_error");
}

// -- uploads ----------------------------------------------------------------------------------

fn upload() -> UploadSession {
    UploadSession {
        id: new_id(),
        type_: UploadType::from("attachment"),
        create_at: 1,
        user_id: new_id(),
        channel_id: new_id(),
        filename: "file".into(),
        path: "path".into(),
        file_size: 10,
        file_offset: 10,
        ..Default::default()
    }
}

#[test]
fn faults_of_uploads() {
    assert!(upload().is_valid().is_ok());
    for (field, change) in [
        ("id", 0),
        ("type", 1),
        ("user_id", 2),
        ("channel_id", 3),
        ("create_at", 4),
        ("filename", 5),
        ("file_size", 6),
        ("file_offset", 7),
        ("path", 8),
    ] {
        let mut u = upload();
        match change {
            0 => u.id = "x".into(),
            1 => u.type_ = UploadType::from("nope"),
            2 => u.user_id = "x".into(),
            3 => u.channel_id = "x".into(),
            4 => u.create_at = 0,
            5 => u.filename = String::new(),
            6 => u.file_size = 0,
            7 => u.file_offset = 11,
            _ => u.path = String::new(),
        }
        let e = u.is_valid().unwrap_err();
        assert_eq!(
            e.id,
            format!("model.upload_session.is_valid.{field}.app_error")
        );
    }
    let mut u = upload();
    u.user_id = "nouser".into();
    u.type_ = UploadType::from("import");
    u.channel_id = String::new();
    assert!(u.is_valid().is_ok());
}

#[test]
fn kinds_of_uploads() {
    assert_eq!(UploadType::from("import").as_str(), "import");
    assert!(UploadType::from("import").is_valid().is_ok());
    let e = UploadType::from("nope").is_valid().unwrap_err();
    assert_eq!(e, UploadSessionError::InvalidUploadType("nope".into()));
    assert_eq!(e.to_text(), "invalid UploadType nope");
    let mut u = upload();
    u.type_ = UploadType::from("nope");
    assert_eq!(
        u.is_valid().unwrap_err().wrapped.as_deref(),
        Some("invalid UploadType nope")
    );
}

#[test]
fn saving_an_upload_twice_changes_nothing() {
    let mut u = UploadSession::default();
    u.pre_save_at(3);
    assert!(is_valid_id(&u.id));
    assert_eq!(u.create_at, 3);
    let once = u.clone();
    u.pre_save_at(4);
    assert_eq!(u, once);
}

// -- shared channels --------------------------------------------------------------------------

fn shared() -> SharedChannel {
    SharedChannel {
        channel_id: new_id(),
        team_id: new_id(),
        home: true,
        share_name: "town-square".into(),
        share_display_name: "Town Square".into(),
        creator_id: new_id(),
        create_at: 1,
        update_at: 1,
        ..Default::default()
    }
}

#[test]
fn faults_of_shared_channels() {
    assert!(shared().is_valid().is_ok());
    for (field, change) in [
        ("id", 0),
        ("id", 1),
        ("create_at", 2),
        ("update_at", 3),
        ("display_name", 4),
        ("1_or_more", 5),
        ("header", 6),
        ("purpose", 7),
        ("creator_id", 8),
        ("id", 9),
    ] {
        let mut s = shared();
        match change {
            0 => s.channel_id = "x".into(),
            1 => s.team_id = "x".into(),
            2 => s.create_at = 0,
            3 => s.update_at = 0,
            4 => s.share_display_name = "x".repeat(65),
            5 => s.share_name = "Not A Name!".into(),
            6 => s.share_header = "x".repeat(1025),
            7 => s.share_purpose = "x".repeat(251),
            8 => s.creator_id = "x".into(),
            _ => s.home = false,
        }
        let e = s.is_valid().unwrap_err();
        assert_eq!(e.id, format!("model.channel.is_valid.{field}.app_error"));
        assert_eq!(e.where_, "SharedChannel.IsValid");
    }
    let mut s = shared();
    s.type_ = "D".into();
    s.team_id = String::new();
    assert!(s.is_valid().is_ok(), "direct messages have no team");
}

#[test]
fn shared_channels_are_saved() {
    let mut s = shared();
    s.share_name = "a\u{202e}b".into();
    s.pre_save_at(5);
    assert_eq!(s.share_name, "ab");
    assert_eq!((s.create_at, s.update_at), (5, 5));
    s.pre_update_at(6);
    assert_eq!((s.create_at, s.update_at), (5, 6));

    let mut r = SharedChannelRemote {
        channel_id: new_id(),
        creator_id: new_id(),
        ..Default::default()
    };
    assert!(r.is_valid().is_err());
    r.pre_save_at(5);
    assert!(r.is_valid().is_ok());
    r.pre_update_at(6);
    assert_eq!((r.create_at, r.update_at), (5, 6));
    // Saved again, a remote keeps its id and the time it was made.
    let id = r.id.clone();
    r.pre_save_at(8);
    assert_eq!(r.id, id);
    assert_eq!((r.create_at, r.update_at), (5, 8));

    let mut known = SharedChannelRemote {
        id: "abc".into(),
        create_at: 12345,
        ..Default::default()
    };
    known.pre_save();
    assert_eq!(known.id, "abc");
    assert_eq!(known.create_at, 12345);
    assert_ne!(known.update_at, 0);
    let mut fresh = SharedChannelRemote::default();
    fresh.pre_save();
    assert!(is_valid_id(&fresh.id));
    assert_eq!(fresh.create_at, fresh.update_at);
    assert!(fresh.create_at > 0);

    let mut u = SharedChannelUser {
        user_id: new_id(),
        channel_id: new_id(),
        remote_id: new_id(),
        ..Default::default()
    };
    assert!(u.is_valid().is_err());
    u.pre_save();
    assert!(u.is_valid().is_ok());

    let mut a = SharedChannelAttachment {
        file_id: new_id(),
        remote_id: new_id(),
        ..Default::default()
    };
    assert!(a.is_valid().is_err());
    a.pre_save_at(7);
    assert!(a.is_valid().is_ok());
    a.pre_save_at(9);
    assert_eq!((a.create_at, a.last_sync_at), (7, 9));
}

#[test]
fn messages_between_clusters() {
    let m = SyncMsg::new("channel");
    assert!(is_valid_id(&m.id));
    assert_eq!(m.channel_id, "channel");
    assert!(m.users.is_none() && m.posts.is_none());
}

#[test]
fn options_of_plugins_are_bits() {
    let mut o = RegisterPluginOpts::default();
    assert_eq!(o.get_option_flags(), Bitmask(0));
    o.auto_share_dms = true;
    assert_eq!(o.get_option_flags(), Bitmask(1));
    o.auto_invited = true;
    let flags = o.get_option_flags();
    assert_eq!(flags, Bitmask(3));
    assert!(flags.is_bit_set(Bitmask::AUTO_INVITED));
    assert!(!Bitmask(1).is_bit_set(Bitmask::AUTO_INVITED));
}

// -- categories -------------------------------------------------------------------------------

#[test]
fn ids_of_categories() {
    let (u, t) = (new_id(), new_id());
    assert!(is_valid_category_id(&new_id()));
    for name in ["favorites", "channels", "direct_messages"] {
        assert!(is_valid_category_id(&format!("{name}_{u}_{t}")));
        assert!(is_valid_category_id(&format!("x{name}_{u}_{t}y")));
    }
    assert!(!is_valid_category_id(&format!("custom_{u}_{t}")));
    assert!(!is_valid_category_id("favorites"));
    assert!(!is_valid_category_id(&format!("favorites_{u}")));
    assert!(!is_valid_category_id(&format!("favorites_{}_{t}", u.to_uppercase())));
}

#[test]
fn the_pattern_is_unanchored_like_gos() {
    let a = "abcdefghijklmnopqrstuvwxyz";
    let b = "0123456789abcdefghijklmnop";
    assert!(is_valid_category_id(&format!("zzfavorites_{a}_{b}")), "leading junk");
    assert!(is_valid_category_id(&format!("favorites_{a}_{b}zz")), "trailing junk");
    assert!(is_valid_category_id(&format!("favorites_{a}_{a}a")), "long second half");
    assert!(!is_valid_category_id(&format!("favorites_{a}a_{b}")), "long first half");
}

#[test]
fn channels_of_a_category() {
    let mut c = SidebarCategoryWithChannels::default();
    assert_eq!(c.channel_ids(), None);
    c.channel_ids = Some(vec!["a".into()]);
    assert_eq!(c.channel_ids(), Some(&["a".to_string()][..]));
}

// -- the rest ---------------------------------------------------------------------------------

#[test]
fn environments() {
    assert_eq!(default_service_environment(), "dev");
    assert_eq!(service_environment_from(" Production "), "production");
    assert_eq!(service_environment_from("TEST"), "test");
    assert_eq!(service_environment_from("dev"), "dev");
    assert_eq!(service_environment_from(""), "dev");
    assert_eq!(service_environment_from("staging"), "dev");
}

#[test]
fn ways_to_switch() {
    let switch = |from: &str, to: &str| {
        let r = SwitchRequest {
            current_service: from.into(),
            new_service: to.into(),
            ..Default::default()
        };
        (
            r.email_to_oauth(),
            r.oauth_to_email(),
            r.email_to_ldap(),
            r.ldap_to_email(),
        )
    };
    assert_eq!(switch("email", "gitlab"), (true, false, false, false));
    assert_eq!(switch("saml", "email"), (false, true, false, false));
    assert_eq!(switch("email", "ldap"), (false, false, true, false));
    assert_eq!(switch("ldap", "email"), (false, false, false, true));
    assert_eq!(switch("gitlab", "ldap"), (false, false, false, false));
    assert_eq!(switch("email", "email"), (false, false, false, false));
}

#[test]
fn pages_of_teams() {
    let mut s = TeamSearch::default();
    assert!(!s.is_paginated());
    s.page = Some(0);
    assert!(!s.is_paginated());
    s.per_page = Some(10);
    assert!(s.is_paginated());
}

#[test]
fn temporary_posts_take_the_contents() {
    let mut post = Post {
        id: "p".into(),
        post_type: "burn".into(),
        message: "secret".into(),
        file_ids: Some(vec!["f".into()]),
        user_id: "u".into(),
        ..Default::default()
    };
    let t = create_temporary_post(&mut post, 77);
    assert_eq!(
        t,
        TemporaryPost {
            id: "p".into(),
            type_: "burn".into(),
            expire_at: 77,
            message: "secret".into(),
            file_ids: Some(vec!["f".into()]),
        }
    );
    assert_eq!(post.message, "");
    assert_eq!(post.file_ids, Some(Vec::new()));
    assert_eq!(post.user_id, "u");
    assert!(t.is_valid().is_ok());
    let e = TemporaryPost::default().is_valid().unwrap_err();
    assert_eq!(e, TemporaryPostError::MissingId);
    assert_eq!(e.to_text(), "id is required");
}

#[test]
fn terms_are_checked_and_saved() {
    let mut t = TermsOfService {
        user_id: new_id(),
        text: "é".repeat(16383),
        ..Default::default()
    };
    t.pre_save_at(8);
    assert!(t.is_valid().is_ok());
    t.text.push('x');
    let e = t.is_valid().unwrap_err();
    assert_eq!(e.id, "model.terms_of_service.is_valid.text.app_error");
    assert_eq!(e.detailed_error, format!("terms_of_service_id={}", t.id));
    assert_eq!(
        e.params,
        Some(vec![("MaxLength".to_string(), Value::Int(16383))])
    );
    t.user_id = "x".into();
    assert!(t.is_valid().unwrap_err().id.contains(".user_id."));
    t.create_at = 0;
    assert!(t.is_valid().unwrap_err().id.contains(".create_at."));
    t.id = "x".into();
    assert_eq!(t.is_valid().unwrap_err().detailed_error, "");
    assert_eq!(
        invalid_terms_of_service_error("id", "t").detailed_error,
        "terms_of_service_id=t"
    );
}

#[test]
fn threads_and_memberships() {
    let t = Thread {
        post_id: "p".into(),
        last_reply_at: 12,
        ..Default::default()
    };
    assert_eq!(t.etag(), format!("{CURRENT_VERSION}.p.12"));
    let mut m = ThreadMembership {
        post_id: new_id(),
        user_id: new_id(),
        ..Default::default()
    };
    assert!(m.is_valid().is_ok());
    m.user_id = "x".into();
    assert_eq!(
        m.is_valid().unwrap_err().id,
        "model.thread.is_valid.user_id.app_error"
    );
    m.post_id = "x".into();
    assert_eq!(
        m.is_valid().unwrap_err().id,
        "model.thread.is_valid.post_id.app_error"
    );
}

#[test]
fn plugins_that_do_not_count() {
    assert!(is_ignored_plugin(PLUGIN_ID_CALLS));
    assert!(!is_ignored_plugin("com.example.plugin"));
}
