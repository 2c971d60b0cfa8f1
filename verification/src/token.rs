//! Tokens that can be used once: to recover a password, to verify an address, to accept an
//! invitation, to log in by a link.

use vstd::prelude::*;

use crate::text::{byte_len, cat, same};
use crate::utils::{get_millis, new_random_string, AppError, AppResult};

verus! {

/// The number of characters of a token.
pub const TOKEN_SIZE: usize = 64;

/// 48 hours in milliseconds.
pub const MAX_TOKEN_EXPIRY_TIME: i64 = 172_800_000;

/// 24 hours in milliseconds.
pub const PASSWORD_RECOVER_EXPIRY_TIME: i64 = 86_400_000;

/// 48 hours in milliseconds.
pub const INVITATION_EXPIRY_TIME: i64 = 172_800_000;

/// Five minutes in milliseconds.
pub const MAGIC_LINK_EXPIRY_TIME: i64 = 300_000;

pub const TOKEN_TYPE_PASSWORD_RECOVERY: &'static str = "password_recovery";

pub const TOKEN_TYPE_VERIFY_EMAIL: &'static str = "verify_email";

pub const TOKEN_TYPE_TEAM_INVITATION: &'static str = "team_invitation";

pub const TOKEN_TYPE_GUEST_INVITATION: &'static str = "guest_invitation";

pub const TOKEN_TYPE_CWS_ACCESS: &'static str = "cws_access_token";

pub const TOKEN_TYPE_GUEST_MAGIC_LINK_INVITATION: &'static str = "guest_magic_link_invitation";

pub const TOKEN_TYPE_GUEST_MAGIC_LINK: &'static str = "guest_magic_link";

pub const TOKEN_TYPE_OAUTH: &'static str = "oauth";

pub const TOKEN_TYPE_SAML: &'static str = "saml";

pub const TOKEN_TYPE_SSO_CODE_EXCHANGE: &'static str = "sso-code-exchange";

/// A token that can be used once.
#[derive(Debug, Clone, Default, PartialEq, Eq)]
pub struct Token {
    pub token: String,
    pub create_at: i64,
    pub type_: String,
    /// What the token is about, such as an address or a team.
    pub extra: String,
}

/// How long tokens of a type live, in milliseconds. What has no time of its own lives longest.
pub open spec fn lifetime(type_: Seq<char>) -> int {
    if type_ == TOKEN_TYPE_GUEST_MAGIC_LINK@ {
        MAGIC_LINK_EXPIRY_TIME as int
    } else if type_ == TOKEN_TYPE_GUEST_MAGIC_LINK_INVITATION@ || type_
        == TOKEN_TYPE_TEAM_INVITATION@ || type_ == TOKEN_TYPE_GUEST_INVITATION@ {
        INVITATION_EXPIRY_TIME as int
    } else if type_ == TOKEN_TYPE_PASSWORD_RECOVERY@ || type_ == TOKEN_TYPE_VERIFY_EMAIL@ {
        PASSWORD_RECOVER_EXPIRY_TIME as int
    } else {
        MAX_TOKEN_EXPIRY_TIME as int
    }
}

fn lifetime_of(type_: &str) -> (r: i64)
    ensures
        r == lifetime(type_@),
        0 < r <= MAX_TOKEN_EXPIRY_TIME,
{
    if same(type_, TOKEN_TYPE_GUEST_MAGIC_LINK) {
        MAGIC_LINK_EXPIRY_TIME
    } else if same(type_, TOKEN_TYPE_GUEST_MAGIC_LINK_INVITATION) || same(
        type_,
        TOKEN_TYPE_TEAM_INVITATION,
    ) || same(type_, TOKEN_TYPE_GUEST_INVITATION) {
        INVITATION_EXPIRY_TIME
    } else if same(type_, TOKEN_TYPE_PASSWORD_RECOVERY) || same(type_, TOKEN_TYPE_VERIFY_EMAIL) {
        PASSWORD_RECOVER_EXPIRY_TIME
    } else {
        MAX_TOKEN_EXPIRY_TIME
    }
}

/// The error of a token.
pub open spec fn token_fault(suffix: Seq<char>) -> crate::utils::ErrorModel {
    crate::utils::plain_error("Token.IsValid"@, "model.token.is_valid."@ + suffix, ""@, 500)
}

fn token_error(suffix: &str) -> (e: Box<AppError>)
    ensures
        e@ == token_fault(suffix@),
{
    let id: String = cat("model.token.is_valid.", suffix);
    AppError::boxed("Token.IsValid", id.as_str(), None, "", 500)
}

impl Token {
    /// A new token of an instant.
    pub fn new_at(token_type: &str, extra: &str, now: i64) -> (t: Token)
        ensures
            crate::utils::is_random_text(t.token@, TOKEN_SIZE as nat),
            t.create_at == now,
            t.type_@ == token_type@,
            t.extra@ == extra@,
    {
        Token {
            token: new_random_string(TOKEN_SIZE),
            create_at: now,
            type_: token_type.to_string(),
            extra: extra.to_string(),
        }
    }

    /// A new token.
    pub fn new(token_type: &str, extra: &str) -> (t: Token)
        ensures
            crate::utils::is_random_text(t.token@, TOKEN_SIZE as nat),
            crate::utils::is_clock(t.create_at as int),
            t.type_@ == token_type@,
            t.extra@ == extra@,
    {
        let now: i64 = get_millis();
        Token::new_at(token_type, extra, now)
    }

    /// The first thing that is wrong with the token.
    pub open spec fn fault(&self) -> Option<crate::utils::ErrorModel> {
        if crate::text::utf8_len(self.token@) != TOKEN_SIZE {
            Some(token_fault("size"@))
        } else if self.create_at == 0 {
            Some(token_fault("expiry"@))
        } else {
            None
        }
    }

    /// Whether the token is in order.
    pub fn is_valid(&self) -> (r: AppResult)
        ensures
            crate::utils::fault_of(r) == self.fault(),
    {
        if byte_len(self.token.as_str()) != TOKEN_SIZE {
            return Err(token_error("size"));
        }
        if self.create_at == 0 {
            return Err(token_error("expiry"));
        }
        Ok(())
    }

    /// Whether the token can no longer be used at an instant.
    pub open spec fn expired(&self, now: int) -> bool {
        now > self.create_at + lifetime(self.type_@)
    }

    /// Whether the token can no longer be used at an instant.
    pub fn is_expired_at(&self, now: i64) -> (r: bool)
        requires
            self.create_at + lifetime(self.type_@) <= i64::MAX,
        ensures
            r == self.expired(now as int),
    {
        let life: i64 = lifetime_of(self.type_.as_str());
        now > self.create_at + life
    }

    /// Whether the token can no longer be used.
    pub fn is_expired(&self) -> (r: bool)
        requires
            self.create_at + lifetime(self.type_@) <= i64::MAX,
        ensures
            exists|now: int| crate::utils::is_clock(now) && r == #[trigger] self.expired(now),
    {
        let now: i64 = get_millis();
        self.is_expired_at(now)
    }

    /// Whether the token lets a guest in by a link.
    pub fn is_guest_magic_link(&self) -> (r: bool)
        ensures
            r == (self.type_@ == TOKEN_TYPE_GUEST_MAGIC_LINK@ || self.type_@
                == TOKEN_TYPE_GUEST_MAGIC_LINK_INVITATION@),
    {
        same(self.type_.as_str(), TOKEN_TYPE_GUEST_MAGIC_LINK) || same(
            self.type_.as_str(),
            TOKEN_TYPE_GUEST_MAGIC_LINK_INVITATION,
        )
    }

    /// Whether the token is an invitation.
    pub fn is_invitation_token(&self) -> (r: bool)
        ensures
            r == (self.type_@ == TOKEN_TYPE_TEAM_INVITATION@ || self.type_@
                == TOKEN_TYPE_GUEST_INVITATION@ || self.type_@
                == TOKEN_TYPE_GUEST_MAGIC_LINK_INVITATION@),
    {
        same(self.type_.as_str(), TOKEN_TYPE_TEAM_INVITATION) || same(
            self.type_.as_str(),
            TOKEN_TYPE_GUEST_INVITATION,
        ) || same(self.type_.as_str(), TOKEN_TYPE_GUEST_MAGIC_LINK_INVITATION)
    }
}

/// A token that has just been made is in order and can be used, unless the clock stands at the
/// epoch.
pub proof fn new_tokens_are_valid(t: Token, now: int)
    requires
        crate::utils::is_random_text(t.token@, TOKEN_SIZE as nat),
        t.create_at == now,
        now != 0,
    ensures
        t.fault() is None,
        !t.expired(now),
{
    crate::utils::random_texts_are_ascii(t.token@, TOKEN_SIZE as nat);
}

/// A token that cannot be used stays so.
pub proof fn expired_tokens_stay_expired(t: Token, now: int, later: int)
    requires
        t.expired(now),
        now <= later,
    ensures
        t.expired(later),
{
}

/// A token can be used through the last millisecond of its life and no longer: five minutes for a
/// link that lets a guest in, a day to recover a password or to verify an address, two days
/// otherwise.
pub proof fn tokens_live_this_long(t: Token)
    ensures
        ({
            let day: int = 86_400_000;
            let life: int = if t.type_@ == "guest_magic_link"@ {
                300_000
            } else if t.type_@ == "password_recovery"@ || t.type_@ == "verify_email"@ {
                day
            } else {
                2 * day
            };
            &&& !t.expired(t.create_at + life)
            &&& t.expired(t.create_at + life + 1)
        }),
{
    reveal_strlit("guest_magic_link");
    reveal_strlit("password_recovery");
    reveal_strlit("verify_email");
    reveal_strlit("guest_magic_link_invitation");
    reveal_strlit("team_invitation");
    reveal_strlit("guest_invitation");
    assert("verify_email"@.len() == 12 && "password_recovery"@.len() == 17);
    assert("guest_magic_link"@.len() == 16 && "guest_magic_link_invitation"@.len() == 27);
    assert("team_invitation"@.len() == 15);
    assert("guest_invitation"@[6] == 'i' && "guest_magic_link"@[6] == 'm');
}

/// A token is in order if it has 64 bytes and a time.
pub proof fn valid_tokens(t: Token)
    ensures
        (t.fault() is None) == (crate::text::utf8_len(t.token@) == 64 && t.create_at != 0),
{
}

/// Where one field alone has to change for a token to be in order, the error is that
/// of the field.
pub proof fn faults_of_a_token_are_named(bad: Token, good: Token)
    requires
        bad.fault() is Some,
        good.fault() is None,
    ensures
        good == (Token { token: good.token, ..bad }) ==> crate::utils::reports(
            bad.fault()->0,
            "Token.IsValid"@,
            "model.token.is_valid."@ + "size"@,
            ""@,
            500,
        ),
        good == (Token { create_at: good.create_at, ..bad }) ==> crate::utils::reports(
            bad.fault()->0,
            "Token.IsValid"@,
            "model.token.is_valid."@ + "expiry"@,
            ""@,
            500,
        ),
{
}

/// What is wrong with the first fields of a token is reported whatever the fields behind
/// them are.
pub proof fn faults_of_a_token_come_in_order(all: Token, good: Token)
    requires
        good.fault() is None,
    ensures
        ({
            let first = Token { token: all.token, ..good };
            first.fault() is Some ==> all.fault() == first.fault()
        }),
        ({
            let first = Token { token: all.token, create_at: all.create_at, ..good };
            first.fault() is Some ==> all.fault() == first.fault()
        }),
{
}

} // verus!
