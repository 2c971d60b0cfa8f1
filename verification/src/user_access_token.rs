//! Tokens by which programs act for users.

use vstd::prelude::*;

use crate::text::{byte_len, cat3};
use crate::utils::{get_millis, is_valid_id, new_id, AppError, AppResult, ID_LENGTH};

verus! {

pub const USER_ACCESS_TOKEN_DESCRIPTION_MAX_LENGTH: usize = 255;

/// How many tokens break the rules.
#[derive(Debug, Clone, Copy, Default, PartialEq, Eq)]
pub struct NonCompliantUserAccessTokenResult {
    pub count: i64,
}

/// A search for tokens.
#[derive(Debug, Clone, Default, PartialEq, Eq)]
pub struct UserAccessTokenSearch {
    pub term: String,
}

/// A token by which a program acts for a user.
#[derive(Debug, Clone, Default, PartialEq, Eq)]
pub struct UserAccessToken {
    pub id: String,
    pub token: String,
    pub user_id: String,
    pub description: String,
    pub is_active: bool,
    pub expires_at: i64,
    /// When the user was told last that the token will expire. It is never sent.
    pub last_notified_at: Option<i64>,
}

/// The error of a field of a token.
pub open spec fn access_fault(field: Seq<char>) -> crate::utils::ErrorModel {
    crate::utils::plain_error(
        "UserAccessToken.IsValid"@,
        "model.user_access_token.is_valid."@ + field + ".app_error"@,
        ""@,
        400,
    )
}

fn access_error(field: &str) -> (e: Box<AppError>)
    ensures
        e@ == access_fault(field@),
{
    let id: String = cat3("model.user_access_token.is_valid.", field, ".app_error");
    AppError::boxed("UserAccessToken.IsValid", id.as_str(), None, "", 400)
}

impl UserAccessToken {
    /// The first thing that is wrong with the token.
    pub open spec fn fault(&self) -> Option<crate::utils::ErrorModel> {
        if !crate::utils::valid_id(self.id@) {
            Some(access_fault("id"@))
        } else if crate::text::utf8_len(self.token@) != ID_LENGTH {
            Some(access_fault("token"@))
        } else if !crate::utils::valid_id(self.user_id@) {
            Some(access_fault("user_id"@))
        } else if crate::text::utf8_len(self.description@)
            > USER_ACCESS_TOKEN_DESCRIPTION_MAX_LENGTH {
            Some(access_fault("description"@))
        } else if self.expires_at < 0 {
            Some(access_fault("expires_at"@))
        } else {
            None
        }
    }

    /// Whether the token is in order. One that has expired may be.
    pub fn is_valid(&self) -> (r: AppResult)
        ensures
            crate::utils::fault_of(r) == self.fault(),
    {
        if !is_valid_id(self.id.as_str()) {
            return Err(access_error("id"));
        }
        if byte_len(self.token.as_str()) != ID_LENGTH {
            return Err(access_error("token"));
        }
        if !is_valid_id(self.user_id.as_str()) {
            return Err(access_error("user_id"));
        }
        if byte_len(self.description.as_str()) > USER_ACCESS_TOKEN_DESCRIPTION_MAX_LENGTH {
            return Err(access_error("description"));
        }
        if self.expires_at < 0 {
            return Err(access_error("expires_at"));
        }
        Ok(())
    }

    /// Makes the token ready for storing: with a new id, whatever it had before, and active.
    pub fn pre_save(&mut self)
        ensures
            *final(self) == (UserAccessToken {
                id: final(self).id,
                is_active: true,
                ..*old(self)
            }),
            crate::utils::is_random_text(final(self).id@, 26),
            crate::utils::valid_id(final(self).id@),
    {
        self.id = new_id();
        self.is_active = true;
    }

    /// Whether the token can no longer be used at an instant: from the millisecond on at which it
    /// expires, and never if that is no time after the epoch.
    pub open spec fn expired(&self, now: int) -> bool {
        0 < self.expires_at <= now
    }

    /// Whether the token can no longer be used at an instant.
    pub fn is_expired_at(&self, now: i64) -> (r: bool)
        ensures
            r == self.expired(now as int),
    {
        0 < self.expires_at && self.expires_at <= now
    }

    /// Whether the token can no longer be used.
    pub fn is_expired(&self) -> (r: bool)
        ensures
            exists|now: int| crate::utils::is_clock(now) && r == #[trigger] self.expired(now),
            self.expires_at <= 0 ==> !r,
    {
        let now: i64 = get_millis();
        self.is_expired_at(now)
    }
}

/// A token that cannot be used stays so.
pub proof fn expired_tokens_stay_expired(t: UserAccessToken, now: int, later: int)
    requires
        t.expired(now),
        now <= later,
    ensures
        t.expired(later),
{
}

/// A token can be used until the millisecond at which it expires; one without such a time always.
pub proof fn access_tokens_end_in_time(t: UserAccessToken, now: int)
    ensures
        t.expires_at > 0 ==> t.expired(t.expires_at as int) && !t.expired(t.expires_at - 1),
        t.expires_at <= 0 ==> !t.expired(now),
        t.expires_at > 0 && now < t.expires_at ==> !t.expired(now),
{
}

/// A token is in order if and only if all of these hold.
pub proof fn valid_access_tokens(t: UserAccessToken)
    ensures
        (t.fault() is None) == (crate::utils::valid_id(t.id@) && crate::text::utf8_len(t.token@) == 26
            && crate::utils::valid_id(t.user_id@) && crate::text::utf8_len(t.description@) <= 255
            && t.expires_at >= 0),
{
}

/// Where one field alone has to change for an access token to be in order, the error is that
/// of the field.
pub proof fn faults_of_an_access_token_are_named(bad: UserAccessToken, good: UserAccessToken)
    requires
        bad.fault() is Some,
        good.fault() is None,
    ensures
        good == (UserAccessToken { id: good.id, ..bad }) ==> crate::utils::reports(
            bad.fault()->0,
            "UserAccessToken.IsValid"@,
            "model.user_access_token.is_valid."@ + "id"@ + ".app_error"@,
            ""@,
            400,
        ),
        good == (UserAccessToken { token: good.token, ..bad }) ==> crate::utils::reports(
            bad.fault()->0,
            "UserAccessToken.IsValid"@,
            "model.user_access_token.is_valid."@ + "token"@ + ".app_error"@,
            ""@,
            400,
        ),
        good == (UserAccessToken { user_id: good.user_id, ..bad }) ==> crate::utils::reports(
            bad.fault()->0,
            "UserAccessToken.IsValid"@,
            "model.user_access_token.is_valid."@ + "user_id"@ + ".app_error"@,
            ""@,
            400,
        ),
        good == (UserAccessToken { description: good.description, ..bad }) ==> crate::utils::reports(
            bad.fault()->0,
            "UserAccessToken.IsValid"@,
            "model.user_access_token.is_valid."@ + "description"@ + ".app_error"@,
            ""@,
            400,
        ),
        good == (UserAccessToken { expires_at: good.expires_at, ..bad }) ==> crate::utils::reports(
            bad.fault()->0,
            "UserAccessToken.IsValid"@,
            "model.user_access_token.is_valid."@ + "expires_at"@ + ".app_error"@,
            ""@,
            400,
        ),
{
}

/// What is wrong with the first fields of an access token is reported whatever the fields behind
/// them are.
pub proof fn faults_of_an_access_token_come_in_order(all: UserAccessToken, good: UserAccessToken)
    requires
        good.fault() is None,
    ensures
        ({
            let first = UserAccessToken { id: all.id, ..good };
            first.fault() is Some ==> all.fault() == first.fault()
        }),
        ({
            let first = UserAccessToken { id: all.id, token: all.token, ..good };
            first.fault() is Some ==> all.fault() == first.fault()
        }),
        ({
            let first = UserAccessToken {
                id: all.id,
                token: all.token,
                user_id: all.user_id,
                ..good
            };
            first.fault() is Some ==> all.fault() == first.fault()
        }),
        ({
            let first = UserAccessToken {
                id: all.id,
                token: all.token,
                user_id: all.user_id,
                description: all.description,
                ..good
            };
            first.fault() is Some ==> all.fault() == first.fault()
        }),
        ({
            let first = UserAccessToken {
                id: all.id,
                token: all.token,
                user_id: all.user_id,
                description: all.description,
                expires_at: all.expires_at,
                ..good
            };
            first.fault() is Some ==> all.fault() == first.fault()
        }),
{
}

} // verus!
