//! Users: the account record, its patches, its validation and what of it each viewer sees.

pub mod external;
pub mod laws;
pub mod locale;

use vstd::prelude::*;
use vstd::string::StrSliceExecFns;
use vstd::string::StringExecFns;

use crate::pattern::{regex_is_match, REMOTE_USERNAME, USERNAME};
use crate::status::STATUS_ONLINE;
use crate::str_map::{
    clone_opt_string_map, insert_text, new_string_map, StrMap, StringMap,
};
use crate::text::{
    byte_len, cat, cat3, cat4, decimal_text, join_strings, same, split_at_char, split_fields,
    to_chars, trimmed,
};
use crate::user::external::{
    SERVICE_GITLAB, SERVICE_GOOGLE, SERVICE_OFFICE365, SERVICE_OPENID, SHOW_FULL_NAME,
    SHOW_NICKNAME_FULL_NAME, SYSTEM_ADMIN_ROLE_ID, SYSTEM_GUEST_ROLE_ID,
    USER_AUTH_SERVICE_LDAP, USER_AUTH_SERVICE_SAML, USER_ORIGINAL_REMOTE_ID_UNKNOWN,
    USER_PROPS_KEY_CUSTOM_STATUS, USER_PROPS_KEY_ORIGINAL_REMOTE_ID, USER_PROPS_KEY_REMOTE_EMAIL,
};
use crate::utils::{
    bool_text, etag, get_millis, is_valid_email, is_valid_id, new_id, new_username,
    sanitize_unicode, to_lower, AppError, AppResult, StringArray,
};
use crate::value::{
    parse_document, shown_text, string_map_value, string_map_wire_text, Value,
};

pub use crate::user::locale::{is_valid_locale, USER_LOCALE_MAX_LENGTH};

verus! {

pub const ME: &'static str = "me";

pub const USER_NOTIFY_ALL: &'static str = "all";

pub const USER_NOTIFY_HERE: &'static str = "here";

pub const USER_NOTIFY_MENTION: &'static str = "mention";

pub const USER_NOTIFY_NONE: &'static str = "none";

pub const DESKTOP_NOTIFY_PROP: &'static str = "desktop";

pub const DESKTOP_SOUND_NOTIFY_PROP: &'static str = "desktop_sound";

pub const MARK_UNREAD_NOTIFY_PROP: &'static str = "mark_unread";

pub const PUSH_NOTIFY_PROP: &'static str = "push";

pub const PUSH_STATUS_NOTIFY_PROP: &'static str = "push_status";

pub const EMAIL_NOTIFY_PROP: &'static str = "email";

pub const CHANNEL_MENTIONS_NOTIFY_PROP: &'static str = "channel";

pub const COMMENTS_NOTIFY_PROP: &'static str = "comments";

pub const MENTION_KEYS_NOTIFY_PROP: &'static str = "mention_keys";

pub const HIGHLIGHTS_NOTIFY_PROP: &'static str = "highlight_keys";

pub const COMMENTS_NOTIFY_NEVER: &'static str = "never";

pub const COMMENTS_NOTIFY_ROOT: &'static str = "root";

pub const COMMENTS_NOTIFY_ANY: &'static str = "any";

pub const COMMENTS_NOTIFY_CRT: &'static str = "crt";

pub const FIRST_NAME_NOTIFY_PROP: &'static str = "first_name";

pub const AUTO_RESPONDER_ACTIVE_NOTIFY_PROP: &'static str = "auto_responder_active";

pub const AUTO_RESPONDER_MESSAGE_NOTIFY_PROP: &'static str = "auto_responder_message";

pub const DESKTOP_THREADS_NOTIFY_PROP: &'static str = "desktop_threads";

pub const PUSH_THREADS_NOTIFY_PROP: &'static str = "push_threads";

pub const EMAIL_THREADS_NOTIFY_PROP: &'static str = "email_threads";

pub const CHANNEL_MENTION_AUTO_FOLLOW_THREADS_PROP: &'static str =
    "channel_mention_auto_follow_threads";

pub const DEFAULT_LOCALE: &'static str = "en";

pub const USER_AUTH_SERVICE_EMAIL: &'static str = "email";

pub const USER_AUTH_SERVICE_MAGIC_LINK: &'static str = "magic_link";

/// In bytes.
pub const USER_EMAIL_MAX_LENGTH: usize = 128;

/// In characters.
pub const USER_NICKNAME_MAX_RUNES: usize = 64;

/// In characters.
pub const USER_POSITION_MAX_RUNES: usize = 128;

/// In characters.
pub const USER_FIRST_NAME_MAX_RUNES: usize = 64;

/// In characters.
pub const USER_LAST_NAME_MAX_RUNES: usize = 64;

/// In bytes.
pub const USER_AUTH_DATA_MAX_LENGTH: usize = 128;

/// In bytes.
pub const USER_NAME_MAX_LENGTH: usize = 64;

/// In bytes.
pub const USER_NAME_MIN_LENGTH: usize = 1;

pub const USER_PASSWORD_MAX_LENGTH: usize = 72;

/// In characters of the wire form.
pub const USER_TIMEZONE_MAX_RUNES: usize = 256;

/// In bytes.
pub const USER_ROLES_MAX_LENGTH: usize = 256;

/// A user account.
///
/// A missing map and an empty one differ: `props` and `notify_props` are created on first use, and
/// the custom status is checked only where `props` is there. Authentication data that is the empty
/// text differs from none: it is what a viewer sees of data withheld from them.
#[derive(Debug, Clone, Default, PartialEq, Eq)]
pub struct User {
    pub id: String,
    pub create_at: i64,
    pub update_at: i64,
    pub delete_at: i64,
    pub username: String,
    pub password: String,
    pub auth_data: Option<String>,
    pub auth_service: String,
    pub email: String,
    pub email_verified: bool,
    pub nickname: String,
    pub first_name: String,
    pub last_name: String,
    pub position: String,
    pub roles: String,
    pub allow_marketing: bool,
    pub props: Option<StringMap>,
    pub notify_props: Option<StringMap>,
    pub last_password_update: i64,
    pub last_picture_update: i64,
    pub failed_attempts: i64,
    pub locale: String,
    pub timezone: Option<StringMap>,
    pub mfa_active: bool,
    pub mfa_secret: String,
    pub remote_id: Option<String>,
    pub last_activity_at: i64,
    pub is_bot: bool,
    pub bot_description: String,
    pub bot_last_icon_update: i64,
    pub terms_of_service_id: String,
    pub terms_of_service_create_at: i64,
    pub disable_welcome_email: bool,
    pub last_login: i64,
    pub mfa_used_timestamps: Option<StringArray>,
}

/// A change to a user: what is absent stays as it is.
#[derive(Debug, Clone, Default, PartialEq, Eq)]
pub struct UserPatch {
    pub username: Option<String>,
    pub password: Option<String>,
    pub nickname: Option<String>,
    pub first_name: Option<String>,
    pub last_name: Option<String>,
    pub position: Option<String>,
    pub email: Option<String>,
    pub props: Option<StringMap>,
    pub notify_props: Option<StringMap>,
    pub locale: Option<String>,
    pub timezone: Option<StringMap>,
    pub remote_id: Option<String>,
}

/// How a user authenticates.
#[derive(Debug, Clone, Default, PartialEq, Eq)]
pub struct UserAuth {
    pub auth_data: Option<String>,
    pub auth_service: String,
}

/// What the search index keeps of a user.
#[derive(Debug, Clone, Default, PartialEq, Eq)]
pub struct UserForIndexing {
    pub id: String,
    pub username: String,
    pub nickname: String,
    pub first_name: String,
    pub last_name: String,
    pub roles: String,
    pub create_at: i64,
    pub delete_at: i64,
    pub teams_ids: Vec<String>,
    pub channels_ids: Vec<String>,
}

/// The teams and channels outside of which a viewer sees no users.
#[derive(Debug, Clone, Default, PartialEq, Eq)]
pub struct ViewUsersRestrictions {
    pub teams: Vec<String>,
    pub channels: Vec<String>,
}

// ---------------------------------------------------------------------------------------------
// Services and names
// ---------------------------------------------------------------------------------------------

/// The services through which a user may authenticate.
pub open spec fn valid_auth_service(s: Seq<char>) -> bool {
    s == USER_AUTH_SERVICE_EMAIL@ || s == USER_AUTH_SERVICE_LDAP@ || s == USER_AUTH_SERVICE_SAML@
        || oauth_service(s)
}

/// The services that speak OAuth.
pub open spec fn oauth_service(s: Seq<char>) -> bool {
    s == SERVICE_GITLAB@ || s == SERVICE_GOOGLE@ || s == SERVICE_OFFICE365@ || s == SERVICE_OPENID@
}

/// Whether a service is one through which a user may authenticate.
pub fn is_valid_user_auth_service(service: &str) -> (r: bool)
    ensures
        r == valid_auth_service(service@),
{
    same(service, USER_AUTH_SERVICE_EMAIL) || same(service, USER_AUTH_SERVICE_LDAP) || same(
        service,
        USER_AUTH_SERVICE_SAML,
    ) || same(service, SERVICE_GITLAB) || same(service, SERVICE_GOOGLE) || same(
        service,
        SERVICE_OFFICE365,
    ) || same(service, SERVICE_OPENID)
}

/// The text inside an option, empty where there is none.
pub open spec fn text_or_empty(s: Option<String>) -> Seq<char> {
    match s {
        Some(t) => t@,
        None => Seq::empty(),
    }
}

fn str_or_empty<'a>(s: &'a Option<String>) -> (r: &'a str)
    ensures
        r@ == text_or_empty(*s),
{
    match s {
        Some(t) => t.as_str(),
        None => {
            proof {
                reveal_strlit("");
            }
            let r: &'a str = "";
            assert(r@ == Seq::<char>::empty());
            r
        },
    }
}

impl UserAuth {
    /// Whether the service and the data go together: mail carries no data, every other service
    /// carries some.
    pub fn is_valid(&self) -> (r: bool)
        ensures
            r == (valid_auth_service(self.auth_service@) && if self.auth_service@
                == USER_AUTH_SERVICE_EMAIL@ {
                self.auth_data is None
            } else {
                text_or_empty(self.auth_data).len() > 0
            }),
    {
        if !is_valid_user_auth_service(self.auth_service.as_str()) {
            return false;
        }
        if same(self.auth_service.as_str(), USER_AUTH_SERVICE_EMAIL) {
            return self.auth_data.is_none();
        }
        !str_or_empty(&self.auth_data).is_empty()
    }
}

/// Names that no user may have.
pub open spec fn restricted_username(s: Seq<char>) -> bool {
    s == "all"@ || s == "channel"@ || s == "matterbot"@ || s == "system"@
}

fn is_restricted_username(s: &str) -> (r: bool)
    ensures
        r == restricted_username(s@),
{
    same(s, "all") || same(s, "channel") || same(s, "matterbot") || same(s, "system")
}

/// Whether a name has an accepted number of bytes and is not restricted.
pub open spec fn username_frame(s: Seq<char>) -> bool {
    USER_NAME_MIN_LENGTH <= crate::text::utf8_len(s) <= USER_NAME_MAX_LENGTH
        && !restricted_username(s)
}

/// A name of a local user: lower-case letters, digits, dots, hyphens and underscores.
pub open spec fn valid_username(s: Seq<char>) -> bool {
    username_frame(s) && forall|i: int|
        0 <= i < s.len() ==> crate::pattern::username_char(#[trigger] s[i])
}

/// A name of a remote user, which may hold colons too.
pub open spec fn valid_remote_username(s: Seq<char>) -> bool {
    username_frame(s) && forall|i: int|
        0 <= i < s.len() ==> crate::pattern::username_char(#[trigger] s[i]) || s[i] == ':'
}

/// The empty text takes no bytes.
proof fn lemma_utf8_len_empty(s: Seq<char>)
    requires
        s.len() == 0,
    ensures
        crate::text::utf8_len(s) == 0,
{
}

/// Whether a text is a name of a local user.
pub fn is_valid_username(s: &str) -> (r: bool)
    ensures
        r == valid_username(s@),
{
    let n: usize = byte_len(s);
    if n < USER_NAME_MIN_LENGTH || n > USER_NAME_MAX_LENGTH {
        return false;
    }
    proof {
        if s@.len() == 0 {
            lemma_utf8_len_empty(s@);
        }
    }
    if !regex_is_match(USERNAME, s) {
        return false;
    }
    !is_restricted_username(s)
}

/// Whether a text is a name of a remote user.
pub fn is_valid_username_allow_remote(s: &str) -> (r: bool)
    ensures
        r == valid_remote_username(s@),
{
    let n: usize = byte_len(s);
    if n < USER_NAME_MIN_LENGTH || n > USER_NAME_MAX_LENGTH {
        return false;
    }
    if !regex_is_match(REMOTE_USERNAME, s) {
        return false;
    }
    !is_restricted_username(s)
}

/// Every name of a local user is a name of a remote user.
pub proof fn local_names_are_remote_names(s: Seq<char>)
    requires
        valid_username(s),
    ensures
        valid_remote_username(s),
{
}

/// A user name in lower case.
pub fn normalize_username(username: &str) -> (r: String)
    ensures
        r@ == crate::utils::lower(username@),
{
    to_lower(username)
}

/// A mail address in lower case.
pub fn normalize_email(email: &str) -> (r: String)
    ensures
        r@ == crate::utils::lower(email@),
{
    to_lower(email)
}

/// Whether a role stands in a list of roles with single blanks between them.
pub open spec fn in_roles(roles: Seq<char>, role: Seq<char>) -> bool {
    crate::text::split_on(roles, ' ').contains(role)
}

/// Whether a role stands in a list of roles. The list is cut at each blank and at nothing else.
pub fn is_in_role(user_roles: &str, in_role: &str) -> (r: bool)
    ensures
        r == in_roles(user_roles@, in_role@),
{
    crate::user::locale::is_listed(user_roles, in_role)
}

/// The error of a field of a user that holds what it must not.
pub open spec fn user_fault(
    field: Seq<char>,
    user_id: Seq<char>,
    value: Seq<char>,
) -> crate::utils::ErrorModel {
    crate::utils::plain_error(
        "User.IsValid"@,
        "model.user.is_valid."@ + field + ".app_error"@,
        if user_id.len() == 0 {
            " "@ + field + "="@ + value
        } else {
            "user_id="@ + user_id + " "@ + field + "="@ + value
        },
        400,
    )
}

/// The error of a field of a user that holds what it must not. Without an id the details begin
/// with a blank.
pub fn invalid_user_error(field_name: &str, user_id: &str, field_value: &str) -> (e: AppError)
    ensures
        e@ == user_fault(field_name@, user_id@, field_value@),
{
    let id: String = cat3("model.user.is_valid.", field_name, ".app_error");
    let details: String = if user_id.is_empty() {
        cat4(" ", field_name, "=", field_value)
    } else {
        let head: String = cat3("user_id=", user_id, " ");
        cat4(head.as_str(), field_name, "=", field_value)
    };
    AppError::new("User.IsValid", id.as_str(), None, details.as_str(), 400)
}

// ---------------------------------------------------------------------------------------------
// Maps of a user
// ---------------------------------------------------------------------------------------------

/// The text under a key of an optional map.
pub open spec fn prop(m: Option<StringMap>, key: Seq<char>) -> Option<Seq<char>> {
    match m {
        Some(x) => if x@.dom().contains(key) {
            Some(x@[key]@)
        } else {
            None
        },
        None => None,
    }
}

/// The view of an optional text slice.
pub open spec fn opt_str(s: Option<&str>) -> Option<Seq<char>> {
    match s {
        Some(t) => Some(t@),
        None => None,
    }
}

/// A map with one entry set and all others kept. It is created where there was none.
pub open spec fn prop_set(
    new: Option<StringMap>,
    old: Option<StringMap>,
    key: Seq<char>,
    value: Seq<char>,
) -> bool {
    crate::str_map::opt_texts(new) == Some(crate::str_map::texts_or_empty(old).insert(key, value))
}

fn get_text<'a>(m: &'a Option<StringMap>, key: &str) -> (r: Option<&'a str>)
    ensures
        opt_str(r) == prop(*m, key@),
{
    match m {
        Some(x) => match x.get(key) {
            Some(v) => Some(v.as_str()),
            None => None,
        },
        None => None,
    }
}

fn set_text(m: &mut Option<StringMap>, key: &str, value: &str)
    ensures
        prop_set(*final(m), *old(m), key@, value@),
{
    let taken: Option<StringMap> = m.take();
    let mut x: StringMap = match taken {
        Some(x) => x,
        None => new_string_map(),
    };
    insert_text(&mut x, key, value);
    *m = Some(x);
}

fn ensure_map(m: &mut Option<StringMap>)
    ensures
        created(*final(m), *old(m)),
{
    if m.is_none() {
        *m = Some(new_string_map());
    }
}

/// A map that was there is the same; one that was not is there and empty.
pub open spec fn created(new: Option<StringMap>, old: Option<StringMap>) -> bool {
    match old {
        Some(_) => new == old,
        None => new is Some && new->0@ == Map::<Seq<char>, String>::empty(),
    }
}

/// The notifications that a new user gets.
pub open spec fn default_notifications() -> Map<Seq<char>, Seq<char>> {
    Map::<Seq<char>, Seq<char>>::empty().insert(EMAIL_NOTIFY_PROP@, "true"@).insert(
        PUSH_NOTIFY_PROP@,
        USER_NOTIFY_MENTION@,
    ).insert(DESKTOP_NOTIFY_PROP@, USER_NOTIFY_MENTION@).insert(
        DESKTOP_SOUND_NOTIFY_PROP@,
        "true"@,
    ).insert(MENTION_KEYS_NOTIFY_PROP@, ""@).insert(CHANNEL_MENTIONS_NOTIFY_PROP@, "true"@).insert(
        PUSH_STATUS_NOTIFY_PROP@,
        STATUS_ONLINE@,
    ).insert(COMMENTS_NOTIFY_PROP@, COMMENTS_NOTIFY_NEVER@).insert(
        FIRST_NAME_NOTIFY_PROP@,
        "false"@,
    ).insert(DESKTOP_THREADS_NOTIFY_PROP@, USER_NOTIFY_ALL@).insert(
        EMAIL_THREADS_NOTIFY_PROP@,
        USER_NOTIFY_ALL@,
    ).insert(PUSH_THREADS_NOTIFY_PROP@, USER_NOTIFY_ALL@).insert(
        CHANNEL_MENTION_AUTO_FOLLOW_THREADS_PROP@,
        "true"@,
    )
}

/// Whether a custom status is acceptable, given what its text is as JSON: no status and an empty
/// one are, and any document but `null`.
pub open spec fn status_accepted(status: Option<Seq<char>>, parsed: Option<bool>) -> bool {
    match status {
        None => true,
        Some(text) => text.len() == 0 || parsed == Some(false),
    }
}

/// Whether a custom status is acceptable, given what its text is as JSON.
pub fn custom_status_accepted(status: Option<&str>, parsed: Option<bool>) -> (r: bool)
    ensures
        r == status_accepted(opt_str(status), parsed),
{
    match status {
        None => true,
        Some(text) => text.is_empty() || match parsed {
            Some(is_null) => !is_null,
            None => false,
        },
    }
}

/// What a user's custom status is as JSON.
pub open spec fn status_document(props: Option<StringMap>) -> Option<bool> {
    match prop(props, USER_PROPS_KEY_CUSTOM_STATUS@) {
        Some(text) => crate::value::json_document(text),
        None => None,
    }
}

// ---------------------------------------------------------------------------------------------
// Mention keys
// ---------------------------------------------------------------------------------------------

/// The pieces without white space at their ends, the empty ones left out.
pub open spec fn trimmed_pieces(parts: Seq<Seq<char>>) -> Seq<Seq<char>>
    decreases parts.len(),
{
    if parts.len() == 0 {
        parts
    } else {
        let before = trimmed_pieces(parts.drop_last());
        let key = crate::text::trim(parts.last());
        if key.len() == 0 {
            before
        } else {
            before.push(key)
        }
    }
}

/// The keys but a user name and the same behind an at sign.
pub open spec fn keys_without(keys: Seq<Seq<char>>, name: Seq<char>) -> Seq<Seq<char>>
    decreases keys.len(),
{
    if keys.len() == 0 {
        keys
    } else {
        let before = keys_without(keys.drop_last(), name);
        if keys.last() == name || keys.last() == "@"@ + name {
            before
        } else {
            before.push(keys.last())
        }
    }
}

/// The pieces in lower case, the empty ones left out.
pub open spec fn lowered_pieces(parts: Seq<Seq<char>>) -> Seq<Seq<char>>
    decreases parts.len(),
{
    if parts.len() == 0 {
        parts
    } else {
        let before = lowered_pieces(parts.drop_last());
        if parts.last().len() == 0 {
            before
        } else {
            before.push(crate::utils::lower(parts.last()))
        }
    }
}

/// The mention keys of a user's notification settings.
pub open spec fn mention_keys(notify_props: Option<StringMap>) -> Seq<Seq<char>> {
    trimmed_pieces(
        crate::text::split_on(
            match prop(notify_props, MENTION_KEYS_NOTIFY_PROP@) {
                Some(raw) => raw,
                None => Seq::empty(),
            },
            ',',
        ),
    )
}

/// Mention keys as they are stored: each behind a comma.
pub open spec fn stored_keys(keys: Seq<Seq<char>>) -> Seq<char> {
    if keys.len() == 0 {
        Seq::empty()
    } else {
        ","@ + crate::text::join(keys, ","@)
    }
}

/// Mention keys after an update: lower case, without empty ones.
pub open spec fn cleaned_keys(raw: Seq<char>) -> Seq<char> {
    crate::text::join(lowered_pieces(crate::text::split_on(raw, ',')), ","@)
}

fn clean_keys(raw: &str) -> (r: String)
    ensures
        r@ == cleaned_keys(raw@),
{
    let parts: Vec<&str> = split_at_char(raw, ',');
    let ghost all = crate::text::split_on(raw@, ',');
    let mut kept: Vec<String> = Vec::new();
    let mut i: usize = 0;
    assert(all.take(0) == Seq::<Seq<char>>::empty());
    assert(crate::text::views(kept@) == Seq::<Seq<char>>::empty());
    while i < parts.len()
        invariant
            crate::text::views(parts@) == all,
            i <= parts@.len(),
            crate::text::views(kept@) == lowered_pieces(all.take(i as int)),
        decreases parts@.len() - i,
    {
        assert(all[i as int] == parts@[i as int]@);
        assert(all.take(i + 1).drop_last() == all.take(i as int));
        if !parts[i].is_empty() {
            let ghost before = kept@;
            let key: String = to_lower(parts[i]);
            let ghost k = key@;
            kept.push(key);
            assert(crate::text::views(kept@) == crate::text::views(before).push(k));
        }
        i = i + 1;
    }
    assert(all.take(i as int) == all);
    join_strings(kept.as_slice(), ",")
}

/// Authentication data that is the empty text counts as none.
pub open spec fn blank_to_none(s: Option<String>) -> Option<String> {
    if s is Some && s->0@.len() == 0 {
        None
    } else {
        s
    }
}

/// Whether a map is missing or empty.
pub open spec fn no_entries(m: Option<StringMap>) -> bool {
    match m {
        Some(x) => x@ == Map::<Seq<char>, String>::empty(),
        None => true,
    }
}

fn has_no_entries(m: &Option<StringMap>) -> (r: bool)
    ensures
        r == no_entries(*m),
{
    match m {
        Some(x) => x.is_empty(),
        None => true,
    }
}

/// Whether a flag is set in a map of flags.
pub open spec fn flagged(options: Map<Seq<char>, bool>, key: Seq<char>) -> bool {
    options.dom().contains(key) && options[key]
}

fn is_flagged(options: &StrMap<bool>, key: &str) -> (r: bool)
    ensures
        r == flagged(options@, key@),
{
    match options.get(key) {
        Some(b) => *b,
        None => false,
    }
}

/// A text that stays as it is or is emptied.
pub open spec fn kept_or_blank(keep: bool, new: String, old: String) -> bool {
    if keep {
        new == old
    } else {
        new@.len() == 0
    }
}

/// The data that is shown in place of what is withheld: the empty text, which is not none.
pub open spec fn withheld(s: Option<String>) -> bool {
    s is Some && s->0@.len() == 0
}

impl User {
    // -- roles and services -----------------------------------------------------------------

    /// The roles, cut at white space of any kind and length.
    pub fn get_roles(&self) -> (r: Vec<&str>)
        ensures
            crate::text::views(r@) == crate::text::fields(self.roles@),
    {
        split_fields(self.roles.as_str())
    }

    /// The roles as they are stored.
    pub fn get_raw_roles(&self) -> (r: &str)
        ensures
            r@ == self.roles@,
    {
        self.roles.as_str()
    }

    /// The entity tag of the user as one viewer sees them.
    pub fn etag(&self, show_full_name: bool, show_email: bool) -> (r: String)
        ensures
            r@ == crate::utils::entity_tag(
                seq![
                    self.id@,
                    crate::text::decimal(self.update_at as int),
                    self.terms_of_service_id@,
                    crate::text::decimal(self.terms_of_service_create_at as int),
                    crate::utils::bool_view(show_full_name),
                    crate::utils::bool_view(show_email),
                    crate::text::decimal(self.bot_last_icon_update as int),
                ],
            ),
    {
        let mut parts: Vec<String> = Vec::new();
        parts.push(self.id.clone());
        parts.push(decimal_text(self.update_at));
        parts.push(self.terms_of_service_id.clone());
        parts.push(decimal_text(self.terms_of_service_create_at));
        parts.push(bool_text(show_full_name));
        parts.push(bool_text(show_email));
        parts.push(decimal_text(self.bot_last_icon_update));
        assert(crate::text::views(parts@) == seq![
            self.id@,
            crate::text::decimal(self.update_at as int),
            self.terms_of_service_id@,
            crate::text::decimal(self.terms_of_service_create_at as int),
            crate::utils::bool_view(show_full_name),
            crate::utils::bool_view(show_email),
            crate::text::decimal(self.bot_last_icon_update as int),
        ]);
        etag(parts.as_slice())
    }

    /// Whether the user has a role.
    pub fn is_in_role(&self, in_role: &str) -> (r: bool)
        ensures
            r == in_roles(self.roles@, in_role@),
    {
        is_in_role(self.roles.as_str(), in_role)
    }

    /// Whether the user is a guest.
    pub fn is_guest(&self) -> (r: bool)
        ensures
            r == in_roles(self.roles@, SYSTEM_GUEST_ROLE_ID@),
    {
        is_in_role(self.roles.as_str(), SYSTEM_GUEST_ROLE_ID)
    }

    /// Whether the user administers the system.
    pub fn is_system_admin(&self) -> (r: bool)
        ensures
            r == in_roles(self.roles@, SYSTEM_ADMIN_ROLE_ID@),
    {
        is_in_role(self.roles.as_str(), SYSTEM_ADMIN_ROLE_ID)
    }

    /// Whether the user signs in by a link sent to them. Only guests do.
    pub fn is_magic_link_enabled(&self) -> (r: bool)
        ensures
            r == (self.auth_service@ == USER_AUTH_SERVICE_MAGIC_LINK@ && in_roles(
                self.roles@,
                SYSTEM_GUEST_ROLE_ID@,
            )),
    {
        same(self.auth_service.as_str(), USER_AUTH_SERVICE_MAGIC_LINK) && self.is_guest()
    }

    /// Whether the user signs in through a service other than mail.
    pub fn is_sso_user(&self) -> (r: bool)
        ensures
            r == (self.auth_service@.len() > 0 && self.auth_service@ != USER_AUTH_SERVICE_EMAIL@),
    {
        !self.auth_service.as_str().is_empty() && !same(
            self.auth_service.as_str(),
            USER_AUTH_SERVICE_EMAIL,
        )
    }

    /// Whether the user signs in through OAuth.
    pub fn is_oauth_user(&self) -> (r: bool)
        ensures
            r == oauth_service(self.auth_service@),
    {
        let service: &str = self.auth_service.as_str();
        same(service, SERVICE_GITLAB) || same(service, SERVICE_GOOGLE) || same(
            service,
            SERVICE_OFFICE365,
        ) || same(service, SERVICE_OPENID)
    }

    /// Whether the user signs in through LDAP.
    pub fn is_ldap_user(&self) -> (r: bool)
        ensures
            r == (self.auth_service@ == USER_AUTH_SERVICE_LDAP@),
    {
        same(self.auth_service.as_str(), USER_AUTH_SERVICE_LDAP)
    }

    /// Whether the user signs in through SAML.
    pub fn is_saml_user(&self) -> (r: bool)
        ensures
            r == (self.auth_service@ == USER_AUTH_SERVICE_SAML@),
    {
        same(self.auth_service.as_str(), USER_AUTH_SERVICE_SAML)
    }

    // -- remote users -----------------------------------------------------------------------

    /// Whether the user comes from another server.
    pub open spec fn remote(&self) -> bool {
        text_or_empty(self.remote_id).len() > 0
    }

    /// Whether the user comes from another server.
    pub fn is_remote(&self) -> (r: bool)
        ensures
            r == self.remote(),
    {
        !str_or_empty(&self.remote_id).is_empty()
    }

    /// The id of the server that the user comes from, empty for a local user.
    pub fn get_remote_id(&self) -> (r: &str)
        ensures
            r@ == text_or_empty(self.remote_id),
    {
        str_or_empty(&self.remote_id)
    }

    /// The authentication data, empty where there is none.
    pub fn get_auth_data(&self) -> (r: &str)
        ensures
            r@ == text_or_empty(self.auth_data),
    {
        str_or_empty(&self.auth_data)
    }

    /// The id of the server where the user was first created: as recorded, else unknown for a
    /// remote user and empty for a local one.
    pub fn get_original_remote_id(&self) -> (r: &str)
        ensures
            r@ == match prop(self.props, USER_PROPS_KEY_ORIGINAL_REMOTE_ID@) {
                Some(id) if id.len() > 0 => id,
                _ => if self.remote() {
                    USER_ORIGINAL_REMOTE_ID_UNKNOWN@
                } else {
                    Seq::empty()
                },
            },
    {
        let recorded: Option<&str> = get_text(&self.props, USER_PROPS_KEY_ORIGINAL_REMOTE_ID);
        if let Some(id) = recorded {
            if !id.is_empty() {
                return id;
            }
        }
        if self.is_remote() {
            USER_ORIGINAL_REMOTE_ID_UNKNOWN
        } else {
            proof {
                reveal_strlit("");
            }
            let r: &str = "";
            assert(r@ == Seq::<char>::empty());
            r
        }
    }

    // -- properties -------------------------------------------------------------------------

    /// The property of a name.
    pub fn get_prop(&self, name: &str) -> (r: Option<&str>)
        ensures
            opt_str(r) == prop(self.props, name@),
    {
        get_text(&self.props, name)
    }

    /// Sets a property. The map is created where there is none.
    pub fn set_prop(&mut self, name: &str, value: &str)
        ensures
            *final(self) == (User { props: final(self).props, ..*old(self) }),
            prop_set(final(self).props, old(self).props, name@, value@),
    {
        set_text(&mut self.props, name, value);
    }

    /// Creates the two maps where they are missing.
    pub fn make_non_nil(&mut self)
        ensures
            *final(self) == (User {
                props: final(self).props,
                notify_props: final(self).notify_props,
                ..*old(self)
            }),
            created(final(self).props, old(self).props),
            created(final(self).notify_props, old(self).notify_props),
    {
        ensure_map(&mut self.props);
        ensure_map(&mut self.notify_props);
    }

    /// Sets a notification setting. Both maps are created where they are missing.
    pub fn add_notify_prop(&mut self, key: &str, value: &str)
        ensures
            *final(self) == (User {
                props: final(self).props,
                notify_props: final(self).notify_props,
                ..*old(self)
            }),
            created(final(self).props, old(self).props),
            prop_set(final(self).notify_props, old(self).notify_props, key@, value@),
    {
        self.make_non_nil();
        proof {
            if old(self).notify_props is None {
                assert(crate::str_map::texts(self.notify_props->0@) == Map::<
                    Seq<char>,
                    Seq<char>,
                >::empty());
            }
        }
        set_text(&mut self.notify_props, key, value);
    }

    /// Stores a custom status by its JSON text. Both maps are created where they are missing.
    pub fn set_custom_status(&mut self, document: &str)
        ensures
            *final(self) == (User {
                props: final(self).props,
                notify_props: final(self).notify_props,
                ..*old(self)
            }),
            created(final(self).notify_props, old(self).notify_props),
            prop_set(final(self).props, old(self).props, USER_PROPS_KEY_CUSTOM_STATUS@, document@),
    {
        self.make_non_nil();
        proof {
            if old(self).props is None {
                assert(crate::str_map::texts(self.props->0@) == Map::<
                    Seq<char>,
                    Seq<char>,
                >::empty());
            }
        }
        self.set_prop(USER_PROPS_KEY_CUSTOM_STATUS, document);
    }

    /// The JSON text of the custom status: nothing where there is none, where the text is no JSON
    /// document and where it is the document `null`.
    pub fn get_custom_status(&self) -> (r: Option<&str>)
        ensures
            opt_str(r) == if status_document(self.props) == Some(false) {
                prop(self.props, USER_PROPS_KEY_CUSTOM_STATUS@)
            } else {
                None
            },
    {
        let data: Option<&str> = self.get_prop(USER_PROPS_KEY_CUSTOM_STATUS);
        match data {
            None => None,
            Some(text) => match parse_document(text) {
                Some(is_null) => if is_null {
                    None
                } else {
                    Some(text)
                },
                None => None,
            },
        }
    }

    /// Another name of [`User::get_custom_status`].
    pub fn custom_status(&self) -> (r: Option<&str>)
        ensures
            opt_str(r) == if status_document(self.props) == Some(false) {
                prop(self.props, USER_PROPS_KEY_CUSTOM_STATUS@)
            } else {
                None
            },
    {
        self.get_custom_status()
    }

    /// Clears the custom status. The property stays, with the empty text.
    pub fn clear_custom_status(&mut self)
        ensures
            *final(self) == (User {
                props: final(self).props,
                notify_props: final(self).notify_props,
                ..*old(self)
            }),
            created(final(self).notify_props, old(self).notify_props),
            prop_set(final(self).props, old(self).props, USER_PROPS_KEY_CUSTOM_STATUS@, ""@),
    {
        self.set_custom_status("");
    }

    /// Whether the custom status is acceptable: absent, empty, or any JSON document but `null`.
    pub fn validate_custom_status(&self) -> (r: bool)
        ensures
            r == status_accepted(
                prop(self.props, USER_PROPS_KEY_CUSTOM_STATUS@),
                status_document(self.props),
            ),
    {
        let status: Option<&str> = self.get_prop(USER_PROPS_KEY_CUSTOM_STATUS);
        let parsed: Option<bool> = match status {
            Some(text) => parse_document(text),
            None => None,
        };
        custom_status_accepted(status, parsed)
    }

    /// Replaces the notification settings by those of a new user.
    pub fn set_default_notifications(&mut self)
        ensures
            *final(self) == (User { notify_props: final(self).notify_props, ..*old(self) }),
            crate::str_map::opt_texts(final(self).notify_props) == Some(default_notifications()),
    {
        let mut props: StringMap = new_string_map();
        insert_text(&mut props, EMAIL_NOTIFY_PROP, "true");
        insert_text(&mut props, PUSH_NOTIFY_PROP, USER_NOTIFY_MENTION);
        insert_text(&mut props, DESKTOP_NOTIFY_PROP, USER_NOTIFY_MENTION);
        insert_text(&mut props, DESKTOP_SOUND_NOTIFY_PROP, "true");
        insert_text(&mut props, MENTION_KEYS_NOTIFY_PROP, "");
        insert_text(&mut props, CHANNEL_MENTIONS_NOTIFY_PROP, "true");
        insert_text(&mut props, PUSH_STATUS_NOTIFY_PROP, STATUS_ONLINE);
        insert_text(&mut props, COMMENTS_NOTIFY_PROP, COMMENTS_NOTIFY_NEVER);
        insert_text(&mut props, FIRST_NAME_NOTIFY_PROP, "false");
        insert_text(&mut props, DESKTOP_THREADS_NOTIFY_PROP, USER_NOTIFY_ALL);
        insert_text(&mut props, EMAIL_THREADS_NOTIFY_PROP, USER_NOTIFY_ALL);
        insert_text(&mut props, PUSH_THREADS_NOTIFY_PROP, USER_NOTIFY_ALL);
        insert_text(&mut props, CHANNEL_MENTION_AUTO_FOLLOW_THREADS_PROP, "true");
        self.notify_props = Some(props);
    }

    /// The mention keys: cut at commas, without white space around them and without empty ones.
    pub fn get_mention_keys(&self) -> (r: Vec<String>)
        ensures
            crate::text::views(r@) == mention_keys(self.notify_props),
    {
        proof {
            reveal_strlit("");
        }
        let none: &str = "";
        assert(none@ == Seq::<char>::empty());
        let raw: &str = match get_text(&self.notify_props, MENTION_KEYS_NOTIFY_PROP) {
            Some(text) => text,
            None => none,
        };
        let parts: Vec<&str> = split_at_char(raw, ',');
        let ghost all = crate::text::split_on(raw@, ',');
        let mut keys: Vec<String> = Vec::new();
        let mut i: usize = 0;
        assert(all.take(0) == Seq::<Seq<char>>::empty());
        assert(crate::text::views(keys@) == Seq::<Seq<char>>::empty());
        while i < parts.len()
            invariant
                crate::text::views(parts@) == all,
                i <= parts@.len(),
                crate::text::views(keys@) == trimmed_pieces(all.take(i as int)),
            decreases parts@.len() - i,
        {
            assert(all[i as int] == parts@[i as int]@);
            assert(all.take(i + 1).drop_last() == all.take(i as int));
            let key: &str = trimmed(parts[i]);
            if !key.is_empty() {
                let ghost before = keys@;
                keys.push(key.to_owned());
                assert(crate::text::views(keys@) == crate::text::views(before).push(key@));
            }
            i = i + 1;
        }
        assert(all.take(i as int) == all);
        keys
    }

    /// Drops a former user name from the mention keys. What is left is stored behind a comma each.
    pub fn update_mention_keys_from_username(&mut self, old_username: &str)
        ensures
            *final(self) == (User {
                props: final(self).props,
                notify_props: final(self).notify_props,
                ..*old(self)
            }),
            created(final(self).props, old(self).props),
            prop_set(
                final(self).notify_props,
                old(self).notify_props,
                MENTION_KEYS_NOTIFY_PROP@,
                stored_keys(keys_without(mention_keys(old(self).notify_props), old_username@)),
            ),
    {
        let at_old: String = cat("@", old_username);
        let keys: Vec<String> = self.get_mention_keys();
        let ghost all = crate::text::views(keys@);
        let mut kept: Vec<String> = Vec::new();
        let mut i: usize = 0;
        assert(all.take(0) == Seq::<Seq<char>>::empty());
        assert(crate::text::views(kept@) == Seq::<Seq<char>>::empty());
        while i < keys.len()
            invariant
                crate::text::views(keys@) == all,
                at_old@ == "@"@ + old_username@,
                i <= keys@.len(),
                crate::text::views(kept@) == keys_without(all.take(i as int), old_username@),
            decreases keys@.len() - i,
        {
            assert(all[i as int] == keys@[i as int]@);
            assert(all.take(i + 1).drop_last() == all.take(i as int));
            let key: &str = keys[i].as_str();
            if !same(key, old_username) && !same(key, at_old.as_str()) {
                let ghost before = kept@;
                kept.push(key.to_owned());
                assert(crate::text::views(kept@) == crate::text::views(before).push(key@));
            }
            i = i + 1;
        }
        assert(all.take(i as int) == all);
        let value: String = if kept.len() == 0 {
            String::new()
        } else {
            let joined: String = join_strings(kept.as_slice(), ",");
            cat(",", joined.as_str())
        };
        self.add_notify_prop(MENTION_KEYS_NOTIFY_PROP, value.as_str());
    }

    // -- names ------------------------------------------------------------------------------

    /// The first and the last name, with a blank between them where both are there.
    pub open spec fn full_name(&self) -> Seq<char> {
        if self.first_name@.len() > 0 && self.last_name@.len() > 0 {
            self.first_name@ + " "@ + self.last_name@
        } else if self.first_name@.len() > 0 {
            self.first_name@
        } else {
            self.last_name@
        }
    }

    /// The first and the last name, with a blank between them where both are there.
    pub fn get_full_name(&self) -> (r: String)
        ensures
            r@ == self.full_name(),
    {
        if !self.first_name.as_str().is_empty() && !self.last_name.as_str().is_empty() {
            cat3(self.first_name.as_str(), " ", self.last_name.as_str())
        } else if !self.first_name.as_str().is_empty() {
            self.first_name.clone()
        } else {
            self.last_name.clone()
        }
    }

    /// The name that is displayed under a name format, with `base` as the last resort.
    pub open spec fn display_name(&self, base: Seq<char>, format: Seq<char>) -> Seq<char> {
        if format == SHOW_NICKNAME_FULL_NAME@ && self.nickname@.len() > 0 {
            self.nickname@
        } else if (format == SHOW_NICKNAME_FULL_NAME@ || format == SHOW_FULL_NAME@)
            && self.full_name().len() > 0 {
            self.full_name()
        } else {
            base
        }
    }

    fn display_name_from(&self, base_name: &str, name_format: &str) -> (r: String)
        ensures
            r@ == self.display_name(base_name@, name_format@),
    {
        if same(name_format, SHOW_NICKNAME_FULL_NAME) {
            if !self.nickname.as_str().is_empty() {
                return self.nickname.clone();
            }
            let full: String = self.get_full_name();
            if !full.as_str().is_empty() {
                return full;
            }
        } else if same(name_format, SHOW_FULL_NAME) {
            let full: String = self.get_full_name();
            if !full.as_str().is_empty() {
                return full;
            }
        }
        base_name.to_owned()
    }

    /// The name that is displayed under a name format.
    pub fn get_display_name(&self, name_format: &str) -> (r: String)
        ensures
            r@ == self.display_name(self.username@, name_format@),
    {
        self.display_name_from(self.username.as_str(), name_format)
    }

    /// The name that is displayed under a name format, with a prefix on the user name only.
    pub fn get_display_name_with_prefix(&self, name_format: &str, prefix: &str) -> (r: String)
        ensures
            r@ == self.display_name(prefix@ + self.username@, name_format@),
    {
        let base: String = cat(prefix, self.username.as_str());
        self.display_name_from(base.as_str(), name_format)
    }

    /// The zone that the user's timezone settings prefer.
    pub fn get_preferred_timezone(&self) -> (r: &str)
        ensures
            r@ == match self.timezone {
                Some(tz) => crate::utils::preferred_timezone(tz@),
                None => Seq::empty(),
            },
    {
        match &self.timezone {
            Some(tz) => crate::utils::get_preferred_timezone(tz),
            None => {
                proof {
                    reveal_strlit("");
                }
                let r: &str = "";
                assert(r@ == Seq::<char>::empty());
                r
            },
        }
    }

    /// What stands behind the last at sign of the mail address; nothing where there is no such
    /// sign.
    pub fn email_domain(&self) -> (r: &str)
        ensures
            forall|i: int|
                0 <= i < self.email@.len() && #[trigger] self.email@[i] == '@' && (forall|j: int|
                    i < j < self.email@.len() ==> self.email@[j] != '@') ==> r@ == self.email@.skip(
                    i + 1,
                ),
            !self.email@.contains('@') ==> r@.len() == 0,
    {
        let chars: Vec<char> = to_chars(self.email.as_str());
        let n: usize = chars.len();
        let mut at: usize = n;
        while at > 0
            invariant
                chars@ == self.email@,
                n == chars@.len(),
                at <= n,
                forall|j: int| at <= j < n ==> self.email@[j] != '@',
            decreases at,
        {
            if chars[at - 1] == '@' {
                let r: &str = self.email.as_str().substring_char(at, n);
                assert(r@ == self.email@.skip(at as int));
                assert(self.email@[at - 1] == '@');
                assert(self.email@.contains('@'));
                return r;
            }
            at = at - 1;
        }
        proof {
            reveal_strlit("");
        }
        let r: &str = "";
        r
    }

    // -- changes ----------------------------------------------------------------------------

    /// Applies a patch: what the patch holds replaces what the user had, all else stays. The
    /// password is no part of it.
    pub fn patch(&mut self, patch: &UserPatch)
        ensures
            is_patched(*final(self), *patch, *old(self)),
    {
        self.username = pick_text(&patch.username, &self.username);
        self.nickname = pick_text(&patch.nickname, &self.nickname);
        self.first_name = pick_text(&patch.first_name, &self.first_name);
        self.last_name = pick_text(&patch.last_name, &self.last_name);
        self.position = pick_text(&patch.position, &self.position);
        self.email = pick_text(&patch.email, &self.email);
        pick_map(&patch.props, &mut self.props);
        pick_map(&patch.notify_props, &mut self.notify_props);
        self.locale = pick_text(&patch.locale, &self.locale);
        pick_map(&patch.timezone, &mut self.timezone);
        pick_opt_text(&patch.remote_id, &mut self.remote_id);
    }

    /// The patch that makes another user like this one. The id of the remote server is no part of
    /// it.
    pub fn to_patch(&self) -> (p: UserPatch)
        ensures
            is_patch_of(p, *self),
    {
        UserPatch {
            username: Some(self.username.clone()),
            password: Some(self.password.clone()),
            nickname: Some(self.nickname.clone()),
            first_name: Some(self.first_name.clone()),
            last_name: Some(self.last_name.clone()),
            position: Some(self.position.clone()),
            email: Some(self.email.clone()),
            props: clone_opt_string_map(&self.props),
            notify_props: clone_opt_string_map(&self.notify_props),
            locale: Some(self.locale.clone()),
            timezone: clone_opt_string_map(&self.timezone),
            remote_id: None,
        }
    }
}

/// A user under a patch.
pub open spec fn is_patched(new: User, patch: UserPatch, old: User) -> bool {
    &&& new == (User {
        username: patched(patch.username, old.username),
        nickname: patched(patch.nickname, old.nickname),
        first_name: patched(patch.first_name, old.first_name),
        last_name: patched(patch.last_name, old.last_name),
        position: patched(patch.position, old.position),
        email: patched(patch.email, old.email),
        locale: patched(patch.locale, old.locale),
        remote_id: match patch.remote_id {
            Some(v) => Some(v),
            None => old.remote_id,
        },
        props: new.props,
        notify_props: new.notify_props,
        timezone: new.timezone,
        ..old
    })
    &&& patched_map(new.props, patch.props, old.props)
    &&& patched_map(new.notify_props, patch.notify_props, old.notify_props)
    &&& patched_map(new.timezone, patch.timezone, old.timezone)
}

/// The patch that holds all that a patch can hold of a user but the id of the remote server.
pub open spec fn is_patch_of(p: UserPatch, user: User) -> bool {
    &&& p == (UserPatch {
        username: Some(user.username),
        password: Some(user.password),
        nickname: Some(user.nickname),
        first_name: Some(user.first_name),
        last_name: Some(user.last_name),
        position: Some(user.position),
        email: Some(user.email),
        props: p.props,
        notify_props: p.notify_props,
        locale: Some(user.locale),
        timezone: p.timezone,
        remote_id: None,
    })
    &&& crate::str_map::opt_list(p.props) == crate::str_map::opt_list(user.props)
    &&& crate::str_map::opt_list(p.notify_props) == crate::str_map::opt_list(user.notify_props)
    &&& crate::str_map::opt_list(p.timezone) == crate::str_map::opt_list(user.timezone)
}

/// A field under a patch.
pub open spec fn patched(patch: Option<String>, old: String) -> String {
    match patch {
        Some(v) => v,
        None => old,
    }
}

fn pick_text(patch: &Option<String>, old: &String) -> (r: String)
    ensures
        r == patched(*patch, *old),
{
    match patch {
        Some(v) => v.clone(),
        None => old.clone(),
    }
}

fn pick_opt_text(patch: &Option<String>, field: &mut Option<String>)
    ensures
        *final(field) == match *patch {
            Some(v) => Some(v),
            None => *old(field),
        },
{
    if let Some(v) = patch {
        *field = Some(v.clone());
    }
}

fn pick_map(patch: &Option<StringMap>, field: &mut Option<StringMap>)
    ensures
        patched_map(*final(field), *patch, *old(field)),
{
    if patch.is_some() {
        *field = clone_opt_string_map(patch);
    }
}

/// A map under a patch: the entries of the patch where it has a map, else the old map.
pub open spec fn patched_map(
    new: Option<StringMap>,
    patch: Option<StringMap>,
    old: Option<StringMap>,
) -> bool {
    if patch is Some {
        crate::str_map::opt_list(new) == crate::str_map::opt_list(patch)
    } else {
        new == old
    }
}

// ---------------------------------------------------------------------------------------------
// Saving
// ---------------------------------------------------------------------------------------------

fn drop_blank(field: &mut Option<String>)
    ensures
        *final(field) == blank_to_none(*old(field)),
{
    let blank: bool = match field {
        Some(s) => s.as_str().is_empty(),
        None => false,
    };
    if blank {
        *field = None;
    }
}

/// The notification settings after an update: the defaults where there were none, else the old ones
/// with the mention keys cleaned where there are any.
pub open spec fn updated_notifications(old: Option<StringMap>) -> Option<Map<Seq<char>, Seq<char>>> {
    if no_entries(old) {
        Some(default_notifications())
    } else {
        match prop(old, MENTION_KEYS_NOTIFY_PROP@) {
            Some(raw) => Some(
                crate::str_map::texts_or_empty(old).insert(
                    MENTION_KEYS_NOTIFY_PROP@,
                    cleaned_keys(raw),
                ),
            ),
            None => crate::str_map::opt_texts(old),
        }
    }
}

/// New ids are in lower case and hold nothing unwanted.
proof fn lemma_random_text_is_normal(s: Seq<char>)
    requires
        forall|i: int| 0 <= i < s.len() ==> crate::utils::id_char(#[trigger] s[i]),
    ensures
        crate::utils::wanted(s) == s,
        crate::utils::lower(s) == s,
    decreases s.len(),
{
    if s.len() > 0 {
        lemma_random_text_is_normal(s.drop_last());
        assert(s == s.drop_last().push(s.last()));
    }
    assert(crate::utils::lower(s) =~= s);
}

impl User {
    /// Whether this is a changed user that was made ready for storing at an instant.
    pub open spec fn is_updated(&self, before: User, now: int) -> bool {
        &&& *self == (User {
            username: self.username,
            first_name: self.first_name,
            last_name: self.last_name,
            nickname: self.nickname,
            bot_description: self.bot_description,
            email: self.email,
            update_at: self.update_at,
            auth_data: blank_to_none(before.auth_data),
            notify_props: self.notify_props,
            ..before
        })
        &&& self.update_at == now
        &&& self.username@ == crate::utils::lower(
            crate::utils::wanted(before.username@)
        )
        &&& self.first_name@ == crate::utils::wanted(before.first_name@)
        &&& self.last_name@ == crate::utils::wanted(before.last_name@)
        &&& self.nickname@ == crate::utils::wanted(before.nickname@)
        &&& self.bot_description@ == crate::utils::wanted(before.bot_description@)
        &&& self.email@ == crate::utils::lower(before.email@)
        &&& crate::str_map::opt_texts(self.notify_props) == updated_notifications(
            before.notify_props
        )
    }

    /// Prepares a changed user for storing at an instant.
    pub fn pre_update_at(&mut self, now: i64)
        ensures
            final(self).is_updated(*old(self), now as int),
    {
        let username: String = sanitize_unicode(self.username.as_str());
        self.username = normalize_username(username.as_str());
        self.first_name = sanitize_unicode(self.first_name.as_str());
        self.last_name = sanitize_unicode(self.last_name.as_str());
        self.nickname = sanitize_unicode(self.nickname.as_str());
        self.bot_description = sanitize_unicode(self.bot_description.as_str());
        self.email = normalize_email(self.email.as_str());
        self.update_at = now;
        drop_blank(&mut self.auth_data);
        if has_no_entries(&self.notify_props) {
            self.set_default_notifications();
        } else {
            let cleaned: Option<String> = match get_text(
                &self.notify_props,
                MENTION_KEYS_NOTIFY_PROP,
            ) {
                Some(raw) => Some(clean_keys(raw)),
                None => None,
            };
            if let Some(value) = cleaned {
                set_text(&mut self.notify_props, MENTION_KEYS_NOTIFY_PROP, value.as_str());
            }
        }
    }

    /// Prepares a changed user for storing: names without unwanted characters, the user name and
    /// the mail address in lower case, the time of the change, and the notification settings in
    /// order.
    pub fn pre_update(&mut self)
        ensures
            exists|now: int|
                crate::utils::is_clock(now) && #[trigger] final(self).is_updated(*old(self), now),
    {
        let now: i64 = get_millis();
        self.pre_update_at(now);
    }

    /// Whether this is a new user that was made ready for storing at an instant.
    pub open spec fn is_saved(&self, before: User, now: int) -> bool {
        &&& *self == (User {
            id: self.id,
            username: self.username,
            auth_data: blank_to_none(before.auth_data),
            first_name: self.first_name,
            last_name: self.last_name,
            nickname: self.nickname,
            email: self.email,
            create_at: self.create_at,
            update_at: self.create_at,
            last_password_update: self.create_at,
            mfa_active: false,
            locale: self.locale,
            props: self.props,
            notify_props: self.notify_props,
            ..before
        })
        &&& if before.id@.len() > 0 {
            self.id == before.id
        } else {
            crate::utils::is_random_text(self.id@, crate::utils::ID_LENGTH as nat)
                && crate::utils::valid_id(self.id@)
        }
        &&& if before.username@.len() > 0 {
            self.username@ == crate::utils::lower(
                crate::utils::wanted(before.username@),
            )
        } else {
            self.username@.len() == crate::utils::ID_LENGTH + 1
                && self.username@[0] == 'a' && crate::utils::is_random_text(
                self.username@.skip(1),
                crate::utils::ID_LENGTH as nat,
            )
        }
        &&& self.first_name@ == crate::utils::wanted(before.first_name@)
        &&& self.last_name@ == crate::utils::wanted(before.last_name@)
        &&& self.nickname@ == crate::utils::wanted(before.nickname@)
        &&& self.email@ == crate::utils::lower(before.email@)
        &&& self.create_at == (if before.create_at != 0 {
            before.create_at as int
        } else {
            now
        })
        &&& if before.locale@.len() > 0 {
            self.locale == before.locale
        } else {
            self.locale@ == DEFAULT_LOCALE@
        }
        &&& created(self.props, before.props)
        &&& if no_entries(before.notify_props) {
            crate::str_map::opt_texts(self.notify_props) == Some(default_notifications())
        } else {
            self.notify_props == before.notify_props
        }
    }

    /// Prepares a new user for storing at an instant.
    pub fn pre_save_partial_at(&mut self, now: i64)
        ensures
            final(self).is_saved(*old(self), now as int),
    {
        if self.id.as_str().is_empty() {
            self.id = new_id();
        }
        if self.username.as_str().is_empty() {
            self.username = new_username();
            proof {
                let u = self.username@;
                assert forall|i: int| 0 <= i < u.len() implies crate::utils::id_char(
                    #[trigger] u[i],
                ) by {
                    if i > 0 {
                        assert(u.skip(1)[i - 1] == u[i]);
                    }
                }
                lemma_random_text_is_normal(u);
            }
        }
        drop_blank(&mut self.auth_data);
        let username: String = sanitize_unicode(self.username.as_str());
        self.username = normalize_username(username.as_str());
        self.first_name = sanitize_unicode(self.first_name.as_str());
        self.last_name = sanitize_unicode(self.last_name.as_str());
        self.nickname = sanitize_unicode(self.nickname.as_str());
        self.email = normalize_email(self.email.as_str());
        if self.create_at == 0 {
            self.create_at = now;
        }
        self.update_at = self.create_at;
        self.last_password_update = self.create_at;
        self.mfa_active = false;
        if self.locale.as_str().is_empty() {
            self.locale = DEFAULT_LOCALE.to_owned();
        }
        ensure_map(&mut self.props);
        if has_no_entries(&self.notify_props) {
            self.set_default_notifications();
        }
    }

    /// Prepares a new user for storing: an id and a user name where they are missing, names
    /// without unwanted characters, the user name and the mail address in lower case, one time for
    /// creation, update and password, no second factor, and defaults for what is unset. A password
    /// is left as it is, and so is a missing timezone.
    pub fn pre_save_partial(&mut self)
        ensures
            exists|now: int|
                crate::utils::is_clock(now) && #[trigger] final(self).is_saved(*old(self), now),
    {
        let now: i64 = get_millis();
        self.pre_save_partial_at(now);
    }

    // -- validation -------------------------------------------------------------------------

    /// The error of a number field.
    pub open spec fn number_fault(&self, field: Seq<char>, value: i64) -> crate::utils::ErrorModel {
        user_fault(field, self.id@, crate::text::decimal(value as int))
    }

    /// What is wrong with the names, the mail address and the times, if anything.
    pub open spec fn identity_fault(&self) -> Option<crate::utils::ErrorModel> {
        if !crate::utils::valid_id(self.id@) {
            Some(user_fault("id"@, Seq::empty(), self.id@))
        } else if self.create_at == 0 {
            Some(self.number_fault("create_at"@, self.create_at))
        } else if self.update_at == 0 {
            Some(self.number_fault("update_at"@, self.update_at))
        } else if !(if self.remote() {
            valid_remote_username(self.username@)
        } else {
            valid_username(self.username@)
        }) {
            Some(user_fault("username"@, self.id@, self.username@))
        } else if crate::text::utf8_len(self.email@) > USER_EMAIL_MAX_LENGTH || self.email@.len() == 0
            || (!crate::utils::valid_email(self.email@) && !self.remote()) {
            Some(user_fault("email"@, self.id@, self.email@))
        } else if self.nickname@.len() > USER_NICKNAME_MAX_RUNES {
            Some(user_fault("nickname"@, self.id@, self.nickname@))
        } else if self.position@.len() > USER_POSITION_MAX_RUNES {
            Some(user_fault("position"@, self.id@, self.position@))
        } else if self.first_name@.len() > USER_FIRST_NAME_MAX_RUNES {
            Some(user_fault("first_name"@, self.id@, self.first_name@))
        } else if self.last_name@.len() > USER_LAST_NAME_MAX_RUNES {
            Some(user_fault("last_name"@, self.id@, self.last_name@))
        } else {
            None
        }
    }

    /// What is wrong with the authentication data, if anything.
    pub open spec fn auth_fault(&self) -> Option<crate::utils::ErrorModel> {
        let data = text_or_empty(self.auth_data);
        if crate::text::utf8_len(data) > USER_AUTH_DATA_MAX_LENGTH {
            Some(user_fault("auth_data"@, self.id@, "<pointer>"@))
        } else if data.len() > 0 && self.auth_service@.len() == 0 {
            Some(user_fault("auth_data_type"@, self.id@, data + " "@ + self.auth_service@))
        } else if self.password@.len() > 0 && data.len() > 0 {
            Some(user_fault("auth_data_pwd"@, self.id@, data))
        } else {
            None
        }
    }

    /// What is wrong with the settings, if anything, given whether the custom status is acceptable.
    pub open spec fn settings_fault(&self, status_ok: bool) -> Option<crate::utils::ErrorModel> {
        if !crate::user::locale::valid_locale(self.locale@) {
            Some(user_fault("locale"@, self.id@, self.locale@))
        } else if self.timezone is Some && !no_entries(self.timezone) && crate::value::wire(
            timezone_json(self.timezone),
        ).len() > USER_TIMEZONE_MAX_RUNES {
            Some(
                user_fault(
                    "timezone_limit"@,
                    self.id@,
                    crate::value::shown(timezone_json(self.timezone)),
                ),
            )
        } else if crate::text::utf8_len(self.roles@) > USER_ROLES_MAX_LENGTH {
            Some(
                crate::utils::ErrorModel {
                    params: Some(
                        seq![("Limit"@, crate::value::Json::Int(USER_ROLES_MAX_LENGTH as int))],
                    ),
                    ..crate::utils::plain_error(
                        "User.IsValid"@,
                        "model.user.is_valid.roles_limit.app_error"@,
                        "user_id="@ + self.id@ + " roles_limit="@ + self.roles@,
                        400,
                    )
                },
            )
        } else if self.props is Some && !status_ok {
            Some(
                crate::utils::ErrorModel {
                    params: Some(
                        seq![
                            (
                                "Props"@,
                                crate::value::Json::Object(
                                    crate::value::text_list(self.props->0.list()),
                                ),
                            ),
                        ],
                    ),
                    ..crate::utils::plain_error(
                        "User.IsValid"@,
                        "model.user.is_valid.invalidProperty.app_error"@,
                        "user_id="@ + self.id@,
                        400,
                    )
                },
            )
        } else {
            None
        }
    }

    /// The first thing that is wrong with the user, if anything, given whether the custom status is
    /// acceptable.
    pub open spec fn fault(&self, status_ok: bool) -> Option<crate::utils::ErrorModel> {
        if self.identity_fault() is Some {
            self.identity_fault()
        } else if self.auth_fault() is Some {
            self.auth_fault()
        } else {
            self.settings_fault(status_ok)
        }
    }

    fn refuse(&self, field: &str, value: &str) -> (r: AppResult)
        ensures
            r is Err,
            crate::utils::fault_of(r) == Some(user_fault(field@, self.id@, value@)),
    {
        Err(Box::new(invalid_user_error(field, self.id.as_str(), value)))
    }

    fn check_identity(&self) -> (r: AppResult)
        ensures
            crate::utils::fault_of(r) == self.identity_fault(),
    {
        if !is_valid_id(self.id.as_str()) {
            proof {
                reveal_strlit("");
            }
            assert(""@ == Seq::<char>::empty());
            return Err(Box::new(invalid_user_error("id", "", self.id.as_str())));
        }
        if self.create_at == 0 {
            return self.refuse("create_at", decimal_text(self.create_at).as_str());
        }
        if self.update_at == 0 {
            return self.refuse("update_at", decimal_text(self.update_at).as_str());
        }
        let username_ok: bool = if self.is_remote() {
            is_valid_username_allow_remote(self.username.as_str())
        } else {
            is_valid_username(self.username.as_str())
        };
        if !username_ok {
            return self.refuse("username", self.username.as_str());
        }
        if byte_len(self.email.as_str()) > USER_EMAIL_MAX_LENGTH || self.email.as_str().is_empty() || (
        !is_valid_email(self.email.as_str()) && !self.is_remote()) {
            return self.refuse("email", self.email.as_str());
        }
        if self.nickname.as_str().unicode_len() > USER_NICKNAME_MAX_RUNES {
            return self.refuse("nickname", self.nickname.as_str());
        }
        if self.position.as_str().unicode_len() > USER_POSITION_MAX_RUNES {
            return self.refuse("position", self.position.as_str());
        }
        if self.first_name.as_str().unicode_len() > USER_FIRST_NAME_MAX_RUNES {
            return self.refuse("first_name", self.first_name.as_str());
        }
        if self.last_name.as_str().unicode_len() > USER_LAST_NAME_MAX_RUNES {
            return self.refuse("last_name", self.last_name.as_str());
        }
        Ok(())
    }

    fn check_auth(&self) -> (r: AppResult)
        ensures
            crate::utils::fault_of(r) == self.auth_fault(),
    {
        let data: &str = str_or_empty(&self.auth_data);
        if byte_len(data) > USER_AUTH_DATA_MAX_LENGTH {
            return self.refuse("auth_data", "<pointer>");
        }
        if !data.is_empty() && self.auth_service.as_str().is_empty() {
            let value: String = cat3(data, " ", self.auth_service.as_str());
            return self.refuse("auth_data_type", value.as_str());
        }
        if !self.password.as_str().is_empty() && !data.is_empty() {
            return self.refuse("auth_data_pwd", data);
        }
        Ok(())
    }

    fn check_settings(&self, status_ok: bool) -> (r: AppResult)
        ensures
            crate::utils::fault_of(r) == self.settings_fault(status_ok),
    {
        if !is_valid_locale(self.locale.as_str()) {
            return self.refuse("locale", self.locale.as_str());
        }
        if let Some(timezone) = &self.timezone {
            if !timezone.is_empty() {
                let wire: String = string_map_wire_text(Some(timezone));
                if wire.as_str().unicode_len() > USER_TIMEZONE_MAX_RUNES {
                    let shown: String = shown_text(&string_map_value(timezone));
                    return self.refuse("timezone_limit", shown.as_str());
                }
            }
        }
        if byte_len(self.roles.as_str()) > USER_ROLES_MAX_LENGTH {
            let mut params: Vec<(String, Value)> = Vec::new();
            params.push(("Limit".to_owned(), Value::Int(USER_ROLES_MAX_LENGTH as i64)));
            assert(crate::value::members(params@) == seq![
                ("Limit"@, crate::value::Json::Int(USER_ROLES_MAX_LENGTH as int)),
            ]);
            let details: String = cat4(
                "user_id=",
                self.id.as_str(),
                " roles_limit=",
                self.roles.as_str(),
            );
            return Err(
                AppError::boxed(
                    "User.IsValid",
                    "model.user.is_valid.roles_limit.app_error",
                    Some(params),
                    details.as_str(),
                    400,
                ),
            );
        }
        if let Some(props) = &self.props {
            if !status_ok {
                let mut params: Vec<(String, Value)> = Vec::new();
                params.push(("Props".to_owned(), string_map_value(props)));
                assert(crate::value::members(params@) == seq![
                    (
                        "Props"@,
                        crate::value::Json::Object(crate::value::text_list(props.list())),
                    ),
                ]);
                let details: String = cat("user_id=", self.id.as_str());
                return Err(
                    AppError::boxed(
                        "User.IsValid",
                        "model.user.is_valid.invalidProperty.app_error",
                        Some(params),
                        details.as_str(),
                        400,
                    ),
                );
            }
        }
        Ok(())
    }

    /// Checks the user, given whether the custom status is acceptable. The first fault is reported:
    /// the id, the two times, the user name, the mail address, the names, the authentication data,
    /// the locale, the timezone, the roles, the custom status. A remote user may have a mail
    /// address of any form. A missing map of properties skips the check of the custom status.
    pub fn is_valid_given(&self, status_ok: bool) -> (r: AppResult)
        ensures
            crate::utils::fault_of(r) == self.fault(status_ok),
    {
        let identity: AppResult = self.check_identity();
        if identity.is_err() {
            return identity;
        }
        let auth: AppResult = self.check_auth();
        if auth.is_err() {
            return auth;
        }
        self.check_settings(status_ok)
    }

    /// Checks the user; see [`User::is_valid_given`].
    pub fn is_valid(&self) -> (r: AppResult)
        ensures
            crate::utils::fault_of(r) == self.fault(
                status_accepted(
                    prop(self.props, USER_PROPS_KEY_CUSTOM_STATUS@),
                    status_document(self.props),
                ),
            ),
    {
        self.is_valid_given(self.validate_custom_status())
    }

    // -- what others see --------------------------------------------------------------------

    /// Removes what others must not see. The secrets always go; with options given, so does each
    /// field whose flag is missing or false. With no options at all nothing else goes.
    pub fn sanitize(&mut self, options: &StrMap<bool>)
        ensures
            sanitized(*final(self), *old(self), options@),
    {
        self.password = String::new();
        self.mfa_secret = String::new();
        self.mfa_used_timestamps = None;
        self.last_login = 0;
        if options.is_empty() {
            return ;
        }
        if !is_flagged(options, "email") {
            self.email = String::new();
            remove_text(&mut self.props, USER_PROPS_KEY_REMOTE_EMAIL);
        }
        if !is_flagged(options, "fullname") {
            self.first_name = String::new();
            self.last_name = String::new();
        }
        if !is_flagged(options, "passwordupdate") {
            self.last_password_update = 0;
        }
        if !is_flagged(options, "authservice") {
            self.auth_service = String::new();
        }
        if !is_flagged(options, "authdata") {
            self.auth_data = Some(String::new());
        }
    }

    /// Removes what a client must not set.
    pub fn sanitize_input(&mut self, is_admin: bool)
        ensures
            input_sanitized(*final(self), *old(self), is_admin),
    {
        if !is_admin {
            self.auth_data = Some(String::new());
            self.auth_service = String::new();
            self.email_verified = false;
        }
        self.remote_id = Some(String::new());
        self.create_at = 0;
        self.update_at = 0;
        self.delete_at = 0;
        self.last_password_update = 0;
        self.last_picture_update = 0;
        self.failed_attempts = 0;
        self.mfa_active = false;
        self.mfa_secret = String::new();
        self.mfa_used_timestamps = Some(Vec::new());
        let email: String = trimmed(self.email.as_str()).to_owned();
        self.email = email;
        self.last_activity_at = 0;
    }

    /// Removes what is no part of a profile; an administrator keeps some of it.
    pub fn clear_non_profile_fields(&mut self, as_admin: bool)
        ensures
            non_profile_cleared(*final(self), *old(self), as_admin),
    {
        self.password = String::new();
        self.mfa_secret = String::new();
        self.mfa_used_timestamps = None;
        self.email_verified = false;
        self.allow_marketing = false;
        self.last_password_update = 0;
        if !as_admin {
            self.auth_data = Some(String::new());
            self.notify_props = Some(new_string_map());
            self.failed_attempts = 0;
        }
    }

    /// Makes a profile for others: [`User::clear_non_profile_fields`], then [`User::sanitize`].
    pub fn sanitize_profile(&mut self, options: &StrMap<bool>, as_admin: bool)
        ensures
            exists|mid: User|
                #![trigger non_profile_cleared(mid, *old(self), as_admin)]
                non_profile_cleared(mid, *old(self), as_admin) && sanitized(
                    *final(self),
                    mid,
                    options@,
                ),
    {
        self.clear_non_profile_fields(as_admin);
        let ghost mid = *self;
        assert(non_profile_cleared(mid, *old(self), as_admin));
        self.sanitize(options);
        assert(sanitized(*self, mid, options@));
    }
}

/// The JSON value of a timezone setting.
pub open spec fn timezone_json(timezone: Option<StringMap>) -> crate::value::Json {
    crate::value::Json::Object(crate::value::text_list(timezone->0.list()))
}

fn remove_text(m: &mut Option<StringMap>, key: &str)
    ensures
        without_key(*final(m), *old(m), key@),
{
    let taken: Option<StringMap> = m.take();
    if let Some(mut x) = taken {
        x.remove(key);
        *m = Some(x);
    }
}

/// A map without one of its keys; no map stays no map.
pub open spec fn without_key(new: Option<StringMap>, old: Option<StringMap>, key: Seq<char>) -> bool {
    match old {
        Some(x) => new is Some && new->0@ == x@.remove(key),
        None => new is None,
    }
}

/// What is left of a user for others, under a map of flags.
pub open spec fn sanitized(new: User, old: User, options: Map<Seq<char>, bool>) -> bool {
    let all = options == Map::<Seq<char>, bool>::empty();
    let email = all || flagged(options, "email"@);
    let name = all || flagged(options, "fullname"@);
    &&& new == (User {
        password: new.password,
        mfa_secret: new.mfa_secret,
        mfa_used_timestamps: None,
        last_login: 0,
        email: new.email,
        props: new.props,
        first_name: new.first_name,
        last_name: new.last_name,
        last_password_update: if all || flagged(options, "passwordupdate"@) {
            old.last_password_update
        } else {
            0
        },
        auth_service: new.auth_service,
        auth_data: new.auth_data,
        ..old
    })
    &&& new.password@.len() == 0
    &&& new.mfa_secret@.len() == 0
    &&& kept_or_blank(email, new.email, old.email)
    &&& if email {
        new.props == old.props
    } else {
        without_key(new.props, old.props, USER_PROPS_KEY_REMOTE_EMAIL@)
    }
    &&& kept_or_blank(name, new.first_name, old.first_name)
    &&& kept_or_blank(name, new.last_name, old.last_name)
    &&& kept_or_blank(all || flagged(options, "authservice"@), new.auth_service, old.auth_service)
    &&& if all || flagged(options, "authdata"@) {
        new.auth_data == old.auth_data
    } else {
        withheld(new.auth_data)
    }
}

/// What is left of a user that a client sent.
pub open spec fn input_sanitized(new: User, old: User, is_admin: bool) -> bool {
    &&& new == (User {
        auth_data: new.auth_data,
        auth_service: new.auth_service,
        email_verified: is_admin && old.email_verified,
        remote_id: new.remote_id,
        create_at: 0,
        update_at: 0,
        delete_at: 0,
        last_password_update: 0,
        last_picture_update: 0,
        failed_attempts: 0,
        mfa_active: false,
        mfa_secret: new.mfa_secret,
        mfa_used_timestamps: new.mfa_used_timestamps,
        email: new.email,
        last_activity_at: 0,
        ..old
    })
    &&& if is_admin {
        new.auth_data == old.auth_data
    } else {
        withheld(new.auth_data)
    }
    &&& kept_or_blank(is_admin, new.auth_service, old.auth_service)
    &&& withheld(new.remote_id)
    &&& new.mfa_secret@.len() == 0
    &&& crate::text::opt_seq(new.mfa_used_timestamps) == Some(Seq::<String>::empty())
    &&& new.email@ == crate::text::trim(old.email@)
}

/// What is left of a user as a profile.
pub open spec fn non_profile_cleared(new: User, old: User, as_admin: bool) -> bool {
    &&& new == (User {
        password: new.password,
        mfa_secret: new.mfa_secret,
        mfa_used_timestamps: None,
        email_verified: false,
        allow_marketing: false,
        last_password_update: 0,
        auth_data: new.auth_data,
        notify_props: new.notify_props,
        failed_attempts: if as_admin {
            old.failed_attempts
        } else {
            0
        },
        ..old
    })
    &&& new.password@.len() == 0
    &&& new.mfa_secret@.len() == 0
    &&& if as_admin {
        new.auth_data == old.auth_data && new.notify_props == old.notify_props
    } else {
        withheld(new.auth_data) && new.notify_props is Some && new.notify_props->0@ == Map::<
            Seq<char>,
            String,
        >::empty()
    }
}

impl UserPatch {
    /// Sets a field of the patch by its name. Other names are ignored.
    pub fn set_field(&mut self, field_name: &str, field_value: &str)
        ensures
            field_set(*final(self), *old(self), field_name@, field_value@),
    {
        let value: Option<String> = Some(field_value.to_owned());
        if same(field_name, "FirstName") {
            self.first_name = value;
        } else if same(field_name, "LastName") {
            self.last_name = value;
        } else if same(field_name, "Nickname") {
            self.nickname = value;
        } else if same(field_name, "Email") {
            self.email = value;
        } else if same(field_name, "Position") {
            self.position = value;
        } else if same(field_name, "Username") {
            self.username = value;
        }
    }
}

/// A patch with one field set by its name.
pub open spec fn field_set(
    new: UserPatch,
    old: UserPatch,
    name: Seq<char>,
    value: Seq<char>,
) -> bool {
    if name == "FirstName"@ {
        new == (UserPatch { first_name: new.first_name, ..old }) && crate::text::opt_view(
            new.first_name,
        ) == Some(value)
    } else if name == "LastName"@ {
        new == (UserPatch { last_name: new.last_name, ..old }) && crate::text::opt_view(new.last_name)
            == Some(value)
    } else if name == "Nickname"@ {
        new == (UserPatch { nickname: new.nickname, ..old }) && crate::text::opt_view(new.nickname)
            == Some(value)
    } else if name == "Email"@ {
        new == (UserPatch { email: new.email, ..old }) && crate::text::opt_view(new.email) == Some(
            value,
        )
    } else if name == "Position"@ {
        new == (UserPatch { position: new.position, ..old }) && crate::text::opt_view(new.position)
            == Some(value)
    } else if name == "Username"@ {
        new == (UserPatch { username: new.username, ..old }) && crate::text::opt_view(new.username)
            == Some(value)
    } else {
        new == old
    }
}

} // verus!
