//! Sessions of users, and the ids of the devices they are on.

use vstd::prelude::*;
use vstd::string::StrSliceExecFns;

use crate::session::external::{
    PUSH_NOTIFY_ANDROID_REACT_NATIVE, PUSH_NOTIFY_APPLE_REACT_NATIVE, USER_AUTH_SERVICE_IS_MOBILE,
    USER_AUTH_SERVICE_IS_OAUTH, USER_AUTH_SERVICE_IS_SAML,
};
use crate::str_map::{insert_text, new_string_map, StringMap};
use crate::team_member::TeamMember;
use crate::text::{byte_len, cat, cat3, cat4, find_from, from_chars, is_listed, same, split_fields, to_chars};
use crate::user::USER_ROLES_MAX_LENGTH;
use crate::utils::{
    ensure_id, get_millis, is_valid_id, new_id, parse_bool, AppError, AppResult,
};

pub mod external;

verus! {

pub const SESSION_COOKIE_TOKEN: &'static str = "MMAUTHTOKEN";

pub const SESSION_COOKIE_USER: &'static str = "MMUSERID";

pub const SESSION_COOKIE_CSRF: &'static str = "MMCSRF";

pub const SESSION_COOKIE_CLOUD_URL: &'static str = "MMCLOUDURL";

pub const SESSION_CACHE_SIZE: usize = 35000;

pub const SESSION_PROP_PLATFORM: &'static str = "platform";

pub const SESSION_PROP_OS: &'static str = "os";

pub const SESSION_PROP_BROWSER: &'static str = "browser";

pub const SESSION_PROP_TYPE: &'static str = "type";

pub const SESSION_PROP_USER_ACCESS_TOKEN_ID: &'static str = "user_access_token_id";

pub const SESSION_PROP_IS_BOT: &'static str = "is_bot";

pub const SESSION_PROP_IS_BOT_VALUE: &'static str = "true";

pub const SESSION_PROP_OAUTH_APP_ID: &'static str = "oauth_app_id";

pub const SESSION_PROP_MATTERMOST_APP_ID: &'static str = "mattermost_app_id";

pub const SESSION_PROP_LAST_REMOVED_DEVICE_ID: &'static str = "last_removed_device_id";

pub const SESSION_PROP_LAST_REMOVED_VOIP_DEVICE_ID: &'static str = "last_removed_voip_device_id";

pub const SESSION_PROP_DEVICE_NOTIFICATION_DISABLED: &'static str = "device_notification_disabled";

pub const SESSION_PROP_MOBILE_VERSION: &'static str = "mobile_version";

pub const SESSION_PROP_IS_GUEST: &'static str = "is_guest";

pub const SESSION_TYPE_USER_ACCESS_TOKEN: &'static str = "UserAccessToken";

pub const SESSION_TYPE_CLOUD_KEY: &'static str = "CloudKey";

pub const SESSION_TYPE_REMOTECLUSTER_TOKEN: &'static str = "RemoteClusterToken";

/// Five minutes in milliseconds.
pub const SESSION_ACTIVITY_TIMEOUT: i64 = 300_000;

/// A hundred years in hours.
pub const SESSION_USER_ACCESS_TOKEN_EXPIRY_HOURS: i64 = 876_000;

pub const SESSION_PROP_CSRF: &'static str = "csrf";

/// The platforms of devices.
pub const STANDARD_DEVICE_PLATFORMS: [&'static str; 3] = [
    PUSH_NOTIFY_APPLE_REACT_NATIVE,
    "apple_rnbeta",
    PUSH_NOTIFY_ANDROID_REACT_NATIVE,
];

/// The platforms of devices that take calls.
pub const VOIP_DEVICE_PLATFORMS: [&'static str; 2] = [
    PUSH_NOTIFY_APPLE_REACT_NATIVE,
    "apple_rnbeta",
];

/// A session of a user.
#[derive(Debug, Clone, Default, PartialEq, Eq)]
pub struct Session {
    pub id: String,
    pub token: String,
    pub create_at: i64,
    pub expires_at: i64,
    pub last_activity_at: i64,
    pub user_id: String,
    pub device_id: String,
    pub voip_device_id: String,
    pub roles: String,
    pub is_oauth: bool,
    pub expired_notify: bool,
    pub props: Option<StringMap>,
    pub team_members: Option<Vec<TeamMember>>,
    /// Whether the session came in on the machine itself. Such sessions may do anything.
    pub local: bool,
}

/// How a user logs in.
#[derive(Debug, Clone, Default, PartialEq, Eq)]
pub struct LoginOptions {
    pub device_id: String,
    pub voip_device_id: String,
    pub is_mobile: bool,
    pub is_oauth_user: bool,
    pub is_saml: bool,
}

/// The error of a field of a session.
pub open spec fn session_fault(field: Seq<char>, details: Seq<char>) -> crate::utils::ErrorModel {
    crate::utils::plain_error(
        "Session.IsValid"@,
        "model.session.is_valid."@ + field + ".app_error"@,
        details,
        400,
    )
}

fn session_error(field: &str, details: &str) -> (e: Box<AppError>)
    ensures
        e@ == session_fault(field@, details@),
{
    let id: String = cat3("model.session.is_valid.", field, ".app_error");
    AppError::boxed("Session.IsValid", id.as_str(), None, details, 400)
}

impl Session {
    /// The property under a key, if there is one.
    pub open spec fn prop_text(&self, key: Seq<char>) -> Option<Seq<char>> {
        match crate::str_map::opt_texts(self.props) {
            Some(m) => if m.dom().contains(key) {
                Some(m[key])
            } else {
                None
            },
            None => None,
        }
    }

    /// Whether a property is a text.
    pub open spec fn prop_is(&self, key: Seq<char>, value: Seq<char>) -> bool {
        self.prop_text(key) == Some(value)
    }

    /// Whether a property spells a truth.
    pub open spec fn prop_holds(&self, key: Seq<char>) -> bool {
        match self.prop_text(key) {
            Some(s) => crate::utils::parsed_bool(s) == Some(true),
            None => false,
        }
    }

    fn prop(&self, key: &str) -> (r: Option<&str>)
        ensures
            match r {
                Some(s) => self.prop_text(key@) == Some(s@),
                None => self.prop_text(key@) is None,
            },
    {
        match &self.props {
            Some(m) => match m.get(key) {
                Some(s) => {
                    assert(crate::str_map::texts(m@).dom().contains(key@));
                    Some(s.as_str())
                },
                None => None,
            },
            None => None,
        }
    }

    fn has_prop(&self, key: &str, value: &str) -> (r: bool)
        ensures
            r == self.prop_is(key@, value@),
    {
        match self.prop(key) {
            Some(s) => same(s, value),
            None => false,
        }
    }

    fn has_true_prop(&self, key: &str) -> (r: bool)
        ensures
            r == self.prop_holds(key@),
    {
        match self.prop(key) {
            Some(s) => match parse_bool(s) {
                Some(b) => b,
                None => false,
            },
            None => false,
        }
    }

    /// Whether the session may do anything.
    pub fn is_unrestricted(&self) -> (r: bool)
        ensures
            r == self.local,
    {
        self.local
    }

    /// The first thing that is wrong with the session.
    pub open spec fn fault(&self) -> Option<crate::utils::ErrorModel> {
        if !crate::utils::valid_id(self.id@) {
            Some(session_fault("id"@, ""@))
        } else if !crate::utils::valid_id(self.user_id@) {
            Some(session_fault("user_id"@, ""@))
        } else if self.create_at == 0 {
            Some(session_fault("create_at"@, ""@))
        } else if crate::text::utf8_len(self.roles@) > USER_ROLES_MAX_LENGTH {
            Some(session_fault("roles_limit"@, "session_id="@ + self.id@))
        } else {
            None
        }
    }

    /// Whether the session is in order.
    pub fn is_valid(&self) -> (r: AppResult)
        ensures
            crate::utils::fault_of(r) == self.fault(),
    {
        if !is_valid_id(self.id.as_str()) {
            return Err(session_error("id", ""));
        }
        if !is_valid_id(self.user_id.as_str()) {
            return Err(session_error("user_id", ""));
        }
        if self.create_at == 0 {
            return Err(session_error("create_at", ""));
        }
        if byte_len(self.roles.as_str()) > USER_ROLES_MAX_LENGTH {
            return Err(
                session_error("roles_limit", cat("session_id=", self.id.as_str()).as_str()),
            );
        }
        Ok(())
    }

    /// Whether this is a session that was made ready for storing at an instant: with an id, a
    /// token and properties, its own where it had them, and with the instant as its time.
    pub open spec fn is_saved(&self, before: Session, now: int) -> bool {
        &&& *self == (Session {
            id: self.id,
            token: self.token,
            create_at: self.create_at,
            last_activity_at: self.last_activity_at,
            props: self.props,
            ..before
        })
        &&& crate::utils::kept_or_new_id(self.id@, before.id@)
        &&& crate::utils::kept_or_new_id(self.token@, before.token@)
        &&& self.create_at == now
        &&& self.last_activity_at == now
        &&& if before.props is Some {
            self.props == before.props
        } else {
            crate::str_map::opt_texts(self.props) == Some(Map::<Seq<char>, Seq<char>>::empty())
        }
    }

    /// Makes the session ready for storing at an instant.
    pub fn pre_save_at(&mut self, now: i64)
        ensures
            final(self).is_saved(*old(self), now as int),
    {
        ensure_id(&mut self.id);
        ensure_id(&mut self.token);
        self.create_at = now;
        self.last_activity_at = now;
        if self.props.is_none() {
            self.props = Some(new_string_map());
        }
    }

    /// Makes the session ready for storing. When it expires is not decided here.
    pub fn pre_save(&mut self)
        ensures
            exists|now: int|
                crate::utils::is_clock(now) && #[trigger] final(self).is_saved(*old(self), now),
    {
        let now: i64 = get_millis();
        self.pre_save_at(now);
    }

    /// Takes the token out of the session, and nothing else.
    pub fn sanitize(&mut self)
        ensures
            *final(self) == (Session { token: final(self).token, ..*old(self) }),
            final(self).token@.len() == 0,
    {
        self.token = String::new();
    }

    /// Whether the session is over at an instant. It is not yet in the millisecond at which it
    /// expires, and never if that is no time after the epoch.
    pub open spec fn expired(&self, now: int) -> bool {
        0 < self.expires_at < now
    }

    /// Whether the session is over at an instant.
    pub fn is_expired_at(&self, now: i64) -> (r: bool)
        ensures
            r == self.expired(now as int),
    {
        0 < self.expires_at && self.expires_at < now
    }

    /// Whether the session is over.
    pub fn is_expired(&self) -> (r: bool)
        ensures
            exists|now: int| crate::utils::is_clock(now) && r == #[trigger] self.expired(now),
            self.expires_at <= 0 ==> !r,
    {
        let now: i64 = get_millis();
        self.is_expired_at(now)
    }

    /// Whether this is a session with one property more or another value of it.
    pub open spec fn has_added(&self, before: Session, key: Seq<char>, value: Seq<char>) -> bool {
        &&& *self == (Session { props: self.props, ..before })
        &&& crate::str_map::opt_texts(self.props) == Some(
            crate::str_map::texts_or_empty(before.props).insert(key, value),
        )
    }

    /// Sets a property.
    pub fn add_prop(&mut self, key: &str, value: &str)
        ensures
            final(self).has_added(*old(self), key@, value@),
    {
        let mut props: StringMap = match self.props.take() {
            Some(m) => m,
            None => new_string_map(),
        };
        insert_text(&mut props, key, value);
        self.props = Some(props);
    }

    /// The first position of a team among members.
    pub open spec fn team_at(&self, team_id: Seq<char>, i: int) -> bool {
        &&& self.team_members is Some
        &&& 0 <= i < self.team_members->0@.len()
        &&& self.team_members->0@[i].team_id@ == team_id
        &&& forall|j: int|
            0 <= j < i ==> (#[trigger] self.team_members->0@[j]).team_id@ != team_id
    }

    /// The first membership of a team.
    pub fn get_team_by_team_id(&self, team_id: &str) -> (r: Option<&TeamMember>)
        ensures
            match r {
                Some(m) => exists|i: int|
                    #[trigger] self.team_at(team_id@, i) && *m == self.team_members->0@[i],
                None => self.team_members is Some ==> forall|i: int|
                    0 <= i < self.team_members->0@.len() ==> (
                    #[trigger] self.team_members->0@[i]).team_id@ != team_id@,
            },
    {
        match &self.team_members {
            None => None,
            Some(members) => {
                let mut i: usize = 0;
                while i < members.len()
                    invariant
                        self.team_members == Some(*members),
                        i <= members@.len(),
                        forall|j: int| 0 <= j < i ==> (#[trigger] members@[j]).team_id@ != team_id@,
                    decreases members@.len() - i,
                {
                    if same(members[i].team_id.as_str(), team_id) {
                        assert(self.team_at(team_id@, i as int));
                        return Some(&members[i]);
                    }
                    i = i + 1;
                }
                None
            },
        }
    }

    /// Whether the session is one of a mobile app: it has a device, or it says so.
    pub fn is_mobile_app(&self) -> (r: bool)
        ensures
            r == (self.device_id@.len() > 0 || self.prop_holds(USER_AUTH_SERVICE_IS_MOBILE@)),
    {
        !self.device_id.as_str().is_empty() || self.is_mobile()
    }

    /// Whether the session says that it is mobile.
    pub fn is_mobile(&self) -> (r: bool)
        ensures
            r == self.prop_holds(USER_AUTH_SERVICE_IS_MOBILE@),
    {
        self.has_true_prop(USER_AUTH_SERVICE_IS_MOBILE)
    }

    /// Whether the user came in by SAML.
    pub fn is_saml(&self) -> (r: bool)
        ensures
            r == self.prop_holds(USER_AUTH_SERVICE_IS_SAML@),
    {
        self.has_true_prop(USER_AUTH_SERVICE_IS_SAML)
    }

    /// Whether the user came in by OAuth.
    pub fn is_oauth_user(&self) -> (r: bool)
        ensures
            r == self.prop_holds(USER_AUTH_SERVICE_IS_OAUTH@),
    {
        self.has_true_prop(USER_AUTH_SERVICE_IS_OAUTH)
    }

    /// Whether the session is one of a bot. The property must be exactly `true`.
    pub fn is_bot_user(&self) -> (r: bool)
        ensures
            r == self.prop_is(SESSION_PROP_IS_BOT@, SESSION_PROP_IS_BOT_VALUE@),
    {
        self.has_prop(SESSION_PROP_IS_BOT, SESSION_PROP_IS_BOT_VALUE)
    }

    /// Whether the session is one of an access token.
    pub fn is_user_access_token(&self) -> (r: bool)
        ensures
            r == self.prop_is(SESSION_PROP_TYPE@, SESSION_TYPE_USER_ACCESS_TOKEN@),
    {
        self.has_prop(SESSION_PROP_TYPE, SESSION_TYPE_USER_ACCESS_TOKEN)
    }

    /// Whether the session is one of a bot, an access token or an OAuth app.
    pub fn is_integration(&self) -> (r: bool)
        ensures
            r == (self.prop_is(SESSION_PROP_IS_BOT@, SESSION_PROP_IS_BOT_VALUE@) || self.prop_is(
                SESSION_PROP_TYPE@,
                SESSION_TYPE_USER_ACCESS_TOKEN@,
            ) || self.is_oauth),
    {
        self.is_bot_user() || self.is_user_access_token() || self.is_oauth
    }

    /// Whether the user signed on elsewhere.
    pub fn is_sso_login(&self) -> (r: bool)
        ensures
            r == (self.prop_holds(USER_AUTH_SERVICE_IS_OAUTH@) || self.prop_holds(
                USER_AUTH_SERVICE_IS_SAML@,
            )),
    {
        self.is_oauth_user() || self.is_saml()
    }

    /// Whether the session is one of a guest. The property must be exactly `true`.
    pub fn is_guest(&self) -> (r: bool)
        ensures
            r == self.prop_is(SESSION_PROP_IS_GUEST@, "true"@),
    {
        self.has_prop(SESSION_PROP_IS_GUEST, "true")
    }

    /// The roles of the user.
    pub fn get_user_roles(&self) -> (r: Vec<&str>)
        ensures
            crate::text::views(r@) == crate::text::fields(self.roles@),
    {
        split_fields(self.roles.as_str())
    }

    /// Sets a new token against forged requests.
    pub fn generate_csrf(&mut self) -> (token: String)
        ensures
            crate::utils::is_random_text(token@, 26),
            crate::utils::valid_id(token@),
            final(self).has_added(*old(self), SESSION_PROP_CSRF@, token@),
    {
        let token: String = new_id();
        self.add_prop(SESSION_PROP_CSRF, token.as_str());
        token
    }

    /// The token against forged requests; empty where there is none.
    pub fn get_csrf(&self) -> (r: &str)
        ensures
            match self.prop_text(SESSION_PROP_CSRF@) {
                Some(s) => r@ == s,
                None => r@ == ""@,
            },
    {
        match self.prop(SESSION_PROP_CSRF) {
            Some(s) => s,
            None => "",
        }
    }
}

/// A property that was set is there, and the others are as they were.
pub proof fn added_prop_is_there(
    before: Session,
    after: Session,
    key: Seq<char>,
    value: Seq<char>,
    other: Seq<char>,
)
    requires
        after.has_added(before, key, value),
    ensures
        after.prop_is(key, value),
        other != key ==> after.prop_text(other) == before.prop_text(other),
{
}

/// A session of a user that was made ready for storing is in order.
pub proof fn saved_sessions_are_valid(before: Session, after: Session, now: int)
    requires
        after.is_saved(before, now),
        now != 0,
        before.id@.len() == 0 || crate::utils::valid_id(before.id@),
        crate::utils::valid_id(before.user_id@),
        crate::text::utf8_len(before.roles@) <= USER_ROLES_MAX_LENGTH,
    ensures
        after.fault() is None,
{
}

// ---------------------------------------------------------------------------------------------
// Devices
// ---------------------------------------------------------------------------------------------

/// The last position up to `i` at which `-v` stands; -1 where there is none.
pub open spec fn last_mark(s: Seq<char>, i: int) -> int
    decreases i + 1,
{
    if i < 0 {
        -1
    } else if i + 1 < s.len() && s[i] == '-' && s[i + 1] == 'v' {
        i
    } else {
        last_mark(s, i - 1)
    }
}

/// Whether a text is a version: digits of a number that is not too large, with or without a sign;
/// behind a minus sign only zero.
pub open spec fn is_version(s: Seq<char>) -> bool {
    let signed = s.len() > 0 && (s[0] == '+' || s[0] == '-');
    let from: int = if signed {
        1
    } else {
        0
    };
    let n = crate::calendar::number_at(s, from, s.len() as int);
    &&& from < s.len()
    &&& crate::calendar::all_digits(s, from, s.len() as int)
    &&& n <= i64::MAX
    &&& s[0] == '-' ==> n == 0
}

/// A platform without its version.
pub open spec fn platform_name(s: Seq<char>) -> Seq<char> {
    let mark = last_mark(s, s.len() - 1);
    if mark >= 0 && is_version(s.skip(mark + 2)) {
        s.take(mark)
    } else {
        s
    }
}

/// The id of a device: a platform, with or without a version, a colon and a token that is not
/// empty.
pub open spec fn valid_device(s: Seq<char>, allowed: Seq<Seq<char>>) -> bool {
    let colon = crate::text::next_at(s, ':', 0);
    colon + 1 < s.len() && allowed.contains(platform_name(s.take(colon)))
}

fn find_last_mark(chars: &[char]) -> (r: Option<usize>)
    ensures
        match r {
            Some(i) => last_mark(chars@, chars@.len() - 1) == i && i + 1 < chars@.len(),
            None => last_mark(chars@, chars@.len() - 1) == -1,
        },
{
    let mut i: usize = chars.len();
    while i > 0
        invariant
            i <= chars@.len(),
            last_mark(chars@, i - 1) == last_mark(chars@, chars@.len() - 1),
        decreases i,
    {
        if i < chars.len() && chars[i - 1] == '-' && chars[i] == 'v' {
            return Some(i - 1);
        }
        i = i - 1;
    }
    None
}

fn read_version(chars: &[char], from: usize) -> (r: bool)
    requires
        from <= chars@.len(),
    ensures
        r == is_version(chars@.skip(from as int)),
{
    let ghost s = chars@.skip(from as int);
    let n: usize = chars.len();
    if from >= n {
        return false;
    }
    let first: char = chars[from];
    assert(s[0] == first);
    let mut i: usize = from;
    if first == '+' || first == '-' {
        i = i + 1;
    }
    let start: usize = i;
    if start >= n {
        return false;
    }
    let mut number: u64 = 0;
    let mut large: bool = false;
    while i < n
        invariant
            n == chars@.len(),
            from <= start <= i <= n,
            s == chars@.skip(from as int),
            from < n,
            s[0] == first,
            start - from == (if first == '+' || first == '-' {
                1int
            } else {
                0int
            }),
            crate::calendar::all_digits(s, start - from, i - from),
            !large ==> number == crate::calendar::number_at(s, start - from, i - from) && number
                <= 9223372036854775807,
            large ==> crate::calendar::number_at(s, start - from, i - from) > 9223372036854775807,
        decreases n - i,
    {
        let c: char = chars[i];
        assert(s[i - from] == c);
        if !('0' <= c && c <= '9') {
            assert(!crate::calendar::all_digits(s, start - from, s.len() as int));
            return false;
        }
        if !large {
            let digit: u64 = (c as u64) - 48;
            let next: u128 = (number as u128) * 10 + (digit as u128);
            if next > 9223372036854775807 {
                large = true;
            } else {
                number = next as u64;
            }
        }
        i = i + 1;
    }
    if large {
        return false;
    }
    first != '-' || number == 0
}

/// Whether a text is the id of a device of an allowed platform.
pub fn is_valid_device_id(device_id: &str, allowed: &[&'static str]) -> (r: bool)
    ensures
        r == valid_device(device_id@, crate::text::views(allowed@)),
{
    let chars: Vec<char> = to_chars(device_id);
    let n: usize = chars.len();
    let colon: usize = find_from(chars.as_slice(), ':', 0);
    if colon >= n || n - colon < 2 {
        return false;
    }
    let text: String = from_chars(chars.as_slice(), 0, colon);
    let platform: Vec<char> = to_chars(text.as_str());
    assert(platform@ == device_id@.take(colon as int));
    let mut end: usize = platform.len();
    match find_last_mark(platform.as_slice()) {
        Some(mark) => {
            if read_version(platform.as_slice(), mark + 2) {
                end = mark;
            }
        },
        None => {},
    }
    let name: String = from_chars(platform.as_slice(), 0, end);
    assert(name@ == platform_name(platform@));
    is_listed(allowed, name.as_str())
}

/// Whether a text is the id of a device.
pub fn is_valid_standard_device_id(device_id: &str) -> (r: bool)
    ensures
        r == valid_device(device_id@, crate::text::views(STANDARD_DEVICE_PLATFORMS@)),
{
    is_valid_device_id(device_id, STANDARD_DEVICE_PLATFORMS.as_slice())
}

/// Whether a text is the id of a device that takes calls.
pub fn is_valid_voip_device_id(device_id: &str) -> (r: bool)
    ensures
        r == valid_device(device_id@, crate::text::views(VOIP_DEVICE_PLATFORMS@)),
{
    is_valid_device_id(device_id, VOIP_DEVICE_PLATFORMS.as_slice())
}

/// Every device that takes calls is a device.
pub proof fn voip_devices_are_devices(s: Seq<char>)
    requires
        valid_device(s, crate::text::views(VOIP_DEVICE_PLATFORMS@)),
    ensures
        valid_device(s, crate::text::views(STANDARD_DEVICE_PLATFORMS@)),
{
    let few = crate::text::views(VOIP_DEVICE_PLATFORMS@);
    let all = crate::text::views(STANDARD_DEVICE_PLATFORMS@);
    assert(all[0] == few[0] && all[1] == few[1]);
    let name = platform_name(s.take(crate::text::next_at(s, ':', 0)));
    let i = choose|i: int| 0 <= i < few.len() && few[i] == name;
    assert(all[i] == name);
}

/// As many characters from the start of a text as fit into a number of bytes.
pub open spec fn fitting_head(s: Seq<char>, bytes: int) -> Seq<char>
    decreases s.len(),
{
    if s.len() == 0 || crate::text::utf8_len(seq![s[0]]) > bytes {
        Seq::empty()
    } else {
        seq![s[0]] + fitting_head(s.skip(1), bytes - crate::text::utf8_len(seq![s[0]]))
    }
}

/// The id of a device as it may be logged: of the token only the first 16 bytes.
pub open spec fn redacted(s: Seq<char>) -> Seq<char> {
    let colon = crate::text::next_at(s, ':', 0);
    if colon + 1 >= s.len() {
        s.take(colon)
    } else {
        let token = s.skip(colon + 1);
        if crate::text::utf8_len(token) <= 16 {
            s
        } else {
            s.take(colon + 1) + fitting_head(token, 16) + seq!['\u{2026}']
        }
    }
}

fn head_of(chars: &[char], from: usize, bytes: usize) -> (r: String)
    requires
        from <= chars@.len(),
    ensures
        r@ == fitting_head(chars@.skip(from as int), bytes as int),
{
    let mut r: String = String::new();
    let mut left: usize = bytes;
    let mut i: usize = from;
    let ghost all = fitting_head(chars@.skip(from as int), bytes as int);
    assert(r@ + fitting_head(chars@.skip(i as int), left as int) == all);
    while i < chars.len()
        invariant
            from <= i <= chars@.len(),
            all == fitting_head(chars@.skip(from as int), bytes as int),
            r@ + fitting_head(chars@.skip(i as int), left as int) == all,
        decreases chars@.len() - i,
    {
        let one: String = from_chars(chars, i, i + 1);
        let width: usize = byte_len(one.as_str());
        let ghost rest = chars@.skip(i as int);
        assert(one@ == seq![rest[0]]);
        if width > left {
            assert(r@ == all);
            return r;
        }
        assert(rest.skip(1) == chars@.skip(i + 1));
        r.append(one.as_str());
        left = left - width;
        i = i + 1;
        assert(r@ + fitting_head(chars@.skip(i as int), left as int) == all);
    }
    assert(r@ == all);
    r
}

/// The id of a device as it may be logged.
pub fn redact_device_id(device_id: &str) -> (r: String)
    ensures
        r@ == redacted(device_id@),
{
    let chars: Vec<char> = to_chars(device_id);
    let n: usize = chars.len();
    let colon: usize = find_from(chars.as_slice(), ':', 0);
    let platform: String = from_chars(chars.as_slice(), 0, colon);
    assert(platform@ == device_id@.take(colon as int));
    if colon >= n || n - colon < 2 {
        return platform;
    }
    let token: String = from_chars(chars.as_slice(), colon + 1, n);
    assert(token@ == device_id@.skip(colon + 1));
    if byte_len(token.as_str()) <= 16 {
        return device_id.to_string();
    }
    let head: String = head_of(chars.as_slice(), colon + 1, 16);
    proof {
        reveal_strlit(":");
        reveal_strlit("\u{2026}");
        assert(":"@ =~= seq![':']);
        assert("\u{2026}"@ =~= seq!['\u{2026}']);
        assert(device_id@.take(colon + 1) =~= platform@ + ":"@);
    }
    cat4(platform.as_str(), ":", head.as_str(), "\u{2026}")
}

/// A session that is over stays so.
pub proof fn expired_sessions_stay_expired(s: Session, now: int, later: int)
    requires
        s.expired(now),
        now <= later,
    ensures
        s.expired(later),
{
}

/// A session lasts through the millisecond at which it expires and is over in the next one; one
/// without such a time is never over.
pub proof fn sessions_end_in_time(s: Session, now: int)
    ensures
        s.expires_at > 0 ==> s.expired(s.expires_at + 1) && !s.expired(s.expires_at as int),
        s.expires_at <= 0 ==> !s.expired(now),
        s.expires_at > 0 && now <= s.expires_at ==> !s.expired(now),
{
}

/// A session is in order if and only if all of these hold.
pub proof fn valid_sessions(s: Session)
    ensures
        (s.fault() is None) == (crate::utils::valid_id(s.id@) && crate::utils::valid_id(s.user_id@)
            && s.create_at != 0 && crate::text::utf8_len(s.roles@) <= 256),
{
}

/// A session that was made ready keeps all that it had but the times.
pub proof fn saved_sessions_keep_the_rest(before: Session, after: Session, now: int)
    requires
        after.is_saved(before, now),
    ensures
        after.create_at == now && after.last_activity_at == now,
        before.id@.len() > 0 ==> after.id@ == before.id@,
        before.token@.len() > 0 ==> after.token@ == before.token@,
        before.id@.len() == 0 ==> crate::utils::valid_id(after.id@),
        before.token@.len() == 0 ==> crate::utils::valid_id(after.token@),
        before.props is Some ==> after.props == before.props,
        after.props is Some,
        after.user_id == before.user_id && after.expires_at == before.expires_at && after.roles
            == before.roles && after.device_id == before.device_id && after.voip_device_id
            == before.voip_device_id && after.is_oauth == before.is_oauth && after.local
            == before.local && after.expired_notify == before.expired_notify
            && after.team_members == before.team_members,
{
}

/// A mark is where a hyphen and the letter `v` stand, and there is none behind it.
pub proof fn the_last_mark_is_last(s: Seq<char>, i: int)
    ensures
        -1 <= last_mark(s, i) <= i || i < 0,
        last_mark(s, i) >= 0 ==> last_mark(s, i) + 1 < s.len() && s[last_mark(s, i)] == '-' && s[
            last_mark(s, i) + 1] == 'v',
        forall|j: int|
            last_mark(s, i) < j <= i && 0 <= j && j + 1 < s.len() ==> !(#[trigger] s[j] == '-' && s[j
                + 1] == 'v'),
    decreases i + 1,
{
    if i >= 0 && !(i + 1 < s.len() && s[i] == '-' && s[i + 1] == 'v') {
        the_last_mark_is_last(s, i - 1);
    }
}

/// A number that is not too large is a version, with or without a plus sign.
pub proof fn numbers_are_versions(n: nat)
    ensures
        is_version(crate::text::digits(n)) == (n <= 9223372036854775807),
        is_version(seq!['+'] + crate::text::digits(n)) == (n <= 9223372036854775807),
        is_version(seq!['-'] + crate::text::digits(n)) == (n == 0),
{
    let d = crate::text::digits(n);
    crate::text::digits_are_digits(n);
    crate::text::digits_are_read_back(n);
    let plus = seq!['+'] + d;
    let minus = seq!['-'] + d;
    number_behind_a_sign(d, plus, d.len() as int);
    number_behind_a_sign(d, minus, d.len() as int);
    assert forall|i: int| 1 <= i < plus.len() implies '0' <= #[trigger] plus[i] <= '9' by {
        assert(plus[i] == d[i - 1]);
    }
    assert forall|i: int| 1 <= i < minus.len() implies '0' <= #[trigger] minus[i] <= '9' by {
        assert(minus[i] == d[i - 1]);
    }
}

proof fn number_behind_a_sign(d: Seq<char>, signed: Seq<char>, n: int)
    requires
        0 <= n <= d.len(),
        signed.len() == d.len() + 1,
        forall|i: int| 0 <= i < d.len() ==> signed[i + 1] == #[trigger] d[i],
    ensures
        crate::calendar::number_at(signed, 1, n + 1) == crate::calendar::number_at(d, 0, n),
    decreases n,
{
    if n > 0 {
        number_behind_a_sign(d, signed, n - 1);
        assert(signed[n] == d[n - 1]);
    }
}

/// A platform, a colon and a token are the id of a device if the platform is allowed, with a version
/// behind it or without. A platform holds no colon and no mark of a version.
pub proof fn devices_are_platforms_and_tokens(
    platform: Seq<char>,
    version: nat,
    token: Seq<char>,
    allowed: Seq<Seq<char>>,
)
    requires
        !platform.contains(':'),
        last_mark(platform, platform.len() - 1) == -1,
        version <= 9223372036854775807,
    ensures
        valid_device(platform + seq![':'] + token, allowed) == (token.len() > 0 && allowed.contains(
            platform,
        )),
        valid_device(
            platform + seq!['-', 'v'] + crate::text::digits(version) + seq![':'] + token,
            allowed,
        ) == (token.len() > 0 && allowed.contains(platform)),
        !valid_device(platform, allowed),
{
    let plain = platform + seq![':'] + token;
    crate::text::next_at_is_first(platform, ':', 0, platform.len() as int);
    assert forall|j: int| 0 <= j < platform.len() implies plain[j] != ':' by {
        assert(plain[j] == platform[j]);
    }
    crate::text::next_at_is_first(plain, ':', 0, platform.len() as int);
    assert(plain.take(platform.len() as int) =~= platform);
    let d = crate::text::digits(version);
    crate::text::digits_are_digits(version);
    let front = platform + seq!['-', 'v'] + d;
    let dated = front + seq![':'] + token;
    assert forall|j: int| 0 <= j < front.len() implies dated[j] != ':' by {
        assert(dated[j] == front[j]);
        if j < platform.len() {
            assert(front[j] == platform[j]);
        } else if j >= platform.len() + 2 {
            assert(front[j] == d[j - platform.len() - 2]);
        }
    }
    crate::text::next_at_is_first(dated, ':', 0, front.len() as int);
    assert(dated.take(front.len() as int) =~= front);
    let mark = platform.len() as int;
    assert forall|j: int| mark < j < front.len() - 1 implies !(#[trigger] front[j] == '-' && front[j
        + 1] == 'v') by {
        if j >= mark + 2 {
            assert(front[j] == d[j - mark - 2]);
        }
    }
    last_mark_is_found(front, mark, front.len() - 1);
    assert(front.skip(mark + 2) =~= d);
    assert(front.take(mark) =~= platform);
    numbers_are_versions(version);
}

proof fn last_mark_is_found(s: Seq<char>, mark: int, i: int)
    requires
        0 <= mark <= i < s.len(),
        mark + 1 < s.len(),
        s[mark] == '-' && s[mark + 1] == 'v',
        forall|j: int| mark < j < s.len() - 1 ==> !(#[trigger] s[j] == '-' && s[j + 1] == 'v'),
    ensures
        last_mark(s, i) == mark,
    decreases i,
{
    if i > mark {
        last_mark_is_found(s, mark, i - 1);
    }
}

proof fn bytes_add_up(c: char, s: Seq<char>)
    ensures
        crate::text::utf8_len(seq![c] + s) == crate::text::utf8_len(seq![c]) + crate::text::utf8_len(
            s,
        ),
        crate::text::utf8_len(Seq::empty()) == 0,
{
    let all = seq![c] + s;
    assert(all.drop_first() =~= s);
    assert(seq![c].drop_first() =~= Seq::<char>::empty());
    assert(vstd::utf8::encode_utf8(Seq::<char>::empty()).len() == 0);
    assert(vstd::utf8::encode_utf8(seq![c]).len() == vstd::utf8::encode_scalar(c as u32).len());
    assert(vstd::utf8::encode_utf8(all).len() == vstd::utf8::encode_scalar(c as u32).len()
        + vstd::utf8::encode_utf8(s).len());
}

/// The head of a text is its start, fits, and is as long as it can be.
pub proof fn heads_fit_and_are_longest(s: Seq<char>, bytes: int)
    requires
        bytes >= 0,
    ensures
        ({
            let head = fitting_head(s, bytes);
            &&& head.len() <= s.len()
            &&& head == s.take(head.len() as int)
            &&& crate::text::utf8_len(head) <= bytes
            &&& head.len() < s.len() ==> crate::text::utf8_len(head) + crate::text::utf8_len(
                seq![s[head.len() as int]],
            ) > bytes
        }),
    decreases s.len(),
{
    bytes_add_up('a', s);
    if s.len() > 0 && crate::text::utf8_len(seq![s[0]]) <= bytes {
        let rest = s.skip(1);
        let left = bytes - crate::text::utf8_len(seq![s[0]]);
        heads_fit_and_are_longest(rest, left);
        let tail = fitting_head(rest, left);
        bytes_add_up(s[0], tail);
        let head = fitting_head(s, bytes);
        assert(head =~= s.take(head.len() as int));
        if head.len() < s.len() {
            assert(rest[tail.len() as int] == s[head.len() as int]);
        }
    } else {
        assert(s.take(0) =~= Seq::<char>::empty());
    }
}

/// A log shows the platform of a device and at most sixteen bytes of its token, and an ellipsis
/// where there is more of it.
pub proof fn logs_show_little_of_a_token(platform: Seq<char>, token: Seq<char>)
    requires
        !platform.contains(':'),
    ensures
        ({
            let shown = redacted(platform + seq![':'] + token);
            let head = fitting_head(token, 16);
            &&& token.len() == 0 ==> shown == platform
            &&& token.len() > 0 && crate::text::utf8_len(token) <= 16 ==> shown == platform + seq![':']
                + token
            &&& crate::text::utf8_len(token) > 16 ==> shown == platform + seq![':'] + head + seq![
                '\u{2026}',
            ]
        }),
        redacted(platform) == platform,
{
    let s = platform + seq![':'] + token;
    let colon: int = platform.len() as int;
    assert forall|j: int| 0 <= j < platform.len() implies s[j] != ':' by {
        assert(s[j] == platform[j]);
    }
    crate::text::next_at_is_first(s, ':', 0, platform.len() as int);
    crate::text::next_at_is_first(platform, ':', 0, platform.len() as int);
    assert(s.take(platform.len() as int) =~= platform);
    assert(s.take(colon + 1) =~= platform + seq![':']);
    assert(s.skip(colon + 1) =~= token);
    assert(platform.take(platform.len() as int) =~= platform);
    if token.len() == 0 {
        bytes_add_up('a', token);
        assert(token =~= Seq::<char>::empty());
    }
}

/// A property holds if its text is one of six.
pub proof fn truths_have_six_spellings(s: Session, key: Seq<char>)
    ensures
        s.prop_holds(key) == (s.props is Some && s.props->0@.dom().contains(key) && {
            let text = s.props->0@[key]@;
            ||| text == "1"@
            ||| text == "t"@
            ||| text == "T"@
            ||| text == "true"@
            ||| text == "True"@
            ||| text == "TRUE"@
        }),
{
}

/// Where one field alone has to change for a session to be in order, the error is that
/// of the field.
pub proof fn faults_of_a_session_are_named(bad: Session, good: Session)
    requires
        bad.fault() is Some,
        good.fault() is None,
    ensures
        good == (Session { id: good.id, ..bad }) ==> crate::utils::reports(
            bad.fault()->0,
            "Session.IsValid"@,
            "model.session.is_valid."@ + "id"@ + ".app_error"@,
            ""@,
            400,
        ),
        good == (Session { user_id: good.user_id, ..bad }) ==> crate::utils::reports(
            bad.fault()->0,
            "Session.IsValid"@,
            "model.session.is_valid."@ + "user_id"@ + ".app_error"@,
            ""@,
            400,
        ),
        good == (Session { create_at: good.create_at, ..bad }) ==> crate::utils::reports(
            bad.fault()->0,
            "Session.IsValid"@,
            "model.session.is_valid."@ + "create_at"@ + ".app_error"@,
            ""@,
            400,
        ),
        good == (Session { roles: good.roles, ..bad }) ==> crate::utils::reports(
            bad.fault()->0,
            "Session.IsValid"@,
            "model.session.is_valid."@ + "roles_limit"@ + ".app_error"@,
            "session_id="@ + bad.id@,
            400,
        ),
{
}

/// What is wrong with the first fields of a session is reported whatever the fields behind
/// them are.
pub proof fn faults_of_a_session_come_in_order(all: Session, good: Session)
    requires
        good.fault() is None,
    ensures
        ({
            let first = Session { id: all.id, ..good };
            first.fault() is Some ==> all.fault() == first.fault()
        }),
        ({
            let first = Session { id: all.id, user_id: all.user_id, ..good };
            first.fault() is Some ==> all.fault() == first.fault()
        }),
        ({
            let first = Session {
                id: all.id,
                user_id: all.user_id,
                create_at: all.create_at,
                ..good
            };
            first.fault() is Some ==> all.fault() == first.fault()
        }),
        ({
            let first = Session {
                id: all.id,
                user_id: all.user_id,
                create_at: all.create_at,
                roles: all.roles,
                ..good
            };
            first.fault() is Some ==> all.fault() == first.fault()
        }),
{
}

/// A team that is among the members is found, and at its first place.
pub proof fn teams_are_found_at_their_first_place(s: Session, team_id: Seq<char>, k: int)
    requires
        s.team_members is Some,
        0 <= k < s.team_members->0@.len(),
        s.team_members->0@[k].team_id@ == team_id,
    ensures
        exists|i: int| i <= k && #[trigger] s.team_at(team_id, i),
        forall|i: int| #[trigger] s.team_at(team_id, i) ==> 0 <= i <= k && s.team_members->0@[i].team_id@
            == team_id,
    decreases k,
{
    let members = s.team_members->0@;
    if exists|j: int| 0 <= j < k && (#[trigger] members[j]).team_id@ == team_id {
        let j = choose|j: int| 0 <= j < k && (#[trigger] members[j]).team_id@ == team_id;
        teams_are_found_at_their_first_place(s, team_id, j);
    } else {
        assert(s.team_at(team_id, k));
    }
    assert forall|i: int| #[trigger] s.team_at(team_id, i) implies 0 <= i <= k
        && s.team_members->0@[i].team_id@ == team_id by {
        if k < i {
            assert(members[k].team_id@ != team_id);
        }
    }
}

/// A property holds if it is there and spells a truth.
pub proof fn properties_hold_if_they_are_true(s: Session, key: Seq<char>)
    ensures
        s.props is None ==> s.prop_text(key) is None,
        s.props is Some && !s.props->0@.dom().contains(key) ==> s.prop_text(key) is None,
        s.props is Some && s.props->0@.dom().contains(key) ==> s.prop_text(key) == Some(
            s.props->0@[key]@,
        ),
        s.prop_text(key) is None ==> !s.prop_holds(key),
        s.prop_text(key) == Some("true"@) ==> s.prop_holds(key),
        s.prop_text(key) == Some("false"@) ==> !s.prop_holds(key),
        forall|value: Seq<char>| #[trigger] s.prop_is(key, value) == (s.prop_text(key) == Some(value)),
{
    reveal_strlit("true");
    reveal_strlit("false");
    reveal_strlit("1");
    reveal_strlit("t");
    reveal_strlit("T");
    reveal_strlit("TRUE");
    reveal_strlit("True");
    assert("false"@.len() == 5 && "true"@.len() == 4 && "TRUE"@.len() == 4 && "True"@.len() == 4);
    assert("1"@.len() == 1 && "t"@.len() == 1 && "T"@.len() == 1);
}

} // verus!
