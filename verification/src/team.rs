//! Teams and their names.

use vstd::prelude::*;
use vstd::string::StrSliceExecFns;

use crate::str_map::{StrMap, StringMap};
use crate::text::{
    byte_len, cat, cat3, decimal_text, from_chars, has_prefix, remove_all, same, to_chars, trimmed,
};
use crate::utils::{
    ensure_id, etag, get_millis, is_valid_alpha_num, is_valid_email, is_valid_id, new_id,
    reserved_names, sanitize_unicode, to_lower, AppError, AppResult,
};

verus! {

pub const TEAM_OPEN: &'static str = "O";

pub const TEAM_INVITE: &'static str = "I";

pub const TEAM_ALLOWED_DOMAINS_MAX_LENGTH: usize = 500;

pub const TEAM_COMPANY_NAME_MAX_LENGTH: usize = 64;

pub const TEAM_DESCRIPTION_MAX_LENGTH: usize = 255;

pub const TEAM_DISPLAY_NAME_MAX_RUNES: usize = 64;

pub const TEAM_EMAIL_MAX_LENGTH: usize = 128;

pub const TEAM_NAME_MAX_LENGTH: usize = 64;

pub const TEAM_NAME_MIN_LENGTH: usize = 2;

pub const ACCESS_CONTROL_POLICY_ACTION_MEMBERSHIP: &'static str = "membership";

/// A team.
#[derive(Debug, Clone, Default, PartialEq, Eq)]
pub struct Team {
    pub id: String,
    pub create_at: i64,
    pub update_at: i64,
    pub delete_at: i64,
    pub display_name: String,
    pub name: String,
    pub description: String,
    pub email: String,
    pub team_type: String,
    pub company_name: String,
    pub allowed_domains: String,
    pub invite_id: String,
    pub allow_open_invite: bool,
    pub last_team_icon_update: i64,
    pub scheme_id: Option<String>,
    pub group_constrained: Option<bool>,
    /// The policy on how long data are kept.
    pub policy_id: Option<String>,
    pub cloud_limits_archived: bool,
    /// Whether there is a policy on access.
    pub policy_enforced: bool,
    /// The actions that the policy on access decides, where they are known.
    pub policy_actions: Option<StrMap<bool>>,
    pub policy_is_active: bool,
    pub recommended: bool,
}

/// A change of a team. What is not there stays.
#[derive(Debug, Clone, Default, PartialEq, Eq)]
pub struct TeamPatch {
    pub display_name: Option<String>,
    pub description: Option<String>,
    pub company_name: Option<String>,
    pub allowed_domains: Option<String>,
    pub allow_open_invite: Option<bool>,
    pub group_constrained: Option<bool>,
    pub cloud_limits_archived: Option<bool>,
}

/// Invitations, each with what is known of the invited.
#[derive(Debug, Clone, Default, PartialEq, Eq)]
pub struct Invites {
    pub invites: Vec<StringMap>,
}

/// The address of an invited user; empty where it is not known.
pub open spec fn invited_email(invite: StringMap) -> Seq<char> {
    let known = crate::str_map::texts(invite@);
    if known.dom().contains("email"@) {
        known["email"@]
    } else {
        ""@
    }
}

impl Invites {
    /// The addresses of all the invited, in their order.
    pub fn to_email_list(&self) -> (r: Vec<&str>)
        ensures
            crate::text::views(r@) == self.invites@.map_values(|m: StringMap| invited_email(m)),
    {
        let mut r: Vec<&str> = Vec::new();
        let mut i: usize = 0;
        while i < self.invites.len()
            invariant
                i <= self.invites@.len(),
                r@.len() == i,
                forall|k: int| 0 <= k < i ==> (#[trigger] r@[k])@ == invited_email(self.invites@[k]),
            decreases self.invites@.len() - i,
        {
            let address: &str = match self.invites[i].get("email") {
                Some(s) => s.as_str(),
                None => "",
            };
            r.push(address);
            i = i + 1;
        }
        assert(crate::text::views(r@) =~= self.invites@.map_values(
            |m: StringMap| invited_email(m),
        ));
        r
    }
}

/// Some of the teams, and how many there are.
#[derive(Debug, Clone, Default, PartialEq, Eq)]
pub struct TeamsWithCount {
    pub teams: Vec<Team>,
    pub total_count: i64,
}

/// A team together with the name of its scheme, as it is exported.
#[derive(Debug, Clone, Default, PartialEq, Eq)]
pub struct TeamForExport {
    pub team: Team,
    pub scheme_name: Option<String>,
}

/// The error of a field of a team.
pub open spec fn team_fault(field: Seq<char>, details: Seq<char>) -> crate::utils::ErrorModel {
    crate::utils::plain_error(
        "Team.IsValid"@,
        "model.team.is_valid."@ + field + ".app_error"@,
        details,
        400,
    )
}

fn team_error(field: &str, details: &str) -> (e: Box<AppError>)
    ensures
        e@ == team_fault(field@, details@),
{
    let id: String = cat3("model.team.is_valid.", field, ".app_error");
    AppError::boxed("Team.IsValid", id.as_str(), None, details, 400)
}

/// The text of a change, or the one that was there.
pub open spec fn text_or(change: Option<String>, before: String) -> String {
    match change {
        Some(s) => s,
        None => before,
    }
}

fn change_text(field: &mut String, change: &Option<String>)
    ensures
        *final(field) == text_or(*change, *old(field)),
{
    if let Some(s) = change {
        *field = s.clone();
    }
}

fn change_flag(field: &mut bool, change: Option<bool>)
    ensures
        *final(field) == match change {
            Some(b) => b,
            None => *old(field),
        },
{
    if let Some(b) = change {
        *field = b;
    }
}

impl Team {
    /// Whether the policy on access decides an action.
    pub open spec fn decides(&self, action: Seq<char>) -> bool {
        match self.policy_actions {
            Some(m) => m@.dom().contains(action) && m@[action],
            None => false,
        }
    }

    /// Whether the policy on access decides an action.
    pub fn has_policy_action(&self, action: &str) -> (r: bool)
        ensures
            r == self.decides(action@),
    {
        match &self.policy_actions {
            Some(m) => match m.get(action) {
                Some(b) => *b,
                None => false,
            },
            None => false,
        }
    }

    /// Whether the policy on access decides who may be a member.
    pub fn has_membership_policy_action(&self) -> (r: bool)
        ensures
            r == self.decides(ACCESS_CONTROL_POLICY_ACTION_MEMBERSHIP@),
    {
        self.has_policy_action(ACCESS_CONTROL_POLICY_ACTION_MEMBERSHIP)
    }

    /// Whether groups decide who is a member.
    pub fn is_group_constrained(&self) -> (r: bool)
        ensures
            r == (self.group_constrained == Some(true)),
    {
        match self.group_constrained {
            Some(b) => b,
            None => false,
        }
    }

    /// Hides the address and the invitation.
    pub fn sanitize(&mut self)
        ensures
            *final(self) == (Team {
                email: final(self).email,
                invite_id: final(self).invite_id,
                ..*old(self)
            }),
            final(self).email@.len() == 0,
            final(self).invite_id@.len() == 0,
    {
        self.email = String::new();
        self.invite_id = String::new();
    }

    /// The first thing that is wrong with the team.
    pub open spec fn fault(&self) -> Option<crate::utils::ErrorModel> {
        let details = "id="@ + self.id@;
        if !crate::utils::valid_id(self.id@) {
            Some(team_fault("id"@, ""@))
        } else if self.create_at == 0 {
            Some(team_fault("create_at"@, details))
        } else if self.update_at == 0 {
            Some(team_fault("update_at"@, details))
        } else if crate::text::utf8_len(self.email@) > TEAM_EMAIL_MAX_LENGTH {
            Some(team_fault("email"@, details))
        } else if self.email@.len() > 0 && !crate::utils::valid_email(self.email@) {
            Some(team_fault("email"@, details))
        } else if !(1 <= self.display_name@.len() <= TEAM_DISPLAY_NAME_MAX_RUNES) {
            Some(team_fault("name"@, details))
        } else if crate::text::utf8_len(self.name@) > TEAM_NAME_MAX_LENGTH {
            Some(team_fault("url"@, details))
        } else if crate::text::utf8_len(self.description@) > TEAM_DESCRIPTION_MAX_LENGTH {
            Some(team_fault("description"@, details))
        } else if self.invite_id@.len() == 0 {
            Some(team_fault("invite_id"@, details))
        } else if reserved_team_name(self.name@) {
            Some(team_fault("reserved"@, details))
        } else if !valid_team_name(self.name@) {
            Some(team_fault("characters"@, details))
        } else if self.team_type@ != TEAM_OPEN@ && self.team_type@ != TEAM_INVITE@ {
            Some(team_fault("type"@, details))
        } else if crate::text::utf8_len(self.company_name@) > TEAM_COMPANY_NAME_MAX_LENGTH {
            Some(team_fault("company"@, details))
        } else if crate::text::utf8_len(self.allowed_domains@) > TEAM_ALLOWED_DOMAINS_MAX_LENGTH {
            Some(team_fault("domains"@, details))
        } else {
            None
        }
    }

    /// Whether the team is in order.
    pub fn is_valid(&self) -> (r: AppResult)
        ensures
            crate::utils::fault_of(r) == self.fault(),
    {
        let details: String = cat("id=", self.id.as_str());
        if !is_valid_id(self.id.as_str()) {
            return Err(team_error("id", ""));
        }
        if self.create_at == 0 {
            return Err(team_error("create_at", details.as_str()));
        }
        if self.update_at == 0 {
            return Err(team_error("update_at", details.as_str()));
        }
        if byte_len(self.email.as_str()) > TEAM_EMAIL_MAX_LENGTH {
            return Err(team_error("email", details.as_str()));
        }
        if !self.email.as_str().is_empty() && !is_valid_email(self.email.as_str()) {
            return Err(team_error("email", details.as_str()));
        }
        let shown: usize = self.display_name.as_str().unicode_len();
        if shown == 0 || shown > TEAM_DISPLAY_NAME_MAX_RUNES {
            return Err(team_error("name", details.as_str()));
        }
        if byte_len(self.name.as_str()) > TEAM_NAME_MAX_LENGTH {
            return Err(team_error("url", details.as_str()));
        }
        if byte_len(self.description.as_str()) > TEAM_DESCRIPTION_MAX_LENGTH {
            return Err(team_error("description", details.as_str()));
        }
        if self.invite_id.as_str().is_empty() {
            return Err(team_error("invite_id", details.as_str()));
        }
        if is_reserved_team_name(self.name.as_str()) {
            return Err(team_error("reserved", details.as_str()));
        }
        if !is_valid_team_name(self.name.as_str()) {
            return Err(team_error("characters", details.as_str()));
        }
        if !same(self.team_type.as_str(), TEAM_OPEN) && !same(self.team_type.as_str(), TEAM_INVITE) {
            return Err(team_error("type", details.as_str()));
        }
        if byte_len(self.company_name.as_str()) > TEAM_COMPANY_NAME_MAX_LENGTH {
            return Err(team_error("company", details.as_str()));
        }
        if byte_len(self.allowed_domains.as_str()) > TEAM_ALLOWED_DOMAINS_MAX_LENGTH {
            return Err(team_error("domains", details.as_str()));
        }
        Ok(())
    }

    /// The entity tag of the team.
    pub fn etag(&self) -> (r: String)
        ensures
            r@ == crate::utils::entity_tag(
                seq![self.id@, crate::text::decimal(self.update_at as int)],
            ),
    {
        let parts: Vec<String> = vec![self.id.clone(), decimal_text(self.update_at)];
        assert(crate::text::views(parts@) =~= seq![
            self.id@,
            crate::text::decimal(self.update_at as int),
        ]);
        etag(parts.as_slice())
    }

    /// Whether this is a team with clean texts, all else being as it was but ids and times.
    pub open spec fn is_cleaned(&self, before: Team) -> bool {
        &&& *self == (Team {
            id: self.id,
            invite_id: self.invite_id,
            create_at: self.create_at,
            update_at: self.update_at,
            name: self.name,
            display_name: self.display_name,
            description: self.description,
            company_name: self.company_name,
            ..before
        })
        &&& self.name@ == crate::utils::wanted(before.name@)
        &&& self.display_name@ == crate::utils::wanted(before.display_name@)
        &&& self.description@ == crate::utils::wanted(before.description@)
        &&& self.company_name@ == crate::utils::wanted(before.company_name@)
    }

    /// Whether this is a team that was made ready for storing at an instant. When it was made is
    /// forgotten.
    pub open spec fn is_saved(&self, before: Team, now: int) -> bool {
        &&& self.is_cleaned(before)
        &&& crate::utils::kept_or_new_id(self.id@, before.id@)
        &&& crate::utils::kept_or_new_id(self.invite_id@, before.invite_id@)
        &&& self.create_at == now
        &&& self.update_at == now
    }

    /// Whether this is a changed team that was made ready for storing at an instant.
    pub open spec fn is_updated(&self, before: Team, now: int) -> bool {
        &&& self.is_cleaned(before)
        &&& self.id == before.id
        &&& self.invite_id == before.invite_id
        &&& self.create_at == before.create_at
        &&& self.update_at == now
    }

    fn clean(&mut self)
        ensures
            final(self).is_cleaned(*old(self)),
            final(self).id == old(self).id,
            final(self).invite_id == old(self).invite_id,
            final(self).create_at == old(self).create_at,
            final(self).update_at == old(self).update_at,
    {
        self.name = sanitize_unicode(self.name.as_str());
        self.display_name = sanitize_unicode(self.display_name.as_str());
        self.description = sanitize_unicode(self.description.as_str());
        self.company_name = sanitize_unicode(self.company_name.as_str());
    }

    /// Makes the team ready for storing at an instant.
    pub fn pre_save_at(&mut self, now: i64)
        ensures
            final(self).is_saved(*old(self), now as int),
    {
        ensure_id(&mut self.id);
        self.create_at = now;
        self.update_at = now;
        self.clean();
        ensure_id(&mut self.invite_id);
    }

    /// Makes the team ready for storing: ids where there are none, clean texts, and the time.
    pub fn pre_save(&mut self)
        ensures
            exists|now: int|
                crate::utils::is_clock(now) && #[trigger] final(self).is_saved(*old(self), now),
    {
        let now: i64 = get_millis();
        self.pre_save_at(now);
    }

    /// Makes a changed team ready for storing at an instant.
    pub fn pre_update_at(&mut self, now: i64)
        ensures
            final(self).is_updated(*old(self), now as int),
    {
        self.update_at = now;
        self.clean();
    }

    /// Makes a changed team ready for storing: clean texts, and the time of the change.
    pub fn pre_update(&mut self)
        ensures
            exists|now: int|
                crate::utils::is_clock(now) && #[trigger] final(self).is_updated(*old(self), now),
    {
        let now: i64 = get_millis();
        self.pre_update_at(now);
    }

    /// Whether this is a team after a change.
    pub open spec fn is_patched(&self, before: Team, patch: TeamPatch) -> bool {
        *self == (Team {
            display_name: text_or(patch.display_name, before.display_name),
            description: text_or(patch.description, before.description),
            company_name: text_or(patch.company_name, before.company_name),
            allowed_domains: text_or(patch.allowed_domains, before.allowed_domains),
            allow_open_invite: match patch.allow_open_invite {
                Some(b) => b,
                None => before.allow_open_invite,
            },
            group_constrained: if patch.group_constrained is Some {
                patch.group_constrained
            } else {
                before.group_constrained
            },
            cloud_limits_archived: match patch.cloud_limits_archived {
                Some(b) => b,
                None => before.cloud_limits_archived,
            },
            ..before
        })
    }

    /// Changes the team.
    pub fn patch(&mut self, patch: &TeamPatch)
        ensures
            final(self).is_patched(*old(self), *patch),
    {
        change_text(&mut self.display_name, &patch.display_name);
        change_text(&mut self.description, &patch.description);
        change_text(&mut self.company_name, &patch.company_name);
        change_text(&mut self.allowed_domains, &patch.allowed_domains);
        change_flag(&mut self.allow_open_invite, patch.allow_open_invite);
        if patch.group_constrained.is_some() {
            self.group_constrained = patch.group_constrained;
        }
        change_flag(&mut self.cloud_limits_archived, patch.cloud_limits_archived);
    }
}

// ---------------------------------------------------------------------------------------------
// Names
// ---------------------------------------------------------------------------------------------

/// Whether a name begins, in lower case, with a reserved one.
pub open spec fn reserved_team_name(s: Seq<char>) -> bool {
    exists|i: int|
        0 <= i < crate::utils::reserved().len() && crate::text::starts_with(
            crate::utils::lower(s),
            #[trigger] crate::utils::reserved()[i],
        )
}

/// Whether a name is reserved.
pub fn is_reserved_team_name(s: &str) -> (r: bool)
    ensures
        r == reserved_team_name(s@),
{
    let low: String = to_lower(s);
    let names: Vec<&'static str> = reserved_names();
    let ghost all = crate::utils::reserved();
    let mut i: usize = 0;
    while i < names.len()
        invariant
            all == crate::utils::reserved(),
            crate::text::views(names@) == all,
            low@ == crate::utils::lower(s@),
            i <= names@.len(),
            forall|j: int| 0 <= j < i ==> !crate::text::starts_with(low@, #[trigger] all[j]),
        decreases names@.len() - i,
    {
        assert(all[i as int] == names@[i as int]@);
        if has_prefix(low.as_str(), names[i]) {
            return true;
        }
        i = i + 1;
    }
    assert(names@.len() == all.len());
    false
}

/// The name of a team: lower-case letters, digits and inner hyphens, at least two characters.
pub open spec fn valid_team_name(s: Seq<char>) -> bool {
    crate::pattern::alpha_num_shape(s) && crate::text::utf8_len(s) >= TEAM_NAME_MIN_LENGTH
}

/// Whether a text may be the name of a team.
pub fn is_valid_team_name(s: &str) -> (r: bool)
    ensures
        r == valid_team_name(s@),
{
    is_valid_alpha_num(s) && byte_len(s) >= TEAM_NAME_MIN_LENGTH
}

/// A text in lower case with hyphens for spaces.
pub open spec fn hyphenated(s: Seq<char>) -> Seq<char> {
    crate::utils::lower(
        s.map_values(
            |c: char|
                if c == ' ' {
                    '-'
                } else {
                    c
                },
        ),
    )
}

/// A text out of which the first `n` reserved names were taken in turn: each one everywhere, if
/// the text begins with it then.
pub open spec fn unreserved(s: Seq<char>, n: int) -> Seq<char>
    decreases n,
{
    if n <= 0 {
        s
    } else {
        let t = unreserved(s, n - 1);
        let name = crate::utils::reserved()[n - 1];
        if crate::text::starts_with(t, name) {
            crate::text::without(t, name)
        } else {
            t
        }
    }
}

/// The lower-case letters, digits and hyphens of a text.
pub open spec fn kept_chars(s: Seq<char>) -> Seq<char>
    decreases s.len(),
{
    if s.len() == 0 {
        s
    } else {
        let before = kept_chars(s.drop_last());
        if crate::pattern::is_lower_digit(s.last()) || s.last() == '-' {
            before.push(s.last())
        } else {
            before
        }
    }
}

/// A text without hyphens at its ends.
pub open spec fn bare(s: Seq<char>) -> Seq<char> {
    crate::pattern::drop_end(
        crate::pattern::drop_start(s, |c: char| c == '-'),
        |c: char| c == '-',
    )
}

/// What is left of a text as the name of a team.
pub open spec fn cleaned_name(s: Seq<char>) -> Seq<char> {
    let free = unreserved(hyphenated(s), crate::utils::reserved().len() as int);
    bare(kept_chars(crate::text::trim(free)))
}

fn hyphenate(s: &str) -> (r: String)
    ensures
        r@ == hyphenated(s@),
{
    let chars: Vec<char> = to_chars(s);
    let mut t: String = String::new();
    let mut i: usize = 0;
    let ghost f = |c: char|
        if c == ' ' {
            '-'
        } else {
            c
        };
    while i < chars.len()
        invariant
            chars@ == s@,
            i <= chars@.len(),
            t@ == s@.take(i as int).map_values(f),
            forall|c: char| #[trigger] f(c) == (if c == ' ' {
                '-'
            } else {
                c
            }),
        decreases chars@.len() - i,
    {
        let c: char = if chars[i] == ' ' {
            '-'
        } else {
            chars[i]
        };
        t.push(c);
        assert(s@.take(i + 1).map_values(f) =~= s@.take(i as int).map_values(f).push(c));
        i = i + 1;
    }
    assert(s@.take(i as int) == s@);
    assert(t@ =~= s@.map_values(f));
    to_lower(t.as_str())
}

fn keep_chars(s: &str) -> (r: Vec<char>)
    ensures
        r@ == kept_chars(s@),
{
    let chars: Vec<char> = to_chars(s);
    let mut r: Vec<char> = Vec::new();
    let mut i: usize = 0;
    assert(s@.take(0) == Seq::<char>::empty());
    while i < chars.len()
        invariant
            chars@ == s@,
            i <= chars@.len(),
            r@ == kept_chars(s@.take(i as int)),
        decreases chars@.len() - i,
    {
        let c: char = chars[i];
        assert(s@.take(i + 1).drop_last() == s@.take(i as int));
        if crate::pattern::lower_digit_char(c) || c == '-' {
            r.push(c);
        }
        i = i + 1;
    }
    assert(s@.take(i as int) == s@);
    r
}

fn bare_text(chars: &[char]) -> (r: String)
    ensures
        r@ == bare(chars@),
{
    let ghost hyphen = |c: char| c == '-';
    let n: usize = chars.len();
    let mut from: usize = 0;
    assert(chars@.skip(0) == chars@);
    while from < n && chars[from] == '-'
        invariant
            n == chars@.len(),
            from <= n,
            hyphen == (|c: char| c == '-'),
            crate::pattern::drop_start(chars@.skip(from as int), hyphen)
                == crate::pattern::drop_start(chars@, hyphen),
        decreases n - from,
    {
        assert(chars@.skip(from as int).skip(1) == chars@.skip(from + 1));
        from = from + 1;
    }
    let ghost headless = chars@.skip(from as int);
    assert(headless == crate::pattern::drop_start(chars@, hyphen));
    let mut to: usize = n;
    assert(chars@.subrange(from as int, n as int) == headless);
    while to > from && chars[to - 1] == '-'
        invariant
            n == chars@.len(),
            from <= to <= n,
            hyphen == (|c: char| c == '-'),
            crate::pattern::drop_end(chars@.subrange(from as int, to as int), hyphen)
                == crate::pattern::drop_end(headless, hyphen),
        decreases to - from,
    {
        assert(chars@.subrange(from as int, to as int).drop_last() == chars@.subrange(
            from as int,
            to - 1,
        ));
        to = to - 1;
    }
    from_chars(chars, from, to)
}

/// A name for a team out of a text; a new id where nothing else is left. It is always the name of
/// a team.
pub fn clean_team_name(s: &str) -> (r: String)
    ensures
        if valid_team_name(cleaned_name(s@)) {
            r@ == cleaned_name(s@)
        } else {
            crate::utils::is_random_text(r@, 26)
        },
        valid_team_name(r@),
{
    let mut t: String = hyphenate(s);
    let names: Vec<&'static str> = reserved_names();
    let ghost all = crate::utils::reserved();
    let mut i: usize = 0;
    while i < names.len()
        invariant
            all == crate::utils::reserved(),
            crate::text::views(names@) == all,
            i <= names@.len(),
            t@ == unreserved(hyphenated(s@), i as int),
        decreases names@.len() - i,
    {
        assert(all[i as int] == names@[i as int]@);
        if has_prefix(t.as_str(), names[i]) {
            t = remove_all(t.as_str(), names[i]);
        }
        i = i + 1;
    }
    assert(names@.len() == all.len());
    let kept: Vec<char> = keep_chars(trimmed(t.as_str()));
    let name: String = bare_text(kept.as_slice());
    if is_valid_team_name(name.as_str()) {
        return name;
    }
    let id: String = new_id();
    proof {
        random_texts_are_team_names(id@);
    }
    id
}

/// Every new id may be the name of a team.
pub proof fn random_texts_are_team_names(s: Seq<char>)
    requires
        crate::utils::is_random_text(s, 26),
    ensures
        valid_team_name(s),
{
    assert forall|i: int| 0 <= i < s.len() implies crate::pattern::is_lower_digit(
        #[trigger] s[i],
    ) by {
        assert(crate::utils::id_char(s[i]));
    }
    crate::utils::random_text_is_valid_id(s);
}

/// To change a team twice in the same way is to change it once.
pub proof fn patching_is_idempotent(before: Team, patch: TeamPatch, once: Team, twice: Team)
    requires
        once.is_patched(before, patch),
        twice.is_patched(once, patch),
    ensures
        twice == once,
{
}

/// A change of nothing leaves a team as it is.
pub proof fn empty_patch_changes_nothing(before: Team, after: Team)
    requires
        after.is_patched(
            before,
            (TeamPatch {
                display_name: None,
                description: None,
                company_name: None,
                allowed_domains: None,
                allow_open_invite: None,
                group_constrained: None,
                cloud_limits_archived: None,
            }),
        ),
    ensures
        after == before,
{
}

/// A team is in order if and only if all of these hold.
pub proof fn valid_teams(t: Team)
    ensures
        (t.fault() is None) == ({
            &&& crate::utils::valid_id(t.id@)
            &&& t.create_at != 0 && t.update_at != 0
            &&& crate::text::utf8_len(t.email@) <= 128
            &&& t.email@.len() > 0 ==> crate::utils::valid_email(t.email@)
            &&& 1 <= t.display_name@.len() <= 64
            &&& crate::text::utf8_len(t.name@) <= 64
            &&& crate::text::utf8_len(t.description@) <= 255
            &&& t.invite_id@.len() > 0
            &&& !reserved_team_name(t.name@)
            &&& valid_team_name(t.name@)
            &&& t.team_type@ == "O"@ || t.team_type@ == "I"@
            &&& crate::text::utf8_len(t.company_name@) <= 64
            &&& crate::text::utf8_len(t.allowed_domains@) <= 500
        }),
{
}

/// A change of a team changes what it holds, and nothing else.
pub proof fn patches_change_what_they_hold(before: Team, after: Team, patch: TeamPatch)
    requires
        after.is_patched(before, patch),
    ensures
        patch.display_name is Some ==> after.display_name == patch.display_name->0,
        patch.display_name is None ==> after.display_name == before.display_name,
        patch.description is Some ==> after.description == patch.description->0,
        patch.description is None ==> after.description == before.description,
        patch.company_name is Some ==> after.company_name == patch.company_name->0,
        patch.company_name is None ==> after.company_name == before.company_name,
        patch.allowed_domains is Some ==> after.allowed_domains == patch.allowed_domains->0,
        patch.allowed_domains is None ==> after.allowed_domains == before.allowed_domains,
        patch.allow_open_invite is Some ==> after.allow_open_invite == patch.allow_open_invite->0,
        patch.allow_open_invite is None ==> after.allow_open_invite == before.allow_open_invite,
        patch.group_constrained is Some ==> after.group_constrained == patch.group_constrained,
        patch.group_constrained is None ==> after.group_constrained == before.group_constrained,
        patch.cloud_limits_archived is Some ==> after.cloud_limits_archived
            == patch.cloud_limits_archived->0,
        patch.cloud_limits_archived is None ==> after.cloud_limits_archived
            == before.cloud_limits_archived,
        after == (Team {
            display_name: after.display_name,
            description: after.description,
            company_name: after.company_name,
            allowed_domains: after.allowed_domains,
            allow_open_invite: after.allow_open_invite,
            group_constrained: after.group_constrained,
            cloud_limits_archived: after.cloud_limits_archived,
            ..before
        }),
{
}

/// A team that was made ready has ids, its own where it had them, one time for both, clean texts, and
/// all else as it was.
pub proof fn saved_teams_keep_the_rest(before: Team, after: Team, now: int)
    requires
        after.is_saved(before, now),
    ensures
        after.create_at == now && after.update_at == now,
        before.id@.len() > 0 ==> after.id@ == before.id@,
        before.id@.len() == 0 ==> crate::utils::valid_id(after.id@),
        before.invite_id@.len() > 0 ==> after.invite_id@ == before.invite_id@,
        before.invite_id@.len() == 0 ==> crate::utils::valid_id(after.invite_id@),
        after.name@ == crate::utils::wanted(before.name@),
        after.display_name@ == crate::utils::wanted(before.display_name@),
        after.description@ == crate::utils::wanted(before.description@),
        after.company_name@ == crate::utils::wanted(before.company_name@),
        after == (Team {
            id: after.id,
            invite_id: after.invite_id,
            create_at: after.create_at,
            update_at: after.update_at,
            name: after.name,
            display_name: after.display_name,
            description: after.description,
            company_name: after.company_name,
            ..before
        }),
{
}

/// A changed team that was made ready keeps its ids and the time it was made.
pub proof fn updated_teams_keep_the_rest(before: Team, after: Team, now: int)
    requires
        after.is_updated(before, now),
    ensures
        after.update_at == now,
        after.name@ == crate::utils::wanted(before.name@),
        after.display_name@ == crate::utils::wanted(before.display_name@),
        after.description@ == crate::utils::wanted(before.description@),
        after.company_name@ == crate::utils::wanted(before.company_name@),
        after == (Team {
            update_at: after.update_at,
            name: after.name,
            display_name: after.display_name,
            description: after.description,
            company_name: after.company_name,
            ..before
        }),
{
}

/// The policy on access decides what it names with a truth, and nothing else.
pub proof fn policies_decide_what_they_name(t: Team, action: Seq<char>)
    ensures
        t.decides(action) == (t.policy_actions is Some && t.policy_actions->0@.dom().contains(action)
            && t.policy_actions->0@[action]),
{
}

/// No lower-case letter, digit or hyphen is lost, and nothing else stays.
pub proof fn names_keep_all_their_letters(s: Seq<char>)
    ensures
        kept_chars(s) == s.filter(
            |c: char| 'a' <= c <= 'z' || '0' <= c <= '9' || c == '-',
        ),
    decreases s.len(),
{
    reveal(Seq::filter);
    if s.len() > 0 {
        names_keep_all_their_letters(s.drop_last());
    } else {
        assert(s.filter(|c: char| 'a' <= c <= 'z' || '0' <= c <= '9' || c == '-') =~= s);
    }
}

/// Whether a text is a name as it should be: lower-case letters, digits and inner hyphens, and not
/// beginning with a reserved name.
pub open spec fn is_clean(s: Seq<char>) -> bool {
    &&& s.len() > 0
    &&& s[0] != '-' && s.last() != '-'
    &&& forall|i: int|
        0 <= i < s.len() ==> 'a' <= #[trigger] s[i] <= 'z' || '0' <= s[i] <= '9' || s[i] == '-'
    &&& forall|i: int|
        0 <= i < crate::utils::reserved().len() ==> !crate::text::starts_with(
            s,
            #[trigger] crate::utils::reserved()[i],
        )
}

proof fn clean_texts_are_kept(s: Seq<char>)
    requires
        forall|i: int|
            0 <= i < s.len() ==> 'a' <= #[trigger] s[i] <= 'z' || '0' <= s[i] <= '9' || s[i] == '-',
    ensures
        kept_chars(s) == s,
    decreases s.len(),
{
    if s.len() > 0 {
        assert forall|i: int| 0 <= i < s.len() - 1 implies 'a' <= #[trigger] s.drop_last()[i] <= 'z'
            || '0' <= s.drop_last()[i] <= '9' || s.drop_last()[i] == '-' by {
            assert(s.drop_last()[i] == s[i]);
        }
        clean_texts_are_kept(s.drop_last());
        assert('a' <= s[s.len() - 1] <= 'z' || '0' <= s[s.len() - 1] <= '9' || s[s.len() - 1] == '-');
        assert(s.drop_last().push(s.last()) =~= s);
    }
}

proof fn clean_texts_are_unreserved(s: Seq<char>, n: int)
    requires
        is_clean(s),
        0 <= n <= crate::utils::reserved().len(),
    ensures
        unreserved(s, n) == s,
    decreases n,
{
    if n > 0 {
        clean_texts_are_unreserved(s, n - 1);
        assert(!crate::text::starts_with(s, crate::utils::reserved()[n - 1]));
    }
}

/// A text that is a name once its blanks are hyphens and its letters are small is that name.
pub proof fn good_names_stay(s: Seq<char>)
    requires
        is_clean(hyphenated(s)),
    ensures
        cleaned_name(s) == hyphenated(s),
{
    let t = hyphenated(s);
    clean_texts_are_unreserved(t, crate::utils::reserved().len() as int);
    assert(crate::text::trim(t) == t) by {
        let (from, to) = crate::text::trimming_removes_white_space(t);
        if from > 0 {
            assert(t.take(from)[0] == t[0]);
            assert(crate::text::is_space(t[0]));
        }
        if to < t.len() {
            assert(t.skip(to)[t.len() - 1 - to] == t.last());
            assert(crate::text::is_space(t[t.len() - 1]));
        }
        assert(t.subrange(0, t.len() as int) =~= t);
    }
    clean_texts_are_kept(t);
    let hyphen = |c: char| c == '-';
    assert(crate::pattern::drop_start(t, hyphen) == t);
    assert(crate::pattern::drop_end(t, hyphen) == t);
}

/// Blanks become hyphens and letters small, and nothing else changes, in ASCII.
pub proof fn names_are_hyphenated(s: Seq<char>, i: int)
    requires
        0 <= i < s.len(),
        s[i] <= '\u{7f}',
    ensures
        hyphenated(s).len() == s.len(),
        hyphenated(s)[i] == (if s[i] == ' ' {
            '-'
        } else if 'A' <= s[i] <= 'Z' {
            (s[i] as int + 32) as char
        } else {
            s[i]
        }),
{
}

proof fn no_hyphens_at_the_ends(s: Seq<char>)
    ensures
        bare(s).len() > 0 ==> bare(s)[0] != '-' && bare(s).last() != '-',
        forall|i: int| 0 <= i < bare(s).len() ==> s.contains(#[trigger] bare(s)[i]),
{
    let hyphen = |c: char| c == '-';
    let headless = crate::pattern::drop_start(s, hyphen);
    start_is_dropped(s, hyphen);
    end_is_dropped(headless, hyphen);
    assert forall|i: int| 0 <= i < bare(s).len() implies s.contains(#[trigger] bare(s)[i]) by {
        assert(bare(s)[i] == headless[i]);
        assert(headless[i] == s[i + (s.len() - headless.len())]);
    }
    if bare(s).len() > 0 {
        assert(bare(s)[0] == headless[0]);
    }
}

proof fn start_is_dropped(s: Seq<char>, drop: spec_fn(char) -> bool)
    ensures
        ({
            let r = crate::pattern::drop_start(s, drop);
            r.len() <= s.len() && r == s.skip(s.len() - r.len()) && (r.len() == 0 || !drop(r[0]))
        }),
    decreases s.len(),
{
    let r = crate::pattern::drop_start(s, drop);
    if s.len() > 0 && drop(s[0]) {
        start_is_dropped(s.skip(1), drop);
        assert(r =~= s.skip(s.len() - r.len()));
    } else {
        assert(s.skip(0) =~= s);
    }
}

proof fn end_is_dropped(s: Seq<char>, drop: spec_fn(char) -> bool)
    ensures
        ({
            let r = crate::pattern::drop_end(s, drop);
            r.len() <= s.len() && r == s.take(r.len() as int) && (r.len() == 0 || !drop(r.last()))
        }),
    decreases s.len(),
{
    let r = crate::pattern::drop_end(s, drop);
    if s.len() > 0 && drop(s.last()) {
        end_is_dropped(s.drop_last(), drop);
        assert(r =~= s.take(r.len() as int));
    } else {
        assert(s.take(s.len() as int) =~= s);
    }
}

/// What is made into a name consists of lower-case letters, digits and inner hyphens, whatever it
/// was made from.
pub proof fn made_names_are_plain(s: Seq<char>)
    ensures
        ({
            let name = cleaned_name(s);
            &&& name.len() > 0 ==> name[0] != '-' && name.last() != '-'
            &&& forall|i: int|
                0 <= i < name.len() ==> 'a' <= #[trigger] name[i] <= 'z' || '0' <= name[i] <= '9'
                    || name[i] == '-'
        }),
{
    let free = crate::text::trim(
        unreserved(hyphenated(s), crate::utils::reserved().len() as int),
    );
    let kept = kept_chars(free);
    no_hyphens_at_the_ends(kept);
    names_keep_all_their_letters(free);
    let plain = |c: char| 'a' <= c <= 'z' || '0' <= c <= '9' || c == '-';
    let name = cleaned_name(s);
    assert forall|i: int| 0 <= i < name.len() implies 'a' <= #[trigger] name[i] <= 'z' || '0'
        <= name[i] <= '9' || name[i] == '-' by {
        assert(kept.contains(name[i]));
        let j = choose|j: int| 0 <= j < kept.len() && kept[j] == name[i];
        free.lemma_filter_pred(plain, j);
        assert(plain(kept[j]));
    }
}

/// The reserved names are these.
pub proof fn seventeen_words_are_reserved()
    ensures
        crate::utils::reserved() == seq![
            "admin"@,
            "api"@,
            "channel"@,
            "claim"@,
            "error"@,
            "files"@,
            "help"@,
            "landing"@,
            "login"@,
            "mfa"@,
            "oauth"@,
            "plug"@,
            "plugins"@,
            "post"@,
            "signup"@,
            "boards"@,
            "playbooks"@,
        ],
{
}

/// A name is reserved if and only if it begins, in lower case, with a reserved one.
pub proof fn reserved_names_begin_so(name: Seq<char>, rest: Seq<char>)
    ensures
        crate::utils::reserved().contains(crate::utils::lower(name)) ==> reserved_team_name(
            name + rest,
        ),
        reserved_team_name(rest) ==> exists|n: int|
            0 <= n <= rest.len() && crate::utils::reserved().contains(
                #[trigger] crate::utils::lower(rest).take(n),
            ),
{
    let words = crate::utils::reserved();
    if words.contains(crate::utils::lower(name)) {
        let i = choose|i: int| 0 <= i < words.len() && words[i] == crate::utils::lower(name);
        let low = crate::utils::lower(name + rest);
        assert(low.subrange(0, words[i].len() as int) =~= words[i]);
        assert(crate::text::starts_with(low, words[i]));
    }
    if reserved_team_name(rest) {
        let low = crate::utils::lower(rest);
        let i = choose|i: int|
            0 <= i < words.len() && crate::text::starts_with(low, #[trigger] words[i]);
        let n = words[i].len() as int;
        assert(low.take(n) =~= low.subrange(0, n));
        assert(words.contains(low.take(n)));
    }
}

/// The name of a team is at least two lower-case letters, digits and hyphens, neither the first nor
/// the last being a hyphen, or lower-case letters and digits with two underscores inside.
pub proof fn team_names(s: Seq<char>)
    ensures
        valid_team_name(s) ==> s.len() >= 2 && s[0] != '-' && s.last() != '-' && s[0] != '_'
            && s.last() != '_',
        valid_team_name(s) ==> forall|i: int|
            0 <= i < s.len() ==> 'a' <= #[trigger] s[i] <= 'z' || '0' <= s[i] <= '9' || s[i] == '-'
                || s[i] == '_',
        s.len() >= 2 && s[0] != '-' && s.last() != '-' && (forall|i: int|
            0 <= i < s.len() ==> 'a' <= #[trigger] s[i] <= 'z' || '0' <= s[i] <= '9' || s[i] == '-')
            ==> valid_team_name(s),
{
    if s.len() >= 2 && s[0] != '-' && s.last() != '-' && (forall|i: int|
        0 <= i < s.len() ==> 'a' <= #[trigger] s[i] <= 'z' || '0' <= s[i] <= '9' || s[i] == '-') {
        assert(vstd::utf8::is_ascii_chars(s));
        vstd::utf8::is_ascii_chars_encode_utf8(s);
        assert(s[s.len() - 1] == s.last());
        assert('a' <= s[s.len() - 1] <= 'z' || '0' <= s[s.len() - 1] <= '9' || s[s.len() - 1] == '-');
        assert('a' <= s[0] <= 'z' || '0' <= s[0] <= '9' || s[0] == '-');
    }
    if valid_team_name(s) {
        if exists|k: int| #[trigger] crate::pattern::double_underscore_at(s, k) {
            let k = choose|k: int| #[trigger] crate::pattern::double_underscore_at(s, k);
            assert forall|i: int| 0 <= i < s.len() implies 'a' <= #[trigger] s[i] <= 'z' || '0' <= s[i]
                <= '9' || s[i] == '-' || s[i] == '_' by {}
        }
    }
}

/// Where one field alone has to change for a team to be in order, the error is that
/// of the field.
pub proof fn faults_of_a_team_are_named(bad: Team, good: Team)
    requires
        bad.fault() is Some,
        good.fault() is None,
    ensures
        good == (Team { id: good.id, ..bad }) ==> crate::utils::reports(
            bad.fault()->0,
            "Team.IsValid"@,
            "model.team.is_valid."@ + "id"@ + ".app_error"@,
            ""@,
            400,
        ),
        good == (Team { create_at: good.create_at, ..bad }) ==> crate::utils::reports(
            bad.fault()->0,
            "Team.IsValid"@,
            "model.team.is_valid."@ + "create_at"@ + ".app_error"@,
            "id="@ + bad.id@,
            400,
        ),
        good == (Team { update_at: good.update_at, ..bad }) ==> crate::utils::reports(
            bad.fault()->0,
            "Team.IsValid"@,
            "model.team.is_valid."@ + "update_at"@ + ".app_error"@,
            "id="@ + bad.id@,
            400,
        ),
        good == (Team { email: good.email, ..bad }) ==> crate::utils::reports(
            bad.fault()->0,
            "Team.IsValid"@,
            "model.team.is_valid."@ + "email"@ + ".app_error"@,
            "id="@ + bad.id@,
            400,
        ),
        good == (Team { display_name: good.display_name, ..bad }) ==> crate::utils::reports(
            bad.fault()->0,
            "Team.IsValid"@,
            "model.team.is_valid."@ + "name"@ + ".app_error"@,
            "id="@ + bad.id@,
            400,
        ),
        good == (Team { name: good.name, ..bad })
            && crate::text::utf8_len(bad.name@) > 64 ==> crate::utils::reports(
            bad.fault()->0,
            "Team.IsValid"@,
            "model.team.is_valid."@ + "url"@ + ".app_error"@,
            "id="@ + bad.id@,
            400,
        ),
        good == (Team { name: good.name, ..bad })
            && crate::text::utf8_len(bad.name@) <= 64
            && reserved_team_name(bad.name@) ==> crate::utils::reports(
            bad.fault()->0,
            "Team.IsValid"@,
            "model.team.is_valid."@ + "reserved"@ + ".app_error"@,
            "id="@ + bad.id@,
            400,
        ),
        good == (Team { name: good.name, ..bad })
            && crate::text::utf8_len(bad.name@) <= 64
            && !reserved_team_name(bad.name@) ==> crate::utils::reports(
            bad.fault()->0,
            "Team.IsValid"@,
            "model.team.is_valid."@ + "characters"@ + ".app_error"@,
            "id="@ + bad.id@,
            400,
        ),
        good == (Team { description: good.description, ..bad }) ==> crate::utils::reports(
            bad.fault()->0,
            "Team.IsValid"@,
            "model.team.is_valid."@ + "description"@ + ".app_error"@,
            "id="@ + bad.id@,
            400,
        ),
        good == (Team { invite_id: good.invite_id, ..bad }) ==> crate::utils::reports(
            bad.fault()->0,
            "Team.IsValid"@,
            "model.team.is_valid."@ + "invite_id"@ + ".app_error"@,
            "id="@ + bad.id@,
            400,
        ),
        good == (Team { team_type: good.team_type, ..bad }) ==> crate::utils::reports(
            bad.fault()->0,
            "Team.IsValid"@,
            "model.team.is_valid."@ + "type"@ + ".app_error"@,
            "id="@ + bad.id@,
            400,
        ),
        good == (Team { company_name: good.company_name, ..bad }) ==> crate::utils::reports(
            bad.fault()->0,
            "Team.IsValid"@,
            "model.team.is_valid."@ + "company"@ + ".app_error"@,
            "id="@ + bad.id@,
            400,
        ),
        good == (Team { allowed_domains: good.allowed_domains, ..bad }) ==> crate::utils::reports(
            bad.fault()->0,
            "Team.IsValid"@,
            "model.team.is_valid."@ + "domains"@ + ".app_error"@,
            "id="@ + bad.id@,
            400,
        ),
{
}

/// What is wrong with the first fields of a team is reported whatever the fields behind
/// them are.
pub proof fn faults_of_a_team_come_in_order(all: Team, good: Team)
    requires
        good.fault() is None,
    ensures
        ({
            let first = Team { id: all.id, ..good };
            first.fault() is Some ==> all.fault() == first.fault()
        }),
        ({
            let first = Team { id: all.id, create_at: all.create_at, ..good };
            first.fault() is Some ==> all.fault() == first.fault()
        }),
        ({
            let first = Team {
                id: all.id,
                create_at: all.create_at,
                update_at: all.update_at,
                ..good
            };
            first.fault() is Some ==> all.fault() == first.fault()
        }),
        ({
            let first = Team {
                id: all.id,
                create_at: all.create_at,
                update_at: all.update_at,
                email: all.email,
                ..good
            };
            first.fault() is Some ==> all.fault() == first.fault()
        }),
        ({
            let first = Team {
                id: all.id,
                create_at: all.create_at,
                update_at: all.update_at,
                email: all.email,
                display_name: all.display_name,
                ..good
            };
            first.fault() is Some ==> all.fault() == first.fault()
        }),
        ({
            let first = Team {
                id: all.id,
                create_at: all.create_at,
                update_at: all.update_at,
                email: all.email,
                display_name: all.display_name,
                name: all.name,
                ..good
            };
            first.fault() is Some && crate::text::utf8_len(all.name@) > 64 ==> all.fault()
                == first.fault()
        }),
        ({
            let first = Team {
                id: all.id,
                create_at: all.create_at,
                update_at: all.update_at,
                email: all.email,
                display_name: all.display_name,
                description: all.description,
                ..good
            };
            first.fault() is Some && crate::text::utf8_len(all.name@) <= 64 ==> all.fault()
                == first.fault()
        }),
        ({
            let first = Team {
                id: all.id,
                create_at: all.create_at,
                update_at: all.update_at,
                email: all.email,
                display_name: all.display_name,
                description: all.description,
                invite_id: all.invite_id,
                ..good
            };
            first.fault() is Some && crate::text::utf8_len(all.name@) <= 64 ==> all.fault()
                == first.fault()
        }),
        ({
            let first = Team {
                id: all.id,
                create_at: all.create_at,
                update_at: all.update_at,
                email: all.email,
                display_name: all.display_name,
                description: all.description,
                invite_id: all.invite_id,
                name: all.name,
                ..good
            };
            first.fault() is Some ==> all.fault() == first.fault()
        }),
        ({
            let first = Team {
                id: all.id,
                create_at: all.create_at,
                update_at: all.update_at,
                email: all.email,
                display_name: all.display_name,
                description: all.description,
                invite_id: all.invite_id,
                name: all.name,
                team_type: all.team_type,
                ..good
            };
            first.fault() is Some ==> all.fault() == first.fault()
        }),
        ({
            let first = Team {
                id: all.id,
                create_at: all.create_at,
                update_at: all.update_at,
                email: all.email,
                display_name: all.display_name,
                description: all.description,
                invite_id: all.invite_id,
                name: all.name,
                team_type: all.team_type,
                company_name: all.company_name,
                ..good
            };
            first.fault() is Some ==> all.fault() == first.fault()
        }),
        ({
            let first = Team {
                id: all.id,
                create_at: all.create_at,
                update_at: all.update_at,
                email: all.email,
                display_name: all.display_name,
                description: all.description,
                invite_id: all.invite_id,
                name: all.name,
                team_type: all.team_type,
                company_name: all.company_name,
                allowed_domains: all.allowed_domains,
                ..good
            };
            first.fault() is Some ==> all.fault() == first.fault()
        }),
{
}

/// The name of a team may have two underscores between letters and digits, and otherwise none.
pub proof fn two_underscores_may_stand_inside(a: Seq<char>, b: Seq<char>)
    requires
        a.len() > 0,
        b.len() > 0,
        forall|i: int| 0 <= i < a.len() ==> 'a' <= #[trigger] a[i] <= 'z' || '0' <= a[i] <= '9',
        forall|i: int| 0 <= i < b.len() ==> 'a' <= #[trigger] b[i] <= 'z' || '0' <= b[i] <= '9',
    ensures
        valid_team_name(a + seq!['_', '_'] + b),
        !valid_team_name(a + seq!['_'] + b),
{
    let two = a + seq!['_', '_'] + b;
    let k = a.len() as int;
    assert forall|i: int| 0 <= i < two.len() implies if i == k || i == k + 1 {
        #[trigger] two[i] == '_'
    } else {
        crate::pattern::is_lower_digit(two[i])
    } by {
        if i < k {
            assert(two[i] == a[i]);
        } else if i > k + 1 {
            assert(two[i] == b[i - k - 2]);
        }
    }
    assert(crate::pattern::double_underscore_at(two, k));
    assert(two[0] == a[0]);
    assert(two.last() == b[b.len() - 1]);
    assert(vstd::utf8::is_ascii_chars(two));
    vstd::utf8::is_ascii_chars_encode_utf8(two);
    let one = a + seq!['_'] + b;
    assert(one[k] == '_');
    if crate::pattern::alpha_num_shape(one) {
        assert(!crate::pattern::is_lower_digit(one[k]) && one[k] != '-');
        let j = choose|j: int| #[trigger] crate::pattern::double_underscore_at(one, j);
        if j == k {
            assert(one[k + 1] == b[0]);
            assert(one[k + 1] == '_');
        } else {
            assert(one[k - 1] == a[k - 1]);
            assert(one[j] == '_');
            if j < k {
                assert(one[j] == a[j]);
            } else {
                assert(one[j] == b[j - k - 1]);
            }
        }
    }
}

} // verus!
