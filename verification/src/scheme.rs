//! Schemes: which roles the members of teams and channels have.

use vstd::prelude::*;

use crate::role::{has_name_chars, is_valid_role_name, Role};
use crate::str_map::StrMap;
use crate::text::{byte_len, same};
use crate::utils::{is_valid_id, FAKE_SETTING};
use crate::value::{StringInterface, Value};

verus! {

pub const SCHEME_DISPLAY_NAME_MAX_LENGTH: usize = 128;

pub const SCHEME_NAME_MAX_LENGTH: usize = 64;

pub const SCHEME_DESCRIPTION_MAX_LENGTH: usize = 1024;

pub const SCHEME_SCOPE_TEAM: &'static str = "team";

pub const SCHEME_SCOPE_CHANNEL: &'static str = "channel";

pub const SCHEME_SCOPE_PLAYBOOK: &'static str = "playbook";

pub const SCHEME_SCOPE_RUN: &'static str = "run";

/// A scheme: the roles that members get by default.
#[derive(Debug, Clone, Default, PartialEq, Eq)]
pub struct Scheme {
    pub id: String,
    pub name: String,
    pub display_name: String,
    pub description: String,
    pub create_at: i64,
    pub update_at: i64,
    pub delete_at: i64,
    pub scope: String,
    pub default_team_admin_role: String,
    pub default_team_user_role: String,
    pub default_channel_admin_role: String,
    pub default_channel_user_role: String,
    pub default_team_guest_role: String,
    pub default_channel_guest_role: String,
    pub default_playbook_admin_role: String,
    pub default_playbook_member_role: String,
    pub default_run_admin_role: String,
    pub default_run_member_role: String,
}

/// A change of a scheme. What is not there stays.
#[derive(Debug, Clone, Default, PartialEq, Eq)]
pub struct SchemePatch {
    pub name: Option<String>,
    pub display_name: Option<String>,
    pub description: Option<String>,
}

/// A choice of a scheme.
#[derive(Debug, Clone, Default, PartialEq, Eq)]
pub struct SchemeIDPatch {
    pub scheme_id: Option<String>,
}

/// A scheme together with its roles, as it is exported.
#[derive(Debug, Clone, Default, PartialEq, Eq)]
pub struct SchemeConveyor {
    pub name: String,
    pub display_name: String,
    pub description: String,
    pub scope: String,
    pub team_admin: String,
    pub team_user: String,
    pub team_guest: String,
    pub channel_admin: String,
    pub channel_user: String,
    pub channel_guest: String,
    pub playbook_admin: String,
    pub playbook_member: String,
    pub run_admin: String,
    pub run_member: String,
    pub roles: Option<Vec<Role>>,
}

/// Which of the roles of a scheme a member has.
#[derive(Debug, Clone, Copy, Default, PartialEq, Eq)]
pub struct SchemeRoles {
    pub scheme_admin: bool,
    pub scheme_user: bool,
    pub scheme_guest: bool,
}

/// A text as JSON.
pub open spec fn text_json(s: String) -> crate::value::Json {
    crate::value::Json::Str(s@)
}

/// An optional text as JSON.
pub open spec fn option_json(s: Option<String>) -> crate::value::Json {
    match s {
        Some(t) => crate::value::Json::Str(t@),
        None => crate::value::Json::Null,
    }
}

/// Puts a text into a record.
fn put_text(out: &mut StringInterface, key: &str, text: &String)
    ensures
        crate::post::json_map(final(out)@) == crate::post::json_map(old(out)@).insert(
            key@,
            text_json(*text),
        ),
{
    put(out, key, Value::Str(text.clone()));
}

/// Puts a value into a record.
fn put(out: &mut StringInterface, key: &str, value: Value)
    ensures
        crate::post::json_map(final(out)@) == crate::post::json_map(old(out)@).insert(key@, value@),
{
    let ghost before = out@;
    out.insert(key.to_string(), value);
    assert(crate::post::json_map(out@) =~= crate::post::json_map(before).insert(key@, value@));
}

fn option_value(value: &Option<String>) -> (v: Value)
    ensures
        v@ == option_json(*value),
{
    match value {
        Some(s) => Value::Str(s.clone()),
        None => Value::Null,
    }
}

fn empty_record() -> (out: StringInterface)
    ensures
        crate::post::json_map(out@) == Map::<Seq<char>, crate::value::Json>::empty(),
{
    let out: StringInterface = StrMap::new();
    assert(crate::post::json_map(out@) =~= Map::<Seq<char>, crate::value::Json>::empty());
    out
}

/// The name of a scheme: two to 64 lower-case letters, digits and underscores.
pub open spec fn valid_scheme_name(name: Seq<char>) -> bool {
    2 <= crate::text::utf8_len(name) <= 64 && crate::role::is_name_text(name)
}

/// Whether a text is the name of a scheme.
pub fn is_valid_scheme_name(name: &str) -> (r: bool)
    ensures
        r == valid_scheme_name(name@),
{
    let n: usize = byte_len(name);
    2 <= n && n <= SCHEME_NAME_MAX_LENGTH && has_name_chars(name)
}

impl Scheme {
    /// The record of the scheme: all of its fields.
    pub open spec fn audited(&self) -> Map<Seq<char>, crate::value::Json> {
        Map::empty().insert("id"@, text_json(self.id)).insert("name"@, text_json(self.name)).insert(
            "display_name"@,
            text_json(self.display_name),
        ).insert("description"@, text_json(self.description)).insert(
            "create_at"@,
            crate::value::Json::Int(self.create_at as int),
        ).insert("update_at"@, crate::value::Json::Int(self.update_at as int)).insert(
            "delete_at"@,
            crate::value::Json::Int(self.delete_at as int),
        ).insert("scope"@, text_json(self.scope)).insert(
            "default_team_admin_role"@,
            text_json(self.default_team_admin_role),
        ).insert("default_team_user_role"@, text_json(self.default_team_user_role)).insert(
            "default_channel_admin_role"@,
            text_json(self.default_channel_admin_role),
        ).insert("default_channel_user_role"@, text_json(self.default_channel_user_role)).insert(
            "default_team_guest_role"@,
            text_json(self.default_team_guest_role),
        ).insert("default_channel_guest_role"@, text_json(self.default_channel_guest_role)).insert(
            "default_playbook_admin_role"@,
            text_json(self.default_playbook_admin_role),
        ).insert(
            "default_playbook_member_role"@,
            text_json(self.default_playbook_member_role),
        ).insert("default_run_admin_role"@, text_json(self.default_run_admin_role)).insert(
            "default_run_member_role"@,
            text_json(self.default_run_member_role),
        )
    }

    /// The record of the scheme.
    pub fn auditable(&self) -> (out: StringInterface)
        ensures
            crate::post::json_map(out@) == self.audited(),
    {
        let mut out: StringInterface = empty_record();
        put_text(&mut out, "id", &self.id);
        put_text(&mut out, "name", &self.name);
        put_text(&mut out, "display_name", &self.display_name);
        put_text(&mut out, "description", &self.description);
        put(&mut out, "create_at", Value::Int(self.create_at));
        put(&mut out, "update_at", Value::Int(self.update_at));
        put(&mut out, "delete_at", Value::Int(self.delete_at));
        put_text(&mut out, "scope", &self.scope);
        put_text(&mut out, "default_team_admin_role", &self.default_team_admin_role);
        put_text(&mut out, "default_team_user_role", &self.default_team_user_role);
        put_text(&mut out, "default_channel_admin_role", &self.default_channel_admin_role);
        put_text(&mut out, "default_channel_user_role", &self.default_channel_user_role);
        put_text(&mut out, "default_team_guest_role", &self.default_team_guest_role);
        put_text(&mut out, "default_channel_guest_role", &self.default_channel_guest_role);
        put_text(&mut out, "default_playbook_admin_role", &self.default_playbook_admin_role);
        put_text(&mut out, "default_playbook_member_role", &self.default_playbook_member_role);
        put_text(&mut out, "default_run_admin_role", &self.default_run_admin_role);
        put_text(&mut out, "default_run_member_role", &self.default_run_member_role);
        out
    }

    /// Hides the names and the description.
    pub fn sanitize(&mut self)
        ensures
            *final(self) == (Scheme {
                name: final(self).name,
                display_name: final(self).display_name,
                description: final(self).description,
                ..*old(self)
            }),
            final(self).name@ == FAKE_SETTING@,
            final(self).display_name@ == FAKE_SETTING@,
            final(self).description@ == FAKE_SETTING@,
    {
        self.name = FAKE_SETTING.to_owned();
        self.display_name = FAKE_SETTING.to_owned();
        self.description = FAKE_SETTING.to_owned();
    }

    /// Whether all three roles of channels are named.
    pub open spec fn channel_roles_named(&self) -> bool {
        &&& crate::role::valid_role_name(self.default_channel_admin_role@)
        &&& crate::role::valid_role_name(self.default_channel_user_role@)
        &&& crate::role::valid_role_name(self.default_channel_guest_role@)
    }

    /// Whether all roles of teams, playbooks and runs are named.
    pub open spec fn team_roles_named(&self) -> bool {
        &&& crate::role::valid_role_name(self.default_team_admin_role@)
        &&& crate::role::valid_role_name(self.default_team_user_role@)
        &&& crate::role::valid_role_name(self.default_team_guest_role@)
        &&& crate::role::valid_role_name(self.default_playbook_admin_role@)
        &&& crate::role::valid_role_name(self.default_playbook_member_role@)
        &&& crate::role::valid_role_name(self.default_run_admin_role@)
        &&& crate::role::valid_role_name(self.default_run_member_role@)
    }

    /// Whether no role of teams is named.
    pub open spec fn team_roles_empty(&self) -> bool {
        &&& self.default_team_admin_role@.len() == 0
        &&& self.default_team_user_role@.len() == 0
        &&& self.default_team_guest_role@.len() == 0
    }

    /// Whether the scheme may be made. Whatever its scope, the roles of channels are named; under
    /// the scope of teams all others are, too; under that of channels those of teams are empty.
    pub open spec fn creatable(&self) -> bool {
        &&& 1 <= crate::text::utf8_len(self.display_name@) <= SCHEME_DISPLAY_NAME_MAX_LENGTH
        &&& valid_scheme_name(self.name@)
        &&& crate::text::utf8_len(self.description@) <= SCHEME_DESCRIPTION_MAX_LENGTH
        &&& self.scope@ == SCHEME_SCOPE_TEAM@ || self.scope@ == SCHEME_SCOPE_CHANNEL@ || self.scope@
            == SCHEME_SCOPE_PLAYBOOK@ || self.scope@ == SCHEME_SCOPE_RUN@
        &&& self.channel_roles_named()
        &&& self.scope@ == SCHEME_SCOPE_TEAM@ ==> self.team_roles_named()
        &&& self.scope@ == SCHEME_SCOPE_CHANNEL@ ==> self.team_roles_empty()
    }

    fn has_team_roles(&self) -> (r: bool)
        ensures
            r == self.team_roles_named(),
    {
        is_valid_role_name(self.default_team_admin_role.as_str()) && is_valid_role_name(
            self.default_team_user_role.as_str(),
        ) && is_valid_role_name(self.default_team_guest_role.as_str()) && is_valid_role_name(
            self.default_playbook_admin_role.as_str(),
        ) && is_valid_role_name(self.default_playbook_member_role.as_str()) && is_valid_role_name(
            self.default_run_admin_role.as_str(),
        ) && is_valid_role_name(self.default_run_member_role.as_str())
    }

    /// Whether the scheme is in order: it has an id and may be made.
    pub fn is_valid(&self) -> (r: bool)
        ensures
            r == (crate::utils::valid_id(self.id@) && self.creatable()),
    {
        is_valid_id(self.id.as_str()) && self.is_valid_for_create()
    }

    /// Whether the scheme may be made.
    pub fn is_valid_for_create(&self) -> (r: bool)
        ensures
            r == self.creatable(),
    {
        let n: usize = byte_len(self.display_name.as_str());
        if n < 1 || n > SCHEME_DISPLAY_NAME_MAX_LENGTH {
            return false;
        }
        if !is_valid_scheme_name(self.name.as_str()) {
            return false;
        }
        if byte_len(self.description.as_str()) > SCHEME_DESCRIPTION_MAX_LENGTH {
            return false;
        }
        let scope: &str = self.scope.as_str();
        let for_teams: bool = same(scope, SCHEME_SCOPE_TEAM);
        let for_channels: bool = same(scope, SCHEME_SCOPE_CHANNEL);
        if !for_teams && !for_channels && !same(scope, SCHEME_SCOPE_PLAYBOOK) && !same(
            scope,
            SCHEME_SCOPE_RUN,
        ) {
            return false;
        }
        if !is_valid_role_name(self.default_channel_admin_role.as_str()) || !is_valid_role_name(
            self.default_channel_user_role.as_str(),
        ) || !is_valid_role_name(self.default_channel_guest_role.as_str()) {
            return false;
        }
        if for_teams && !self.has_team_roles() {
            return false;
        }
        if for_channels && !(self.default_team_admin_role.as_str().is_empty()
            && self.default_team_user_role.as_str().is_empty()
            && self.default_team_guest_role.as_str().is_empty()) {
            return false;
        }
        true
    }

    /// Whether this is a scheme after a change.
    pub open spec fn is_patched(&self, before: Scheme, patch: SchemePatch) -> bool {
        *self == (Scheme {
            name: match patch.name {
                Some(s) => s,
                None => before.name,
            },
            display_name: match patch.display_name {
                Some(s) => s,
                None => before.display_name,
            },
            description: match patch.description {
                Some(s) => s,
                None => before.description,
            },
            ..before
        })
    }

    /// Changes the scheme. An empty text that is there replaces what was there.
    pub fn patch(&mut self, patch: &SchemePatch)
        ensures
            final(self).is_patched(*old(self), *patch),
    {
        if let Some(display_name) = &patch.display_name {
            self.display_name = display_name.clone();
        }
        if let Some(name) = &patch.name {
            self.name = name.clone();
        }
        if let Some(description) = &patch.description {
            self.description = description.clone();
        }
    }
}

impl SchemePatch {
    /// The record of the change.
    pub fn auditable(&self) -> (out: StringInterface)
        ensures
            crate::post::json_map(out@) == Map::<Seq<char>, crate::value::Json>::empty().insert(
                "name"@,
                option_json(self.name),
            ).insert("display_name"@, option_json(self.display_name)).insert(
                "description"@,
                option_json(self.description),
            ),
    {
        let mut out: StringInterface = empty_record();
        put(&mut out, "name", option_value(&self.name));
        put(&mut out, "display_name", option_value(&self.display_name));
        put(&mut out, "description", option_value(&self.description));
        out
    }
}

impl SchemeIDPatch {
    /// The record of the choice.
    pub fn auditable(&self) -> (out: StringInterface)
        ensures
            crate::post::json_map(out@) == Map::<Seq<char>, crate::value::Json>::empty().insert(
                "scheme_id"@,
                option_json(self.scheme_id),
            ),
    {
        let mut out: StringInterface = empty_record();
        put(&mut out, "scheme_id", option_value(&self.scheme_id));
        out
    }
}

impl SchemeRoles {
    /// The record of the roles, which is empty.
    pub fn auditable(&self) -> (out: StringInterface)
        ensures
            crate::post::json_map(out@) == Map::<Seq<char>, crate::value::Json>::empty(),
    {
        empty_record()
    }
}

impl SchemeConveyor {
    /// The scheme alone, without an id and without times.
    pub fn scheme(&self) -> (s: Scheme)
        ensures
            s == (Scheme {
                id: s.id,
                name: self.name,
                display_name: self.display_name,
                description: self.description,
                create_at: 0,
                update_at: 0,
                delete_at: 0,
                scope: self.scope,
                default_team_admin_role: self.team_admin,
                default_team_user_role: self.team_user,
                default_channel_admin_role: self.channel_admin,
                default_channel_user_role: self.channel_user,
                default_team_guest_role: self.team_guest,
                default_channel_guest_role: self.channel_guest,
                default_playbook_admin_role: self.playbook_admin,
                default_playbook_member_role: self.playbook_member,
                default_run_admin_role: self.run_admin,
                default_run_member_role: self.run_member,
            }),
            s.id@.len() == 0,
    {
        Scheme {
            id: String::new(),
            name: self.name.clone(),
            display_name: self.display_name.clone(),
            description: self.description.clone(),
            create_at: 0,
            update_at: 0,
            delete_at: 0,
            scope: self.scope.clone(),
            default_team_admin_role: self.team_admin.clone(),
            default_team_user_role: self.team_user.clone(),
            default_channel_admin_role: self.channel_admin.clone(),
            default_channel_user_role: self.channel_user.clone(),
            default_team_guest_role: self.team_guest.clone(),
            default_channel_guest_role: self.channel_guest.clone(),
            default_playbook_admin_role: self.playbook_admin.clone(),
            default_playbook_member_role: self.playbook_member.clone(),
            default_run_admin_role: self.run_admin.clone(),
            default_run_member_role: self.run_member.clone(),
        }
    }
}

/// Every name of a scheme is a name of a role, and a name of a role of more than one character is
/// a name of a scheme.
pub proof fn scheme_names_are_role_names(name: Seq<char>)
    ensures
        valid_scheme_name(name) <==> crate::role::valid_role_name(name) && crate::text::utf8_len(
            name,
        ) > 1,
{
}

/// A scheme without an id is never in order, though it may be made.
pub proof fn schemes_without_ids_are_not_valid(s: Scheme)
    requires
        s.id@.len() == 0,
    ensures
        !crate::utils::valid_id(s.id@),
{
    assert(s.id@ =~= Seq::<char>::empty());
    reveal_with_fuel(vstd::utf8::encode_utf8, 2);
}

/// To change a scheme twice in the same way is to change it once.
pub proof fn patching_is_idempotent(
    before: Scheme,
    patch: SchemePatch,
    once: Scheme,
    twice: Scheme,
)
    requires
        once.is_patched(before, patch),
        twice.is_patched(once, patch),
    ensures
        twice == once,
{
}

/// A change of nothing leaves a scheme as it is.
pub proof fn empty_patch_changes_nothing(before: Scheme, after: Scheme)
    requires
        after.is_patched(
            before,
            (SchemePatch { name: None, display_name: None, description: None }),
        ),
    ensures
        after == before,
{
}

/// A scheme may be made if and only if all of these hold.
pub proof fn creatable_schemes(s: Scheme)
    ensures
        s.creatable() == ({
            let named = |r: String| crate::role::valid_role_name(r@);
            &&& 1 <= crate::text::utf8_len(s.display_name@) <= 128
            &&& 2 <= crate::text::utf8_len(s.name@) <= 64
            &&& forall|i: int| 0 <= i < s.name@.len() ==> crate::role::name_char(#[trigger] s.name@[i])
            &&& crate::text::utf8_len(s.description@) <= 1024
            &&& s.scope@ == "team"@ || s.scope@ == "channel"@ || s.scope@ == "playbook"@ || s.scope@
                == "run"@
            &&& named(s.default_channel_admin_role) && named(s.default_channel_user_role) && named(
                s.default_channel_guest_role,
            )
            &&& s.scope@ == "team"@ ==> named(s.default_team_admin_role) && named(
                s.default_team_user_role,
            ) && named(s.default_team_guest_role) && named(s.default_playbook_admin_role) && named(
                s.default_playbook_member_role,
            ) && named(s.default_run_admin_role) && named(s.default_run_member_role)
            &&& s.scope@ == "channel"@ ==> s.default_team_admin_role@.len() == 0
                && s.default_team_user_role@.len() == 0 && s.default_team_guest_role@.len() == 0
        }),
{
}

/// A change of a scheme changes what it holds, and nothing else.
pub proof fn patches_change_what_they_hold(before: Scheme, after: Scheme, patch: SchemePatch)
    requires
        after.is_patched(before, patch),
    ensures
        patch.name is Some ==> after.name == patch.name->0,
        patch.name is None ==> after.name == before.name,
        patch.display_name is Some ==> after.display_name == patch.display_name->0,
        patch.display_name is None ==> after.display_name == before.display_name,
        patch.description is Some ==> after.description == patch.description->0,
        patch.description is None ==> after.description == before.description,
        after == (Scheme {
            name: after.name,
            display_name: after.display_name,
            description: after.description,
            ..before
        }),
{
}

/// The record of a scheme has eighteen members, each field under its own name.
pub proof fn records_hold_every_field(s: Scheme)
    ensures
        s.audited() == map![
            "id"@ => crate::value::Json::Str(s.id@),
            "name"@ => crate::value::Json::Str(s.name@),
            "display_name"@ => crate::value::Json::Str(s.display_name@),
            "description"@ => crate::value::Json::Str(s.description@),
            "create_at"@ => crate::value::Json::Int(s.create_at as int),
            "update_at"@ => crate::value::Json::Int(s.update_at as int),
            "delete_at"@ => crate::value::Json::Int(s.delete_at as int),
            "scope"@ => crate::value::Json::Str(s.scope@),
            "default_team_admin_role"@ => crate::value::Json::Str(s.default_team_admin_role@),
            "default_team_user_role"@ => crate::value::Json::Str(s.default_team_user_role@),
            "default_channel_admin_role"@ => crate::value::Json::Str(s.default_channel_admin_role@),
            "default_channel_user_role"@ => crate::value::Json::Str(s.default_channel_user_role@),
            "default_team_guest_role"@ => crate::value::Json::Str(s.default_team_guest_role@),
            "default_channel_guest_role"@ => crate::value::Json::Str(s.default_channel_guest_role@),
            "default_playbook_admin_role"@ => crate::value::Json::Str(s.default_playbook_admin_role@),
            "default_playbook_member_role"@ => crate::value::Json::Str(s.default_playbook_member_role@),
            "default_run_admin_role"@ => crate::value::Json::Str(s.default_run_admin_role@),
            "default_run_member_role"@ => crate::value::Json::Str(s.default_run_member_role@),
        ],
{
}

} // verus!
