//! Members of teams.

use vstd::prelude::*;

use crate::text::{byte_len, cat3, same, split_fields};
use crate::user::USER_ROLES_MAX_LENGTH;
use crate::utils::{is_valid_id, AppError, AppResult};

verus! {

pub const USERNAME: &'static str = "Username";

/// A user as a member of a team.
#[derive(Debug, Clone, Default, PartialEq, Eq)]
pub struct TeamMember {
    pub team_id: String,
    pub user_id: String,
    pub roles: String,
    pub delete_at: i64,
    pub scheme_guest: bool,
    pub scheme_user: bool,
    pub scheme_admin: bool,
    pub explicit_roles: String,
    /// It is never sent.
    pub create_at: i64,
}

/// What a user has not read in a team.
#[derive(Debug, Clone, Default, PartialEq, Eq)]
pub struct TeamUnread {
    pub team_id: String,
    pub msg_count: i64,
    pub mention_count: i64,
    pub mention_count_root: i64,
    pub msg_count_root: i64,
    pub thread_count: i64,
    pub thread_mention_count: i64,
    pub thread_urgent_mention_count: i64,
}

/// A member together with the name of the team, as it is exported.
#[derive(Debug, Clone, Default, PartialEq, Eq)]
pub struct TeamMemberForExport {
    pub team_member: TeamMember,
    pub team_name: String,
}

/// A member that was added to a team, or why it was not.
#[derive(Debug)]
pub struct TeamMemberWithError {
    pub user_id: String,
    pub member: Option<TeamMember>,
    pub error: Option<Box<AppError>>,
}

/// The members that were added, in their order.
pub open spec fn added(entries: Seq<TeamMemberWithError>) -> Seq<TeamMember>
    decreases entries.len(),
{
    if entries.len() == 0 {
        Seq::empty()
    } else {
        let before = added(entries.drop_last());
        let entry = entries.last();
        match entry.member {
            Some(m) => if entry.error is None {
                before.push(m)
            } else {
                before
            },
            None => before,
        }
    }
}

/// The members that were added; nothing where there is none.
pub fn team_members_with_error_to_team_members(entries: &[TeamMemberWithError]) -> (r: Option<
    Vec<TeamMember>,
>)
    ensures
        match r {
            Some(members) => members@ == added(entries@) && members@.len() > 0,
            None => added(entries@).len() == 0,
        },
{
    let mut members: Vec<TeamMember> = Vec::new();
    let mut i: usize = 0;
    assert(entries@.take(0) == Seq::<TeamMemberWithError>::empty());
    while i < entries.len()
        invariant
            i <= entries@.len(),
            members@ == added(entries@.take(i as int)),
        decreases entries@.len() - i,
    {
        let entry: &TeamMemberWithError = &entries[i];
        assert(entries@.take(i + 1).drop_last() == entries@.take(i as int));
        assert(entries@.take(i + 1).last() == *entry);
        if entry.error.is_none() {
            if let Some(m) = &entry.member {
                members.push(m.copied());
            }
        }
        i = i + 1;
    }
    assert(entries@.take(i as int) == entries@);
    if members.len() == 0 {
        None
    } else {
        Some(members)
    }
}

/// The error of a field of a member.
pub open spec fn member_fault(field: Seq<char>) -> crate::utils::ErrorModel {
    crate::utils::plain_error(
        "TeamMember.IsValid"@,
        "model.team_member.is_valid."@ + field + ".app_error"@,
        ""@,
        400,
    )
}

fn member_error(field: &str) -> (e: Box<AppError>)
    ensures
        e@ == member_fault(field@),
{
    let id: String = cat3("model.team_member.is_valid.", field, ".app_error");
    AppError::boxed("TeamMember.IsValid", id.as_str(), None, "", 400)
}

impl TeamMember {
    fn copied(&self) -> (r: TeamMember)
        ensures
            r == *self,
    {
        TeamMember {
            team_id: self.team_id.clone(),
            user_id: self.user_id.clone(),
            roles: self.roles.clone(),
            delete_at: self.delete_at,
            scheme_guest: self.scheme_guest,
            scheme_user: self.scheme_user,
            scheme_admin: self.scheme_admin,
            explicit_roles: self.explicit_roles.clone(),
            create_at: self.create_at,
        }
    }

    /// The first thing that is wrong with the member.
    pub open spec fn fault(&self) -> Option<crate::utils::ErrorModel> {
        if !crate::utils::valid_id(self.team_id@) {
            Some(member_fault("team_id"@))
        } else if !crate::utils::valid_id(self.user_id@) {
            Some(member_fault("user_id"@))
        } else if crate::text::utf8_len(self.roles@) > USER_ROLES_MAX_LENGTH {
            Some(member_fault("roles_limit"@))
        } else {
            None
        }
    }

    /// Whether the member is in order.
    pub fn is_valid(&self) -> (r: AppResult)
        ensures
            crate::utils::fault_of(r) == self.fault(),
    {
        if !is_valid_id(self.team_id.as_str()) {
            return Err(member_error("team_id"));
        }
        if !is_valid_id(self.user_id.as_str()) {
            return Err(member_error("user_id"));
        }
        if byte_len(self.roles.as_str()) > USER_ROLES_MAX_LENGTH {
            return Err(member_error("roles_limit"));
        }
        Ok(())
    }

    /// The roles of the member.
    pub fn get_roles(&self) -> (r: Vec<&str>)
        ensures
            crate::text::views(r@) == crate::text::fields(self.roles@),
    {
        split_fields(self.roles.as_str())
    }

    /// Whether this is what a user may see of a member. Users see all of themselves; of others
    /// they see neither roles nor whether they have left.
    pub open spec fn is_seen_by(&self, before: TeamMember, viewer: Seq<char>) -> bool {
        if before.user_id@ == viewer {
            *self == before
        } else {
            &&& *self == (TeamMember {
                roles: self.roles,
                explicit_roles: self.explicit_roles,
                scheme_admin: false,
                scheme_guest: false,
                scheme_user: false,
                delete_at: (-1) as i64,
                ..before
            })
            &&& self.roles@.len() == 0
            &&& self.explicit_roles@.len() == 0
        }
    }

    /// Hides what a user may not see of a member.
    pub fn sanitize_role_data(&mut self, current_user_id: &str)
        ensures
            final(self).is_seen_by(*old(self), current_user_id@),
    {
        if !same(self.user_id.as_str(), current_user_id) {
            self.roles = String::new();
            self.explicit_roles = String::new();
            self.scheme_admin = false;
            self.scheme_guest = false;
            self.scheme_user = false;
            self.delete_at = -1;
        }
    }
}

/// A member that was sanitised for a user says nothing more when it is sanitised for the user
/// again.
pub proof fn sanitizing_is_idempotent(
    before: TeamMember,
    once: TeamMember,
    twice: TeamMember,
    viewer: Seq<char>,
)
    requires
        once.is_seen_by(before, viewer),
        twice.is_seen_by(once, viewer),
    ensures
        twice == (TeamMember {
            roles: twice.roles,
            explicit_roles: twice.explicit_roles,
            ..once
        }),
        twice.roles@ == once.roles@,
        twice.explicit_roles@ == once.explicit_roles@,
{
    if before.user_id@ != viewer {
        assert(twice.roles@ =~= once.roles@);
        assert(twice.explicit_roles@ =~= once.explicit_roles@);
    }
}

/// A member is added for each entry that has one and no error.
pub proof fn added_members_have_no_error(entries: Seq<TeamMemberWithError>, m: TeamMember)
    ensures
        added(entries).contains(m) <==> exists|i: int|
            0 <= i < entries.len() && (#[trigger] entries[i]).error is None && entries[i].member
                == Some(m),
    decreases entries.len(),
{
    if entries.len() > 0 {
        let rest = entries.drop_last();
        added_members_have_no_error(rest, m);
        let n = entries.len() - 1;
        assert(entries[n] == entries.last());
        assert forall|i: int| 0 <= i < rest.len() implies #[trigger] rest[i] == entries[i] by {}
        if added(entries).contains(m) {
            let at = choose|at: int| 0 <= at < added(entries).len() && added(entries)[at] == m;
            if at < added(rest).len() {
                assert(added(rest)[at] == m);
                let i = choose|i: int|
                    0 <= i < rest.len() && (#[trigger] rest[i]).error is None && rest[i].member
                        == Some(m);
                assert(entries[i].member == Some(m));
            }
        }
        if exists|i: int|
            0 <= i < entries.len() && (#[trigger] entries[i]).error is None && entries[i].member
                == Some(m) {
            let i = choose|i: int|
                0 <= i < entries.len() && (#[trigger] entries[i]).error is None && entries[i].member
                    == Some(m);
            if i < n {
                assert(rest[i] == entries[i]);
                let at = choose|at: int| 0 <= at < added(rest).len() && added(rest)[at] == m;
                assert(added(entries)[at] == m);
            } else {
                assert(added(entries).last() == m);
            }
        }
    }
}

/// A member is in order if and only if all of these hold.
pub proof fn valid_members(m: TeamMember)
    ensures
        (m.fault() is None) == (crate::utils::valid_id(m.team_id@) && crate::utils::valid_id(
            m.user_id@,
        ) && crate::text::utf8_len(m.roles@) <= 256),
{
}

/// Users see all of themselves. Of others they see who is in the team since when, and neither roles
/// nor whether they have left.
pub proof fn users_see_only_their_own_roles(before: TeamMember, after: TeamMember, viewer: Seq<char>)
    requires
        after.is_seen_by(before, viewer),
    ensures
        viewer == before.user_id@ ==> after == before,
        viewer != before.user_id@ ==> after.roles@.len() == 0 && after.explicit_roles@.len() == 0
            && !after.scheme_admin && !after.scheme_guest && !after.scheme_user && after.delete_at == -1,
        after.team_id == before.team_id && after.user_id == before.user_id && after.create_at
            == before.create_at,
{
}

/// The members that were added are those of the entries without an error, all of them and in their
/// order.
pub proof fn all_members_without_error_are_added(entries: Seq<TeamMemberWithError>)
    ensures
        added(entries) == entries.filter(
            |e: TeamMemberWithError| e.error is None && e.member is Some,
        ).map_values(|e: TeamMemberWithError| e.member->0),
    decreases entries.len(),
{
    reveal(Seq::filter);
    let kind = |e: TeamMemberWithError| e.error is None && e.member is Some;
    let member = |e: TeamMemberWithError| e.member->0;
    if entries.len() > 0 {
        let front = entries.drop_last();
        all_members_without_error_are_added(front);
        if kind(entries.last()) {
            assert(entries.filter(kind) =~= front.filter(kind).push(entries.last()));
            assert(front.filter(kind).push(entries.last()).map_values(member) =~= front.filter(
                kind,
            ).map_values(member).push(member(entries.last())));
        } else {
            assert(entries.filter(kind) =~= front.filter(kind));
        }
    } else {
        assert(entries.filter(kind).map_values(member) =~= added(entries));
    }
}

/// Where one field alone has to change for a member to be in order, the error is that
/// of the field.
pub proof fn faults_of_a_member_are_named(bad: TeamMember, good: TeamMember)
    requires
        bad.fault() is Some,
        good.fault() is None,
    ensures
        good == (TeamMember { team_id: good.team_id, ..bad }) ==> crate::utils::reports(
            bad.fault()->0,
            "TeamMember.IsValid"@,
            "model.team_member.is_valid."@ + "team_id"@ + ".app_error"@,
            ""@,
            400,
        ),
        good == (TeamMember { user_id: good.user_id, ..bad }) ==> crate::utils::reports(
            bad.fault()->0,
            "TeamMember.IsValid"@,
            "model.team_member.is_valid."@ + "user_id"@ + ".app_error"@,
            ""@,
            400,
        ),
        good == (TeamMember { roles: good.roles, ..bad }) ==> crate::utils::reports(
            bad.fault()->0,
            "TeamMember.IsValid"@,
            "model.team_member.is_valid."@ + "roles_limit"@ + ".app_error"@,
            ""@,
            400,
        ),
{
}

/// What is wrong with the first fields of a member is reported whatever the fields behind
/// them are.
pub proof fn faults_of_a_member_come_in_order(all: TeamMember, good: TeamMember)
    requires
        good.fault() is None,
    ensures
        ({
            let first = TeamMember { team_id: all.team_id, ..good };
            first.fault() is Some ==> all.fault() == first.fault()
        }),
        ({
            let first = TeamMember { team_id: all.team_id, user_id: all.user_id, ..good };
            first.fault() is Some ==> all.fault() == first.fault()
        }),
        ({
            let first = TeamMember {
                team_id: all.team_id,
                user_id: all.user_id,
                roles: all.roles,
                ..good
            };
            first.fault() is Some ==> all.fault() == first.fault()
        }),
{
}

} // verus!
