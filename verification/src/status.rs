//! Whether users are there.
//!
//! The channel that a user looks at is known to the server alone: neither of the two functions that
//! write statuses for clients writes it.

use vstd::prelude::*;

use crate::str_map::{insert_text, new_string_map, StrMap, StringMap};
use crate::text::same;
use crate::value::{wire_text, Value};

verus! {

pub const STATUS_OUT_OF_OFFICE: &'static str = "ooo";

pub const STATUS_OFFLINE: &'static str = "offline";

pub const STATUS_AWAY: &'static str = "away";

pub const STATUS_DND: &'static str = "dnd";

pub const STATUS_ONLINE: &'static str = "online";

pub const STATUS_CACHE_SIZE: usize = crate::session::SESSION_CACHE_SIZE;

/// Milliseconds.
pub const STATUS_CHANNEL_TIMEOUT: i64 = 20_000;

/// Milliseconds.
pub const STATUS_MIN_UPDATE_TIME: i64 = 120_000;

/// How often statuses that have run out are looked for, in nanoseconds.
pub const DND_EXPIRY_INTERVAL: i64 = 60_000_000_000;

/// Whether a user is there.
#[derive(Debug, Clone, Default, PartialEq, Eq)]
pub struct Status {
    pub user_id: String,
    pub status: String,
    pub manual: bool,
    /// Milliseconds.
    pub last_activity_at: i64,
    /// The channel that the user looks at.
    pub active_channel: String,
    /// When the user can be disturbed again, in seconds.
    pub dnd_end_time: i64,
    /// What the status was before. It is never sent.
    pub prev_status: String,
}

/// A status as JSON. An empty channel is left out, and the earlier status always is.
pub open spec fn status_json(s: Status, active_channel: Seq<char>) -> crate::value::Json {
    let head = seq![
        ("user_id"@, crate::value::Json::Str(s.user_id@)),
        ("status"@, crate::value::Json::Str(s.status@)),
        ("manual"@, crate::value::Json::Bool(s.manual)),
        ("last_activity_at"@, crate::value::Json::Int(s.last_activity_at as int)),
    ];
    let middle = if active_channel.len() > 0 {
        seq![("active_channel"@, crate::value::Json::Str(active_channel))]
    } else {
        Seq::empty()
    };
    let tail = seq![("dnd_end_time"@, crate::value::Json::Int(s.dnd_end_time as int))];
    crate::value::Json::Object(head + middle + tail)
}

/// What clients see of a status.
pub open spec fn client_json(s: Status) -> crate::value::Json {
    status_json(s, Seq::empty())
}

fn status_value(s: &Status, active_channel: &str) -> (v: Value)
    ensures
        v@ == status_json(*s, active_channel@),
{
    let mut members: Vec<(String, Value)> = Vec::new();
    members.push(("user_id".to_string(), Value::Str(s.user_id.clone())));
    members.push(("status".to_string(), Value::Str(s.status.clone())));
    members.push(("manual".to_string(), Value::Bool(s.manual)));
    members.push(("last_activity_at".to_string(), Value::Int(s.last_activity_at)));
    if !active_channel.is_empty() {
        members.push(("active_channel".to_string(), Value::Str(active_channel.to_string())));
    }
    members.push(("dnd_end_time".to_string(), Value::Int(s.dnd_end_time)));
    proof {
        crate::value::object_members(members);
        assert(crate::value::members(members@) =~= status_json(*s, active_channel@)->Object_0);
    }
    Value::Object(members)
}

impl Status {
    /// The whole status as a value, the channel included.
    pub fn to_value(&self) -> (v: Value)
        ensures
            v@ == status_json(*self, self.active_channel@),
    {
        status_value(self, self.active_channel.as_str())
    }

    /// The status as clients see it.
    pub fn to_json(&self) -> (r: String)
        ensures
            r@ == crate::value::wire(client_json(*self)),
    {
        let v: Value = status_value(self, "");
        proof {
            reveal_strlit("");
            assert(""@ =~= Seq::<char>::empty());
        }
        wire_text(&v)
    }
}

/// Statuses as clients see them. No statuses are an empty list.
pub fn status_list_to_json(statuses: &[Status]) -> (r: String)
    ensures
        r@ == crate::value::wire(
            crate::value::Json::List(statuses@.map_values(|s: Status| client_json(s))),
        ),
{
    let mut items: Vec<Value> = Vec::new();
    let mut i: usize = 0;
    proof {
        reveal_strlit("");
        assert(""@ =~= Seq::<char>::empty());
    }
    while i < statuses.len()
        invariant
            ""@ == Seq::<char>::empty(),
            i <= statuses@.len(),
            items@.len() == i,
            forall|k: int| 0 <= k < i ==> (#[trigger] items@[k])@ == client_json(statuses@[k]),
        decreases statuses@.len() - i,
    {
        items.push(status_value(&statuses[i], ""));
        i = i + 1;
    }
    proof {
        crate::value::list_items(items);
        assert(items@.map_values(|v: Value| v@) =~= statuses@.map_values(
            |s: Status| client_json(s),
        ));
    }
    let v: Value = Value::List(items);
    wire_text(&v)
}

/// What is known of users by statuses: the status of each user who is not offline. Where a user has
/// several, the last one counts.
pub open spec fn shown_statuses(statuses: Seq<Status>) -> Map<Seq<char>, Seq<char>>
    decreases statuses.len(),
{
    if statuses.len() == 0 {
        Map::empty()
    } else {
        let before = shown_statuses(statuses.drop_last());
        let s = statuses.last();
        if s.status@ == STATUS_OFFLINE@ {
            before
        } else {
            before.insert(s.user_id@, s.status@)
        }
    }
}

/// The statuses of a map, in the order of their keys.
pub open spec fn listed_statuses(m: StrMap<Status>) -> Seq<Status> {
    m.list().map_values(|e: (Seq<char>, Status)| e.1)
}

/// The statuses of users by the users' ids, whatever the keys were. Users who are offline are left
/// out.
pub fn status_map_to_interface_map(status_map: &StrMap<Status>) -> (out: StringMap)
    ensures
        crate::str_map::texts(out@) == shown_statuses(listed_statuses(*status_map)),
{
    let ghost all = listed_statuses(*status_map);
    let mut out: StringMap = new_string_map();
    let n: usize = status_map.len();
    let mut i: usize = 0;
    assert(all.take(0) == Seq::<Status>::empty());
    while i < n
        invariant
            all == listed_statuses(*status_map),
            n == status_map.list().len(),
            i <= n,
            crate::str_map::texts(out@) == shown_statuses(all.take(i as int)),
        decreases n - i,
    {
        let s: &Status = status_map.value_at(i);
        assert(all.take(i + 1).drop_last() == all.take(i as int));
        assert(all.take(i + 1).last() == *s);
        if !same(s.status.as_str(), STATUS_OFFLINE) {
            insert_text(&mut out, s.user_id.as_str(), s.status.as_str());
        }
        i = i + 1;
    }
    assert(all.take(i as int) == all);
    out
}

/// A user is known exactly if a status of the user is not offline, and by one of these.
pub proof fn shown_users(statuses: Seq<Status>, user: Seq<char>)
    ensures
        shown_statuses(statuses).dom().contains(user) <==> exists|i: int|
            0 <= i < statuses.len() && (#[trigger] statuses[i]).user_id@ == user
                && statuses[i].status@ != STATUS_OFFLINE@,
        shown_statuses(statuses).dom().contains(user) ==> exists|i: int|
            0 <= i < statuses.len() && (#[trigger] statuses[i]).user_id@ == user
                && statuses[i].status@ == shown_statuses(statuses)[user],
    decreases statuses.len(),
{
    if statuses.len() > 0 {
        let rest = statuses.drop_last();
        shown_users(rest, user);
        let n = statuses.len() - 1;
        assert forall|i: int| 0 <= i < rest.len() implies #[trigger] rest[i] == statuses[i] by {}
        if shown_statuses(rest).dom().contains(user) {
            let i = choose|i: int|
                0 <= i < rest.len() && (#[trigger] rest[i]).user_id@ == user && rest[i].status@
                    != STATUS_OFFLINE@;
            assert(statuses[i].user_id@ == user);
            let j = choose|i: int|
                0 <= i < rest.len() && (#[trigger] rest[i]).user_id@ == user && rest[i].status@
                    == shown_statuses(rest)[user];
            assert(statuses[j].user_id@ == user);
        }
        assert(statuses[n].user_id@ == statuses.last().user_id@);
        if exists|i: int|
            0 <= i < statuses.len() && (#[trigger] statuses[i]).user_id@ == user
                && statuses[i].status@ != STATUS_OFFLINE@ {
            let i = choose|i: int|
                0 <= i < statuses.len() && (#[trigger] statuses[i]).user_id@ == user
                    && statuses[i].status@ != STATUS_OFFLINE@;
            if i < n {
                assert(rest[i] == statuses[i]);
            }
        }
    }
}

/// Of several statuses of a user the last one that is not offline counts.
pub proof fn the_last_status_counts(statuses: Seq<Status>, s: Status)
    ensures
        s.status@ != "offline"@ ==> shown_statuses(statuses.push(s)) == shown_statuses(statuses).insert(
            s.user_id@,
            s.status@,
        ),
        s.status@ == "offline"@ ==> shown_statuses(statuses.push(s)) == shown_statuses(statuses),
        shown_statuses(Seq::empty()).dom() == Set::<Seq<char>>::empty(),
{
    assert(statuses.push(s).drop_last() =~= statuses);
    assert(shown_statuses(Seq::empty()).dom() =~= Set::<Seq<char>>::empty());
}

/// Clients see who is there, since when and until when not to disturb, but not the channel that a
/// user looks at, nor the earlier status.
pub proof fn clients_do_not_see_the_channel(a: Status, b: Status)
    requires
        a.user_id@ == b.user_id@,
        a.status@ == b.status@,
        a.manual == b.manual,
        a.last_activity_at == b.last_activity_at,
        a.dnd_end_time == b.dnd_end_time,
    ensures
        client_json(a) == client_json(b),
        client_json(a) is Object,
        client_json(a)->Object_0 =~= seq![
            ("user_id"@, crate::value::Json::Str(a.user_id@)),
            ("status"@, crate::value::Json::Str(a.status@)),
            ("manual"@, crate::value::Json::Bool(a.manual)),
            ("last_activity_at"@, crate::value::Json::Int(a.last_activity_at as int)),
            ("dnd_end_time"@, crate::value::Json::Int(a.dnd_end_time as int)),
        ],
{
}

} // verus!
