//! The time zones that users can choose.

use vstd::prelude::*;

use crate::calendar::zone_at;
use crate::str_map::{insert_text, new_string_map, StringMap};

verus! {

pub const USE_AUTOMATIC_TIMEZONE: &'static str = "useAutomaticTimezone";

pub const AUTOMATIC_TIMEZONE: &'static str = "automaticTimezone";

pub const MANUAL_TIMEZONE: &'static str = "manualTimezone";

/// The settings of a user who has chosen nothing: the automatic zone, which is not known yet.
pub open spec fn default_settings() -> Map<Seq<char>, Seq<char>> {
    Map::empty().insert(USE_AUTOMATIC_TIMEZONE@, "true"@).insert(AUTOMATIC_TIMEZONE@, ""@).insert(
        MANUAL_TIMEZONE@,
        ""@,
    )
}

/// The same settings in the order of their keys.
pub open spec fn default_listing() -> Seq<(Seq<char>, Seq<char>)> {
    seq![
        (AUTOMATIC_TIMEZONE@, ""@),
        (MANUAL_TIMEZONE@, ""@),
        (USE_AUTOMATIC_TIMEZONE@, "true"@),
    ]
}

proof fn default_listing_is_sorted()
    ensures
        crate::str_map::increasing(default_listing()),
        crate::str_map::list_map(default_listing()) == default_settings(),
{
    reveal_strlit("useAutomaticTimezone");
    reveal_strlit("automaticTimezone");
    reveal_strlit("manualTimezone");
    let l = default_listing();
    assert(l[0].0[0] == 'a' && l[1].0[0] == 'm' && l[2].0[0] == 'u');
    assert(crate::str_map::lex_lt(l[0].0, l[1].0));
    assert(crate::str_map::lex_lt(l[1].0, l[2].0));
    assert(crate::str_map::lex_lt(l[0].0, l[2].0));
    reveal_with_fuel(crate::str_map::list_map, 4);
    let two = l.drop_last();
    let one = two.drop_last();
    assert(two.last() == l[1]);
    assert(one.last() == l[0]);
    assert(one.drop_last().len() == 0);
    assert(crate::str_map::list_map(l) =~= default_settings());
}

/// The length of the default settings on the wire, which is less than the 256 characters that
/// settings may have.
pub proof fn default_settings_are_short()
    ensures
        crate::value::wire(
            crate::value::Json::Object(
                default_listing().map_values(
                    |e: (Seq<char>, Seq<char>)| (e.0, crate::value::Json::Str(e.1)),
                ),
            ),
        ).len() == 74,
{
    reveal_strlit("useAutomaticTimezone");
    reveal_strlit("automaticTimezone");
    reveal_strlit("manualTimezone");
    reveal_strlit("true");
    reveal_strlit("");
    reveal_strlit("{");
    reveal_strlit("}");
    reveal_strlit(",");
    reveal_strlit(":");
    crate::value::plain_text_on_the_wire("useAutomaticTimezone"@);
    crate::value::plain_text_on_the_wire("automaticTimezone"@);
    crate::value::plain_text_on_the_wire("manualTimezone"@);
    crate::value::plain_text_on_the_wire("true"@);
    crate::value::plain_text_on_the_wire(""@);
    let members = default_listing().map_values(
        |e: (Seq<char>, Seq<char>)| (e.0, crate::value::Json::Str(e.1)),
    );
    assert(members.len() == 3);
    assert(crate::value::wire(members[0].1).len() == 2);
    assert(crate::value::wire(members[1].1).len() == 2);
    assert(crate::value::wire(members[2].1).len() == 6);
    assert(crate::value::wire_members(members, 1).len() == 22);
    assert(crate::value::wire_members(members, 2).len() == 42);
    assert(crate::value::wire_members(members, 3).len() == 72);
}

/// New settings of a user who has chosen nothing. On the wire they are short enough for every
/// user.
pub fn default_user_timezone() -> (tz: StringMap)
    ensures
        crate::str_map::texts(tz@) == default_settings(),
        crate::str_map::text_listing(tz.list()) == default_listing(),
        crate::value::wire(crate::value::Json::Object(crate::value::text_list(tz.list()))).len()
            <= crate::user::USER_TIMEZONE_MAX_RUNES,
{
    let mut tz: StringMap = new_string_map();
    insert_text(&mut tz, USE_AUTOMATIC_TIMEZONE, "true");
    insert_text(&mut tz, AUTOMATIC_TIMEZONE, "");
    insert_text(&mut tz, MANUAL_TIMEZONE, "");
    let _count: usize = tz.len();
    proof {
        crate::str_map::texts_of_a_listing(tz.list());
        default_listing_is_sorted();
        crate::str_map::maps_have_one_listing(
            crate::str_map::text_listing(tz.list()),
            default_listing(),
        );
        default_settings_are_short();
        let listed = crate::str_map::text_listing(tz.list());
        assert(crate::value::text_list(tz.list()) =~= listed.map_values(
            |e: (Seq<char>, Seq<char>)| (e.0, crate::value::Json::Str(e.1)),
        ));
    }
    tz
}

/// The time zones that users can choose.
#[derive(Debug, Clone, PartialEq, Eq)]
pub struct Timezones {
    supported_zones: Vec<&'static str>,
}

/// Whether names are in increasing order, which is that of their bytes, and none stands there
/// twice.
pub open spec fn are_sorted(names: Seq<&'static str>) -> bool {
    forall|i: int, j: int|
        0 <= i < j < names.len() ==> crate::str_map::lex_lt(
            (#[trigger] names[i])@,
            (#[trigger] names[j])@,
        )
}

/// Whether names are all those in the table of time zones, in its order.
pub open spec fn are_all_zones(names: Seq<&'static str>) -> bool {
    &&& forall|i: int|
        0 <= i < names.len() ==> crate::calendar::zone_name(i) == Some((#[trigger] names[i])@)
    &&& crate::calendar::zone_name(names.len() as int) is None
}

impl Timezones {
    /// The zones that can be chosen.
    pub closed spec fn zones(&self) -> Seq<&'static str> {
        self.supported_zones@
    }

    /// All the zones of the table, in the order of their names. Each of them is known.
    pub fn new() -> (r: Self)
        ensures
            are_all_zones(r.zones()),
            are_sorted(r.zones()),
            forall|i: int|
                0 <= i < r.zones().len() ==> crate::calendar::known_zone((#[trigger] r.zones()[i])@),
    {
        let mut names: Vec<&'static str> = Vec::new();
        let mut i: usize = 0;
        loop
            invariant_except_break
                names@.len() == i,
                i <= crate::calendar::MAX_ZONES,
                are_sorted(names@),
                forall|k: int|
                    0 <= k < i ==> crate::calendar::zone_name(k) == Some((#[trigger] names@[k])@)
                        && crate::calendar::known_zone(names@[k]@),
            ensures
                are_all_zones(names@),
                are_sorted(names@),
                forall|k: int|
                    0 <= k < names@.len() ==> crate::calendar::known_zone((#[trigger] names@[k])@),
            decreases crate::calendar::MAX_ZONES + 1 - i,
        {
            match zone_at(i) {
                Some(name) => {
                    let ghost before = names@;
                    proof {
                        assert forall|k: int| 0 <= k < i implies crate::str_map::lex_lt(
                            (#[trigger] before[k])@,
                            name@,
                        ) by {
                            if k < i - 1 {
                                crate::str_map::lemma_lex_transitive(
                                    before[k]@,
                                    before[i - 1]@,
                                    name@,
                                );
                            }
                        }
                    }
                    names.push(name);
                    i = i + 1;
                },
                None => {
                    break;
                },
            }
        }
        Timezones { supported_zones: names }
    }

    /// The names of the zones.
    pub fn get_supported(&self) -> (r: &[&'static str])
        ensures
            r@ == self.zones(),
    {
        self.supported_zones.as_slice()
    }
}

impl Default for Timezones {
    fn default() -> (r: Self)
        ensures
            are_all_zones(r.zones()),
            are_sorted(r.zones()),
    {
        Self::new()
    }
}

} // verus!
