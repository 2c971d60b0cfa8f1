//! The categories of channels in the sidebar.

use vstd::prelude::*;

use crate::pattern::{regex_is_match, CATEGORY_ID};
use crate::utils::is_valid_id;

verus! {

pub const SIDEBAR_CATEGORY_CHANNELS: &'static str = "channels";

pub const SIDEBAR_CATEGORY_DIRECT_MESSAGES: &'static str = "direct_messages";

pub const SIDEBAR_CATEGORY_FAVORITES: &'static str = "favorites";

pub const SIDEBAR_CATEGORY_CUSTOM: &'static str = "custom";

pub const SIDEBAR_CATEGORY_MANAGED: &'static str = "managed";

pub const MINIMAL_SIDEBAR_SORT_DISTANCE: i64 = 10;

pub const DEFAULT_SIDEBAR_SORT_ORDER_FAVORITES: i64 = 0;

pub const DEFAULT_SIDEBAR_SORT_ORDER_CHANNELS: i64 = 10;

pub const DEFAULT_SIDEBAR_SORT_ORDER_DMS: i64 = 20;

/// The order of categories that have none of their own.
pub const SIDEBAR_CATEGORY_SORT_DEFAULT: &'static str = "";

pub const SIDEBAR_CATEGORY_SORT_MANUAL: &'static str = "manual";

pub const SIDEBAR_CATEGORY_SORT_RECENT: &'static str = "recent";

pub const SIDEBAR_CATEGORY_SORT_ALPHABETICAL: &'static str = "alpha";

pub const MANAGED_CATEGORY_PROPERTY_GROUP_NAME: &'static str = "managed_channel_categories";

pub const MANAGED_CATEGORY_PROPERTY_FIELD_NAME: &'static str = "category_name";

/// A category.
#[derive(Debug, Clone, Default, PartialEq, Eq)]
pub struct SidebarCategory {
    pub id: String,
    pub user_id: String,
    pub team_id: String,
    pub sort_order: i64,
    pub sorting: String,
    pub category_type: String,
    pub display_name: String,
    pub muted: bool,
    pub collapsed: bool,
}

/// A category and the channels in it.
#[derive(Debug, Clone, Default, PartialEq, Eq)]
pub struct SidebarCategoryWithChannels {
    pub category: SidebarCategory,
    pub channel_ids: Option<Vec<String>>,
}

impl SidebarCategoryWithChannels {
    /// The channels, where they are known. No list is another thing than an empty one.
    pub fn channel_ids(&self) -> (r: Option<&[String]>)
        ensures
            match r {
                Some(ids) => self.channel_ids is Some && ids@ == self.channel_ids->0@,
                None => self.channel_ids is None,
            },
    {
        match &self.channel_ids {
            Some(ids) => Some(ids.as_slice()),
            None => None,
        }
    }
}

/// Categories, and their ids in the same order.
#[derive(Debug, Clone, Default, PartialEq, Eq)]
pub struct OrderedSidebarCategories {
    pub categories: Option<Vec<SidebarCategoryWithChannels>>,
    pub order: Option<Vec<String>>,
}

/// A channel in a category.
#[derive(Debug, Clone, Default, PartialEq, Eq)]
pub struct SidebarChannel {
    pub channel_id: String,
    pub user_id: String,
    pub category_id: String,
    /// It is never sent.
    pub sort_order: i64,
}

/// Whether a text is the id of a category: an id, or a text in which there stand the name of a
/// default category, an underscore, an id in lower case, another underscore and another such id.
pub fn is_valid_category_id(value: &str) -> (r: bool)
    ensures
        r == (crate::utils::valid_id(value@) || crate::pattern::category_id_shape(value@)),
{
    is_valid_id(value) || regex_is_match(CATEGORY_ID, value)
}

/// The id of a default category of a user in a team.
pub open spec fn default_category_id(
    name: Seq<char>,
    user_id: Seq<char>,
    team_id: Seq<char>,
) -> Seq<char> {
    name + "_"@ + user_id + "_"@ + team_id
}

/// The ids of the default categories of users and teams with new ids are ids of categories, also
/// with other text in front and behind.
pub proof fn default_category_ids_are_valid(
    front: Seq<char>,
    user_id: Seq<char>,
    team_id: Seq<char>,
    back: Seq<char>,
)
    requires
        crate::utils::is_random_text(user_id, 26),
        crate::utils::is_random_text(team_id, 26),
    ensures
        crate::pattern::category_id_shape(
            front + default_category_id(SIDEBAR_CATEGORY_FAVORITES@, user_id, team_id) + back,
        ),
        crate::pattern::category_id_shape(
            front + default_category_id(SIDEBAR_CATEGORY_CHANNELS@, user_id, team_id) + back,
        ),
        crate::pattern::category_id_shape(
            front + default_category_id(SIDEBAR_CATEGORY_DIRECT_MESSAGES@, user_id, team_id) + back,
        ),
{
    category_id_stands(front, SIDEBAR_CATEGORY_FAVORITES@, user_id, team_id, back);
    category_id_stands(front, SIDEBAR_CATEGORY_CHANNELS@, user_id, team_id, back);
    category_id_stands(front, SIDEBAR_CATEGORY_DIRECT_MESSAGES@, user_id, team_id, back);
    let at = front.len() as int;
    let a = front + default_category_id(SIDEBAR_CATEGORY_FAVORITES@, user_id, team_id) + back;
    let b = front + default_category_id(SIDEBAR_CATEGORY_CHANNELS@, user_id, team_id) + back;
    let c = front + default_category_id(SIDEBAR_CATEGORY_DIRECT_MESSAGES@, user_id, team_id) + back;
    assert(crate::pattern::default_category_at(a, at));
    assert(crate::pattern::default_category_at(b, at));
    assert(crate::pattern::default_category_at(c, at));
}

proof fn category_id_stands(
    front: Seq<char>,
    name: Seq<char>,
    user_id: Seq<char>,
    team_id: Seq<char>,
    back: Seq<char>,
)
    requires
        crate::utils::is_random_text(user_id, 26),
        crate::utils::is_random_text(team_id, 26),
    ensures
        crate::pattern::category_id_at(
            front + default_category_id(name, user_id, team_id) + back,
            name,
            front.len() as int,
        ),
{
    reveal_strlit("_");
    let s = front + default_category_id(name, user_id, team_id) + back;
    let at = front.len() as int;
    let first = at + name.len();
    assert(s.subrange(at, first) =~= name);
    assert(s.subrange(first, first + 1) =~= "_"@);
    assert(s.subrange(first + 27, first + 28) =~= "_"@);
    assert forall|i: int| first + 1 <= i < first + 27 implies crate::pattern::is_lower_digit(
        #[trigger] s[i],
    ) by {
        assert(s[i] == user_id[i - first - 1]);
        assert(crate::utils::id_char(user_id[i - first - 1]));
    }
    assert forall|i: int| first + 28 <= i < first + 54 implies crate::pattern::is_lower_digit(
        #[trigger] s[i],
    ) by {
        assert(s[i] == team_id[i - first - 28]);
        assert(crate::utils::id_char(team_id[i - first - 28]));
    }
}

} // verus!
