//! How much of a workspace is used.

use vstd::prelude::*;

use crate::plugin_constants::{
    PLUGIN_ID_AI, PLUGIN_ID_APPS, PLUGIN_ID_CALLS, PLUGIN_ID_CHANNEL_EXPORT, PLUGIN_ID_FOCALBOARD,
    PLUGIN_ID_NPS, PLUGIN_ID_PLAYBOOKS,
};
use crate::text::is_listed;

verus! {

/// How many posts there are.
#[derive(Debug, Clone, Copy, Default, PartialEq, Eq)]
pub struct PostsUsage {
    pub count: i64,
}

/// How much is stored.
#[derive(Debug, Clone, Copy, Default, PartialEq, Eq)]
pub struct StorageUsage {
    pub bytes: i64,
}

/// How many teams there are.
#[derive(Debug, Clone, Copy, Default, PartialEq, Eq)]
pub struct TeamsUsage {
    pub active: i64,
    pub cloud_archived: i64,
}

/// The plugins that do not count as integrations.
pub const INSTALLED_INTEGRATIONS_IGNORED_PLUGINS: [&'static str; 7] = [
    PLUGIN_ID_APPS,
    PLUGIN_ID_CALLS,
    PLUGIN_ID_NPS,
    PLUGIN_ID_CHANNEL_EXPORT,
    PLUGIN_ID_FOCALBOARD,
    PLUGIN_ID_AI,
    PLUGIN_ID_PLAYBOOKS,
];

/// Whether a plugin does not count as an integration.
pub fn is_ignored_plugin(plugin_id: &str) -> (r: bool)
    ensures
        r == crate::text::views(INSTALLED_INTEGRATIONS_IGNORED_PLUGINS@).contains(plugin_id@),
{
    is_listed(INSTALLED_INTEGRATIONS_IGNORED_PLUGINS.as_slice(), plugin_id)
}

/// An integration.
#[derive(Debug, Clone, Default, PartialEq, Eq)]
pub struct InstalledIntegration {
    pub type_: String,
    pub id: String,
    pub name: String,
    pub version: String,
    pub enabled: bool,
}

} // verus!
