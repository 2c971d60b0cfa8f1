//! Ids of plugins.

use vstd::prelude::*;

verus! {

pub const PLUGIN_ID_APPS: &'static str = "com.mattermost.apps";

pub const PLUGIN_ID_CALLS: &'static str = "com.mattermost.calls";

pub const PLUGIN_ID_NPS: &'static str = "com.mattermost.nps";

pub const PLUGIN_ID_CHANNEL_EXPORT: &'static str = "com.mattermost.plugin-channel-export";

pub const PLUGIN_ID_FOCALBOARD: &'static str = "focalboard";

pub const PLUGIN_ID_AI: &'static str = "mattermost-ai";

pub const PLUGIN_ID_PLAYBOOKS: &'static str = "playbooks";

} // verus!
