//! What a server tells its supporters.

use vstd::prelude::*;

use crate::role::Role;
use crate::scheme::Scheme;
use crate::str_map::StringMap;

verus! {

pub const CURRENT_SUPPORT_PACKET_VERSION: i64 = 2;

/// The file of what went wrong when a packet was put together.
pub const SUPPORT_PACKET_ERROR_FILE: &'static str = "warning.txt";

/// What a packet says of the license.
#[derive(Debug, Clone, Default, PartialEq, Eq)]
pub struct SupportPacketLicense {
    pub company: String,
    pub users: i64,
    pub sku_short_name: String,
    pub is_trial: bool,
    pub is_gov_sku: bool,
    pub is_non_production: bool,
}

/// Where the configuration is kept.
#[derive(Debug, Clone, Default, PartialEq, Eq)]
pub struct SupportPacketConfigSource {
    pub source: String,
}

/// Where files are kept.
#[derive(Debug, Clone, Default, PartialEq, Eq)]
pub struct SupportPacketFileStore {
    pub status: String,
    pub error: String,
    pub driver: String,
    pub filesystem_type: String,
    pub total_mb: u64,
    pub available_mb: u64,
}

/// How many clients are connected.
#[derive(Debug, Clone, Copy, Default, PartialEq, Eq)]
pub struct SupportPacketWebsocket {
    pub connections: i64,
}

/// The cluster.
#[derive(Debug, Clone, Default, PartialEq, Eq)]
pub struct SupportPacketCluster {
    pub id: String,
    pub number_of_nodes: i64,
}

/// Whether something works, and why not.
#[derive(Debug, Clone, Default, PartialEq, Eq)]
pub struct SupportPacketStatusAndError {
    pub status: String,
    pub error: String,
}

/// Whether notifications are sent.
#[derive(Debug, Clone, Default, PartialEq, Eq)]
pub struct SupportPacketNotifications {
    pub email: SupportPacketStatusAndError,
    pub push: SupportPacketStatusAndError,
}

/// The directory of users.
#[derive(Debug, Clone, Default, PartialEq, Eq)]
pub struct SupportPacketLdap {
    pub status: String,
    pub error: String,
    pub server_name: String,
    pub server_version: String,
}

/// The provider of identities.
#[derive(Debug, Clone, Default, PartialEq, Eq)]
pub struct SupportPacketSaml {
    pub provider_type: String,
    pub status: String,
    pub error: String,
}

/// The search engine.
#[derive(Debug, Clone, Default, PartialEq, Eq)]
pub struct SupportPacketElasticSearch {
    pub status: String,
    pub backend: String,
    pub server_version: String,
    pub server_plugins: Vec<String>,
    pub error: String,
}

/// Whether a provider of logins works.
#[derive(Debug, Clone, Default, PartialEq, Eq)]
pub struct OAuthProviderStatus {
    pub status: String,
    pub error: String,
}

/// The providers of logins.
#[derive(Debug, Clone, Default, PartialEq, Eq)]
pub struct OAuthProviders {
    pub gitlab: OAuthProviderStatus,
    pub google: OAuthProviderStatus,
    pub office365: OAuthProviderStatus,
    pub openid: OAuthProviderStatus,
}

/// Counts.
#[derive(Debug, Clone, Copy, Default, PartialEq, Eq)]
pub struct SupportPacketStats {
    pub registered_users: i64,
    pub active_users: i64,
    pub daily_active_users: i64,
    pub monthly_active_users: i64,
    pub deactivated_users: i64,
    pub guests: i64,
    pub single_channel_guests: i64,
    pub bot_accounts: i64,
    pub posts: i64,
    pub channels: i64,
    pub teams: i64,
    pub slash_commands: i64,
    pub incoming_webhooks: i64,
    pub outgoing_webhooks: i64,
}

/// Roles and schemes.
#[derive(Debug, Clone, Default, PartialEq, Eq)]
pub struct SupportPacketPermissionInfo {
    pub roles: Vec<Role>,
    pub schemes: Vec<Scheme>,
}

/// The tables of the database.
#[derive(Debug, Clone, Default, PartialEq, Eq)]
pub struct SupportPacketDatabaseSchema {
    pub database_collation: String,
    pub database_encoding: String,
    pub tables: Vec<DatabaseTable>,
}

/// A table.
#[derive(Debug, Clone, Default, PartialEq, Eq)]
pub struct DatabaseTable {
    pub name: String,
    pub collation: String,
    pub options: StringMap,
    pub columns: Vec<DatabaseColumn>,
    pub indexes: Vec<DatabaseIndex>,
}

/// A column of a table.
#[derive(Debug, Clone, Default, PartialEq, Eq)]
pub struct DatabaseColumn {
    pub name: String,
    pub data_type: String,
    pub max_length: i64,
    pub is_nullable: bool,
}

/// An index of a table.
#[derive(Debug, Clone, Default, PartialEq, Eq)]
pub struct DatabaseIndex {
    pub name: String,
    pub definition: String,
}

/// A file of a packet.
#[derive(Debug, Clone, Default, PartialEq, Eq)]
pub struct FileData {
    pub filename: String,
    pub body: Vec<u8>,
}

/// What a packet should hold.
#[derive(Debug, Clone, Default, PartialEq, Eq)]
pub struct SupportPacketOptions {
    pub include_logs: bool,
    /// Plugins that are asked for their part.
    pub plugin_packets: Vec<String>,
    /// For how many nanoseconds to sample: nothing for the usual time, zero for not at all.
    pub cpu_profile_duration: Option<u64>,
}

} // verus!
