//! Facts about the whole system that are kept by name.

use vstd::prelude::*;

verus! {

pub const SYSTEM_SERVER_ID: &'static str = "DiagnosticId";

pub const SYSTEM_RAN_UNIT_TESTS: &'static str = "RanUnitTests";

pub const SYSTEM_LAST_SECURITY_TIME: &'static str = "LastSecurityTime";

pub const SYSTEM_ACTIVE_LICENSE_ID: &'static str = "ActiveLicenseId";

pub const SYSTEM_LAST_COMPLIANCE_TIME: &'static str = "LastComplianceTime";

pub const SYSTEM_ASYMMETRIC_SIGNING_KEY_KEY: &'static str = "AsymmetricSigningKey";

pub const SYSTEM_POST_ACTION_COOKIE_SECRET_KEY: &'static str = "PostActionCookieSecret";

pub const SYSTEM_INSTALLATION_DATE_KEY: &'static str = "InstallationDate";

pub const SYSTEM_ORGANIZATION_NAME: &'static str = "OrganizationName";

pub const SYSTEM_FIRST_ADMIN_ROLE: &'static str = "FirstAdminRole";

pub const SYSTEM_FIRST_SERVER_RUN_TIMESTAMP_KEY: &'static str = "FirstServerRunTimestamp";

pub const SYSTEM_CLUSTER_ENCRYPTION_KEY: &'static str = "ClusterEncryptionKey";

pub const SYSTEM_PUSH_PROXY_AUTH_TOKEN: &'static str = "PushProxyAuthToken";

pub const SYSTEM_UPGRADED_FROM_TE_ID: &'static str = "UpgradedFromTE";

pub const SYSTEM_WARN_METRIC_NUMBER_OF_TEAMS_5: &'static str = "warn_metric_number_of_teams_5";

pub const SYSTEM_WARN_METRIC_NUMBER_OF_CHANNELS_50: &'static str = "warn_metric_number_of_channels_50";

pub const SYSTEM_WARN_METRIC_MFA: &'static str = "warn_metric_mfa";

pub const SYSTEM_WARN_METRIC_EMAIL_DOMAIN: &'static str = "warn_metric_email_domain";

pub const SYSTEM_WARN_METRIC_NUMBER_OF_ACTIVE_USERS_100: &'static str = "warn_metric_number_of_active_users_100";

pub const SYSTEM_WARN_METRIC_NUMBER_OF_ACTIVE_USERS_200: &'static str = "warn_metric_number_of_active_users_200";

pub const SYSTEM_WARN_METRIC_NUMBER_OF_ACTIVE_USERS_300: &'static str = "warn_metric_number_of_active_users_300";

pub const SYSTEM_WARN_METRIC_NUMBER_OF_ACTIVE_USERS_500: &'static str = "warn_metric_number_of_active_users_500";

pub const SYSTEM_WARN_METRIC_NUMBER_OF_POSTS_2M: &'static str = "warn_metric_number_of_posts_2M";

pub const SYSTEM_WARN_METRIC_LAST_RUN_TIMESTAMP_KEY: &'static str = "LastWarnMetricRunTimestamp";

pub const SYSTEM_FIRST_ADMIN_VISIT_MARKETPLACE: &'static str = "FirstAdminVisitMarketplace";

pub const SYSTEM_FIRST_ADMIN_SETUP_COMPLETE: &'static str = "FirstAdminSetupComplete";

pub const SYSTEM_LAST_ACCESSIBLE_POST_TIME: &'static str = "LastAccessiblePostTime";

pub const SYSTEM_LAST_ACCESSIBLE_FILE_TIME: &'static str = "LastAccessibleFileTime";

pub const SYSTEM_HOSTED_PURCHASE_NEEDS_SCREENING: &'static str = "HostedPurchaseNeedsScreening";

pub const SYSTEM_POST_CHANNEL_TYPE_BACKFILL_COMPLETE: &'static str = "PostChannelTypeBackfillComplete";

pub const AWS_METERING_REPORT_INTERVAL: i64 = 1;

pub const AWS_METERING_DIMENSION_USAGE_HRS: &'static str = "UsageHrs";

pub const CLOUD_RENEWAL_EMAIL: &'static str = "CloudRenewalEmail";

pub const WARN_METRIC_STATUS_LIMIT_REACHED: &'static str = "true";

pub const WARN_METRIC_STATUS_RUNONCE: &'static str = "runonce";

pub const WARN_METRIC_STATUS_ACK: &'static str = "ack";

pub const WARN_METRIC_STATUS_STORE_PREFIX: &'static str = "warn_metric_";

pub const WARN_METRIC_JOB_INTERVAL: i64 = 168;

pub const WARN_METRIC_NUMBER_OF_ACTIVE_USERS_25: i64 = 25;

pub const WARN_METRIC_JOB_WAIT_TIME: i64 = 604_800_000;

/// A value by its name.
#[derive(Debug, Clone, Default, PartialEq, Eq)]
pub struct System {
    pub name: String,
    pub value: String,
}

/// The secret by which cookies of post actions are sealed.
#[derive(Debug, Clone, Default, PartialEq, Eq)]
pub struct SystemPostActionCookieSecret {
    pub secret: Option<Vec<u8>>,
}

/// The key by which the system signs.
#[derive(Debug, Clone, Default, PartialEq, Eq)]
pub struct SystemAsymmetricSigningKey {
    pub ecdsa_key: Option<SystemECDSAKey>,
}

/// A key of an elliptic curve. Its numbers are kept as their digits.
#[derive(Debug, Clone, Default, PartialEq, Eq)]
pub struct SystemECDSAKey {
    pub curve: String,
    pub x: Option<String>,
    pub y: Option<String>,
    pub d: Option<String>,
}

/// Whether the server has too much to do.
#[derive(Debug, Clone, Default, PartialEq, Eq)]
pub struct ServerBusyState {
    pub busy: bool,
    pub expires: i64,
    pub expires_ts: String,
}

/// A migration that was applied.
#[derive(Debug, Clone, Default, PartialEq, Eq)]
pub struct AppliedMigration {
    pub version: i64,
    pub name: String,
}

/// Which lines of logs to show.
#[derive(Debug, Clone, Default, PartialEq, Eq)]
pub struct LogFilter {
    pub server_names: Option<Vec<String>>,
    pub log_levels: Option<Vec<String>>,
    pub date_from: String,
    pub date_to: String,
}

/// A line of a log.
#[derive(Debug, Clone, Default, PartialEq, Eq)]
pub struct LogEntry {
    pub timestamp: String,
    pub level: String,
}

/// What a ping should tell.
#[derive(Debug, Clone, Copy, Default, PartialEq, Eq)]
pub struct SystemPingOptions {
    pub full_status: bool,
    pub rest_semantics: bool,
}

} // verus!
