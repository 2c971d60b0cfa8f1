//! Names of roles, services and settings that belong to other parts of the system.

use vstd::prelude::*;

verus! {

pub const SYSTEM_GUEST_ROLE_ID: &'static str = "system_guest";

pub const SYSTEM_ADMIN_ROLE_ID: &'static str = "system_admin";

pub const USER_AUTH_SERVICE_LDAP: &'static str = "ldap";

pub const USER_AUTH_SERVICE_SAML: &'static str = "saml";

pub const SERVICE_GITLAB: &'static str = "gitlab";

pub const SERVICE_GOOGLE: &'static str = "google";

pub const SERVICE_OFFICE365: &'static str = "office365";

pub const SERVICE_OPENID: &'static str = "openid";

pub const SHOW_USERNAME: &'static str = "username";

pub const SHOW_NICKNAME_FULL_NAME: &'static str = "nickname_full_name";

pub const SHOW_FULL_NAME: &'static str = "full_name";

/// The property that holds a user's custom status.
pub const USER_PROPS_KEY_CUSTOM_STATUS: &'static str = "customStatus";

pub const USER_PROPS_KEY_REMOTE_EMAIL: &'static str = "RemoteEmail";

pub const USER_PROPS_KEY_ORIGINAL_REMOTE_ID: &'static str = "OriginalRemoteId";

pub const USER_ORIGINAL_REMOTE_ID_UNKNOWN: &'static str = "UNKNOWN";

} // verus!
