//! Names of properties and platforms that sessions share with other parts of the system.

use vstd::prelude::*;

verus! {

pub const USER_AUTH_SERVICE_IS_SAML: &'static str = "isSaml";

pub const USER_AUTH_SERVICE_IS_MOBILE: &'static str = "isMobile";

pub const USER_AUTH_SERVICE_IS_OAUTH: &'static str = "isOAuthUser";

pub const PUSH_NOTIFY_APPLE_REACT_NATIVE: &'static str = "apple_rn";

pub const PUSH_NOTIFY_ANDROID_REACT_NATIVE: &'static str = "android_rn";

} // verus!
