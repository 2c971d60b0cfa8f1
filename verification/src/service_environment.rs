//! The environment that a server runs in. It decides which keys are valid.

use vstd::prelude::*;

use crate::text::{same, trimmed};
use crate::utils::to_lower;

verus! {

pub const SERVICE_ENVIRONMENT_PRODUCTION: &'static str = "production";

pub const SERVICE_ENVIRONMENT_TEST: &'static str = "test";

pub const SERVICE_ENVIRONMENT_DEV: &'static str = "dev";

/// The variable of the process that names the environment.
pub const SERVICE_ENVIRONMENT_ENV_VAR: &'static str = "MM_SERVICEENVIRONMENT";

/// The environment where none is named.
pub fn default_service_environment() -> (r: &'static str)
    ensures
        r@ == SERVICE_ENVIRONMENT_DEV@,
{
    SERVICE_ENVIRONMENT_DEV
}

/// The environment that a text names, whatever its case and the white space around it. What names
/// none stands for the default.
pub open spec fn environment_named(raw: Seq<char>) -> Seq<char> {
    let name = crate::text::trim(crate::utils::lower(raw));
    if name == SERVICE_ENVIRONMENT_PRODUCTION@ || name == SERVICE_ENVIRONMENT_TEST@ || name
        == SERVICE_ENVIRONMENT_DEV@ {
        name
    } else {
        SERVICE_ENVIRONMENT_DEV@
    }
}

/// The environment that the variable of the process names.
pub fn service_environment_from(raw: &str) -> (r: &'static str)
    ensures
        r@ == environment_named(raw@),
{
    let low: String = to_lower(raw);
    let name: &str = trimmed(low.as_str());
    if same(name, SERVICE_ENVIRONMENT_PRODUCTION) {
        SERVICE_ENVIRONMENT_PRODUCTION
    } else if same(name, SERVICE_ENVIRONMENT_TEST) {
        SERVICE_ENVIRONMENT_TEST
    } else if same(name, SERVICE_ENVIRONMENT_DEV) {
        SERVICE_ENVIRONMENT_DEV
    } else {
        default_service_environment()
    }
}

/// Each environment is found by its name, whatever the white space around it, and what names none is
/// the one for development.
pub proof fn environments_are_found_by_name(raw: Seq<char>)
    ensures
        ({
            let name = crate::text::trim(crate::utils::lower(raw));
            &&& name == "production"@ ==> environment_named(raw) == "production"@
            &&& name == "test"@ ==> environment_named(raw) == "test"@
            &&& name != "production"@ && name != "test"@ ==> environment_named(raw) == "dev"@
        }),
{
}

} // verus!
