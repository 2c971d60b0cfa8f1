//! Requests to log in another way from now on.

use vstd::prelude::*;

use crate::text::same;
use crate::user::external::{
    SERVICE_GITLAB, SERVICE_GOOGLE, SERVICE_OFFICE365, SERVICE_OPENID, USER_AUTH_SERVICE_LDAP,
    USER_AUTH_SERVICE_SAML,
};
use crate::user::USER_AUTH_SERVICE_EMAIL;

verus! {

/// A request to log in by another service.
#[derive(Debug, Clone, Default, PartialEq, Eq)]
pub struct SwitchRequest {
    pub current_service: String,
    pub new_service: String,
    pub email: String,
    pub password: String,
    pub new_password: String,
    pub mfa_code: String,
    pub ldap_login_id: String,
}

/// Whether a service is one of those that sign users on elsewhere.
pub open spec fn oauth_service(service: Seq<char>) -> bool {
    service == USER_AUTH_SERVICE_SAML@ || service == SERVICE_GITLAB@ || service == SERVICE_GOOGLE@
        || service == SERVICE_OFFICE365@ || service == SERVICE_OPENID@
}

fn is_oauth_service(service: &str) -> (r: bool)
    ensures
        r == oauth_service(service@),
{
    same(service, USER_AUTH_SERVICE_SAML) || same(service, SERVICE_GITLAB) || same(
        service,
        SERVICE_GOOGLE,
    ) || same(service, SERVICE_OFFICE365) || same(service, SERVICE_OPENID)
}

impl SwitchRequest {
    /// From a password to another service.
    pub fn email_to_oauth(&self) -> (r: bool)
        ensures
            r == (self.current_service@ == USER_AUTH_SERVICE_EMAIL@ && oauth_service(
                self.new_service@,
            )),
    {
        same(self.current_service.as_str(), USER_AUTH_SERVICE_EMAIL) && is_oauth_service(
            self.new_service.as_str(),
        )
    }

    /// From another service to a password.
    pub fn oauth_to_email(&self) -> (r: bool)
        ensures
            r == (oauth_service(self.current_service@) && self.new_service@
                == USER_AUTH_SERVICE_EMAIL@),
    {
        is_oauth_service(self.current_service.as_str()) && same(
            self.new_service.as_str(),
            USER_AUTH_SERVICE_EMAIL,
        )
    }

    /// From a password to LDAP.
    pub fn email_to_ldap(&self) -> (r: bool)
        ensures
            r == (self.current_service@ == USER_AUTH_SERVICE_EMAIL@ && self.new_service@
                == USER_AUTH_SERVICE_LDAP@),
    {
        same(self.current_service.as_str(), USER_AUTH_SERVICE_EMAIL) && same(
            self.new_service.as_str(),
            USER_AUTH_SERVICE_LDAP,
        )
    }

    /// From LDAP to a password.
    pub fn ldap_to_email(&self) -> (r: bool)
        ensures
            r == (self.current_service@ == USER_AUTH_SERVICE_LDAP@ && self.new_service@
                == USER_AUTH_SERVICE_EMAIL@),
    {
        same(self.current_service.as_str(), USER_AUTH_SERVICE_LDAP) && same(
            self.new_service.as_str(),
            USER_AUTH_SERVICE_EMAIL,
        )
    }
}

/// Which of the four switches are asked for.
pub open spec fn switches(current: Seq<char>, new: Seq<char>) -> Seq<bool> {
    let email = USER_AUTH_SERVICE_EMAIL@;
    let ldap = USER_AUTH_SERVICE_LDAP@;
    seq![
        current == email && oauth_service(new),
        oauth_service(current) && new == email,
        current == email && new == ldap,
        current == ldap && new == email,
    ]
}

/// At most one of the four switches is asked for.
pub proof fn switches_exclude_each_other(current: Seq<char>, new: Seq<char>, i: int, j: int)
    requires
        0 <= i < j < 4,
    ensures
        !(switches(current, new)[i] && switches(current, new)[j]),
{
    reveal_strlit("email");
    reveal_strlit("ldap");
    reveal_strlit("saml");
    reveal_strlit("gitlab");
    reveal_strlit("google");
    reveal_strlit("office365");
    reveal_strlit("openid");
    assert("ldap"@[0] != "saml"@[0]);
    assert("email"@.len() == 5 && "ldap"@.len() == 4);
    assert("gitlab"@.len() == 6 && "google"@.len() == 6 && "openid"@.len() == 6);
    assert("office365"@.len() == 9);
}

/// The services that sign users on elsewhere are these five.
pub proof fn five_services_sign_on_elsewhere(service: Seq<char>)
    ensures
        oauth_service(service) == (service == "saml"@ || service == "gitlab"@ || service == "google"@
            || service == "office365"@ || service == "openid"@),
{
}

/// A switch goes from or to a password.
pub proof fn switches_are_from_or_to_a_password(current: Seq<char>, new: Seq<char>, i: int)
    requires
        0 <= i < 4,
        switches(current, new)[i],
    ensures
        i == 0 || i == 2 ==> current == "email"@,
        i == 1 || i == 3 ==> new == "email"@,
        i == 2 ==> new == "ldap"@,
        i == 3 ==> current == "ldap"@,
        i == 0 ==> oauth_service(new),
        i == 1 ==> oauth_service(current),
{
}

} // verus!
