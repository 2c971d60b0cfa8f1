//! Which users have accepted which terms.

use vstd::prelude::*;

verus! {

/// That a user has accepted terms of service.
#[derive(Debug, Clone, Default, PartialEq, Eq)]
pub struct UserTermsOfService {
    pub user_id: String,
    pub terms_of_service_id: String,
    pub create_at: i64,
}

} // verus!
