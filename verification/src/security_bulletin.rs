//! Security bulletins.

use vstd::prelude::*;

verus! {

/// A bulletin, and the version that it is about.
#[derive(Debug, Clone, Default, PartialEq, Eq)]
pub struct SecurityBulletin {
    pub id: String,
    pub applies_to_version: String,
}

/// Bulletins.
#[derive(Debug, Clone, Default, PartialEq, Eq)]
pub struct SecurityBulletins(pub Vec<SecurityBulletin>);

} // verus!
