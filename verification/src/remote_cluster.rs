//! Options of remote clusters.

use vstd::prelude::*;

verus! {

/// A set of options, one bit for each.
#[derive(Debug, Clone, Copy, Default, PartialEq, Eq)]
pub struct Bitmask(pub u32);

impl Bitmask {
    /// Direct messages are shared without being asked for.
    pub const AUTO_SHARE_DMS: u32 = 1;

    /// The remote is invited without being asked for.
    pub const AUTO_INVITED: u32 = 2;

    /// Sets a bit.
    pub fn set_bit(&mut self, flag: u32)
        ensures
            final(self).0 == old(self).0 | flag,
    {
        self.0 = self.0 | flag;
    }

    /// Whether one of the bits of a flag is set.
    pub fn is_bit_set(&self, flag: u32) -> (r: bool)
        ensures
            r == (self.0 & flag != 0),
    {
        self.0 & flag != 0
    }
}

} // verus!
