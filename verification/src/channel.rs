//! Limits and kinds of channels.

use vstd::prelude::*;

verus! {

pub const CHANNEL_TYPE_DIRECT: &'static str = "D";

pub const CHANNEL_TYPE_GROUP: &'static str = "G";

pub const CHANNEL_DISPLAY_NAME_MAX_RUNES: usize = 64;

pub const CHANNEL_HEADER_MAX_RUNES: usize = 1024;

pub const CHANNEL_PURPOSE_MAX_RUNES: usize = 250;

} // verus!
