//! Truth values as Slack writes them.

use vstd::prelude::*;

use crate::text::{cat3, same};
use crate::utils::to_lower;

verus! {

/// A truth value that may have been written as a text.
#[derive(Debug, Clone, Copy, Default, PartialEq, Eq, PartialOrd, Ord, Hash)]
pub struct SlackCompatibleBool(pub bool);

impl From<bool> for SlackCompatibleBool {
    fn from(b: bool) -> (r: Self) {
        SlackCompatibleBool(b)
    }
}

impl vstd::std_specs::convert::FromSpecImpl<bool> for SlackCompatibleBool {
    open spec fn obeys_from_spec() -> bool {
        true
    }

    open spec fn from_spec(b: bool) -> Self {
        SlackCompatibleBool(b)
    }
}

impl From<SlackCompatibleBool> for bool {
    fn from(b: SlackCompatibleBool) -> (r: bool) {
        b.0
    }
}

impl vstd::std_specs::convert::FromSpecImpl<SlackCompatibleBool> for bool {
    open spec fn obeys_from_spec() -> bool {
        true
    }

    open spec fn from_spec(b: SlackCompatibleBool) -> bool {
        b.0
    }
}

/// The truth value that a text is, in any case.
pub open spec fn bool_of_text(s: Seq<char>) -> Option<bool> {
    if crate::utils::lower(s) == "true"@ {
        Some(true)
    } else if crate::utils::lower(s) == "false"@ {
        Some(false)
    } else {
        None
    }
}

impl SlackCompatibleBool {
    /// Reads a truth value that was written as a text.
    pub fn from_text(text: &str) -> (r: Result<SlackCompatibleBool, String>)
        ensures
            match r {
                Ok(b) => bool_of_text(text@) == Some(b.0),
                Err(e) => bool_of_text(text@) is None && e@ == "unmarshal: unable to convert "@
                    + text@ + " to bool"@,
            },
    {
        let low: String = to_lower(text);
        proof {
            reveal_strlit("true");
            reveal_strlit("false");
        }
        if same(low.as_str(), "true") {
            Ok(SlackCompatibleBool(true))
        } else if same(low.as_str(), "false") {
            Ok(SlackCompatibleBool(false))
        } else {
            Err(cat3("unmarshal: unable to convert ", text, " to bool"))
        }
    }
}

/// The two words are read in any case of their letters, and nothing else is read.
pub proof fn two_words_are_truth_values(s: Seq<char>)
    ensures
        bool_of_text(s) == Some(true) <==> crate::utils::lower(s) == seq!['t', 'r', 'u', 'e'],
        bool_of_text(s) == Some(false) <==> crate::utils::lower(s) == seq!['f', 'a', 'l', 's', 'e'],
{
    reveal_strlit("true");
    reveal_strlit("false");
    assert("true"@ =~= seq!['t', 'r', 'u', 'e']);
    assert("false"@ =~= seq!['f', 'a', 'l', 's', 'e']);
}

} // verus!
