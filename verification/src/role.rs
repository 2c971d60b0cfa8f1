//! Roles and their names.

use vstd::prelude::*;

use crate::text::{byte_len, to_chars};
use crate::utils::FAKE_SETTING;

verus! {

pub const ROLE_NAME_MAX_LENGTH: usize = 64;

/// A role.
#[derive(Debug, Clone, Default, PartialEq, Eq)]
pub struct Role {
    pub id: String,
    pub name: String,
    pub display_name: String,
    pub description: String,
    pub create_at: i64,
    pub update_at: i64,
    pub delete_at: i64,
    pub permissions: Option<Vec<String>>,
    pub scheme_managed: bool,
    pub built_in: bool,
}

impl Role {
    /// Hides the name that is shown and the description. The name itself stays.
    pub fn sanitize(&mut self)
        ensures
            *final(self) == (Role {
                display_name: final(self).display_name,
                description: final(self).description,
                ..*old(self)
            }),
            final(self).display_name@ == FAKE_SETTING@,
            final(self).description@ == FAKE_SETTING@,
    {
        self.display_name = FAKE_SETTING.to_owned();
        self.description = FAKE_SETTING.to_owned();
    }
}

/// A character of a name: a lower-case letter, a digit or an underscore.
pub open spec fn name_char(c: char) -> bool {
    crate::pattern::is_lower_digit(c) || c == '_'
}

/// A text of characters of names.
pub open spec fn is_name_text(s: Seq<char>) -> bool {
    forall|i: int| 0 <= i < s.len() ==> name_char(#[trigger] s[i])
}

/// The name of a role: between one and 64 characters of names.
pub open spec fn valid_role_name(s: Seq<char>) -> bool {
    1 <= crate::text::utf8_len(s) <= 64 && is_name_text(s)
}

/// Whether a text consists of characters of names.
pub fn has_name_chars(s: &str) -> (r: bool)
    ensures
        r == is_name_text(s@),
{
    let chars: Vec<char> = to_chars(s);
    let mut i: usize = 0;
    while i < chars.len()
        invariant
            chars@ == s@,
            i <= chars@.len(),
            forall|j: int| 0 <= j < i ==> name_char(#[trigger] s@[j]),
        decreases chars@.len() - i,
    {
        let c: char = chars[i];
        if !(crate::pattern::lower_digit_char(c) || c == '_') {
            assert(!name_char(s@[i as int]));
            return false;
        }
        i = i + 1;
    }
    true
}

/// Whether a text is the name of a role.
pub fn is_valid_role_name(name: &str) -> (r: bool)
    ensures
        r == valid_role_name(name@),
{
    let n: usize = byte_len(name);
    1 <= n && n <= ROLE_NAME_MAX_LENGTH && has_name_chars(name)
}

/// The name of a role is one to sixty-four lower-case letters, digits and underscores.
pub proof fn role_names_are_short_and_plain(s: Seq<char>)
    ensures
        valid_role_name(s) == (1 <= s.len() <= 64 && forall|i: int|
            0 <= i < s.len() ==> 'a' <= #[trigger] s[i] <= 'z' || '0' <= s[i] <= '9' || s[i] == '_'),
{
    if is_name_text(s) {
        assert forall|i: int| 0 <= i < s.len() implies '\0' <= #[trigger] s[i] <= '\u{7f}' by {
            assert(name_char(s[i]));
        }
        assert(vstd::utf8::is_ascii_chars(s));
        vstd::utf8::is_ascii_chars_encode_utf8(s);
    } else {
        let i = choose|i: int| 0 <= i < s.len() && !name_char(#[trigger] s[i]);
        assert(!('a' <= s[i] <= 'z' || '0' <= s[i] <= '9' || s[i] == '_'));
    }
}

} // verus!
