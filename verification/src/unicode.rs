//! The scripts of Chinese, Japanese and Korean.
//!
//! A table lists ranges of code points by their ends and a stride: of a range there belong to the
//! script the first code point and every further one at a multiple of the stride.

use vstd::prelude::*;

use crate::text::to_chars;

verus! {

/// The version of Unicode that the tables follow.
pub const CJK_UNICODE_VERSION: &'static str = "15.0.0";

/// Chinese characters.
pub const HAN: [(u32, u32, u32); 20] = [
    (0x2E80, 0x2E99, 1),
    (0x2E9B, 0x2EF3, 1),
    (0x2F00, 0x2FD5, 1),
    (0x3005, 0x3007, 2),
    (0x3021, 0x3029, 1),
    (0x3038, 0x303B, 1),
    (0x3400, 0x4DBF, 1),
    (0x4E00, 0x9FFF, 1),
    (0xF900, 0xFA6D, 1),
    (0xFA70, 0xFAD9, 1),
    (0x16FE2, 0x16FE3, 1),
    (0x16FF0, 0x16FF1, 1),
    (0x20000, 0x2A6DF, 1),
    (0x2A700, 0x2B739, 1),
    (0x2B740, 0x2B81D, 1),
    (0x2B820, 0x2CEA1, 1),
    (0x2CEB0, 0x2EBE0, 1),
    (0x2F800, 0x2FA1D, 1),
    (0x30000, 0x3134A, 1),
    (0x31350, 0x323AF, 1),
];

/// Hiragana.
pub const HIRAGANA: [(u32, u32, u32); 6] = [
    (0x3041, 0x3096, 1),
    (0x309D, 0x309F, 1),
    (0x1B001, 0x1B11F, 1),
    (0x1B132, 0x1B150, 30),
    (0x1B151, 0x1B152, 1),
    (0x1F200, 0x1F200, 1),
];

/// Katakana.
pub const KATAKANA: [(u32, u32, u32); 14] = [
    (0x30A1, 0x30FA, 1),
    (0x30FD, 0x30FF, 1),
    (0x31F0, 0x31FF, 1),
    (0x32D0, 0x32FE, 1),
    (0x3300, 0x3357, 1),
    (0xFF66, 0xFF6F, 1),
    (0xFF71, 0xFF9D, 1),
    (0x1AFF0, 0x1AFF3, 1),
    (0x1AFF5, 0x1AFFB, 1),
    (0x1AFFD, 0x1AFFE, 1),
    (0x1B000, 0x1B120, 288),
    (0x1B121, 0x1B122, 1),
    (0x1B155, 0x1B164, 15),
    (0x1B165, 0x1B167, 1),
];

/// Hangul.
pub const HANGUL: [(u32, u32, u32); 14] = [
    (0x1100, 0x11FF, 1),
    (0x302E, 0x302F, 1),
    (0x3131, 0x318E, 1),
    (0x3200, 0x321E, 1),
    (0x3260, 0x327E, 1),
    (0xA960, 0xA97C, 1),
    (0xAC00, 0xD7A3, 1),
    (0xD7B0, 0xD7C6, 1),
    (0xD7CB, 0xD7FB, 1),
    (0xFFA0, 0xFFBE, 1),
    (0xFFC2, 0xFFC7, 1),
    (0xFFCA, 0xFFCF, 1),
    (0xFFD2, 0xFFD7, 1),
    (0xFFDA, 0xFFDC, 1),
];

/// Whether a code point belongs to a range.
pub open spec fn in_range_of(range: (u32, u32, u32), r: u32) -> bool {
    range.0 <= r <= range.1 && (r - range.0) % range.2 as int == 0
}

/// Whether a code point belongs to a script.
pub open spec fn in_script(table: Seq<(u32, u32, u32)>, r: u32) -> bool {
    exists|i: int| 0 <= i < table.len() && in_range_of(#[trigger] table[i], r)
}

/// Whether a code point belongs to one of the four scripts.
pub open spec fn is_cjk(c: char) -> bool {
    ||| in_script(HAN@, c as u32)
    ||| in_script(HIRAGANA@, c as u32)
    ||| in_script(KATAKANA@, c as u32)
    ||| in_script(HANGUL@, c as u32)
}

/// Whether the strides of a table are not zero.
pub open spec fn has_strides(table: Seq<(u32, u32, u32)>) -> bool {
    forall|i: int| 0 <= i < table.len() ==> (#[trigger] table[i]).2 > 0
}

/// Whether a code point belongs to a script.
pub fn is_in(table: &[(u32, u32, u32)], r: u32) -> (b: bool)
    requires
        has_strides(table@),
    ensures
        b == in_script(table@, r),
{
    let mut i: usize = 0;
    while i < table.len()
        invariant
            has_strides(table@),
            i <= table@.len(),
            forall|j: int| 0 <= j < i ==> !in_range_of(#[trigger] table@[j], r),
        decreases table@.len() - i,
    {
        let (lo, hi, stride) = table[i];
        assert(table@[i as int].2 > 0);
        if lo <= r && r <= hi && (r - lo) % stride == 0 {
            assert(in_range_of(table@[i as int], r));
            return true;
        }
        assert(!in_range_of(table@[i as int], r));
        i = i + 1;
    }
    false
}

/// Whether a text has a character of one of the four scripts.
pub fn contains_cjk(s: &str) -> (b: bool)
    ensures
        b == exists|i: int| 0 <= i < s@.len() && is_cjk(#[trigger] s@[i]),
{
    let chars: Vec<char> = to_chars(s);
    let mut i: usize = 0;
    while i < chars.len()
        invariant
            chars@ == s@,
            i <= chars@.len(),
            forall|j: int| 0 <= j < i ==> !is_cjk(#[trigger] s@[j]),
        decreases chars@.len() - i,
    {
        let r: u32 = chars[i] as u32;
        if is_in(HAN.as_slice(), r) || is_in(HIRAGANA.as_slice(), r) || is_in(KATAKANA.as_slice(), r)
            || is_in(HANGUL.as_slice(), r) {
            assert(is_cjk(s@[i as int]));
            return true;
        }
        assert(!is_cjk(s@[i as int]));
        i = i + 1;
    }
    false
}

/// A text has a character of the four scripts exactly if one of its two parts has.
pub proof fn parts_decide(a: Seq<char>, b: Seq<char>)
    ensures
        (exists|i: int| 0 <= i < (a + b).len() && is_cjk(#[trigger] (a + b)[i])) <==> ((exists|
            i: int,
        |
            0 <= i < a.len() && is_cjk(#[trigger] a[i])) || (exists|i: int|
            0 <= i < b.len() && is_cjk(#[trigger] b[i]))),
{
    let s = a + b;
    if exists|i: int| 0 <= i < s.len() && is_cjk(#[trigger] s[i]) {
        let i = choose|i: int| 0 <= i < s.len() && is_cjk(#[trigger] s[i]);
        if i < a.len() {
            assert(is_cjk(a[i]));
        } else {
            assert(is_cjk(b[i - a.len()]));
        }
    }
    if exists|i: int| 0 <= i < a.len() && is_cjk(#[trigger] a[i]) {
        let i = choose|i: int| 0 <= i < a.len() && is_cjk(#[trigger] a[i]);
        assert(is_cjk(s[i]));
    }
    if exists|i: int| 0 <= i < b.len() && is_cjk(#[trigger] b[i]) {
        let i = choose|i: int| 0 <= i < b.len() && is_cjk(#[trigger] b[i]);
        assert(is_cjk(s[i + a.len()]));
    }
}

/// A range has its first code point and, from there on, one code point at every stride, and no
/// others.
pub proof fn ranges_have_strides(range: (u32, u32, u32), r: u32)
    requires
        range.2 > 0,
    ensures
        range.0 <= range.1 ==> in_range_of(range, range.0),
        in_range_of(range, r) ==> range.0 <= r <= range.1,
        in_range_of(range, r) && r > range.0 ==> r >= range.0 + range.2 && in_range_of(
            range,
            (r - range.2) as u32,
        ),
        in_range_of(range, r) && r + range.2 <= range.1 ==> in_range_of(
            range,
            (r + range.2) as u32,
        ),
{
    let lo = range.0 as int;
    let stride = range.2 as int;
    vstd::arithmetic::div_mod::lemma_mod_self_0(stride);
    vstd::arithmetic::div_mod::lemma_mod_add_multiples_vanish(r - lo, stride);
    vstd::arithmetic::div_mod::lemma_mod_sub_multiples_vanish(r - lo, stride);
    if 0 < r - lo < stride {
        vstd::arithmetic::div_mod::lemma_small_mod((r - lo) as nat, stride as nat);
    }
    assert(range.0 <= range.1 ==> (range.0 - range.0) % stride == 0) by {
        vstd::arithmetic::div_mod::lemma_small_mod(0, stride as nat);
    }
}

/// The four scripts have the unified ideographs, the two syllabaries and the syllables of Hangul,
/// and nothing below Hangul's first letter.
pub proof fn the_scripts_have_their_characters(c: char)
    ensures
        '\u{4e00}' <= c <= '\u{9fff}' ==> is_cjk(c),
        '\u{3400}' <= c <= '\u{4dbf}' ==> is_cjk(c),
        '\u{3041}' <= c <= '\u{3096}' ==> is_cjk(c),
        '\u{30a1}' <= c <= '\u{30fa}' ==> is_cjk(c),
        '\u{ac00}' <= c <= '\u{d7a3}' ==> is_cjk(c),
        '\u{1100}' <= c <= '\u{11ff}' ==> is_cjk(c),
        c < '\u{1100}' ==> !is_cjk(c),
        c == '\u{3005}' || c == '\u{3007}' ==> is_cjk(c),
        c == '\u{3006}' ==> !is_cjk(c),
{
    let r = c as u32;
    if '\u{4e00}' <= c <= '\u{9fff}' {
        assert(in_range_of(HAN@[7], r));
    }
    if '\u{3400}' <= c <= '\u{4dbf}' {
        assert(in_range_of(HAN@[6], r));
    }
    if '\u{3041}' <= c <= '\u{3096}' {
        assert(in_range_of(HIRAGANA@[0], r));
    }
    if '\u{30a1}' <= c <= '\u{30fa}' {
        assert(in_range_of(KATAKANA@[0], r));
    }
    if '\u{ac00}' <= c <= '\u{d7a3}' {
        assert(in_range_of(HANGUL@[6], r));
    }
    if '\u{1100}' <= c <= '\u{11ff}' {
        assert(in_range_of(HANGUL@[0], r));
    }
    assert(HAN@[3] == (0x3005u32, 0x3007u32, 2u32));
    assert(0int % 2 == 0 && 1int % 2 == 1 && 2int % 2 == 0);
    if c == '\u{3005}' || c == '\u{3007}' {
        assert(r - HAN@[3].0 == 0 || r - HAN@[3].0 == 2);
        assert(in_range_of(HAN@[3], r));
    }
    assert(forall|i: int| 0 <= i < HAN@.len() ==> (#[trigger] HAN@[i]).0 >= 0x1100);
    assert(forall|i: int| 0 <= i < HIRAGANA@.len() ==> (#[trigger] HIRAGANA@[i]).0 >= 0x1100);
    assert(forall|i: int| 0 <= i < KATAKANA@.len() ==> (#[trigger] KATAKANA@[i]).0 >= 0x1100);
    assert(forall|i: int| 0 <= i < HANGUL@.len() ==> (#[trigger] HANGUL@[i]).0 >= 0x1100);
    if c == '\u{3006}' {
        assert(!in_range_of(HAN@[3], 0x3006)) by {
            assert(0x3006 - HAN@[3].0 == 1);
        }
        assert(forall|i: int| 0 <= i < HAN@.len() ==> !in_range_of(#[trigger] HAN@[i], 0x3006));
        assert(forall|i: int|
            0 <= i < HIRAGANA@.len() ==> !in_range_of(#[trigger] HIRAGANA@[i], 0x3006));
        assert(forall|i: int|
            0 <= i < KATAKANA@.len() ==> !in_range_of(#[trigger] KATAKANA@[i], 0x3006));
        assert(forall|i: int| 0 <= i < HANGUL@.len() ==> !in_range_of(#[trigger] HANGUL@[i], 0x3006));
    }
}

} // verus!
