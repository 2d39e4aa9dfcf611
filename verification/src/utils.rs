//! Texts for the screen: sizes, ages, shortened titles.

use std::borrow::Cow;
use vstd::prelude::*;
use vstd::string::*;
use crate::text::{decimal, decimal_string};

verus! {

/// Whether a character is white space in the sense of Unicode.
pub uninterp spec fn white_space(c: char) -> bool;

/// `char::is_whitespace`: whether the character has the Unicode property
/// `White_Space`.
#[verifier::external_body]
fn is_whitespace(c: char) -> (white: bool)
    ensures
        white == white_space(c),
{
    c.is_whitespace()
}

/// A length of time in words, for `seconds` seconds: minutes below an hour,
/// hours below two days, days below 730 days, then years of 365 days, each
/// rounded down.
pub open spec fn duration_text(seconds: int) -> Seq<char> {
    if seconds < 60 {
        "<1 min"@
    } else if seconds < 120 {
        "1 min"@
    } else if seconds < 3600 {
        decimal((seconds / 60) as nat) + " mins"@
    } else if seconds < 7200 {
        "1 hour"@
    } else if seconds < 2 * 86400 {
        decimal((seconds / 3600) as nat) + " hours"@
    } else if seconds < 730 * 86400 {
        decimal((seconds / 86400) as nat) + " days"@
    } else {
        decimal((seconds / 86400 / 365) as nat) + " years"@
    }
}

/// A number of bytes in words: bytes below a thousand, then thousands,
/// millions or billions of bytes, rounded down.
pub open spec fn bytes_text(bytes: nat) -> Seq<char> {
    if bytes < 1_000 {
        decimal(bytes) + "B"@
    } else if bytes < 1_000_000 {
        decimal(bytes / 1_000) + "kB"@
    } else if bytes < 1_000_000_000 {
        decimal(bytes / 1_000_000) + "MB"@
    } else {
        decimal(bytes / 1_000_000_000) + "GB"@
    }
}

/// How many characters of `s` are left when the white space at its end is
/// taken off.
pub open spec fn trimmed_len(s: Seq<char>) -> nat
    decreases s.len(),
{
    if s.len() > 0 && white_space(s.last()) {
        trimmed_len(s.drop_last())
    } else {
        s.len()
    }
}

/// `s` without the white space at its end.
pub open spec fn trimmed_end(s: Seq<char>) -> Seq<char> {
    s.take(trimmed_len(s) as int)
}

/// The mark that stands for what was cut off.
pub open spec fn cut_mark() -> char {
    '\u{2014}'
}

/// `s` shortened to at most `max_chars` characters: `s` itself where it is
/// short enough; else its first `max_chars - 1` characters, without white
/// space at their end, and the cut mark. With `max_chars` below two nothing
/// marks the cut.
pub open spec fn truncated(s: Seq<char>, max_chars: int) -> Seq<char> {
    if max_chars >= s.len() {
        s
    } else if max_chars <= 1 {
        s.take(max_chars)
    } else {
        trimmed_end(s.take(max_chars - 1)).push(cut_mark())
    }
}

/// Returns the given length of time, in seconds, as a human-readable text.
pub fn human_duration(seconds: i64) -> (text: String)
    ensures
        text@ == duration_text(seconds as int),
{
    if seconds < 60 {
        return String::from_str("<1 min");
    }
    if seconds < 120 {
        return String::from_str("1 min");
    }
    if seconds < 3600 {
        let mut text = decimal_string((seconds / 60) as u64);
        text.append(" mins");
        return text;
    }
    if seconds < 7200 {
        return String::from_str("1 hour");
    }
    if seconds < 2 * 86400 {
        let mut text = decimal_string((seconds / 3600) as u64);
        text.append(" hours");
        return text;
    }
    if seconds < 730 * 86400 {
        let mut text = decimal_string((seconds / 86400) as u64);
        text.append(" days");
        return text;
    }
    let mut text = decimal_string((seconds / 86400 / 365) as u64);
    text.append(" years");
    text
}

/// Returns the given number of bytes as a human-readable text.
pub fn human_bytes(bytes: u32) -> (text: String)
    ensures
        text@ == bytes_text(bytes as nat),
{
    let mut bytes = bytes;
    let unit = if bytes < 1_000 {
        "B"
    } else if bytes < 1_000_000 {
        bytes = bytes / 1_000;
        "kB"
    } else if bytes < 1_000_000_000 {
        bytes = bytes / 1_000_000;
        "MB"
    } else {
        bytes = bytes / 1_000_000_000;
        "GB"
    };
    let mut text = decimal_string(bytes as u64);
    text.append(unit);
    text
}

/// Takes the white space off the end of a text.
pub fn trim_end(s: &str) -> (trimmed: &str)
    ensures
        trimmed@ == trimmed_end(s@),
{
    let mut n = s.unicode_len();
    assert(s@.take(n as int) =~= s@);
    loop
        invariant
            n <= s@.len(),
            trimmed_len(s@) == trimmed_len(s@.take(n as int)),
        ensures
            n == trimmed_len(s@),
        decreases n,
    {
        if n == 0 {
            break ;
        }
        if !is_whitespace(s.get_char(n - 1)) {
            break ;
        }
        assert(s@.take(n as int).drop_last() =~= s@.take(n - 1));
        n = n - 1;
    }
    s.substring_char(0, n)
}

/// Truncates a text to the given number of characters.
pub fn truncate(s: &str, max_chars: usize) -> (text: Cow<'_, str>)
    ensures
        text@ == truncated(s@, max_chars as int),
{
    if max_chars >= s.unicode_len() {
        return Cow::Borrowed(s);
    }
    if max_chars <= 1 {
        return Cow::Borrowed(s.substring_char(0, max_chars));
    }
    let mut text = String::from_str(trim_end(s.substring_char(0, max_chars - 1)));
    proof {
        reveal_strlit("\u{2014}");
    }
    text.append("\u{2014}");
    assert(text@ =~= truncated(s@, max_chars as int));
    Cow::Owned(text)
}

/// A shortened text is never longer than asked for, nor longer than the
/// text, and is the text itself where that is short enough.
pub proof fn lemma_truncated_len(s: Seq<char>, max_chars: int)
    requires
        0 <= max_chars,
    ensures
        truncated(s, max_chars).len() <= max_chars,
        truncated(s, max_chars).len() <= s.len(),
        s.len() <= max_chars ==> truncated(s, max_chars) == s,
{
    if max_chars > 1 && max_chars < s.len() {
        lemma_trimmed_len(s.take(max_chars - 1));
    }
}

/// Taking white space off the end leaves a text that does not end in white
/// space, and takes off nothing else.
pub proof fn lemma_trimmed_len(s: Seq<char>)
    ensures
        trimmed_len(s) <= s.len(),
        trimmed_len(s) > 0 ==> !white_space(s[trimmed_len(s) - 1]),
        forall|i: int| trimmed_len(s) <= i < s.len() ==> white_space(#[trigger] s[i]),
    decreases s.len(),
{
    if s.len() > 0 && white_space(s.last()) {
        let rest = s.drop_last();
        lemma_trimmed_len(rest);
        assert forall|i: int| trimmed_len(s) <= i < s.len() implies white_space(
            #[trigger] s[i],
        ) by {
            if i < rest.len() {
                assert(s[i] == rest[i]);
            }
        }
        if trimmed_len(s) > 0 {
            assert(s[trimmed_len(s) - 1] == rest[trimmed_len(rest) - 1]);
        }
    }
}

} // verus!
