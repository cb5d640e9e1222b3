//! The grammar of GRUB's configuration lines, for the one-time
//! configure step on Linux.
//!
//! A `menuentry` line names an operating system somewhere in its text
//! (matched without regard to ASCII case) and carries the entry's
//! identifier as the last single-quoted run of identifier characters
//! that is followed by optional whitespace and an opening brace.

use vstd::prelude::*;

use crate::options_types::OperatingSystem;
use crate::text::{chars_to_string, is_prefixed, str_to_chars, strip_prefix, subvec};

verus! {

/// The characters a quoted entry identifier may hold.
pub open spec fn is_token_char(c: char) -> bool {
    ||| ('a' <= c && c <= 'z')
    ||| ('A' <= c && c <= 'Z')
    ||| ('0' <= c && c <= '9')
    ||| c == '-'
    ||| c == '_'
}

/// The whitespace allowed between the closing quote and the brace.
pub open spec fn is_space_char(c: char) -> bool {
    c == ' ' || c == '\t' || c == '\n' || c == '\r' || c == '\u{b}' || c == '\u{c}'
}

/// The first index at or after `i` that is no token character.
pub open spec fn token_run_end(s: Seq<char>, i: int) -> int
    decreases s.len() - i when 0 <= i <= s.len()
{
    if i < s.len() && is_token_char(s[i]) {
        token_run_end(s, i + 1)
    } else {
        i
    }
}

/// The first index at or after `i` that is no whitespace.
pub open spec fn space_run_end(s: Seq<char>, i: int) -> int
    decreases s.len() - i when 0 <= i <= s.len()
{
    if i < s.len() && is_space_char(s[i]) {
        space_run_end(s, i + 1)
    } else {
        i
    }
}

/// The entry identifier of a quoted run starting at `i`: a quote, one
/// or more identifier characters, a quote, optional whitespace, and an
/// opening brace.
pub open spec fn entry_match_starting(s: Seq<char>, i: int) -> Option<Seq<char>>
    recommends
        0 <= i < s.len(),
{
    if s[i] == '\'' {
        let j = token_run_end(s, i + 1);
        if j > i + 1 && j < s.len() && s[j] == '\'' {
            let k = space_run_end(s, j + 1);
            if k < s.len() && s[k] == '{' {
                Some(s.subrange(i + 1, j))
            } else {
                None
            }
        } else {
            None
        }
    } else {
        None
    }
}

/// The identifier of the last match whose quote opens before `upto`
/// (matching the greedy leftmost-longest behaviour of the pattern the
/// identifier is described by).
pub open spec fn last_entry_match(s: Seq<char>, upto: int) -> Option<Seq<char>>
    decreases upto when upto <= s.len()
{
    if upto <= 0 {
        None
    } else {
        match entry_match_starting(s, upto - 1) {
            Some(t) => Some(t),
            None => last_entry_match(s, upto - 1),
        }
    }
}

/// ASCII-case-insensitive character equality.
pub open spec fn ascii_eq_ci(a: char, b: char) -> bool {
    ||| a == b
    ||| ('a' <= a && a <= 'z' && a as u32 == b as u32 + 32)
    ||| ('a' <= b && b <= 'z' && b as u32 == a as u32 + 32)
}

/// Whether `needle` occurs at offset `off` of `s`, without regard to
/// ASCII case.
pub open spec fn ci_match_at(s: Seq<char>, off: int, needle: Seq<char>) -> bool {
    &&& 0 <= off
    &&& off + needle.len() <= s.len()
    &&& forall|idx: int| 0 <= idx < needle.len() ==> ascii_eq_ci(s[off + idx], needle[idx])
}

/// Whether `needle` occurs anywhere in `s`, without regard to ASCII
/// case.
pub open spec fn contains_ci(s: Seq<char>, needle: Seq<char>) -> bool {
    exists|off: int| ci_match_at(s, off, needle)
}

/// The operating system a menu entry line names: the first catalog
/// value whose name occurs in the line, in catalog order.
pub open spec fn spec_os_of_line(line: Seq<char>) -> Option<OperatingSystem> {
    if contains_ci(line, "windows"@) {
        Some(OperatingSystem::Windows)
    } else if contains_ci(line, "linux"@) {
        Some(OperatingSystem::Linux)
    } else {
        None
    }
}

/// What a configuration line contributes: for a `menuentry` line that
/// both names an operating system and carries a quoted entry
/// identifier, that pair; otherwise nothing.
pub open spec fn spec_extract(line: Seq<char>) -> Option<(OperatingSystem, Seq<char>)> {
    if !is_prefixed(line, "menuentry "@) {
        None
    } else {
        match (spec_os_of_line(line), last_entry_match(line, line.len() as int)) {
            (Some(os), Some(t)) => Some((os, t)),
            _ => None,
        }
    }
}

/// A scan that stops at the first non-matching position finds the run
/// end.
proof fn lemma_run_end_at(s: Seq<char>, i: int, j: int, token: bool)
    requires
        0 <= i <= j <= s.len(),
        forall|x: int| i <= x < j ==> if token {
            is_token_char(#[trigger] s[x])
        } else {
            is_space_char(s[x])
        },
        j < s.len() ==> (if token {
            !is_token_char(s[j])
        } else {
            !is_space_char(s[j])
        }),
    ensures
        token ==> token_run_end(s, i) == j,
        !token ==> space_run_end(s, i) == j,
    decreases j - i,
{
    if i < j {
        assert(if token {
            is_token_char(s[i])
        } else {
            is_space_char(s[i])
        });
        lemma_run_end_at(s, i + 1, j, token);
    }
}

/// Whether `needle` occurs in `chars`, without regard to ASCII case.
fn contains_ci_exec(chars: &Vec<char>, needle: &str) -> (r: bool)
    ensures
        r == contains_ci(chars@, needle@),
{
    let needle_chars = str_to_chars(needle);
    let n = chars.len();
    let m = needle_chars.len();
    if m > n {
        proof {
            if contains_ci(chars@, needle@) {
                let off = choose|off: int| ci_match_at(chars@, off, needle@);
            }
        }
        return false;
    }
    let mut off: usize = 0;
    while off <= n - m
        invariant
            chars@.len() == n,
            needle_chars@ == needle@,
            needle@.len() == m,
            m <= n,
            off <= n - m + 1,
            forall|o: int| 0 <= o < off ==> !ci_match_at(chars@, o, needle@),
        decreases n - m + 1 - off,
    {
        let mut idx: usize = 0;
        let mut all = true;
        while all && idx < m
            invariant
                chars@.len() == n,
                needle_chars@ == needle@,
                needle@.len() == m,
                off + m <= n,
                idx <= m,
                all ==> forall|x: int| 0 <= x < idx ==> ascii_eq_ci(chars@[off + x], needle@[x]),
                !all ==> !ci_match_at(chars@, off as int, needle@),
            decreases m - idx, (if all { 1int } else { 0int }),
        {
            let a = chars[off + idx];
            let b = needle_chars[idx];
            let same = if a == b {
                true
            } else if 'a' <= a && a <= 'z' && a as u32 >= 32 {
                a as u32 - 32 == b as u32
            } else if 'a' <= b && b <= 'z' && b as u32 >= 32 {
                b as u32 - 32 == a as u32
            } else {
                false
            };
            proof {
                assert(same == ascii_eq_ci(chars@[off + idx], needle@[idx as int]));
            }
            if same {
                idx += 1;
            } else {
                all = false;
                proof {
                    assert(!ci_match_at(chars@, off as int, needle@));
                }
            }
        }
        if all {
            proof {
                assert(ci_match_at(chars@, off as int, needle@));
            }
            return true;
        }
        off += 1;
    }
    proof {
        if contains_ci(chars@, needle@) {
            let o = choose|o: int| ci_match_at(chars@, o, needle@);
            assert(o + m <= n);
            assert(!ci_match_at(chars@, o, needle@));
        }
    }
    false
}

/// The entry identifier of a quoted run starting at `i`, if the
/// quote-token-quote-space-brace shape is there.
fn entry_token_at(chars: &Vec<char>, i: usize) -> (r: Option<String>)
    requires
        i < chars@.len(),
    ensures
        match r {
            Some(t) => entry_match_starting(chars@, i as int) == Some(t@),
            None => entry_match_starting(chars@, i as int) is None,
        },
{
    let n = chars.len();
    if chars[i] != '\'' {
        return None;
    }
    let mut j = i + 1;
    while j < n && ('a' <= chars[j] && chars[j] <= 'z' || 'A' <= chars[j] && chars[j] <= 'Z'
        || '0' <= chars[j] && chars[j] <= '9' || chars[j] == '-' || chars[j] == '_')
        invariant
            n == chars@.len(),
            i + 1 <= j <= n,
            forall|x: int| i + 1 <= x < j ==> is_token_char(#[trigger] chars@[x]),
        decreases n - j,
    {
        j += 1;
    }
    proof {
        assert(j < n ==> !is_token_char(chars@[j as int]));
        lemma_run_end_at(chars@, i as int + 1, j as int, true);
    }
    if !(j > i + 1 && j < n && chars[j] == '\'') {
        return None;
    }
    let mut k = j + 1;
    while k < n && (chars[k] == ' ' || chars[k] == '\t' || chars[k] == '\n' || chars[k] == '\r'
        || chars[k] == '\u{b}' || chars[k] == '\u{c}')
        invariant
            n == chars@.len(),
            j + 1 <= k <= n,
            forall|x: int| j + 1 <= x < k ==> is_space_char(#[trigger] chars@[x]),
        decreases n - k,
    {
        k += 1;
    }
    proof {
        assert(k < n ==> !is_space_char(chars@[k as int]));
        lemma_run_end_at(chars@, j as int + 1, k as int, false);
    }
    if !(k < n && chars[k] == '{') {
        return None;
    }
    let token = subvec(chars, i + 1, j);
    Some(chars_to_string(&token))
}

/// The entry identifier of the last quoted run in the line that is
/// followed by optional whitespace and an opening brace.
pub fn extract_grub_entry(line: &str) -> (r: Option<String>)
    ensures
        match r {
            Some(t) => last_entry_match(line@, line@.len() as int) == Some(t@),
            None => last_entry_match(line@, line@.len() as int) is None,
        },
{
    let chars = str_to_chars(line);
    let n = chars.len();
    let mut i = n;
    while i > 0
        invariant
            chars@ == line@,
            n == line@.len(),
            i <= n,
            last_entry_match(line@, n as int) == last_entry_match(line@, i as int),
        decreases i,
    {
        i -= 1;
        match entry_token_at(&chars, i) {
            Some(t) => {
                return Some(t);
            },
            None => {},
        }
    }
    None
}

/// The operating system the line names, if any: Windows first, then
/// Linux, matched anywhere in the line without regard to ASCII case.
pub fn extract_os(line: &str) -> (r: Option<OperatingSystem>)
    ensures
        r == spec_os_of_line(line@),
{
    let chars = str_to_chars(line);
    if contains_ci_exec(&chars, "windows") {
        Some(OperatingSystem::Windows)
    } else if contains_ci_exec(&chars, "linux") {
        Some(OperatingSystem::Linux)
    } else {
        None
    }
}

/// What one configuration line contributes to the configure step: the
/// named operating system and its entry identifier, when the line is a
/// `menuentry` line carrying both.
pub fn extract_os_and_grub_entry(line: &str) -> (r: Option<(OperatingSystem, String)>)
    ensures
        match r {
            Some((os, t)) => spec_extract(line@) == Some((os, t@)),
            None => spec_extract(line@) is None,
        },
{
    match strip_prefix(line, "menuentry ") {
        None => None,
        Some(_) => {
            let os = extract_os(line);
            let entry = extract_grub_entry(line);
            match (os, entry) {
                (Some(o), Some(t)) => Some((o, t)),
                _ => None,
            }
        },
    }
}

} // verus!
