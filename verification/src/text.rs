//! Small text helpers shared by the rest of the library.

use vstd::prelude::*;

verus! {

/// Collects the characters of a string slice into a vector.
pub fn str_to_chars(s: &str) -> (r: Vec<char>)
    ensures
        r@ == s@,
{
    let n = s.unicode_len();
    let mut r: Vec<char> = Vec::new();
    let mut i: usize = 0;
    while i < n
        invariant
            n == s@.len(),
            i <= n,
            r@ == s@.take(i as int),
        decreases n - i,
    {
        r.push(s.get_char(i));
        i += 1;
        proof {
            assert(r@ =~= s@.take(i as int));
        }
    }
    proof {
        assert(r@ =~= s@);
    }
    r
}

/// Builds a `String` from a vector of characters.
/// Relies on `String`'s `FromIterator` implementation: the result contains
/// exactly the characters of the iterator, in order.
#[verifier::external_body]
pub fn chars_to_string(v: &Vec<char>) -> (r: String)
    ensures
        r@ == v@,
{
    v.iter().collect()
}

/// The index of the first occurrence of `c` in `v[from..to]`, or `to` if
/// there is none.
pub fn find_char_range(v: &Vec<char>, from: usize, to: usize, c: char) -> (r: usize)
    requires
        from <= to <= v@.len(),
    ensures
        from <= r <= to,
        forall|i: int| from <= i < r ==> v@[i] != c,
        r < to ==> v@[r as int] == c,
{
    let mut i = from;
    while i < to
        invariant
            from <= i <= to <= v@.len(),
            forall|j: int| from <= j < i ==> v@[j] != c,
        decreases to - i,
    {
        if v[i] == c {
            return i;
        }
        i += 1;
    }
    i
}

/// The characters of `v` from `from` (inclusive) to `to` (exclusive).
pub fn subvec(v: &Vec<char>, from: usize, to: usize) -> (r: Vec<char>)
    requires
        from <= to <= v@.len(),
    ensures
        r@ == v@.subrange(from as int, to as int),
{
    let mut r: Vec<char> = Vec::new();
    let mut i = from;
    while i < to
        invariant
            from <= i <= to <= v@.len(),
            r@ == v@.subrange(from as int, i as int),
        decreases to - i,
    {
        r.push(v[i]);
        i += 1;
        proof {
            assert(r@ =~= v@.subrange(from as int, i as int));
        }
    }
    r
}

/// Whether `p` is a prefix of `s`.
pub open spec fn is_prefixed(s: Seq<char>, p: Seq<char>) -> bool {
    s.len() >= p.len() && s.subrange(0, p.len() as int) == p
}

/// The remainder of `s` behind the prefix `p`, when `s` starts with it.
pub fn strip_prefix<'a>(s: &'a str, prefix: &str) -> (r: Option<&'a str>)
    ensures
        match r {
            Some(rest) => is_prefixed(s@, prefix@) && rest@ == s@.skip(prefix@.len() as int),
            None => !is_prefixed(s@, prefix@),
        },
{
    let pl = prefix.unicode_len();
    let sl = s.unicode_len();
    if pl > sl {
        return None;
    }
    let mut i: usize = 0;
    while i < pl
        invariant
            pl == prefix@.len(),
            sl == s@.len(),
            pl <= sl,
            i <= pl,
            forall|j: int| 0 <= j < i ==> s@[j] == prefix@[j],
        decreases pl - i,
    {
        if s.get_char(i) != prefix.get_char(i) {
            proof {
                if is_prefixed(s@, prefix@) {
                    assert(s@.subrange(0, pl as int)[i as int] == s@[i as int]);
                }
            }
            return None;
        }
        i += 1;
    }
    let rest = s.substring_char(pl, sl);
    proof {
        assert(s@.subrange(0, pl as int) =~= prefix@);
        assert(rest@ =~= s@.skip(pl as int));
    }
    Some(rest)
}

/// Whether `s` is one or more decimal digits.
pub open spec fn is_digits(s: Seq<char>) -> bool {
    s.len() > 0 && forall|i: int| 0 <= i < s.len() ==> '0' <= #[trigger] s[i] <= '9'
}

/// The number a digit string denotes.
pub open spec fn digits_value(s: Seq<char>) -> nat
    decreases s.len(),
{
    if s.len() == 0 {
        0
    } else {
        digits_value(s.drop_last()) * 10 + (s.last() as int - '0' as int) as nat
    }
}

/// What parsing an unsigned number from `s` yields: the denoted value
/// when `s` is all digits and the value fits, nothing otherwise.
pub open spec fn spec_parse_usize(s: Seq<char>) -> Option<usize> {
    if is_digits(s) && digits_value(s) <= usize::MAX {
        Some(digits_value(s) as usize)
    } else {
        None
    }
}

/// A longer digit string denotes no smaller a number.
proof fn lemma_digits_value_prefix(s: Seq<char>, i: int)
    requires
        0 <= i <= s.len(),
        forall|j: int| 0 <= j < s.len() ==> '0' <= #[trigger] s[j] <= '9',
    ensures
        digits_value(s.take(i)) <= digits_value(s),
    decreases s.len() - i,
{
    if i < s.len() {
        lemma_digits_value_prefix(s, i + 1);
        let t = s.take(i + 1);
        assert(t.drop_last() =~= s.take(i));
        assert(t.last() == s[i]);
        assert(digits_value(s.take(i)) <= digits_value(s.take(i)) * 10 + (s[i] as int
            - '0' as int) as nat);
    } else {
        assert(s.take(i) =~= s);
    }
}

/// Parses an unsigned decimal number.
pub fn parse_usize(s: &str) -> (r: Option<usize>)
    ensures
        r == spec_parse_usize(s@),
{
    let chars = str_to_chars(s);
    let n = chars.len();
    if n == 0 {
        return None;
    }
    let mut value: usize = 0;
    let mut i: usize = 0;
    while i < n
        invariant
            chars@ == s@,
            n == s@.len(),
            n > 0,
            i <= n,
            forall|j: int| 0 <= j < i ==> '0' <= #[trigger] s@[j] <= '9',
            value == digits_value(s@.take(i as int)),
        decreases n - i,
    {
        let c = chars[i];
        if c < '0' || c > '9' {
            return None;
        }
        let d = (c as u32 - '0' as u32) as usize;
        proof {
            assert(s@.take(i as int + 1).drop_last() =~= s@.take(i as int));
            assert(s@.take(i as int + 1).last() == s@[i as int]);
        }
        if value > (usize::MAX - d) / 10 {
            // The number does not fit; nor can any longer prefix.
            proof {
                assert(digits_value(s@.take(i as int + 1)) > usize::MAX);
                if is_digits(s@) {
                    lemma_digits_value_prefix(s@, i as int + 1);
                }
            }
            return None;
        }
        value = value * 10 + d;
        i += 1;
    }
    proof {
        assert(s@.take(n as int) =~= s@);
    }
    Some(value)
}

/// Compares two string slices by their character content.
pub fn str_eq(a: &str, b: &str) -> (r: bool)
    ensures
        r == (a@ == b@),
{
    let sa = String::from_str(a);
    let sb = String::from_str(b);
    sa == sb
}

/// The Unicode uppercase form of one character (it may be several
/// characters long).
pub uninterp spec fn upper_of(c: char) -> Seq<char>;

/// Relies on `char::to_uppercase`: the Unicode uppercase mapping, which
/// depends on the character alone.
#[verifier::external_body]
fn char_to_uppercase(c: char) -> (r: Vec<char>)
    ensures
        r@ == upper_of(c),
{
    c.to_uppercase().collect()
}

/// Text whose first character can be uppercased.
pub trait Capitalize: Sized {
    /// What capitalizing yields.
    spec fn spec_capitalized(self) -> Seq<char>;

    /// Uppercases the first character and keeps the rest.
    fn capitalize(self) -> (r: String)
        ensures
            r@ == self.spec_capitalized(),
    ;
}

impl Capitalize for &str {
    open spec fn spec_capitalized(self) -> Seq<char> {
        if self@.len() == 0 {
            Seq::empty()
        } else {
            upper_of(self@[0]) + self@.skip(1)
        }
    }

    fn capitalize(self) -> (r: String) {
        let chars = str_to_chars(self);
        if chars.len() == 0 {
            let r = String::new();
            proof {
                assert(r@ =~= self.spec_capitalized());
            }
            return r;
        }
        let mut out = char_to_uppercase(chars[0]);
        let rest = subvec(&chars, 1, chars.len());
        let mut k: usize = 0;
        let n = rest.len();
        while k < n
            invariant
                n == rest@.len(),
                k <= n,
                out@ == upper_of(self@[0]) + rest@.subrange(0, k as int),
                rest@ == self@.skip(1),
            decreases n - k,
        {
            out.push(rest[k]);
            k += 1;
            proof {
                assert(out@ =~= upper_of(self@[0]) + rest@.subrange(0, k as int));
            }
        }
        proof {
            assert(rest@.subrange(0, n as int) =~= rest@);
            assert(out@ =~= self.spec_capitalized());
        }
        chars_to_string(&out)
    }
}

} // verus!
