//! The line-oriented `key=value` text format shared by all persisted
//! stores.
//!
//! On parsing, lines are split at `'\n'` (a trailing `'\r'` on a line is
//! dropped), lines starting with `'#'` are comments and ignored, and every
//! other line must contain a `'='`: the part before the first `'='` is the
//! key, the rest is the value.  A line without `'='` is an integrity error:
//! the format is written only by this tool and by the bootloader, never by
//! hand.  On serializing, each entry becomes `key=value\n`, in stored
//! order.

use vstd::prelude::*;
use vstd::string::*;

use crate::errors::{CoreError, ErrorCategory};
use crate::string_map::{distinct_keys, entries_to_map, index_of_key, lemma_index_of_key_properties, StringMap};
use crate::text::{chars_to_string, find_char_range, str_to_chars, subvec};

verus! {

/// The first index of `c` in `s`, or `-1` if `c` does not occur.
pub open spec fn find_char(s: Seq<char>, c: char) -> int
    decreases s.len(),
{
    if s.len() == 0 {
        -1
    } else if s[0] == c {
        0
    } else {
        let r = find_char(s.drop_first(), c);
        if r == -1 {
            -1
        } else {
            r + 1
        }
    }
}

pub proof fn lemma_find_char(s: Seq<char>, c: char)
    ensures
        find_char(s, c) == -1 ==> forall|i: int| 0 <= i < s.len() ==> s[i] != c,
        find_char(s, c) != -1 ==> {
            &&& 0 <= find_char(s, c) < s.len()
            &&& s[find_char(s, c)] == c
            &&& forall|i: int| 0 <= i < find_char(s, c) ==> s[i] != c
        },
    decreases s.len(),
{
    if s.len() > 0 && s[0] != c {
        lemma_find_char(s.drop_first(), c);
        assert forall|i: int| 1 <= i < s.len() implies s.drop_first()[i - 1] == s[i] by {}
    }
}

/// If the first `k` characters are not `c`, and either `k` is the length
/// or position `k` holds `c`, then `k` is what `find_char` finds.
pub proof fn lemma_find_char_at(s: Seq<char>, c: char, k: int)
    requires
        0 <= k <= s.len(),
        forall|i: int| 0 <= i < k ==> s[i] != c,
        k < s.len() ==> s[k] == c,
    ensures
        find_char(s, c) == if k == s.len() {
            -1
        } else {
            k
        },
{
    lemma_find_char(s, c);
    let r = find_char(s, c);
    if k == s.len() {
        if r != -1 {
            assert(s[r] != c);
        }
    } else {
        if r == -1 {
            assert(s[k] != c);
        } else {
            if r < k {
                assert(s[r] != c);
            }
            if k < r {
                assert(s[k] != c);
            }
        }
    }
}

/// A line as delivered to the parser: a trailing carriage return is
/// dropped, as `str::lines` does.
pub open spec fn strip_cr(l: Seq<char>) -> Seq<char> {
    if l.len() > 0 && l.last() == '\r' {
        l.drop_last()
    } else {
        l
    }
}

/// Comment lines start with `'#'`; they carry no data.
pub open spec fn is_comment(l: Seq<char>) -> bool {
    l.len() > 0 && l[0] == '#'
}

/// The segments of `s` between `'\n'` characters; a final newline ends
/// the last segment rather than opening an empty one.
pub open spec fn split_lines(s: Seq<char>) -> Seq<Seq<char>>
    decreases s.len(),
{
    if s.len() == 0 {
        Seq::empty()
    } else {
        let i = find_char(s, '\n');
        // find_char yields -1 or a valid index; the bound keeps the
        // recursion visibly decreasing.
        if i < 0 || i >= s.len() {
            seq![s]
        } else {
            seq![s.take(i)] + split_lines(s.skip(i + 1))
        }
    }
}

/// Splits a data line at its first `'='`; `None` if it has none.
pub open spec fn parse_line(l: Seq<char>) -> Option<(Seq<char>, Seq<char>)> {
    let i = find_char(l, '=');
    if i == -1 {
        None
    } else {
        Some((l.take(i), l.skip(i + 1)))
    }
}

/// Parses a sequence of raw line segments into entries, in order;
/// `None` as soon as a non-comment line has no `'='`.
pub open spec fn parse_lines(ls: Seq<Seq<char>>) -> Option<Seq<(Seq<char>, Seq<char>)>>
    decreases ls.len(),
{
    if ls.len() == 0 {
        Some(Seq::empty())
    } else {
        let l = strip_cr(ls[0]);
        let rest = parse_lines(ls.drop_first());
        if is_comment(l) {
            rest
        } else {
            match parse_line(l) {
                None => None,
                Some(kv) => match rest {
                    None => None,
                    Some(r) => Some(seq![kv] + r),
                },
            }
        }
    }
}

/// The entries a text parses to, in file order, duplicates included;
/// `None` when some non-comment line has no `'='`.
pub open spec fn spec_parse(s: Seq<char>) -> Option<Seq<(Seq<char>, Seq<char>)>> {
    parse_lines(split_lines(s))
}

/// The line an entry serializes to, newline included.
pub open spec fn entry_line(k: Seq<char>, v: Seq<char>) -> Seq<char> {
    k + seq!['='] + v + seq!['\n']
}

/// The text a sequence of entries serializes to.
pub open spec fn spec_serialize(es: Seq<(Seq<char>, Seq<char>)>) -> Seq<char>
    decreases es.len(),
{
    if es.len() == 0 {
        Seq::empty()
    } else {
        entry_line(es[0].0, es[0].1) + spec_serialize(es.drop_first())
    }
}

/// `None` results of `parse_lines` propagate; `Some` results collect
/// entries after the ones already gathered.
pub open spec fn gathered(
    acc: Seq<(Seq<char>, Seq<char>)>,
    rest: Option<Seq<(Seq<char>, Seq<char>)>>,
) -> Option<Seq<(Seq<char>, Seq<char>)>> {
    match rest {
        None => None,
        Some(r) => Some(acc + r),
    }
}

/// An entry whose serialized line parses back unchanged: the key starts
/// no comment and contains neither `'='` nor `'\n'`; the value starts no
/// comment, contains no `'\n'` and does not end in `'\r'`.
pub open spec fn round_trip_entry(k: Seq<char>, v: Seq<char>) -> bool {
    &&& !is_comment(k)
    &&& !is_comment(v)
    &&& forall|i: int| 0 <= i < k.len() ==> k[i] != '=' && k[i] != '\n'
    &&& forall|i: int| 0 <= i < v.len() ==> v[i] != '\n'
    &&& v.len() > 0 ==> v.last() != '\r'
}

/// Round-trip law: entries whose keys start no comment and contain no
/// `'='` or newline, and whose values start no comment, contain no
/// newline and end in no carriage return, parse back from their
/// serialized form exactly.
pub proof fn lemma_parse_serialize_round_trip(es: Seq<(Seq<char>, Seq<char>)>)
    requires
        forall|i: int| 0 <= i < es.len() ==> round_trip_entry(#[trigger] es[i].0, es[i].1),
    ensures
        spec_parse(spec_serialize(es)) == Some(es),
    decreases es.len(),
{
    if es.len() == 0 {
        assert(split_lines(spec_serialize(es)) =~= Seq::<Seq<char>>::empty());
        assert(spec_parse(spec_serialize(es)) == Some(Seq::<(Seq<char>, Seq<char>)>::empty()));
        assert(es =~= Seq::<(Seq<char>, Seq<char>)>::empty());
    } else {
        let k = es[0].0;
        let v = es[0].1;
        let rest = es.drop_first();
        assert(round_trip_entry(k, v));
        assert forall|i: int| 0 <= i < rest.len() implies round_trip_entry(
            #[trigger] rest[i].0,
            rest[i].1,
        ) by {
            assert(rest[i] == es[i + 1]);
        }
        lemma_parse_serialize_round_trip(rest);
        let t = spec_serialize(es);
        let line = k + seq!['='] + v;
        let ll = line.len();
        assert(t =~= line + seq!['\n'] + spec_serialize(rest));
        lemma_find_char_at(t, '\n', ll as int);
        assert(t.take(ll as int) =~= line);
        assert(t.skip(ll as int + 1) =~= spec_serialize(rest));
        assert(split_lines(t) == seq![line] + split_lines(spec_serialize(rest)));
        let tail_lines = split_lines(spec_serialize(rest));
        assert((seq![line] + tail_lines)[0] == line);
        assert((seq![line] + tail_lines).drop_first() =~= tail_lines);
        assert(strip_cr(line) == line) by {
            if v.len() > 0 {
                assert(line.last() == v.last());
            } else {
                assert(line.last() == '=');
            }
        }
        assert(!is_comment(line)) by {
            if k.len() > 0 {
                assert(line[0] == k[0]);
            } else {
                assert(line[0] == '=');
            }
        }
        lemma_find_char_at(line, '=', k.len() as int);
        assert(parse_line(line) == Some((k, v))) by {
            assert(line.take(k.len() as int) =~= k);
            assert(line.skip(k.len() as int + 1) =~= v);
        }
        assert(parse_lines(split_lines(t)) == Some(seq![(k, v)] + rest));
        assert(seq![(k, v)] + rest =~= es);
    }
}

/// Parses `key=value` text into a map.  Comment lines are dropped; later
/// duplicate keys override earlier ones; a non-comment line without `'='`
/// is an integrity error.
#[verifier::rlimit(100)]
pub fn file_content_to_hash_map(file_content: &str) -> (r: Result<StringMap, CoreError>)
    ensures
        match r {
            Ok(m) => {
                &&& spec_parse(file_content@) is Some
                &&& m.wf()
                &&& m@ == entries_to_map(spec_parse(file_content@)->Some_0)
                &&& distinct_keys(spec_parse(file_content@)->Some_0) ==> m.entries_seq()
                    == spec_parse(file_content@)->Some_0
            },
            Err(e) => {
                &&& spec_parse(file_content@) is None
                &&& e.category == ErrorCategory::Integrity
            },
        },
{
    let ghost s = file_content@;
    let chars = str_to_chars(file_content);
    let n = chars.len();
    let mut m = StringMap::new();
    let ghost mut acc: Seq<(Seq<char>, Seq<char>)> = Seq::empty();
    let mut pos: usize = 0;
    proof {
        assert(s.skip(0) =~= s);
    }
    while pos < n
        invariant
            s == file_content@,
            chars@ == s,
            n == s.len(),
            pos <= n,
            m.wf(),
            m@ == entries_to_map(acc),
            distinct_keys(acc) ==> m.entries_seq() == acc,
            gathered(acc, parse_lines(split_lines(s.skip(pos as int)))) == spec_parse(s),
        decreases n - pos,
    {
        let ghost rem = s.skip(pos as int);
        let nl = find_char_range(&chars, pos, n, '\n');
        let ghost seg = s.subrange(pos as int, nl as int);
        proof {
            assert forall|i: int| 0 <= i < rem.len() implies rem[i] == s[pos + i] by {}
            lemma_find_char_at(rem, '\n', nl - pos);
            assert(rem.take(nl - pos) =~= seg);
            if nl < n {
                assert(split_lines(rem) =~= seq![seg] + split_lines(s.skip(nl + 1))) by {
                    assert(rem.skip(nl - pos + 1) =~= s.skip(nl + 1));
                }
            } else {
                assert(split_lines(rem) =~= seq![seg]);
                assert(s.skip(n as int) =~= Seq::<char>::empty());
            }
            // In both cases the tail lines are those of the new position.
        }
        let ghost next_pos: int = if nl < n {
            nl + 1
        } else {
            n as int
        };
        let ghost tail_lines = split_lines(s.skip(next_pos));
        proof {
            assert(split_lines(rem) == seq![seg] + tail_lines);
            assert((seq![seg] + tail_lines)[0] == seg);
            assert((seq![seg] + tail_lines).drop_first() =~= tail_lines);
        }
        let ghost line = strip_cr(seg);
        // Drop one trailing carriage return, as `str::lines` does.
        let mut line_end = nl;
        if line_end > pos && chars[line_end - 1] == '\r' {
            line_end = line_end - 1;
        }
        proof {
            assert(s.subrange(pos as int, line_end as int) =~= line);
        }
        if line_end > pos && chars[pos] == '#' {
            // Comment or padding line: ignored.
            proof {
                assert(is_comment(line));
                assert(parse_lines(split_lines(rem)) == parse_lines(tail_lines));
            }
        } else {
            let eq = find_char_range(&chars, pos, line_end, '=');
            proof {
                assert forall|i: int| 0 <= i < line.len() implies line[i] == s[pos + i] by {}
                lemma_find_char_at(line, '=', eq - pos);
                assert(!is_comment(line));
            }
            if eq == line_end {
                // A data line with no '=': the file is corrupt.
                proof {
                    assert(parse_line(line) is None);
                    assert(parse_lines(split_lines(rem)) is None);
                }
                return Err(
                    CoreError::integrity(
                        String::from_str("Linha sem '=' em arquivo de propriedades"),
                    ),
                );
            }
            let key = subvec(&chars, pos, eq);
            let value = subvec(&chars, eq + 1, line_end);
            proof {
                assert(line.take(eq - pos) =~= key@);
                assert(line.skip(eq - pos + 1) =~= value@);
                assert(parse_line(line) == Some((key@, value@)));
            }
            let key_s = chars_to_string(&key);
            let value_s = chars_to_string(&value);
            let ghost acc0 = acc;
            let ghost m0 = m;
            m.set(key_s.as_str(), value_s.as_str());
            proof {
                acc = acc0.push((key@, value@));
                assert(acc.drop_last() =~= acc0);
                assert(entries_to_map(acc) == entries_to_map(acc0).insert(key@, value@));
                if distinct_keys(acc) {
                    assert(distinct_keys(acc0)) by {
                        assert forall|i: int, j: int|
                            0 <= i < j < acc0.len() implies acc0[i].0 != acc0[j].0 by {
                            assert(acc[i] == acc0[i] && acc[j] == acc0[j]);
                        }
                    }
                    assert(m0.entries_seq() == acc0);
                    assert(index_of_key(acc0, key@) == -1) by {
                        lemma_index_of_key_properties(acc0, key@);
                        if index_of_key(acc0, key@) != -1 {
                            let i = index_of_key(acc0, key@);
                            assert(acc[i].0 == acc[acc.len() - 1].0);
                        }
                    }
                    assert(m.entries_seq() == acc0.push((key@, value@)));
                }
                // The gathered entries absorb the one just parsed.
                match parse_lines(tail_lines) {
                    None => {
                        assert(parse_lines(split_lines(rem)) is None);
                    },
                    Some(r) => {
                        assert(parse_lines(split_lines(rem)) == Some(seq![(key@, value@)] + r));
                        assert(acc0 + (seq![(key@, value@)] + r) =~= acc + r);
                    },
                }
            }
        }
        pos = if nl < n {
            nl + 1
        } else {
            n
        };
    }
    proof {
        assert(s.skip(n as int) =~= Seq::<char>::empty());
        assert(parse_lines(split_lines(s.skip(n as int))) == Some(Seq::<(Seq<char>, Seq<char>)>::empty()));
        assert(acc + Seq::<(Seq<char>, Seq<char>)>::empty() =~= acc);
    }
    Ok(m)
}

/// Serializes a map as one `key=value` line per entry, in stored order.
pub fn hash_map_to_file_content(map: &StringMap) -> (r: String)
    requires
        map.wf(),
    ensures
        r@ == spec_serialize(map.entries_seq()),
{
    let ghost es = map.entries_seq();
    let mut out = String::new();
    let n = map.entry_count();
    let mut i: usize = 0;
    proof {
        assert(es.skip(0) =~= es);
        assert(Seq::<char>::empty() + spec_serialize(es) =~= spec_serialize(es));
    }
    while i < n
        invariant
            map.wf(),
            es == map.entries_seq(),
            n == es.len(),
            i <= n,
            out@ + spec_serialize(es.skip(i as int)) == spec_serialize(es),
        decreases n - i,
    {
        let ghost out0 = out@;
        let (k, v) = map.entry_at(i);
        out.append(k.as_str());
        out.append("=");
        out.append(v.as_str());
        out.append("\n");
        proof {
            reveal_strlit("=");
            reveal_strlit("\n");
            let t = es.skip(i as int);
            assert(t[0] == es[i as int]);
            assert(t.drop_first() =~= es.skip(i as int + 1));
            assert(out@ =~= out0 + entry_line(es[i as int].0, es[i as int].1)) by {
                assert("="@ =~= seq!['=']);
                assert("\n"@ =~= seq!['\n']);
            }
            assert(out@ + spec_serialize(es.skip(i as int + 1)) =~= spec_serialize(es));
        }
        i += 1;
    }
    proof {
        assert(es.skip(n as int) =~= Seq::<(Seq<char>, Seq<char>)>::empty());
        assert(out@ + Seq::<char>::empty() =~= out@);
    }
    out
}

} // verus!
