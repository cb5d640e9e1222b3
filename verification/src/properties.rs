//! A `key=value` store whose values may contain backslashes.
//!
//! On disk every backslash of a value is doubled; in memory values are
//! kept unescaped.  Absence of the backing file is not decided here: the
//! caller builds an empty store when it tolerates a missing file.

use vstd::prelude::*;
use vstd::string::*;

use crate::errors::CoreError;
use crate::file_content_as_hash_map::{
    file_content_to_hash_map, hash_map_to_file_content, spec_parse, spec_serialize,
};
use crate::string_map::{
    distinct_keys, entries_to_map, index_of_key, lemma_index_of_key_properties, StringMap,
};
use crate::text::str_to_chars;

verus! {

/// A value as written to disk: every backslash doubled.
pub open spec fn spec_escape(v: Seq<char>) -> Seq<char>
    decreases v.len(),
{
    if v.len() == 0 {
        Seq::empty()
    } else if v[0] == '\\' {
        seq!['\\', '\\'] + spec_escape(v.drop_first())
    } else {
        seq![v[0]] + spec_escape(v.drop_first())
    }
}

/// A value as read from disk: every doubled backslash halved, scanning
/// left to right.
pub open spec fn spec_unescape(v: Seq<char>) -> Seq<char>
    decreases v.len(),
{
    if v.len() == 0 {
        Seq::empty()
    } else if v.len() >= 2 && v[0] == '\\' && v[1] == '\\' {
        seq!['\\'] + spec_unescape(v.skip(2))
    } else {
        seq![v[0]] + spec_unescape(v.drop_first())
    }
}

/// Escaping round-trip law: unescaping an escaped value gives the value
/// back, whatever backslashes it contains.
pub proof fn lemma_escape_round_trip(v: Seq<char>)
    ensures
        spec_unescape(spec_escape(v)) == v,
    decreases v.len(),
{
    if v.len() > 0 {
        lemma_escape_round_trip(v.drop_first());
        let e = spec_escape(v);
        if v[0] == '\\' {
            assert(e[0] == '\\' && e[1] == '\\');
            assert(e.skip(2) =~= spec_escape(v.drop_first()));
            assert(seq!['\\'] + v.drop_first() =~= v);
        } else {
            assert(e[0] == v[0]);
            assert(e.drop_first() =~= spec_escape(v.drop_first()));
            if e.len() >= 2 && e[0] == '\\' && e[1] == '\\' {
                assert(false);
            }
            assert(seq![v[0]] + v.drop_first() =~= v);
        }
    }
}

/// The same entries with every value escaped.
pub open spec fn escaped_entries(es: Seq<(Seq<char>, Seq<char>)>) -> Seq<(Seq<char>, Seq<char>)> {
    Seq::new(es.len(), |i: int| (es[i].0, spec_escape(es[i].1)))
}

/// The same entries with every value unescaped.
pub open spec fn unescaped_entries(es: Seq<(Seq<char>, Seq<char>)>) -> Seq<(Seq<char>, Seq<char>)> {
    Seq::new(es.len(), |i: int| (es[i].0, spec_unescape(es[i].1)))
}

/// The same map with every value unescaped.
pub open spec fn unescape_map(m: Map<Seq<char>, Seq<char>>) -> Map<Seq<char>, Seq<char>> {
    Map::new(|k: Seq<char>| m.contains_key(k), |k: Seq<char>| spec_unescape(m[k]))
}

/// Unescaping entry values and building the map commute.
pub proof fn lemma_unescape_entries_map(es: Seq<(Seq<char>, Seq<char>)>)
    ensures
        entries_to_map(unescaped_entries(es)) == unescape_map(entries_to_map(es)),
    decreases es.len(),
{
    if es.len() == 0 {
        assert(unescaped_entries(es) =~= Seq::<(Seq<char>, Seq<char>)>::empty());
        assert(entries_to_map(unescaped_entries(es)) =~= unescape_map(entries_to_map(es)));
    } else {
        let d = es.drop_last();
        lemma_unescape_entries_map(d);
        assert(unescaped_entries(es).drop_last() =~= unescaped_entries(d));
        assert(unescaped_entries(es).last() == (es.last().0, spec_unescape(es.last().1)));
        assert(entries_to_map(unescaped_entries(es)) =~= unescape_map(entries_to_map(es)));
    }
}

/// Escapes one value for writing.
pub fn escape_value(v: &str) -> (r: String)
    ensures
        r@ == spec_escape(v@),
{
    let chars = str_to_chars(v);
    let n = chars.len();
    let mut out = String::new();
    let mut i: usize = 0;
    proof {
        assert(v@.skip(0) =~= v@);
        assert(Seq::<char>::empty() + spec_escape(v@) =~= spec_escape(v@));
    }
    while i < n
        invariant
            chars@ == v@,
            n == v@.len(),
            i <= n,
            out@ + spec_escape(v@.skip(i as int)) == spec_escape(v@),
        decreases n - i,
    {
        let ghost out0 = out@;
        let ghost t = v@.skip(i as int);
        if chars[i] == '\\' {
            out.append("\\\\");
        } else {
            let one: Vec<char> = vec![chars[i]];
            let s = crate::text::chars_to_string(&one);
            out.append(s.as_str());
        }
        proof {
            reveal_strlit("\\\\");
            assert(t[0] == v@[i as int]);
            assert(t.drop_first() =~= v@.skip(i as int + 1));
            if v@[i as int] == '\\' {
                assert("\\\\"@ =~= seq!['\\', '\\']);
                assert(out@ =~= out0 + seq!['\\', '\\']);
            } else {
                assert(out@ =~= out0 + seq![v@[i as int]]);
            }
            assert(out@ + spec_escape(v@.skip(i as int + 1)) =~= spec_escape(v@));
        }
        i += 1;
    }
    proof {
        assert(v@.skip(n as int) =~= Seq::<char>::empty());
        assert(out@ + Seq::<char>::empty() =~= out@);
    }
    out
}

/// Unescapes one value after reading.
pub fn unescape_value(v: &str) -> (r: String)
    ensures
        r@ == spec_unescape(v@),
{
    let chars = str_to_chars(v);
    let n = chars.len();
    let mut out = String::new();
    let mut i: usize = 0;
    proof {
        assert(v@.skip(0) =~= v@);
        assert(Seq::<char>::empty() + spec_unescape(v@) =~= spec_unescape(v@));
    }
    while i < n
        invariant
            chars@ == v@,
            n == v@.len(),
            i <= n,
            out@ + spec_unescape(v@.skip(i as int)) == spec_unescape(v@),
        decreases n - i,
    {
        let ghost out0 = out@;
        let ghost t = v@.skip(i as int);
        proof {
            assert(t[0] == v@[i as int]);
            assert(t.len() >= 2 ==> t[1] == v@[i as int + 1]);
        }
        if chars[i] == '\\' && i + 1 < n && chars[i + 1] == '\\' {
            out.append("\\");
            proof {
                reveal_strlit("\\");
                assert("\\"@ =~= seq!['\\']);
                assert(out@ =~= out0 + seq!['\\']);
                assert(t.skip(2) =~= v@.skip(i as int + 2));
                assert(out@ + spec_unescape(v@.skip(i as int + 2)) =~= spec_unescape(v@));
            }
            i += 2;
        } else {
            let one: Vec<char> = vec![chars[i]];
            let s = crate::text::chars_to_string(&one);
            out.append(s.as_str());
            proof {
                assert(out@ =~= out0 + seq![v@[i as int]]);
                assert(t.drop_first() =~= v@.skip(i as int + 1));
                assert(out@ + spec_unescape(v@.skip(i as int + 1)) =~= spec_unescape(v@));
            }
            i += 1;
        }
    }
    proof {
        assert(v@.skip(n as int) =~= Seq::<char>::empty());
        assert(out@ + Seq::<char>::empty() =~= out@);
    }
    out
}

/// Rebuilds a map with every value passed through the given escape step.
/// (Keys are untouched, so well-formedness is preserved.)
fn map_values_escaped(map: &StringMap, escape: bool) -> (r: StringMap)
    requires
        map.wf(),
    ensures
        r.wf(),
        r.entries_seq() == if escape {
            escaped_entries(map.entries_seq())
        } else {
            unescaped_entries(map.entries_seq())
        },
{
    let ghost es = map.entries_seq();
    let ghost target = if escape {
        escaped_entries(es)
    } else {
        unescaped_entries(es)
    };
    let mut r = StringMap::new();
    let n = map.entry_count();
    let mut i: usize = 0;
    proof {
        assert(r.entries_seq() =~= target.take(0));
    }
    while i < n
        invariant
            map.wf(),
            es == map.entries_seq(),
            target == if escape {
                escaped_entries(es)
            } else {
                unescaped_entries(es)
            },
            n == es.len(),
            i <= n,
            r.wf(),
            r.entries_seq() == target.take(i as int),
        decreases n - i,
    {
        let (k, v) = map.entry_at(i);
        let new_v = if escape {
            escape_value(v.as_str())
        } else {
            unescape_value(v.as_str())
        };
        let ghost r0 = r;
        r.set(k.as_str(), new_v.as_str());
        proof {
            assert(index_of_key(r0.entries_seq(), k@) == -1) by {
                lemma_index_of_key_properties(r0.entries_seq(), k@);
                if index_of_key(r0.entries_seq(), k@) != -1 {
                    let j = index_of_key(r0.entries_seq(), k@);
                    assert(r0.entries_seq()[j].0 == target[j].0);
                    assert(target[j].0 == es[j].0);
                    assert(es[j].0 == es[i as int].0);
                }
            }
            assert(r.entries_seq() =~= target.take(i as int + 1)) by {
                assert(target[i as int] == (k@, new_v@));
            }
        }
        i += 1;
    }
    proof {
        assert(target.take(n as int) =~= target);
    }
    r
}

/// The in-memory store behind a properties file.  Values are kept
/// unescaped; escaping happens only at the serialization boundary.
pub struct Properties {
    map: StringMap,
}

impl View for Properties {
    type V = Map<Seq<char>, Seq<char>>;

    closed spec fn view(&self) -> Map<Seq<char>, Seq<char>> {
        self.map@
    }
}

impl Properties {
    pub closed spec fn wf(self) -> bool {
        self.map.wf()
    }

    /// The stored entries, in order, with unescaped values.
    pub closed spec fn entries_seq(self) -> Seq<(Seq<char>, Seq<char>)> {
        self.map.entries_seq()
    }

    /// The abstract map is the one its entries describe.
    pub proof fn lemma_view_entries(self)
        ensures
            self@ == entries_to_map(self.entries_seq()),
    {
    }

    /// An empty store, used when the backing file is allowed to be
    /// missing.
    pub fn empty() -> (r: Properties)
        ensures
            r.wf(),
            r@ == Map::<Seq<char>, Seq<char>>::empty(),
            r.entries_seq() == Seq::<(Seq<char>, Seq<char>)>::empty(),
    {
        Properties { map: StringMap::new() }
    }

    /// Parses file text into a map with unescaped values.
    pub fn hash_map_from_file_content(file_content: &str) -> (r: Result<StringMap, CoreError>)
        ensures
            match r {
                Ok(m) => {
                    &&& spec_parse(file_content@) is Some
                    &&& m.wf()
                    &&& m@ == unescape_map(entries_to_map(spec_parse(file_content@)->Some_0))
                },
                Err(e) => {
                    &&& spec_parse(file_content@) is None
                    &&& e.category == crate::errors::ErrorCategory::Integrity
                },
            },
    {
        let raw = match file_content_to_hash_map(file_content) {
            Ok(m) => m,
            Err(e) => {
                return Err(e);
            },
        };
        let r = map_values_escaped(&raw, false);
        proof {
            let parsed = spec_parse(file_content@)->Some_0;
            lemma_unescape_entries_map(raw.entries_seq());
            // The raw map and the parsed entries describe the same map,
            // so their unescaped forms do too.
            assert(unescape_map(raw@) =~= unescape_map(entries_to_map(parsed)));
        }
        Ok(r)
    }

    /// Builds a store around an already-parsed map of unescaped values.
    pub fn from_map(map: StringMap) -> (r: Properties)
        requires
            map.wf(),
        ensures
            r.wf(),
            r@ == map@,
            r.entries_seq() == map.entries_seq(),
    {
        Properties { map }
    }

    /// Parses file text into a store.
    pub fn from_file_content(file_content: &str) -> (r: Result<Properties, CoreError>)
        ensures
            match r {
                Ok(p) => {
                    &&& spec_parse(file_content@) is Some
                    &&& p.wf()
                    &&& p@ == unescape_map(entries_to_map(spec_parse(file_content@)->Some_0))
                },
                Err(e) => {
                    &&& spec_parse(file_content@) is None
                    &&& e.category == crate::errors::ErrorCategory::Integrity
                },
            },
    {
        let map = Self::hash_map_from_file_content(file_content)?;
        Ok(Properties { map })
    }

    /// The number of entries, which equals the size of the abstract
    /// map.
    pub fn len(&self) -> (r: usize)
        requires
            self.wf(),
        ensures
            r == self.entries_seq().len(),
            r == self@.dom().len(),
    {
        proof {
            self.lemma_view_entries();
            crate::string_map::lemma_entries_to_map_len(self.entries_seq());
        }
        self.map.len()
    }

    /// Looks a key up; the result is the stored (unescaped) value.
    pub fn get(&self, key: &str) -> (r: Option<&String>)
        requires
            self.wf(),
        ensures
            match r {
                Some(v) => self@.contains_key(key@) && v@ == self@[key@],
                None => !self@.contains_key(key@),
            },
    {
        self.map.get(key)
    }

    /// Sets a key in memory; the caller persists separately.
    pub fn set(&mut self, key: &str, value: &str)
        requires
            old(self).wf(),
        ensures
            final(self).wf(),
            final(self)@ == old(self)@.insert(key@, value@),
            final(self).entries_seq() == {
                let s = old(self).entries_seq();
                let i = index_of_key(s, key@);
                if i == -1 {
                    s.push((key@, value@))
                } else {
                    s.update(i, (key@, value@))
                }
            },
    {
        self.map.set(key, value);
    }

    /// Removes a key in memory; the caller persists separately.
    pub fn unset(&mut self, key: &str)
        requires
            old(self).wf(),
        ensures
            final(self).wf(),
            final(self)@ == old(self)@.remove(key@),
            final(self).entries_seq() == {
                let s = old(self).entries_seq();
                let i = index_of_key(s, key@);
                if i == -1 {
                    s
                } else {
                    s.subrange(0, i) + s.subrange(i + 1, s.len() as int)
                }
            },
    {
        self.map.unset(key);
    }

    /// Escapes every value of a map for writing.
    pub fn escape(map: &StringMap) -> (r: StringMap)
        requires
            map.wf(),
        ensures
            r.wf(),
            r.entries_seq() == escaped_entries(map.entries_seq()),
    {
        map_values_escaped(map, true)
    }

    /// Unescapes every value of a map in place, after parsing.
    pub fn unescape_inline(map: &mut StringMap)
        requires
            old(map).wf(),
        ensures
            final(map).wf(),
            final(map).entries_seq() == unescaped_entries(old(map).entries_seq()),
    {
        let r = map_values_escaped(map, false);
        *map = r;
    }

    /// The exact file text this store persists to: entries in stored
    /// order, values escaped.
    pub fn to_file_content(&self) -> (r: String)
        requires
            self.wf(),
        ensures
            r@ == spec_serialize(escaped_entries(self.entries_seq())),
    {
        let escaped = Self::escape(&self.map);
        hash_map_to_file_content(&escaped)
    }
}

} // verus!
