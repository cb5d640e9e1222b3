//! An ordered association list from string keys to string values.
//!
//! This is the in-memory form shared by every persisted store in the
//! library.  Entry order is kept (it is the order lines are written in),
//! keys are unique, and the abstract view is a finite map from key
//! characters to value characters.

use vstd::prelude::*;

use crate::text::str_eq;

verus! {

/// The finite map described by a sequence of `(key, value)` entries,
/// later entries overriding earlier ones.
pub open spec fn entries_to_map(s: Seq<(Seq<char>, Seq<char>)>) -> Map<Seq<char>, Seq<char>>
    decreases s.len(),
{
    if s.len() == 0 {
        Map::empty()
    } else {
        entries_to_map(s.drop_last()).insert(s.last().0, s.last().1)
    }
}

/// Whether the keys of an entry sequence are pairwise distinct.
pub open spec fn distinct_keys(s: Seq<(Seq<char>, Seq<char>)>) -> bool {
    forall|i: int, j: int| 0 <= i < j < s.len() ==> s[i].0 != s[j].0
}

/// The first index whose entry has the given key, or `-1` if the key is
/// absent.
pub open spec fn index_of_key(s: Seq<(Seq<char>, Seq<char>)>, key: Seq<char>) -> int
    decreases s.len(),
{
    if s.len() == 0 {
        -1
    } else if s[0].0 == key {
        0
    } else {
        let r = index_of_key(s.drop_first(), key);
        if r == -1 {
            -1
        } else {
            r + 1
        }
    }
}

pub proof fn lemma_index_of_key_properties(s: Seq<(Seq<char>, Seq<char>)>, key: Seq<char>)
    ensures
        index_of_key(s, key) == -1 ==> forall|i: int| 0 <= i < s.len() ==> s[i].0 != key,
        index_of_key(s, key) != -1 ==> {
            &&& 0 <= index_of_key(s, key) < s.len()
            &&& s[index_of_key(s, key)].0 == key
            &&& forall|i: int| 0 <= i < index_of_key(s, key) ==> s[i].0 != key
        },
    decreases s.len(),
{
    if s.len() > 0 && s[0].0 != key {
        lemma_index_of_key_properties(s.drop_first(), key);
        assert forall|i: int| 1 <= i < s.len() implies s.drop_first()[i - 1] == s[i] by {}
    }
}

/// Whether some entry carries the given key.
pub open spec fn has_key(s: Seq<(Seq<char>, Seq<char>)>, k: Seq<char>) -> bool {
    exists|i: int| 0 <= i < s.len() && s[i].0 == k
}

/// Membership in the map agrees with the existence of an entry; with
/// distinct keys, every entry is visible in the map.
pub proof fn lemma_entries_to_map_properties(s: Seq<(Seq<char>, Seq<char>)>)
    ensures
        forall|k: Seq<char>| #[trigger] entries_to_map(s).contains_key(k) <==> has_key(s, k),
        distinct_keys(s) ==> forall|i: int|
            0 <= i < s.len() ==> entries_to_map(s).contains_key(#[trigger] s[i].0)
                && entries_to_map(s)[s[i].0] == s[i].1,
    decreases s.len(),
{
    if s.len() > 0 {
        let d = s.drop_last();
        lemma_entries_to_map_properties(d);
        assert(entries_to_map(s) == entries_to_map(d).insert(s.last().0, s.last().1));
        assert forall|k: Seq<char>|
            #[trigger] entries_to_map(s).contains_key(k) <==> has_key(s, k) by {
            assert(s.last() == s[s.len() - 1]);
            if entries_to_map(s).contains_key(k) {
                if k == s.last().0 {
                    assert(s[s.len() - 1].0 == k);
                } else {
                    assert(entries_to_map(d).contains_key(k));
                    let i = choose|i: int| 0 <= i < d.len() && d[i].0 == k;
                    assert(s[i].0 == k);
                }
                assert(has_key(s, k));
            }
            if has_key(s, k) {
                let i = choose|i: int| 0 <= i < s.len() && s[i].0 == k;
                if i == s.len() - 1 {
                    assert(k == s.last().0);
                } else {
                    assert(d[i].0 == k);
                    assert(has_key(d, k));
                }
                assert(entries_to_map(s).contains_key(k));
            }
        }
        if distinct_keys(s) {
            assert(distinct_keys(d));
            assert forall|i: int| 0 <= i < s.len() implies entries_to_map(s).contains_key(
                #[trigger] s[i].0,
            ) && entries_to_map(s)[s[i].0] == s[i].1 by {
                if i < s.len() - 1 {
                    assert(d[i] == s[i]);
                    assert(s[i].0 != s.last().0);
                    assert(entries_to_map(d).contains_key(s[i].0));
                }
            }
        }
    }
}

/// With distinct keys the map has exactly one member per entry.
pub proof fn lemma_entries_to_map_len(s: Seq<(Seq<char>, Seq<char>)>)
    requires
        distinct_keys(s),
    ensures
        entries_to_map(s).dom().finite(),
        entries_to_map(s).dom().len() == s.len(),
    decreases s.len(),
{
    if s.len() > 0 {
        assert(distinct_keys(s.drop_last()));
        lemma_entries_to_map_len(s.drop_last());
        lemma_entries_to_map_properties(s.drop_last());
        assert(!has_key(s.drop_last(), s.last().0)) by {
            if has_key(s.drop_last(), s.last().0) {
                let i = choose|i: int|
                    0 <= i < s.drop_last().len() && s.drop_last()[i].0 == s.last().0;
                assert(s[i].0 == s[s.len() - 1].0);
            }
        }
        assert(!entries_to_map(s.drop_last()).contains_key(s.last().0));
    }
}

/// An association list from string keys to string values with unique keys.
pub struct StringMap {
    entries: Vec<(String, String)>,
}

impl View for StringMap {
    type V = Map<Seq<char>, Seq<char>>;

    open spec fn view(&self) -> Map<Seq<char>, Seq<char>> {
        entries_to_map(self.entries_seq())
    }
}

impl StringMap {
    /// The entries of the map, in order, as character sequences.
    pub closed spec fn entries_seq(self) -> Seq<(Seq<char>, Seq<char>)> {
        Seq::new(self.entries@.len(), |i: int| (self.entries@[i].0@, self.entries@[i].1@))
    }

    /// Well-formedness: keys are pairwise distinct.  Constructors
    /// establish it and mutators preserve it.
    pub open spec fn wf(self) -> bool {
        distinct_keys(self.entries_seq())
    }

    pub fn new() -> (r: StringMap)
        ensures
            r.wf(),
            r.entries_seq() == Seq::<(Seq<char>, Seq<char>)>::empty(),
            r@ == Map::<Seq<char>, Seq<char>>::empty(),
    {
        let r = StringMap { entries: Vec::new() };
        proof {
            assert(r.entries_seq() =~= Seq::<(Seq<char>, Seq<char>)>::empty());
        }
        r
    }

    /// The number of entries, which equals the size of the abstract map.
    pub fn len(&self) -> (r: usize)
        requires
            self.wf(),
        ensures
            r == self.entries_seq().len(),
            r == self@.dom().len(),
    {
        proof {
            lemma_entries_to_map_len(self.entries_seq());
        }
        self.entries.len()
    }

    /// Looks a key up.
    pub fn get(&self, key: &str) -> (r: Option<&String>)
        requires
            self.wf(),
        ensures
            match r {
                Some(v) => self@.contains_key(key@) && v@ == self@[key@],
                None => !self@.contains_key(key@),
            },
    {
        let n = self.entries.len();
        let mut i: usize = 0;
        while i < n
            invariant
                self.wf(),
                n == self.entries@.len(),
                i <= n,
                forall|j: int| 0 <= j < i ==> self.entries_seq()[j].0 != key@,
            decreases n - i,
        {
            if str_eq(self.entries[i].0.as_str(), key) {
                proof {
                    lemma_entries_to_map_properties(self.entries_seq());
                    assert(self.entries_seq()[i as int].0 == key@);
                }
                return Some(&self.entries[i].1);
            }
            i += 1;
        }
        proof {
            lemma_entries_to_map_properties(self.entries_seq());
            if has_key(self.entries_seq(), key@) {
                let j = choose|j: int|
                    0 <= j < self.entries_seq().len() && self.entries_seq()[j].0 == key@;
                assert(self.entries_seq()[j].0 != key@);
            }
        }
        None
    }

    /// Inserts or replaces the value under a key.  A present key keeps its
    /// position; a fresh key is appended at the end.
    pub fn set(&mut self, key: &str, value: &str)
        requires
            old(self).wf(),
        ensures
            final(self).wf(),
            final(self)@ == old(self)@.insert(key@, value@),
            final(self).entries_seq() == {
                let s = old(self).entries_seq();
                let i = index_of_key(s, key@);
                if i == -1 {
                    s.push((key@, value@))
                } else {
                    s.update(i, (key@, value@))
                }
            },
    {
        let ghost s0 = self.entries_seq();
        let n = self.entries.len();
        let mut i: usize = 0;
        while i < n
            invariant
                old(self).wf(),
                self == old(self),
                s0 == self.entries_seq(),
                n == self.entries@.len(),
                i <= n,
                forall|j: int| 0 <= j < i ==> self.entries_seq()[j].0 != key@,
            decreases n - i,
        {
            if str_eq(self.entries[i].0.as_str(), key) {
                proof {
                    lemma_index_of_key_properties(s0, key@);
                    assert(s0[i as int].0 == key@);
                }
                let pair = (String::from_str(key), String::from_str(value));
                self.entries.set(i, pair);
                proof {
                    assert(self.entries_seq() =~= s0.update(i as int, (key@, value@)));
                    assert(distinct_keys(self.entries_seq()));
                    lemma_set_entries_to_map(s0, i as int, key@, value@);
                }
                return ;
            }
            i += 1;
        }
        proof {
            lemma_index_of_key_properties(s0, key@);
        }
        let pair = (String::from_str(key), String::from_str(value));
        self.entries.push(pair);
        proof {
            assert(self.entries_seq() =~= s0.push((key@, value@)));
            assert(self.entries_seq().drop_last() =~= s0);
            assert(distinct_keys(self.entries_seq()));
        }
    }

    /// Removes a key if present.  The remaining entries keep their order.
    pub fn unset(&mut self, key: &str)
        requires
            old(self).wf(),
        ensures
            final(self).wf(),
            final(self)@ == old(self)@.remove(key@),
            final(self).entries_seq() == {
                let s = old(self).entries_seq();
                let i = index_of_key(s, key@);
                if i == -1 {
                    s
                } else {
                    s.subrange(0, i) + s.subrange(i + 1, s.len() as int)
                }
            },
    {
        let ghost s0 = self.entries_seq();
        let n = self.entries.len();
        let mut i: usize = 0;
        while i < n
            invariant
                old(self).wf(),
                self == old(self),
                n == self.entries@.len(),
                i <= n,
                self.entries_seq() == s0,
                s0 == old(self).entries_seq(),
                forall|j: int| 0 <= j < i ==> self.entries_seq()[j].0 != key@,
            decreases n - i,
        {
            if str_eq(self.entries[i].0.as_str(), key) {
                proof {
                    lemma_index_of_key_properties(s0, key@);
                    assert(s0[i as int].0 == key@);
                }
                self.entries.remove(i);
                proof {
                    assert(self.entries_seq() =~= s0.subrange(0, i as int) + s0.subrange(
                        i as int + 1,
                        s0.len() as int,
                    ));
                    assert forall|a: int, b: int|
                        0 <= a < b < self.entries_seq().len() implies self.entries_seq()[a].0
                        != self.entries_seq()[b].0 by {
                        assert(self.entries_seq()[a] == if a < i as int {
                            s0[a]
                        } else {
                            s0[a + 1]
                        });
                        assert(self.entries_seq()[b] == if b < i as int {
                            s0[b]
                        } else {
                            s0[b + 1]
                        });
                    }
                    lemma_remove_entries_to_map(s0, i as int, key@);
                }
                return ;
            }
            i += 1;
        }
        proof {
            lemma_index_of_key_properties(s0, key@);
            lemma_entries_to_map_properties(s0);
            assert(old(self)@.remove(key@) =~= old(self)@);
        }
    }

    /// The number of entries (exposed for iteration).
    pub fn entry_count(&self) -> (r: usize)
        ensures
            r == self.entries_seq().len(),
    {
        self.entries.len()
    }

    /// The entry at a position, in stored order.
    pub fn entry_at(&self, i: usize) -> (r: (&String, &String))
        requires
            i < self.entries_seq().len(),
        ensures
            r.0@ == self.entries_seq()[i as int].0,
            r.1@ == self.entries_seq()[i as int].1,
    {
        (&self.entries[i].0, &self.entries[i].1)
    }
}

/// Updating the entry that holds a key matches `Map::insert`.
proof fn lemma_set_entries_to_map(
    s: Seq<(Seq<char>, Seq<char>)>,
    i: int,
    key: Seq<char>,
    value: Seq<char>,
)
    requires
        distinct_keys(s),
        0 <= i < s.len(),
        s[i].0 == key,
    ensures
        entries_to_map(s.update(i, (key, value))) == entries_to_map(s).insert(key, value),
{
    let t = s.update(i, (key, value));
    assert(distinct_keys(t)) by {
        assert forall|a: int, b: int| 0 <= a < b < t.len() implies t[a].0 != t[b].0 by {
            assert(t[a].0 == s[a].0 && t[b].0 == s[b].0);
        }
    }
    lemma_entries_to_map_properties(s);
    lemma_entries_to_map_properties(t);
    assert(entries_to_map(t) =~= entries_to_map(s).insert(key, value)) by {
        assert forall|k: Seq<char>|
            #[trigger] entries_to_map(t).contains_key(k)
                == entries_to_map(s).insert(key, value).contains_key(k) by {
            if has_key(t, k) {
                let j = choose|j: int| 0 <= j < t.len() && t[j].0 == k;
                assert(s[j].0 == t[j].0);
                assert(has_key(s, k));
            }
            if has_key(s, k) {
                let j = choose|j: int| 0 <= j < s.len() && s[j].0 == k;
                assert(t[j].0 == s[j].0);
                assert(has_key(t, k));
            }
            assert(s[i].0 == key && t[i].0 == key);
        }
        assert forall|k: Seq<char>| entries_to_map(t).contains_key(k) implies entries_to_map(t)[k]
            == entries_to_map(s).insert(key, value)[k] by {
            let j = choose|j: int| 0 <= j < t.len() && t[j].0 == k;
            assert(entries_to_map(t)[t[j].0] == t[j].1);
            if k == key {
                assert(j == i) by {
                    if j != i {
                        assert(t[j].0 == s[j].0);
                        assert(s[j].0 == s[i].0);
                    }
                }
            } else {
                assert(j != i);
                assert(t[j] == s[j]);
                assert(entries_to_map(s)[s[j].0] == s[j].1);
            }
        }
    }
}

/// Removing the entry that holds a key matches `Map::remove`.
proof fn lemma_remove_entries_to_map(s: Seq<(Seq<char>, Seq<char>)>, i: int, key: Seq<char>)
    requires
        distinct_keys(s),
        0 <= i < s.len(),
        s[i].0 == key,
    ensures
        entries_to_map(s.subrange(0, i) + s.subrange(i + 1, s.len() as int))
            == entries_to_map(s).remove(key),
{
    let t = s.subrange(0, i) + s.subrange(i + 1, s.len() as int);
    assert forall|j: int| 0 <= j < t.len() implies t[j] == (if j < i {
        s[j]
    } else {
        s[j + 1]
    }) by {}
    assert(distinct_keys(t)) by {
        assert forall|a: int, b: int| 0 <= a < b < t.len() implies t[a].0 != t[b].0 by {
            let aa: int = if a < i { a } else { a + 1 };
            let bb: int = if b < i { b } else { b + 1 };
            assert(t[a] == s[aa] && t[b] == s[bb]);
        }
    }
    lemma_entries_to_map_properties(s);
    lemma_entries_to_map_properties(t);
    assert(entries_to_map(t) =~= entries_to_map(s).remove(key)) by {
        assert forall|k: Seq<char>|
            #[trigger] entries_to_map(t).contains_key(k)
                == entries_to_map(s).remove(key).contains_key(k) by {
            if has_key(t, k) {
                let j = choose|j: int| 0 <= j < t.len() && t[j].0 == k;
                let jj: int = if j < i { j } else { j + 1 };
                assert(t[j] == s[jj]);
                assert(has_key(s, k));
                assert(k != key) by {
                    if k == key {
                        assert(s[jj].0 == s[i].0 && jj != i);
                    }
                }
            }
            if has_key(s, k) && k != key {
                let j = choose|j: int| 0 <= j < s.len() && s[j].0 == k;
                assert(j != i);
                let jj: int = if j < i { j } else { j - 1 };
                assert(t[jj] == s[j]);
                assert(has_key(t, k));
            }
        }
        assert forall|k: Seq<char>| entries_to_map(t).contains_key(k) implies entries_to_map(t)[k]
            == entries_to_map(s).remove(key)[k] by {
            let j = choose|j: int| 0 <= j < t.len() && t[j].0 == k;
            let jj: int = if j < i { j } else { j + 1 };
            assert(t[j] == s[jj]);
            assert(entries_to_map(t)[t[j].0] == t[j].1);
            assert(entries_to_map(s)[s[jj].0] == s[jj].1);
            assert(k != key) by {
                if k == key {
                    assert(s[jj].0 == s[i].0 && jj != i);
                }
            }
        }
    }
}

} // verus!
