//! The bootloader's fixed-size environment block.
//!
//! The block is `key=value` text behind one header comment line, padded
//! with `'#'` bytes to exactly 1024 bytes.  Content that would exceed the
//! cap is an integrity violation: the on-disk format cannot legally grow,
//! so overflow signals a logic or configuration error, never a condition
//! to truncate around.

use vstd::prelude::*;
use vstd::string::*;
use vstd::utf8::{encode_utf8, is_ascii_chars, is_ascii_chars_encode_utf8};

use crate::errors::{CoreError, ErrorCategory};
use crate::file_content_as_hash_map::{
    file_content_to_hash_map, hash_map_to_file_content, spec_parse, spec_serialize,
};
use crate::string_map::{distinct_keys, entries_to_map, index_of_key, StringMap};

verus! {

/// The exact byte length of the block on disk.
pub const GRUBENV_CONTENT_LENGTH: usize = 1024;

/// The header comment line opening every block.
pub open spec fn spec_header() -> Seq<char> {
    "# GRUB Environment Block\n"@
}

/// The block's text before padding: header plus serialized entries.
pub open spec fn spec_unpadded(es: Seq<(Seq<char>, Seq<char>)>) -> Seq<char> {
    spec_header() + spec_serialize(es)
}

/// UTF-8 encoding distributes over concatenation.
pub proof fn lemma_encode_utf8_concat(a: Seq<char>, b: Seq<char>)
    ensures
        encode_utf8(a + b) == encode_utf8(a) + encode_utf8(b),
    decreases a.len(),
{
    if a.len() == 0 {
        assert(a + b =~= b);
        assert(encode_utf8(a) =~= Seq::<u8>::empty());
        assert(encode_utf8(a) + encode_utf8(b) =~= encode_utf8(b));
    } else {
        assert((a + b).drop_first() =~= a.drop_first() + b);
        lemma_encode_utf8_concat(a.drop_first(), b);
        assert((a + b)[0] == a[0]);
        assert(encode_utf8(a + b) =~= encode_utf8(a) + encode_utf8(b));
    }
}

/// Whether `out` is the legal on-disk image of the entries: the
/// unpadded content fits the block, and `out` is that content followed
/// by `'#'` padding up to exactly 1024 bytes.
pub open spec fn is_padded_content(out: Seq<char>, es: Seq<(Seq<char>, Seq<char>)>) -> bool {
    let content = spec_unpadded(es);
    &&& encode_utf8(content).len() <= GRUBENV_CONTENT_LENGTH
    &&& encode_utf8(out).len() == GRUBENV_CONTENT_LENGTH
    &&& out.len() == content.len() + (GRUBENV_CONTENT_LENGTH - encode_utf8(content).len())
    &&& out.subrange(0, spec_header().len() as int) == spec_header()
    &&& out.subrange(0, content.len() as int) == content
    &&& forall|i: int| content.len() <= i < out.len() ==> out[i] == '#'
}

/// The in-memory form of the boot block.
pub struct Grubenv {
    map: StringMap,
}

impl View for Grubenv {
    type V = Map<Seq<char>, Seq<char>>;

    closed spec fn view(&self) -> Map<Seq<char>, Seq<char>> {
        self.map@
    }
}

impl Grubenv {
    pub closed spec fn wf(self) -> bool {
        self.map.wf()
    }

    /// The stored entries, in order.
    pub closed spec fn entries_seq(self) -> Seq<(Seq<char>, Seq<char>)> {
        self.map.entries_seq()
    }

    /// The abstract map is the one its entries describe.
    pub proof fn lemma_view_entries(self)
        ensures
            self@ == entries_to_map(self.entries_seq()),
    {
    }

    /// An empty block (only useful for building test fixtures; the real
    /// block always comes from the bootloader's file).
    pub fn empty() -> (r: Grubenv)
        ensures
            r.wf(),
            r@ == Map::<Seq<char>, Seq<char>>::empty(),
            r.entries_seq() == Seq::<(Seq<char>, Seq<char>)>::empty(),
    {
        Grubenv { map: StringMap::new() }
    }

    /// Parses block text.  The header and padding are comment lines, so
    /// parsing the whole block yields exactly the data entries.
    pub fn from_file_content(file_content: &str) -> (r: Result<Grubenv, CoreError>)
        ensures
            match r {
                Ok(g) => {
                    &&& spec_parse(file_content@) is Some
                    &&& g.wf()
                    &&& g@ == entries_to_map(spec_parse(file_content@)->Some_0)
                    &&& distinct_keys(spec_parse(file_content@)->Some_0) ==> g.entries_seq()
                        == spec_parse(file_content@)->Some_0
                },
                Err(e) => {
                    &&& spec_parse(file_content@) is None
                    &&& e.category == ErrorCategory::Integrity
                },
            },
    {
        let map = file_content_to_hash_map(file_content)?;
        Ok(Grubenv { map })
    }

    /// The number of entries, which equals the size of the abstract
    /// map.
    pub fn len(&self) -> (r: usize)
        requires
            self.wf(),
        ensures
            r == self.entries_seq().len(),
            r == self@.dom().len(),
    {
        proof {
            self.lemma_view_entries();
            crate::string_map::lemma_entries_to_map_len(self.entries_seq());
        }
        self.map.len()
    }

    /// Looks a key up.
    pub fn get(&self, key: &str) -> (r: Option<&String>)
        requires
            self.wf(),
        ensures
            match r {
                Some(v) => self@.contains_key(key@) && v@ == self@[key@],
                None => !self@.contains_key(key@),
            },
    {
        self.map.get(key)
    }

    /// Sets a key in memory; the caller persists separately.
    pub fn set(&mut self, key: &str, value: &str)
        requires
            old(self).wf(),
        ensures
            final(self).wf(),
            final(self)@ == old(self)@.insert(key@, value@),
            final(self).entries_seq() == {
                let s = old(self).entries_seq();
                let i = index_of_key(s, key@);
                if i == -1 {
                    s.push((key@, value@))
                } else {
                    s.update(i, (key@, value@))
                }
            },
    {
        self.map.set(key, value);
    }

    /// Removes a key in memory; the caller persists separately.
    pub fn unset(&mut self, key: &str)
        requires
            old(self).wf(),
        ensures
            final(self).wf(),
            final(self)@ == old(self)@.remove(key@),
            final(self).entries_seq() == {
                let s = old(self).entries_seq();
                let i = index_of_key(s, key@);
                if i == -1 {
                    s
                } else {
                    s.subrange(0, i) + s.subrange(i + 1, s.len() as int)
                }
            },
    {
        self.map.unset(key);
    }

    /// The exact 1024 bytes to write back: header, entries, `'#'`
    /// padding.  Content longer than the block is an integrity error and
    /// is never truncated.
    pub fn to_file_content(&self) -> (r: Result<String, CoreError>)
        requires
            self.wf(),
        ensures
            match r {
                Ok(out) => is_padded_content(out@, self.entries_seq()),
                Err(e) => {
                    &&& encode_utf8(spec_unpadded(self.entries_seq())).len()
                        > GRUBENV_CONTENT_LENGTH
                    &&& e.category == ErrorCategory::Integrity
                },
            },
    {
        let ghost content_chars = spec_unpadded(self.entries_seq());
        let entries_text = hash_map_to_file_content(&self.map);
        let mut content = String::from_str("# GRUB Environment Block\n");
        content.append(entries_text.as_str());
        proof {
            assert(content@ == content_chars);
        }
        let byte_len = content.as_str().as_bytes().len();
        proof {
            assert(byte_len == encode_utf8(content_chars).len());
        }
        if byte_len > GRUBENV_CONTENT_LENGTH {
            return Err(
                CoreError::integrity(String::from_str("Conteúdo do grubenv é grande demais")),
            );
        }
        let mut pad = GRUBENV_CONTENT_LENGTH - byte_len;
        let ghost pad0 = pad;
        while pad > 0
            invariant
                pad <= pad0,
                content_chars.len() + pad0 - pad == content@.len(),
                byte_len + pad0 - pad == encode_utf8(content@).len(),
                content@.subrange(0, content_chars.len() as int) == content_chars,
                forall|i: int| content_chars.len() <= i < content@.len() ==> content@[i] == '#',
                byte_len == encode_utf8(content_chars).len(),
            decreases pad,
        {
            let ghost before = content@;
            content.append("#");
            proof {
                reveal_strlit("#");
                assert("#"@ =~= seq!['#']);
                lemma_encode_utf8_concat(before, seq!['#']);
                assert(is_ascii_chars(seq!['#']));
                is_ascii_chars_encode_utf8(seq!['#']);
                assert(encode_utf8(seq!['#']).len() == 1);
                assert(content@.subrange(0, content_chars.len() as int) =~= content_chars);
            }
            pad = pad - 1;
        }
        proof {
            assert(content@.subrange(0, spec_header().len() as int) =~= spec_header());
        }
        Ok(content)
    }
}

} // verus!
