//! The icon table: canonical names, each with its glyph.

use crate::error::FontLogoError;
use crate::text::{lowercase, lowercase_of};
use std::collections::BTreeMap;
use vstd::prelude::*;

verus! {

/// A canonical name and the glyph that stands for it.
#[derive(Debug, Clone, PartialEq, Eq)]
pub struct IconEntry {
    pub key: String,
    pub glyph: String,
}

/// The entries in the order in which they are tried. No key occurs twice.
#[derive(Debug)]
pub struct IconTable {
    entries: Vec<IconEntry>,
}

/// The pairs of name and glyph that a JSON text holds, where it is an object
/// from strings to strings: in ascending order of the names, one pair for each
/// name. `None` where the text is no such object.
pub uninterp spec fn json_entries(text: Seq<char>) -> Option<Seq<(Seq<char>, Seq<char>)>>;

/// `serde_json::Error`, the parser's account of a text that it refused. It
/// is carried through unread; nothing is claimed of what it holds.
#[verifier::external_type_specification]
#[verifier::external_body]
pub struct ExJsonError(serde_json::Error);

/// Calls `serde_json::from_str` for a `BTreeMap<String, String>` and hands
/// out the map's pairs as it walks them. Success and the pairs are those of
/// [`json_entries`]; the error is the parser's own.
#[verifier::external_body]
fn parse_entries(text: &str) -> (r: Result<Vec<(String, String)>, serde_json::Error>)
    ensures
        r is Ok <==> json_entries(text@) is Some,
        r matches Ok(pairs) ==> Some(pairs.deep_view()) == json_entries(text@),
{
    let map: BTreeMap<String, String> = serde_json::from_str(text)?;
    Ok(map.into_iter().collect())
}

/// Some entry has this key.
pub open spec fn has_key(entries: Seq<(Seq<char>, Seq<char>)>, key: Seq<char>) -> bool {
    exists|i: int| 0 <= i < entries.len() && (#[trigger] entries[i]).0 == key
}

/// The place of an entry with this key, where there is one.
pub open spec fn index_of(entries: Seq<(Seq<char>, Seq<char>)>, key: Seq<char>) -> int {
    choose|i: int| 0 <= i < entries.len() && (#[trigger] entries[i]).0 == key
}

/// No key occurs twice.
pub open spec fn keys_distinct(entries: Seq<(Seq<char>, Seq<char>)>) -> bool {
    forall|i: int, j: int|
        0 <= i < j < entries.len() ==> (#[trigger] entries[i]).0 != (#[trigger] entries[j]).0
}

/// The keys of the entries, in their order.
pub open spec fn keys_of(entries: Seq<(Seq<char>, Seq<char>)>) -> Seq<Seq<char>> {
    Seq::new(entries.len(), |i: int| entries[i].0)
}

/// The entries with `glyph` under `key`: in the place of the entry that had
/// the key, or at the end where none had it.
pub open spec fn put(
    entries: Seq<(Seq<char>, Seq<char>)>,
    key: Seq<char>,
    glyph: Seq<char>,
) -> Seq<(Seq<char>, Seq<char>)> {
    if has_key(entries, key) {
        entries.update(index_of(entries, key), (key, glyph))
    } else {
        entries.push((key, glyph))
    }
}

/// The table that a list of display names and glyphs makes: each name in
/// lowercase, at the place of its first occurrence, with the glyph of its last.
pub open spec fn canonical(pairs: Seq<(Seq<char>, Seq<char>)>) -> Seq<(Seq<char>, Seq<char>)>
    decreases pairs.len(),
{
    if pairs.len() == 0 {
        Seq::empty()
    } else {
        put(canonical(pairs.drop_last()), lowercase_of(pairs.last().0), pairs.last().1)
    }
}

/// Putting a glyph under a key keeps the keys apart, and keeps every other
/// entry as it was.
proof fn lemma_put(entries: Seq<(Seq<char>, Seq<char>)>, key: Seq<char>, glyph: Seq<char>)
    requires
        keys_distinct(entries),
    ensures
        keys_distinct(put(entries, key, glyph)),
        has_key(put(entries, key, glyph), key),
        put(entries, key, glyph)[index_of(put(entries, key, glyph), key)] == (key, glyph),
        forall|i: int|
            0 <= i < entries.len() && (#[trigger] entries[i]).0 != key ==> put(
                entries,
                key,
                glyph,
            )[i] == entries[i],
        entries.len() <= put(entries, key, glyph).len() <= entries.len() + 1,
{
    let after = put(entries, key, glyph);
    if has_key(entries, key) {
        let at = index_of(entries, key);
        assert(after[at].0 == key);
    } else {
        assert(after[entries.len() as int].0 == key);
    }
    let found = index_of(after, key);
    assert(after[found].0 == key);
}

/// In the table that a list of names and glyphs makes, no key occurs twice.
pub proof fn lemma_canonical_distinct(pairs: Seq<(Seq<char>, Seq<char>)>)
    ensures
        keys_distinct(canonical(pairs)),
    decreases pairs.len(),
{
    if pairs.len() > 0 {
        lemma_canonical_distinct(pairs.drop_last());
        lemma_put(canonical(pairs.drop_last()), lowercase_of(pairs.last().0), pairs.last().1);
    }
}

/// The table holds the given names in lowercase and nothing else, each with a
/// glyph that was given for a name of that lowercase form, unchanged.
pub proof fn lemma_canonical_entries(pairs: Seq<(Seq<char>, Seq<char>)>)
    ensures
        forall|i: int|
            0 <= i < canonical(pairs).len() ==> exists|j: int|
                0 <= j < pairs.len() && #[trigger] canonical(pairs)[i] == (
                    lowercase_of(#[trigger] pairs[j].0),
                    pairs[j].1,
                ),
        forall|j: int|
            0 <= j < pairs.len() ==> has_key(canonical(pairs), lowercase_of(#[trigger] pairs[j].0)),
    decreases pairs.len(),
{
    if pairs.len() > 0 {
        let rest = pairs.drop_last();
        let before = canonical(rest);
        let key = lowercase_of(pairs.last().0);
        let glyph = pairs.last().1;
        let table = canonical(pairs);
        let last = pairs.len() - 1;
        lemma_canonical_entries(rest);
        lemma_canonical_distinct(rest);
        lemma_put(before, key, glyph);
        assert forall|i: int| 0 <= i < table.len() implies exists|j: int|
            0 <= j < pairs.len() && #[trigger] table[i] == (
                lowercase_of(#[trigger] pairs[j].0),
                pairs[j].1,
            ) by {
            if table[i] == (key, glyph) {
                assert(table[i] == (lowercase_of(pairs[last].0), pairs[last].1));
            } else {
                assert(i < before.len());
                assert(table[i] == before[i]);
                let j = choose|j: int|
                    0 <= j < rest.len() && #[trigger] before[i] == (
                        lowercase_of(#[trigger] rest[j].0),
                        rest[j].1,
                    );
                assert(rest[j] == pairs[j]);
            }
        }
        assert forall|j: int| 0 <= j < pairs.len() implies has_key(
            table,
            lowercase_of(#[trigger] pairs[j].0),
        ) by {
            if j < last {
                assert(rest[j] == pairs[j]);
                let at = index_of(before, lowercase_of(rest[j].0));
                assert(before[at].0 == lowercase_of(pairs[j].0));
                assert(table[at].0 == lowercase_of(pairs[j].0));
            }
        }
    }
}

/// The entries as pairs of key and glyph.
pub open spec fn entries_view(entries: Seq<IconEntry>) -> Seq<(Seq<char>, Seq<char>)> {
    Seq::new(entries.len(), |i: int| (entries[i].key@, entries[i].glyph@))
}

/// The place of the entry with this key.
fn find_key(entries: &Vec<IconEntry>, key: &String) -> (r: Option<usize>)
    ensures
        r is Some <==> has_key(entries_view(entries@), key@),
        r matches Some(i) ==> i < entries@.len() && entries@[i as int].key@ == key@,
{
    let mut i: usize = 0;
    while i < entries.len()
        invariant
            i <= entries@.len(),
            forall|j: int| 0 <= j < i ==> (#[trigger] entries_view(entries@)[j]).0 != key@,
        decreases entries@.len() - i,
    {
        if entries[i].key == *key {
            assert(entries_view(entries@)[i as int].0 == key@);
            return Some(i);
        }
        i = i + 1;
    }
    None
}

impl View for IconTable {
    type V = Seq<(Seq<char>, Seq<char>)>;

    closed spec fn view(&self) -> Seq<(Seq<char>, Seq<char>)> {
        entries_view(self.entries@)
    }
}

impl IconTable {
    #[verifier::type_invariant]
    closed spec fn well_formed(&self) -> bool {
        keys_distinct(entries_view(self.entries@))
    }

    /// The entries, in the order in which they are tried.
    pub fn entries(&self) -> (r: &Vec<IconEntry>)
        ensures
            entries_view(r@) == self@,
            keys_distinct(self@),
    {
        proof {
            use_type_invariant(self);
        }
        &self.entries
    }

    /// The glyph under `key`, which is compared as it stands: a key of the
    /// table is in lowercase.
    pub fn glyph_of(&self, key: &str) -> (r: Option<&str>)
        ensures
            r is Some <==> has_key(self@, key@),
            r matches Some(glyph) ==> glyph@ == self@[index_of(self@, key@)].1,
    {
        proof {
            use_type_invariant(self);
        }
        let owned = key.to_owned();
        match find_key(&self.entries, &owned) {
            Some(i) => {
                assert(self@[i as int].0 == key@);
                Some(self.entries[i].glyph.as_str())
            },
            None => None,
        }
    }

    /// Builds the table from display names and glyphs. Each name is put in
    /// lowercase; the glyphs stay as they are. Of two names that differ in
    /// case only, the first keeps its place and the last gives the glyph.
    pub fn from_entries(pairs: Vec<(String, String)>) -> (table: IconTable)
        ensures
            table@ == canonical(pairs.deep_view()),
            keys_distinct(table@),
    {
        let mut entries: Vec<IconEntry> = Vec::new();
        let mut i: usize = 0;
        assert(pairs.deep_view().take(0) =~= Seq::empty());
        assert(entries_view(entries@) =~= Seq::empty());
        while i < pairs.len()
            invariant
                i <= pairs@.len(),
                entries_view(entries@) == canonical(pairs.deep_view().take(i as int)),
                keys_distinct(entries_view(entries@)),
            decreases pairs@.len() - i,
        {
            let key = lowercase(pairs[i].0.as_str());
            let glyph = pairs[i].1.clone();
            let ghost before = entries_view(entries@);
            let ghost done = pairs.deep_view().take(i as int);
            let ghost next = pairs.deep_view().take(i + 1);
            assert(next.drop_last() =~= done);
            assert(next.last() == (pairs@[i as int].0@, pairs@[i as int].1@));
            match find_key(&entries, &key) {
                Some(at) => {
                    assert(before[at as int].0 == key@);
                    entries.set(at, IconEntry { key, glyph });
                    assert(entries_view(entries@) =~= put(before, key@, glyph@));
                },
                None => {
                    entries.push(IconEntry { key, glyph });
                    assert(entries_view(entries@) =~= put(before, key@, glyph@));
                },
            }
            i = i + 1;
        }
        assert(pairs.deep_view().take(i as int) =~= pairs.deep_view());
        IconTable { entries }
    }

    /// Reads the table from a JSON object whose members are display names
    /// with their glyphs.
    pub fn parse(text: &str) -> (r: Result<IconTable, FontLogoError>)
        ensures
            match json_entries(text@) {
                Some(pairs) => r matches Ok(table) && table@ == canonical(pairs) && keys_distinct(
                    table@,
                ),
                None => r matches Err(e) && e@ == crate::error::Failure::DataCorruption,
            },
    {
        match parse_entries(text) {
            Ok(pairs) => Ok(IconTable::from_entries(pairs)),
            Err(e) => Err(FontLogoError::DataCorruption { detail: e.to_string() }),
        }
    }
}

} // verus!
