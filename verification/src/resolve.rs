//! From a name as the host reports it to its glyph.

use crate::error::{Failure, FontLogoError};
use crate::matching::{
    best_match, find_match, has_candidate, is_candidate, lemma_best_match_is_match, Rule,
};
use crate::table::{canonical, json_entries, keys_of, IconTable};
use crate::text::{lowercase, lowercase_of};
use vstd::prelude::*;

verus! {

/// A result with its strings as sequences of characters, and its error as
/// what a caller can branch on.
pub open spec fn outcome_view(r: Result<String, FontLogoError>) -> Result<Seq<char>, Failure> {
    match r {
        Ok(glyph) => Ok(glyph@),
        Err(e) => Err(e@),
    }
}

/// The glyph of a name in a table: that of the entry which matches the name
/// in lowercase. Where none matches, the failure names the name as it came.
pub open spec fn resolution(
    entries: Seq<(Seq<char>, Seq<char>)>,
    raw_name: Seq<char>,
) -> Result<Seq<char>, Failure> {
    match best_match(keys_of(entries), lowercase_of(raw_name)) {
        Some((i, rule)) => Ok(entries[i].1),
        None => Err(Failure::NoMatch { name: raw_name }),
    }
}

/// The glyph of a name in the table that a JSON text holds.
pub open spec fn font_logo(source: Seq<char>, raw_name: Seq<char>) -> Result<Seq<char>, Failure> {
    match json_entries(source) {
        Some(pairs) => resolution(canonical(pairs), raw_name),
        None => Err(Failure::DataCorruption),
    }
}

/// Letter case in the name does not count: two names with the same lowercase
/// form match the same entry of a table, or both match none, and so resolve
/// to the same glyph or both fail.
pub proof fn lemma_casing_ignored(
    entries: Seq<(Seq<char>, Seq<char>)>,
    a: Seq<char>,
    b: Seq<char>,
)
    requires
        lowercase_of(a) == lowercase_of(b),
    ensures
        best_match(keys_of(entries), lowercase_of(a)) == best_match(
            keys_of(entries),
            lowercase_of(b),
        ),
        match resolution(entries, a) {
            Ok(glyph) => resolution(entries, b) == Ok::<Seq<char>, Failure>(glyph),
            Err(failure) => resolution(entries, b) == Err::<Seq<char>, Failure>(
                (Failure::NoMatch { name: b }),
            ),
        },
{
}

/// A name fails to resolve in a table exactly when no key meets any of the
/// three rules for its lowercase form, and the failure is then
/// [`Failure::NoMatch`] with the name as it came.
pub proof fn lemma_no_match(entries: Seq<(Seq<char>, Seq<char>)>, raw_name: Seq<char>)
    ensures
        resolution(entries, raw_name) is Err <==> forall|rule: Rule|
            !has_candidate(keys_of(entries), lowercase_of(raw_name), rule),
        resolution(entries, raw_name) is Err ==> resolution(entries, raw_name) == Err::<
            Seq<char>,
            Failure,
        >((Failure::NoMatch { name: raw_name })),
        resolution(entries, raw_name) matches Ok(glyph) ==> exists|i: int|
            0 <= i < entries.len() && (#[trigger] entries[i]).1 == glyph,
{
    let keys = keys_of(entries);
    let name = lowercase_of(raw_name);
    lemma_best_match_is_match(keys, name);
    match best_match(keys, name) {
        Some((i, rule)) => {
            assert(is_candidate(keys, name, rule, i));
            assert(has_candidate(keys, name, rule));
            assert(entries[i].1 == resolution(entries, raw_name)->Ok_0);
        },
        None => {},
    }
}

/// Resolves a name against a table. The name is matched in lowercase; the
/// failure carries it unchanged.
pub fn resolve_in(table: &IconTable, raw_name: &str) -> (r: Result<String, FontLogoError>)
    ensures
        outcome_view(r) == resolution(table@, raw_name@),
{
    let name = lowercase(raw_name);
    let entries = table.entries();
    match find_match(entries, name.as_str()) {
        Some(found) => Ok(entries[found.index].glyph.clone()),
        None => Err(FontLogoError::NoMatch { name: raw_name.to_owned() }),
    }
}

/// Resolves a name against the table that `source` holds as a JSON object,
/// without any cache.
pub fn get_font_logo(source: &str, raw_name: &str) -> (r: Result<String, FontLogoError>)
    ensures
        outcome_view(r) == font_logo(source@, raw_name@),
{
    match IconTable::parse(source) {
        Ok(table) => resolve_in(&table, raw_name),
        Err(e) => Err(e),
    }
}

} // verus!
