//! The ordered fuzzy match of a name against the keys of a table.
//!
//! Three rules are tried in turn. A rule decides as soon as any key meets it,
//! and then the first such key in the table's order is the match; a later rule
//! is consulted only where no key at all meets the earlier ones.

use crate::table::{entries_view, keys_of, IconEntry};
use crate::text::{any_token_in, chars_of, is_substring, range_is_substring, shares_token};
use vstd::prelude::*;

verus! {

/// A way in which a key can match a name.
#[derive(Debug, Clone, Copy, PartialEq, Eq, Structural)]
pub enum Rule {
    /// The key is a substring of the name.
    KeyInName,
    /// The name is a substring of the key.
    NameInKey,
    /// A whitespace-delimited part of the key is a substring of the name.
    TokenInName,
}

/// The entry that matched, and the rule under which it did.
#[derive(Debug, Clone, Copy, PartialEq, Eq, Structural)]
pub struct Match {
    pub index: usize,
    pub rule: Rule,
}

/// The key meets the rule for the name.
pub open spec fn rule_holds(rule: Rule, key: Seq<char>, name: Seq<char>) -> bool {
    match rule {
        Rule::KeyInName => is_substring(key, name),
        Rule::NameInKey => is_substring(name, key),
        Rule::TokenInName => shares_token(key, name),
    }
}

/// The key at place `i` meets the rule.
pub open spec fn is_candidate(keys: Seq<Seq<char>>, name: Seq<char>, rule: Rule, i: int) -> bool {
    0 <= i < keys.len() && rule_holds(rule, keys[i], name)
}

/// Some key meets the rule.
pub open spec fn has_candidate(keys: Seq<Seq<char>>, name: Seq<char>, rule: Rule) -> bool {
    exists|i: int| is_candidate(keys, name, rule, i)
}

/// The key at place `i` meets the rule and no key before it does.
pub open spec fn is_first_candidate(
    keys: Seq<Seq<char>>,
    name: Seq<char>,
    rule: Rule,
    i: int,
) -> bool {
    &&& is_candidate(keys, name, rule, i)
    &&& forall|j: int| 0 <= j < i ==> !is_candidate(keys, name, rule, j)
}

/// The place of the first key that meets the rule, where some key does.
pub open spec fn first_candidate(keys: Seq<Seq<char>>, name: Seq<char>, rule: Rule) -> int {
    choose|i: int| is_first_candidate(keys, name, rule, i)
}

/// The first of the three rules that any key meets.
pub open spec fn deciding_rule(keys: Seq<Seq<char>>, name: Seq<char>) -> Option<Rule> {
    if has_candidate(keys, name, Rule::KeyInName) {
        Some(Rule::KeyInName)
    } else if has_candidate(keys, name, Rule::NameInKey) {
        Some(Rule::NameInKey)
    } else if has_candidate(keys, name, Rule::TokenInName) {
        Some(Rule::TokenInName)
    } else {
        None
    }
}

/// The match of a name against the keys: under the deciding rule, the first
/// key that meets it. `None` where no key meets any rule.
pub open spec fn best_match(keys: Seq<Seq<char>>, name: Seq<char>) -> Option<(int, Rule)> {
    match deciding_rule(keys, name) {
        Some(rule) => Some((first_candidate(keys, name, rule), rule)),
        None => None,
    }
}

/// The place of a rule in the order in which the rules are tried.
pub open spec fn rank(rule: Rule) -> int {
    match rule {
        Rule::KeyInName => 0,
        Rule::NameInKey => 1,
        Rule::TokenInName => 2,
    }
}

/// What it is to be the match of a name against the keys. A place and a rule
/// are: the key there is the first to meet the rule, and no key at all meets a
/// rule that is tried before it. No match is: no key meets any rule.
pub open spec fn is_match(keys: Seq<Seq<char>>, name: Seq<char>, answer: Option<(int, Rule)>) -> bool {
    match answer {
        Some((i, rule)) => {
            &&& is_first_candidate(keys, name, rule, i)
            &&& forall|earlier: Rule|
                rank(earlier) < rank(rule) ==> !has_candidate(keys, name, earlier)
        },
        None => forall|rule: Rule| !has_candidate(keys, name, rule),
    }
}

/// At most one place is the first to meet a rule, and `first_candidate` names it.
pub proof fn lemma_first_candidate_unique(
    keys: Seq<Seq<char>>,
    name: Seq<char>,
    rule: Rule,
    i: int,
)
    requires
        is_first_candidate(keys, name, rule, i),
    ensures
        first_candidate(keys, name, rule) == i,
        has_candidate(keys, name, rule),
{
    let c = first_candidate(keys, name, rule);
    assert(is_first_candidate(keys, name, rule, c));
    if c < i {
        assert(!is_candidate(keys, name, rule, c));
    }
    if i < c {
        assert(!is_candidate(keys, name, rule, i));
    }
}

/// Among the keys up to one that meets a rule, one is the first to meet it.
proof fn lemma_first_candidate_below(keys: Seq<Seq<char>>, name: Seq<char>, rule: Rule, i: int)
    requires
        is_candidate(keys, name, rule, i),
    ensures
        is_first_candidate(keys, name, rule, first_candidate(keys, name, rule)),
        first_candidate(keys, name, rule) <= i,
    decreases i,
{
    if exists|j: int| 0 <= j < i && is_candidate(keys, name, rule, j) {
        let j = choose|j: int| 0 <= j < i && is_candidate(keys, name, rule, j);
        lemma_first_candidate_below(keys, name, rule, j);
    } else {
        assert(is_first_candidate(keys, name, rule, i));
        lemma_first_candidate_unique(keys, name, rule, i);
    }
}

/// Where some key meets a rule, `first_candidate` is the first that does.
pub proof fn lemma_first_candidate_exists(keys: Seq<Seq<char>>, name: Seq<char>, rule: Rule)
    requires
        has_candidate(keys, name, rule),
    ensures
        is_first_candidate(keys, name, rule, first_candidate(keys, name, rule)),
{
    let i = choose|i: int| is_candidate(keys, name, rule, i);
    lemma_first_candidate_below(keys, name, rule, i);
}

/// The rules are tried in order and a later one only where an earlier one
/// finds nothing at all: `best_match` is the match in the sense of [`is_match`].
/// So a key that meets the first rule is never passed over for one that meets
/// only a later rule, however early that one stands in the table.
pub proof fn lemma_best_match_is_match(keys: Seq<Seq<char>>, name: Seq<char>)
    ensures
        is_match(keys, name, best_match(keys, name)),
{
    match deciding_rule(keys, name) {
        Some(rule) => {
            lemma_first_candidate_exists(keys, name, rule);
            assert forall|earlier: Rule| rank(earlier) < rank(rule) implies !has_candidate(
                keys,
                name,
                earlier,
            ) by {}
        },
        None => {
            assert forall|rule: Rule| !has_candidate(keys, name, rule) by {
                match rule {
                    Rule::KeyInName => {},
                    Rule::NameInKey => {},
                    Rule::TokenInName => {},
                }
            }
        },
    }
}

/// The keys and the name determine the match: two answers that are each the
/// match of the same name against the same keys are one answer.
pub proof fn lemma_match_determined(
    keys: Seq<Seq<char>>,
    name: Seq<char>,
    a: Option<(int, Rule)>,
    b: Option<(int, Rule)>,
)
    requires
        is_match(keys, name, a),
        is_match(keys, name, b),
    ensures
        a == b,
{
    match (a, b) {
        (Some((i, p)), Some((j, q))) => {
            assert(has_candidate(keys, name, p)) by {
                assert(is_candidate(keys, name, p, i));
            }
            assert(has_candidate(keys, name, q)) by {
                assert(is_candidate(keys, name, q, j));
            }
            assert(rank(p) == rank(q));
            assert(p == q);
            lemma_first_candidate_unique(keys, name, p, i);
            lemma_first_candidate_unique(keys, name, q, j);
        },
        (Some((i, p)), None) => {
            assert(is_candidate(keys, name, p, i));
            assert(has_candidate(keys, name, p));
        },
        (None, Some((j, q))) => {
            assert(is_candidate(keys, name, q, j));
            assert(has_candidate(keys, name, q));
        },
        (None, None) => {},
    }
}

/// The keys as sequences of characters.
spec fn keys_view(keys: Seq<Vec<char>>) -> Seq<Seq<char>> {
    Seq::new(keys.len(), |i: int| keys[i]@)
}

/// Whether the key meets the rule for the name.
fn holds(rule: Rule, key: &[char], name: &[char]) -> (r: bool)
    ensures
        r == rule_holds(rule, key@, name@),
{
    match rule {
        Rule::KeyInName => {
            assert(key@.subrange(0, key@.len() as int) =~= key@);
            range_is_substring(key, 0, key.len(), name)
        },
        Rule::NameInKey => {
            assert(name@.subrange(0, name@.len() as int) =~= name@);
            range_is_substring(name, 0, name.len(), key)
        },
        Rule::TokenInName => any_token_in(key, name),
    }
}

/// The place of the first key that meets the rule.
fn first_under(keys: &Vec<Vec<char>>, name: &[char], rule: Rule) -> (r: Option<usize>)
    ensures
        match r {
            Some(i) => is_first_candidate(keys_view(keys@), name@, rule, i as int),
            None => !has_candidate(keys_view(keys@), name@, rule),
        },
{
    let mut i: usize = 0;
    while i < keys.len()
        invariant
            i <= keys@.len(),
            forall|j: int| 0 <= j < i ==> !is_candidate(keys_view(keys@), name@, rule, j),
        decreases keys@.len() - i,
    {
        if holds(rule, keys[i].as_slice(), name) {
            return Some(i);
        }
        i = i + 1;
    }
    None
}

/// Matches `name`, taken as it stands, against the keys of the entries, taken
/// as they stand.
pub fn find_match(entries: &Vec<IconEntry>, name: &str) -> (r: Option<Match>)
    ensures
        match r {
            Some(found) => found.index < entries@.len() && best_match(
                keys_of(entries_view(entries@)),
                name@,
            ) == Some((found.index as int, found.rule)),
            None => best_match(keys_of(entries_view(entries@)), name@) is None,
        },
{
    let ghost all = keys_of(entries_view(entries@));
    let name_chars = chars_of(name);
    let mut keys: Vec<Vec<char>> = Vec::new();
    let n: usize = entries.len();
    let mut k: usize = 0;
    while k < n
        invariant
            n == entries@.len(),
            k <= n,
            keys@.len() == k,
            forall|j: int| 0 <= j < k ==> (#[trigger] keys@[j])@ == entries@[j].key@,
        decreases n - k,
    {
        keys.push(chars_of(entries[k].key.as_str()));
        k = k + 1;
    }
    assert(keys_view(keys@) =~= all);
    match first_under(&keys, name_chars.as_slice(), Rule::KeyInName) {
        Some(i) => {
            proof {
                lemma_first_candidate_unique(all, name@, Rule::KeyInName, i as int);
            }
            return Some(Match { index: i, rule: Rule::KeyInName });
        },
        None => {},
    }
    match first_under(&keys, name_chars.as_slice(), Rule::NameInKey) {
        Some(i) => {
            proof {
                lemma_first_candidate_unique(all, name@, Rule::NameInKey, i as int);
            }
            return Some(Match { index: i, rule: Rule::NameInKey });
        },
        None => {},
    }
    match first_under(&keys, name_chars.as_slice(), Rule::TokenInName) {
        Some(i) => {
            proof {
                lemma_first_candidate_unique(all, name@, Rule::TokenInName, i as int);
            }
            Some(Match { index: i, rule: Rule::TokenInName })
        },
        None => None,
    }
}

} // verus!
