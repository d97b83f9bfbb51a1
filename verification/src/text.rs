//! Substring and whitespace-token tests on sequences of characters.

use vstd::prelude::*;

verus! {

/// `needle` stands in `hay` at offset `at`.
pub open spec fn occurs_at(hay: Seq<char>, needle: Seq<char>, at: int) -> bool {
    &&& 0 <= at
    &&& at + needle.len() <= hay.len()
    &&& hay.subrange(at, at + needle.len()) == needle
}

/// `needle` is a contiguous part of `hay`. The empty sequence is a part of
/// every sequence.
pub open spec fn is_substring(needle: Seq<char>, hay: Seq<char>) -> bool {
    exists|at: int| occurs_at(hay, needle, at)
}

/// The lowercase form that `str::to_lowercase` gives a string: Unicode's
/// lowercase mapping of the whole string, which may change its length.
pub uninterp spec fn lowercase_of(s: Seq<char>) -> Seq<char>;

/// The characters that carry Unicode's `White_Space` property.
pub open spec fn is_white_space(c: char) -> bool {
    let u = c as u32;
    ||| 0x09 <= u <= 0x0D
    ||| u == 0x20
    ||| u == 0x85
    ||| u == 0xA0
    ||| u == 0x1680
    ||| 0x2000 <= u <= 0x200A
    ||| u == 0x2028
    ||| u == 0x2029
    ||| u == 0x202F
    ||| u == 0x205F
    ||| u == 0x3000
}

/// `s[from..to]` is a whitespace-delimited part of `s`: a non-empty run of
/// characters that are not whitespace, which no such character adjoins.
pub open spec fn is_token(s: Seq<char>, from: int, to: int) -> bool {
    &&& 0 <= from < to <= s.len()
    &&& forall|i: int| from <= i < to ==> !is_white_space(#[trigger] s[i])
    &&& (from == 0 || is_white_space(s[from - 1]))
    &&& (to == s.len() || is_white_space(s[to]))
}

/// Some whitespace-delimited part of `key` is a substring of `name`.
pub open spec fn shares_token(key: Seq<char>, name: Seq<char>) -> bool {
    exists|from: int, to: int|
        #![trigger key.subrange(from, to)]
        is_token(key, from, to) && is_substring(key.subrange(from, to), name)
}

/// The characters of a string, in order.
pub fn chars_of(s: &str) -> (v: Vec<char>)
    ensures
        v@ == s@,
{
    let mut v: Vec<char> = Vec::new();
    for c in it: s.chars()
        invariant
            v@ == it.seq().take(it.index() as int),
            it.seq() == s@,
    {
        v.push(c);
    }
    v
}

/// Calls `str::to_lowercase`. The result is that function's, on the same
/// characters; what it is on a given string is not stated here.
#[verifier::external_body]
pub(crate) fn lowercase(s: &str) -> (r: String)
    ensures
        r@ == lowercase_of(s@),
{
    s.to_lowercase()
}

/// Whether a character is whitespace in Unicode's sense.
pub fn is_whitespace(c: char) -> (r: bool)
    ensures
        r == is_white_space(c),
{
    let u: u32 = c as u32;
    (0x09 <= u && u <= 0x0D) || u == 0x20 || u == 0x85 || u == 0xA0 || u == 0x1680 || (0x2000 <= u
        && u <= 0x200A) || u == 0x2028 || u == 0x2029 || u == 0x202F || u == 0x205F || u == 0x3000
}

/// Whether `needle[lo..hi]` stands in `hay` at offset `at`.
fn range_occurs_at(hay: &[char], needle: &[char], lo: usize, hi: usize, at: usize) -> (r: bool)
    requires
        lo <= hi <= needle@.len(),
        at + (hi - lo) <= hay@.len(),
    ensures
        r == occurs_at(hay@, needle@.subrange(lo as int, hi as int), at as int),
{
    let n: usize = hi - lo;
    let len: usize = hay.len();
    let ghost part = needle@.subrange(lo as int, hi as int);
    let mut k: usize = 0;
    while k < n
        invariant
            n == hi - lo,
            lo <= hi <= needle@.len(),
            len == hay@.len(),
            at + n <= len,
            k <= n,
            part == needle@.subrange(lo as int, hi as int),
            forall|j: int| 0 <= j < k ==> hay@[at + j] == part[j],
        decreases n - k,
    {
        if hay[at + k] != needle[lo + k] {
            assert(hay@.subrange(at as int, at + part.len())[k as int] != part[k as int]);
            return false;
        }
        k = k + 1;
    }
    assert(hay@.subrange(at as int, at + part.len()) =~= part);
    true
}

/// Whether `needle[lo..hi]` is a substring of `hay`.
pub(crate) fn range_is_substring(needle: &[char], lo: usize, hi: usize, hay: &[char]) -> (r: bool)
    requires
        lo <= hi <= needle@.len(),
    ensures
        r == is_substring(needle@.subrange(lo as int, hi as int), hay@),
{
    let n: usize = hi - lo;
    let ghost part = needle@.subrange(lo as int, hi as int);
    if n > hay.len() {
        return false;
    }
    let last: usize = hay.len() - n;
    let mut at: usize = 0;
    while at < last
        invariant
            n == hi - lo,
            lo <= hi <= needle@.len(),
            last + n == hay@.len(),
            at <= last,
            part == needle@.subrange(lo as int, hi as int),
            forall|a: int| 0 <= a < at ==> !occurs_at(hay@, part, a),
        decreases last - at,
    {
        if range_occurs_at(hay, needle, lo, hi, at) {
            return true;
        }
        at = at + 1;
    }
    range_occurs_at(hay, needle, lo, hi, last)
}

/// Whether `needle` is a substring of `hay`.
pub fn contains(hay: &str, needle: &str) -> (r: bool)
    ensures
        r == is_substring(needle@, hay@),
{
    let h = chars_of(hay);
    let n = chars_of(needle);
    assert(n@.subrange(0, n@.len() as int) =~= n@);
    range_is_substring(n.as_slice(), 0, n.len(), h.as_slice())
}

/// Whether some whitespace-delimited part of `key` is a substring of `name`.
pub fn any_token_in(key: &[char], name: &[char]) -> (r: bool)
    ensures
        r == shares_token(key@, name@),
{
    let n: usize = key.len();
    let mut i: usize = 0;
    while i < n
        invariant
            n == key@.len(),
            i <= n,
            i == 0 || i == n || is_white_space(key@[i - 1]) || is_white_space(key@[i as int]),
            forall|from: int, to: int|
                #![trigger key@.subrange(from, to)]
                is_token(key@, from, to) && from < i ==> to <= i && !is_substring(
                    key@.subrange(from, to),
                    name@,
                ),
        decreases n - i,
    {
        if is_whitespace(key[i]) {
            i = i + 1;
        } else {
            let start: usize = i;
            while i < n && !is_whitespace(key[i])
                invariant
                    n == key@.len(),
                    start <= i <= n,
                    start < n,
                    !is_white_space(key@[start as int]),
                    forall|j: int| start <= j < i ==> !is_white_space(#[trigger] key@[j]),
                decreases n - i,
            {
                i = i + 1;
            }
            assert(is_token(key@, start as int, i as int));
            assert forall|from: int, to: int|
                #![trigger key@.subrange(from, to)]
                is_token(key@, from, to) && start <= from < i implies from == start && to == i by {
                if from > start {
                    assert(!is_white_space(key@[from - 1]));
                }
                if to < i {
                    assert(!is_white_space(key@[to]));
                }
                if to > i {
                    assert(!is_white_space(key@[i as int]));
                }
            }
            if range_is_substring(key, start, i, name) {
                return true;
            }
        }
    }
    false
}

} // verus!
