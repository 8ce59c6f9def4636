//! The ordered list of target prefixes and the rule that attributes a public
//! address to at most one of them.

use vstd::prelude::*;
use vstd::string::*;

verus! {

/// Whether the address begins with the prefix at position `i` of the list.
pub open spec fn matches_at(address: Seq<char>, prefixes: Seq<Seq<char>>, i: int) -> bool {
    0 <= i < prefixes.len() && prefixes[i].is_prefix_of(address)
}

/// Whether position `i` is the earliest in the list whose prefix the address
/// begins with.
pub open spec fn is_first_match(address: Seq<char>, prefixes: Seq<Seq<char>>, i: int) -> bool {
    matches_at(address, prefixes, i) && forall|j: int|
        0 <= j < i ==> !#[trigger] matches_at(address, prefixes, j)
}

/// The earliest position at or after `start` whose prefix the address begins
/// with.
pub open spec fn first_match_from(
    address: Seq<char>,
    prefixes: Seq<Seq<char>>,
    start: int,
) -> Option<int>
    decreases prefixes.len() - start,
{
    if start < 0 || start >= prefixes.len() {
        None
    } else if prefixes[start].is_prefix_of(address) {
        Some(start)
    } else {
        first_match_from(address, prefixes, start + 1)
    }
}

/// The position of the prefix that the address is attributed to: the list is
/// scanned in order and the scan stops at the first prefix that the address
/// begins with.
pub open spec fn first_match(address: Seq<char>, prefixes: Seq<Seq<char>>) -> Option<int> {
    first_match_from(address, prefixes, 0)
}

/// The scan from `start` finds the least matching position at or after
/// `start`, and finds none exactly when there is none.
pub proof fn lemma_first_match_from(address: Seq<char>, prefixes: Seq<Seq<char>>, start: int)
    requires
        0 <= start,
    ensures
        match first_match_from(address, prefixes, start) {
            Some(i) => start <= i && matches_at(address, prefixes, i) && forall|j: int|
                start <= j < i ==> !#[trigger] matches_at(address, prefixes, j),
            None => forall|j: int| start <= j ==> !#[trigger] matches_at(address, prefixes, j),
        },
    decreases prefixes.len() - start,
{
    if start < prefixes.len() && !prefixes[start].is_prefix_of(address) {
        lemma_first_match_from(address, prefixes, start + 1);
    }
}

/// An address is attributed to position `i` exactly when `i` is the earliest
/// matching position, and to none exactly when no prefix of the list matches.
pub proof fn lemma_first_match_is_least(address: Seq<char>, prefixes: Seq<Seq<char>>)
    ensures
        forall|i: int|
            first_match(address, prefixes) == Some(i) <==> #[trigger] is_first_match(
                address,
                prefixes,
                i,
            ),
        first_match(address, prefixes) is None <==> forall|j: int|
            !#[trigger] matches_at(address, prefixes, j),
{
    lemma_first_match_from(address, prefixes, 0);
    assert forall|i: int| #[trigger]
        is_first_match(address, prefixes, i) implies first_match(address, prefixes) == Some(i) by {
        match first_match(address, prefixes) {
            Some(k) => {
                if k < i {
                    assert(matches_at(address, prefixes, k));
                } else if i < k {
                    assert(matches_at(address, prefixes, i));
                }
            },
            None => {
                assert(matches_at(address, prefixes, i));
            },
        }
    }
}

/// A prefix that begins with an earlier prefix of the list is never the one
/// that an address is attributed to: whatever matches it matches the earlier
/// one first. This holds in particular of a prefix that the list repeats.
pub proof fn lemma_shadowed_prefix_never_matches(
    address: Seq<char>,
    prefixes: Seq<Seq<char>>,
    earlier: int,
    later: int,
)
    requires
        0 <= earlier < later < prefixes.len(),
        prefixes[earlier].is_prefix_of(prefixes[later]),
    ensures
        first_match(address, prefixes) != Some(later),
{
    lemma_first_match_is_least(address, prefixes);
    if first_match(address, prefixes) == Some(later) {
        assert(is_first_match(address, prefixes, later));
        assert(prefixes[earlier] =~= address.subrange(0, prefixes[earlier].len() as int));
        assert(matches_at(address, prefixes, earlier));
    }
}

/// `str::starts_with`, called with a string as the pattern: tells whether the
/// characters of `prefix` are the leading characters of `text`.
#[verifier::external_body]
fn starts_with(text: &str, prefix: &str) -> (r: bool)
    ensures
        r == prefix@.is_prefix_of(text@),
{
    text.starts_with(prefix)
}

/// The target prefixes of a run, in the order that decides which of several
/// matching prefixes an address is attributed to.
#[derive(Debug, Clone, PartialEq, Eq)]
pub struct TargetPrefixes {
    prefixes: Vec<String>,
}

impl View for TargetPrefixes {
    type V = Seq<Seq<char>>;

    closed spec fn view(&self) -> Seq<Seq<char>> {
        self.prefixes.deep_view()
    }
}

impl TargetPrefixes {
    /// Takes the prefixes in the given order.
    pub fn new(prefixes: Vec<String>) -> (r: Self)
        ensures
            r@ == prefixes.deep_view(),
    {
        TargetPrefixes { prefixes }
    }

    /// The number of prefixes in the list, counting repetitions.
    pub fn len(&self) -> (n: usize)
        ensures
            n == self@.len(),
    {
        self.prefixes.len()
    }

    /// The prefix at position `i`.
    pub fn get(&self, i: usize) -> (prefix: &String)
        requires
            i < self@.len(),
        ensures
            prefix@ == self@[i as int],
    {
        &self.prefixes[i]
    }

    /// Scans the list in order and returns the position of the first prefix
    /// that `address` begins with, if there is one.
    pub fn find(&self, address: &str) -> (found: Option<usize>)
        ensures
            match found {
                Some(i) => i < self@.len() && first_match(address@, self@) == Some(i as int),
                None => first_match(address@, self@) is None,
            },
    {
        let mut i: usize = 0;
        while i < self.prefixes.len()
            invariant
                i <= self.prefixes@.len(),
                first_match(address@, self@) == first_match_from(address@, self@, i as int),
            decreases self.prefixes@.len() - i,
        {
            if starts_with(address, self.prefixes[i].as_str()) {
                return Some(i);
            }
            i = i + 1;
        }
        None
    }
}

} // verus!
