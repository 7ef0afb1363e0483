//! Fuzzy narrowing of a list of names, ranked by `nucleo_matcher`.

use vstd::prelude::*;
use crate::text::has_name;

verus! {

/// The longest entry, in bytes, that the matcher is given.
pub const MAX_HAYSTACK_BYTES: usize = 0xffff_ffff;

/// The longest search text, in bytes, that the matcher is given.
pub const MAX_PATTERN_BYTES: usize = 2621;

/// The length of a text in bytes.
pub open spec fn byte_len(text: Seq<char>) -> nat {
    vstd::utf8::encode_utf8(text).len()
}

/// The entries of `items` that `pattern` matches, best match first: what
/// `nucleo_matcher` makes of them with case ignored, smart normalization
/// and its scoring for paths. Entries of one score keep their order.
pub uninterp spec fn fuzzy_ranking(pattern: Seq<char>, items: Seq<Seq<char>>) -> Seq<Seq<char>>;

/// Whether every entry is short enough for the matcher.
pub open spec fn all_matchable(items: Seq<Seq<char>>) -> bool {
    forall|i: int| 0 <= i < items.len() ==> byte_len(#[trigger] items[i]) <= MAX_HAYSTACK_BYTES
}

/// Whether a search text is short enough for the matcher.
pub open spec fn pattern_fits(pattern: Seq<char>) -> bool {
    byte_len(pattern) <= MAX_PATTERN_BYTES
}

/// `Pattern::parse(..).match_list(..)` with a fresh path-scoring `Matcher`.
///
/// The matcher panics on an entry that it reads as more than 2^32-1 units.
/// It reads an entry as its bytes or as its grapheme clusters, never as
/// more units than the entry has bytes, so entries of more bytes are kept
/// out. It adds the score of a word of the pattern up in sixteen bits: at
/// most 34 for the word's first unit and 25 for each further one. A word
/// of 2621 units stays within them and a longer one may not, so a pattern
/// of more bytes is kept out as well.
///
/// The ranking goes by the name `fuzzy_ranking`: the matcher keeps no
/// state between calls, and the separators that its path scoring knows are
/// fixed for the platform the crate is built for, so the result depends on
/// pattern and entries alone. What is stated beside the name is that the
/// call filters and then sorts: what it returns is a part of what it was
/// given, each entry at most as often as it was given.
#[verifier::external_body]
fn match_list(pattern: &str, items: Vec<String>) -> (matches: Vec<String>)
    requires
        pattern_fits(pattern@),
        all_matchable(items.deep_view()),
    ensures
        matches.deep_view() == fuzzy_ranking(pattern@, items.deep_view()),
        matches.deep_view().to_multiset().subset_of(items.deep_view().to_multiset()),
{
    let mut matcher = nucleo_matcher::Matcher::new(nucleo_matcher::Config::DEFAULT.match_paths());
    nucleo_matcher::pattern::Pattern::parse(
        pattern,
        nucleo_matcher::pattern::CaseMatching::Ignore,
        nucleo_matcher::pattern::Normalization::Smart,
    ).match_list(items, &mut matcher).into_iter().map(|entry| entry.0).collect()
}

/// The entries of `items` that the matcher takes, in order.
pub open spec fn matchable(items: Seq<Seq<char>>) -> Seq<Seq<char>> {
    items.filter(|item: Seq<char>| byte_len(item) <= MAX_HAYSTACK_BYTES)
}

/// What a search for `pattern` shows of `items`: all of them while the
/// pattern is empty; none of them for a pattern too long for the matcher,
/// which matches nothing; else the ranking of those the matcher takes.
pub open spec fn narrowed(pattern: Seq<char>, items: Seq<Seq<char>>) -> Seq<Seq<char>> {
    if pattern.len() == 0 {
        items
    } else if !pattern_fits(pattern) {
        Seq::empty()
    } else {
        fuzzy_ranking(pattern, matchable(items))
    }
}

/// Whether `part` holds nothing that `whole` does not hold, each entry at
/// most as often.
pub open spec fn part_of(part: Seq<Seq<char>>, whole: Seq<Seq<char>>) -> bool {
    part.to_multiset().subset_of(whole.to_multiset())
}

/// A filtered list is a part of the list.
proof fn lemma_filter_part_of(items: Seq<Seq<char>>, keep: spec_fn(Seq<char>) -> bool)
    ensures
        part_of(items.filter(keep), items),
    decreases items.len(),
{
    reveal(Seq::filter);
    if items.len() > 0 {
        let front = items.drop_last();
        let last = items.last();
        lemma_filter_part_of(front, keep);
        assert(items == front.push(last));
        vstd::seq_lib::to_multiset_build(front, last);
        vstd::seq_lib::to_multiset_build(front.filter(keep), last);
    }
}

/// A part of a list is no longer than the list, and each of its entries
/// is one of the list's.
pub proof fn lemma_part_of(part: Seq<Seq<char>>, whole: Seq<Seq<char>>)
    requires
        part_of(part, whole),
    ensures
        part.len() <= whole.len(),
        forall|i: int| 0 <= i < part.len() ==> has_name(whole, #[trigger] part[i]),
{
    vstd::seq_lib::to_multiset_len(part);
    vstd::seq_lib::to_multiset_len(whole);
    vstd::multiset::axiom_len_sub(whole.to_multiset(), part.to_multiset());
    assert forall|i: int| 0 <= i < part.len() implies has_name(whole, #[trigger] part[i]) by {
        let name = part[i];
        assert(part.contains(name));
        vstd::seq_lib::to_multiset_contains(part, name);
        vstd::seq_lib::to_multiset_contains(whole, name);
        assert(whole.to_multiset().count(name) > 0);
        assert(whole.contains(name));
    }
}

/// Copies the entries that are short enough for the matcher.
fn keep_matchable(items: &Vec<String>) -> (kept: Vec<String>)
    ensures
        kept.deep_view() == matchable(items.deep_view()),
        all_matchable(kept.deep_view()),
{
    let mut kept: Vec<String> = Vec::new();
    let mut i: usize = 0;
    let ghost short = |item: Seq<char>| byte_len(item) <= MAX_HAYSTACK_BYTES;
    proof {
        reveal(Seq::filter);
        assert(items.deep_view().subrange(0, 0).filter(short) == Seq::<Seq<char>>::empty());
        assert(kept.deep_view() == Seq::<Seq<char>>::empty());
    }
    while i < items.len()
        invariant
            i <= items.len(),
            short == |item: Seq<char>| byte_len(item) <= MAX_HAYSTACK_BYTES,
            kept.deep_view() == items.deep_view().subrange(0, i as int).filter(short),
            all_matchable(kept.deep_view()),
        decreases items.len() - i,
    {
        let ghost before = kept.deep_view();
        let ghost prefix = items.deep_view().subrange(0, i as int);
        let ghost item = items.deep_view()[i as int];
        proof {
            assert(items.deep_view().subrange(0, i + 1) == prefix.push(item));
            assert(prefix.push(item).drop_last() == prefix);
            reveal(Seq::filter);
        }
        if items[i].as_str().as_bytes().len() <= MAX_HAYSTACK_BYTES {
            kept.push(items[i].clone());
            assert(kept.deep_view() == before.push(item));
        }
        i += 1;
    }
    assert(items.deep_view().subrange(0, items.len() as int) == items.deep_view());
    kept
}

/// Narrows `items` to what a search for `pattern` shows. Whatever the
/// pattern, what is shown is a part of `items`: no longer than they are,
/// and nothing that is not among them.
pub fn search_list(pattern: &str, items: &Vec<String>) -> (shown: Vec<String>)
    ensures
        shown.deep_view() == narrowed(pattern@, items.deep_view()),
        part_of(shown.deep_view(), items.deep_view()),
        shown.len() <= items.len(),
        forall|i: int|
            0 <= i < shown.len() ==> has_name(items.deep_view(), #[trigger] shown.deep_view()[i]),
{
    if pattern.is_empty() {
        let shown = crate::text::clone_names(items);
        proof {
            lemma_part_of(shown.deep_view(), items.deep_view());
        }
        shown
    } else if pattern.as_bytes().len() > MAX_PATTERN_BYTES {
        let shown: Vec<String> = Vec::new();
        proof {
            assert(shown.deep_view() =~= Seq::<Seq<char>>::empty());
            vstd::seq_lib::to_multiset_len(shown.deep_view());
            assert(shown.deep_view().to_multiset() =~= vstd::multiset::Multiset::empty());
        }
        shown
    } else {
        let kept = keep_matchable(items);
        let ghost domain = kept.deep_view();
        let shown = match_list(pattern, kept);
        proof {
            lemma_filter_part_of(
                items.deep_view(),
                |item: Seq<char>| byte_len(item) <= MAX_HAYSTACK_BYTES,
            );
            assert(part_of(domain, items.deep_view()));
            assert(part_of(shown.deep_view(), items.deep_view()));
            lemma_part_of(shown.deep_view(), items.deep_view());
        }
        shown
    }
}

} // verus!
