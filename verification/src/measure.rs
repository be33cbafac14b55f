//! What the simple measures of the catalog are, as functions of two texts.
//!
//! A text is a sequence of characters. Each measure here has a definition of a
//! few lines; the measures that need more are not defined in this module.

use vstd::prelude::*;
use vstd::math::{max, min};

verus! {

/// The least of three integers.
pub open spec fn min3(a: int, b: int, c: int) -> int {
    min(a, min(b, c))
}

/// Levenshtein distance: the least number of single-character insertions,
/// deletions and substitutions that turn `s` into `t`.
pub open spec fn levenshtein_distance(s: Seq<char>, t: Seq<char>) -> nat
    decreases s.len() + t.len(),
{
    if s.len() == 0 {
        t.len()
    } else if t.len() == 0 {
        s.len()
    } else if s.last() == t.last() {
        levenshtein_distance(s.drop_last(), t.drop_last())
    } else {
        (1 + min3(
            levenshtein_distance(s.drop_last(), t) as int,
            levenshtein_distance(s, t.drop_last()) as int,
            levenshtein_distance(s.drop_last(), t.drop_last()) as int,
        )) as nat
    }
}

/// Hamming distance: the number of positions at which the two texts differ. A
/// position that only the longer text has counts as a difference.
pub open spec fn hamming_distance(s: Seq<char>, t: Seq<char>) -> nat
    decreases s.len() + t.len(),
{
    if s.len() == 0 {
        t.len()
    } else if t.len() == 0 {
        s.len()
    } else if s.first() == t.first() {
        hamming_distance(s.drop_first(), t.drop_first())
    } else {
        1 + hamming_distance(s.drop_first(), t.drop_first())
    }
}

/// Length distance: the difference of the two lengths.
pub open spec fn length_distance(s: Seq<char>, t: Seq<char>) -> nat {
    (max(s.len() as int, t.len() as int) - min(s.len() as int, t.len() as int)) as nat
}

/// Length of the longest text that both texts start with.
pub open spec fn common_prefix_len(s: Seq<char>, t: Seq<char>) -> nat
    decreases s.len(),
{
    if s.len() == 0 || t.len() == 0 || s.first() != t.first() {
        0
    } else {
        1 + common_prefix_len(s.drop_first(), t.drop_first())
    }
}

/// Length of the longest text that both texts end with.
pub open spec fn common_suffix_len(s: Seq<char>, t: Seq<char>) -> nat
    decreases s.len(),
{
    if s.len() == 0 || t.len() == 0 || s.last() != t.last() {
        0
    } else {
        1 + common_suffix_len(s.drop_last(), t.drop_last())
    }
}

/// Length of the longest common subsequence: the longest text that is left of
/// both texts after deleting characters from each.
pub open spec fn common_subsequence_len(s: Seq<char>, t: Seq<char>) -> nat
    decreases s.len() + t.len(),
{
    if s.len() == 0 || t.len() == 0 {
        0
    } else if s.last() == t.last() {
        1 + common_subsequence_len(s.drop_last(), t.drop_last())
    } else {
        max(
            common_subsequence_len(s.drop_last(), t) as int,
            common_subsequence_len(s, t.drop_last()) as int,
        ) as nat
    }
}

/// Length of the longest common substring: the longest text that occurs in both
/// texts in one piece. Such a piece ends somewhere in each text, so it is a common
/// suffix of a prefix of `s` and a prefix of `t`.
pub open spec fn common_substring_len(s: Seq<char>, t: Seq<char>) -> nat
    decreases s.len() + t.len(),
{
    if s.len() == 0 || t.len() == 0 {
        0
    } else {
        max(
            common_suffix_len(s, t) as int,
            max(
                common_substring_len(s.drop_last(), t) as int,
                common_substring_len(s, t.drop_last()) as int,
            ),
        ) as nat
    }
}

/// Smith-Waterman score of the two whole texts, where a pair of equal characters
/// gains one, a pair of different characters gains nothing, and a character left
/// without partner costs one: the best score of an alignment that ends at the end
/// of both texts, and zero where no alignment scores above zero.
pub open spec fn alignment_score(s: Seq<char>, t: Seq<char>) -> nat
    decreases s.len() + t.len(),
{
    if s.len() == 0 || t.len() == 0 {
        0
    } else {
        let gain: int = if s.last() == t.last() {
            1
        } else {
            0
        };
        max(
            max(0, alignment_score(s.drop_last(), t.drop_last()) + gain),
            max(
                alignment_score(s.drop_last(), t) - 1,
                alignment_score(s, t.drop_last()) - 1,
            ),
        ) as nat
    }
}

/// Bag distance: the characters of one text that the other cannot pair off, each
/// occurrence counted, for the text that is left with more of them.
pub open spec fn bag_distance(s: Seq<char>, t: Seq<char>) -> nat {
    max(
        s.to_multiset().sub(t.to_multiset()).len() as int,
        t.to_multiset().sub(s.to_multiset()).len() as int,
    ) as nat
}

/// A text is at Levenshtein distance zero from itself.
pub proof fn lemma_levenshtein_same(s: Seq<char>)
    ensures
        levenshtein_distance(s, s) == 0,
    decreases s.len(),
{
    if s.len() > 0 {
        lemma_levenshtein_same(s.drop_last());
    }
}

/// Levenshtein distance does not depend on the order of the two texts.
pub proof fn lemma_levenshtein_symmetric(s: Seq<char>, t: Seq<char>)
    ensures
        levenshtein_distance(s, t) == levenshtein_distance(t, s),
    decreases s.len() + t.len(),
{
    if s.len() > 0 && t.len() > 0 {
        lemma_levenshtein_symmetric(s.drop_last(), t.drop_last());
        lemma_levenshtein_symmetric(s.drop_last(), t);
        lemma_levenshtein_symmetric(s, t.drop_last());
    }
}

/// Levenshtein distance is at least the difference of the two lengths.
pub proof fn lemma_levenshtein_at_least_length_distance(s: Seq<char>, t: Seq<char>)
    ensures
        levenshtein_distance(s, t) >= length_distance(s, t),
    decreases s.len() + t.len(),
{
    if s.len() > 0 && t.len() > 0 {
        lemma_levenshtein_at_least_length_distance(s.drop_last(), t.drop_last());
        lemma_levenshtein_at_least_length_distance(s.drop_last(), t);
        lemma_levenshtein_at_least_length_distance(s, t.drop_last());
    }
}

/// A text without one of its characters is at Levenshtein distance one from the
/// text.
pub proof fn lemma_levenshtein_one_deletion(s: Seq<char>, i: int)
    requires
        0 <= i < s.len(),
    ensures
        levenshtein_distance(s, s.remove(i)) == 1,
    decreases s.len(),
{
    let t = s.remove(i);
    lemma_levenshtein_at_least_length_distance(s, t);
    if s.len() == 1 {
    } else if i == s.len() - 1 {
        assert(t =~= s.drop_last());
        lemma_levenshtein_same(t);
        if s.last() == t.last() {
            assert(t.drop_last() =~= s.drop_last().remove(i - 1));
            lemma_levenshtein_one_deletion(s.drop_last(), i - 1);
        }
    } else {
        assert(t.last() == s.last());
        assert(t.drop_last() =~= s.drop_last().remove(i));
        lemma_levenshtein_one_deletion(s.drop_last(), i);
    }
}

} // verus!
