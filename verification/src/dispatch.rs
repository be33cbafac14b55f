//! The dispatcher: from an algorithm, two texts and the choice of form to a score.

use vstd::prelude::*;
use vstd::string::StrSliceExecFns;
use crate::catalog::AlgorithmId;
use crate::double::in_unit_interval;
use crate::measure::{
    alignment_score,
    bag_distance,
    common_prefix_len,
    common_subsequence_len,
    common_substring_len,
    common_suffix_len,
    hamming_distance,
    length_distance,
    levenshtein_distance,
};
use crate::metrics;
use crate::metrics::{product_fits, triple_sum_fits, weighted_product_fits};
use crate::score::Score;

verus! {

impl AlgorithmId {
    /// The two texts settle the score. Two algorithms add up fractions in an order
    /// that changes from run to run, so two runs on the same texts may differ in
    /// the last bits.
    pub open spec fn is_repeatable(self) -> bool {
        self != AlgorithmId::EntropyNcd && self != AlgorithmId::Roberts
    }

    /// The texts are short enough for the integer arithmetic of the algorithm.
    /// Four algorithms do arithmetic on lengths that can leave `usize`: the others
    /// take any two texts.
    pub open spec fn spec_supports(self, left: Seq<char>, right: Seq<char>) -> bool {
        match self {
            AlgorithmId::Cosine => product_fits(left, right),
            AlgorithmId::Roberts => weighted_product_fits(left, right),
            AlgorithmId::Lig3 | AlgorithmId::YujianBo => triple_sum_fits(left, right),
            _ => true,
        }
    }

    /// Whether the texts are short enough for the algorithm.
    pub fn supports(self, left: &str, right: &str) -> (ok: bool)
        ensures
            ok == self.spec_supports(left@, right@),
    {
        match self {
            AlgorithmId::Cosine => {
                let l: u128 = left.unicode_len() as u128;
                let r: u128 = right.unicode_len() as u128;
                assert(l * r <= 0xffff_ffff_ffff_ffff * 0xffff_ffff_ffff_ffff) by (nonlinear_arith)
                    requires
                        l <= 0xffff_ffff_ffff_ffff,
                        r <= 0xffff_ffff_ffff_ffff,
                ;
                l * r <= usize::MAX as u128
            },
            AlgorithmId::Roberts => {
                let l: u128 = left.unicode_len() as u128;
                let r: u128 = right.unicode_len() as u128;
                let least: u128 = if l <= r {
                    l
                } else {
                    r
                };
                if least == 0 {
                    assert((l + r) * least == 0) by (nonlinear_arith)
                        requires
                            least == 0,
                    ;
                    true
                } else {
                    let most: u128 = usize::MAX as u128;
                    assert(((l + r) * least <= most) <==> (l + r <= most / least))
                        by (nonlinear_arith)
                        requires
                            least > 0,
                    ;
                    l + r <= most / least
                }
            },
            AlgorithmId::Lig3 | AlgorithmId::YujianBo => {
                let l: u128 = left.unicode_len() as u128;
                let r: u128 = right.unicode_len() as u128;
                let most: u128 = if l <= r {
                    r
                } else {
                    l
                };
                l + r + most <= usize::MAX as u128
            },
            _ => true,
        }
    }
}

/// The raw score that the texts settle, and none where the algorithm is not
/// repeatable.
pub open spec fn raw_score(id: AlgorithmId, left: Seq<char>, right: Seq<char>) -> Option<Score> {
    match id {
        AlgorithmId::Bag => Some(Score::Count(bag_distance(left, right) as usize)),
        AlgorithmId::Cosine => Some(Score::Double(metrics::raw_cosine_value(left, right))),
        AlgorithmId::DamerauLevenshtein => Some(
            Score::Count(metrics::raw_damerau_levenshtein_value(left, right)),
        ),
        AlgorithmId::Hamming => Some(Score::Count(hamming_distance(left, right) as usize)),
        AlgorithmId::Jaccard => Some(Score::Double(metrics::raw_jaccard_value(left, right))),
        AlgorithmId::Jaro => Some(Score::Double(metrics::raw_jaro_value(left, right))),
        AlgorithmId::JaroWinkler => Some(
            Score::Double(metrics::raw_jaro_winkler_value(left, right)),
        ),
        AlgorithmId::Levenshtein => Some(Score::Count(levenshtein_distance(left, right) as usize)),
        AlgorithmId::LongestCommonSubsequence => Some(
            Score::Count(common_subsequence_len(left, right) as usize),
        ),
        AlgorithmId::LongestCommonSubstring => Some(
            Score::Count(common_substring_len(left, right) as usize),
        ),
        AlgorithmId::Length => Some(Score::Count(length_distance(left, right) as usize)),
        AlgorithmId::Lig3 => Some(Score::Double(metrics::raw_lig3_value(left, right))),
        AlgorithmId::Mlipns => Some(Score::Count(metrics::raw_mlipns_value(left, right))),
        AlgorithmId::Overlap => Some(Score::Double(metrics::raw_overlap_value(left, right))),
        AlgorithmId::Prefix => Some(Score::Count(common_prefix_len(left, right) as usize)),
        AlgorithmId::RatcliffObershelp => Some(
            Score::Double(metrics::raw_ratcliff_obershelp_value(left, right)),
        ),
        AlgorithmId::Sift4Common => Some(
            Score::Count(metrics::raw_sift4_common_value(left, right)),
        ),
        AlgorithmId::Sift4Simple => Some(
            Score::Count(metrics::raw_sift4_simple_value(left, right)),
        ),
        AlgorithmId::SmithWaterman => Some(Score::Count(alignment_score(left, right) as usize)),
        AlgorithmId::SorensenDice => Some(
            Score::Double(metrics::raw_sorensen_dice_value(left, right)),
        ),
        AlgorithmId::Suffix => Some(Score::Count(common_suffix_len(left, right) as usize)),
        AlgorithmId::Tversky => Some(Score::Double(metrics::raw_tversky_value(left, right))),
        AlgorithmId::YujianBo => Some(Score::Double(metrics::raw_yujian_bo_value(left, right))),
        AlgorithmId::EntropyNcd | AlgorithmId::Roberts => None,
    }
}

/// The normalized score that the texts settle, and none where the algorithm is not
/// repeatable.
pub open spec fn normalized_score(
    id: AlgorithmId,
    left: Seq<char>,
    right: Seq<char>,
) -> Option<Score> {
    match id {
        AlgorithmId::Bag => Some(Score::Double(metrics::normalized_bag_value(left, right))),
        AlgorithmId::Cosine => Some(Score::Double(metrics::normalized_cosine_value(left, right))),
        AlgorithmId::DamerauLevenshtein => Some(
            Score::Double(metrics::normalized_damerau_levenshtein_value(left, right)),
        ),
        AlgorithmId::Hamming => Some(
            Score::Double(metrics::normalized_hamming_value(left, right)),
        ),
        AlgorithmId::Jaccard => Some(
            Score::Double(metrics::normalized_jaccard_value(left, right)),
        ),
        AlgorithmId::Jaro => Some(Score::Double(metrics::normalized_jaro_value(left, right))),
        AlgorithmId::JaroWinkler => Some(
            Score::Double(metrics::normalized_jaro_winkler_value(left, right)),
        ),
        AlgorithmId::Levenshtein => Some(
            Score::Double(metrics::normalized_levenshtein_value(left, right)),
        ),
        AlgorithmId::LongestCommonSubsequence => Some(
            Score::Double(metrics::normalized_longest_common_subsequence_value(left, right)),
        ),
        AlgorithmId::LongestCommonSubstring => Some(
            Score::Double(metrics::normalized_longest_common_substring_value(left, right)),
        ),
        AlgorithmId::Length => Some(Score::Double(metrics::normalized_length_value(left, right))),
        AlgorithmId::Lig3 => Some(Score::Double(metrics::normalized_lig3_value(left, right))),
        AlgorithmId::Mlipns => Some(Score::Double(metrics::normalized_mlipns_value(left, right))),
        AlgorithmId::Overlap => Some(
            Score::Double(metrics::normalized_overlap_value(left, right)),
        ),
        AlgorithmId::Prefix => Some(Score::Double(metrics::normalized_prefix_value(left, right))),
        AlgorithmId::RatcliffObershelp => Some(
            Score::Double(metrics::normalized_ratcliff_obershelp_value(left, right)),
        ),
        AlgorithmId::Sift4Common => Some(
            Score::Double(metrics::normalized_sift4_common_value(left, right)),
        ),
        AlgorithmId::Sift4Simple => Some(
            Score::Double(metrics::normalized_sift4_simple_value(left, right)),
        ),
        AlgorithmId::SmithWaterman => Some(
            Score::Double(metrics::normalized_smith_waterman_value(left, right)),
        ),
        AlgorithmId::SorensenDice => Some(
            Score::Double(metrics::normalized_sorensen_dice_value(left, right)),
        ),
        AlgorithmId::Suffix => Some(Score::Double(metrics::normalized_suffix_value(left, right))),
        AlgorithmId::Tversky => Some(
            Score::Double(metrics::normalized_tversky_value(left, right)),
        ),
        AlgorithmId::YujianBo => Some(
            Score::Double(metrics::normalized_yujian_bo_value(left, right)),
        ),
        AlgorithmId::EntropyNcd | AlgorithmId::Roberts => None,
    }
}

/// The score that the texts settle: that of the normalized form of the algorithm
/// where `normalize` is set, that of the raw form where not, and none where the
/// algorithm is not repeatable.
pub open spec fn score_of(
    id: AlgorithmId,
    left: Seq<char>,
    right: Seq<char>,
    normalize: bool,
) -> Option<Score> {
    if normalize {
        normalized_score(id, left, right)
    } else {
        raw_score(id, left, right)
    }
}

/// Computes the score of one algorithm for two texts, in its normalized form where
/// `normalize` is set and in its raw form where not.
pub fn compute(id: AlgorithmId, left: &str, right: &str, normalize: bool) -> (score: Score)
    requires
        id.spec_supports(left@, right@),
    ensures
        score_of(id, left@, right@, normalize) matches Some(settled) ==> score == settled,
        !id.is_repeatable() || normalize ==> score is Double,
        id == AlgorithmId::JaroWinkler && normalize ==> (score matches Score::Double(bits)
            && in_unit_interval(bits)),
{
    if normalize {
        match id {
            AlgorithmId::Bag => Score::Double(metrics::normalized_bag(left, right)),
            AlgorithmId::Cosine => Score::Double(metrics::normalized_cosine(left, right)),
            AlgorithmId::DamerauLevenshtein => Score::Double(
                metrics::normalized_damerau_levenshtein(left, right),
            ),
            AlgorithmId::EntropyNcd => Score::Double(metrics::normalized_entropy_ncd(left, right)),
            AlgorithmId::Hamming => Score::Double(metrics::normalized_hamming(left, right)),
            AlgorithmId::Jaccard => Score::Double(metrics::normalized_jaccard(left, right)),
            AlgorithmId::Jaro => Score::Double(metrics::normalized_jaro(left, right)),
            AlgorithmId::JaroWinkler => Score::Double(
                metrics::normalized_jaro_winkler(left, right),
            ),
            AlgorithmId::Levenshtein => Score::Double(
                metrics::normalized_levenshtein(left, right),
            ),
            AlgorithmId::LongestCommonSubsequence => Score::Double(
                metrics::normalized_longest_common_subsequence(left, right),
            ),
            AlgorithmId::LongestCommonSubstring => Score::Double(
                metrics::normalized_longest_common_substring(left, right),
            ),
            AlgorithmId::Length => Score::Double(metrics::normalized_length(left, right)),
            AlgorithmId::Lig3 => Score::Double(metrics::normalized_lig3(left, right)),
            AlgorithmId::Mlipns => Score::Double(metrics::normalized_mlipns(left, right)),
            AlgorithmId::Overlap => Score::Double(metrics::normalized_overlap(left, right)),
            AlgorithmId::Prefix => Score::Double(metrics::normalized_prefix(left, right)),
            AlgorithmId::RatcliffObershelp => Score::Double(
                metrics::normalized_ratcliff_obershelp(left, right),
            ),
            AlgorithmId::Roberts => Score::Double(metrics::normalized_roberts(left, right)),
            AlgorithmId::Sift4Common => Score::Double(
                metrics::normalized_sift4_common(left, right),
            ),
            AlgorithmId::Sift4Simple => Score::Double(
                metrics::normalized_sift4_simple(left, right),
            ),
            AlgorithmId::SmithWaterman => Score::Double(
                metrics::normalized_smith_waterman(left, right),
            ),
            AlgorithmId::SorensenDice => Score::Double(
                metrics::normalized_sorensen_dice(left, right),
            ),
            AlgorithmId::Suffix => Score::Double(metrics::normalized_suffix(left, right)),
            AlgorithmId::Tversky => Score::Double(metrics::normalized_tversky(left, right)),
            AlgorithmId::YujianBo => Score::Double(metrics::normalized_yujian_bo(left, right)),
        }
    } else {
        match id {
            AlgorithmId::Bag => Score::Count(metrics::raw_bag(left, right)),
            AlgorithmId::Cosine => Score::Double(metrics::raw_cosine(left, right)),
            AlgorithmId::DamerauLevenshtein => Score::Count(
                metrics::raw_damerau_levenshtein(left, right),
            ),
            AlgorithmId::EntropyNcd => Score::Double(metrics::raw_entropy_ncd(left, right)),
            AlgorithmId::Hamming => Score::Count(metrics::raw_hamming(left, right)),
            AlgorithmId::Jaccard => Score::Double(metrics::raw_jaccard(left, right)),
            AlgorithmId::Jaro => Score::Double(metrics::raw_jaro(left, right)),
            AlgorithmId::JaroWinkler => Score::Double(metrics::raw_jaro_winkler(left, right)),
            AlgorithmId::Levenshtein => Score::Count(metrics::raw_levenshtein(left, right)),
            AlgorithmId::LongestCommonSubsequence => Score::Count(
                metrics::raw_longest_common_subsequence(left, right),
            ),
            AlgorithmId::LongestCommonSubstring => Score::Count(
                metrics::raw_longest_common_substring(left, right),
            ),
            AlgorithmId::Length => Score::Count(metrics::raw_length(left, right)),
            AlgorithmId::Lig3 => Score::Double(metrics::raw_lig3(left, right)),
            AlgorithmId::Mlipns => Score::Count(metrics::raw_mlipns(left, right)),
            AlgorithmId::Overlap => Score::Double(metrics::raw_overlap(left, right)),
            AlgorithmId::Prefix => Score::Count(metrics::raw_prefix(left, right)),
            AlgorithmId::RatcliffObershelp => Score::Double(
                metrics::raw_ratcliff_obershelp(left, right),
            ),
            AlgorithmId::Roberts => Score::Double(metrics::raw_roberts(left, right)),
            AlgorithmId::Sift4Common => Score::Count(metrics::raw_sift4_common(left, right)),
            AlgorithmId::Sift4Simple => Score::Count(metrics::raw_sift4_simple(left, right)),
            AlgorithmId::SmithWaterman => Score::Count(metrics::raw_smith_waterman(left, right)),
            AlgorithmId::SorensenDice => Score::Double(metrics::raw_sorensen_dice(left, right)),
            AlgorithmId::Suffix => Score::Count(metrics::raw_suffix(left, right)),
            AlgorithmId::Tversky => Score::Double(metrics::raw_tversky(left, right)),
            AlgorithmId::YujianBo => Score::Double(metrics::raw_yujian_bo(left, right)),
        }
    }
}

} // verus!
