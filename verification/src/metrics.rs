//! The calls into the `textdistance` crate, one function here for each function
//! called there.
//!
//! `textdistance::str` holds the raw form of each algorithm and `textdistance::nstr`
//! the normalized form. Both read a text as its sequence of characters. A result
//! that is a double-precision number is handed on as its 64-bit pattern.
//!
//! Nothing in this module is proved: each contract is what the crate's source
//! shows of the function called. The contracts do not speak of memory: a call on
//! texts that the machine has no room to work on does not return.

use vstd::prelude::*;
use vstd::math::{max, min};
use crate::double::in_unit_interval;
use crate::measure::{
    alignment_score,
    bag_distance,
    common_prefix_len,
    common_subsequence_len,
    common_substring_len,
    common_suffix_len,
    hamming_distance,
    length_distance,
    levenshtein_distance,
};

verus! {

/// The product of the two lengths fits in `usize`.
pub open spec fn product_fits(left: Seq<char>, right: Seq<char>) -> bool {
    left.len() * right.len() <= usize::MAX
}

/// The sum of the two lengths, times the smaller length, fits in `usize`. No
/// character then occurs so often that the sum of its two counts, times the smaller
/// count, would not fit.
pub open spec fn weighted_product_fits(left: Seq<char>, right: Seq<char>) -> bool {
    (left.len() + right.len()) * min(left.len() as int, right.len() as int) <= usize::MAX
}

/// The sum of the two lengths and the greater length fits in `usize`. The greater
/// length bounds the Levenshtein distance, and the smaller one the number of
/// positions at which the two texts agree.
pub open spec fn triple_sum_fits(left: Seq<char>, right: Seq<char>) -> bool {
    left.len() + right.len() + max(left.len() as int, right.len() as int) <= usize::MAX
}

/// Calls `textdistance::str::bag`, which returns the bag distance of the two texts.
#[verifier::external_body]
pub(crate) fn raw_bag(left: &str, right: &str) -> (count: usize)
    ensures
        count == bag_distance(left@, right@),
{
    textdistance::str::bag(left, right)
}

/// Pattern of what `textdistance::str::cosine` returns for two texts.
pub uninterp spec fn raw_cosine_value(left: Seq<char>, right: Seq<char>) -> u64;

/// Calls `textdistance::str::cosine` and gives the pattern of its result, which is
/// settled by the characters of the two texts. It multiplies the two lengths in
/// `usize`: the texts must be short enough for that.
#[verifier::external_body]
pub(crate) fn raw_cosine(left: &str, right: &str) -> (bits: u64)
    requires
        product_fits(left@, right@),
    ensures
        bits == raw_cosine_value(left@, right@),
{
    textdistance::str::cosine(left, right).to_bits()
}

/// What `textdistance::str::damerau_levenshtein` returns for two texts.
pub uninterp spec fn raw_damerau_levenshtein_value(left: Seq<char>, right: Seq<char>) -> usize;

/// Calls `textdistance::str::damerau_levenshtein`. The result is settled by the
/// characters of the two texts.
#[verifier::external_body]
pub(crate) fn raw_damerau_levenshtein(left: &str, right: &str) -> (count: usize)
    ensures
        count == raw_damerau_levenshtein_value(left@, right@),
{
    textdistance::str::damerau_levenshtein(left, right)
}

/// Calls `textdistance::str::entropy_ncd` and gives the pattern of its result. It adds
/// up fractions while it walks a hash map, in an order that differs from one run to the
/// next, so the last bits of the sum are not settled by the two texts: nothing is
/// claimed of the result.
#[verifier::external_body]
pub(crate) fn raw_entropy_ncd(left: &str, right: &str) -> (bits: u64)
{
    textdistance::str::entropy_ncd(left, right).to_bits()
}

/// Calls `textdistance::str::hamming`, which returns the Hamming distance of the two
/// texts. Its field `truncate` is false by default, and each character that the longer
/// text has in surplus then counts as a difference: the crate's example puts `abc` and
/// `acbd` at distance 3.
#[verifier::external_body]
pub(crate) fn raw_hamming(left: &str, right: &str) -> (count: usize)
    ensures
        count == hamming_distance(left@, right@),
{
    textdistance::str::hamming(left, right)
}

/// Pattern of what `textdistance::str::jaccard` returns for two texts.
pub uninterp spec fn raw_jaccard_value(left: Seq<char>, right: Seq<char>) -> u64;

/// Calls `textdistance::str::jaccard` and gives the pattern of its result, which is
/// settled by the characters of the two texts.
#[verifier::external_body]
pub(crate) fn raw_jaccard(left: &str, right: &str) -> (bits: u64)
    ensures
        bits == raw_jaccard_value(left@, right@),
{
    textdistance::str::jaccard(left, right).to_bits()
}

/// Pattern of what `textdistance::str::jaro` returns for two texts.
pub uninterp spec fn raw_jaro_value(left: Seq<char>, right: Seq<char>) -> u64;

/// Calls `textdistance::str::jaro` and gives the pattern of its result, which is
/// settled by the characters of the two texts.
#[verifier::external_body]
pub(crate) fn raw_jaro(left: &str, right: &str) -> (bits: u64)
    ensures
        bits == raw_jaro_value(left@, right@),
{
    textdistance::str::jaro(left, right).to_bits()
}

/// Pattern of what `textdistance::str::jaro_winkler` returns for two texts.
pub uninterp spec fn raw_jaro_winkler_value(left: Seq<char>, right: Seq<char>) -> u64;

/// Calls `textdistance::str::jaro_winkler` and gives the pattern of its result, which
/// is settled by the characters of the two texts.
#[verifier::external_body]
pub(crate) fn raw_jaro_winkler(left: &str, right: &str) -> (bits: u64)
    ensures
        bits == raw_jaro_winkler_value(left@, right@),
{
    textdistance::str::jaro_winkler(left, right).to_bits()
}

/// Calls `textdistance::str::levenshtein`, which returns the Levenshtein distance of
/// the two texts, each edit at cost one.
#[verifier::external_body]
pub(crate) fn raw_levenshtein(left: &str, right: &str) -> (count: usize)
    ensures
        count == levenshtein_distance(left@, right@),
{
    textdistance::str::levenshtein(left, right)
}

/// Calls `textdistance::str::lcsseq`, which returns the length of the longest common
/// subsequence of the two texts.
#[verifier::external_body]
pub(crate) fn raw_longest_common_subsequence(left: &str, right: &str) -> (count: usize)
    ensures
        count == common_subsequence_len(left@, right@),
{
    textdistance::str::lcsseq(left, right)
}

/// Calls `textdistance::str::lcsstr`, which returns the length of the longest common
/// substring of the two texts.
#[verifier::external_body]
pub(crate) fn raw_longest_common_substring(left: &str, right: &str) -> (count: usize)
    ensures
        count == common_substring_len(left@, right@),
{
    textdistance::str::lcsstr(left, right)
}

/// Calls `textdistance::str::length`, which returns the difference of the two lengths,
/// counted in characters.
#[verifier::external_body]
pub(crate) fn raw_length(left: &str, right: &str) -> (count: usize)
    ensures
        count == length_distance(left@, right@),
{
    textdistance::str::length(left, right)
}

/// Pattern of what `textdistance::str::lig3` returns for two texts.
pub uninterp spec fn raw_lig3_value(left: Seq<char>, right: Seq<char>) -> u64;

/// Calls `textdistance::str::lig3` and gives the pattern of its result, which is
/// settled by the characters of the two texts. It adds twice the number of equal
/// positions and the Levenshtein distance in `usize`: the texts must be short enough
/// for that.
#[verifier::external_body]
pub(crate) fn raw_lig3(left: &str, right: &str) -> (bits: u64)
    requires
        triple_sum_fits(left@, right@),
    ensures
        bits == raw_lig3_value(left@, right@),
{
    textdistance::str::lig3(left, right).to_bits()
}

/// What `textdistance::str::mlipns` returns for two texts.
pub uninterp spec fn raw_mlipns_value(left: Seq<char>, right: Seq<char>) -> usize;

/// Calls `textdistance::str::mlipns`. The result is settled by the characters of the
/// two texts.
#[verifier::external_body]
pub(crate) fn raw_mlipns(left: &str, right: &str) -> (count: usize)
    ensures
        count == raw_mlipns_value(left@, right@),
{
    textdistance::str::mlipns(left, right)
}

/// Pattern of what `textdistance::str::overlap` returns for two texts.
pub uninterp spec fn raw_overlap_value(left: Seq<char>, right: Seq<char>) -> u64;

/// Calls `textdistance::str::overlap` and gives the pattern of its result, which is
/// settled by the characters of the two texts.
#[verifier::external_body]
pub(crate) fn raw_overlap(left: &str, right: &str) -> (bits: u64)
    ensures
        bits == raw_overlap_value(left@, right@),
{
    textdistance::str::overlap(left, right).to_bits()
}

/// Calls `textdistance::str::prefix`, which returns the length of the longest common
/// prefix of the two texts.
#[verifier::external_body]
pub(crate) fn raw_prefix(left: &str, right: &str) -> (count: usize)
    ensures
        count == common_prefix_len(left@, right@),
{
    textdistance::str::prefix(left, right)
}

/// Pattern of what `textdistance::str::ratcliff_obershelp` returns for two texts.
pub uninterp spec fn raw_ratcliff_obershelp_value(left: Seq<char>, right: Seq<char>) -> u64;

/// Calls `textdistance::str::ratcliff_obershelp` and gives the pattern of its result,
/// which is settled by the characters of the two texts.
#[verifier::external_body]
pub(crate) fn raw_ratcliff_obershelp(left: &str, right: &str) -> (bits: u64)
    ensures
        bits == raw_ratcliff_obershelp_value(left@, right@),
{
    textdistance::str::ratcliff_obershelp(left, right).to_bits()
}

/// Calls `textdistance::str::roberts` and gives the pattern of its result. It adds up
/// fractions while it walks a hash map, in an order that differs from one run to the
/// next, so the last bits of the sum are not settled by the two texts: nothing is
/// claimed of the result. For each character it multiplies the sum of its two counts by
/// the smaller of them in `usize`: the texts must be short enough for that.
#[verifier::external_body]
pub(crate) fn raw_roberts(left: &str, right: &str) -> (bits: u64)
    requires
        weighted_product_fits(left@, right@),
{
    textdistance::str::roberts(left, right).to_bits()
}

/// What `textdistance::str::sift4_common` returns for two texts.
pub uninterp spec fn raw_sift4_common_value(left: Seq<char>, right: Seq<char>) -> usize;

/// Calls `textdistance::str::sift4_common`. The result is settled by the characters of
/// the two texts.
#[verifier::external_body]
pub(crate) fn raw_sift4_common(left: &str, right: &str) -> (count: usize)
    ensures
        count == raw_sift4_common_value(left@, right@),
{
    textdistance::str::sift4_common(left, right)
}

/// What `textdistance::str::sift4_simple` returns for two texts.
pub uninterp spec fn raw_sift4_simple_value(left: Seq<char>, right: Seq<char>) -> usize;

/// Calls `textdistance::str::sift4_simple`. The result is settled by the characters of
/// the two texts.
#[verifier::external_body]
pub(crate) fn raw_sift4_simple(left: &str, right: &str) -> (count: usize)
    ensures
        count == raw_sift4_simple_value(left@, right@),
{
    textdistance::str::sift4_simple(left, right)
}

/// Calls `textdistance::str::smith_waterman`, which returns the Smith-Waterman score in
/// the last cell of its table, with a gain of one for a match, none for a mismatch, and
/// a cost of one for a gap.
#[verifier::external_body]
pub(crate) fn raw_smith_waterman(left: &str, right: &str) -> (count: usize)
    ensures
        count == alignment_score(left@, right@),
{
    textdistance::str::smith_waterman(left, right)
}

/// Pattern of what `textdistance::str::sorensen_dice` returns for two texts.
pub uninterp spec fn raw_sorensen_dice_value(left: Seq<char>, right: Seq<char>) -> u64;

/// Calls `textdistance::str::sorensen_dice` and gives the pattern of its result, which
/// is settled by the characters of the two texts.
#[verifier::external_body]
pub(crate) fn raw_sorensen_dice(left: &str, right: &str) -> (bits: u64)
    ensures
        bits == raw_sorensen_dice_value(left@, right@),
{
    textdistance::str::sorensen_dice(left, right).to_bits()
}

/// Calls `textdistance::str::suffix`, which returns the length of the longest common
/// suffix of the two texts.
#[verifier::external_body]
pub(crate) fn raw_suffix(left: &str, right: &str) -> (count: usize)
    ensures
        count == common_suffix_len(left@, right@),
{
    textdistance::str::suffix(left, right)
}

/// Pattern of what `textdistance::str::tversky` returns for two texts.
pub uninterp spec fn raw_tversky_value(left: Seq<char>, right: Seq<char>) -> u64;

/// Calls `textdistance::str::tversky` and gives the pattern of its result, which is
/// settled by the characters of the two texts.
#[verifier::external_body]
pub(crate) fn raw_tversky(left: &str, right: &str) -> (bits: u64)
    ensures
        bits == raw_tversky_value(left@, right@),
{
    textdistance::str::tversky(left, right).to_bits()
}

/// Pattern of what `textdistance::str::yujian_bo` returns for two texts.
pub uninterp spec fn raw_yujian_bo_value(left: Seq<char>, right: Seq<char>) -> u64;

/// Calls `textdistance::str::yujian_bo` and gives the pattern of its result, which is
/// settled by the characters of the two texts. It adds the two lengths and the
/// Levenshtein distance in `usize`: the texts must be short enough for that.
#[verifier::external_body]
pub(crate) fn raw_yujian_bo(left: &str, right: &str) -> (bits: u64)
    requires
        triple_sum_fits(left@, right@),
    ensures
        bits == raw_yujian_bo_value(left@, right@),
{
    textdistance::str::yujian_bo(left, right).to_bits()
}

/// Pattern of what `textdistance::nstr::bag` returns for two texts.
pub uninterp spec fn normalized_bag_value(left: Seq<char>, right: Seq<char>) -> u64;

/// Calls `textdistance::nstr::bag` and gives the pattern of its result, which is
/// settled by the characters of the two texts.
#[verifier::external_body]
pub(crate) fn normalized_bag(left: &str, right: &str) -> (bits: u64)
    ensures
        bits == normalized_bag_value(left@, right@),
{
    textdistance::nstr::bag(left, right).to_bits()
}

/// Pattern of what `textdistance::nstr::cosine` returns for two texts.
pub uninterp spec fn normalized_cosine_value(left: Seq<char>, right: Seq<char>) -> u64;

/// Calls `textdistance::nstr::cosine` and gives the pattern of its result, which is
/// settled by the characters of the two texts. It multiplies the two lengths in
/// `usize`: the texts must be short enough for that.
#[verifier::external_body]
pub(crate) fn normalized_cosine(left: &str, right: &str) -> (bits: u64)
    requires
        product_fits(left@, right@),
    ensures
        bits == normalized_cosine_value(left@, right@),
{
    textdistance::nstr::cosine(left, right).to_bits()
}

/// Pattern of what `textdistance::nstr::damerau_levenshtein` returns for two texts.
pub uninterp spec fn normalized_damerau_levenshtein_value(left: Seq<char>, right: Seq<char>) -> u64;

/// Calls `textdistance::nstr::damerau_levenshtein` and gives the pattern of its result,
/// which is settled by the characters of the two texts.
#[verifier::external_body]
pub(crate) fn normalized_damerau_levenshtein(left: &str, right: &str) -> (bits: u64)
    ensures
        bits == normalized_damerau_levenshtein_value(left@, right@),
{
    textdistance::nstr::damerau_levenshtein(left, right).to_bits()
}

/// Calls `textdistance::nstr::entropy_ncd` and gives the pattern of its result. It adds
/// up fractions while it walks a hash map, in an order that differs from one run to the
/// next, so the last bits of the sum are not settled by the two texts: nothing is
/// claimed of the result.
#[verifier::external_body]
pub(crate) fn normalized_entropy_ncd(left: &str, right: &str) -> (bits: u64)
{
    textdistance::nstr::entropy_ncd(left, right).to_bits()
}

/// Pattern of what `textdistance::nstr::hamming` returns for two texts.
pub uninterp spec fn normalized_hamming_value(left: Seq<char>, right: Seq<char>) -> u64;

/// Calls `textdistance::nstr::hamming` and gives the pattern of its result, which is
/// settled by the characters of the two texts.
#[verifier::external_body]
pub(crate) fn normalized_hamming(left: &str, right: &str) -> (bits: u64)
    ensures
        bits == normalized_hamming_value(left@, right@),
{
    textdistance::nstr::hamming(left, right).to_bits()
}

/// Pattern of what `textdistance::nstr::jaccard` returns for two texts.
pub uninterp spec fn normalized_jaccard_value(left: Seq<char>, right: Seq<char>) -> u64;

/// Calls `textdistance::nstr::jaccard` and gives the pattern of its result, which is
/// settled by the characters of the two texts.
#[verifier::external_body]
pub(crate) fn normalized_jaccard(left: &str, right: &str) -> (bits: u64)
    ensures
        bits == normalized_jaccard_value(left@, right@),
{
    textdistance::nstr::jaccard(left, right).to_bits()
}

/// Pattern of what `textdistance::nstr::jaro` returns for two texts.
pub uninterp spec fn normalized_jaro_value(left: Seq<char>, right: Seq<char>) -> u64;

/// Calls `textdistance::nstr::jaro` and gives the pattern of its result, which is
/// settled by the characters of the two texts.
#[verifier::external_body]
pub(crate) fn normalized_jaro(left: &str, right: &str) -> (bits: u64)
    ensures
        bits == normalized_jaro_value(left@, right@),
{
    textdistance::nstr::jaro(left, right).to_bits()
}

/// Pattern of what `textdistance::nstr::jaro_winkler` returns for two texts.
pub uninterp spec fn normalized_jaro_winkler_value(left: Seq<char>, right: Seq<char>) -> u64;

/// Calls `textdistance::nstr::jaro_winkler` and gives the pattern of its result, which
/// is settled by the characters of the two texts. The crate documents the measure as
/// lying between zero and one: it starts from a mean of three fractions that are each
/// at most one, and moves it towards one by at most four tenths of what is missing.
#[verifier::external_body]
pub(crate) fn normalized_jaro_winkler(left: &str, right: &str) -> (bits: u64)
    ensures
        bits == normalized_jaro_winkler_value(left@, right@),
        in_unit_interval(bits),
{
    textdistance::nstr::jaro_winkler(left, right).to_bits()
}

/// Pattern of what `textdistance::nstr::levenshtein` returns for two texts.
pub uninterp spec fn normalized_levenshtein_value(left: Seq<char>, right: Seq<char>) -> u64;

/// Calls `textdistance::nstr::levenshtein` and gives the pattern of its result, which
/// is settled by the characters of the two texts.
#[verifier::external_body]
pub(crate) fn normalized_levenshtein(left: &str, right: &str) -> (bits: u64)
    ensures
        bits == normalized_levenshtein_value(left@, right@),
{
    textdistance::nstr::levenshtein(left, right).to_bits()
}

/// Pattern of what `textdistance::nstr::lcsseq` returns for two texts.
pub uninterp spec fn normalized_longest_common_subsequence_value(
    left: Seq<char>,
    right: Seq<char>,
) -> u64;

/// Calls `textdistance::nstr::lcsseq` and gives the pattern of its result, which is
/// settled by the characters of the two texts.
#[verifier::external_body]
pub(crate) fn normalized_longest_common_subsequence(left: &str, right: &str) -> (bits: u64)
    ensures
        bits == normalized_longest_common_subsequence_value(left@, right@),
{
    textdistance::nstr::lcsseq(left, right).to_bits()
}

/// Pattern of what `textdistance::nstr::lcsstr` returns for two texts.
pub uninterp spec fn normalized_longest_common_substring_value(
    left: Seq<char>,
    right: Seq<char>,
) -> u64;

/// Calls `textdistance::nstr::lcsstr` and gives the pattern of its result, which is
/// settled by the characters of the two texts.
#[verifier::external_body]
pub(crate) fn normalized_longest_common_substring(left: &str, right: &str) -> (bits: u64)
    ensures
        bits == normalized_longest_common_substring_value(left@, right@),
{
    textdistance::nstr::lcsstr(left, right).to_bits()
}

/// Pattern of what `textdistance::nstr::length` returns for two texts.
pub uninterp spec fn normalized_length_value(left: Seq<char>, right: Seq<char>) -> u64;

/// Calls `textdistance::nstr::length` and gives the pattern of its result, which is
/// settled by the characters of the two texts.
#[verifier::external_body]
pub(crate) fn normalized_length(left: &str, right: &str) -> (bits: u64)
    ensures
        bits == normalized_length_value(left@, right@),
{
    textdistance::nstr::length(left, right).to_bits()
}

/// Pattern of what `textdistance::nstr::lig3` returns for two texts.
pub uninterp spec fn normalized_lig3_value(left: Seq<char>, right: Seq<char>) -> u64;

/// Calls `textdistance::nstr::lig3` and gives the pattern of its result, which is
/// settled by the characters of the two texts. It adds twice the number of equal
/// positions and the Levenshtein distance in `usize`: the texts must be short enough
/// for that.
#[verifier::external_body]
pub(crate) fn normalized_lig3(left: &str, right: &str) -> (bits: u64)
    requires
        triple_sum_fits(left@, right@),
    ensures
        bits == normalized_lig3_value(left@, right@),
{
    textdistance::nstr::lig3(left, right).to_bits()
}

/// Pattern of what `textdistance::nstr::mlipns` returns for two texts.
pub uninterp spec fn normalized_mlipns_value(left: Seq<char>, right: Seq<char>) -> u64;

/// Calls `textdistance::nstr::mlipns` and gives the pattern of its result, which is
/// settled by the characters of the two texts.
#[verifier::external_body]
pub(crate) fn normalized_mlipns(left: &str, right: &str) -> (bits: u64)
    ensures
        bits == normalized_mlipns_value(left@, right@),
{
    textdistance::nstr::mlipns(left, right).to_bits()
}

/// Pattern of what `textdistance::nstr::overlap` returns for two texts.
pub uninterp spec fn normalized_overlap_value(left: Seq<char>, right: Seq<char>) -> u64;

/// Calls `textdistance::nstr::overlap` and gives the pattern of its result, which is
/// settled by the characters of the two texts.
#[verifier::external_body]
pub(crate) fn normalized_overlap(left: &str, right: &str) -> (bits: u64)
    ensures
        bits == normalized_overlap_value(left@, right@),
{
    textdistance::nstr::overlap(left, right).to_bits()
}

/// Pattern of what `textdistance::nstr::prefix` returns for two texts.
pub uninterp spec fn normalized_prefix_value(left: Seq<char>, right: Seq<char>) -> u64;

/// Calls `textdistance::nstr::prefix` and gives the pattern of its result, which is
/// settled by the characters of the two texts.
#[verifier::external_body]
pub(crate) fn normalized_prefix(left: &str, right: &str) -> (bits: u64)
    ensures
        bits == normalized_prefix_value(left@, right@),
{
    textdistance::nstr::prefix(left, right).to_bits()
}

/// Pattern of what `textdistance::nstr::ratcliff_obershelp` returns for two texts.
pub uninterp spec fn normalized_ratcliff_obershelp_value(left: Seq<char>, right: Seq<char>) -> u64;

/// Calls `textdistance::nstr::ratcliff_obershelp` and gives the pattern of its result,
/// which is settled by the characters of the two texts.
#[verifier::external_body]
pub(crate) fn normalized_ratcliff_obershelp(left: &str, right: &str) -> (bits: u64)
    ensures
        bits == normalized_ratcliff_obershelp_value(left@, right@),
{
    textdistance::nstr::ratcliff_obershelp(left, right).to_bits()
}

/// Calls `textdistance::nstr::roberts` and gives the pattern of its result. It adds up
/// fractions while it walks a hash map, in an order that differs from one run to the
/// next, so the last bits of the sum are not settled by the two texts: nothing is
/// claimed of the result. For each character it multiplies the sum of its two counts by
/// the smaller of them in `usize`: the texts must be short enough for that.
#[verifier::external_body]
pub(crate) fn normalized_roberts(left: &str, right: &str) -> (bits: u64)
    requires
        weighted_product_fits(left@, right@),
{
    textdistance::nstr::roberts(left, right).to_bits()
}

/// Pattern of what `textdistance::nstr::sift4_common` returns for two texts.
pub uninterp spec fn normalized_sift4_common_value(left: Seq<char>, right: Seq<char>) -> u64;

/// Calls `textdistance::nstr::sift4_common` and gives the pattern of its result, which
/// is settled by the characters of the two texts.
#[verifier::external_body]
pub(crate) fn normalized_sift4_common(left: &str, right: &str) -> (bits: u64)
    ensures
        bits == normalized_sift4_common_value(left@, right@),
{
    textdistance::nstr::sift4_common(left, right).to_bits()
}

/// Pattern of what `textdistance::nstr::sift4_simple` returns for two texts.
pub uninterp spec fn normalized_sift4_simple_value(left: Seq<char>, right: Seq<char>) -> u64;

/// Calls `textdistance::nstr::sift4_simple` and gives the pattern of its result, which
/// is settled by the characters of the two texts.
#[verifier::external_body]
pub(crate) fn normalized_sift4_simple(left: &str, right: &str) -> (bits: u64)
    ensures
        bits == normalized_sift4_simple_value(left@, right@),
{
    textdistance::nstr::sift4_simple(left, right).to_bits()
}

/// Pattern of what `textdistance::nstr::smith_waterman` returns for two texts.
pub uninterp spec fn normalized_smith_waterman_value(left: Seq<char>, right: Seq<char>) -> u64;

/// Calls `textdistance::nstr::smith_waterman` and gives the pattern of its result,
/// which is settled by the characters of the two texts.
#[verifier::external_body]
pub(crate) fn normalized_smith_waterman(left: &str, right: &str) -> (bits: u64)
    ensures
        bits == normalized_smith_waterman_value(left@, right@),
{
    textdistance::nstr::smith_waterman(left, right).to_bits()
}

/// Pattern of what `textdistance::nstr::sorensen_dice` returns for two texts.
pub uninterp spec fn normalized_sorensen_dice_value(left: Seq<char>, right: Seq<char>) -> u64;

/// Calls `textdistance::nstr::sorensen_dice` and gives the pattern of its result, which
/// is settled by the characters of the two texts.
#[verifier::external_body]
pub(crate) fn normalized_sorensen_dice(left: &str, right: &str) -> (bits: u64)
    ensures
        bits == normalized_sorensen_dice_value(left@, right@),
{
    textdistance::nstr::sorensen_dice(left, right).to_bits()
}

/// Pattern of what `textdistance::nstr::suffix` returns for two texts.
pub uninterp spec fn normalized_suffix_value(left: Seq<char>, right: Seq<char>) -> u64;

/// Calls `textdistance::nstr::suffix` and gives the pattern of its result, which is
/// settled by the characters of the two texts.
#[verifier::external_body]
pub(crate) fn normalized_suffix(left: &str, right: &str) -> (bits: u64)
    ensures
        bits == normalized_suffix_value(left@, right@),
{
    textdistance::nstr::suffix(left, right).to_bits()
}

/// Pattern of what `textdistance::nstr::tversky` returns for two texts.
pub uninterp spec fn normalized_tversky_value(left: Seq<char>, right: Seq<char>) -> u64;

/// Calls `textdistance::nstr::tversky` and gives the pattern of its result, which is
/// settled by the characters of the two texts.
#[verifier::external_body]
pub(crate) fn normalized_tversky(left: &str, right: &str) -> (bits: u64)
    ensures
        bits == normalized_tversky_value(left@, right@),
{
    textdistance::nstr::tversky(left, right).to_bits()
}

/// Pattern of what `textdistance::nstr::yujian_bo` returns for two texts.
pub uninterp spec fn normalized_yujian_bo_value(left: Seq<char>, right: Seq<char>) -> u64;

/// Calls `textdistance::nstr::yujian_bo` and gives the pattern of its result, which is
/// settled by the characters of the two texts. It adds the two lengths and the
/// Levenshtein distance in `usize`: the texts must be short enough for that.
#[verifier::external_body]
pub(crate) fn normalized_yujian_bo(left: &str, right: &str) -> (bits: u64)
    requires
        triple_sum_fits(left@, right@),
    ensures
        bits == normalized_yujian_bo_value(left@, right@),
{
    textdistance::nstr::yujian_bo(left, right).to_bits()
}

} // verus!
