//! The operations of the library: the score of one algorithm chosen by name, and
//! the report of every algorithm of the catalog.

use vstd::prelude::*;
use crate::catalog::{catalog, AlgorithmId, CATALOG_LEN};
use crate::dispatch::{compute, score_of};
use crate::measure::{
    lemma_levenshtein_one_deletion,
    lemma_levenshtein_same,
    lemma_levenshtein_symmetric,
};
use crate::resolver::{lemma_resolve_finds, lookup_spec, lowercase, resolve, resolve_spec};
use crate::score::{coerce, lemma_reported_in_unit_interval, reported, ComputationResult, Score};

verus! {

/// One line of a report: an algorithm by its canonical name, and its result.
#[derive(Clone, Copy, Debug, PartialEq, Eq)]
pub struct ReportRow {
    pub algorithm: &'static str,
    pub distance: ComputationResult,
}

/// The result that the texts settle for an algorithm: its score as it is
/// reported, and none where the algorithm is not repeatable.
pub open spec fn result_of(
    id: AlgorithmId,
    left: Seq<char>,
    right: Seq<char>,
    normalize: bool,
) -> Option<ComputationResult> {
    match score_of(id, left, right, normalize) {
        Some(score) => Some(reported(score)),
        None => None,
    }
}

/// `result` is a result of the algorithm for the two texts. It is the one that
/// the texts settle, where they settle one; a fractional result holds no whole
/// number; the normalized Jaro-Winkler similarity lies between zero and one.
pub open spec fn is_result_of(
    result: ComputationResult,
    id: AlgorithmId,
    left: Seq<char>,
    right: Seq<char>,
    normalize: bool,
) -> bool {
    &&& result.wf()
    &&& result_of(id, left, right, normalize) matches Some(settled) ==> result == settled
    &&& id == AlgorithmId::JaroWinkler && normalize ==> result.in_unit_interval()
}

/// `rows` is a report for the two texts: one line for each algorithm, in catalog
/// order, under its canonical name.
pub open spec fn is_report_of(
    rows: Seq<ReportRow>,
    left: Seq<char>,
    right: Seq<char>,
    normalize: bool,
) -> bool {
    &&& rows.len() == CATALOG_LEN
    &&& forall|i: int|
        0 <= i < CATALOG_LEN ==> {
            &&& (#[trigger] rows[i]).algorithm@ == catalog()[i].spec_canonical_name()
            &&& is_result_of(rows[i].distance, catalog()[i], left, right, normalize)
        }
}

/// Every algorithm of the catalog takes the two texts.
pub open spec fn all_support(left: Seq<char>, right: Seq<char>) -> bool {
    forall|id: AlgorithmId| #[trigger] id.spec_supports(left, right)
}

/// Texts of fewer than 32768 characters are short enough for every algorithm, on
/// any machine.
pub proof fn lemma_short_texts_supported(left: Seq<char>, right: Seq<char>)
    requires
        left.len() < 0x8000,
        right.len() < 0x8000,
    ensures
        all_support(left, right),
{
    let l = left.len() as int;
    let r = right.len() as int;
    assert(l * r <= 0x8000 * 0x8000) by (nonlinear_arith)
        requires
            0 <= l < 0x8000,
            0 <= r < 0x8000,
    ;
    let least = if l <= r {
        l
    } else {
        r
    };
    assert((l + r) * least <= 0x10000 * 0x8000) by (nonlinear_arith)
        requires
            0 <= l + r < 0x10000,
            0 <= least < 0x8000,
    ;
    assert forall|id: AlgorithmId| #[trigger] id.spec_supports(left, right) by {}
}

/// The raw Levenshtein result of a text and itself is the integer zero, under
/// the canonical name and under the alias.
pub proof fn lemma_levenshtein_of_same_text(s: Seq<char>)
    ensures
        result_of(resolve_spec("levenshtein"@), s, s, false) == Some(
            ComputationResult::Integer(0),
        ),
        result_of(resolve_spec("lev"@), s, s, false) == Some(ComputationResult::Integer(0)),
{
    lemma_resolve_finds(AlgorithmId::Levenshtein);
    lemma_levenshtein_same(s);
}

/// The raw Levenshtein result of a text and the text without one of its characters
/// is the integer one.
pub proof fn lemma_levenshtein_of_one_deletion(s: Seq<char>, i: int)
    requires
        0 <= i < s.len(),
    ensures
        result_of(resolve_spec("levenshtein"@), s, s.remove(i), false) == Some(
            ComputationResult::Integer(1),
        ),
{
    lemma_resolve_finds(AlgorithmId::Levenshtein);
    lemma_levenshtein_one_deletion(s, i);
}

/// The raw Levenshtein result does not depend on the order of the two texts.
pub proof fn lemma_levenshtein_either_order(s: Seq<char>, t: Seq<char>)
    ensures
        result_of(resolve_spec("levenshtein"@), s, t, false) == result_of(
            resolve_spec("levenshtein"@),
            t,
            s,
            false,
        ),
{
    lemma_resolve_finds(AlgorithmId::Levenshtein);
    lemma_levenshtein_symmetric(s, t);
}

/// An alias gives the result that the canonical name gives.
pub proof fn lemma_alias_same_result(
    id: AlgorithmId,
    left: Seq<char>,
    right: Seq<char>,
    normalize: bool,
)
    ensures
        result_of(resolve_spec(id.spec_alias()), left, right, normalize) == result_of(
            resolve_spec(id.spec_canonical_name()),
            left,
            right,
            normalize,
        ),
{
    lemma_resolve_finds(id);
}

/// An identifier that names no algorithm gives the result that `levenshtein`
/// gives.
pub proof fn lemma_unknown_identifier(
    identifier: Seq<char>,
    left: Seq<char>,
    right: Seq<char>,
    normalize: bool,
)
    requires
        lookup_spec(lowercase(identifier)) is None,
    ensures
        result_of(resolve_spec(identifier), left, right, normalize) == result_of(
            resolve_spec("levenshtein"@),
            left,
            right,
            normalize,
        ),
{
    lemma_resolve_finds(AlgorithmId::Levenshtein);
}

/// Each line of a report holds a result of the algorithm that its name selects.
pub proof fn lemma_report_line(
    rows: Seq<ReportRow>,
    left: Seq<char>,
    right: Seq<char>,
    normalize: bool,
    i: int,
)
    requires
        is_report_of(rows, left, right, normalize),
        0 <= i < CATALOG_LEN,
    ensures
        is_result_of(rows[i].distance, resolve_spec(rows[i].algorithm@), left, right, normalize),
{
    lemma_resolve_finds(catalog()[i]);
}

/// Reports the score of one algorithm.
fn report(
    id: AlgorithmId,
    left: &str,
    right: &str,
    normalize: bool,
) -> (result: ComputationResult)
    requires
        id.spec_supports(left@, right@),
    ensures
        is_result_of(result, id, left@, right@, normalize),
{
    let score = compute(id, left, right, normalize);
    proof {
        if let Score::Double(bits) = score {
            if id == AlgorithmId::JaroWinkler && normalize {
                lemma_reported_in_unit_interval(bits);
            }
        }
    }
    coerce(score)
}

/// Computes the result of the algorithm that `identifier` selects: the one whose
/// canonical name or alias it is, whatever its letter case, and Levenshtein where
/// it is neither.
pub fn compute_one(
    identifier: &str,
    left: &str,
    right: &str,
    normalize: bool,
) -> (result: ComputationResult)
    requires
        resolve_spec(identifier@).spec_supports(left@, right@),
    ensures
        is_result_of(result, resolve_spec(identifier@), left@, right@, normalize),
{
    let id = resolve(identifier);
    report(id, left, right, normalize)
}

/// Compares the input text with `compare_to` by the algorithm that `sim_algo`
/// selects. The input is the first text of the comparison.
pub fn compare_strings(
    sim_algo: &str,
    compare_to: &str,
    normalize: bool,
    input_val: &str,
) -> (result: ComputationResult)
    requires
        resolve_spec(sim_algo@).spec_supports(input_val@, compare_to@),
    ensures
        is_result_of(result, resolve_spec(sim_algo@), input_val@, compare_to@, normalize),
{
    compute_one(sim_algo, input_val, compare_to, normalize)
}

/// Computes the result of every algorithm of the catalog for the same two texts.
pub fn compute_all(left: &str, right: &str, normalize: bool) -> (rows: Vec<ReportRow>)
    requires
        all_support(left@, right@),
    ensures
        is_report_of(rows@, left@, right@, normalize),
{
    let mut rows: Vec<ReportRow> = Vec::new();
    let mut i: usize = 0;
    while i < CATALOG_LEN
        invariant
            i <= CATALOG_LEN,
            all_support(left@, right@),
            rows@.len() == i,
            forall|j: int|
                0 <= j < i ==> {
                    &&& (#[trigger] rows@[j]).algorithm@ == catalog()[j].spec_canonical_name()
                    &&& is_result_of(rows@[j].distance, catalog()[j], left@, right@, normalize)
                },
        decreases CATALOG_LEN - i,
    {
        let id = AlgorithmId::at(i);
        let distance = report(id, left, right, normalize);
        rows.push(ReportRow { algorithm: id.canonical_name(), distance });
        i = i + 1;
    }
    rows
}

/// Whether every algorithm of the catalog takes the two texts.
pub fn all_supported(left: &str, right: &str) -> (ok: bool)
    ensures
        ok == all_support(left@, right@),
{
    let ok = AlgorithmId::Cosine.supports(left, right)
        && AlgorithmId::Roberts.supports(left, right)
        && AlgorithmId::YujianBo.supports(left, right);
    proof {
        if ok {
            assert forall|id: AlgorithmId| #[trigger] id.spec_supports(left@, right@) by {}
        }
    }
    ok
}

} // verus!
