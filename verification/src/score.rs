//! Scores as the algorithms give them, and results as they are reported.
//!
//! An algorithm gives either a count or a double-precision number. A result is
//! reported as an integer where the score has no fractional part, and as the
//! number itself where it has one.

use vstd::prelude::*;
use crate::double::{
    in_unit_interval,
    is_whole,
    lemma_unit_interval,
    saturate,
    to_whole,
    whole_value,
};

verus! {

/// What an algorithm computes for two texts.
#[derive(Clone, Copy, Debug, PartialEq, Eq, Structural)]
pub enum Score {
    /// A count: of edits, of characters, of positions.
    Count(usize),
    /// A double-precision number, as its 64-bit pattern.
    Double(u64),
}

/// A score as it is reported.
#[derive(Clone, Copy, Debug, PartialEq, Eq, Structural)]
pub enum ComputationResult {
    /// The score was a whole number: this integer.
    Integer(i64),
    /// The score had a fractional part: the pattern of the number, unchanged.
    Fractional(u64),
}

impl ComputationResult {
    /// A fractional result holds no whole number.
    pub open spec fn wf(self) -> bool {
        self matches ComputationResult::Fractional(bits) ==> !is_whole(bits)
    }

    /// The result lies between zero and one.
    pub open spec fn in_unit_interval(self) -> bool {
        match self {
            ComputationResult::Integer(v) => v == 0 || v == 1,
            ComputationResult::Fractional(bits) => in_unit_interval(bits),
        }
    }
}

/// The way a score is reported.
pub open spec fn reported(score: Score) -> ComputationResult {
    match score {
        Score::Count(n) => ComputationResult::Integer(saturate(n as int)),
        Score::Double(bits) => if is_whole(bits) {
            ComputationResult::Integer(saturate(whole_value(bits)))
        } else {
            ComputationResult::Fractional(bits)
        },
    }
}

/// A score without fractional part is reported as the integer that it is, as long
/// as `i64` holds that integer; a score with a fractional part is reported as
/// itself.
pub proof fn lemma_reported(score: Score)
    ensures
        reported(score).wf(),
        score matches Score::Count(n) ==> n <= i64::MAX ==> reported(score)
            == ComputationResult::Integer(n as i64),
        score matches Score::Double(bits) ==> is_whole(bits) ==> i64::MIN <= whole_value(bits)
            <= i64::MAX ==> reported(score) == ComputationResult::Integer(
            whole_value(bits) as i64,
        ),
        score matches Score::Double(bits) ==> !is_whole(bits) ==> reported(score)
            == ComputationResult::Fractional(bits),
{
}

/// A number between zero and one is reported between zero and one.
pub proof fn lemma_reported_in_unit_interval(bits: u64)
    requires
        in_unit_interval(bits),
    ensures
        reported(Score::Double(bits)).in_unit_interval(),
{
    lemma_unit_interval(bits);
}

/// Reports a score: as an integer where it has no fractional part, unchanged
/// where it has one.
pub fn coerce(score: Score) -> (result: ComputationResult)
    ensures
        result == reported(score),
        result.wf(),
{
    match score {
        Score::Count(n) => {
            if n as u64 <= 0x7fff_ffff_ffff_ffff {
                ComputationResult::Integer(n as i64)
            } else {
                ComputationResult::Integer(i64::MAX)
            }
        },
        Score::Double(bits) => {
            match to_whole(bits) {
                Some(v) => ComputationResult::Integer(v),
                None => ComputationResult::Fractional(bits),
            }
        },
    }
}

} // verus!
