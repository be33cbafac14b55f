//! The `str similarity` command: what one invocation asks for, and what it is
//! answered with.
//!
//! The host reads the arguments and the pipeline input and hands them over as
//! plain values; it turns the answer into values of its own.

use vstd::prelude::*;
use vstd::string::StringExecFns;
use crate::catalog::{is_listing, list_algorithms, CatalogEntry};
use crate::engine::{
    all_support,
    all_supported,
    compare_strings,
    compute_all,
    is_report_of,
    is_result_of,
    ReportRow,
};
use crate::resolver::{resolve, resolve_spec};
use crate::score::ComputationResult;

verus! {

/// The command's engine. It holds no state.
#[derive(Clone, Copy, Debug, PartialEq, Eq, Structural)]
pub struct StrSimilarity {}

/// One invocation of the command.
#[derive(Debug)]
pub struct Invocation {
    /// The text to compare with: the positional argument, where one was given.
    pub compare_to: Option<String>,
    /// Whether normalized scores are asked for.
    pub normalize: bool,
    /// Whether the catalog is asked for.
    pub list: bool,
    /// The algorithm asked for, by canonical name or alias.
    pub algorithm: Option<String>,
    /// Whether every algorithm is asked for.
    pub all: bool,
    /// The pipeline input, where it is text.
    pub input: Option<String>,
}

/// The answer to an invocation.
#[derive(Debug)]
pub enum Outcome {
    /// The catalog.
    Algorithms(Vec<CatalogEntry>),
    /// The result of every algorithm.
    Report(Vec<ReportRow>),
    /// The result of one algorithm.
    Single(ComputationResult),
}

/// Why an invocation is refused.
#[derive(Clone, Copy, Debug, PartialEq, Eq, Structural)]
pub enum Rejection {
    /// No text to compare with was given.
    MissingArgument,
    /// The pipeline input is not text.
    InputNotText,
}

impl Invocation {
    /// The identifier that selects the algorithm: the one asked for, and the
    /// canonical name of Levenshtein where none was.
    pub open spec fn identifier(self) -> Seq<char> {
        match self.algorithm {
            Some(name) => name@,
            None => "levenshtein"@,
        }
    }

    /// The invocation compares two texts.
    pub open spec fn compares(self) -> bool {
        self.compare_to is Some && !self.list && self.input is Some
    }

    /// The texts are short enough for what the invocation asks.
    pub open spec fn spec_within_limits(self) -> bool {
        self.compares() ==> {
            let left = self.input->0@;
            let right = self.compare_to->0@;
            if self.all {
                all_support(left, right)
            } else {
                resolve_spec(self.identifier()).spec_supports(left, right)
            }
        }
    }

    /// `answer` is what the invocation is owed. A missing argument is refused
    /// first; the catalog is listed whatever the input is; a comparison takes the
    /// pipeline input as its first text and the argument as its second.
    pub open spec fn answered_by(self, answer: Result<Outcome, Rejection>) -> bool {
        if self.compare_to is None {
            answer == Err::<Outcome, Rejection>(Rejection::MissingArgument)
        } else if self.list {
            answer matches Ok(Outcome::Algorithms(rows)) && is_listing(rows@)
        } else if self.input is None {
            answer == Err::<Outcome, Rejection>(Rejection::InputNotText)
        } else if self.all {
            answer matches Ok(Outcome::Report(rows)) && is_report_of(
                rows@,
                self.input->0@,
                self.compare_to->0@,
                self.normalize,
            )
        } else {
            answer matches Ok(Outcome::Single(result)) && is_result_of(
                result,
                resolve_spec(self.identifier()),
                self.input->0@,
                self.compare_to->0@,
                self.normalize,
            )
        }
    }
}

impl Invocation {
    /// Whether the texts are short enough for what the invocation asks.
    pub fn within_limits(&self) -> (ok: bool)
        ensures
            ok == self.spec_within_limits(),
    {
        match (&self.compare_to, &self.input) {
            (Some(compare_to), Some(input)) => {
                if self.list {
                    true
                } else if self.all {
                    all_supported(input.as_str(), compare_to.as_str())
                } else {
                    let id = match &self.algorithm {
                        Some(algorithm) => resolve(algorithm.as_str()),
                        None => resolve("levenshtein"),
                    };
                    id.supports(input.as_str(), compare_to.as_str())
                }
            },
            _ => true,
        }
    }
}

impl StrSimilarity {
    /// The command's engine.
    pub fn new() -> (engine: Self)
        ensures
            engine == (StrSimilarity {  }),
    {
        StrSimilarity {  }
    }

    /// Answers one invocation of the command `str similarity`.
    pub fn run(&self, name: &str, call: &Invocation) -> (answer: Result<Outcome, Rejection>)
        requires
            name@ == "str similarity"@,
            call.spec_within_limits(),
        ensures
            call.answered_by(answer),
    {
        let compare_to = match &call.compare_to {
            Some(text) => text,
            None => {
                return Err(Rejection::MissingArgument);
            },
        };
        if call.list {
            return Ok(Outcome::Algorithms(list_algorithms()));
        }
        match &call.input {
            Some(input) => {
                if call.all {
                    let rows = compute_all(input.as_str(), compare_to.as_str(), call.normalize);
                    Ok(Outcome::Report(rows))
                } else {
                    let result = match &call.algorithm {
                        Some(algorithm) => compare_strings(
                            algorithm.as_str(),
                            compare_to.as_str(),
                            call.normalize,
                            input.as_str(),
                        ),
                        None => compare_strings(
                            "levenshtein",
                            compare_to.as_str(),
                            call.normalize,
                            input.as_str(),
                        ),
                    };
                    Ok(Outcome::Single(result))
                }
            },
            None => Err(Rejection::InputNotText),
        }
    }
}

/// The sentence that describes a comparison.
pub open spec fn comparison_sentence(
    compare_to: Seq<char>,
    normalize: bool,
    input: Seq<char>,
) -> Seq<char> {
    "Comparing "@ + input + " to "@ + compare_to + if normalize {
        " with norm true"@
    } else {
        " with normalize false"@
    }
}

/// Describes a comparison in words: which text is compared to which, and whether
/// the score is normalized.
pub fn str_similarity_do_something(
    compare_to: &str,
    normalize: bool,
    input_val: &str,
) -> (sentence: String)
    ensures
        sentence@ == comparison_sentence(compare_to@, normalize, input_val@),
{
    let mut sentence = String::from_str("Comparing ");
    sentence.append(input_val);
    sentence.append(" to ");
    sentence.append(compare_to);
    if normalize {
        sentence.append(" with norm true");
    } else {
        sentence.append(" with normalize false");
    }
    sentence
}

} // verus!
