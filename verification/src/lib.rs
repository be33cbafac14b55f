//! Similarity and distance scores between two texts, by any of a fixed catalog of
//! twenty-five algorithms.
//!
//! The algorithms themselves are those of the `textdistance` crate. This library
//! holds what stands around them: the catalog with its names and aliases, the
//! resolution of a name to an algorithm, the choice between the raw and the
//! normalized form, the report of every algorithm at once, and the rule by which
//! a score is reported as an integer or as a fraction.
//!
//! - [`catalog`]: the algorithms, their names and their order.
//! - [`resolver`]: from an identifier to an algorithm.
//! - [`measure`]: what the simple measures are, as functions of two texts.
//! - [`metrics`]: the calls into `textdistance`.
//! - [`dispatch`]: from an algorithm and two texts to a score.
//! - [`double`]: double-precision numbers as 64-bit patterns.
//! - [`score`]: scores, and results as they are reported.
//! - [`engine`]: the result of one algorithm, the report of all.
//! - [`command`]: the `str similarity` command on plain values.

pub mod catalog;
pub mod command;
pub mod dispatch;
pub mod double;
pub mod engine;
pub mod measure;
pub mod metrics;
pub mod resolver;
pub mod score;

pub use catalog::{list_algorithms, AlgorithmId, CatalogEntry};
pub use command::{Invocation, Outcome, Rejection, StrSimilarity};
pub use dispatch::compute;
pub use engine::{compare_strings, compute_all, compute_one, ReportRow};
pub use resolver::resolve;
pub use score::{coerce, ComputationResult, Score};
