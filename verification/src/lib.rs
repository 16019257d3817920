//! Scores the functions of a JavaScript or TypeScript module by structural
//! complexity, to find the ones that are worth moving to WebAssembly.
//!
//! A module comes as a syntax tree (`syntax`). The locator
//! (`extract_functions`) finds its functions, the visitor (`visitor`, with
//! `cyclomatic_complexity`, `loop_analysis` and `string_counter`) counts
//! branches, loop depth, arithmetic and string operations of each function by
//! itself, the scoring engine (`scoring`, `max_scores`) turns the counts into
//! a score between 0 and 10, and the reporter (`report`) writes up the
//! functions whose score is above the threshold. `analytics` runs the whole
//! pipeline. What the counts of a piece of syntax are is defined in `tally`;
//! `text` deals with white space in UTF-8 text.

pub mod analytics;
pub mod cyclomatic_complexity;
pub mod extract_functions;
pub mod function_like;
pub mod loop_analysis;
pub mod max_scores;
pub mod metrics;
pub mod report;
pub mod scoring;
pub mod string_counter;
pub mod syntax;
pub mod tally;
pub mod text;
pub mod visitor;
