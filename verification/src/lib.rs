//! A fluent assertion library: a value under test is wrapped in a
//! [`subject::Subject`] and checked with matcher methods that either pass or
//! hand back a structured [`failure::AssertionFailure`] describing what was
//! expected and what was actually found.
//!
//! The heart of the crate is the iterable containment and ordering engine in
//! [`iter`]: single-value membership, greedy multi-value assignment,
//! order-sensitive sequence comparison, and predicate / mapping searches, each
//! with a contract that pins down both the verdict and the diagnostic text.

pub mod booleans;
pub mod describe;
pub mod failure;
pub mod hash_sets;
pub mod iter;
pub mod json;
pub mod laws;
pub mod paths;
pub mod results;
pub mod strings;
pub mod subject;
pub mod text;
pub mod vecs;
