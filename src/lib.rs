//! Recognizes the compact conditional `condition ? then : else` in Rust
//! source text and rewrites it into `if condition { then } else { else }`.
//!
//! Sub-expressions are found by asking syn's expression grammar, which the
//! library treats as a black box: at each position the recognizer takes the
//! longest stretch of text that syn accepts as an expression.

pub mod host;
pub mod grammar;
pub mod recognizer;
pub mod rewrite;
pub mod laws;

pub use grammar::{Slot, SyntaxError, TernaryForm};
pub use recognizer::{longest_expression, SourceCursor};
pub use rewrite::{emit_conditional, i, ExpandError};
