//! Rewriting a recognized conditional into an `if` expression.
use vstd::prelude::*;
use crate::grammar::{recognize, Slot, SyntaxError, TernaryForm};
use crate::recognizer::SourceCursor;

verus! {

/// Why a whole input could not be rewritten.
#[derive(Clone, Copy, Debug, PartialEq, Eq, Structural)]
pub enum ExpandError {
    /// The conditional itself did not match.
    Syntax(SyntaxError),
    /// A conditional was recognized, but text is left from offset `at` on.
    TrailingInput { at: usize },
}

/// The text `if c { t } else { e }`. Each closing brace starts a line of its
/// own, so that a line comment ending a branch cannot swallow it.
pub open spec fn conditional_text(c: Seq<char>, t: Seq<char>, e: Seq<char>) -> Seq<char> {
    "if "@ + c + " {"@ + t + "\n} else {"@ + e + "\n}"@
}

/// Emits the `if` expression that evaluates the condition and then exactly
/// one of the two branches.
pub fn emit_conditional(form: TernaryForm) -> (r: String)
    ensures
        r@ == conditional_text(form.condition@, form.then_branch@, form.else_branch@),
{
    let mut out = String::from_str("if ");
    out.append(form.condition.as_str());
    out.append(" {");
    out.append(form.then_branch.as_str());
    out.append("\n} else {");
    out.append(form.else_branch.as_str());
    out.append("\n}");
    out
}

/// Rewrites `input`, which must consist of one conditional and nothing
/// more, into the equivalent `if` expression.
pub fn i(input: &str) -> (r: Result<String, ExpandError>)
    ensures
        match recognize(input@, 0) {
            Ok((c, t, e, end)) => if end == input@.len() {
                r is Ok && r->Ok_0@ == conditional_text(c, t, e)
            } else {
                r == Err::<String, ExpandError>(ExpandError::TrailingInput { at: end as usize })
            },
            Err(err) => r == Err::<String, ExpandError>(ExpandError::Syntax(err)),
        },
{
    let mut cursor = SourceCursor::new(input);
    match cursor.parse() {
        Err(err) => Err(ExpandError::Syntax(err)),
        Ok(form) => {
            if cursor.at_end() {
                Ok(emit_conditional(form))
            } else {
                Err(ExpandError::TrailingInput { at: cursor.pos })
            }
        },
    }
}

/// The diagnostic text for a syntax error.
pub open spec fn error_message(err: SyntaxError) -> Seq<char> {
    match err {
        SyntaxError::MissingExpression { slot, .. } => match slot {
            Slot::Condition => "expected condition expression"@,
            Slot::ThenBranch => "expected then-branch expression"@,
            Slot::ElseBranch => "expected else-branch expression"@,
        },
        SyntaxError::MissingSeparator { separator, .. } => if separator == '?' {
            "expected '?' after condition"@
        } else {
            "expected ':' after then-branch"@
        },
    }
}

impl SyntaxError {
    /// The diagnostic text for this error.
    pub fn message(&self) -> (r: String)
        ensures
            r@ == error_message(*self),
    {
        match self {
            SyntaxError::MissingExpression { slot, .. } => match slot {
                Slot::Condition => String::from_str("expected condition expression"),
                Slot::ThenBranch => String::from_str("expected then-branch expression"),
                Slot::ElseBranch => String::from_str("expected else-branch expression"),
            },
            SyntaxError::MissingSeparator { separator, .. } => if *separator == '?' {
                String::from_str("expected '?' after condition")
            } else {
                String::from_str("expected ':' after then-branch")
            },
        }
    }
}

} // verus!
