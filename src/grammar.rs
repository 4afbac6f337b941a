//! The grammar `Expr '?' Expr ':' Expr`, its results and its errors, stated
//! over character sequences.
use vstd::prelude::*;
use crate::host::is_host_expression;

verus! {

/// The three places where a sub-expression is expected.
#[derive(Clone, Copy, Debug, PartialEq, Eq, Structural)]
pub enum Slot {
    Condition,
    ThenBranch,
    ElseBranch,
}

/// Where and why recognition stopped. `at` is a character offset.
#[derive(Clone, Copy, Debug, PartialEq, Eq, Structural)]
pub enum SyntaxError {
    /// No expression starts at `at`.
    MissingExpression { slot: Slot, at: usize },
    /// The character at `at` is not `separator`, or the input ends there.
    MissingSeparator { separator: char, at: usize },
}

/// The three sub-expressions of a recognized conditional, as source text.
#[derive(Debug)]
pub struct TernaryForm {
    pub condition: String,
    pub then_branch: String,
    pub else_branch: String,
}

impl View for TernaryForm {
    type V = (Seq<char>, Seq<char>, Seq<char>);

    open spec fn view(&self) -> Self::V {
        (self.condition@, self.then_branch@, self.else_branch@)
    }
}

/// `s[start..end]` is an expression and no longer text from `start` is one.
pub open spec fn is_longest_expression(s: Seq<char>, start: int, end: int) -> bool {
    &&& 0 <= start <= end <= s.len()
    &&& is_host_expression(s.subrange(start, end))
    &&& forall|k: int| end < k <= s.len() ==> !is_host_expression(#[trigger] s.subrange(start, k))
}

/// No text starting at `start` is an expression.
pub open spec fn no_expression_at(s: Seq<char>, start: int) -> bool {
    forall|k: int| start <= k <= s.len() ==> !is_host_expression(#[trigger] s.subrange(start, k))
}

/// The end of the longest expression that starts at `start`, if there is one.
pub open spec fn longest_expression_end(s: Seq<char>, start: int) -> Option<int> {
    if exists|end: int| is_longest_expression(s, start, end) {
        Some(choose|end: int| is_longest_expression(s, start, end))
    } else {
        None
    }
}

/// There is at most one longest expression at a position.
pub proof fn lemma_longest_unique(s: Seq<char>, start: int, a: int, b: int)
    requires
        is_longest_expression(s, start, a),
        is_longest_expression(s, start, b),
    ensures
        a == b,
{
    if a < b {
        assert(!is_host_expression(s.subrange(start, b)));
    } else if b < a {
        assert(!is_host_expression(s.subrange(start, a)));
    }
}

/// A longest expression is the one that `longest_expression_end` names.
pub proof fn lemma_longest_end_is(s: Seq<char>, start: int, end: int)
    requires
        is_longest_expression(s, start, end),
    ensures
        longest_expression_end(s, start) == Some(end),
{
    let c = choose|e: int| is_longest_expression(s, start, e);
    lemma_longest_unique(s, start, c, end);
}

/// Where no expression starts, `longest_expression_end` names none.
pub proof fn lemma_no_expression_end(s: Seq<char>, start: int)
    requires
        no_expression_at(s, start),
    ensures
        longest_expression_end(s, start) is None,
{
    if exists|end: int| is_longest_expression(s, start, end) {
        let e = choose|end: int| is_longest_expression(s, start, end);
        assert(is_host_expression(s.subrange(start, e)));
    }
}

/// The character at offset `at` of `s` is `c`.
pub open spec fn separator_at(s: Seq<char>, at: int, c: char) -> bool {
    0 <= at < s.len() && s[at] == c
}

/// What recognizing `Expr '?' Expr ':' Expr` from offset `start` of `s`
/// yields: the condition, then-branch and else-branch texts and the offset
/// just past the else-branch, or the first point where matching failed.
pub open spec fn recognize(s: Seq<char>, start: int) -> Result<
    (Seq<char>, Seq<char>, Seq<char>, int),
    SyntaxError,
> {
    match longest_expression_end(s, start) {
        None => Err(SyntaxError::MissingExpression { slot: Slot::Condition, at: start as usize }),
        Some(c_end) => if !separator_at(s, c_end, '?') {
            Err(SyntaxError::MissingSeparator { separator: '?', at: c_end as usize })
        } else {
            match longest_expression_end(s, c_end + 1) {
                None => Err(
                    SyntaxError::MissingExpression { slot: Slot::ThenBranch, at: (c_end + 1) as usize },
                ),
                Some(t_end) => if !separator_at(s, t_end, ':') {
                    Err(SyntaxError::MissingSeparator { separator: ':', at: t_end as usize })
                } else {
                    match longest_expression_end(s, t_end + 1) {
                        None => Err(
                            SyntaxError::MissingExpression {
                                slot: Slot::ElseBranch,
                                at: (t_end + 1) as usize,
                            },
                        ),
                        Some(e_end) => Ok(
                            (
                                s.subrange(start, c_end),
                                s.subrange(c_end + 1, t_end),
                                s.subrange(t_end + 1, e_end),
                                e_end,
                            ),
                        ),
                    }
                },
            }
        },
    }
}

} // verus!
