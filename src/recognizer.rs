//! Executable recognition of the conditional grammar.
use vstd::prelude::*;
use crate::host::{is_host_expression, parses_as_expression, select_own_lexer};
use crate::grammar::{
    is_longest_expression, lemma_longest_end_is, lemma_no_expression_end, longest_expression_end,
    no_expression_at, recognize, separator_at, Slot, SyntaxError, TernaryForm,
};

verus! {

/// Finds the end of the longest expression that starts at character `start`
/// of `src`, trying the longest candidate first.
pub fn longest_expression(src: &str, start: usize) -> (r: Option<usize>)
    ensures
        match r {
            Some(end) => longest_expression_end(src@, start as int) == Some(end as int)
                && is_longest_expression(src@, start as int, end as int),
            None => longest_expression_end(src@, start as int) is None
                && no_expression_at(src@, start as int),
        },
{
    let lexer = select_own_lexer();
    let len = src.unicode_len();
    if start > len {
        proof {
            lemma_no_expression_end(src@, start as int);
        }
        return None;
    }
    let mut end = len;
    loop
        invariant
            start <= end <= len,
            len == src@.len(),
            forall|k: int| end < k <= len ==> !is_host_expression(#[trigger] src@.subrange(start as int, k)),
        decreases end - start,
    {
        let piece = src.substring_char(start, end);
        if parses_as_expression(&lexer, piece) {
            proof {
                lemma_longest_end_is(src@, start as int, end as int);
            }
            return Some(end);
        }
        if end == start {
            proof {
                lemma_no_expression_end(src@, start as int);
            }
            return None;
        }
        end = end - 1;
    }
}

/// A position in a piece of source text. Recognition moves it forward past
/// what was recognized; it never moves back.
pub struct SourceCursor {
    pub text: String,
    pub pos: usize,
}

impl SourceCursor {
    /// A cursor at the start of `text`.
    pub fn new(text: &str) -> (r: SourceCursor)
        ensures
            r.text@ == text@,
            r.pos == 0,
    {
        SourceCursor { text: String::from_str(text), pos: 0 }
    }

    /// Whether no text is left after the cursor.
    pub fn at_end(&self) -> (r: bool)
        ensures
            r == (self.pos >= self.text@.len()),
    {
        self.pos >= self.text.as_str().unicode_len()
    }

    /// Recognizes `condition ? then : else` at the cursor. On success the
    /// cursor stands just past the else-branch; on failure it does not move.
    pub fn parse(&mut self) -> (r: Result<TernaryForm, SyntaxError>)
        ensures
            final(self).text == old(self).text,
            match recognize(old(self).text@, old(self).pos as int) {
                Ok((c, t, e, end)) => r is Ok && r->Ok_0@ == (c, t, e) && final(self).pos == end
                    && old(self).pos <= final(self).pos,
                Err(err) => r == Err::<TernaryForm, SyntaxError>(err) && final(self).pos == old(self).pos,
            },
    {
        let src = self.text.as_str();
        let start = self.pos;
        let c_end = match longest_expression(src, start) {
            None => {
                return Err(SyntaxError::MissingExpression { slot: Slot::Condition, at: start });
            },
            Some(end) => end,
        };
        if !separator_is(src, c_end, '?') {
            return Err(SyntaxError::MissingSeparator { separator: '?', at: c_end });
        }
        let t_end = match longest_expression(src, c_end + 1) {
            None => {
                return Err(SyntaxError::MissingExpression { slot: Slot::ThenBranch, at: c_end + 1 });
            },
            Some(end) => end,
        };
        if !separator_is(src, t_end, ':') {
            return Err(SyntaxError::MissingSeparator { separator: ':', at: t_end });
        }
        let e_end = match longest_expression(src, t_end + 1) {
            None => {
                return Err(SyntaxError::MissingExpression { slot: Slot::ElseBranch, at: t_end + 1 });
            },
            Some(end) => end,
        };
        let form = TernaryForm {
            condition: String::from_str(src.substring_char(start, c_end)),
            then_branch: String::from_str(src.substring_char(c_end + 1, t_end)),
            else_branch: String::from_str(src.substring_char(t_end + 1, e_end)),
        };
        self.pos = e_end;
        Ok(form)
    }
}

/// Whether character `at` of `src` is `c`.
fn separator_is(src: &str, at: usize, c: char) -> (r: bool)
    ensures
        r == separator_at(src@, at as int, c),
        src@.len() <= usize::MAX,
{
    at < src.unicode_len() && src.get_char(at) == c
}

} // verus!
