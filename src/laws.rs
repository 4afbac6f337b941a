//! Properties of recognition that hold for every input of a given shape.
use vstd::prelude::*;
use crate::host::is_host_expression;
use crate::grammar::{
    is_longest_expression, lemma_longest_end_is, lemma_no_expression_end, no_expression_at,
    recognize, Slot, SyntaxError,
};

verus! {

/// The text `c ? t : e`.
pub open spec fn ternary_text(c: Seq<char>, t: Seq<char>, e: Seq<char>) -> Seq<char> {
    c + seq!['?'] + t + seq![':'] + e
}

/// Round trip: writing three expressions as `c ? t : e` and recognizing the
/// text gives back exactly `c`, `t` and `e`, with the whole text consumed.
/// The grammar takes the longest expression at each place, so `c` and `t`
/// must each be the longest expression that starts where they do.
pub proof fn lemma_round_trip(c: Seq<char>, t: Seq<char>, e: Seq<char>)
    requires
        is_host_expression(c),
        is_host_expression(t),
        is_host_expression(e),
        forall|k: int|
            c.len() < k <= ternary_text(c, t, e).len() ==> !is_host_expression(
                #[trigger] ternary_text(c, t, e).subrange(0, k),
            ),
        forall|k: int|
            c.len() + 1 + t.len() < k <= ternary_text(c, t, e).len() ==> !is_host_expression(
                #[trigger] ternary_text(c, t, e).subrange(c.len() + 1 as int, k),
            ),
    ensures
        recognize(ternary_text(c, t, e), 0) == Ok::<_, SyntaxError>(
            (c, t, e, ternary_text(c, t, e).len() as int),
        ),
{
    let s = ternary_text(c, t, e);
    let c_end = c.len() as int;
    let t_end = c_end + 1 + t.len();
    assert(s.subrange(0, c_end) =~= c);
    assert(s.subrange(c_end + 1, t_end) =~= t);
    assert(s.subrange(t_end + 1, s.len() as int) =~= e);
    assert(s[c_end] == '?');
    assert(s[t_end] == ':');
    lemma_longest_end_is(s, 0, c_end);
    lemma_longest_end_is(s, c_end + 1, t_end);
    lemma_longest_end_is(s, t_end + 1, s.len() as int);
}

/// Missing condition: text that starts with `?`, where no expression starts,
/// fails with a missing condition at offset 0.
pub proof fn lemma_missing_condition(t: Seq<char>, e: Seq<char>)
    requires
        no_expression_at(seq!['?'] + t + seq![':'] + e, 0),
    ensures
        recognize(seq!['?'] + t + seq![':'] + e, 0) == Err::<
            (Seq<char>, Seq<char>, Seq<char>, int),
            SyntaxError,
        >(SyntaxError::MissingExpression { slot: Slot::Condition, at: 0 }),
{
    lemma_no_expression_end(seq!['?'] + t + seq![':'] + e, 0);
}

/// Missing `?`: in `c t : e`, where `c` is the longest expression at the
/// start and `t` does not begin with `?`, matching fails right after `c`
/// for want of a `?`.
pub proof fn lemma_missing_question_mark(c: Seq<char>, t: Seq<char>, e: Seq<char>)
    requires
        is_host_expression(c),
        forall|k: int|
            c.len() < k <= (c + t + seq![':'] + e).len() ==> !is_host_expression(
                #[trigger] (c + t + seq![':'] + e).subrange(0, k),
            ),
        t.len() > 0,
        t[0] != '?',
    ensures
        recognize(c + t + seq![':'] + e, 0) == Err::<
            (Seq<char>, Seq<char>, Seq<char>, int),
            SyntaxError,
        >(SyntaxError::MissingSeparator { separator: '?', at: c.len() as usize }),
{
    let s = c + t + seq![':'] + e;
    assert(s.subrange(0, c.len() as int) =~= c);
    assert(s[c.len() as int] == t[0]);
    lemma_longest_end_is(s, 0, c.len() as int);
}

/// Missing `:`: in `c ? t e`, where `c` and `t` are each the longest
/// expression at their place and `e` does not begin with `:`, matching
/// fails right after `t` for want of a `:`.
pub proof fn lemma_missing_colon(c: Seq<char>, t: Seq<char>, e: Seq<char>)
    requires
        is_host_expression(c),
        is_host_expression(t),
        forall|k: int|
            c.len() < k <= (c + seq!['?'] + t + e).len() ==> !is_host_expression(
                #[trigger] (c + seq!['?'] + t + e).subrange(0, k),
            ),
        forall|k: int|
            c.len() + 1 + t.len() < k <= (c + seq!['?'] + t + e).len() ==> !is_host_expression(
                #[trigger] (c + seq!['?'] + t + e).subrange(c.len() + 1 as int, k),
            ),
        e.len() > 0,
        e[0] != ':',
    ensures
        recognize(c + seq!['?'] + t + e, 0) == Err::<
            (Seq<char>, Seq<char>, Seq<char>, int),
            SyntaxError,
        >(SyntaxError::MissingSeparator { separator: ':', at: (c.len() + 1 + t.len()) as usize }),
{
    let s = c + seq!['?'] + t + e;
    let c_end = c.len() as int;
    let t_end = c_end + 1 + t.len();
    assert(s.subrange(0, c_end) =~= c);
    assert(s.subrange(c_end + 1, t_end) =~= t);
    assert(s[c_end] == '?');
    assert(s[t_end] == e[0]);
    lemma_longest_end_is(s, 0, c_end);
    lemma_longest_end_is(s, c_end + 1, t_end);
}

} // verus!
