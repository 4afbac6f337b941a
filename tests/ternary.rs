use iffy::{emit_conditional, i, longest_expression, ExpandError, Slot, SourceCursor, SyntaxError};

#[test]
fn rewrites_basic_minimum() {
    let out = i("a < b ? a : b").unwrap();
    assert_eq!(out, "if a < b  { a \n} else { b\n}");
}

#[test]
fn round_trip_without_spaces() {
    let mut cursor = SourceCursor::new("x?y:z");
    let form = cursor.parse().unwrap();
    assert_eq!(form.condition, "x");
    assert_eq!(form.then_branch, "y");
    assert_eq!(form.else_branch, "z");
    assert_eq!(cursor.pos, 5);
    assert!(cursor.at_end());
    assert_eq!(i("x?y:z").unwrap(), "if x {y\n} else {z\n}");
}

#[test]
fn round_trip_compound_expressions() {
    let mut cursor = SourceCursor::new("f(a, b) == v[0] ? x.len() + 1 : \"none\"");
    let form = cursor.parse().unwrap();
    assert_eq!(form.condition, "f(a, b) == v[0] ");
    assert_eq!(form.then_branch, " x.len() + 1 ");
    assert_eq!(form.else_branch, " \"none\"");
    assert!(cursor.at_end());
}

#[test]
fn separators_inside_literals_and_groups_are_not_separators() {
    let mut cursor = SourceCursor::new("s == \"?\" ? f(p, ':') : q");
    let form = cursor.parse().unwrap();
    assert_eq!(form.condition, "s == \"?\" ");
    assert_eq!(form.then_branch, " f(p, ':') ");
    assert_eq!(form.else_branch, " q");
}

#[test]
fn missing_condition() {
    assert_eq!(
        i("? b : c"),
        Err(ExpandError::Syntax(SyntaxError::MissingExpression { slot: Slot::Condition, at: 0 }))
    );
}

#[test]
fn missing_question_mark() {
    assert_eq!(
        i("a b : c"),
        Err(ExpandError::Syntax(SyntaxError::MissingSeparator { separator: '?', at: 2 }))
    );
}

#[test]
fn missing_colon() {
    assert_eq!(
        i("a ? b c"),
        Err(ExpandError::Syntax(SyntaxError::MissingSeparator { separator: ':', at: 6 }))
    );
}

#[test]
fn missing_then_branch() {
    assert_eq!(
        i("a ? : c"),
        Err(ExpandError::Syntax(SyntaxError::MissingExpression { slot: Slot::ThenBranch, at: 3 }))
    );
}

#[test]
fn missing_else_branch() {
    assert_eq!(
        i("a ? b :"),
        Err(ExpandError::Syntax(SyntaxError::MissingExpression { slot: Slot::ElseBranch, at: 7 }))
    );
}

#[test]
fn empty_input_has_no_condition() {
    assert_eq!(
        i(""),
        Err(ExpandError::Syntax(SyntaxError::MissingExpression { slot: Slot::Condition, at: 0 }))
    );
}

#[test]
fn input_ending_after_condition_lacks_question_mark() {
    assert_eq!(
        i("a"),
        Err(ExpandError::Syntax(SyntaxError::MissingSeparator { separator: '?', at: 1 }))
    );
}

#[test]
fn trailing_input_is_rejected() {
    assert_eq!(i("a ? b : c )"), Err(ExpandError::TrailingInput { at: 10 }));
}

#[test]
fn direct_nesting_is_not_recognized() {
    assert_eq!(
        i("a ? b ? c : d : e"),
        Err(ExpandError::Syntax(SyntaxError::MissingSeparator { separator: ':', at: 6 }))
    );
}

#[test]
fn nesting_through_intermediate_bindings() {
    let inner = i("b > c ? \"b wins\" : \"c wins\"").unwrap();
    assert_eq!(inner, "if b > c  { \"b wins\" \n} else { \"c wins\"\n}");
    let other = i("a > c ? \"a wins\" : \"c wins\"").unwrap();
    assert_eq!(other, "if a > c  { \"a wins\" \n} else { \"c wins\"\n}");
    let outer = i("b > a ? tmp0 : tmp1").unwrap();
    assert_eq!(outer, "if b > a  { tmp0 \n} else { tmp1\n}");
}

#[test]
fn emitted_form_is_an_if_else() {
    let out = i("a > b ? \"a wins\" : \"b wins\"").unwrap();
    assert_eq!(out, "if a > b  { \"a wins\" \n} else { \"b wins\"\n}");
}

#[test]
fn emit_places_the_three_texts() {
    let mut cursor = SourceCursor::new("ok ? 1 : 2");
    let form = cursor.parse().unwrap();
    assert_eq!(emit_conditional(form), "if ok  { 1 \n} else { 2\n}");
}

#[test]
fn line_comment_in_else_branch_does_not_hide_brace() {
    let out = i("x ? 1 : 2 // two").unwrap();
    assert_eq!(out, "if x  { 1 \n} else { 2 // two\n}");
}

#[test]
fn cursor_advances_past_the_form_only() {
    let mut cursor = SourceCursor::new("x ? y : z , rest");
    let form = cursor.parse().unwrap();
    assert_eq!(form.else_branch, " z ");
    assert_eq!(cursor.pos, 10);
    assert!(!cursor.at_end());
}

#[test]
fn cursor_stays_on_failure() {
    let mut cursor = SourceCursor::new("p q");
    assert_eq!(
        cursor.parse().unwrap_err(),
        SyntaxError::MissingSeparator { separator: '?', at: 2 }
    );
    assert_eq!(cursor.pos, 0);
}

#[test]
fn cursor_past_the_end_finds_no_condition() {
    let mut cursor = SourceCursor::new("a");
    cursor.pos = 5;
    assert_eq!(
        cursor.parse().unwrap_err(),
        SyntaxError::MissingExpression { slot: Slot::Condition, at: 5 }
    );
}

#[test]
fn cursor_parses_from_its_position() {
    let mut cursor = SourceCursor::new("let v = p ? 1 : 0");
    cursor.pos = 7;
    let form = cursor.parse().unwrap();
    assert_eq!(form.condition, " p ");
    assert_eq!(cursor.pos, 17);
}

#[test]
fn offsets_count_characters() {
    assert_eq!(
        i("\"é\" b : c"),
        Err(ExpandError::Syntax(SyntaxError::MissingSeparator { separator: '?', at: 4 }))
    );
}

#[test]
fn longest_expression_prefers_longest() {
    assert_eq!(longest_expression("a + b ? c", 0), Some(6));
    assert_eq!(longest_expression("a + b ? c", 7), Some(9));
    assert_eq!(longest_expression("? c", 0), None);
    assert_eq!(longest_expression("abc", 9), None);
}

#[test]
fn messages_name_the_failure() {
    let cases = [
        (SyntaxError::MissingExpression { slot: Slot::Condition, at: 0 }, "expected condition expression"),
        (SyntaxError::MissingExpression { slot: Slot::ThenBranch, at: 3 }, "expected then-branch expression"),
        (SyntaxError::MissingExpression { slot: Slot::ElseBranch, at: 7 }, "expected else-branch expression"),
        (SyntaxError::MissingSeparator { separator: '?', at: 2 }, "expected '?' after condition"),
        (SyntaxError::MissingSeparator { separator: ':', at: 6 }, "expected ':' after then-branch"),
    ];
    for (err, text) in cases {
        assert_eq!(err.message(), text);
    }
}

#[test]
fn c_string_literal_condition() {
    assert_eq!(i("c\"x\" ? a : b").unwrap(), "if c\"x\"  { a \n} else { b\n}");
}

#[test]
fn raw_c_string_literal_branch() {
    let mut cursor = SourceCursor::new("p ? cr\"y\" : c\"z\"");
    let form = cursor.parse().unwrap();
    assert_eq!(form.then_branch, " cr\"y\" ");
    assert_eq!(form.else_branch, " c\"z\"");
}
