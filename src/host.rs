//! The host language's expression grammar, as provided by syn.
use vstd::prelude::*;

verus! {

/// Whether syn's `Expr` grammar accepts the whole of `text` as one
/// expression, with the text split into tokens by proc-macro2's own lexer.
pub uninterp spec fn is_host_expression(text: Seq<char>) -> bool;

/// Witness that proc-macro2 splits text with its own lexer in this process,
/// rather than with the compiler's lexer inside a procedural macro. Only
/// `select_own_lexer` makes one.
pub struct OwnLexer {
    selected: (),
}

/// Relies on `proc_macro2::fallback::force`: from this call on, proc-macro2
/// uses its own lexer, even where the compiler's is available. Nothing in
/// this library calls `proc_macro2::fallback::unforce`.
#[verifier::external_body]
pub(crate) fn select_own_lexer() -> (r: OwnLexer) {
    proc_macro2::fallback::force();
    OwnLexer { selected: () }
}

/// Relies on `syn::parse_str::<syn::Expr>`: with proc-macro2's own lexer in
/// use, it returns `Ok` exactly when the entire text is a single expression,
/// and its answer depends on the text alone.
#[verifier::external_body]
pub(crate) fn parses_as_expression(_lexer: &OwnLexer, text: &str) -> (r: bool)
    ensures
        r == is_host_expression(text@),
{
    syn::parse_str::<syn::Expr>(text).is_ok()
}

} // verus!
