//! The calls into the `syn` parser. Nothing in this file is proved.
//!
//! What the parser makes of a text is not fixed here: it lexes and prints
//! with the machinery of the process it runs in. The callers therefore state
//! what holds for every answer, and the decisions that follow an answer
//! stand in functions that take the answer as an argument.

use vstd::prelude::*;

verus! {

/// `syn::Error`, the parser's own diagnostic. It is opaque here: the
/// resolvers tell success from failure and write their own diagnostics.
#[verifier::external_type_specification]
#[verifier::external_body]
pub struct ExSynError(syn::Error);

/// Calls `syn::parse_str::<syn::Path>` and hands a parsed path on as the
/// text that `to_token_stream` prints for it. Nothing is claimed of the
/// answer.
#[verifier::external_body]
pub(crate) fn parse_path(text: &str) -> (r: Result<String, syn::Error>) {
    match syn::parse_str::<syn::Path>(text) {
        Ok(path) => Ok(quote::ToTokens::to_token_stream(&path).to_string()),
        Err(e) => Err(e),
    }
}

/// Calls `syn::parse_str::<syn::ExprPath>` and hands a parsed path
/// expression on as the text that `to_token_stream` prints for it. Nothing
/// is claimed of the answer.
#[verifier::external_body]
pub(crate) fn parse_expr_path(text: &str) -> (r: Result<String, syn::Error>) {
    match syn::parse_str::<syn::ExprPath>(text) {
        Ok(path) => Ok(quote::ToTokens::to_token_stream(&path).to_string()),
        Err(e) => Err(e),
    }
}

/// The parser's answers for the leaves of a declaration, by position: the
/// answer for leaf `i`, `None` where the parser refused the text or was not
/// asked.
pub open spec fn answer_at(answers: Seq<Option<Seq<char>>>, i: int) -> Option<Seq<char>> {
    if 0 <= i < answers.len() {
        answers[i]
    } else {
        None
    }
}

/// The content of an answer of the parser.
pub open spec fn answer_view(answer: Option<String>) -> Option<Seq<char>> {
    match answer {
        Some(p) => Some(p@),
        None => None,
    }
}

} // verus!
