//! Literal extractors: typed projections from a literal to a primitive.
//!
//! A literal carries no location of its own, so the diagnostics made here
//! are attached to none; a resolver attaches them to the leaf that holds the
//! literal.

use vstd::prelude::*;
use crate::error::{make_error, ErrorKind, ErrorView, ResolutionError};
use crate::meta::{Expr, Lit};

verus! {

/// The message for an attribute `name` whose literal is not a string.
pub open spec fn expected_str_message(name: Seq<char>) -> Seq<char> {
    "expected "@ + name + " attribute to be a string: `"@ + name + " = \"...\"`"@
}

/// The message for an attribute `name` whose literal is not a bool.
pub open spec fn expected_bool_message(name: Seq<char>) -> Seq<char> {
    "expected "@ + name + " attribute to be a bool value, `true` or `false`: `"@ + name
        + " = ...`"@
}

/// The message for a pair `name = value` whose value is not a string literal.
pub open spec fn expected_str_value_message(name: Seq<char>) -> Seq<char> {
    "expected attribute to be a string: `"@ + name + " = \"...\"`"@
}

/// The message for a pair `name = value` whose value is not a bool literal.
pub open spec fn expected_bool_value_message(name: Seq<char>) -> Seq<char> {
    "expected attribute to be a bool value, `true` or `false`: `"@ + name + " = ...`"@
}

/// A type mismatch at the attribute `name`.
pub open spec fn mismatch(name: Seq<char>, message: Seq<char>) -> ErrorView {
    ErrorView { kind: ErrorKind::TypeMismatch, at: None, node: name, message }
}

/// The string inside `lit`, or a type mismatch naming `attr_name`. Nothing
/// but a string literal is accepted.
pub fn get_lit_str<'a>(attr_name: &str, lit: &'a Lit) -> (r: Result<&'a String, ResolutionError>)
    ensures
        match *lit {
            Lit::Str(s) => r == Ok::<&String, ResolutionError>(&s),
            _ => r is Err && r->Err_0@ == mismatch(
                attr_name@,
                expected_str_message(attr_name@),
            ),
        },
{
    match lit {
        Lit::Str(s) => Ok(s),
        _ => {
            let message = String::from_str("expected ").concat(attr_name).concat(
                " attribute to be a string: `",
            ).concat(attr_name).concat(" = \"...\"`");
            Err(make_error(ErrorKind::TypeMismatch, attr_name, message))
        },
    }
}

/// The string literal on the right of `name = value`, or a type mismatch
/// naming `name`.
pub fn get_lit_str_value<'a>(name: &str, value: &'a Expr) -> (r: Result<
    &'a String,
    ResolutionError,
>)
    ensures
        match *value {
            Expr::Lit(Lit::Str(s)) => r == Ok::<&String, ResolutionError>(&s),
            _ => r is Err && r->Err_0@ == mismatch(name@, expected_str_value_message(name@)),
        },
{
    match value {
        Expr::Lit(Lit::Str(s)) => Ok(s),
        _ => {
            let message = String::from_str("expected attribute to be a string: `").concat(
                name,
            ).concat(" = \"...\"`");
            Err(make_error(ErrorKind::TypeMismatch, name, message))
        },
    }
}

/// The bool inside `lit`, or a type mismatch naming `attr_name`. Nothing but
/// a bool literal is accepted.
pub fn get_lit_bool(attr_name: &str, lit: &Lit) -> (r: Result<bool, ResolutionError>)
    ensures
        match *lit {
            Lit::Bool(b) => r == Ok::<bool, ResolutionError>(b),
            _ => r is Err && r->Err_0@ == mismatch(
                attr_name@,
                expected_bool_message(attr_name@),
            ),
        },
{
    match lit {
        Lit::Bool(b) => Ok(*b),
        _ => {
            let message = String::from_str("expected ").concat(attr_name).concat(
                " attribute to be a bool value, `true` or `false`: `",
            ).concat(attr_name).concat(" = ...`");
            Err(make_error(ErrorKind::TypeMismatch, attr_name, message))
        },
    }
}

/// The bool literal on the right of `name = value`, or a type mismatch
/// naming `name`.
pub fn get_lit_bool_value(name: &str, value: &Expr) -> (r: Result<bool, ResolutionError>)
    ensures
        match *value {
            Expr::Lit(Lit::Bool(b)) => r == Ok::<bool, ResolutionError>(b),
            _ => r is Err && r->Err_0@ == mismatch(name@, expected_bool_value_message(name@)),
        },
{
    match value {
        Expr::Lit(Lit::Bool(b)) => Ok(*b),
        _ => {
            let message = String::from_str(
                "expected attribute to be a bool value, `true` or `false`: `",
            ).concat(name).concat(" = ...`");
            Err(make_error(ErrorKind::TypeMismatch, name, message))
        },
    }
}

} // verus!
