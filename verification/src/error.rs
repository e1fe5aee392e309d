//! Diagnostics produced while resolving attributes.

use vstd::prelude::*;

verus! {

/// What went wrong at one attribute node.
#[derive(Clone, Copy, Debug, PartialEq, Eq, Structural)]
pub enum ErrorKind {
    /// A literal had the wrong shape.
    TypeMismatch,
    /// An identifier is not known under the active namespace.
    UnknownAttribute,
    /// A nested list is headed by a foreign namespace.
    UnexpectedProperty,
    /// An ignore flag was given although one was already set.
    ConflictingOption,
    /// The value of `default` is not a reference to a callable.
    MalformedDefaultTarget,
}

/// One diagnostic: the kind, the node it is attached to, and a message for
/// the user. The node is given by the location handle that the host put on
/// it and by its name; `at` is `None` for a diagnostic that belongs to no
/// node of a tree.
#[derive(Clone, Debug, PartialEq, Eq)]
pub struct ResolutionError {
    pub kind: ErrorKind,
    pub at: Option<u64>,
    pub node: String,
    pub message: String,
}

/// The mathematical content of a [`ResolutionError`].
pub struct ErrorView {
    pub kind: ErrorKind,
    pub at: Option<u64>,
    pub node: Seq<char>,
    pub message: Seq<char>,
}

/// The diagnostic `e`, attached to the node with location handle `at`.
pub open spec fn placed(e: ErrorView, at: u64) -> ErrorView {
    ErrorView { kind: e.kind, at: Some(at), node: e.node, message: e.message }
}

impl View for ResolutionError {
    type V = ErrorView;

    open spec fn view(&self) -> ErrorView {
        ErrorView { kind: self.kind, at: self.at, node: self.node@, message: self.message@ }
    }
}

/// The contents of a list of diagnostics, in order.
pub open spec fn errors_view(errors: Seq<ResolutionError>) -> Seq<ErrorView> {
    errors.map_values(|e: ResolutionError| e@)
}

/// Pushing a diagnostic appends its content to the list's contents.
pub proof fn lemma_errors_view_push(errors: Seq<ResolutionError>, e: ResolutionError)
    ensures
        errors_view(errors.push(e)) == errors_view(errors).push(e@),
{
    assert(errors_view(errors.push(e)) =~= errors_view(errors).push(e@));
}

/// Builds a diagnostic that is not yet attached to a location.
pub fn make_error(kind: ErrorKind, node: &str, message: String) -> (e: ResolutionError)
    ensures
        e@ == (ErrorView { kind, at: None, node: node@, message: message@ }),
{
    ResolutionError { kind, at: None, node: String::from_str(node), message }
}

/// Attaches a diagnostic to the node with location handle `at`.
pub fn place(e: ResolutionError, at: u64) -> (r: ResolutionError)
    ensures
        r@ == placed(e@, at),
{
    ResolutionError { kind: e.kind, at: Some(at), node: e.node, message: e.message }
}

/// Tells whether `text` spells exactly `name`.
pub fn is_ident(text: &String, name: &str) -> (r: bool)
    ensures
        r == (text@ == name@),
{
    let wanted = String::from_str(name);
    *text == wanted
}

} // verus!
