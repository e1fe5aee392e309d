//! The shape of a declaration, as far as the generators ask for it.

use vstd::prelude::*;
use crate::error::{make_error, ErrorKind, ErrorView, ResolutionError};

verus! {

/// The fields of a struct or of an enum variant.
#[derive(Clone, Debug, PartialEq, Eq)]
pub enum Fields {
    /// Named fields, `{ a: A, b: B }`, holding the names in order.
    Named(Vec<String>),
    /// Positional fields, `(A, B)`, holding their number.
    Unnamed(usize),
    /// No fields.
    Unit,
}

/// What kind of declaration an attribute set belongs to.
#[derive(Clone, Debug, PartialEq, Eq)]
pub enum Data {
    Struct(Fields),
    Enum,
    Union,
}

/// The diagnostic for a declaration that is no struct with named fields. It
/// is attached to the site of the derive, not to a node: which derive has
/// the problem is what the user needs to see.
pub open spec fn unsupported_shape() -> ErrorView {
    ErrorView {
        kind: ErrorKind::TypeMismatch,
        at: None,
        node: Seq::empty(),
        message: "Only structs with named fields are supported"@,
    }
}

/// The field names of `data` if it is a struct with named fields; otherwise
/// a diagnostic.
pub fn get_named_struct_fields(data: &Data) -> (r: Result<&Vec<String>, ResolutionError>)
    ensures
        match *data {
            Data::Struct(Fields::Named(f)) => r == Ok::<&Vec<String>, ResolutionError>(&f),
            _ => r is Err && r->Err_0@ == unsupported_shape(),
        },
{
    match data {
        Data::Struct(Fields::Named(f)) => Ok(f),
        _ => {
            let e = make_error(
                ErrorKind::TypeMismatch,
                "",
                String::from_str("Only structs with named fields are supported"),
            );
            proof {
                reveal_strlit("");
                assert(""@ =~= Seq::<char>::empty());
            }
            Err(e)
        },
    }
}

} // verus!
