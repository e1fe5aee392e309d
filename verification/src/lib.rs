//! Resolution of declarative attribute trees into validated configuration.
//!
//! A declaration carries a set of attribute trees. Each resolver looks only at
//! the trees of its own namespace, walks them down to their leaves, and folds
//! the leaves into an accumulator, reporting every malformed leaf.

pub mod error;
pub mod meta;
pub mod syntax;
pub mod attrs;
pub mod component;
pub mod field_attributes;
pub mod shape;
