//! Attribute trees and the walker that flattens them to their leaves.

use vstd::prelude::*;

verus! {

/// A literal value as the upstream tokenizer produced it.
#[derive(Clone, Debug, PartialEq, Eq)]
pub enum Lit {
    /// A string literal, holding its unquoted contents.
    Str(String),
    /// `true` or `false`.
    Bool(bool),
    /// Any other literal, holding its source text.
    Other(String),
}

/// The right-hand side of a name-value pair.
#[derive(Clone, Debug, PartialEq, Eq)]
pub enum Expr {
    /// A path expression such as `make_value` or `module::make_value`,
    /// holding its text.
    Path(String),
    /// A literal.
    Lit(Lit),
    /// Any other expression, holding its source text.
    Other(String),
}

/// The identifier at the head of a node, with the handle that the host
/// gave to the node's place in the source. The handle is handed back in
/// diagnostics and is otherwise not looked at.
#[derive(Clone, Debug, PartialEq, Eq)]
pub struct Ident {
    pub name: String,
    pub at: u64,
}

impl View for Ident {
    type V = Seq<char>;

    /// The identifier's text.
    open spec fn view(&self) -> Seq<char> {
        self.name@
    }
}

impl Ident {
    /// The identifier's text.
    pub fn as_str(&self) -> (r: &str)
        ensures
            r@ == self@,
    {
        self.name.as_str()
    }
}

/// One node of an attribute tree.
#[derive(Debug, PartialEq, Eq)]
pub enum Meta {
    /// A bare identifier, as `ignore` in `#[reflect(ignore)]`.
    Path(Ident),
    /// A name and a value, as `default = "f"`.
    NameValue(Ident, Expr),
    /// A head identifier and nested nodes, as `reflect(ignore, default)`.
    List(Ident, Vec<Meta>),
}

impl Meta {
    /// The identifier at the head of the node.
    pub open spec fn head(self) -> Seq<char> {
        match self {
            Meta::Path(name) => name@,
            Meta::NameValue(name, _) => name@,
            Meta::List(name, _) => name@,
        }
    }

    /// The location handle of the node.
    pub open spec fn location(self) -> u64 {
        match self {
            Meta::Path(name) => name.at,
            Meta::NameValue(name, _) => name.at,
            Meta::List(name, _) => name.at,
        }
    }

    /// The identifier at the head of the node, with the node's location.
    pub fn name(&self) -> (r: &Ident)
        ensures
            r@ == self.head(),
            r.at == self.location(),
    {
        match self {
            Meta::Path(name) => name,
            Meta::NameValue(name, _) => name,
            Meta::List(name, _) => name,
        }
    }
}

/// The leaves of one tree under namespace `ns`, left to right: a list headed
/// by `ns` stands for the leaves of its children, every other node is a leaf.
pub open spec fn leaves(ns: Seq<char>, m: &Meta) -> Seq<&Meta>
    decreases m, 0nat,
{
    match m {
        Meta::List(head, children) => if head@ == ns {
            leaves_of(ns, children, children@.len())
        } else {
            seq![m]
        },
        _ => seq![m],
    }
}

/// The leaves of the first `n` trees of `items`, left to right.
pub open spec fn leaves_of(ns: Seq<char>, items: &Vec<Meta>, n: nat) -> Seq<&Meta>
    decreases items, n,
{
    if n == 0 || n > items@.len() {
        Seq::empty()
    } else {
        leaves_of(ns, items, (n - 1) as nat) + leaves(ns, &items@[n - 1])
    }
}

/// The leaves that a declaration offers to the resolver of namespace `ns`:
/// those of the first `n` attributes that are headed by `ns`. Attributes of
/// other namespaces contribute nothing.
pub open spec fn relevant_leaves(ns: Seq<char>, attrs: &Vec<Meta>, n: nat) -> Seq<&Meta>
    decreases n,
{
    if n == 0 || n > attrs@.len() {
        Seq::empty()
    } else if attrs@[n - 1].head() == ns {
        relevant_leaves(ns, attrs, (n - 1) as nat) + leaves(ns, &attrs@[n - 1])
    } else {
        relevant_leaves(ns, attrs, (n - 1) as nat)
    }
}

/// Appends the leaves of `m` under `ns` to `out`.
pub fn collect_leaves<'a>(ns: &String, m: &'a Meta, out: &mut Vec<&'a Meta>)
    ensures
        final(out)@ == old(out)@ + leaves(ns@, m),
    decreases m,
{
    match m {
        Meta::List(head, children) => {
            if head.name == *ns {
                let ghost before = out@;
                let mut i: usize = 0;
                while i < children.len()
                    invariant
                        i <= children@.len(),
                        out@ == before + leaves_of(ns@, children, i as nat),
                        decreases_to!(m => children),
                    decreases children@.len() - i,
                {
                    proof {
                        vstd::std_specs::vec::axiom_vec_index_decreases(*children, i as int);
                    }
                    collect_leaves(ns, &children[i], out);
                    i += 1;
                }
            } else {
                out.push(m);
            }
        },
        _ => {
            out.push(m);
        },
    }
}

/// Walks the attributes of a declaration and returns, in order, the leaves of
/// those headed by `ns`.
pub fn walk<'a>(ns: &String, attrs: &'a Vec<Meta>) -> (out: Vec<&'a Meta>)
    ensures
        out@ == relevant_leaves(ns@, attrs, attrs@.len()),
{
    let mut out: Vec<&'a Meta> = Vec::new();
    let mut i: usize = 0;
    while i < attrs.len()
        invariant
            i <= attrs@.len(),
            out@ == relevant_leaves(ns@, attrs, i as nat),
        decreases attrs@.len() - i,
    {
        if attrs[i].name().name == *ns {
            collect_leaves(ns, &attrs[i], &mut out);
        }
        i += 1;
    }
    out
}

/// A declaration none of whose first `n` attributes is headed by `ns` offers
/// no leaf to the resolver of `ns`.
pub proof fn lemma_no_relevant_leaves(ns: Seq<char>, attrs: &Vec<Meta>, n: nat)
    requires
        n <= attrs@.len(),
        forall|i: int| 0 <= i < n ==> attrs@[i].head() != ns,
    ensures
        relevant_leaves(ns, attrs, n) == Seq::<&Meta>::empty(),
    decreases n,
{
    if n > 0 {
        lemma_no_relevant_leaves(ns, attrs, (n - 1) as nat);
    }
}

} // verus!
