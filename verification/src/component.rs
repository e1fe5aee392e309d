//! The storage selector: resolves `#[component(storage = "...")]`.

use vstd::prelude::*;
use crate::attrs::{expected_str_value_message, get_lit_str_value, mismatch};
use crate::error::{is_ident, make_error, place, placed, ErrorKind, ErrorView, ResolutionError};
use crate::meta::{lemma_no_relevant_leaves, relevant_leaves, walk, Expr, Lit, Meta};
use crate::syntax::{answer_at, answer_view, parse_path};

verus! {

/// The namespace of the storage selector.
pub const COMPONENT: &'static str = "component";

/// The one key that the storage selector knows.
pub const STORAGE: &'static str = "storage";

/// The spelling that selects dense storage.
pub const TABLE: &'static str = "Table";

/// The spelling that selects sparse storage.
pub const SPARSE_SET: &'static str = "SparseSet";

/// The backing representation chosen for a component.
#[derive(Clone, Copy, Debug, PartialEq, Eq, Structural)]
pub enum StorageTy {
    Table,
    SparseSet,
}

/// What the storage selector resolves a declaration to.
#[derive(Clone, Copy, Debug, PartialEq, Eq, Structural)]
pub struct Attrs {
    pub storage: StorageTy,
}

/// The message for a storage value that is neither of the two spellings.
pub open spec fn invalid_storage_message(found: Seq<char>) -> Seq<char> {
    "Invalid storage type '"@ + found + "', expected '"@ + TABLE@ + "' or '"@ + SPARSE_SET@
        + "'."@
}

/// The diagnostic for a storage value that is neither of the two spellings.
pub open spec fn invalid_storage(found: Seq<char>) -> ErrorView {
    ErrorView {
        kind: ErrorKind::UnknownAttribute,
        at: None,
        node: STORAGE@,
        message: invalid_storage_message(found),
    }
}

/// The diagnostic for a node named `name` that the selector does not know.
pub open spec fn unknown_component_attribute(name: Seq<char>) -> ErrorView {
    ErrorView {
        kind: ErrorKind::UnknownAttribute,
        at: None,
        node: name,
        message: "unknown component attribute `"@ + name + "`"@,
    }
}

/// The diagnostic for a nested list headed by `name`, a foreign namespace.
pub open spec fn unexpected_property(name: Seq<char>) -> ErrorView {
    ErrorView {
        kind: ErrorKind::UnexpectedProperty,
        at: None,
        node: name,
        message: "unexpected property"@,
    }
}

/// The strategy that a storage value stands for, given the value as written
/// (`raw`) and as a path (`parsed`, `None` where it is no path): the two
/// spellings select their strategy, anything else is refused with a message
/// that lists both.
pub open spec fn storage_of(raw: Seq<char>, parsed: Option<Seq<char>>) -> Result<
    StorageTy,
    ErrorView,
> {
    match parsed {
        Some(p) => if p == TABLE@ {
            Ok(StorageTy::Table)
        } else if p == SPARSE_SET@ {
            Ok(StorageTy::SparseSet)
        } else {
            Err(invalid_storage(p))
        },
        None => Err(invalid_storage(raw)),
    }
}

/// What one leaf under `component` selects, where `parsed` is what the path
/// parser made of the leaf's string value. Only `storage = "..."` asks the
/// parser. A diagnostic is attached to the leaf's location.
pub open spec fn storage_leaf(m: &Meta, parsed: Option<Seq<char>>) -> Result<
    StorageTy,
    ErrorView,
> {
    match unplaced_storage_leaf(m, parsed) {
        Ok(ty) => Ok(ty),
        Err(e) => Err(placed(e, m.location())),
    }
}

/// What one leaf under `component` selects, with a diagnostic that is not
/// yet attached to the leaf's location.
pub open spec fn unplaced_storage_leaf(m: &Meta, parsed: Option<Seq<char>>) -> Result<
    StorageTy,
    ErrorView,
> {
    match *m {
        Meta::NameValue(key, value) => if key@ == STORAGE@ {
            match value {
                Expr::Lit(Lit::Str(s)) => storage_of(s@, parsed),
                _ => Err(mismatch(key@, expected_str_value_message(key@))),
            }
        } else {
            Err(unknown_component_attribute(key@))
        },
        Meta::Path(name) => Err(unknown_component_attribute(name@)),
        Meta::List(name, _) => Err(unexpected_property(name@)),
    }
}

/// Whether `r` is what leaf `m` selects under the parser's answer `parsed`.
pub open spec fn storage_leaf_gives(
    m: &Meta,
    parsed: Option<Seq<char>>,
    r: Result<StorageTy, ResolutionError>,
) -> bool {
    match storage_leaf(m, parsed) {
        Ok(ty) => r == Ok::<StorageTy, ResolutionError>(ty),
        Err(e) => r is Err && r->Err_0@ == e,
    }
}

/// The selection after the first `n` leaves, under the parser's answers by
/// leaf: the default is `Table`, each well-formed leaf overwrites it, and
/// the first malformed leaf ends the resolution with its diagnostic.
pub open spec fn fold_storage(
    leaves: Seq<&Meta>,
    answers: Seq<Option<Seq<char>>>,
    n: nat,
) -> Result<StorageTy, ErrorView>
    decreases n,
{
    if n == 0 || n > leaves.len() {
        Ok(StorageTy::Table)
    } else {
        match fold_storage(leaves, answers, (n - 1) as nat) {
            Ok(_) => storage_leaf(leaves[n - 1], answer_at(answers, n - 1)),
            Err(e) => Err(e),
        }
    }
}

/// What the storage selector makes of the attributes of a declaration,
/// under the parser's answers by leaf.
pub open spec fn resolve_storage(attrs: &Vec<Meta>, answers: Seq<Option<Seq<char>>>) -> Result<
    StorageTy,
    ErrorView,
> {
    let leaves = relevant_leaves(COMPONENT@, attrs, attrs@.len());
    fold_storage(leaves, answers, leaves.len())
}

/// Whether `r` is the selector's result for `attrs` under the parser's
/// answers by leaf.
pub open spec fn is_storage_resolution(
    attrs: &Vec<Meta>,
    answers: Seq<Option<Seq<char>>>,
    r: Result<Attrs, ResolutionError>,
) -> bool {
    match r {
        Ok(a) => resolve_storage(attrs, answers) == Ok::<StorageTy, ErrorView>(a.storage),
        Err(e) => resolve_storage(attrs, answers) == Err::<StorageTy, ErrorView>(e@),
    }
}

/// Chooses the strategy for a storage value from the value as written and
/// from what the path parser made of it.
pub fn storage_from_parsed(raw: &str, parsed: Option<String>) -> (r: Result<
    StorageTy,
    ResolutionError,
>)
    ensures
        match storage_of(raw@, answer_view(parsed)) {
            Ok(ty) => r == Ok::<StorageTy, ResolutionError>(ty),
            Err(e) => r is Err && r->Err_0@ == e,
        },
{
    let found: String = match parsed {
        Some(p) => {
            if is_ident(&p, TABLE) {
                return Ok(StorageTy::Table);
            }
            if is_ident(&p, SPARSE_SET) {
                return Ok(StorageTy::SparseSet);
            }
            p
        },
        None => String::from_str(raw),
    };
    let message = String::from_str("Invalid storage type '").concat(found.as_str()).concat(
        "', expected '",
    ).concat(TABLE).concat("' or '").concat(SPARSE_SET).concat("'.");
    Err(make_error(ErrorKind::UnknownAttribute, STORAGE, message))
}

/// Resolves one leaf under `component`. For `storage = "..."` the path
/// parser is asked, and the result is what `storage_leaf` gives for the
/// answer that came back, whichever it is; every other leaf has one result.
pub fn parse_storage_leaf(m: &Meta) -> (r: Result<StorageTy, ResolutionError>)
    ensures
        exists|parsed: Option<Seq<char>>| #[trigger] storage_leaf_gives(m, parsed, r),
{
    let ghost mut answer: Option<Seq<char>> = None;
    let found = match m {
        Meta::NameValue(key, value) => {
            if is_ident(&key.name, STORAGE) {
                match get_lit_str_value(key.as_str(), value) {
                    Ok(s) => {
                        let parsed = match parse_path(s.as_str()) {
                            Ok(p) => Some(p),
                            Err(_) => None,
                        };
                        proof {
                            answer = answer_view(parsed);
                        }
                        storage_from_parsed(s.as_str(), parsed)
                    },
                    Err(e) => Err(e),
                }
            } else {
                Err(unknown_attribute(key.as_str()))
            }
        },
        Meta::Path(name) => Err(unknown_attribute(name.as_str())),
        Meta::List(name, _) => Err(
            make_error(
                ErrorKind::UnexpectedProperty,
                name.as_str(),
                String::from_str("unexpected property"),
            ),
        ),
    };
    let r = match found {
        Ok(ty) => Ok(ty),
        Err(e) => Err(place(e, m.name().at)),
    };
    assert(storage_leaf_gives(m, answer, r));
    r
}

fn unknown_attribute(name: &str) -> (e: ResolutionError)
    ensures
        e@ == unknown_component_attribute(name@),
{
    let message = String::from_str("unknown component attribute `").concat(name).concat("`");
    make_error(ErrorKind::UnknownAttribute, name, message)
}

/// Resolves the `component` attributes of a declaration to the storage they
/// select. Attributes of other namespaces are not looked at. Without a
/// `storage` attribute the result is `Table`; where several are given the
/// last one counts; the first malformed node is reported. The result is the
/// one that `resolve_storage` gives for the answers that the path parser
/// gave, whichever they were.
pub fn parse_component_attr(attrs: &Vec<Meta>) -> (r: Result<Attrs, ResolutionError>)
    ensures
        exists|answers: Seq<Option<Seq<char>>>| #[trigger] is_storage_resolution(attrs, answers, r),
{
    let ns = String::from_str(COMPONENT);
    let leaves = walk(&ns, attrs);
    let mut storage = StorageTy::Table;
    let ghost mut answers: Seq<Option<Seq<char>>> = Seq::empty();
    let mut i: usize = 0;
    while i < leaves.len()
        invariant
            i <= leaves@.len(),
            answers.len() == i,
            fold_storage(leaves@, answers, i as nat) == Ok::<StorageTy, ErrorView>(storage),
            leaves@ == relevant_leaves(COMPONENT@, attrs, attrs@.len()),
        decreases leaves@.len() - i,
    {
        let r = parse_storage_leaf(leaves[i]);
        proof {
            let parsed = choose|parsed: Option<Seq<char>>|
                storage_leaf_gives(leaves@[i as int], parsed, r);
            lemma_fold_storage_prefix(leaves@, answers, answers.push(parsed), i as nat);
            answers = answers.push(parsed);
        }
        match r {
            Ok(ty) => {
                storage = ty;
            },
            Err(e) => {
                proof {
                    lemma_fold_storage_stays_failed(
                        leaves@,
                        answers,
                        (i + 1) as nat,
                        leaves@.len(),
                    );
                    assert(is_storage_resolution(
                        attrs,
                        answers,
                        Err::<Attrs, ResolutionError>(e),
                    ));
                }
                return Err(e);
            },
        }
        i += 1;
    }
    assert(is_storage_resolution(attrs, answers, Ok::<Attrs, ResolutionError>(Attrs { storage })));
    Ok(Attrs { storage })
}

/// The fold over the first `n` leaves asks only for the first `n` answers.
pub proof fn lemma_fold_storage_prefix(
    leaves: Seq<&Meta>,
    a: Seq<Option<Seq<char>>>,
    b: Seq<Option<Seq<char>>>,
    n: nat,
)
    requires
        forall|j: int| 0 <= j < n ==> answer_at(a, j) == answer_at(b, j),
    ensures
        fold_storage(leaves, a, n) == fold_storage(leaves, b, n),
    decreases n,
{
    if n > 0 && n <= leaves.len() {
        lemma_fold_storage_prefix(leaves, a, b, (n - 1) as nat);
    }
}

/// Once the fold has failed it keeps its diagnostic.
pub proof fn lemma_fold_storage_stays_failed(
    leaves: Seq<&Meta>,
    answers: Seq<Option<Seq<char>>>,
    n: nat,
    m: nat,
)
    requires
        n <= m <= leaves.len(),
        fold_storage(leaves, answers, n) is Err,
    ensures
        fold_storage(leaves, answers, m) == fold_storage(leaves, answers, n),
    decreases m,
{
    if n < m {
        lemma_fold_storage_stays_failed(leaves, answers, n, (m - 1) as nat);
    }
}

/// The name of the storage marker type for `ty` below the path of the
/// entity-component crate.
pub fn storage_path(bevy_ecs_path: &str, ty: StorageTy) -> (r: String)
    ensures
        r@ == bevy_ecs_path@ + "::component::"@ + (match ty {
            StorageTy::Table => "TableStorage"@,
            StorageTy::SparseSet => "SparseStorage"@,
        }),
{
    let typename = match ty {
        StorageTy::Table => "TableStorage",
        StorageTy::SparseSet => "SparseStorage",
    };
    String::from_str(bevy_ecs_path).concat("::component::").concat(typename)
}

/// A declaration without attributes under `component` resolves to `Table`,
/// whatever other attributes it carries and whatever the parser would say.
pub proof fn law_unannotated_component_is_table(attrs: &Vec<Meta>)
    requires
        forall|i: int| 0 <= i < attrs@.len() ==> attrs@[i].head() != COMPONENT@,
    ensures
        forall|answers: Seq<Option<Seq<char>>>| #[trigger]
            resolve_storage(attrs, answers) == Ok::<StorageTy, ErrorView>(StorageTy::Table),
        forall|answers: Seq<Option<Seq<char>>>, r: Result<Attrs, ResolutionError>|
            #[trigger] is_storage_resolution(attrs, answers, r) ==> r == Ok::<
                Attrs,
                ResolutionError,
            >(Attrs { storage: StorageTy::Table }),
{
    lemma_no_relevant_leaves(COMPONENT@, attrs, attrs@.len());
}

/// The two spellings select the two strategies, `Table` the one that is
/// also chosen without any attribute; every other path is refused with a
/// message that holds both spellings.
pub proof fn law_storage_spellings(raw: Seq<char>, other: Seq<char>)
    ensures
        storage_of(raw, Some(TABLE@)) == Ok::<StorageTy, ErrorView>(StorageTy::Table),
        storage_of(raw, Some(TABLE@)) == fold_storage(Seq::empty(), Seq::empty(), 0),
        storage_of(raw, Some(SPARSE_SET@)) == Ok::<StorageTy, ErrorView>(StorageTy::SparseSet),
        other != TABLE@ && other != SPARSE_SET@ ==> storage_of(raw, Some(other)) == Err::<
            StorageTy,
            ErrorView,
        >(invalid_storage(other)),
        invalid_storage(other).message == "Invalid storage type '"@ + other + "', expected '"@
            + "Table"@ + "' or '"@ + "SparseSet"@ + "'."@,
{
    reveal_strlit("Table");
    reveal_strlit("SparseSet");
    assert("Table"@.len() == 5);
    assert("SparseSet"@.len() == 9);
}

/// Resolution is a function of the attributes and of what the parser says
/// of their string values: two results for the same attributes under the
/// same answers select the same storage, or carry the same diagnostic.
pub proof fn law_storage_resolution_is_deterministic(
    attrs: &Vec<Meta>,
    answers: Seq<Option<Seq<char>>>,
    a: Result<Attrs, ResolutionError>,
    b: Result<Attrs, ResolutionError>,
)
    requires
        is_storage_resolution(attrs, answers, a),
        is_storage_resolution(attrs, answers, b),
    ensures
        a is Ok <==> b is Ok,
        a is Ok ==> a->Ok_0 == b->Ok_0,
        a is Err ==> a->Err_0@ == b->Err_0@,
{
}

} // verus!
