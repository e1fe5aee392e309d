//! The reflect-field descriptor: resolves `#[reflect(...)]` on a field.
//!
//! A field attribute applies to one field or variant, as opposed to a whole
//! struct or enum, for example `#[reflect(ignore)]`.

use vstd::prelude::*;
use crate::component::unexpected_property;
use crate::error::{
    errors_view, is_ident, lemma_errors_view_push, make_error, place, placed, ErrorKind,
    ErrorView, ResolutionError,
};
use crate::meta::{
    collect_leaves, leaves, lemma_no_relevant_leaves, relevant_leaves, walk, Expr, Lit, Meta,
};
use crate::syntax::{answer_at, answer_view, parse_expr_path};

verus! {

/// The namespace of the reflect-field descriptor.
pub const REFLECT_ATTRIBUTE_NAME: &'static str = "reflect";

/// The flag that hides a field from serialization only.
pub const IGNORE_SERIALIZATION_ATTR: &'static str = "skip_serializing";

/// The flag that hides a field from reflection and serialization.
pub const IGNORE_ALL_ATTR: &'static str = "ignore";

/// The flag and key that control how a hidden field is filled in.
pub const DEFAULT_ATTR: &'static str = "default";

/// Whether a field is visible to reflection and to serialization.
///
/// A member must be reflected in order to be serialized, so a field can be
/// reflected without being serialized but not the other way round.
#[derive(Clone, Copy, Debug, PartialEq, Eq, Structural)]
pub enum ReflectIgnoreBehavior {
    /// Not ignored: visible everywhere.
    NotIgnored,
    /// Ignored when serializing, not when reflecting.
    IgnoreSerialization,
    /// Ignored both when serializing and when reflecting.
    IgnoreAlways,
}

impl ReflectIgnoreBehavior {
    /// Whether the field takes part in reflection.
    pub open spec fn active(self) -> bool {
        self != ReflectIgnoreBehavior::IgnoreAlways
    }

    /// Whether the field is left out of reflection and serialization alike.
    pub open spec fn ignored(self) -> bool {
        self == ReflectIgnoreBehavior::IgnoreAlways
    }

    /// Every state is either active or ignored, and none is both.
    pub proof fn law_active_or_ignored(self)
        ensures
            self.active() != self.ignored(),
            self.active() || self.ignored(),
            !(self.active() && self.ignored()),
    {
    }

    /// Returns `true` if the field takes part in reflection.
    pub fn is_active(self) -> (r: bool)
        ensures
            r == self.active(),
            r == (self == ReflectIgnoreBehavior::NotIgnored || self
                == ReflectIgnoreBehavior::IgnoreSerialization),
    {
        match self {
            ReflectIgnoreBehavior::NotIgnored | ReflectIgnoreBehavior::IgnoreSerialization => true,
            ReflectIgnoreBehavior::IgnoreAlways => false,
        }
    }

    /// The exact opposite of `is_active`: `true` iff the field is neither
    /// reflected nor serialized.
    pub fn is_ignored(self) -> (r: bool)
        ensures
            r == self.ignored(),
            r == !self.active(),
    {
        !self.is_active()
    }
}

impl Default for ReflectIgnoreBehavior {
    fn default() -> (r: Self)
        ensures
            r == ReflectIgnoreBehavior::NotIgnored,
    {
        ReflectIgnoreBehavior::NotIgnored
    }
}

/// How the value of a field is made when it is not supplied.
#[derive(Clone, Debug, PartialEq, Eq)]
pub enum DefaultBehavior {
    /// The field is required.
    Required,
    /// The field is made by the default construction of its type.
    Default,
    /// The field is made by calling the function at this path, which takes no
    /// arguments and returns the field's type.
    Func(String),
}

/// The mathematical content of a [`DefaultBehavior`].
pub enum DefaultView {
    Required,
    Default,
    Func(Seq<char>),
}

impl View for DefaultBehavior {
    type V = DefaultView;

    open spec fn view(&self) -> DefaultView {
        match *self {
            DefaultBehavior::Required => DefaultView::Required,
            DefaultBehavior::Default => DefaultView::Default,
            DefaultBehavior::Func(path) => DefaultView::Func(path@),
        }
    }
}

impl Default for DefaultBehavior {
    fn default() -> (r: Self)
        ensures
            r@ == DefaultView::Required,
    {
        DefaultBehavior::Required
    }
}

/// The attributes resolved for one field.
#[derive(Clone, Debug, PartialEq, Eq)]
pub struct ReflectFieldAttr {
    /// How the field is ignored, if at all.
    pub ignore: ReflectIgnoreBehavior,
    /// How the field is made when it is not supplied.
    pub default: DefaultBehavior,
}

/// The mathematical content of a [`ReflectFieldAttr`].
pub struct FieldAttrView {
    pub ignore: ReflectIgnoreBehavior,
    pub default: DefaultView,
}

impl View for ReflectFieldAttr {
    type V = FieldAttrView;

    open spec fn view(&self) -> FieldAttrView {
        FieldAttrView { ignore: self.ignore, default: self.default@ }
    }
}

/// The descriptor of a field without attributes.
pub open spec fn initial_attr() -> FieldAttrView {
    FieldAttrView { ignore: ReflectIgnoreBehavior::NotIgnored, default: DefaultView::Required }
}

impl Default for ReflectFieldAttr {
    fn default() -> (r: Self)
        ensures
            r@ == initial_attr(),
    {
        ReflectFieldAttr { ignore: ReflectIgnoreBehavior::NotIgnored, default: DefaultBehavior::Required }
    }
}

/// The diagnostic for an ignore flag, written at `path`, that meets a slot
/// already set.
pub open spec fn conflicting_ignore(path: Seq<char>) -> ErrorView {
    ErrorView {
        kind: ErrorKind::ConflictingOption,
        at: None,
        node: path,
        message: "Only one of ['"@ + IGNORE_SERIALIZATION_ATTR@ + "','"@ + IGNORE_ALL_ATTR@
            + "'] is allowed"@,
    }
}

/// The diagnostic for a node named `name` that the descriptor does not know.
pub open spec fn unknown_parameter(name: Seq<char>) -> ErrorView {
    ErrorView {
        kind: ErrorKind::UnknownAttribute,
        at: None,
        node: name,
        message: "unknown attribute parameter: "@ + name,
    }
}

/// The diagnostic for `default = value` whose value, written `found`, is
/// neither a path nor a string literal. Its kind is `TypeMismatch` for a
/// literal of another shape and `MalformedDefaultTarget` for an expression
/// that is no literal at all; the message is the same.
pub open spec fn not_a_function_name(kind: ErrorKind, found: Seq<char>) -> ErrorView {
    ErrorView {
        kind,
        at: None,
        node: DEFAULT_ATTR@,
        message: "expected a string literal containing the name of a function, but found: "@
            + found,
    }
}

/// The diagnostic for `default = "text"` whose text is no path.
pub open spec fn malformed_default_target(text: Seq<char>) -> ErrorView {
    ErrorView {
        kind: ErrorKind::MalformedDefaultTarget,
        at: None,
        node: DEFAULT_ATTR@,
        message: "expected the path of a function, but found: "@ + text,
    }
}

/// The ignore slot is written at most once: a write succeeds only while the
/// slot is `NotIgnored`, whatever is written and whatever it holds.
pub open spec fn ignore_after(
    st: FieldAttrView,
    path: Seq<char>,
    behavior: ReflectIgnoreBehavior,
) -> Result<FieldAttrView, ErrorView> {
    if st.ignore == ReflectIgnoreBehavior::NotIgnored {
        Ok(FieldAttrView { ignore: behavior, default: st.default })
    } else {
        Err(conflicting_ignore(path))
    }
}

/// The text of an expression, as diagnostics show it. A string literal is
/// shown as its contents between double quotes, with nothing escaped, so for
/// contents that hold a quote or a backslash this is not the source text.
pub open spec fn expr_text(e: &Expr) -> Seq<char> {
    match *e {
        Expr::Path(p) => p@,
        Expr::Lit(Lit::Str(s)) => "\""@ + s@ + "\""@,
        Expr::Lit(Lit::Bool(b)) => if b {
            "true"@
        } else {
            "false"@
        },
        Expr::Lit(Lit::Other(t)) => t@,
        Expr::Other(t) => t@,
    }
}

/// The default behavior named by the text of a string literal, given what
/// the path parser made of the text.
pub open spec fn default_of(text: Seq<char>, parsed: Option<Seq<char>>) -> Result<
    DefaultView,
    ErrorView,
> {
    match parsed {
        Some(p) => Ok(DefaultView::Func(p)),
        None => Err(malformed_default_target(text)),
    }
}

/// What the pair `key = value` does to a descriptor, where `parsed` is what
/// the path parser made of a string value: `default` with a path, or with a
/// string literal that the parser reads as one, names the function that
/// makes the field. A literal of another shape is a `TypeMismatch`, any
/// other expression a `MalformedDefaultTarget`, and any other key is
/// unknown. Only a string literal asks the parser.
pub open spec fn name_value_effect(
    st: FieldAttrView,
    key: Seq<char>,
    value: &Expr,
    parsed: Option<Seq<char>>,
) -> Result<FieldAttrView, ErrorView> {
    if key == DEFAULT_ATTR@ {
        match *value {
            Expr::Path(p) => Ok(FieldAttrView { ignore: st.ignore, default: DefaultView::Func(p@) }),
            Expr::Lit(Lit::Str(s)) => match default_of(s@, parsed) {
                Ok(d) => Ok(FieldAttrView { ignore: st.ignore, default: d }),
                Err(e) => Err(e),
            },
            Expr::Lit(_) => Err(not_a_function_name(ErrorKind::TypeMismatch, expr_text(value))),
            Expr::Other(_) => Err(
                not_a_function_name(ErrorKind::MalformedDefaultTarget, expr_text(value)),
            ),
        }
    } else {
        Err(unknown_parameter(key))
    }
}

/// What one leaf under `reflect` does to a descriptor, where `parsed` is
/// what the path parser made of the leaf's string value. A diagnostic is
/// attached to the leaf's location.
pub open spec fn leaf_effect(st: FieldAttrView, m: &Meta, parsed: Option<Seq<char>>) -> Result<
    FieldAttrView,
    ErrorView,
> {
    match unplaced_leaf_effect(st, m, parsed) {
        Ok(attr) => Ok(attr),
        Err(e) => Err(placed(e, m.location())),
    }
}

/// What one leaf under `reflect` does to a descriptor, with a diagnostic
/// that is not yet attached to the leaf's location.
pub open spec fn unplaced_leaf_effect(st: FieldAttrView, m: &Meta, parsed: Option<Seq<char>>) -> Result<
    FieldAttrView,
    ErrorView,
> {
    match *m {
        Meta::Path(name) => if name@ == IGNORE_SERIALIZATION_ATTR@ {
            ignore_after(st, name@, ReflectIgnoreBehavior::IgnoreSerialization)
        } else if name@ == IGNORE_ALL_ATTR@ {
            ignore_after(st, name@, ReflectIgnoreBehavior::IgnoreAlways)
        } else if name@ == DEFAULT_ATTR@ {
            Ok(FieldAttrView { ignore: st.ignore, default: DefaultView::Default })
        } else {
            Err(unknown_parameter(name@))
        },
        Meta::NameValue(key, value) => name_value_effect(st, key@, &value, parsed),
        Meta::List(name, _) => Err(unexpected_property(name@)),
    }
}

/// Whether an effect is what a call made of a descriptor: on success the
/// descriptor after the call is the effect's, on failure the diagnostic is
/// the effect's and the descriptor is unchanged.
pub open spec fn effect_gives(
    effect: Result<FieldAttrView, ErrorView>,
    before: FieldAttrView,
    r: Result<(), ResolutionError>,
    after: FieldAttrView,
) -> bool {
    match effect {
        Ok(attr) => r is Ok && after == attr,
        Err(e) => r is Err && r->Err_0@ == e && after == before,
    }
}

/// Whether a call on the pair `key = value` did what the pair does under
/// the parser's answer `parsed`.
pub open spec fn name_value_gives(
    before: FieldAttrView,
    key: Seq<char>,
    value: &Expr,
    parsed: Option<Seq<char>>,
    r: Result<(), ResolutionError>,
    after: FieldAttrView,
) -> bool {
    effect_gives(name_value_effect(before, key, value, parsed), before, r, after)
}

/// Whether a call on leaf `m` did what the leaf does under the parser's
/// answer `parsed`.
pub open spec fn leaf_gives(
    before: FieldAttrView,
    m: &Meta,
    parsed: Option<Seq<char>>,
    r: Result<(), ResolutionError>,
    after: FieldAttrView,
) -> bool {
    effect_gives(leaf_effect(before, m, parsed), before, r, after)
}

/// A descriptor under construction together with the diagnostics so far.
pub struct FieldOutcome {
    pub attr: FieldAttrView,
    pub errors: Seq<ErrorView>,
}

/// The outcome of applying the first `n` leaves, in order, to `start`,
/// under the parser's answers by leaf: a well-formed leaf changes the
/// descriptor, a malformed one leaves it as it is and adds its diagnostic,
/// and every leaf is looked at.
pub open spec fn fold_field(
    start: FieldOutcome,
    leaves: Seq<&Meta>,
    answers: Seq<Option<Seq<char>>>,
    n: nat,
) -> FieldOutcome
    decreases n,
{
    if n == 0 || n > leaves.len() {
        start
    } else {
        let before = fold_field(start, leaves, answers, (n - 1) as nat);
        match leaf_effect(before.attr, leaves[n - 1], answer_at(answers, n - 1)) {
            Ok(attr) => FieldOutcome { attr, errors: before.errors },
            Err(e) => FieldOutcome { attr: before.attr, errors: before.errors.push(e) },
        }
    }
}

/// The outcome with which every resolution starts.
pub open spec fn initial_outcome() -> FieldOutcome {
    FieldOutcome { attr: initial_attr(), errors: Seq::empty() }
}

/// What the descriptor resolver makes of the attributes of a field, under
/// the parser's answers by leaf.
pub open spec fn resolve_field(attrs: &Vec<Meta>, answers: Seq<Option<Seq<char>>>) -> FieldOutcome {
    let leaves = relevant_leaves(REFLECT_ATTRIBUTE_NAME@, attrs, attrs@.len());
    fold_field(initial_outcome(), leaves, answers, leaves.len())
}

/// Whether `r` is the resolver's result for `attrs` under the parser's
/// answers by leaf: the descriptor where no leaf was malformed, else all the
/// diagnostics, in order.
pub open spec fn is_field_resolution(
    attrs: &Vec<Meta>,
    answers: Seq<Option<Seq<char>>>,
    r: Result<ReflectFieldAttr, Vec<ResolutionError>>,
) -> bool {
    let outcome = resolve_field(attrs, answers);
    match r {
        Ok(attr) => outcome.errors.len() == 0 && attr@ == outcome.attr,
        Err(errors) => outcome.errors.len() > 0 && errors_view(errors@) == outcome.errors,
    }
}

/// Whether a descriptor and a list of diagnostics are what the leaves make
/// of `start` under the parser's answers by leaf.
pub open spec fn leaves_give(
    start: FieldOutcome,
    leaves: Seq<&Meta>,
    answers: Seq<Option<Seq<char>>>,
    attr: FieldAttrView,
    errors: Seq<ErrorView>,
) -> bool {
    (FieldOutcome { attr, errors }) == fold_field(start, leaves, answers, leaves.len())
}

/// The fold over the first `n` leaves asks only for the first `n` answers.
pub proof fn lemma_fold_field_prefix(
    start: FieldOutcome,
    leaves: Seq<&Meta>,
    a: Seq<Option<Seq<char>>>,
    b: Seq<Option<Seq<char>>>,
    n: nat,
)
    requires
        forall|j: int| 0 <= j < n ==> answer_at(a, j) == answer_at(b, j),
    ensures
        fold_field(start, leaves, a, n) == fold_field(start, leaves, b, n),
    decreases n,
{
    if n > 0 && n <= leaves.len() {
        lemma_fold_field_prefix(start, leaves, a, b, (n - 1) as nat);
    }
}

impl ReflectFieldAttr {
    /// Writes the ignore slot on behalf of the flag written at `path`. The
    /// write is refused, and nothing changes, unless the slot is `NotIgnored`.
    /// The diagnostic is not attached to a location: the resolver attaches
    /// it to the leaf.
    pub fn set_ignore(&mut self, path: &str, behavior: ReflectIgnoreBehavior) -> (r: Result<
        (),
        ResolutionError,
    >)
        ensures
            effect_gives(ignore_after(old(self)@, path@, behavior), old(self)@, r, final(self)@),
    {
        if self.ignore == ReflectIgnoreBehavior::NotIgnored {
            self.ignore = behavior;
            Ok(())
        } else {
            let message = String::from_str("Only one of ['").concat(
                IGNORE_SERIALIZATION_ATTR,
            ).concat("','").concat(IGNORE_ALL_ATTR).concat("'] is allowed");
            Err(make_error(ErrorKind::ConflictingOption, path, message))
        }
    }
}

/// Chooses the default behavior for `default = "text"` from the text and
/// from what the path parser made of it.
pub fn default_from_parsed(text: &str, parsed: Option<String>) -> (r: Result<
    DefaultBehavior,
    ResolutionError,
>)
    ensures
        match default_of(text@, answer_view(parsed)) {
            Ok(d) => r is Ok && r->Ok_0@ == d,
            Err(e) => r is Err && r->Err_0@ == e,
        },
{
    match parsed {
        Some(p) => Ok(DefaultBehavior::Func(p)),
        None => {
            let message = String::from_str("expected the path of a function, but found: ").concat(
                text,
            );
            Err(make_error(ErrorKind::MalformedDefaultTarget, DEFAULT_ATTR, message))
        },
    }
}

/// The text of an expression, as diagnostics show it. A string literal is
/// shown as its contents between double quotes, with nothing escaped.
pub fn expr_to_text(e: &Expr) -> (r: String)
    ensures
        r@ == expr_text(e),
{
    match e {
        Expr::Path(p) => p.clone(),
        Expr::Lit(Lit::Str(s)) => String::from_str("\"").concat(s.as_str()).concat("\""),
        Expr::Lit(Lit::Bool(b)) => if *b {
            String::from_str("true")
        } else {
            String::from_str("false")
        },
        Expr::Lit(Lit::Other(t)) => t.clone(),
        Expr::Other(t) => t.clone(),
    }
}

fn unknown_attribute_parameter(name: &str) -> (e: ResolutionError)
    ensures
        e@ == unknown_parameter(name@),
{
    let message = String::from_str("unknown attribute parameter: ").concat(name);
    make_error(ErrorKind::UnknownAttribute, name, message)
}

/// Applies the pair `key = value` to `args`. On an error `args` is
/// unchanged. The diagnostic is not attached to a location: the
/// resolver attaches it to the leaf. For `default = "..."` the path parser is asked, and the call
/// does what `name_value_effect` gives for the answer that came back,
/// whichever it is; every other pair has one effect.
pub fn parse_name_value(args: &mut ReflectFieldAttr, key: &str, value: &Expr) -> (r: Result<
    (),
    ResolutionError,
>)
    ensures
        exists|parsed: Option<Seq<char>>| #[trigger]
            name_value_gives(old(args)@, key@, value, parsed, r, final(args)@),
{
    let ghost before = args@;
    let ghost mut answer: Option<Seq<char>> = None;
    let key_text = String::from_str(key);
    let r = if is_ident(&key_text, DEFAULT_ATTR) {
        match value {
            Expr::Path(p) => {
                args.default = DefaultBehavior::Func(p.clone());
                Ok(())
            },
            Expr::Lit(Lit::Str(s)) => {
                let parsed = match parse_expr_path(s.as_str()) {
                    Ok(p) => Some(p),
                    Err(_) => None,
                };
                proof {
                    answer = answer_view(parsed);
                }
                match default_from_parsed(s.as_str(), parsed) {
                    Ok(d) => {
                        args.default = d;
                        Ok(())
                    },
                    Err(e) => Err(e),
                }
            },
            Expr::Lit(_) => Err(not_function_name(ErrorKind::TypeMismatch, value)),
            Expr::Other(_) => Err(not_function_name(ErrorKind::MalformedDefaultTarget, value)),
        }
    } else {
        Err(unknown_attribute_parameter(key))
    };
    assert(name_value_gives(before, key@, value, answer, r, args@));
    r
}

fn not_function_name(kind: ErrorKind, value: &Expr) -> (e: ResolutionError)
    ensures
        e@ == not_a_function_name(kind, expr_text(value)),
{
    let found = expr_to_text(value);
    let message = String::from_str(
        "expected a string literal containing the name of a function, but found: ",
    ).concat(found.as_str());
    make_error(kind, DEFAULT_ATTR, message)
}

/// Applies one leaf to `args`. On an error `args` is unchanged. The call
/// does what `leaf_effect` gives for the answer of the path parser,
/// whichever it is; only `default = "..."` asks the parser.
pub fn parse_leaf(args: &mut ReflectFieldAttr, m: &Meta) -> (r: Result<(), ResolutionError>)
    ensures
        exists|parsed: Option<Seq<char>>| #[trigger]
            leaf_gives(old(args)@, m, parsed, r, final(args)@),
{
    let ghost before = args@;
    let ghost mut answer: Option<Seq<char>> = None;
    let done = match m {
        Meta::Path(name) => {
            if is_ident(&name.name, IGNORE_SERIALIZATION_ATTR) {
                args.set_ignore(name.as_str(), ReflectIgnoreBehavior::IgnoreSerialization)
            } else if is_ident(&name.name, IGNORE_ALL_ATTR) {
                args.set_ignore(name.as_str(), ReflectIgnoreBehavior::IgnoreAlways)
            } else if is_ident(&name.name, DEFAULT_ATTR) {
                args.default = DefaultBehavior::Default;
                Ok(())
            } else {
                Err(unknown_attribute_parameter(name.as_str()))
            }
        },
        Meta::NameValue(key, value) => {
            let pair = parse_name_value(args, key.as_str(), value);
            proof {
                answer = choose|parsed: Option<Seq<char>>|
                    name_value_gives(before, key@, value, parsed, pair, args@);
            }
            pair
        },
        Meta::List(name, _) => Err(
            make_error(
                ErrorKind::UnexpectedProperty,
                name.as_str(),
                String::from_str("unexpected property"),
            ),
        ),
    };
    assert(effect_gives(unplaced_leaf_effect(before, m, answer), before, done, args@));
    let r = match done {
        Ok(()) => Ok(()),
        Err(e) => Err(place(e, m.name().at)),
    };
    assert(leaf_gives(before, m, answer, r, args@));
    r
}

/// Applies the given leaves, in order, to `args`, and appends the diagnostic
/// of every malformed one to `errors`. No leaf is skipped. The outcome is
/// the one that `fold_field` gives for the answers that the path parser
/// gave, whichever they were.
pub fn apply_leaves(
    args: &mut ReflectFieldAttr,
    errors: &mut Vec<ResolutionError>,
    leaves: &Vec<&Meta>,
)
    ensures
        exists|answers: Seq<Option<Seq<char>>>| #[trigger]
            leaves_give(
                FieldOutcome { attr: old(args)@, errors: errors_view(old(errors)@) },
                leaves@,
                answers,
                final(args)@,
                errors_view(final(errors)@),
            ),
{
    let ghost start = FieldOutcome { attr: args@, errors: errors_view(errors@) };
    let ghost mut answers: Seq<Option<Seq<char>>> = Seq::empty();
    let mut i: usize = 0;
    while i < leaves.len()
        invariant
            i <= leaves@.len(),
            answers.len() == i,
            (FieldOutcome { attr: args@, errors: errors_view(errors@) }) == fold_field(
                start,
                leaves@,
                answers,
                i as nat,
            ),
        decreases leaves@.len() - i,
    {
        let ghost before = args@;
        let r = parse_leaf(args, leaves[i]);
        proof {
            let parsed = choose|parsed: Option<Seq<char>>|
                leaf_gives(before, leaves@[i as int], parsed, r, args@);
            lemma_fold_field_prefix(start, leaves@, answers, answers.push(parsed), i as nat);
            answers = answers.push(parsed);
        }
        match r {
            Ok(()) => {},
            Err(e) => {
                proof {
                    lemma_errors_view_push(errors@, e);
                }
                errors.push(e);
            },
        }
        i += 1;
    }
    assert(leaves_give(start, leaves@, answers, args@, errors_view(errors@)));
}

/// Walks one attribute tree under `reflect` and applies every leaf of it to
/// `args`, appending the diagnostic of every malformed leaf to `errors`.
pub fn parse_meta(args: &mut ReflectFieldAttr, errors: &mut Vec<ResolutionError>, meta: &Meta)
    ensures
        exists|answers: Seq<Option<Seq<char>>>| #[trigger]
            leaves_give(
                FieldOutcome { attr: old(args)@, errors: errors_view(old(errors)@) },
                leaves(REFLECT_ATTRIBUTE_NAME@, meta),
                answers,
                final(args)@,
                errors_view(final(errors)@),
            ),
{
    let ns = String::from_str(REFLECT_ATTRIBUTE_NAME);
    let mut found: Vec<&Meta> = Vec::new();
    collect_leaves(&ns, meta, &mut found);
    assert(found@ =~= leaves(REFLECT_ATTRIBUTE_NAME@, meta));
    let ghost start = FieldOutcome { attr: args@, errors: errors_view(errors@) };
    apply_leaves(args, errors, &found);
    proof {
        let answers = choose|answers: Seq<Option<Seq<char>>>|
            leaves_give(start, found@, answers, args@, errors_view(errors@));
        assert(leaves_give(
            start,
            leaves(REFLECT_ATTRIBUTE_NAME@, meta),
            answers,
            args@,
            errors_view(errors@),
        ));
    }
}

/// Resolves the `reflect` attributes of a field. Attributes of other
/// namespaces are not looked at. The descriptor is returned where no node is
/// malformed; else the diagnostics of all malformed nodes, in order. The
/// result is the one that `resolve_field` gives for the answers that the
/// path parser gave, whichever they were.
pub fn parse_field_attrs(attrs: &Vec<Meta>) -> (r: Result<ReflectFieldAttr, Vec<ResolutionError>>)
    ensures
        exists|answers: Seq<Option<Seq<char>>>| #[trigger] is_field_resolution(attrs, answers, r),
{
    let ns = String::from_str(REFLECT_ATTRIBUTE_NAME);
    let found = walk(&ns, attrs);
    let mut args = ReflectFieldAttr::default();
    let mut errors: Vec<ResolutionError> = Vec::new();
    assert(errors_view(errors@) =~= Seq::<ErrorView>::empty());
    apply_leaves(&mut args, &mut errors, &found);
    let ghost answers = choose|answers: Seq<Option<Seq<char>>>|
        leaves_give(initial_outcome(), found@, answers, args@, errors_view(errors@));
    if errors.len() == 0 {
        assert(is_field_resolution(
            attrs,
            answers,
            Ok::<ReflectFieldAttr, Vec<ResolutionError>>(args),
        ));
        Ok(args)
    } else {
        assert(is_field_resolution(
            attrs,
            answers,
            Err::<ReflectFieldAttr, Vec<ResolutionError>>(errors),
        ));
        Err(errors)
    }
}

/// The number of malformed leaves among the first `n`, each judged against
/// the descriptor that the leaves before it have built.
pub open spec fn failures(
    start: FieldOutcome,
    leaves: Seq<&Meta>,
    answers: Seq<Option<Seq<char>>>,
    n: nat,
) -> nat
    decreases n,
{
    if n == 0 || n > leaves.len() {
        0
    } else {
        let before = fold_field(start, leaves, answers, (n - 1) as nat);
        let here: nat = if leaf_effect(before.attr, leaves[n - 1], answer_at(answers, n - 1))
            is Err {
            1
        } else {
            0
        };
        failures(start, leaves, answers, (n - 1) as nat) + here
    }
}

/// Every malformed leaf is reported: the fold adds exactly one diagnostic
/// for each, and keeps those it started with. No failure hides a later one.
pub proof fn law_every_failure_is_reported(
    start: FieldOutcome,
    leaves: Seq<&Meta>,
    answers: Seq<Option<Seq<char>>>,
    n: nat,
)
    requires
        n <= leaves.len(),
    ensures
        fold_field(start, leaves, answers, n).errors.len() == start.errors.len() + failures(
            start,
            leaves,
            answers,
            n,
        ),
        fold_field(start, leaves, answers, n).errors.subrange(0, start.errors.len() as int)
            == start.errors,
    decreases n,
{
    if n > 0 {
        law_every_failure_is_reported(start, leaves, answers, (n - 1) as nat);
        let before = fold_field(start, leaves, answers, (n - 1) as nat);
        let after = fold_field(start, leaves, answers, n);
        assert(after.errors.subrange(0, start.errors.len() as int) =~= before.errors.subrange(
            0,
            start.errors.len() as int,
        ));
    } else {
        assert(start.errors.subrange(0, start.errors.len() as int) =~= start.errors);
    }
}

/// A field without attributes under `reflect` resolves to the initial
/// descriptor, with no diagnostic, whatever other attributes it carries and
/// whatever the parser would say.
pub proof fn law_unannotated_field_resolves_to_initial(attrs: &Vec<Meta>)
    requires
        forall|i: int| 0 <= i < attrs@.len() ==> attrs@[i].head() != REFLECT_ATTRIBUTE_NAME@,
    ensures
        forall|answers: Seq<Option<Seq<char>>>| #[trigger]
            resolve_field(attrs, answers) == initial_outcome(),
        forall|answers: Seq<Option<Seq<char>>>, r: Result<ReflectFieldAttr, Vec<ResolutionError>>|
            #[trigger] is_field_resolution(attrs, answers, r) ==> r is Ok && r->Ok_0@
                == initial_attr(),
{
    lemma_no_relevant_leaves(REFLECT_ATTRIBUTE_NAME@, attrs, attrs@.len());
}

/// After one attempt to set an ignore flag, a second attempt is a conflict:
/// whichever flags the two attempts carry, equal or not, and whether or not
/// the first attempt itself succeeded.
pub proof fn law_second_ignore_conflicts(
    st: FieldAttrView,
    first_path: Seq<char>,
    first: ReflectIgnoreBehavior,
    second_path: Seq<char>,
    second: ReflectIgnoreBehavior,
)
    requires
        first != ReflectIgnoreBehavior::NotIgnored,
    ensures
        ({
            let mid = match ignore_after(st, first_path, first) {
                Ok(attr) => attr,
                Err(_) => st,
            };
            &&& ignore_after(mid, second_path, second) == Err::<FieldAttrView, ErrorView>(
                conflicting_ignore(second_path),
            )
            &&& conflicting_ignore(second_path).kind == ErrorKind::ConflictingOption
        }),
{
}

/// Whether a leaf is one of the two ignore flags.
pub open spec fn is_ignore_flag(m: &Meta) -> bool {
    m is Path && (m.head() == IGNORE_SERIALIZATION_ATTR@ || m.head() == IGNORE_ALL_ATTR@)
}

/// Two ignore flags in a row: whatever the descriptor held before, and
/// whichever flag each of the two leaves spells, the second leaf is refused
/// as a conflict.
pub proof fn law_second_ignore_flag_conflicts(st: FieldAttrView, first: &Meta, second: &Meta)
    requires
        is_ignore_flag(first),
        is_ignore_flag(second),
    ensures
        forall|a: Option<Seq<char>>, b: Option<Seq<char>>|
            #![trigger leaf_effect(st, first, a), leaf_effect(st, second, b)]
            ({
                let mid = match leaf_effect(st, first, a) {
                    Ok(attr) => attr,
                    Err(_) => st,
                };
                leaf_effect(mid, second, b) == Err::<FieldAttrView, ErrorView>(
                    placed(conflicting_ignore(second.head()), second.location()),
                )
            }),
        conflicting_ignore(second.head()).kind == ErrorKind::ConflictingOption,
{
}

/// The two spellings of a named default agree: where the parser reads the
/// text of a string literal as the path `path`, `default = "text"` has the
/// effect of `default = path`, and the descriptor then carries `path`.
pub proof fn law_default_spellings_agree(st: FieldAttrView, text: String, path: String)
    ensures
        forall|any: Option<Seq<char>>| #[trigger]
            name_value_effect(st, DEFAULT_ATTR@, &Expr::Path(path), any) == name_value_effect(
                st,
                DEFAULT_ATTR@,
                &Expr::Lit(Lit::Str(text)),
                Some(path@),
            ),
        name_value_effect(st, DEFAULT_ATTR@, &Expr::Lit(Lit::Str(text)), Some(path@)) == Ok::<
            FieldAttrView,
            ErrorView,
        >(FieldAttrView { ignore: st.ignore, default: DefaultView::Func(path@) }),
{
}

/// Whether a leaf asks the path parser: only `default = "..."` does.
pub open spec fn asks_parser(m: &Meta) -> bool {
    match *m {
        Meta::NameValue(key, Expr::Lit(Lit::Str(_))) => key@ == DEFAULT_ATTR@,
        _ => false,
    }
}

/// Resolution is a function of the attributes and of what the parser says
/// of their string values: two results for the same attributes under the
/// same answers agree on success and hold the same descriptor, or the same
/// diagnostics.
pub proof fn law_field_resolution_is_deterministic(
    attrs: &Vec<Meta>,
    answers: Seq<Option<Seq<char>>>,
    a: Result<ReflectFieldAttr, Vec<ResolutionError>>,
    b: Result<ReflectFieldAttr, Vec<ResolutionError>>,
)
    requires
        is_field_resolution(attrs, answers, a),
        is_field_resolution(attrs, answers, b),
    ensures
        a is Ok <==> b is Ok,
        a is Ok ==> a->Ok_0@ == b->Ok_0@,
        a is Err ==> errors_view(a->Err_0@) == errors_view(b->Err_0@),
{
}

/// Where no leaf asks the parser, the outcome does not depend on the
/// parser at all: it is the same under any two sequences of answers.
pub proof fn law_outcome_without_parser_is_fixed(
    start: FieldOutcome,
    leaves: Seq<&Meta>,
    a: Seq<Option<Seq<char>>>,
    b: Seq<Option<Seq<char>>>,
    n: nat,
)
    requires
        n <= leaves.len(),
        forall|j: int| 0 <= j < n ==> !asks_parser(#[trigger] leaves[j]),
    ensures
        fold_field(start, leaves, a, n) == fold_field(start, leaves, b, n),
    decreases n,
{
    if n > 0 {
        law_outcome_without_parser_is_fixed(start, leaves, a, b, (n - 1) as nat);
        assert(!asks_parser(leaves[n - 1]));
    }
}

} // verus!
