use attr_resolve::error::{place, ErrorKind, ResolutionError};
use attr_resolve::field_attributes::{
    apply_leaves, default_from_parsed, expr_to_text, parse_field_attrs, parse_leaf, parse_meta,
    parse_name_value, DefaultBehavior, ReflectFieldAttr, ReflectIgnoreBehavior,
};
use attr_resolve::meta::{collect_leaves, Expr, Ident, Lit, Meta};

fn text(s: &str) -> String {
    String::from(s)
}

fn ident(s: &str) -> Ident {
    Ident { name: String::from(s), at: 0 }
}

fn at(s: &str, at: u64) -> Ident {
    Ident { name: String::from(s), at }
}

fn flag(name: &str) -> Meta {
    Meta::Path(ident(name))
}

fn reflect(children: Vec<Meta>) -> Meta {
    Meta::List(ident("reflect"), children)
}

fn default_str(value: &str) -> Meta {
    Meta::NameValue(ident("default"), Expr::Lit(Lit::Str(text(value))))
}

fn fresh() -> ReflectFieldAttr {
    ReflectFieldAttr::default()
}

#[test]
fn defaults_are_not_ignored_and_required() {
    assert_eq!(ReflectIgnoreBehavior::default(), ReflectIgnoreBehavior::NotIgnored);
    assert_eq!(DefaultBehavior::default(), DefaultBehavior::Required);
    let attr = fresh();
    assert_eq!(attr.ignore, ReflectIgnoreBehavior::NotIgnored);
    assert_eq!(attr.default, DefaultBehavior::Required);
}

#[test]
fn no_relevant_attributes_resolve_to_the_default() {
    assert_eq!(parse_field_attrs(&Vec::new()), Ok(fresh()));
    let attrs = vec![
        Meta::List(ident("component"), vec![flag("ignore")]),
        Meta::NameValue(ident("doc"), Expr::Lit(Lit::Str(text("ignore")))),
        flag("serde"),
    ];
    assert_eq!(parse_field_attrs(&attrs), Ok(fresh()));
    assert_eq!(parse_field_attrs(&vec![reflect(Vec::new())]), Ok(fresh()));
}

#[test]
fn active_and_ignored_are_complements() {
    let states = [
        ReflectIgnoreBehavior::NotIgnored,
        ReflectIgnoreBehavior::IgnoreSerialization,
        ReflectIgnoreBehavior::IgnoreAlways,
    ];
    for s in states.iter() {
        assert_ne!(s.is_active(), s.is_ignored());
    }
    assert!(ReflectIgnoreBehavior::NotIgnored.is_active());
    assert!(ReflectIgnoreBehavior::IgnoreSerialization.is_active());
    assert!(!ReflectIgnoreBehavior::IgnoreAlways.is_active());
    assert!(ReflectIgnoreBehavior::IgnoreAlways.is_ignored());
}

#[test]
fn ignore_flags_set_the_slot() {
    let r = parse_field_attrs(&vec![reflect(vec![flag("ignore")])]).unwrap();
    assert_eq!(r.ignore, ReflectIgnoreBehavior::IgnoreAlways);
    assert_eq!(r.default, DefaultBehavior::Required);
    let r = parse_field_attrs(&vec![reflect(vec![flag("skip_serializing")])]).unwrap();
    assert_eq!(r.ignore, ReflectIgnoreBehavior::IgnoreSerialization);
}

#[test]
fn second_ignore_always_conflicts() {
    let flavors = [
        ReflectIgnoreBehavior::IgnoreSerialization,
        ReflectIgnoreBehavior::IgnoreAlways,
    ];
    for first in flavors.iter() {
        for second in flavors.iter() {
            let mut attr = fresh();
            assert_eq!(attr.set_ignore("first", *first), Ok(()));
            assert_eq!(attr.ignore, *first);
            let err = attr.set_ignore("second", *second).unwrap_err();
            assert_eq!(err.kind, ErrorKind::ConflictingOption);
            assert_eq!(err.node, "second");
            assert_eq!(err.message, "Only one of ['skip_serializing','ignore'] is allowed");
            assert_eq!(attr.ignore, *first);
        }
    }
}

#[test]
fn second_ignore_flag_conflicts_in_a_group() {
    let names = ["skip_serializing", "ignore"];
    for first in names.iter() {
        for second in names.iter() {
            let errors =
                parse_field_attrs(&vec![reflect(vec![flag(first), flag(second)])]).unwrap_err();
            assert_eq!(errors.len(), 1);
            assert_eq!(errors[0].kind, ErrorKind::ConflictingOption);
            assert_eq!(errors[0].node, *second);
        }
    }
}

#[test]
fn two_malformed_nodes_give_two_errors() {
    let attrs = vec![reflect(vec![
        flag("ignore"),
        Meta::NameValue(ident("colour"), Expr::Lit(Lit::Str(text("red")))),
        flag("skip_serializing"),
    ])];
    let errors = parse_field_attrs(&attrs).unwrap_err();
    assert_eq!(errors.len(), 2);
    assert_eq!(errors[0].kind, ErrorKind::UnknownAttribute);
    assert_eq!(errors[0].node, "colour");
    assert_eq!(errors[0].message, "unknown attribute parameter: colour");
    assert_eq!(errors[1].kind, ErrorKind::ConflictingOption);
    assert_eq!(errors[1].node, "skip_serializing");
}

#[test]
fn three_malformed_annotations_give_three_errors() {
    let attrs = vec![
        reflect(vec![flag("one")]),
        flag("unrelated"),
        reflect(vec![flag("default"), Meta::List(ident("serde"), Vec::new())]),
        reflect(vec![Meta::NameValue(ident("default"), Expr::Lit(Lit::Other(text("5"))))]),
    ];
    let errors = parse_field_attrs(&attrs).unwrap_err();
    assert_eq!(errors.len(), 3);
    assert_eq!(errors[0].kind, ErrorKind::UnknownAttribute);
    assert_eq!(errors[0].message, "unknown attribute parameter: one");
    assert_eq!(errors[1].kind, ErrorKind::UnexpectedProperty);
    assert_eq!(errors[1].node, "serde");
    assert_eq!(errors[1].message, "unexpected property");
    assert_eq!(errors[2].kind, ErrorKind::TypeMismatch);
    assert_eq!(errors[2].node, "default");
    assert_eq!(
        errors[2].message,
        "expected a string literal containing the name of a function, but found: 5"
    );
}

#[test]
fn bare_default_uses_the_default_trait() {
    let r = parse_field_attrs(&vec![reflect(vec![flag("default")])]).unwrap();
    assert_eq!(r.default, DefaultBehavior::Default);
    assert_eq!(r.ignore, ReflectIgnoreBehavior::NotIgnored);
}

#[test]
fn default_spellings_agree() {
    let from_string = parse_field_attrs(&vec![reflect(vec![default_str("make_value")])]);
    let from_path = parse_field_attrs(&vec![reflect(vec![Meta::NameValue(
        ident("default"),
        Expr::Path(text("make_value")),
    )])]);
    let expected = ReflectFieldAttr {
        ignore: ReflectIgnoreBehavior::NotIgnored,
        default: DefaultBehavior::Func(text("make_value")),
    };
    assert_eq!(from_string, Ok(expected.clone()));
    assert_eq!(from_path, Ok(expected));
}

#[test]
fn default_string_is_read_as_a_path() {
    let r = parse_field_attrs(&vec![reflect(vec![default_str(" make_value  ")])]).unwrap();
    assert_eq!(r.default, DefaultBehavior::Func(text("make_value")));
}

#[test]
fn default_string_that_is_no_path_is_refused() {
    let errors = parse_field_attrs(&vec![reflect(vec![default_str("foo::bar(1)")])]).unwrap_err();
    assert_eq!(errors.len(), 1);
    assert_eq!(errors[0].kind, ErrorKind::MalformedDefaultTarget);
    assert_eq!(errors[0].node, "default");
    assert_eq!(errors[0].message, "expected the path of a function, but found: foo::bar(1)");
}

#[test]
fn default_value_of_another_shape_is_refused() {
    let mut attr = fresh();
    let err = parse_name_value(&mut attr, "default", &Expr::Lit(Lit::Bool(true))).unwrap_err();
    assert_eq!(err.kind, ErrorKind::TypeMismatch);
    assert_eq!(
        err.message,
        "expected a string literal containing the name of a function, but found: true"
    );
    let err = parse_name_value(&mut attr, "default", &Expr::Other(text("f()"))).unwrap_err();
    assert_eq!(err.kind, ErrorKind::MalformedDefaultTarget);
    assert_eq!(
        err.message,
        "expected a string literal containing the name of a function, but found: f()"
    );
    assert_eq!(attr, fresh());
}

#[test]
fn unknown_key_is_refused_and_changes_nothing() {
    let mut attr = fresh();
    let err = parse_name_value(&mut attr, "defualt", &Expr::Path(text("f"))).unwrap_err();
    assert_eq!(err.kind, ErrorKind::UnknownAttribute);
    assert_eq!(err.node, "defualt");
    assert_eq!(err.message, "unknown attribute parameter: defualt");
    assert_eq!(attr, fresh());
}

#[test]
fn last_default_wins() {
    let attrs = vec![reflect(vec![
        default_str("first"),
        flag("default"),
        Meta::NameValue(ident("default"), Expr::Path(text("last"))),
    ])];
    let r = parse_field_attrs(&attrs).unwrap();
    assert_eq!(r.default, DefaultBehavior::Func(text("last")));
    let attrs = vec![reflect(vec![default_str("first")]), reflect(vec![flag("default")])];
    assert_eq!(parse_field_attrs(&attrs).unwrap().default, DefaultBehavior::Default);
}

#[test]
fn ignore_and_default_combine() {
    let attrs = vec![reflect(vec![flag("ignore"), default_str("make_value")])];
    let r = parse_field_attrs(&attrs).unwrap();
    assert_eq!(r.ignore, ReflectIgnoreBehavior::IgnoreAlways);
    assert_eq!(r.default, DefaultBehavior::Func(text("make_value")));
}

#[test]
fn foreign_group_inside_reflect_is_an_unexpected_property() {
    let attrs = vec![reflect(vec![Meta::List(ident("refelct"), vec![flag("ignore")])])];
    let errors = parse_field_attrs(&attrs).unwrap_err();
    assert_eq!(errors.len(), 1);
    assert_eq!(errors[0].kind, ErrorKind::UnexpectedProperty);
    assert_eq!(errors[0].node, "refelct");
}

#[test]
fn bare_namespace_is_an_unknown_parameter() {
    let errors = parse_field_attrs(&vec![flag("reflect")]).unwrap_err();
    assert_eq!(errors.len(), 1);
    assert_eq!(errors[0].message, "unknown attribute parameter: reflect");
}

#[test]
fn nested_reflect_groups_are_flattened() {
    let attrs = vec![reflect(vec![reflect(vec![flag("skip_serializing")]), flag("default")])];
    let r = parse_field_attrs(&attrs).unwrap();
    assert_eq!(r.ignore, ReflectIgnoreBehavior::IgnoreSerialization);
    assert_eq!(r.default, DefaultBehavior::Default);
}

#[test]
fn resolution_is_repeatable() {
    let good = vec![reflect(vec![flag("ignore"), default_str("make_value")])];
    assert_eq!(parse_field_attrs(&good), parse_field_attrs(&good));
    let bad = vec![reflect(vec![flag("ignore"), flag("ignore"), flag("what")])];
    let first = parse_field_attrs(&bad);
    let second = parse_field_attrs(&bad);
    assert!(first.is_err());
    assert_eq!(first, second);
}

#[test]
fn parse_meta_walks_one_tree() {
    let mut attr = fresh();
    let mut errors: Vec<ResolutionError> = Vec::new();
    let tree = reflect(vec![flag("ignore"), flag("bogus"), flag("default"), flag("ignore")]);
    parse_meta(&mut attr, &mut errors, &tree);
    assert_eq!(attr.ignore, ReflectIgnoreBehavior::IgnoreAlways);
    assert_eq!(attr.default, DefaultBehavior::Default);
    assert_eq!(errors.len(), 2);
    assert_eq!(errors[0].node, "bogus");
    assert_eq!(errors[1].kind, ErrorKind::ConflictingOption);
}

#[test]
fn parse_meta_keeps_earlier_errors() {
    let mut attr = fresh();
    let mut errors: Vec<ResolutionError> = Vec::new();
    parse_meta(&mut attr, &mut errors, &flag("x"));
    parse_meta(&mut attr, &mut errors, &flag("skip_serializing"));
    parse_meta(&mut attr, &mut errors, &Meta::List(ident("serde"), Vec::new()));
    assert_eq!(errors.len(), 2);
    assert_eq!(errors[0].node, "x");
    assert_eq!(errors[1].node, "serde");
    assert_eq!(attr.ignore, ReflectIgnoreBehavior::IgnoreSerialization);
}

#[test]
fn parse_leaf_applies_one_node() {
    let mut attr = fresh();
    assert_eq!(parse_leaf(&mut attr, &flag("default")), Ok(()));
    assert_eq!(attr.default, DefaultBehavior::Default);
    let err = parse_leaf(&mut attr, &reflect(Vec::new())).unwrap_err();
    assert_eq!(err.kind, ErrorKind::UnexpectedProperty);
}

#[test]
fn apply_leaves_visits_every_leaf() {
    let tree = reflect(vec![flag("a"), flag("b"), flag("ignore"), flag("c")]);
    let ns = text("reflect");
    let mut leaves: Vec<&Meta> = Vec::new();
    collect_leaves(&ns, &tree, &mut leaves);
    assert_eq!(leaves.len(), 4);
    let mut attr = fresh();
    let mut errors: Vec<ResolutionError> = Vec::new();
    apply_leaves(&mut attr, &mut errors, &leaves);
    assert_eq!(errors.len(), 3);
    assert_eq!(attr.ignore, ReflectIgnoreBehavior::IgnoreAlways);
}

#[test]
fn default_from_parsed_covers_both_outcomes() {
    assert_eq!(
        default_from_parsed("f", Some(text("f"))),
        Ok(DefaultBehavior::Func(text("f")))
    );
    let err = default_from_parsed("1 + 1", None).unwrap_err();
    assert_eq!(err.kind, ErrorKind::MalformedDefaultTarget);
    assert_eq!(err.message, "expected the path of a function, but found: 1 + 1");
}

#[test]
fn expressions_are_shown_as_written() {
    assert_eq!(expr_to_text(&Expr::Path(text("a::b"))), "a::b");
    assert_eq!(expr_to_text(&Expr::Lit(Lit::Str(text("s")))), "\"s\"");
    assert_eq!(expr_to_text(&Expr::Lit(Lit::Bool(true))), "true");
    assert_eq!(expr_to_text(&Expr::Lit(Lit::Bool(false))), "false");
    assert_eq!(expr_to_text(&Expr::Lit(Lit::Other(text("7u8")))), "7u8");
    assert_eq!(expr_to_text(&Expr::Other(text("a + b"))), "a + b");
}

#[test]
fn leaves_of_one_name_are_told_apart_by_location() {
    let attrs = vec![Meta::List(
        at("reflect", 10),
        vec![
            Meta::Path(at("ignore", 11)),
            Meta::Path(at("ignore", 12)),
            Meta::Path(at("ignore", 13)),
        ],
    )];
    let errors = parse_field_attrs(&attrs).unwrap_err();
    assert_eq!(errors.len(), 2);
    assert_eq!(errors[0].node, "ignore");
    assert_eq!(errors[0].at, Some(12));
    assert_eq!(errors[1].node, "ignore");
    assert_eq!(errors[1].at, Some(13));
}

#[test]
fn every_kind_of_leaf_reports_its_own_location() {
    let mut attr = fresh();
    let err = parse_leaf(&mut attr, &Meta::Path(at("bogus", 4))).unwrap_err();
    assert_eq!(err.at, Some(4));
    let err = parse_leaf(&mut attr, &Meta::List(at("serde", 5), Vec::new())).unwrap_err();
    assert_eq!(err.at, Some(5));
    let pair = Meta::NameValue(at("default", 6), Expr::Lit(Lit::Str(text("f(1)"))));
    let err = parse_leaf(&mut attr, &pair).unwrap_err();
    assert_eq!(err.kind, ErrorKind::MalformedDefaultTarget);
    assert_eq!(err.at, Some(6));
}

#[test]
fn direct_calls_leave_the_location_open() {
    let mut attr = fresh();
    attr.set_ignore("ignore", ReflectIgnoreBehavior::IgnoreAlways).unwrap();
    let err = attr.set_ignore("ignore", ReflectIgnoreBehavior::IgnoreAlways).unwrap_err();
    assert_eq!(err.at, None);
    let moved = place(err, 9);
    assert_eq!(moved.at, Some(9));
    assert_eq!(moved.kind, ErrorKind::ConflictingOption);
    assert_eq!(moved.node, "ignore");
}

#[test]
fn string_content_is_shown_unescaped() {
    assert_eq!(expr_to_text(&Expr::Lit(Lit::Str(text("a\"b")))), "\"a\"b\"");
}
