//! Tests for the annotation parsers, the strict-boolean primitive, the
//! top-level parameter records, and the text utilities.

use builder_core::diagnostic::DiagnosticKind;
use builder_core::item_params::{BuilderParams, ItemParams};
use builder_core::params::FieldParams;
use builder_core::span::Span;
use builder_core::strict_bool::{SpannedBool, StrictBool};
use builder_core::syntax::{Attr, Expr, Meta, MetaItem};
use builder_core::text::{contains_substr, is_valid_ident, str_eq, to_pascal_case};

fn sp(pos: u64) -> Span {
    Span { pos }
}

fn expr(text: &str, pos: u64) -> Expr {
    Expr {
        text: text.to_string(),
        span: sp(pos),
    }
}

fn item(key: &str, key_pos: u64, value: Meta) -> MetaItem {
    MetaItem {
        key: key.to_string(),
        key_span: sp(key_pos),
        value,
    }
}

#[test]
fn strict_bool_from_word_is_true() {
    assert!(StrictBool::from_word().value);
}

#[test]
fn strict_bool_from_bool_accepts_false_only() {
    assert!(!StrictBool::from_bool(false).unwrap().value);
    assert_eq!(
        StrictBool::from_bool(true).unwrap_err(),
        DiagnosticKind::RedundantTrueLiteral
    );
}

#[test]
fn strict_bool_meta_forms() {
    let bare = StrictBool::from_meta("into", &Meta::Path(sp(1))).unwrap();
    assert_eq!(bare, SpannedBool { value: true, span: sp(1) });

    let explicit_false =
        StrictBool::from_meta("into", &Meta::NameValue(sp(2), expr("false", 3))).unwrap();
    assert_eq!(explicit_false, SpannedBool { value: false, span: sp(2) });

    let redundant =
        StrictBool::from_meta("into", &Meta::NameValue(sp(4), expr("true", 5))).unwrap_err();
    assert_eq!(redundant.kind, DiagnosticKind::RedundantTrueLiteral);
    assert_eq!(redundant.span, sp(4));
    assert!(redundant.message.contains("= true"));

    let listed = StrictBool::from_meta("into", &Meta::List(sp(6), vec![])).unwrap_err();
    assert_eq!(listed.kind, DiagnosticKind::UnsupportedAnnotationShape);

    let odd =
        StrictBool::from_meta("into", &Meta::NameValue(sp(7), expr("maybe", 8))).unwrap_err();
    assert_eq!(odd.kind, DiagnosticKind::UnsupportedAnnotationShape);
}

#[test]
fn field_params_parse_all_three_keys() {
    let attrs = vec![Attr::Builder(
        sp(0),
        vec![
            item("into", 1, Meta::Path(sp(2))),
            item("default", 3, Meta::NameValue(sp(4), expr("7", 5))),
            item("required", 6, Meta::Path(sp(7))),
        ],
    )];
    let p = FieldParams::from_attributes(&attrs).unwrap();
    assert_eq!(p.into, Some(SpannedBool { value: true, span: sp(2) }));
    let d = p.default.unwrap();
    assert_eq!(d.span, sp(4));
    assert_eq!(d.expr.unwrap().text, "7");
    assert_eq!(p.required, Some(sp(7)));
}

#[test]
fn field_params_merge_across_attributes() {
    let attrs = vec![
        Attr::Builder(sp(0), vec![item("into", 1, Meta::Path(sp(2)))]),
        Attr::Other(sp(3)),
        Attr::Builder(sp(4), vec![item("required", 5, Meta::Path(sp(6)))]),
    ];
    let p = FieldParams::from_attributes(&attrs).unwrap();
    assert_eq!(p.into, Some(SpannedBool { value: true, span: sp(2) }));
    assert_eq!(p.required, Some(sp(6)));
    assert!(p.default.is_none());
}

#[test]
fn duplicate_key_is_rejected_across_attributes() {
    let attrs = vec![
        Attr::Builder(sp(0), vec![item("default", 1, Meta::Path(sp(2)))]),
        Attr::Builder(sp(3), vec![item("default", 4, Meta::Path(sp(5)))]),
    ];
    let err = FieldParams::from_attributes(&attrs).unwrap_err();
    assert_eq!(err.kind, DiagnosticKind::DuplicateAnnotationKey);
    assert_eq!(err.span, sp(4));
    assert!(err.message.contains("default"));
}

#[test]
fn unknown_key_is_rejected_with_its_name() {
    let attrs = vec![Attr::Builder(
        sp(0),
        vec![item("defualt", 1, Meta::Path(sp(2)))],
    )];
    let err = FieldParams::from_attributes(&attrs).unwrap_err();
    assert_eq!(err.kind, DiagnosticKind::UnknownAnnotationKey);
    assert_eq!(err.span, sp(1));
    assert!(err.message.contains("defualt"));
}

#[test]
fn list_valued_default_is_unsupported() {
    let attrs = vec![Attr::Builder(
        sp(0),
        vec![item("default", 1, Meta::List(sp(2), vec![]))],
    )];
    let err = FieldParams::from_attributes(&attrs).unwrap_err();
    assert_eq!(err.kind, DiagnosticKind::UnsupportedAnnotationShape);
    assert_eq!(err.span, sp(2));
}

#[test]
fn value_assigned_required_is_unsupported() {
    let attrs = vec![Attr::Builder(
        sp(0),
        vec![item("required", 1, Meta::NameValue(sp(2), expr("true", 3)))],
    )];
    let err = FieldParams::from_attributes(&attrs).unwrap_err();
    assert_eq!(err.kind, DiagnosticKind::UnsupportedAnnotationShape);
    assert_eq!(err.span, sp(2));
}

#[test]
fn into_false_is_recorded() {
    let attrs = vec![Attr::Builder(
        sp(0),
        vec![item("into", 1, Meta::NameValue(sp(2), expr("false", 3)))],
    )];
    let p = FieldParams::from_attributes(&attrs).unwrap();
    assert_eq!(p.into, Some(SpannedBool { value: false, span: sp(2) }));
}

#[test]
fn item_params_shorthand_sets_name_only() {
    let p = ItemParams::from_meta(&Meta::NameValue(sp(1), expr("build2", 2))).unwrap();
    assert_eq!(p.name.as_deref(), Some("build2"));
    assert!(p.vis.is_none());
}

#[test]
fn item_params_shorthand_rejects_non_identifier() {
    let err = ItemParams::from_meta(&Meta::NameValue(sp(1), expr("1bad", 2))).unwrap_err();
    assert_eq!(err.kind, DiagnosticKind::InvalidIdentifier);
    assert_eq!(err.span, sp(2));
    assert!(err.message.contains("1bad"));
}

#[test]
fn item_params_full_form_sets_name_and_vis() {
    let m = Meta::List(
        sp(0),
        vec![
            item("name", 1, Meta::NameValue(sp(2), expr("maker", 3))),
            item("vis", 4, Meta::NameValue(sp(5), expr("pub(crate)", 6))),
        ],
    );
    let p = ItemParams::from_meta(&m).unwrap();
    assert_eq!(p.name.as_deref(), Some("maker"));
    assert_eq!(p.vis.as_deref(), Some("pub(crate)"));
}

#[test]
fn item_params_full_form_rejects_duplicate_name() {
    let m = Meta::List(
        sp(0),
        vec![
            item("name", 1, Meta::NameValue(sp(2), expr("a", 3))),
            item("name", 4, Meta::NameValue(sp(5), expr("b", 6))),
        ],
    );
    let err = ItemParams::from_meta(&m).unwrap_err();
    assert_eq!(err.kind, DiagnosticKind::DuplicateAnnotationKey);
    assert_eq!(err.span, sp(4));
}

#[test]
fn item_params_full_form_rejects_unknown_key() {
    let m = Meta::List(sp(0), vec![item("rename", 1, Meta::Path(sp(2)))]);
    let err = ItemParams::from_meta(&m).unwrap_err();
    assert_eq!(err.kind, DiagnosticKind::UnknownAnnotationKey);
}

#[test]
fn item_params_bare_marker_is_unsupported() {
    let err = ItemParams::from_meta(&Meta::Path(sp(9))).unwrap_err();
    assert_eq!(err.kind, DiagnosticKind::UnsupportedAnnotationShape);
    assert_eq!(err.span, sp(9));
}

#[test]
fn item_params_default_is_empty() {
    let p = ItemParams::default();
    assert!(p.name.is_none());
    assert!(p.vis.is_none());
}

#[test]
fn builder_params_parse_both_keys() {
    let m = Meta::List(
        sp(0),
        vec![
            item("finish_fn", 1, Meta::NameValue(sp(2), expr("build2", 3))),
            item("builder_type", 4, Meta::NameValue(sp(5), expr("MyBuilder", 6))),
        ],
    );
    let p = BuilderParams::from_meta(&m).unwrap();
    assert_eq!(p.finish_fn.as_deref(), Some("build2"));
    assert_eq!(p.builder_type.as_deref(), Some("MyBuilder"));
}

#[test]
fn builder_params_reject_non_identifier_value() {
    let m = Meta::List(
        sp(0),
        vec![item("finish_fn", 1, Meta::NameValue(sp(2), expr("not an ident", 3)))],
    );
    let err = BuilderParams::from_meta(&m).unwrap_err();
    assert_eq!(err.kind, DiagnosticKind::InvalidIdentifier);
}

#[test]
fn builder_params_reject_value_assignment_shape() {
    let err = BuilderParams::from_meta(&Meta::NameValue(sp(1), expr("x", 2))).unwrap_err();
    assert_eq!(err.kind, DiagnosticKind::UnsupportedAnnotationShape);
    assert_eq!(err.span, sp(1));
}

#[test]
fn pascal_casing_drops_underscores_and_capitalizes_segments() {
    assert_eq!(to_pascal_case("x1"), "X1");
    assert_eq!(to_pascal_case("foo_bar"), "FooBar");
    assert_eq!(to_pascal_case("_leading"), "Leading");
    assert_eq!(to_pascal_case("a__b_"), "AB");
    assert_eq!(to_pascal_case("already_Upper"), "AlreadyUpper");
    assert_eq!(to_pascal_case(""), "");
}

#[test]
fn identifier_validity() {
    assert!(is_valid_ident("x"));
    assert!(is_valid_ident("_private2"));
    assert!(is_valid_ident("MyBuilder"));
    assert!(!is_valid_ident(""));
    assert!(!is_valid_ident("_"));
    assert!(!is_valid_ident("1bad"));
    assert!(!is_valid_ident("has space"));
    assert!(!is_valid_ident("has-dash"));
}

#[test]
fn string_equality_and_substring_search() {
    assert!(str_eq("abc", "abc"));
    assert!(!str_eq("abc", "abd"));
    assert!(!str_eq("abc", "abcd"));
    assert!(contains_substr("look: [Self] here", "[Self]"));
    assert!(!contains_substr("look: [Self here", "[Self]"));
    assert!(contains_substr("anything", ""));
    assert!(!contains_substr("", "x"));
}
