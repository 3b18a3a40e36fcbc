//! Scenario tests for member classification, validation and typestate
//! derivation.

use builder_core::diagnostic::DiagnosticKind;
use builder_core::field::{Field, FieldOrigin};
use builder_core::params::SpannedDefault;
use builder_core::span::Span;
use builder_core::syntax::{Attr, DocFragment, Expr, Meta, MetaItem};
use builder_core::ty::{SlotMarker, Ty};

fn sp(pos: u64) -> Span {
    Span { pos }
}

fn named(t: &str) -> Ty {
    Ty::Named(t.to_string())
}

fn opt_of(t: Ty) -> Ty {
    Ty::Opt(Box::new(t))
}

fn builder_attr(items: Vec<MetaItem>) -> Attr {
    Attr::Builder(sp(1), items)
}

fn item(key: &str, key_pos: u64, value: Meta) -> MetaItem {
    MetaItem {
        key: key.to_string(),
        key_span: sp(key_pos),
        value,
    }
}

fn new_field(attrs: Vec<Attr>, ident: &str, ty: Ty) -> Result<Field, builder_core::diagnostic::Diagnostic> {
    Field::new(FieldOrigin::FnArg, &attrs, ident.to_string(), ty)
}

#[test]
fn plain_u32_is_required() {
    let f = new_field(vec![], "x1", named("u32")).unwrap();
    assert_eq!(f.as_optional(), None);
    assert_eq!(f.unset_state_type(), SlotMarker::RequiredSlot(named("u32")));
    assert_eq!(f.set_state_type_param(), named("u32"));
    assert_eq!(f.set_state_type(), SlotMarker::SetSlot(named("u32")));
    assert_eq!(f.state_assoc_type_ident, "X1");
}

#[test]
fn option_u32_is_optional_with_stripped_inner() {
    let f = new_field(vec![], "x2", opt_of(named("u32"))).unwrap();
    assert_eq!(f.as_optional(), Some(named("u32")));
    assert_eq!(f.unset_state_type(), SlotMarker::OptionalSlot(named("u32")));
    assert_eq!(f.set_state_type_param(), opt_of(named("u32")));
    assert_eq!(f.set_state_type(), SlotMarker::SetSlot(opt_of(named("u32"))));
}

#[test]
fn default_expression_makes_plain_type_optional_unstripped() {
    let attrs = vec![builder_attr(vec![item(
        "default",
        2,
        Meta::NameValue(
            sp(3),
            Expr {
                text: "2 + 2".to_string(),
                span: sp(4),
            },
        ),
    )])];
    let f = new_field(attrs, "x3", named("u32")).unwrap();
    assert_eq!(f.as_optional(), Some(named("u32")));
    assert_eq!(f.set_state_type_param(), opt_of(named("u32")));
    let d = f.params.default.as_ref().unwrap();
    assert_eq!(d.span, sp(3));
    assert_eq!(d.expr.as_ref().unwrap().text, "2 + 2");
}

#[test]
fn required_with_default_on_bool_reports_conflict_at_required() {
    let attrs = vec![builder_attr(vec![
        item("required", 10, Meta::Path(sp(11))),
        item(
            "default",
            12,
            Meta::NameValue(
                sp(13),
                Expr {
                    text: "true".to_string(),
                    span: sp(14),
                },
            ),
        ),
    ])];
    let err = new_field(attrs, "flag", Ty::Bool).unwrap_err();
    assert_eq!(err.kind, DiagnosticKind::RequiredDefaultConflict);
    assert_eq!(err.span, sp(11));
}

#[test]
fn bare_default_on_option_is_redundant_and_names_the_wrapper() {
    let attrs = vec![builder_attr(vec![item("default", 20, Meta::Path(sp(21)))])];
    let err = new_field(attrs, "n", opt_of(named("u32"))).unwrap_err();
    assert_eq!(err.kind, DiagnosticKind::RedundantDefault);
    assert_eq!(err.span, sp(21));
    assert!(err.message.contains("Option"));
}

#[test]
fn bare_default_on_bool_is_redundant_and_names_bool() {
    let attrs = vec![builder_attr(vec![item("default", 20, Meta::Path(sp(21)))])];
    let err = new_field(attrs, "flag", Ty::Bool).unwrap_err();
    assert_eq!(err.kind, DiagnosticKind::RedundantDefault);
    assert!(err.message.contains("bool"));
}

#[test]
fn required_on_option_is_rejected() {
    let attrs = vec![builder_attr(vec![item("required", 30, Meta::Path(sp(31)))])];
    let err = new_field(attrs, "n", opt_of(named("u32"))).unwrap_err();
    assert_eq!(err.kind, DiagnosticKind::RequiredOnOptionalWrapper);
    assert_eq!(err.span, sp(31));
}

#[test]
fn required_on_plain_type_is_rejected() {
    let attrs = vec![builder_attr(vec![item("required", 40, Meta::Path(sp(41)))])];
    let err = new_field(attrs, "x", named("String")).unwrap_err();
    assert_eq!(err.kind, DiagnosticKind::RequiredOnNonBoolean);
    assert_eq!(err.span, sp(41));
}

#[test]
fn bool_with_required_classifies_required() {
    let attrs = vec![builder_attr(vec![item("required", 50, Meta::Path(sp(51)))])];
    let f = new_field(attrs, "flag", Ty::Bool).unwrap();
    assert_eq!(f.as_optional(), None);
    assert_eq!(f.unset_state_type(), SlotMarker::RequiredSlot(Ty::Bool));
    assert_eq!(f.set_state_type(), SlotMarker::SetSlot(Ty::Bool));
}

#[test]
fn plain_bool_classifies_optional_unstripped() {
    let f = new_field(vec![], "flag", Ty::Bool).unwrap();
    assert_eq!(f.as_optional(), Some(Ty::Bool));
    assert_eq!(f.unset_state_type(), SlotMarker::OptionalSlot(Ty::Bool));
    assert_eq!(f.set_state_type_param(), opt_of(Ty::Bool));
    assert_eq!(f.set_state_type(), SlotMarker::SetSlot(opt_of(Ty::Bool)));
}

#[test]
fn revalidating_a_valid_member_is_a_noop() {
    let f = new_field(vec![], "x2", opt_of(named("u32"))).unwrap();
    assert!(f.validate().is_ok());
    assert!(f.validate().is_ok());
    let u1 = f.unset_state_type();
    let u2 = f.unset_state_type();
    let p1 = f.set_state_type_param();
    let p2 = f.set_state_type_param();
    let s1 = f.set_state_type();
    let s2 = f.set_state_type();
    assert_eq!(u1, u2);
    assert_eq!(p1, p2);
    assert_eq!(s1, s2);
}

#[test]
fn unset_and_set_markers_differ_only_in_the_head() {
    let required = new_field(vec![], "x1", named("u32")).unwrap();
    assert_eq!(required.unset_state_type(), SlotMarker::RequiredSlot(named("u32")));
    assert_eq!(required.set_state_type(), SlotMarker::SetSlot(named("u32")));

    let optional = new_field(vec![], "x2", opt_of(named("u32"))).unwrap();
    assert_eq!(optional.unset_state_type(), SlotMarker::OptionalSlot(named("u32")));
    assert_eq!(
        optional.set_state_type(),
        SlotMarker::SetSlot(opt_of(named("u32")))
    );
}

#[test]
fn doc_fragments_are_collected_in_order() {
    let attrs = vec![
        Attr::Doc(DocFragment {
            text: "first line".to_string(),
            span: sp(60),
        }),
        Attr::Other(sp(61)),
        Attr::Doc(DocFragment {
            text: "second line".to_string(),
            span: sp(62),
        }),
    ];
    let f = new_field(attrs, "x", named("u32")).unwrap();
    assert_eq!(f.docs.len(), 2);
    assert_eq!(f.docs[0].text, "first line");
    assert_eq!(f.docs[1].text, "second line");
}

#[test]
fn self_referential_doc_link_is_rejected() {
    let attrs = vec![
        Attr::Doc(DocFragment {
            text: "fine text".to_string(),
            span: sp(70),
        }),
        Attr::Doc(DocFragment {
            text: "see [Self] for details".to_string(),
            span: sp(71),
        }),
    ];
    let err = new_field(attrs, "x", named("u32")).unwrap_err();
    assert_eq!(err.kind, DiagnosticKind::SelfReferentialDoc);
    assert_eq!(err.span, sp(71));
}

#[test]
fn backticked_self_link_is_rejected_too() {
    let attrs = vec![Attr::Doc(DocFragment {
        text: "see [`Self`] for details".to_string(),
        span: sp(72),
    })];
    let err = new_field(attrs, "x", named("u32")).unwrap_err();
    assert_eq!(err.kind, DiagnosticKind::SelfReferentialDoc);
}

#[test]
fn near_miss_self_mention_is_accepted() {
    let attrs = vec![Attr::Doc(DocFragment {
        text: "about [SelfIsh] values and Self generally".to_string(),
        span: sp(73),
    })];
    assert!(new_field(attrs, "x", named("u32")).is_ok());
}

#[test]
fn nested_option_strips_one_wrapper_only() {
    let f = new_field(vec![], "x", opt_of(opt_of(named("u32")))).unwrap();
    assert_eq!(f.as_optional(), Some(opt_of(named("u32"))));
    assert_eq!(
        f.set_state_type_param(),
        opt_of(opt_of(named("u32")))
    );
}

#[test]
fn origin_descriptions() {
    assert_eq!(FieldOrigin::FnArg.description(), "function argument");
    assert_eq!(FieldOrigin::StructField.description(), "struct field");
    let f = new_field(vec![], "x", named("u32")).unwrap();
    assert_eq!(f.origin, FieldOrigin::FnArg);
}

#[test]
fn validation_order_wrapper_conflict_wins_over_redundant_default() {
    // A member that violates several rules reports the first one in the
    // documented order: required-on-wrapper comes before redundant-default.
    let attrs = vec![builder_attr(vec![
        item("default", 80, Meta::Path(sp(81))),
        item("required", 82, Meta::Path(sp(83))),
    ])];
    let err = new_field(attrs, "n", opt_of(named("u32"))).unwrap_err();
    assert_eq!(err.kind, DiagnosticKind::RequiredOnOptionalWrapper);
    assert_eq!(err.span, sp(83));
}
