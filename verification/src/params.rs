//! The per-member annotation parser: turns the raw attributes attached to a
//! member into the structured parameter record, rejecting unknown keys,
//! duplicate keys and unsupported value shapes.

use vstd::prelude::*;
use crate::diagnostic::{diag_matches, DiagInfo, Diagnostic, DiagnosticKind};
use crate::span::Span;
use crate::strict_bool::{SpannedBool, StrictBool};
use crate::syntax::{Attr, Expr, Meta, MetaItem};
use crate::text::str_eq;

verus! {

/// A `default` annotation: presence with no expression means "use the
/// type's intrinsic default"; presence with an expression means "use this
/// expression when unset". The span anchors diagnostics about the
/// annotation.
#[derive(Debug, PartialEq, Eq)]
pub struct SpannedDefault {
    /// The default expression, absent for the bare-marker form.
    pub expr: Option<Expr>,
    /// Where the annotation stands in the source.
    pub span: Span,
}

impl Clone for SpannedDefault {
    fn clone(&self) -> (r: Self)
        ensures
            r == *self,
    {
        SpannedDefault {
            expr: match &self.expr {
                Some(e) => Some(e.clone()),
                None => None,
            },
            span: self.span,
        }
    }
}

/// The structured parameter record of one member: the annotations the user
/// gave, parsed and validated for surface shape.
#[derive(Debug, PartialEq, Eq)]
pub struct FieldParams {
    /// Overrides the generator's decision on whether the setter accepts a
    /// value convertible into the declared type.
    pub into: Option<SpannedBool>,
    /// Declares the member optional-with-default.
    pub default: Option<SpannedDefault>,
    /// Forces required classification regardless of type-implied
    /// optionality; holds the marker's source position.
    pub required: Option<Span>,
}

impl Clone for FieldParams {
    fn clone(&self) -> (r: Self)
        ensures
            r == *self,
    {
        FieldParams {
            into: self.into,
            default: match &self.default {
                Some(d) => Some(d.clone()),
                None => None,
            },
            required: self.required,
        }
    }
}

/// The record with no annotation given.
pub open spec fn spec_empty_params() -> FieldParams {
    FieldParams { into: None, default: None, required: None }
}

/// What parsing a `default` annotation value yields: a bare marker means
/// "use the intrinsic default", a value-assignment captures the expression
/// verbatim, and the list shape is unsupported.
pub open spec fn spec_parse_optional_expression(m: Meta) -> Result<SpannedDefault, DiagInfo> {
    match m {
        Meta::Path(sp) => Ok(SpannedDefault { expr: None, span: sp }),
        Meta::List(sp, _) => Err(
            DiagInfo {
                kind: DiagnosticKind::UnsupportedAnnotationShape,
                span: sp,
                subject: "default"@,
            },
        ),
        Meta::NameValue(sp, e) => Ok(SpannedDefault { expr: Some(e), span: sp }),
    }
}

/// Parses the value of a `default` annotation.
pub fn parse_optional_expression(m: &Meta) -> (r: Result<SpannedDefault, Diagnostic>)
    ensures
        match r {
            Ok(d) => spec_parse_optional_expression(*m) == Ok::<SpannedDefault, DiagInfo>(d),
            Err(d) => spec_parse_optional_expression(*m) matches Err(e) && diag_matches(d, e),
        },
{
    match m {
        Meta::Path(sp) => Ok(SpannedDefault { expr: None, span: *sp }),
        Meta::List(sp, _) => Err(
            Diagnostic::new(DiagnosticKind::UnsupportedAnnotationShape, *sp, "default"),
        ),
        Meta::NameValue(sp, e) => Ok(SpannedDefault { expr: Some(e.clone()), span: *sp }),
    }
}

/// What folding one annotation entry into the partial record yields. The
/// three recognized keys are `into`, `default` and `required`; a key given
/// twice and a key outside this set are rejected.
pub open spec fn spec_parse_one(item: MetaItem, acc: FieldParams) -> Result<FieldParams, DiagInfo> {
    if item.key@ == "into"@ {
        if acc.into is Some {
            Err(
                DiagInfo {
                    kind: DiagnosticKind::DuplicateAnnotationKey,
                    span: item.key_span,
                    subject: "into"@,
                },
            )
        } else {
            match StrictBool::spec_parse(item.value, "into"@) {
                Ok(b) => Ok(FieldParams { into: Some(b), default: acc.default, required: acc.required }),
                Err(e) => Err(e),
            }
        }
    } else if item.key@ == "default"@ {
        if acc.default is Some {
            Err(
                DiagInfo {
                    kind: DiagnosticKind::DuplicateAnnotationKey,
                    span: item.key_span,
                    subject: "default"@,
                },
            )
        } else {
            match spec_parse_optional_expression(item.value) {
                Ok(d) => Ok(FieldParams { into: acc.into, default: Some(d), required: acc.required }),
                Err(e) => Err(e),
            }
        }
    } else if item.key@ == "required"@ {
        if acc.required is Some {
            Err(
                DiagInfo {
                    kind: DiagnosticKind::DuplicateAnnotationKey,
                    span: item.key_span,
                    subject: "required"@,
                },
            )
        } else {
            match item.value {
                Meta::Path(sp) => Ok(
                    FieldParams { into: acc.into, default: acc.default, required: Some(sp) },
                ),
                _ => Err(
                    DiagInfo {
                        kind: DiagnosticKind::UnsupportedAnnotationShape,
                        span: item.value.span_of(),
                        subject: "required"@,
                    },
                ),
            }
        }
    } else {
        Err(
            DiagInfo {
                kind: DiagnosticKind::UnknownAnnotationKey,
                span: item.key_span,
                subject: item.key@,
            },
        )
    }
}

/// Folds a run of annotation entries into the partial record, stopping at
/// the first violation.
pub open spec fn spec_parse_items(items: Seq<MetaItem>, acc: FieldParams) -> Result<
    FieldParams,
    DiagInfo,
>
    decreases items.len(),
{
    if items.len() == 0 {
        Ok(acc)
    } else {
        match spec_parse_one(items[0], acc) {
            Ok(acc2) => spec_parse_items(items.drop_first(), acc2),
            Err(e) => Err(e),
        }
    }
}

/// Folds every builder annotation of the attribute run into the partial
/// record, in source order, stopping at the first violation. Documentation
/// comments and foreign attributes are passed over.
pub open spec fn spec_parse_attrs(attrs: Seq<Attr>, acc: FieldParams) -> Result<
    FieldParams,
    DiagInfo,
>
    decreases attrs.len(),
{
    if attrs.len() == 0 {
        Ok(acc)
    } else {
        match attrs[0] {
            Attr::Builder(_, items) => match spec_parse_items(items@, acc) {
                Ok(acc2) => spec_parse_attrs(attrs.drop_first(), acc2),
                Err(e) => Err(e),
            },
            _ => spec_parse_attrs(attrs.drop_first(), acc),
        }
    }
}

/// What parsing the full attribute run of a member yields.
pub open spec fn spec_parse_params(attrs: Seq<Attr>) -> Result<FieldParams, DiagInfo> {
    spec_parse_attrs(attrs, spec_empty_params())
}

fn parse_one(item: &MetaItem, acc: FieldParams) -> (r: Result<FieldParams, Diagnostic>)
    ensures
        match r {
            Ok(p) => spec_parse_one(*item, acc) == Ok::<FieldParams, DiagInfo>(p),
            Err(d) => spec_parse_one(*item, acc) matches Err(e) && diag_matches(d, e),
        },
{
    if str_eq(item.key.as_str(), "into") {
        if acc.into.is_some() {
            Err(
                Diagnostic::new(DiagnosticKind::DuplicateAnnotationKey, item.key_span, "into"),
            )
        } else {
            match StrictBool::from_meta("into", &item.value) {
                Ok(b) => Ok(
                    FieldParams { into: Some(b), default: acc.default, required: acc.required },
                ),
                Err(d) => Err(d),
            }
        }
    } else if str_eq(item.key.as_str(), "default") {
        if acc.default.is_some() {
            Err(
                Diagnostic::new(DiagnosticKind::DuplicateAnnotationKey, item.key_span, "default"),
            )
        } else {
            match parse_optional_expression(&item.value) {
                Ok(d) => Ok(
                    FieldParams { into: acc.into, default: Some(d), required: acc.required },
                ),
                Err(d) => Err(d),
            }
        }
    } else if str_eq(item.key.as_str(), "required") {
        if acc.required.is_some() {
            Err(
                Diagnostic::new(DiagnosticKind::DuplicateAnnotationKey, item.key_span, "required"),
            )
        } else {
            match &item.value {
                Meta::Path(sp) => Ok(
                    FieldParams { into: acc.into, default: acc.default, required: Some(*sp) },
                ),
                other => Err(
                    Diagnostic::new(
                        DiagnosticKind::UnsupportedAnnotationShape,
                        other.span(),
                        "required",
                    ),
                ),
            }
        }
    } else {
        Err(
            Diagnostic::new(
                DiagnosticKind::UnknownAnnotationKey,
                item.key_span,
                item.key.as_str(),
            ),
        )
    }
}

impl FieldParams {
    /// Parses the structured parameter record out of the raw attribute run
    /// attached to a member, reporting the first violation.
    pub fn from_attributes(attrs: &Vec<Attr>) -> (r: Result<FieldParams, Diagnostic>)
        ensures
            match r {
                Ok(p) => spec_parse_params(attrs@) == Ok::<FieldParams, DiagInfo>(p),
                Err(d) => spec_parse_params(attrs@) matches Err(e) && diag_matches(d, e),
            },
    {
        let mut acc = FieldParams { into: None, default: None, required: None };
        let mut i: usize = 0;
        proof {
            assert(attrs@.skip(0) =~= attrs@);
        }
        while i < attrs.len()
            invariant
                i <= attrs@.len(),
                spec_parse_attrs(attrs@, spec_empty_params()) == spec_parse_attrs(
                    attrs@.skip(i as int),
                    acc,
                ),
            decreases attrs@.len() - i,
        {
            proof {
                assert(attrs@.skip(i as int).drop_first() =~= attrs@.skip(i + 1));
                assert(attrs@.skip(i as int)[0] == attrs@[i as int]);
            }
            match &attrs[i] {
                Attr::Builder(_, items) => {
                    let mut j: usize = 0;
                    proof {
                        assert(items@.skip(0) =~= items@);
                    }
                    while j < items.len()
                        invariant
                            j <= items@.len(),
                            i < attrs@.len(),
                            attrs@[i as int] matches Attr::Builder(_, its) && its@ == items@,
                            spec_parse_attrs(attrs@, spec_empty_params()) == match spec_parse_items(
                                items@.skip(j as int),
                                acc,
                            ) {
                                Ok(a) => spec_parse_attrs(attrs@.skip(i + 1), a),
                                Err(e) => Err(e),
                            },
                        decreases items@.len() - j,
                    {
                        proof {
                            assert(items@.skip(j as int).drop_first() =~= items@.skip(j + 1));
                            assert(items@.skip(j as int)[0] == items@[j as int]);
                        }
                        match parse_one(&items[j], acc) {
                            Ok(acc2) => {
                                acc = acc2;
                            },
                            Err(d) => {
                                return Err(d);
                            },
                        }
                        j = j + 1;
                    }
                    proof {
                        assert(items@.skip(items@.len() as int) =~= Seq::<MetaItem>::empty());
                    }
                },
                _ => {
                },
            }
            i = i + 1;
        }
        proof {
            assert(attrs@.skip(attrs@.len() as int) =~= Seq::<Attr>::empty());
        }
        Ok(acc)
    }
}

} // verus!
