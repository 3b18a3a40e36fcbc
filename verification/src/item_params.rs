//! The two top-level parameter records consumed by the surrounding
//! generator: builder-level identifier overrides, and the name-or-visibility
//! override shorthand.

use vstd::prelude::*;
use crate::diagnostic::{diag_matches, DiagInfo, Diagnostic, DiagnosticKind};
use crate::syntax::{Meta, MetaItem};
use crate::text::{is_valid_ident, spec_is_valid_ident, str_eq};

verus! {

/// Builder-level overrides: optional replacement identifiers for the
/// generated finishing method and for the generated builder type.
#[derive(Debug, PartialEq, Eq)]
pub struct BuilderParams {
    /// Renames the generated finishing method.
    pub finish_fn: Option<String>,
    /// Renames the generated builder type.
    pub builder_type: Option<String>,
}

impl Clone for BuilderParams {
    fn clone(&self) -> (r: Self)
        ensures
            r == *self,
    {
        BuilderParams {
            finish_fn: match &self.finish_fn {
                Some(s) => Some(s.clone()),
                None => None,
            },
            builder_type: match &self.builder_type {
                Some(s) => Some(s.clone()),
                None => None,
            },
        }
    }
}

/// A name-or-visibility override for one generated item. The shorthand
/// surface form `= <identifier>` sets the name alone; the full list form
/// exposes both the name and the visibility.
#[derive(Debug, PartialEq, Eq)]
pub struct ItemParams {
    /// Renames the generated item.
    pub name: Option<String>,
    /// Overrides the generated item's visibility, kept verbatim.
    pub vis: Option<String>,
}

impl Clone for ItemParams {
    fn clone(&self) -> (r: Self)
        ensures
            r == *self,
    {
        ItemParams {
            name: match &self.name {
                Some(s) => Some(s.clone()),
                None => None,
            },
            vis: match &self.vis {
                Some(s) => Some(s.clone()),
                None => None,
            },
        }
    }
}

impl Default for ItemParams {
    /// The record with no override given.
    fn default() -> (r: Self)
        ensures
            r.name is None,
            r.vis is None,
    {
        ItemParams { name: None, vis: None }
    }
}

/// What folding one entry of the full override form into the partial record
/// yields. `name` must be assigned a well-formed identifier; `vis` is kept
/// verbatim; both reject repetition, and every other key is unknown.
pub open spec fn spec_item_param_one(item: MetaItem, acc: ItemParams) -> Result<
    ItemParams,
    DiagInfo,
> {
    if item.key@ == "name"@ {
        if acc.name is Some {
            Err(
                DiagInfo {
                    kind: DiagnosticKind::DuplicateAnnotationKey,
                    span: item.key_span,
                    subject: "name"@,
                },
            )
        } else {
            match item.value {
                Meta::NameValue(_, e) => if spec_is_valid_ident(e.text@) {
                    Ok(ItemParams { name: Some(e.text), vis: acc.vis })
                } else {
                    Err(
                        DiagInfo {
                            kind: DiagnosticKind::InvalidIdentifier,
                            span: e.span,
                            subject: e.text@,
                        },
                    )
                },
                _ => Err(
                    DiagInfo {
                        kind: DiagnosticKind::UnsupportedAnnotationShape,
                        span: item.value.span_of(),
                        subject: "name"@,
                    },
                ),
            }
        }
    } else if item.key@ == "vis"@ {
        if acc.vis is Some {
            Err(
                DiagInfo {
                    kind: DiagnosticKind::DuplicateAnnotationKey,
                    span: item.key_span,
                    subject: "vis"@,
                },
            )
        } else {
            match item.value {
                Meta::NameValue(_, e) => Ok(ItemParams { name: acc.name, vis: Some(e.text) }),
                _ => Err(
                    DiagInfo {
                        kind: DiagnosticKind::UnsupportedAnnotationShape,
                        span: item.value.span_of(),
                        subject: "vis"@,
                    },
                ),
            }
        }
    } else {
        Err(
            DiagInfo {
                kind: DiagnosticKind::UnknownAnnotationKey,
                span: item.key_span,
                subject: item.key@,
            },
        )
    }
}

/// Folds the entries of the full override form, stopping at the first
/// violation.
pub open spec fn spec_item_params_items(items: Seq<MetaItem>, acc: ItemParams) -> Result<
    ItemParams,
    DiagInfo,
>
    decreases items.len(),
{
    if items.len() == 0 {
        Ok(acc)
    } else {
        match spec_item_param_one(items[0], acc) {
            Ok(acc2) => spec_item_params_items(items.drop_first(), acc2),
            Err(e) => Err(e),
        }
    }
}

/// What parsing a name-or-visibility override yields: the shorthand
/// value-assignment form sets the name alone and must be a well-formed
/// identifier; the list form is parsed as the full record; a bare marker
/// supports neither reading.
pub open spec fn spec_item_params(m: Meta) -> Result<ItemParams, DiagInfo> {
    match m {
        Meta::NameValue(_, e) => if spec_is_valid_ident(e.text@) {
            Ok(ItemParams { name: Some(e.text), vis: None })
        } else {
            Err(
                DiagInfo {
                    kind: DiagnosticKind::InvalidIdentifier,
                    span: e.span,
                    subject: e.text@,
                },
            )
        },
        Meta::List(_, items) => spec_item_params_items(
            items@,
            ItemParams { name: None, vis: None },
        ),
        Meta::Path(sp) => Err(
            DiagInfo {
                kind: DiagnosticKind::UnsupportedAnnotationShape,
                span: sp,
                subject: "override"@,
            },
        ),
    }
}

/// What folding one entry of the builder-level override list into the
/// partial record yields. Both recognized keys must be assigned well-formed
/// identifiers and reject repetition; every other key is unknown.
pub open spec fn spec_builder_param_one(item: MetaItem, acc: BuilderParams) -> Result<
    BuilderParams,
    DiagInfo,
> {
    if item.key@ == "finish_fn"@ || item.key@ == "builder_type"@ {
        let taken = if item.key@ == "finish_fn"@ {
            acc.finish_fn is Some
        } else {
            acc.builder_type is Some
        };
        if taken {
            Err(
                DiagInfo {
                    kind: DiagnosticKind::DuplicateAnnotationKey,
                    span: item.key_span,
                    subject: item.key@,
                },
            )
        } else {
            match item.value {
                Meta::NameValue(_, e) => if spec_is_valid_ident(e.text@) {
                    if item.key@ == "finish_fn"@ {
                        Ok(BuilderParams { finish_fn: Some(e.text), builder_type: acc.builder_type })
                    } else {
                        Ok(BuilderParams { finish_fn: acc.finish_fn, builder_type: Some(e.text) })
                    }
                } else {
                    Err(
                        DiagInfo {
                            kind: DiagnosticKind::InvalidIdentifier,
                            span: e.span,
                            subject: e.text@,
                        },
                    )
                },
                _ => Err(
                    DiagInfo {
                        kind: DiagnosticKind::UnsupportedAnnotationShape,
                        span: item.value.span_of(),
                        subject: item.key@,
                    },
                ),
            }
        }
    } else {
        Err(
            DiagInfo {
                kind: DiagnosticKind::UnknownAnnotationKey,
                span: item.key_span,
                subject: item.key@,
            },
        )
    }
}

/// Folds the entries of the builder-level override list, stopping at the
/// first violation.
pub open spec fn spec_builder_params_items(items: Seq<MetaItem>, acc: BuilderParams) -> Result<
    BuilderParams,
    DiagInfo,
>
    decreases items.len(),
{
    if items.len() == 0 {
        Ok(acc)
    } else {
        match spec_builder_param_one(items[0], acc) {
            Ok(acc2) => spec_builder_params_items(items.drop_first(), acc2),
            Err(e) => Err(e),
        }
    }
}

/// What parsing the builder-level overrides yields: only the structured
/// list form is supported.
pub open spec fn spec_builder_params(m: Meta) -> Result<BuilderParams, DiagInfo> {
    match m {
        Meta::List(_, items) => spec_builder_params_items(
            items@,
            BuilderParams { finish_fn: None, builder_type: None },
        ),
        _ => Err(
            DiagInfo {
                kind: DiagnosticKind::UnsupportedAnnotationShape,
                span: m.span_of(),
                subject: "builder"@,
            },
        ),
    }
}

fn builder_param_one(item: &MetaItem, acc: BuilderParams) -> (r: Result<BuilderParams, Diagnostic>)
    ensures
        match r {
            Ok(p) => spec_builder_param_one(*item, acc) == Ok::<BuilderParams, DiagInfo>(p),
            Err(d) => spec_builder_param_one(*item, acc) matches Err(e) && diag_matches(d, e),
        },
{
    let is_finish = str_eq(item.key.as_str(), "finish_fn");
    let is_builder_ty = str_eq(item.key.as_str(), "builder_type");
    if is_finish || is_builder_ty {
        let taken = if is_finish {
            acc.finish_fn.is_some()
        } else {
            acc.builder_type.is_some()
        };
        if taken {
            Err(
                Diagnostic::new(
                    DiagnosticKind::DuplicateAnnotationKey,
                    item.key_span,
                    item.key.as_str(),
                ),
            )
        } else {
            match &item.value {
                Meta::NameValue(_, e) => if is_valid_ident(e.text.as_str()) {
                    if is_finish {
                        Ok(
                            BuilderParams {
                                finish_fn: Some(e.text.clone()),
                                builder_type: acc.builder_type,
                            },
                        )
                    } else {
                        Ok(
                            BuilderParams {
                                finish_fn: acc.finish_fn,
                                builder_type: Some(e.text.clone()),
                            },
                        )
                    }
                } else {
                    Err(
                        Diagnostic::new(
                            DiagnosticKind::InvalidIdentifier,
                            e.span,
                            e.text.as_str(),
                        ),
                    )
                },
                other => Err(
                    Diagnostic::new(
                        DiagnosticKind::UnsupportedAnnotationShape,
                        other.span(),
                        item.key.as_str(),
                    ),
                ),
            }
        }
    } else {
        Err(
            Diagnostic::new(DiagnosticKind::UnknownAnnotationKey, item.key_span, item.key.as_str()),
        )
    }
}

impl BuilderParams {
    /// Parses the builder-level overrides out of their annotation value.
    pub fn from_meta(meta: &Meta) -> (r: Result<BuilderParams, Diagnostic>)
        ensures
            match r {
                Ok(p) => spec_builder_params(*meta) == Ok::<BuilderParams, DiagInfo>(p),
                Err(d) => spec_builder_params(*meta) matches Err(e) && diag_matches(d, e),
            },
    {
        match meta {
            Meta::List(_, items) => {
                let mut acc = BuilderParams { finish_fn: None, builder_type: None };
                let mut j: usize = 0;
                proof {
                    assert(items@.skip(0) =~= items@);
                }
                while j < items.len()
                    invariant
                        j <= items@.len(),
                        spec_builder_params(*meta) == spec_builder_params_items(
                            items@.skip(j as int),
                            acc,
                        ),
                    decreases items@.len() - j,
                {
                    proof {
                        assert(items@.skip(j as int).drop_first() =~= items@.skip(j + 1));
                        assert(items@.skip(j as int)[0] == items@[j as int]);
                    }
                    match builder_param_one(&items[j], acc) {
                        Ok(acc2) => {
                            acc = acc2;
                        },
                        Err(d) => {
                            return Err(d);
                        },
                    }
                    j = j + 1;
                }
                proof {
                    assert(items@.skip(items@.len() as int) =~= Seq::<MetaItem>::empty());
                }
                Ok(acc)
            },
            other => Err(
                Diagnostic::new(DiagnosticKind::UnsupportedAnnotationShape, other.span(), "builder"),
            ),
        }
    }
}

fn item_param_one(item: &MetaItem, acc: ItemParams) -> (r: Result<ItemParams, Diagnostic>)
    ensures
        match r {
            Ok(p) => spec_item_param_one(*item, acc) == Ok::<ItemParams, DiagInfo>(p),
            Err(d) => spec_item_param_one(*item, acc) matches Err(e) && diag_matches(d, e),
        },
{
    if str_eq(item.key.as_str(), "name") {
        if acc.name.is_some() {
            Err(Diagnostic::new(DiagnosticKind::DuplicateAnnotationKey, item.key_span, "name"))
        } else {
            match &item.value {
                Meta::NameValue(_, e) => if is_valid_ident(e.text.as_str()) {
                    Ok(ItemParams { name: Some(e.text.clone()), vis: acc.vis })
                } else {
                    Err(
                        Diagnostic::new(
                            DiagnosticKind::InvalidIdentifier,
                            e.span,
                            e.text.as_str(),
                        ),
                    )
                },
                other => Err(
                    Diagnostic::new(DiagnosticKind::UnsupportedAnnotationShape, other.span(), "name"),
                ),
            }
        }
    } else if str_eq(item.key.as_str(), "vis") {
        if acc.vis.is_some() {
            Err(Diagnostic::new(DiagnosticKind::DuplicateAnnotationKey, item.key_span, "vis"))
        } else {
            match &item.value {
                Meta::NameValue(_, e) => Ok(
                    ItemParams { name: acc.name, vis: Some(e.text.clone()) },
                ),
                other => Err(
                    Diagnostic::new(DiagnosticKind::UnsupportedAnnotationShape, other.span(), "vis"),
                ),
            }
        }
    } else {
        Err(
            Diagnostic::new(DiagnosticKind::UnknownAnnotationKey, item.key_span, item.key.as_str()),
        )
    }
}

impl ItemParams {
    /// Parses a name-or-visibility override, dispatching on the surface
    /// shape: a single value-assignment is the shorthand name-only form, a
    /// structured list is the full form.
    pub fn from_meta(meta: &Meta) -> (r: Result<ItemParams, Diagnostic>)
        ensures
            match r {
                Ok(p) => spec_item_params(*meta) == Ok::<ItemParams, DiagInfo>(p),
                Err(d) => spec_item_params(*meta) matches Err(e) && diag_matches(d, e),
            },
    {
        match meta {
            Meta::NameValue(_, e) => {
                if is_valid_ident(e.text.as_str()) {
                    Ok(ItemParams { name: Some(e.text.clone()), vis: None })
                } else {
                    Err(
                        Diagnostic::new(
                            DiagnosticKind::InvalidIdentifier,
                            e.span,
                            e.text.as_str(),
                        ),
                    )
                }
            },
            Meta::List(_, items) => {
                let mut acc = ItemParams { name: None, vis: None };
                let mut j: usize = 0;
                proof {
                    assert(items@.skip(0) =~= items@);
                }
                while j < items.len()
                    invariant
                        j <= items@.len(),
                        spec_item_params(*meta) == spec_item_params_items(
                            items@.skip(j as int),
                            acc,
                        ),
                    decreases items@.len() - j,
                {
                    proof {
                        assert(items@.skip(j as int).drop_first() =~= items@.skip(j + 1));
                        assert(items@.skip(j as int)[0] == items@[j as int]);
                    }
                    match item_param_one(&items[j], acc) {
                        Ok(acc2) => {
                            acc = acc2;
                        },
                        Err(d) => {
                            return Err(d);
                        },
                    }
                    j = j + 1;
                }
                proof {
                    assert(items@.skip(items@.len() as int) =~= Seq::<MetaItem>::empty());
                }
                Ok(acc)
            },
            Meta::Path(sp) => Err(
                Diagnostic::new(DiagnosticKind::UnsupportedAnnotationShape, *sp, "override"),
            ),
        }
    }
}

} // verus!
