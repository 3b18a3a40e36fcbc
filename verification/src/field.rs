//! The member record, its validation rules, the required-vs-optional
//! classifier, and the typestate type deriver.

use vstd::prelude::*;
use crate::diagnostic::{diag_matches, DiagInfo, Diagnostic, DiagnosticKind};
use crate::params::{spec_parse_params, FieldParams};
use crate::syntax::{Attr, DocFragment};
use crate::text::{contains_substr, spec_contains, spec_pascal, to_pascal_case};
use crate::ty::{SlotMarker, Ty};

verus! {

/// What syntax a member comes from; used only to phrase diagnostics.
#[derive(Clone, Copy, Debug, PartialEq, Eq, Structural)]
pub enum FieldOrigin {
    /// The member is a function argument.
    FnArg,
    /// The member is a struct field.
    StructField,
}

impl FieldOrigin {
    /// The phrase naming this origin in a diagnostic.
    pub fn description(&self) -> (r: &'static str)
        ensures
            *self == FieldOrigin::FnArg ==> r@ == "function argument"@,
            *self == FieldOrigin::StructField ==> r@ == "struct field"@,
    {
        match self {
            FieldOrigin::FnArg => "function argument",
            FieldOrigin::StructField => "struct field",
        }
    }
}

/// A documentation fragment links back to the declaration it documents.
pub open spec fn spec_has_self_link(text: Seq<char>) -> bool {
    spec_contains(text, "[Self]"@) || spec_contains(text, "[`Self`]"@)
}

/// The first documentation fragment that links back to its own declaration,
/// reported as a violation anchored at that fragment.
pub open spec fn spec_doc_violation(docs: Seq<DocFragment>) -> Option<DiagInfo>
    decreases docs.len(),
{
    if docs.len() == 0 {
        None
    } else if spec_has_self_link(docs[0].text@) {
        Some(DiagInfo { kind: DiagnosticKind::SelfReferentialDoc, span: docs[0].span, subject: ""@ })
    } else {
        spec_doc_violation(docs.drop_first())
    }
}

/// Checks that no documentation fragment links back to the declaration
/// itself; such a link would be rendered on the generated setter, where it
/// no longer resolves.
pub fn reject_self_references_in_docs(docs: &Vec<DocFragment>) -> (r: Result<(), Diagnostic>)
    ensures
        match r {
            Ok(_) => spec_doc_violation(docs@) is None,
            Err(d) => spec_doc_violation(docs@) matches Some(e) && diag_matches(d, e),
        },
{
    let mut i: usize = 0;
    proof {
        assert(docs@.skip(0) =~= docs@);
    }
    while i < docs.len()
        invariant
            i <= docs@.len(),
            spec_doc_violation(docs@) == spec_doc_violation(docs@.skip(i as int)),
        decreases docs@.len() - i,
    {
        proof {
            assert(docs@.skip(i as int).drop_first() =~= docs@.skip(i + 1));
            assert(docs@.skip(i as int)[0] == docs@[i as int]);
        }
        let has_link = contains_substr(docs[i].text.as_str(), "[Self]") || contains_substr(
            docs[i].text.as_str(),
            "[`Self`]",
        );
        if has_link {
            return Err(Diagnostic::new(DiagnosticKind::SelfReferentialDoc, docs[i].span, ""));
        }
        i = i + 1;
    }
    proof {
        assert(docs@.skip(docs@.len() as int) =~= Seq::<DocFragment>::empty());
    }
    Ok(())
}

/// The documentation fragments of an attribute run, in source order.
pub open spec fn spec_docs_of(attrs: Seq<Attr>) -> Seq<DocFragment>
    decreases attrs.len(),
{
    if attrs.len() == 0 {
        Seq::empty()
    } else {
        let rest = spec_docs_of(attrs.drop_first());
        match attrs[0] {
            Attr::Doc(df) => seq![df] + rest,
            _ => rest,
        }
    }
}

/// The first violated invariant of a member with declared type `ty`,
/// parameter record `params` and documentation `docs`, checked in this
/// fixed order: `required` on an optional-wrapper type; `required` on a
/// non-boolean type; `required` together with `default`; `default` on a
/// type that already implies it; a self-referential documentation link.
pub open spec fn spec_violation(ty: Ty, params: FieldParams, docs: Seq<DocFragment>) -> Option<
    DiagInfo,
> {
    match params.required {
        Some(sp) => if ty is Opt {
            Some(
                DiagInfo {
                    kind: DiagnosticKind::RequiredOnOptionalWrapper,
                    span: sp,
                    subject: ""@,
                },
            )
        } else if !(ty is Bool) {
            Some(DiagInfo { kind: DiagnosticKind::RequiredOnNonBoolean, span: sp, subject: ""@ })
        } else if params.default is Some {
            Some(DiagInfo { kind: DiagnosticKind::RequiredDefaultConflict, span: sp, subject: ""@ })
        } else {
            spec_default_violation(ty, params, docs)
        },
        None => spec_default_violation(ty, params, docs),
    }
}

/// The redundant-`default` check and, past it, the documentation check.
pub open spec fn spec_default_violation(ty: Ty, params: FieldParams, docs: Seq<DocFragment>) -> Option<
    DiagInfo,
> {
    match params.default {
        Some(d) => if ty is Opt {
            Some(
                DiagInfo { kind: DiagnosticKind::RedundantDefault, span: d.span, subject: "Option"@ },
            )
        } else if ty is Bool {
            Some(DiagInfo { kind: DiagnosticKind::RedundantDefault, span: d.span, subject: "bool"@ })
        } else {
            spec_doc_violation(docs)
        },
        None => spec_doc_violation(docs),
    }
}

/// One builder-settable member: a function argument or a struct field,
/// together with its parsed annotations.
#[derive(Debug, PartialEq, Eq)]
pub struct Field {
    /// What syntax the member comes from.
    pub origin: FieldOrigin,
    /// The member's original name, used for the builder slot and its setter.
    pub ident: String,
    /// Documentation fragments copied verbatim from the member's
    /// declaration, forwarded to the generated setter.
    pub docs: Vec<DocFragment>,
    /// The member's full declared type, exactly as written.
    pub ty: Ty,
    /// The pascal-cased form of the name, naming the member's slot in the
    /// generated typestate trait.
    pub state_assoc_type_ident: String,
    /// The parsed annotation record.
    pub params: FieldParams,
}

/// The first violated invariant of the member, if any.
pub open spec fn spec_first_violation(f: Field) -> Option<DiagInfo> {
    spec_violation(f.ty, f.params, f.docs@)
}

/// The classification of a member: `Some` representative type if it is
/// optional in the generated builder, `None` if it is required. A
/// `required` override always wins; an optional-wrapper type is optional
/// with the wrapper stripped; a boolean type or a `default` annotation
/// makes the member optional with the declared type kept unmodified.
pub open spec fn spec_as_optional(f: Field) -> Option<Ty> {
    if f.params.required is Some {
        None
    } else {
        match f.ty {
            Ty::Opt(inner) => Some(*inner),
            Ty::Bool => Some(f.ty),
            Ty::Named(_) => if f.params.default is Some {
                Some(f.ty)
            } else {
                None
            },
        }
    }
}

/// The marker type of the member's slot before the member is set.
pub open spec fn spec_unset_marker(f: Field) -> SlotMarker {
    match spec_as_optional(f) {
        Some(t) => SlotMarker::OptionalSlot(t),
        None => SlotMarker::RequiredSlot(f.ty),
    }
}

/// The type the setter logically assigns into the slot.
pub open spec fn spec_set_param(f: Field) -> Ty {
    match spec_as_optional(f) {
        Some(t) => Ty::Opt(Box::new(t)),
        None => f.ty,
    }
}

/// The marker type of the member's slot after the member is set.
pub open spec fn spec_set_marker(f: Field) -> SlotMarker {
    SlotMarker::SetSlot(spec_set_param(f))
}

impl Field {
    /// Builds and validates the member record for one declaration site:
    /// extracts the documentation fragments in order, parses the parameter
    /// record, derives the state-type name, and reports the first violated
    /// invariant, if any, as a fatal diagnostic.
    pub fn new(origin: FieldOrigin, attrs: &Vec<Attr>, ident: String, ty: Ty) -> (r: Result<
        Field,
        Diagnostic,
    >)
        ensures
            match r {
                Ok(f) => {
                    &&& f.origin == origin
                    &&& f.ident == ident
                    &&& f.ty == ty
                    &&& f.docs@ == spec_docs_of(attrs@)
                    &&& spec_parse_params(attrs@) == Ok::<FieldParams, DiagInfo>(f.params)
                    &&& f.state_assoc_type_ident@ == spec_pascal(ident@)
                    &&& spec_first_violation(f) is None
                },
                Err(d) => match spec_parse_params(attrs@) {
                    Err(e) => diag_matches(d, e),
                    Ok(p) => spec_violation(ty, p, spec_docs_of(attrs@)) matches Some(e)
                        && diag_matches(d, e),
                },
            },
    {
        let mut docs: Vec<DocFragment> = Vec::new();
        let mut i: usize = 0;
        proof {
            assert(attrs@.skip(0) =~= attrs@);
        }
        while i < attrs.len()
            invariant
                i <= attrs@.len(),
                spec_docs_of(attrs@) == docs@ + spec_docs_of(attrs@.skip(i as int)),
            decreases attrs@.len() - i,
        {
            proof {
                assert(attrs@.skip(i as int).drop_first() =~= attrs@.skip(i + 1));
                assert(attrs@.skip(i as int)[0] == attrs@[i as int]);
            }
            match &attrs[i] {
                Attr::Doc(df) => {
                    docs.push(df.clone());
                    assert(docs@ + spec_docs_of(attrs@.skip(i + 1)) =~= spec_docs_of(attrs@));
                },
                _ => {
                },
            }
            i = i + 1;
        }
        proof {
            assert(attrs@.skip(attrs@.len() as int) =~= Seq::<Attr>::empty());
            assert(docs@ + Seq::<DocFragment>::empty() =~= docs@);
        }
        let params = match FieldParams::from_attributes(attrs) {
            Ok(p) => p,
            Err(d) => {
                return Err(d);
            },
        };
        let state_assoc_type_ident = to_pascal_case(ident.as_str());
        let me = Field { origin, state_assoc_type_ident, ident, ty, params, docs };
        match me.validate() {
            Ok(_) => Ok(me),
            Err(d) => Err(d),
        }
    }

    /// Re-checks the member's invariants, reporting the first violated one:
    /// `required` on an optional-wrapper type, then `required` on a
    /// non-boolean type, then `required` together with `default`, then a
    /// redundant `default`, then a self-referential documentation link.
    pub fn validate(&self) -> (r: Result<(), Diagnostic>)
        ensures
            match r {
                Ok(_) => spec_first_violation(*self) is None,
                Err(d) => spec_first_violation(*self) matches Some(e) && diag_matches(d, e),
            },
    {
        if let Some(sp) = self.params.required {
            match &self.ty {
                Ty::Opt(_) => {
                    return Err(
                        Diagnostic::new(DiagnosticKind::RequiredOnOptionalWrapper, sp, ""),
                    );
                },
                Ty::Named(_) => {
                    return Err(Diagnostic::new(DiagnosticKind::RequiredOnNonBoolean, sp, ""));
                },
                Ty::Bool => {
                },
            }
            if self.params.default.is_some() {
                return Err(Diagnostic::new(DiagnosticKind::RequiredDefaultConflict, sp, ""));
            }
        }
        if let Some(d) = &self.params.default {
            match &self.ty {
                Ty::Opt(_) => {
                    return Err(
                        Diagnostic::new(DiagnosticKind::RedundantDefault, d.span, "Option"),
                    );
                },
                Ty::Bool => {
                    return Err(Diagnostic::new(DiagnosticKind::RedundantDefault, d.span, "bool"));
                },
                Ty::Named(_) => {
                },
            }
        }
        reject_self_references_in_docs(&self.docs)
    }

    /// The classification: the representative type if the member is
    /// optional in the generated builder, `None` if it is required.
    pub fn as_optional(&self) -> (r: Option<Ty>)
        ensures
            r == spec_as_optional(*self),
    {
        if self.params.required.is_some() {
            return None;
        }
        match &self.ty {
            Ty::Opt(inner) => Some((**inner).clone()),
            Ty::Bool => Some(Ty::Bool),
            Ty::Named(_) => if self.params.default.is_some() {
                Some(self.ty.clone())
            } else {
                None
            },
        }
    }

    /// The marker type the builder's state carries for this member before
    /// it is set: an optional slot over the representative type, or a
    /// required slot over the full declared type.
    pub fn unset_state_type(&self) -> (r: SlotMarker)
        ensures
            r == spec_unset_marker(*self),
    {
        match self.as_optional() {
            Some(inner) => SlotMarker::OptionalSlot(inner),
            None => SlotMarker::RequiredSlot(self.ty.clone()),
        }
    }

    /// The type the setter logically assigns into the slot: the optional
    /// wrapper over the representative type, or the declared type verbatim.
    pub fn set_state_type_param(&self) -> (r: Ty)
        ensures
            r == spec_set_param(*self),
    {
        match self.as_optional() {
            Some(inner) => Ty::Opt(Box::new(inner)),
            None => self.ty.clone(),
        }
    }

    /// The marker type the builder's state carries for this member after it
    /// is set: the set slot over the set-parameter type.
    pub fn set_state_type(&self) -> (r: SlotMarker)
        ensures
            r == spec_set_marker(*self),
    {
        SlotMarker::SetSlot(self.set_state_type_param())
    }
}

} // verus!
