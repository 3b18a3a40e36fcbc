//! The library-wide laws of classification and typestate derivation, stated
//! over every member record and proved from the same spec functions that the
//! executable functions' contracts use.

use vstd::prelude::*;
use crate::diagnostic::{DiagInfo, DiagnosticKind};
use crate::field::{
    spec_as_optional, spec_first_violation, spec_set_marker, spec_set_param, spec_unset_marker,
    Field,
};
use crate::ty::{SlotMarker, Ty};

verus! {

/// For every member of the optional-wrapper type: without a `required`
/// override the member classifies as optional and the representative type
/// is the wrapper's inner type parameter (the wrapper is stripped); with a
/// `required` override, validation rejects the member as
/// `required`-on-optional-wrapper before classification is ever consulted.
pub proof fn lemma_optional_wrapper(f: Field)
    requires
        f.ty is Opt,
    ensures
        f.params.required is None ==> (f.ty matches Ty::Opt(inner) && spec_as_optional(f)
            == Some(*inner)),
        f.params.required matches Some(sp) ==> spec_first_violation(f) == Some(
            DiagInfo { kind: DiagnosticKind::RequiredOnOptionalWrapper, span: sp, subject: ""@ },
        ),
{
}

/// For every boolean member carrying a `required` marker and no `default`:
/// the member classifies as required with no representative type, its unset
/// marker is the required slot over the boolean type, and its set marker is
/// the set slot over the boolean type.
pub proof fn lemma_bool_required(f: Field)
    requires
        f.ty is Bool,
        f.params.required is Some,
        f.params.default is None,
    ensures
        spec_as_optional(f) is None,
        spec_unset_marker(f) == SlotMarker::RequiredSlot(Ty::Bool),
        spec_set_marker(f) == SlotMarker::SetSlot(Ty::Bool),
{
}

/// For every boolean member with neither `required` nor `default`: the
/// member classifies as optional, the representative type is the declared
/// boolean type itself (not stripped), and the set-parameter type is the
/// optional wrapper over the boolean type.
pub proof fn lemma_bool_plain(f: Field)
    requires
        f.ty is Bool,
        f.params.required is None,
        f.params.default is None,
    ensures
        spec_as_optional(f) == Some(Ty::Bool),
        spec_set_param(f) == Ty::Opt(Box::new(Ty::Bool)),
{
}

/// For every member of a non-boolean, non-wrapper declared type carrying a
/// `default = <expr>` annotation (and, as validity forces, no `required`
/// override): the member classifies as optional, the representative type is
/// the declared type unmodified, and the set-parameter type is the optional
/// wrapper over the declared type.
pub proof fn lemma_default_on_plain_type(f: Field)
    requires
        f.ty is Named,
        f.params.required is None,
        f.params.default matches Some(d) && d.expr is Some,
    ensures
        spec_as_optional(f) == Some(f.ty),
        spec_set_param(f) == Ty::Opt(Box::new(f.ty)),
{
}

/// Validation and derivation are idempotent: a member record that has
/// passed validation reports no diagnostic when validated again (by
/// [`Field::validate`]'s contract, a result of `Ok` is equivalent to the
/// absence of a violation), and the three type artifacts are fixed by the
/// record alone, so any two derivations of them agree.
pub proof fn lemma_revalidation_is_noop(
    f: Field,
    u1: SlotMarker,
    u2: SlotMarker,
    p1: Ty,
    p2: Ty,
    s1: SlotMarker,
    s2: SlotMarker,
)
    requires
        spec_first_violation(f) is None,
        u1 == spec_unset_marker(f),
        u2 == spec_unset_marker(f),
        p1 == spec_set_param(f),
        p2 == spec_set_param(f),
        s1 == spec_set_marker(f),
        s2 == spec_set_marker(f),
    ensures
        spec_first_violation(f) is None,
        u1 == u2,
        p1 == p2,
        s1 == s2,
{
}

/// For every classification outcome, the unset marker and the set marker of
/// one member differ in exactly one structural position: the unset head
/// (required or optional) is swapped for the set head, while the type the
/// slot carries is the same on both sides.
pub proof fn lemma_marker_swap(f: Field)
    ensures
        !spec_unset_marker(f).is_set_state(),
        spec_set_marker(f).is_set_state(),
        spec_unset_marker(f).carried_type() == spec_set_marker(f).carried_type(),
{
}

} // verus!
