//! The model of a member's declared type, and the type-level markers that the
//! typestate deriver computes from it.

use vstd::prelude::*;

verus! {

/// A member's declared type, reduced to exactly what classification reads:
/// whether it is the two-valued (boolean) type, whether it is the
/// optional-wrapper type (and then what its inner type parameter is), or
/// neither. Any other type is kept verbatim as its source text under
/// [`Ty::Named`].
#[derive(Debug, PartialEq, Eq)]
pub enum Ty {
    /// The two-valued (boolean) type.
    Bool,
    /// The optional-wrapper type, holding its inner type parameter.
    Opt(Box<Ty>),
    /// Any type that is neither the boolean type nor the optional wrapper,
    /// as written in the source.
    Named(String),
}

impl Clone for Ty {
    fn clone(&self) -> (r: Self)
        ensures
            r == *self,
        decreases self,
    {
        match self {
            Ty::Bool => Ty::Bool,
            Ty::Opt(inner) => Ty::Opt(Box::new((**inner).clone())),
            Ty::Named(name) => Ty::Named(name.clone()),
        }
    }
}

/// A type-level marker naming the state of one builder slot. The builder's
/// internal state carries, per member, one of these markers: a "required" or
/// "optional" marker before the member is set, and the "set" marker after.
#[derive(Debug, PartialEq, Eq)]
pub enum SlotMarker {
    /// The slot of a required member that has not been set yet, parameterized
    /// by the member's full declared type.
    RequiredSlot(Ty),
    /// The slot of an optional member that has not been set yet,
    /// parameterized by the member's representative type.
    OptionalSlot(Ty),
    /// A slot whose member has been set, parameterized by the
    /// set-parameter type.
    SetSlot(Ty),
}

impl Clone for SlotMarker {
    fn clone(&self) -> (r: Self)
        ensures
            r == *self,
    {
        match self {
            SlotMarker::RequiredSlot(t) => SlotMarker::RequiredSlot(t.clone()),
            SlotMarker::OptionalSlot(t) => SlotMarker::OptionalSlot(t.clone()),
            SlotMarker::SetSlot(t) => SlotMarker::SetSlot(t.clone()),
        }
    }
}

impl SlotMarker {
    /// Whether this marker is the "set" state of its slot.
    pub open spec fn is_set_state(self) -> bool {
        self is SetSlot
    }

    /// The value a slot in this state logically carries: a required unset
    /// slot awaits the declared type, an optional unset slot carries the
    /// optional wrapper over its representative type (absent until set), and
    /// a set slot carries its set-parameter type.
    pub open spec fn carried_type(self) -> Ty {
        match self {
            SlotMarker::RequiredSlot(t) => t,
            SlotMarker::OptionalSlot(t) => Ty::Opt(Box::new(t)),
            SlotMarker::SetSlot(t) => t,
        }
    }
}

} // verus!
