//! Field-classification and typestate-derivation engine for a builder-pattern
//! code generator.
//!
//! Given a declarative description of a data member (a function argument or a
//! struct field) together with its user-supplied annotations, the library
//! decides whether the member is required or optional in the generated
//! builder, derives the type-level markers that track the member's "unset"
//! and "set" states, and validates that the declarations are internally
//! consistent, reporting the first violated rule as a located diagnostic.

pub mod diagnostic;
pub mod field;
pub mod item_params;
pub mod laws;
pub mod params;
pub mod span;
pub mod strict_bool;
pub mod syntax;
pub mod text;
pub mod ty;

pub use span::Span;
pub use ty::{SlotMarker, Ty};
