//! Source positions for diagnostics.

use vstd::prelude::*;

verus! {

/// An opaque handle to a position in the source text of the declaration being
/// processed. The library never inspects it: it is attached to every parsed
/// annotation so that a diagnostic can point at the exact token that violated
/// a rule.
#[derive(Clone, Copy, Debug, PartialEq, Eq, Structural)]
pub struct Span {
    pub pos: u64,
}

} // verus!
