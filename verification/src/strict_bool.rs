//! The strict-boolean primitive: a two-state annotation value with exactly
//! one canonical spelling for each state. A bare marker means `true`; an
//! explicit `= false` means `false`; an explicit `= true` is rejected so
//! that `true` has a single spelling.

use vstd::prelude::*;
use crate::diagnostic::{diag_matches, DiagInfo, Diagnostic, DiagnosticKind};
use crate::span::Span;
use crate::syntax::Meta;
use crate::text::str_eq;

verus! {

/// A boolean annotation value that accepts only the two canonical surface
/// spellings.
#[derive(Clone, Copy, Debug, PartialEq, Eq, Structural)]
pub struct StrictBool {
    pub value: bool,
}

/// A strict-boolean value together with the source position of the
/// annotation that set it.
#[derive(Clone, Copy, Debug, PartialEq, Eq, Structural)]
pub struct SpannedBool {
    pub value: bool,
    pub span: Span,
}

impl StrictBool {
    /// A bare marker is the canonical spelling of `true`.
    pub fn from_word() -> (r: StrictBool)
        ensures
            r.value,
    {
        StrictBool { value: true }
    }

    /// An explicit value-assignment: `= false` is accepted, `= true` is
    /// rejected as redundant, because the bare marker already means `true`.
    pub fn from_bool(value: bool) -> (r: Result<StrictBool, DiagnosticKind>)
        ensures
            match r {
                Ok(b) => !value && !b.value,
                Err(k) => value && k == DiagnosticKind::RedundantTrueLiteral,
            },
    {
        if !value {
            Ok(StrictBool { value: false })
        } else {
            Err(DiagnosticKind::RedundantTrueLiteral)
        }
    }

    /// What parsing the annotation value `m` for the strict-boolean key
    /// `key` yields: a bare marker is `true`, `= false` is `false`,
    /// `= true` is the redundant-true violation, and every other shape is
    /// unsupported.
    pub open spec fn spec_parse(m: Meta, key: Seq<char>) -> Result<SpannedBool, DiagInfo> {
        match m {
            Meta::Path(sp) => Ok(SpannedBool { value: true, span: sp }),
            Meta::List(sp, _) => Err(
                DiagInfo { kind: DiagnosticKind::UnsupportedAnnotationShape, span: sp, subject: key },
            ),
            Meta::NameValue(sp, e) => if e.text@ == "true"@ {
                Err(DiagInfo { kind: DiagnosticKind::RedundantTrueLiteral, span: sp, subject: key })
            } else if e.text@ == "false"@ {
                Ok(SpannedBool { value: false, span: sp })
            } else {
                Err(
                    DiagInfo {
                        kind: DiagnosticKind::UnsupportedAnnotationShape,
                        span: sp,
                        subject: key,
                    },
                )
            },
        }
    }

    /// Parses the annotation value `m` for the strict-boolean key `key`.
    pub fn from_meta(key: &str, m: &Meta) -> (r: Result<SpannedBool, Diagnostic>)
        ensures
            match r {
                Ok(b) => StrictBool::spec_parse(*m, key@) == Ok::<SpannedBool, DiagInfo>(b),
                Err(d) => StrictBool::spec_parse(*m, key@) matches Err(e) && diag_matches(d, e),
            },
    {
        match m {
            Meta::Path(sp) => {
                let w = StrictBool::from_word();
                Ok(SpannedBool { value: w.value, span: *sp })
            },
            Meta::List(sp, _) => Err(
                Diagnostic::new(DiagnosticKind::UnsupportedAnnotationShape, *sp, key),
            ),
            Meta::NameValue(sp, e) => {
                let is_true = str_eq(e.text.as_str(), "true");
                let is_false = str_eq(e.text.as_str(), "false");
                if is_true || is_false {
                    match StrictBool::from_bool(is_true) {
                        Ok(b) => Ok(SpannedBool { value: b.value, span: *sp }),
                        Err(k) => Err(Diagnostic::new(k, *sp, key)),
                    }
                } else {
                    Err(Diagnostic::new(DiagnosticKind::UnsupportedAnnotationShape, *sp, key))
                }
            },
        }
    }
}

} // verus!
