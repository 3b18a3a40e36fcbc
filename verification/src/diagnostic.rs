//! Diagnostics: every rule violation is fatal for the enclosing declaration
//! and is reported as a message anchored at the offending annotation's source
//! position.

use vstd::prelude::*;
use vstd::string::StringExecFns;
use crate::span::Span;

verus! {

/// The rule that a diagnostic reports as violated.
#[derive(Clone, Copy, Debug, PartialEq, Eq, Structural)]
pub enum DiagnosticKind {
    /// An annotation was written in a surface shape that its key does not
    /// support, such as a list-valued `default`.
    UnsupportedAnnotationShape,
    /// `default` was given on a member whose type already implies
    /// default-bearing optional treatment.
    RedundantDefault,
    /// `required` was given on a member of the optional-wrapper type.
    RequiredOnOptionalWrapper,
    /// `required` was given on a member that is neither boolean nor of the
    /// optional-wrapper type.
    RequiredOnNonBoolean,
    /// `required` and `default` were both given on the same member.
    RequiredDefaultConflict,
    /// A strict-boolean annotation was spelled with an explicit `= true`.
    RedundantTrueLiteral,
    /// A documentation fragment links back to its own declaration.
    SelfReferentialDoc,
    /// An annotation key that the record being parsed does not recognize.
    UnknownAnnotationKey,
    /// An annotation key that was already given on the same record.
    DuplicateAnnotationKey,
    /// A value that had to be an identifier but is not one.
    InvalidIdentifier,
}

/// The message text reported for a violation: fixed corrective wording per
/// kind, with the offending subject (a type name, an annotation key, or an
/// expression's text) spliced in where the kind calls for one.
pub open spec fn spec_message(kind: DiagnosticKind, subject: Seq<char>) -> Seq<char> {
    match kind {
        DiagnosticKind::UnsupportedAnnotationShape => "unsupported syntax for `"@ + subject
            + "`"@,
        DiagnosticKind::RedundantDefault => "type `"@ + subject
            + "` already implies `default`, so the explicit `default` annotation is redundant and should be removed"@,
        DiagnosticKind::RequiredOnOptionalWrapper => "`Option` and the `required` annotation are mutually exclusive: `Option` members are optional by definition and this cannot be changed"@,
        DiagnosticKind::RequiredOnNonBoolean => "the `required` annotation can only be applied to `bool` members: all other types except `Option` are required by default already"@,
        DiagnosticKind::RequiredDefaultConflict => "the `required` and `default` annotations are mutually exclusive: remove one of them"@,
        DiagnosticKind::RedundantTrueLiteral => "no need to write `= true`: mentioning the annotation alone already sets it to `true`, so remove the `= true` part"@,
        DiagnosticKind::SelfReferentialDoc => "remove the link that refers to the declaration itself from the documentation comment"@,
        DiagnosticKind::UnknownAnnotationKey => "unknown annotation key `"@ + subject + "`"@,
        DiagnosticKind::DuplicateAnnotationKey => "duplicate annotation key `"@ + subject + "`"@,
        DiagnosticKind::InvalidIdentifier => "expected an identifier, got `"@ + subject + "`"@,
    }
}

/// A fatal, user-visible diagnostic: the violated rule, the source position
/// of the offending annotation token, and the corrective message text.
#[derive(Debug, PartialEq, Eq)]
pub struct Diagnostic {
    /// The violated rule.
    pub kind: DiagnosticKind,
    /// The source position of the token that violated it.
    pub span: Span,
    /// The human-readable, corrective message.
    pub message: String,
}

impl Clone for Diagnostic {
    fn clone(&self) -> (r: Self)
        ensures
            r == *self,
    {
        Diagnostic { kind: self.kind, span: self.span, message: self.message.clone() }
    }
}

/// The mathematical content of a diagnostic: its kind, its anchor, and the
/// subject its message splices in. Spec functions describe which diagnostic
/// an input produces in these terms.
pub struct DiagInfo {
    /// The violated rule.
    pub kind: DiagnosticKind,
    /// The source position of the offending token.
    pub span: Span,
    /// The subject spliced into the message, empty for kinds whose message
    /// is fixed.
    pub subject: Seq<char>,
}

/// The diagnostic `d` reports exactly the violation `e`.
pub open spec fn diag_matches(d: Diagnostic, e: DiagInfo) -> bool {
    &&& d.kind == e.kind
    &&& d.span == e.span
    &&& d.message@ == spec_message(e.kind, e.subject)
}

impl Diagnostic {
    /// Builds the diagnostic for `kind` anchored at `span`, splicing
    /// `subject` into the message where the kind calls for one.
    pub fn new(kind: DiagnosticKind, span: Span, subject: &str) -> (d: Diagnostic)
        ensures
            d.kind == kind,
            d.span == span,
            d.message@ == spec_message(kind, subject@),
    {
        let message = match kind {
            DiagnosticKind::UnsupportedAnnotationShape => {
                let mut m = String::from_str("unsupported syntax for `");
                m.append(subject);
                m.append("`");
                m
            },
            DiagnosticKind::RedundantDefault => {
                let mut m = String::from_str("type `");
                m.append(subject);
                m.append(
                    "` already implies `default`, so the explicit `default` annotation is redundant and should be removed",
                );
                m
            },
            DiagnosticKind::RequiredOnOptionalWrapper => String::from_str(
                "`Option` and the `required` annotation are mutually exclusive: `Option` members are optional by definition and this cannot be changed",
            ),
            DiagnosticKind::RequiredOnNonBoolean => String::from_str(
                "the `required` annotation can only be applied to `bool` members: all other types except `Option` are required by default already",
            ),
            DiagnosticKind::RequiredDefaultConflict => String::from_str(
                "the `required` and `default` annotations are mutually exclusive: remove one of them",
            ),
            DiagnosticKind::RedundantTrueLiteral => String::from_str(
                "no need to write `= true`: mentioning the annotation alone already sets it to `true`, so remove the `= true` part",
            ),
            DiagnosticKind::SelfReferentialDoc => String::from_str(
                "remove the link that refers to the declaration itself from the documentation comment",
            ),
            DiagnosticKind::UnknownAnnotationKey => {
                let mut m = String::from_str("unknown annotation key `");
                m.append(subject);
                m.append("`");
                m
            },
            DiagnosticKind::DuplicateAnnotationKey => {
                let mut m = String::from_str("duplicate annotation key `");
                m.append(subject);
                m.append("`");
                m
            },
            DiagnosticKind::InvalidIdentifier => {
                let mut m = String::from_str("expected an identifier, got `");
                m.append(subject);
                m.append("`");
                m
            },
        };
        Diagnostic { kind, span, message }
    }
}

} // verus!
