//! The model of the annotation surface: expressions kept verbatim, the three
//! shapes an annotation value can take, and the attributes attached to a
//! member's declaration.

use vstd::prelude::*;
use crate::span::Span;

verus! {

/// An expression captured verbatim from an annotation's value, together with
/// its source position.
#[derive(Debug, PartialEq, Eq)]
pub struct Expr {
    /// The expression's source text, exactly as written.
    pub text: String,
    /// Where the expression stands in the source.
    pub span: Span,
}

impl Clone for Expr {
    fn clone(&self) -> (r: Self)
        ensures
            r == *self,
    {
        Expr { text: self.text.clone(), span: self.span }
    }
}

/// The surface shape of one annotation value.
#[derive(Debug, PartialEq, Eq)]
pub enum Meta {
    /// A bare marker: the key alone.
    Path(Span),
    /// A parenthesized list of further entries.
    List(Span, Vec<MetaItem>),
    /// A value assignment: the key followed by `=` and an expression.
    NameValue(Span, Expr),
}

impl Meta {
    /// The source position of the whole annotation value.
    pub open spec fn span_of(self) -> Span {
        match self {
            Meta::Path(sp) => sp,
            Meta::List(sp, _) => sp,
            Meta::NameValue(sp, _) => sp,
        }
    }

    /// Returns the source position of the whole annotation value.
    pub fn span(&self) -> (r: Span)
        ensures
            r == self.span_of(),
    {
        match self {
            Meta::Path(sp) => *sp,
            Meta::List(sp, _) => *sp,
            Meta::NameValue(sp, _) => *sp,
        }
    }
}

/// One keyed entry of an annotation list: `key`, `key = expr`, or
/// `key(...)`.
#[derive(Debug, PartialEq, Eq)]
pub struct MetaItem {
    /// The entry's key.
    pub key: String,
    /// Where the key stands in the source.
    pub key_span: Span,
    /// The entry's value shape.
    pub value: Meta,
}

/// One documentation-comment fragment copied verbatim from a member's
/// declaration.
#[derive(Debug, PartialEq, Eq)]
pub struct DocFragment {
    /// The fragment's text.
    pub text: String,
    /// Where the fragment stands in the source.
    pub span: Span,
}

impl Clone for DocFragment {
    fn clone(&self) -> (r: Self)
        ensures
            r == *self,
    {
        DocFragment { text: self.text.clone(), span: self.span }
    }
}

/// One attribute attached to a member's declaration.
#[derive(Debug, PartialEq, Eq)]
pub enum Attr {
    /// A documentation comment.
    Doc(DocFragment),
    /// A builder annotation: the list of entries written inside it.
    Builder(Span, Vec<MetaItem>),
    /// Any other attribute; the classifier ignores it.
    Other(Span),
}

} // verus!
