//! Source positions, and values decorated with one.
//!
//! Every user-facing value that can be named in a diagnostic (an option
//! token, a requested trait, a default expression) carries the position of
//! the token it came from, so that every error the pipeline produces points
//! at the offending token.

use vstd::prelude::*;

verus! {

/// A half-open byte range in the source text of the request.
#[derive(Clone, Copy, PartialEq, Eq, Structural, Debug)]
pub struct Span {
    pub lo: usize,
    pub hi: usize,
}

impl Span {
    /// A position for values that no concrete token produced.
    pub fn zero() -> (r: Span)
        ensures
            r.lo == 0 && r.hi == 0,
    {
        Span { lo: 0, hi: 0 }
    }
}

/// A value together with the source position it was written at.
#[derive(Clone, Debug)]
pub struct Spanned<T> {
    pub item: T,
    pub span: Span,
}

impl<T> Spanned<T> {
    pub fn new(item: T, span: Span) -> (r: Spanned<T>)
        ensures
            r.item == item,
            r.span == span,
    {
        Spanned { item, span }
    }
}

} // verus!
