//! The finding that the rule reports.

use vstd::prelude::*;
use crate::hir::Span;

verus! {

/// A function that cannot return without recursing: `span` is the function's
/// definition, `note_span` the recursive call site.
#[derive(Clone, Copy, Debug, PartialEq, Eq, Structural)]
pub struct Diagnostic {
    pub span: Span,
    pub note_span: Span,
}

impl Diagnostic {
    /// The message attached to the function's definition.
    pub fn message(&self) -> (r: &'static str)
        ensures
            r@ == "function cannot return without recursing"@,
    {
        "function cannot return without recursing"
    }

    /// The message attached to the recursive call site.
    pub fn note(&self) -> (r: &'static str)
        ensures
            r@ == "recursive call site"@,
    {
        "recursive call site"
    }
}

} // verus!
