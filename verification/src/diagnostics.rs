//! Diagnostic records as the session stores and republishes them.

use vstd::prelude::*;
use crate::text::TextRange;

verus! {

/// Extra classification a client may render specially.
#[derive(Clone, Copy, Debug, Eq, PartialEq, Hash, Structural)]
pub enum DiagnosticTag {
    Unnecessary,
    Deprecated,
    Both,
}

impl DiagnosticTag {
    pub fn is_unnecessary(&self) -> (r: bool)
        ensures
            r == (*self is Unnecessary || *self is Both),
    {
        matches!(self, DiagnosticTag::Unnecessary | DiagnosticTag::Both)
    }

    pub fn is_deprecated(&self) -> (r: bool)
        ensures
            r == (*self is Deprecated || *self is Both),
    {
        matches!(self, DiagnosticTag::Deprecated | DiagnosticTag::Both)
    }
}

/// How serious a diagnostic is.
#[derive(Clone, Copy, Debug, Eq, PartialEq, Structural)]
pub enum Severity {
    Error,
    Warning,
    Information,
    Hint,
}

/// One diagnostic: a message, its severity, and the source range it points
/// at. The session stores the last-computed diagnostics of each document and
/// hands out `(diagnostic, range)` pairs; rendering them is the transport's
/// business.
#[derive(Debug)]
pub struct Diagnostic {
    pub message: String,
    pub severity: Severity,
    pub range: TextRange,
}

impl Clone for Diagnostic {
    fn clone(&self) -> (r: Self)
        ensures
            r == *self,
    {
        Diagnostic { message: self.message.clone(), severity: self.severity, range: self.range }
    }
}

} // verus!
