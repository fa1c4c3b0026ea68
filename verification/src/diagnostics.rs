//! The diagnostic sink: records positioned error diagnostics during one
//! linting session and reports how many were emitted.
//!
//! The sink is passed explicitly through the traversal rather than held in
//! ambient state, and a fresh sink is established per file, so per-file
//! counts never leak across sessions.  Emission never fails, and every
//! diagnostic is recorded at error severity.

use vstd::prelude::*;

use crate::ast::{BinOp, Span};
use crate::rules::quotes::QuotesType;

verus! {

/// What a diagnostic says.  Rendering to human-readable text is left to the
/// caller; the message itself is structured data.
#[derive(Clone, Copy, Debug, PartialEq, Eq, Structural)]
pub enum Message {
    /// A string or template literal whose quote kind differs from the
    /// preferred one, which is carried along.
    WrongQuotes(QuotesType),
    /// A comparison written with the wrong strictness, and the operator that
    /// was expected in its place.
    WrongEquality { found: BinOp, expected: BinOp },
    /// A statement that should end in a terminator but does not.
    MissingSemicolon,
    /// A statement that ends in a terminator but should not.
    ExtraSemicolon,
    /// A use of the forbidden dynamic-evaluation identifier.
    EvalForbidden,
    /// A line whose leading whitespace disagrees with the configured
    /// indentation.
    WrongIndent,
}

/// One recorded violation: where, and what.  Severity is fixed to error.
#[derive(Clone, Copy, Debug, PartialEq, Eq, Structural)]
pub struct Diagnostic {
    pub span: Span,
    pub message: Message,
}

/// Records diagnostics, append-only, for the duration of one session.
pub struct DiagnosticSink {
    diags: Vec<Diagnostic>,
}

impl View for DiagnosticSink {
    type V = Seq<Diagnostic>;

    closed spec fn view(&self) -> Seq<Diagnostic> {
        self.diags@
    }
}

impl DiagnosticSink {
    /// A fresh sink with nothing recorded; one is established per file.
    pub fn new() -> (r: Self)
        ensures
            r@ == Seq::<Diagnostic>::empty(),
    {
        DiagnosticSink { diags: Vec::new() }
    }

    /// Record one error-severity diagnostic.  Emission never fails.
    pub fn emit(&mut self, span: Span, message: Message)
        ensures
            final(self)@ == old(self)@.push(Diagnostic { span, message }),
    {
        self.diags.push(Diagnostic { span, message });
    }

    /// How many diagnostics were emitted since the sink was established.
    pub fn count(&self) -> (n: usize)
        ensures
            n == self@.len(),
    {
        self.diags.len()
    }

    /// The recorded diagnostics, in emission order.
    pub fn diagnostics(&self) -> (r: &Vec<Diagnostic>)
        ensures
            r@ == self@,
    {
        &self.diags
    }
}

} // verus!
