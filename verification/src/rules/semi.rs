//! The statement-termination check: expression statements and return
//! statements must end in a semicolon when the preference asks for one, and
//! must not when it forbids one.  This is a direct textual check of the last
//! byte of the statement's span, not a simulation of the host language's
//! automatic-termination rules.

use vstd::prelude::*;

use crate::ast::{Ast, NodeKind, Span};
use crate::config::RuleConfig;
use crate::diagnostics::{Diagnostic, DiagnosticSink, Message};
use crate::rule::{visitor_rule, NodeCheck, VisitorRule};

verus! {

/// Build the statement-termination rule from its typed settings.
pub fn semi(config: &RuleConfig<SemiConfig>) -> (r: VisitorRule<Semi>)
    ensures
        r.0.prefer == config.spec_inner().prefer,
{
    visitor_rule(Semi::new(config))
}

/// Typed settings of the statement-termination check.
#[derive(Clone, Copy, Debug, PartialEq, Eq, Structural)]
pub struct SemiConfig {
    /// True: statements must end in a semicolon.  False: they must not,
    /// relying on automatic termination instead.
    pub prefer: bool,
}

impl Default for SemiConfig {
    fn default() -> (r: Self)
        ensures
            r == (SemiConfig { prefer: false }),
    {
        SemiConfig { prefer: false }
    }
}

/// The statement-termination visitor, bound to its typed configuration.
#[derive(Clone, Copy)]
pub struct Semi {
    pub prefer: bool,
}

/// What the check emits at a statement with span `span`: the last byte of
/// the span is inspected; a missing terminator is flagged when one is
/// preferred, a present one when none is.  A span that does not end inside
/// the buffer cannot be classified and is skipped.
pub open spec fn semi_diags(prefer: bool, span: Span, src: Seq<u8>) -> Seq<Diagnostic> {
    if 1 <= span.hi <= src.len() {
        if src[span.hi - 1] == 0x3b {
            if prefer {
                Seq::<Diagnostic>::empty()
            } else {
                seq![Diagnostic { span, message: Message::ExtraSemicolon }]
            }
        } else {
            if prefer {
                seq![Diagnostic { span, message: Message::MissingSemicolon }]
            } else {
                Seq::<Diagnostic>::empty()
            }
        }
    } else {
        Seq::<Diagnostic>::empty()
    }
}

impl Semi {
    /// Bind the visitor to its typed configuration.
    pub fn new(config: &RuleConfig<SemiConfig>) -> (r: Self)
        ensures
            r.prefer == config.spec_inner().prefer,
    {
        let semi_config = config.get_rule_config();
        Semi { prefer: semi_config.prefer }
    }

    /// Flag a statement whose terminator is missing or extra.
    fn emit_error(&self, span: Span, is_missing: bool, sink: &mut DiagnosticSink)
        ensures
            final(sink)@ == old(sink)@.push(
                Diagnostic {
                    span,
                    message: if is_missing {
                        Message::MissingSemicolon
                    } else {
                        Message::ExtraSemicolon
                    },
                },
            ),
    {
        let message = if is_missing {
            Message::MissingSemicolon
        } else {
            Message::ExtraSemicolon
        };
        sink.emit(span, message);
    }

    /// Inspect the last byte of a statement's span.
    fn check_span(&self, span: Span, src: &Vec<u8>, sink: &mut DiagnosticSink)
        ensures
            final(sink)@ == old(sink)@ + semi_diags(self.prefer, span, src@),
    {
        if 1 <= span.hi && span.hi <= src.len() {
            let final_char = src[span.hi - 1];
            let is_semi = final_char == 0x3b;
            if self.prefer && !is_semi {
                self.emit_error(span, true, sink);
            } else if !self.prefer && is_semi {
                self.emit_error(span, false, sink);
            }
        }
    }
}

impl NodeCheck for Semi {
    open spec fn node_diags(&self, node: Ast, src: Seq<u8>) -> Seq<Diagnostic> {
        match node.kind {
            NodeKind::ExprStmt => semi_diags(self.prefer, node.span, src),
            NodeKind::ReturnStmt => semi_diags(self.prefer, node.span, src),
            _ => Seq::<Diagnostic>::empty(),
        }
    }

    fn check_node(&self, node: &Ast, src: &Vec<u8>, sink: &mut DiagnosticSink) {
        match &node.kind {
            NodeKind::ExprStmt => self.check_span(node.span, src, sink),
            NodeKind::ReturnStmt => self.check_span(node.span, src, sink),
            _ => {},
        }
    }
}

} // verus!
