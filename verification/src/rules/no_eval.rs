//! The forbidden-identifier check: every identifier named exactly like the
//! dynamic-evaluation built-in is flagged, wherever it occurs in the tree —
//! property positions of a member access included, since their name nodes
//! are identifiers too.

use vstd::prelude::*;

use crate::ast::{Ast, NodeKind, Span};
use crate::config::RuleConfig;
use crate::diagnostics::{Diagnostic, DiagnosticSink, Message};
use crate::rule::{visitor_rule, NodeCheck, VisitorRule};

verus! {

/// Build the forbidden-identifier rule from its typed settings.
pub fn noeval(config: &RuleConfig<NoEvalConfig>) -> (r: VisitorRule<NoEval>)
    ensures
        r.0 == (NoEval {}),
{
    visitor_rule(NoEval::new(config))
}

/// Typed settings of the forbidden-identifier check.  The check has no
/// setting beyond being enabled or disabled through the registry.
#[derive(Clone, Copy, Debug, PartialEq, Eq, Structural)]
pub struct NoEvalConfig {}

impl Default for NoEvalConfig {
    fn default() -> (r: Self)
        ensures
            r == (NoEvalConfig {}),
    {
        NoEvalConfig {}
    }
}

/// The forbidden-identifier visitor.
#[derive(Clone, Copy)]
pub struct NoEval {}

/// What the check emits at an identifier: a diagnostic exactly when the
/// name is the reserved dynamic-evaluation name.
pub open spec fn no_eval_diags(name: Seq<char>, span: Span) -> Seq<Diagnostic> {
    if name == "eval"@ {
        seq![Diagnostic { span, message: Message::EvalForbidden }]
    } else {
        Seq::<Diagnostic>::empty()
    }
}

impl NoEval {
    /// Bind the visitor to its typed configuration, of which it needs
    /// nothing.
    pub fn new(config: &RuleConfig<NoEvalConfig>) -> (r: Self)
        ensures
            r == (NoEval {}),
    {
        let _noeval_config = config.get_rule_config();
        NoEval {}
    }

    /// Flag a use of the forbidden identifier.
    fn emit_error(&self, span: Span, sink: &mut DiagnosticSink)
        ensures
            final(sink)@ == old(sink)@.push(
                Diagnostic { span, message: Message::EvalForbidden },
            ),
    {
        sink.emit(span, Message::EvalForbidden);
    }
}

impl NodeCheck for NoEval {
    open spec fn node_diags(&self, node: Ast, src: Seq<u8>) -> Seq<Diagnostic> {
        match node.kind {
            NodeKind::Ident(name) => no_eval_diags(name@, node.span),
            _ => Seq::<Diagnostic>::empty(),
        }
    }

    fn check_node(&self, node: &Ast, src: &Vec<u8>, sink: &mut DiagnosticSink) {
        if let NodeKind::Ident(name) = &node.kind {
            let forbidden: String = "eval".to_owned();
            if *name == forbidden {
                self.emit_error(node.span, sink);
            }
        }
    }
}

} // verus!
