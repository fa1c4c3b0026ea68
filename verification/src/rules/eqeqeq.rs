//! The equality-strictness check: in `Always` mode, loose equality and
//! inequality are flagged with the strict form expected; in `Never` mode,
//! the strict forms are flagged with the loose form expected.  Violations
//! never suppress nested checks: the traversal continues into children.

use vstd::prelude::*;

use crate::ast::{Ast, BinOp, NodeKind, Span};
use crate::config::RuleConfig;
use crate::diagnostics::{Diagnostic, DiagnosticSink, Message};
use crate::rule::{visitor_rule, NodeCheck, VisitorRule};

verus! {

/// Build the equality-strictness rule from its typed settings.
pub fn eqeqeq(config: &RuleConfig<EqeqeqConfig>) -> (r: VisitorRule<Eqeqeq>)
    ensures
        r.0.mode == config.spec_inner().mode,
{
    visitor_rule(Eqeqeq::new(config))
}

/// Which strictness the check demands of comparisons.
#[derive(Clone, Copy, Debug, PartialEq, Eq, Structural)]
pub enum Mode {
    /// Comparisons must use the strict operators.
    Always,
    /// Comparisons must use the loose operators.
    Never,
}

impl Default for Mode {
    fn default() -> (r: Self)
        ensures
            r == Mode::Always,
    {
        Mode::Always
    }
}

/// Typed settings of the equality-strictness check.
#[derive(Clone, Copy, Debug, PartialEq, Eq, Structural)]
pub struct EqeqeqConfig {
    pub mode: Mode,
}

impl Default for EqeqeqConfig {
    fn default() -> (r: Self)
        ensures
            r == (EqeqeqConfig { mode: Mode::Always }),
    {
        EqeqeqConfig { mode: Mode::Always }
    }
}

/// The equality-strictness visitor, bound to its typed configuration.
#[derive(Clone, Copy)]
pub struct Eqeqeq {
    pub mode: Mode,
}

/// What the check emits at a binary expression with operator `op`: in
/// `Always` mode the loose operators are flagged with `===` expected, in
/// `Never` mode the strict ones with the matching loose form expected; any
/// other operator is left alone.
pub open spec fn eqeqeq_diags(mode: Mode, op: BinOp, span: Span) -> Seq<Diagnostic> {
    match op {
        BinOp::EqEq => if mode == Mode::Always {
            seq![Diagnostic {
                span,
                message: Message::WrongEquality { found: BinOp::EqEq, expected: BinOp::EqEqEq },
            }]
        } else {
            Seq::<Diagnostic>::empty()
        },
        BinOp::NotEq => if mode == Mode::Always {
            seq![Diagnostic {
                span,
                message: Message::WrongEquality { found: BinOp::NotEq, expected: BinOp::EqEqEq },
            }]
        } else {
            Seq::<Diagnostic>::empty()
        },
        BinOp::EqEqEq => if mode == Mode::Never {
            seq![Diagnostic {
                span,
                message: Message::WrongEquality { found: BinOp::EqEqEq, expected: BinOp::EqEq },
            }]
        } else {
            Seq::<Diagnostic>::empty()
        },
        BinOp::NotEqEq => if mode == Mode::Never {
            seq![Diagnostic {
                span,
                message: Message::WrongEquality { found: BinOp::NotEqEq, expected: BinOp::NotEq },
            }]
        } else {
            Seq::<Diagnostic>::empty()
        },
        BinOp::Other => Seq::<Diagnostic>::empty(),
    }
}

impl Eqeqeq {
    /// Bind the visitor to its typed configuration.
    pub fn new(config: &RuleConfig<EqeqeqConfig>) -> (r: Self)
        ensures
            r.mode == config.spec_inner().mode,
    {
        let eqeqeq_config = config.get_rule_config();
        Eqeqeq { mode: eqeqeq_config.mode }
    }

    /// Flag a comparison at `span`, saying which operator was found and
    /// which was expected.
    fn emit_error(&self, span: Span, found: BinOp, expected: BinOp, sink: &mut DiagnosticSink)
        ensures
            final(sink)@ == old(sink)@.push(
                Diagnostic { span, message: Message::WrongEquality { found, expected } },
            ),
    {
        sink.emit(span, Message::WrongEquality { found, expected });
    }
}

impl NodeCheck for Eqeqeq {
    open spec fn node_diags(&self, node: Ast, src: Seq<u8>) -> Seq<Diagnostic> {
        match node.kind {
            NodeKind::Bin(op) => eqeqeq_diags(self.mode, op, node.span),
            _ => Seq::<Diagnostic>::empty(),
        }
    }

    fn check_node(&self, node: &Ast, src: &Vec<u8>, sink: &mut DiagnosticSink) {
        if let NodeKind::Bin(op) = &node.kind {
            let span = node.span;
            match op {
                BinOp::EqEq => {
                    if self.mode == Mode::Always {
                        self.emit_error(span, BinOp::EqEq, BinOp::EqEqEq, sink);
                    }
                },
                BinOp::NotEq => {
                    if self.mode == Mode::Always {
                        self.emit_error(span, BinOp::NotEq, BinOp::EqEqEq, sink);
                    }
                },
                BinOp::EqEqEq => {
                    if self.mode == Mode::Never {
                        self.emit_error(span, BinOp::EqEqEq, BinOp::EqEq, sink);
                    }
                },
                BinOp::NotEqEq => {
                    if self.mode == Mode::Never {
                        self.emit_error(span, BinOp::NotEqEq, BinOp::NotEq, sink);
                    }
                },
                BinOp::Other => {},
            }
        }
    }
}

} // verus!
