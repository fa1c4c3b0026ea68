//! The quote-style check: every string literal must be written with the
//! preferred quote character, and template literals without embedded
//! expressions are flagged unless backticks are the preference.

use vstd::prelude::*;

use crate::ast::{Ast, NodeKind, Span};
use crate::config::RuleConfig;
use crate::diagnostics::{Diagnostic, DiagnosticSink, Message};
use crate::rule::{forest_diags, visitor_rule, NodeCheck, VisitorRule};

verus! {

/// Build the quote-style rule from its typed settings.
pub fn quotes(config: &RuleConfig<QuotesConfig>) -> (r: VisitorRule<Quotes>)
    ensures
        r.0.prefer == config.spec_inner().prefer,
{
    visitor_rule(Quotes::new(config))
}

/// The three quote characters a literal can be written with.
#[derive(Clone, Copy, Debug, PartialEq, Eq, Structural)]
pub enum QuotesType {
    Single,
    Double,
    Backtick,
}

impl Default for QuotesType {
    /// Double quotes are preferred when nothing is configured.
    fn default() -> (r: Self)
        ensures
            r == QuotesType::Double,
    {
        QuotesType::Double
    }
}

/// The quote kind a source byte denotes, if any.
pub open spec fn spec_quotes_type_from_byte(b: u8) -> Option<QuotesType> {
    if b == 0x27 {
        Some(QuotesType::Single)
    } else if b == 0x22 {
        Some(QuotesType::Double)
    } else if b == 0x60 {
        Some(QuotesType::Backtick)
    } else {
        None
    }
}

impl QuotesType {
    /// Classify a source byte as one of the three quote characters.
    pub fn from_bytes(bytes: u8) -> (r: Option<QuotesType>)
        ensures
            r == spec_quotes_type_from_byte(bytes),
    {
        if bytes == 0x27 {
            Some(QuotesType::Single)
        } else if bytes == 0x22 {
            Some(QuotesType::Double)
        } else if bytes == 0x60 {
            Some(QuotesType::Backtick)
        } else {
            None
        }
    }
}

/// Typed settings of the quote-style check.
#[derive(Clone, Copy, Debug, PartialEq, Eq, Structural)]
pub struct QuotesConfig {
    /// The preferred quote character.
    pub prefer: QuotesType,
}

impl Default for QuotesConfig {
    fn default() -> (r: Self)
        ensures
            r == (QuotesConfig { prefer: QuotesType::Double }),
    {
        QuotesConfig { prefer: QuotesType::Double }
    }
}

/// The quote-style visitor, bound to its typed configuration.
#[derive(Clone, Copy)]
pub struct Quotes {
    pub prefer: QuotesType,
}

/// What the check emits at a plain string literal: the byte at the start of
/// the literal's span is its quote character; when it is readable and names
/// a quote kind other than the preferred one, the literal is flagged.  A
/// byte that is no quote character, or a span outside the buffer, is
/// skipped.
pub open spec fn quotes_str_diags(prefer: QuotesType, span: Span, src: Seq<u8>) -> Seq<Diagnostic> {
    if span.lo < src.len() {
        match spec_quotes_type_from_byte(src[span.lo as int]) {
            Some(t) => if t == prefer {
                Seq::<Diagnostic>::empty()
            } else {
                seq![Diagnostic { span, message: Message::WrongQuotes(prefer) }]
            },
            None => Seq::<Diagnostic>::empty(),
        }
    } else {
        Seq::<Diagnostic>::empty()
    }
}

/// What the check emits at a template literal: nothing when backticks are
/// preferred, nothing when the template embeds an expression (interpolation
/// requires backticks regardless of preference), a diagnostic otherwise.
pub open spec fn quotes_tpl_diags(prefer: QuotesType, node: Ast) -> Seq<Diagnostic> {
    if prefer == QuotesType::Backtick {
        Seq::<Diagnostic>::empty()
    } else if node.children@.len() > 0 {
        Seq::<Diagnostic>::empty()
    } else {
        seq![Diagnostic { span: node.span, message: Message::WrongQuotes(prefer) }]
    }
}

impl Quotes {
    /// Bind the visitor to its typed configuration.
    pub fn new(config: &RuleConfig<QuotesConfig>) -> (r: Self)
        ensures
            r.prefer == config.spec_inner().prefer,
    {
        let quotes_config = config.get_rule_config();
        Quotes { prefer: quotes_config.prefer }
    }

    /// The quote kind this visitor expects literals to use.
    pub fn get_preferred_type(&self) -> (r: QuotesType)
        ensures
            r == self.prefer,
    {
        self.prefer
    }

    /// Flag a literal at `span`.
    fn emit_error(&self, span: Span, sink: &mut DiagnosticSink)
        ensures
            final(sink)@ == old(sink)@.push(
                Diagnostic { span, message: Message::WrongQuotes(self.prefer) },
            ),
    {
        sink.emit(span, Message::WrongQuotes(self.prefer));
    }

    /// Check a plain string literal.
    fn check_str(&self, span: Span, src: &Vec<u8>, sink: &mut DiagnosticSink)
        ensures
            final(sink)@ == old(sink)@ + quotes_str_diags(self.prefer, span, src@),
    {
        if span.lo < src.len() {
            let b = src[span.lo];
            if let Some(quotes_type) = QuotesType::from_bytes(b) {
                if quotes_type == self.prefer {
                    return;
                }
                self.emit_error(span, sink);
            }
        }
    }

    /// Check a template literal.
    fn check_tpl(&self, node: &Ast, sink: &mut DiagnosticSink)
        ensures
            final(sink)@ == old(sink)@ + quotes_tpl_diags(self.prefer, *node),
    {
        if let QuotesType::Backtick = self.prefer {
            return;
        }
        if node.children.len() > 0 {
            return;
        }
        self.emit_error(node.span, sink);
    }
}

/// Running the quote-style check is idempotent: what a traversal emits is
/// a function of the tree, the preference and the source alone, so a
/// second run over the same unmodified tree emits exactly the first run's
/// diagnostics, and as many of them.
pub proof fn lemma_quotes_idempotent(
    prefer: QuotesType,
    body: Seq<Ast>,
    src: Seq<u8>,
    first: Seq<Diagnostic>,
    second: Seq<Diagnostic>,
)
    requires
        first == forest_diags(Quotes { prefer }, body, src),
        second == forest_diags(Quotes { prefer }, body, src),
    ensures
        first == second,
        first.len() == second.len(),
{
}

/// The template boundary: a template literal without embedded expressions
/// is flagged exactly when backticks are not the preference, and one with
/// an embedded expression is never flagged, whatever the preference.
pub proof fn lemma_template_boundary(prefer: QuotesType, node: Ast)
    ensures
        node.children@.len() == 0 && prefer != QuotesType::Backtick ==> quotes_tpl_diags(
            prefer,
            node,
        ) == seq![Diagnostic { span: node.span, message: Message::WrongQuotes(prefer) }],
        node.children@.len() > 0 ==> quotes_tpl_diags(prefer, node).len() == 0,
        prefer == QuotesType::Backtick ==> quotes_tpl_diags(prefer, node).len() == 0,
{
}

impl NodeCheck for Quotes {
    open spec fn node_diags(&self, node: Ast, src: Seq<u8>) -> Seq<Diagnostic> {
        match node.kind {
            NodeKind::StrLit => quotes_str_diags(self.prefer, node.span, src),
            NodeKind::Tpl => quotes_tpl_diags(self.prefer, node),
            _ => Seq::<Diagnostic>::empty(),
        }
    }

    fn check_node(&self, node: &Ast, src: &Vec<u8>, sink: &mut DiagnosticSink) {
        match &node.kind {
            NodeKind::StrLit => self.check_str(node.span, src, sink),
            NodeKind::Tpl => self.check_tpl(node, sink),
            _ => {},
        }
    }
}

} // verus!
