//! The indentation check: within a function declaration's span, every
//! line's leading whitespace run must consist solely of the configured
//! indent character and span a whole number of indent widths.
//!
//! Each function declaration is examined independently; since the traversal
//! never prunes children, a line inside nested declarations is examined once
//! per enclosing declaration.

use vstd::prelude::*;

use crate::ast::{Ast, NodeKind, Span};
use crate::config::RuleConfig;
use crate::diagnostics::{Diagnostic, DiagnosticSink, Message};
use crate::rule::{visitor_rule, NodeCheck, VisitorRule};

verus! {

/// Build the indentation rule from its typed settings.
pub fn indent(config: &RuleConfig<IndentConfig>) -> (r: VisitorRule<Indent>)
    ensures
        r.0.num == config.spec_inner().num,
        r.0.indent_type == config.spec_inner().indent_type,
{
    visitor_rule(Indent::new(config))
}

/// The character a level of indentation is written with.
#[derive(Clone, Copy, Debug, PartialEq, Eq, Structural)]
pub enum IndentType {
    Space,
    Tab,
}

impl Default for IndentType {
    fn default() -> (r: Self)
        ensures
            r == IndentType::Space,
    {
        IndentType::Space
    }
}

/// Typed settings of the indentation check.
#[derive(Clone, Copy, Debug, PartialEq, Eq, Structural)]
pub struct IndentConfig {
    /// How many indent characters make one level.
    pub num: u32,
    /// Which character indents.
    pub indent_type: IndentType,
}

impl Default for IndentConfig {
    /// Four spaces per level when nothing is configured.
    fn default() -> (r: Self)
        ensures
            r == (IndentConfig { num: 4, indent_type: IndentType::Space }),
    {
        IndentConfig { num: 4, indent_type: IndentType::Space }
    }
}

/// The byte an indent character is written as.
pub open spec fn spec_indent_byte(t: IndentType) -> u8 {
    match t {
        IndentType::Space => 0x20,
        IndentType::Tab => 0x09,
    }
}

/// Whether a byte counts as leading whitespace.
pub open spec fn is_ws_byte(b: u8) -> bool {
    b == 0x20 || b == 0x09
}

/// The length of the whitespace run starting at `i`.
pub open spec fn ws_run_len(src: Seq<u8>, i: int) -> int
    decreases src.len() - i when i <= src.len()
{
    if 0 <= i < src.len() && is_ws_byte(src[i]) {
        1 + ws_run_len(src, i + 1)
    } else {
        0
    }
}

/// Whether `i` begins a line: the buffer's start, or the position right
/// after a line feed.
pub open spec fn is_line_start(src: Seq<u8>, i: int) -> bool {
    i == 0 || (0 <= i - 1 < src.len() && src[i - 1] == 0x0a)
}

/// Whether the line starting at `i` is indented acceptably: its leading
/// whitespace run holds nothing but the indent character, and, when the
/// indent width is positive, the run is a whole number of widths long.
pub open spec fn indent_line_ok(ch: u8, num: u32, src: Seq<u8>, i: int) -> bool {
    &&& (forall|k: int| i <= k < i + ws_run_len(src, i) ==> src[k] == ch)
    &&& (num > 0 ==> ws_run_len(src, i) % (num as int) == 0)
}

/// The diagnostic owed at position `i`: one entry when `i` begins a badly
/// indented line inside the declaration, none otherwise.
pub open spec fn indent_line_entry(ch: u8, num: u32, src: Seq<u8>, i: int, span: Span) -> Seq<
    Diagnostic,
> {
    if is_line_start(src, i) && !indent_line_ok(ch, num, src, i) {
        seq![Diagnostic { span, message: Message::WrongIndent }]
    } else {
        Seq::<Diagnostic>::empty()
    }
}

/// The diagnostics owed for all line starts in `[lo, hi)`, in source order.
pub open spec fn indent_range_diags(
    ch: u8,
    num: u32,
    src: Seq<u8>,
    lo: int,
    hi: int,
    span: Span,
) -> Seq<Diagnostic>
    decreases hi - lo,
{
    if lo >= hi {
        Seq::<Diagnostic>::empty()
    } else {
        indent_range_diags(ch, num, src, lo, hi - 1, span) + indent_line_entry(
            ch,
            num,
            src,
            hi - 1,
            span,
        )
    }
}

/// What the check emits at a function declaration: one diagnostic at the
/// declaration's span per badly indented line beginning inside the span,
/// clamped to the buffer.
pub open spec fn indent_decl_diags(ch: u8, num: u32, src: Seq<u8>, span: Span) -> Seq<Diagnostic> {
    let hi = if span.hi <= src.len() {
        span.hi as int
    } else {
        src.len() as int
    };
    indent_range_diags(ch, num, src, span.lo as int, hi, span)
}

/// The indentation visitor, bound to its typed configuration.
#[derive(Clone, Copy)]
pub struct Indent {
    pub num: u32,
    pub indent_type: IndentType,
}

impl Indent {
    /// Bind the visitor to its typed configuration.
    pub fn new(config: &RuleConfig<IndentConfig>) -> (r: Self)
        ensures
            r.num == config.spec_inner().num,
            r.indent_type == config.spec_inner().indent_type,
    {
        let indent_config = config.get_rule_config();
        Indent { num: indent_config.num, indent_type: indent_config.indent_type }
    }

    /// The byte this configuration indents with.
    fn indent_byte(&self) -> (b: u8)
        ensures
            b == spec_indent_byte(self.indent_type),
    {
        match self.indent_type {
            IndentType::Space => 0x20,
            IndentType::Tab => 0x09,
        }
    }

    /// Decide whether the line starting at `i` is indented acceptably.
    fn line_ok(&self, ch: u8, src: &Vec<u8>, i: usize) -> (r: bool)
        requires
            i <= src@.len(),
        ensures
            r == indent_line_ok(ch, self.num, src@, i as int),
    {
        let mut j = i;
        let mut pure = true;
        while j < src.len() && (src[j] == 0x20 || src[j] == 0x09)
            invariant
                i <= j <= src@.len(),
                pure == (forall|k: int| i <= k < j ==> src@[k] == ch),
                forall|k: int| i <= k < j ==> is_ws_byte(src@[k]),
            decreases src@.len() - j,
        {
            if src[j] != ch {
                pure = false;
            }
            j = j + 1;
        }
        proof {
            lemma_ws_run_len_range(src@, i as int, j as int);
        }
        let run = j - i;
        pure && (self.num == 0 || run % (self.num as usize) == 0)
    }
}

/// A whitespace run is as long as the region scanned: all of `[i, j)` is
/// whitespace and `j` is the buffer's end or not whitespace.
proof fn lemma_ws_run_len_range(src: Seq<u8>, i: int, j: int)
    requires
        0 <= i <= j <= src.len(),
        forall|k: int| i <= k < j ==> is_ws_byte(src[k]),
        j == src.len() || !is_ws_byte(src[j]),
    ensures
        ws_run_len(src, i) == j - i,
    decreases j - i,
{
    if i < j {
        lemma_ws_run_len_range(src, i + 1, j);
    }
}

impl NodeCheck for Indent {
    open spec fn node_diags(&self, node: Ast, src: Seq<u8>) -> Seq<Diagnostic> {
        match node.kind {
            NodeKind::FnDecl => indent_decl_diags(
                spec_indent_byte(self.indent_type),
                self.num,
                src,
                node.span,
            ),
            _ => Seq::<Diagnostic>::empty(),
        }
    }

    fn check_node(&self, node: &Ast, src: &Vec<u8>, sink: &mut DiagnosticSink) {
        if let NodeKind::FnDecl = &node.kind {
            let ch = self.indent_byte();
            let span = node.span;
            let hi = if span.hi <= src.len() {
                span.hi
            } else {
                src.len()
            };
            let ghost start = sink@;
            let mut i = span.lo;
            if i > hi {
                i = hi;
            }
            proof {
                assert(indent_range_diags(ch, self.num, src@, span.lo as int, i as int, span)
                    =~= Seq::<Diagnostic>::empty());
            }
            while i < hi
                invariant
                    span.lo <= i <= hi || i == hi,
                    hi <= src@.len(),
                    hi == (if span.hi <= src@.len() {
                        span.hi as int
                    } else {
                        src@.len() as int
                    }),
                    ch == spec_indent_byte(self.indent_type),
                    sink@ == start + indent_range_diags(
                        ch,
                        self.num,
                        src@,
                        span.lo as int,
                        i as int,
                        span,
                    ),
                decreases hi - i,
            {
                let starts_line = i == 0 || src[i - 1] == 0x0a;
                if starts_line {
                    if !self.line_ok(ch, src, i) {
                        sink.emit(span, Message::WrongIndent);
                    }
                }
                i = i + 1;
            }
        }
    }
}

} // verus!
