//! The syntax-tree model that the rules read.
//!
//! The parser is an external collaborator: it turns source text into a tree.
//! The rules only ever read the node kinds below, each node's span and the raw
//! source bytes, so a program is modelled by exactly that data.  Every node
//! carries its children, and a traversal visits nodes in pre-order.

use vstd::prelude::*;

verus! {

/// A half-open byte-offset range into a single source buffer.
#[derive(Clone, Copy, Debug, PartialEq, Eq, Structural)]
pub struct Span {
    pub lo: usize,
    pub hi: usize,
}

/// The binary operators the equality-strictness check distinguishes; every
/// other operator is `Other`.
#[derive(Clone, Copy, Debug, PartialEq, Eq, Structural)]
pub enum BinOp {
    /// `==`
    EqEq,
    /// `!=`
    NotEq,
    /// `===`
    EqEqEq,
    /// `!==`
    NotEqEq,
    Other,
}

/// What a node is, beyond its span and children.
pub enum NodeKind {
    /// A plain string literal; its span covers the quotes, so the byte at
    /// `span.lo` is the opening quote character.
    StrLit,
    /// A template literal; its children are the embedded expressions, so a
    /// pure static template has no children.
    Tpl,
    /// A binary expression; its children are the two operands.
    Bin(BinOp),
    /// An identifier and its name.
    Ident(String),
    /// An expression statement; its span ends after the terminator when one
    /// is present.
    ExprStmt,
    /// A return statement; its span ends after the terminator when one is
    /// present.
    ReturnStmt,
    /// A function declaration; its children are the parameters and body.
    FnDecl,
    /// Any other node kind; the checks only traverse through it.
    Other,
}

/// One node of the tree: a kind, a source span, and the child nodes in source
/// order.
pub struct Ast {
    pub kind: NodeKind,
    pub span: Span,
    pub children: Vec<Ast>,
}

/// The two program shapes the parser can hand over.  Both hold the top-level
/// nodes in source order; the rules traverse them identically.
pub enum Program {
    Module(Vec<Ast>),
    Script(Vec<Ast>),
}

impl Program {
    /// The top-level nodes, whatever the program shape.
    pub open spec fn body(&self) -> Seq<Ast> {
        match self {
            Program::Module(b) => b@,
            Program::Script(b) => b@,
        }
    }
}

} // verus!
