//! The rule abstraction: the capability contract every check implements, and
//! the adapter that turns a tree-visitor into a uniform rule instance.
//!
//! A check only decides what to emit at a single node; the generic adapter
//! [`VisitorRule`] supplies the traversal, visiting every node of the tree in
//! pre-order and never filtering anything itself.  Both program shapes are
//! linted by the same traversal.

use vstd::prelude::*;

use crate::ast::Ast;
use crate::diagnostics::{Diagnostic, DiagnosticSink};

verus! {

/// The capability every check implements: decide, for one node, which
/// diagnostics to emit there.  All decision logic lives here; recursion into
/// children is the adapter's job.
pub trait NodeCheck: Sized {
    /// The diagnostics this check emits at `node` itself, children aside.
    spec fn node_diags(&self, node: Ast, src: Seq<u8>) -> Seq<Diagnostic>;

    /// Emit exactly the diagnostics this check owes at `node` itself.
    fn check_node(&self, node: &Ast, src: &Vec<u8>, sink: &mut DiagnosticSink)
        ensures
            final(sink)@ == old(sink)@ + self.node_diags(*node, src@),
    ;
}

/// The diagnostics a check emits over a whole tree, in pre-order: the node's
/// own first, then each child subtree's in source order.
pub open spec fn tree_diags<V: NodeCheck>(v: V, node: Ast, src: Seq<u8>) -> Seq<Diagnostic>
    decreases node, 1nat,
{
    v.node_diags(node, src) + forest_diags(v, node.children@, src)
}

/// The diagnostics a check emits over a sequence of sibling trees.
pub open spec fn forest_diags<V: NodeCheck>(v: V, nodes: Seq<Ast>, src: Seq<u8>) -> Seq<Diagnostic>
    decreases nodes, 0nat,
{
    if nodes.len() == 0 {
        Seq::<Diagnostic>::empty()
    } else {
        forest_diags(v, nodes.drop_last(), src) + tree_diags(v, nodes.last(), src)
    }
}

/// Visit one tree: this node, then every child subtree, emitting exactly the
/// check's diagnostics for the whole tree.  A mismatch never aborts the
/// traversal.
pub fn visit_tree<V: NodeCheck>(v: &V, node: &Ast, src: &Vec<u8>, sink: &mut DiagnosticSink)
    ensures
        final(sink)@ == old(sink)@ + tree_diags(*v, *node, src@),
    decreases *node,
{
    v.check_node(node, src, sink);
    let ghost mid = sink@;
    let n = node.children.len();
    let mut i: usize = 0;
    while i < n
        invariant
            i <= n,
            n == node.children@.len(),
            sink@ == mid + forest_diags(*v, node.children@.take(i as int), src@),
        decreases n - i,
    {
        proof {
            assert(decreases_to!(*node => node.children));
        }
        visit_tree(v, &node.children[i], src, sink);
        proof {
            assert(node.children@.take(i + 1).drop_last() =~= node.children@.take(i as int));
            assert(node.children@.take(i + 1).last() == node.children@[i as int]);
        }
        i = i + 1;
    }
    proof {
        assert(node.children@.take(n as int) =~= node.children@);
    }
}

/// Visit a sequence of sibling trees in source order.
pub fn visit_forest<V: NodeCheck>(v: &V, nodes: &Vec<Ast>, src: &Vec<u8>, sink: &mut DiagnosticSink)
    ensures
        final(sink)@ == old(sink)@ + forest_diags(*v, nodes@, src@),
{
    let ghost start = sink@;
    let n = nodes.len();
    let mut i: usize = 0;
    while i < n
        invariant
            i <= n,
            n == nodes@.len(),
            sink@ == start + forest_diags(*v, nodes@.take(i as int), src@),
        decreases n - i,
    {
        visit_tree(v, &nodes[i], src, sink);
        proof {
            assert(nodes@.take(i + 1).drop_last() =~= nodes@.take(i as int));
            assert(nodes@.take(i + 1).last() == nodes@[i as int]);
        }
        i = i + 1;
    }
    proof {
        assert(nodes@.take(n as int) =~= nodes@);
    }
}

/// The uniform rule interface: two entry points, one per program shape, both
/// owing the same diagnostics for the same body.
pub trait Rule: Sized {
    /// The diagnostics this rule emits over a program body.
    spec fn rule_diags(&self, body: Seq<Ast>, src: Seq<u8>) -> Seq<Diagnostic>;

    /// Lint a module-style program.
    fn lint_module(&self, body: &Vec<Ast>, src: &Vec<u8>, sink: &mut DiagnosticSink)
        ensures
            final(sink)@ == old(sink)@ + self.rule_diags(body@, src@),
    ;

    /// Lint a script-style program.
    fn lint_script(&self, body: &Vec<Ast>, src: &Vec<u8>, sink: &mut DiagnosticSink)
        ensures
            final(sink)@ == old(sink)@ + self.rule_diags(body@, src@),
    ;
}

/// The adapter that makes a rule out of a tree-visitor.  It performs no
/// filtering itself: it traverses, and the wrapped check decides.
#[derive(Clone, Copy)]
pub struct VisitorRule<V: NodeCheck>(pub V);

impl<V: NodeCheck> Rule for VisitorRule<V> {
    open spec fn rule_diags(&self, body: Seq<Ast>, src: Seq<u8>) -> Seq<Diagnostic> {
        forest_diags(self.0, body, src)
    }

    fn lint_module(&self, body: &Vec<Ast>, src: &Vec<u8>, sink: &mut DiagnosticSink) {
        visit_forest(&self.0, body, src, sink);
    }

    fn lint_script(&self, body: &Vec<Ast>, src: &Vec<u8>, sink: &mut DiagnosticSink) {
        visit_forest(&self.0, body, src, sink);
    }
}

/// Wrap a tree-visitor as a uniform rule instance.
pub fn visitor_rule<V: NodeCheck>(v: V) -> (r: VisitorRule<V>)
    ensures
        r.0 == v,
{
    VisitorRule(v)
}

} // verus!
