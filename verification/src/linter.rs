//! The session driver: run every active rule once over a parsed program,
//! against a fresh diagnostic sink, and report the diagnostic count.
//!
//! Reading the file and parsing it into a tree belong to the caller; the
//! session starts from a parsed program, a resolved configuration and the
//! raw source bytes, and owns nothing beyond its sink.

use vstd::prelude::*;

use crate::ast::{Ast, Program};
use crate::config::LintConfig;
use crate::diagnostics::{Diagnostic, DiagnosticSink};
use crate::rules::{get_all_rules, spec_active_rules, AnyRule, LintContext};

verus! {

/// The diagnostics a sequence of rules emits over a program body, each
/// rule's in turn.
pub open spec fn spec_rules_diags(rules: Seq<AnyRule>, body: Seq<Ast>, src: Seq<u8>) -> Seq<
    Diagnostic,
>
    decreases rules.len(),
{
    if rules.len() == 0 {
        Seq::<Diagnostic>::empty()
    } else {
        spec_rules_diags(rules.drop_last(), body, src) + rules.last().spec_rule_diags(body, src)
    }
}

/// The diagnostics one session owes: every active rule's, in registration
/// order.  This is a function of the program, the configuration and the
/// source alone, so a second run over the same unmodified inputs owes the
/// same diagnostics.
pub open spec fn spec_session_diags(config: LintConfig, program: Program, src: Seq<u8>) -> Seq<
    Diagnostic,
> {
    spec_rules_diags(spec_active_rules(config), program.body(), src)
}

/// Run one session: every active rule once over the program, into a fresh
/// sink, which is returned with exactly the session's diagnostics.
#[verifier::loop_isolation(false)]
pub fn lint_session(program: &Program, context: &LintContext) -> (sink: DiagnosticSink)
    ensures
        sink@ == spec_session_diags(context.lint_config, *program, context.source@),
{
    let rules = get_all_rules(context);
    let ghost rules_m = spec_active_rules(context.lint_config);
    let mut sink = DiagnosticSink::new();
    let n = rules.len();
    let mut i: usize = 0;
    while i < n
        invariant
            i <= n,
            sink@ == spec_rules_diags(rules_m.take(i as int), program.body(), context.source@),
        decreases n - i,
    {
        proof {
            assert(rules_m.take(i + 1).drop_last() =~= rules_m.take(i as int));
        }
        rules[i].lint_program(program, &context.source, &mut sink);
        i = i + 1;
    }
    proof {
        assert(rules_m.take(n as int) =~= rules_m);
    }
    sink
}

/// Lint one parsed program, returning the number of errors found.
pub fn lint_program(program: &Program, context: &LintContext) -> (n: usize)
    ensures
        n == spec_session_diags(context.lint_config, *program, context.source@).len(),
{
    let sink = lint_session(program, context);
    sink.count()
}

} // verus!
