//! The individual checks, and the registry that builds the active rule set
//! of a session.
//!
//! The registry works in two phases: construct every statically known check
//! with its slice of the configuration, then subtract the names the
//! configuration disables.  A check's construction never depends on the
//! enable/disable decision.

pub mod eqeqeq;
pub mod indent;
pub mod no_eval;
pub mod quotes;
pub mod semi;

use vstd::prelude::*;

use crate::ast::{Ast, Program};
use crate::config::{contains_name, spec_all_rules_preset, views_of, LintConfig};
use crate::diagnostics::{Diagnostic, DiagnosticSink};
use crate::rule::{Rule, VisitorRule};
use crate::rules::eqeqeq::{eqeqeq, Eqeqeq};
use crate::rules::indent::{indent, Indent};
use crate::rules::no_eval::{noeval, NoEval};
use crate::rules::quotes::{quotes, Quotes};
use crate::rules::semi::{semi, Semi};

verus! {

/// What a session shares with every rule it runs: the resolved
/// configuration, and the raw source bytes that spans point into.
pub struct LintContext {
    pub lint_config: LintConfig,
    pub source: Vec<u8>,
}

/// One of the statically known checks, wrapped as a uniform rule instance.
/// The registry's collection is homogeneous over this type while the checks
/// stay heterogeneous.
#[derive(Clone, Copy)]
pub enum AnyRule {
    Quotes(VisitorRule<Quotes>),
    Eqeqeq(VisitorRule<Eqeqeq>),
    Semi(VisitorRule<Semi>),
    NoEval(VisitorRule<NoEval>),
    Indent(VisitorRule<Indent>),
}

impl AnyRule {
    /// The name this check is registered under.
    pub open spec fn spec_name(&self) -> Seq<char> {
        match self {
            AnyRule::Quotes(_) => "quotes"@,
            AnyRule::Eqeqeq(_) => "eqeqeq"@,
            AnyRule::Semi(_) => "semi"@,
            AnyRule::NoEval(_) => "no-eval"@,
            AnyRule::Indent(_) => "indent"@,
        }
    }

    /// The diagnostics this rule emits over a program body.
    pub open spec fn spec_rule_diags(&self, body: Seq<Ast>, src: Seq<u8>) -> Seq<Diagnostic> {
        match self {
            AnyRule::Quotes(r) => r.rule_diags(body, src),
            AnyRule::Eqeqeq(r) => r.rule_diags(body, src),
            AnyRule::Semi(r) => r.rule_diags(body, src),
            AnyRule::NoEval(r) => r.rule_diags(body, src),
            AnyRule::Indent(r) => r.rule_diags(body, src),
        }
    }

    /// Run this rule over a program, module- or script-style, through the
    /// entry point matching its shape.
    pub fn lint_program(&self, program: &Program, src: &Vec<u8>, sink: &mut DiagnosticSink)
        ensures
            final(sink)@ == old(sink)@ + self.spec_rule_diags(program.body(), src@),
    {
        match program {
            Program::Module(body) => match self {
                AnyRule::Quotes(r) => r.lint_module(body, src, sink),
                AnyRule::Eqeqeq(r) => r.lint_module(body, src, sink),
                AnyRule::Semi(r) => r.lint_module(body, src, sink),
                AnyRule::NoEval(r) => r.lint_module(body, src, sink),
                AnyRule::Indent(r) => r.lint_module(body, src, sink),
            },
            Program::Script(body) => match self {
                AnyRule::Quotes(r) => r.lint_script(body, src, sink),
                AnyRule::Eqeqeq(r) => r.lint_script(body, src, sink),
                AnyRule::Semi(r) => r.lint_script(body, src, sink),
                AnyRule::NoEval(r) => r.lint_script(body, src, sink),
                AnyRule::Indent(r) => r.lint_script(body, src, sink),
            },
        }
    }
}

/// A rule instance together with the name it is registered under.
pub struct NamedRule {
    pub name: String,
    pub rule: AnyRule,
}

/// Every statically known check, built from its slice of the configuration,
/// paired with its registry name, in registration order.
pub open spec fn spec_all_rules(config: LintConfig) -> Seq<(Seq<char>, AnyRule)> {
    seq![
        ("quotes"@, AnyRule::Quotes(VisitorRule(Quotes { prefer: config.quotes.spec_inner().prefer }))),
        ("eqeqeq"@, AnyRule::Eqeqeq(VisitorRule(Eqeqeq { mode: config.eqeqeq.spec_inner().mode }))),
        ("semi"@, AnyRule::Semi(VisitorRule(Semi { prefer: config.semi.spec_inner().prefer }))),
        ("no-eval"@, AnyRule::NoEval(VisitorRule(NoEval {}))),
        (
            "indent"@,
            AnyRule::Indent(
                VisitorRule(
                    Indent {
                        num: config.indent.spec_inner().num,
                        indent_type: config.indent.spec_inner().indent_type,
                    },
                ),
            ),
        ),
    ]
}

/// The rules that stay once the disabled names are subtracted, in
/// registration order.
pub open spec fn spec_active_from(
    rules: Seq<(Seq<char>, AnyRule)>,
    disabled: Seq<Seq<char>>,
) -> Seq<AnyRule>
    decreases rules.len(),
{
    if rules.len() == 0 {
        Seq::<AnyRule>::empty()
    } else {
        spec_active_from(rules.drop_last(), disabled) + (if disabled.contains(rules.last().0) {
            Seq::<AnyRule>::empty()
        } else {
            seq![rules.last().1]
        })
    }
}

/// The active rule set of a session: with the all-rules preset extended,
/// every known check except the disabled ones; without it, conservatively
/// none.
pub open spec fn spec_active_rules(config: LintConfig) -> Seq<AnyRule> {
    if views_of(config.rules@).contains(spec_all_rules_preset()) {
        spec_active_from(spec_all_rules(config), views_of(config.disabled_rules@))
    } else {
        Seq::<AnyRule>::empty()
    }
}

/// Build every statically known check with its slice of the configuration,
/// enabled or not.
pub fn get_all_rules_raw(config: &LintConfig) -> (r: Vec<NamedRule>)
    ensures
        r@.map_values(|nr: NamedRule| (nr.name@, nr.rule)) == spec_all_rules(*config),
{
    let mut rules: Vec<NamedRule> = Vec::new();
    rules.push(NamedRule { name: "quotes".to_owned(), rule: AnyRule::Quotes(quotes(&config.quotes)) });
    rules.push(
        NamedRule { name: "eqeqeq".to_owned(), rule: AnyRule::Eqeqeq(eqeqeq(&config.eqeqeq)) },
    );
    rules.push(NamedRule { name: "semi".to_owned(), rule: AnyRule::Semi(semi(&config.semi)) });
    rules.push(
        NamedRule { name: "no-eval".to_owned(), rule: AnyRule::NoEval(noeval(&config.noeval)) },
    );
    rules.push(
        NamedRule { name: "indent".to_owned(), rule: AnyRule::Indent(indent(&config.indent)) },
    );
    proof {
        assert(rules@.map_values(|nr: NamedRule| (nr.name@, nr.rule)) =~= spec_all_rules(*config));
    }
    rules
}

/// Build the active rule set of a session: construct all known checks, then
/// subtract every name the configuration disables.  Without the all-rules
/// preset the active set is conservatively empty.
#[verifier::loop_isolation(false)]
pub fn get_all_rules(context: &LintContext) -> (r: Vec<AnyRule>)
    ensures
        r@ == spec_active_rules(context.lint_config),
{
    let config = &context.lint_config;
    let all_rules_preset: String = "eslint:all".to_owned();
    if !contains_name(&config.rules, &all_rules_preset) {
        return Vec::new();
    }
    let named = get_all_rules_raw(config);
    let ghost named_m = spec_all_rules(*config);
    let mut active: Vec<AnyRule> = Vec::new();
    let n = named.len();
    let mut i: usize = 0;
    while i < n
        invariant
            i <= n,
            active@ == spec_active_from(named_m.take(i as int), views_of(config.disabled_rules@)),
        decreases n - i,
    {
        proof {
            assert(named_m.take(i + 1).drop_last() =~= named_m.take(i as int));
            assert(named_m[i as int] == (named@[i as int].name@, named@[i as int].rule));
        }
        let nr = &named[i];
        if !contains_name(&config.disabled_rules, &nr.name) {
            active.push(nr.rule);
        }
        i = i + 1;
    }
    proof {
        assert(named_m.take(n as int) =~= named_m);
    }
    active
}

/// A name the configuration disables never yields an active rule instance,
/// whatever the rest of the configuration says.
pub proof fn lemma_disabled_rules_inactive(config: LintConfig, i: int)
    requires
        0 <= i < spec_active_rules(config).len(),
    ensures
        !views_of(config.disabled_rules@).contains(spec_active_rules(config)[i].spec_name()),
{
    assert forall|j: int|
        0 <= j < spec_all_rules(config).len() implies #[trigger] spec_all_rules(
        config,
    )[j].1.spec_name() == spec_all_rules(config)[j].0 by {
    }
    lemma_active_from_names(spec_all_rules(config), views_of(config.disabled_rules@), i);
}

/// Every rule the subtraction keeps bears a name outside the disabled list.
proof fn lemma_active_from_names(
    rules: Seq<(Seq<char>, AnyRule)>,
    disabled: Seq<Seq<char>>,
    i: int,
)
    requires
        forall|j: int|
            0 <= j < rules.len() ==> #[trigger] rules[j].1.spec_name() == rules[j].0,
        0 <= i < spec_active_from(rules, disabled).len(),
    ensures
        !disabled.contains(spec_active_from(rules, disabled)[i].spec_name()),
    decreases rules.len(),
{
    if rules.len() > 0 {
        let prefix = spec_active_from(rules.drop_last(), disabled);
        if i < prefix.len() {
            lemma_active_from_names(rules.drop_last(), disabled, i);
        } else {
            assert(!disabled.contains(rules.last().0));
        }
    }
}

} // verus!
