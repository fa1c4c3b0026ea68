use jslint_core::ast::{Ast, BinOp, NodeKind, Program, Span};
use jslint_core::config::{lint_config_from_json_text, LintConfig};
use jslint_core::diagnostics::{DiagnosticSink, Message};
use jslint_core::files::{get_config_file, Files};
use jslint_core::linter::{lint_program, lint_session};
use jslint_core::rules::{get_all_rules, get_all_rules_raw, AnyRule, LintContext};

fn span(lo: usize, hi: usize) -> Span {
    Span { lo, hi }
}

fn leaf(kind: NodeKind, lo: usize, hi: usize) -> Ast {
    Ast {
        kind,
        span: span(lo, hi),
        children: Vec::new(),
    }
}

fn node(kind: NodeKind, lo: usize, hi: usize, children: Vec<Ast>) -> Ast {
    Ast {
        kind,
        span: span(lo, hi),
        children,
    }
}

fn ident(name: &str, lo: usize, hi: usize) -> Ast {
    leaf(NodeKind::Ident(String::from(name)), lo, hi)
}

fn all_config(json: &str) -> LintConfig {
    lint_config_from_json_text(json).unwrap()
}

fn rule_name(rule: &AnyRule) -> &'static str {
    match rule {
        AnyRule::Quotes(_) => "quotes",
        AnyRule::Eqeqeq(_) => "eqeqeq",
        AnyRule::Semi(_) => "semi",
        AnyRule::NoEval(_) => "no-eval",
        AnyRule::Indent(_) => "indent",
    }
}

#[test]
fn registry_builds_every_known_check() {
    let config = LintConfig::default();
    let named = get_all_rules_raw(&config);
    let names: Vec<&str> = named.iter().map(|nr| nr.name.as_str()).collect();
    assert_eq!(names, vec!["quotes", "eqeqeq", "semi", "no-eval", "indent"]);
}

// The round trip continued: with the all-rules preset, the active set is
// every known check minus the disabled names.
#[test]
fn registry_subtracts_disabled_names() {
    let config = all_config(
        "{\"extends\": [\"eslint:all\"], \"rules\": {\"quotes\": 0, \"indent\": \"off\"}}",
    );
    assert_eq!(config.disabled_rules.len(), 2);
    let context = LintContext {
        lint_config: config,
        source: Vec::new(),
    };
    let active = get_all_rules(&context);
    let names: Vec<&str> = active.iter().map(rule_name).collect();
    assert_eq!(names, vec!["eqeqeq", "semi", "no-eval"]);
}

#[test]
fn registry_keeps_all_checks_when_nothing_relevant_disabled() {
    let config = all_config("{\"extends\": [\"eslint:all\"], \"rules\": {\"a\": 0, \"b\": 2}}");
    assert_eq!(config.disabled_rules, vec![String::from("a")]);
    let context = LintContext {
        lint_config: config,
        source: Vec::new(),
    };
    let active = get_all_rules(&context);
    assert_eq!(active.len(), 5);
}

// Without the all-rules preset the active set is empty, the conservative
// documented behaviour, even when rules are explicitly configured.
#[test]
fn registry_conservative_without_all_preset() {
    let config =
        all_config("{\"extends\": [], \"rules\": {\"quotes\": [\"error\", \"single\"]}}");
    let context = LintContext {
        lint_config: config,
        source: Vec::new(),
    };
    let active = get_all_rules(&context);
    assert_eq!(active.len(), 0);
}

#[test]
fn session_counts_diagnostics_of_every_active_rule() {
    // `a == b;` under the default settings: the loose comparison is one
    // violation, and the trailing semicolon another, since the default
    // terminator preference is to leave statements unterminated.
    let text = "a == b;";
    let source: Vec<u8> = Vec::from(text.as_bytes());
    let stmt = node(
        NodeKind::ExprStmt,
        0,
        7,
        vec![node(
            NodeKind::Bin(BinOp::EqEq),
            0,
            6,
            vec![ident("a", 0, 1), ident("b", 5, 6)],
        )],
    );
    let program = Program::Module(vec![stmt]);
    let config = all_config("{\"extends\": [\"eslint:all\"], \"rules\": {}}");
    let context = LintContext {
        lint_config: config,
        source,
    };
    assert_eq!(lint_program(&program, &context), 2);

    let sink = lint_session(&program, &context);
    let messages: Vec<Message> = sink.diagnostics().iter().map(|d| d.message).collect();
    assert!(messages.contains(&Message::WrongEquality {
        found: BinOp::EqEq,
        expected: BinOp::EqEqEq,
    }));
    assert!(messages.contains(&Message::ExtraSemicolon));
}

#[test]
fn session_with_disabled_rule_skips_its_diagnostics() {
    let text = "a == b;";
    let source: Vec<u8> = Vec::from(text.as_bytes());
    let stmt = node(
        NodeKind::ExprStmt,
        0,
        7,
        vec![node(
            NodeKind::Bin(BinOp::EqEq),
            0,
            6,
            vec![ident("a", 0, 1), ident("b", 5, 6)],
        )],
    );
    let program = Program::Module(vec![stmt]);
    let config = all_config("{\"extends\": [\"eslint:all\"], \"rules\": {\"eqeqeq\": 0}}");
    let context = LintContext {
        lint_config: config,
        source,
    };
    assert_eq!(lint_program(&program, &context), 1);
}

#[test]
fn session_without_preset_reports_nothing() {
    let text = "eval(x)";
    let source: Vec<u8> = Vec::from(text.as_bytes());
    let program = Program::Module(vec![ident("eval", 0, 4)]);
    let config = all_config("{\"extends\": [], \"rules\": {}}");
    let context = LintContext {
        lint_config: config,
        source,
    };
    assert_eq!(lint_program(&program, &context), 0);
}

#[test]
fn script_and_module_shapes_lint_alike() {
    let text = "eval(x)";
    let source: Vec<u8> = Vec::from(text.as_bytes());
    let config = all_config("{\"extends\": [\"eslint:all\"], \"rules\": {}}");
    let context = LintContext {
        lint_config: config,
        source,
    };
    let as_module = Program::Module(vec![ident("eval", 0, 4)]);
    let as_script = Program::Script(vec![ident("eval", 0, 4)]);
    assert_eq!(
        lint_program(&as_module, &context),
        lint_program(&as_script, &context)
    );
}

#[test]
fn sink_counts_what_was_emitted() {
    let mut sink = DiagnosticSink::new();
    assert_eq!(sink.count(), 0);
    sink.emit(span(0, 1), Message::EvalForbidden);
    sink.emit(span(2, 3), Message::MissingSemicolon);
    assert_eq!(sink.count(), 2);
    assert_eq!(sink.diagnostics()[0].span, span(0, 1));
    assert_eq!(sink.diagnostics()[1].message, Message::MissingSemicolon);
}

#[test]
fn explicit_config_path_wins() {
    let existing = vec![String::from("./proj/.eslintrc.json")];
    let picked = get_config_file(
        Some(String::from("./custom.json")),
        &String::from("./proj"),
        &existing,
    );
    assert_eq!(picked, Some(String::from("./custom.json")));
}

#[test]
fn first_existing_candidate_wins() {
    let existing = vec![
        String::from("./proj/package.json"),
        String::from("./proj/.eslintrc.json"),
    ];
    let picked = get_config_file(None, &String::from("./proj"), &existing);
    assert_eq!(picked, Some(String::from("./proj/.eslintrc.json")));
}

#[test]
fn no_candidate_yields_none() {
    let existing = vec![String::from("./proj/src/index.js")];
    let picked = get_config_file(None, &String::from("./proj"), &existing);
    assert_eq!(picked, None);
    let files = Files {
        files: existing,
        config: picked,
    };
    assert!(files.config.is_none());
    assert_eq!(files.files.len(), 1);
}
