use jslint_core::config::{
    is_disabled, is_num_disabled, is_string_disabled, lint_config_from_json_text,
    lint_config_from_text, parse_rule_value, ConfigError, LintConfig, RawRuleValue, RuleConfig,
};
use jslint_core::rules::eqeqeq::{EqeqeqConfig, Mode};
use jslint_core::rules::indent::{IndentConfig, IndentType};
use jslint_core::rules::quotes::{QuotesConfig, QuotesType};
use jslint_core::rules::semi::SemiConfig;

fn num(n: u64) -> serde_json::Value {
    serde_json::Value::Number(serde_json::Number::from(n))
}

fn text(s: &str) -> serde_json::Value {
    serde_json::Value::String(String::from(s))
}

fn settings() -> Vec<(String, serde_json::Value)> {
    vec![(String::from("prefer"), text("single"))]
}

#[test]
fn is_zero_enabled() {
    assert_eq!(
        is_num_disabled(String::from("key"), &0),
        Some(String::from("key"))
    );
}

#[test]
fn is_one_enabled() {
    assert_eq!(is_num_disabled(String::from("key"), &1), None);
}

#[test]
fn is_two_enabled() {
    assert_eq!(is_num_disabled(String::from("key"), &2), None);
}

#[test]
fn is_three_enabled() {
    assert_eq!(is_num_disabled(String::from("key"), &3), None);
}

#[test]
fn is_off_enabled() {
    assert_eq!(
        is_string_disabled(String::from("key"), "off"),
        Some(String::from("key"))
    );
}

#[test]
fn is_warn_enabled() {
    assert_eq!(is_string_disabled(String::from("key"), "warn"), None);
}

#[test]
fn is_error_enabled() {
    assert_eq!(is_string_disabled(String::from("key"), "error"), None);
}

// The enable/disable decision over severity x shape: severity 0 or "off"
// disables, any other severity enables, whatever settings are attached.
#[test]
fn is_disabled_all_shapes_off_severities() {
    assert!(is_disabled(&RawRuleValue::NumberEnabled(0)));
    assert!(is_disabled(&RawRuleValue::StringEnabled(String::from("off"))));
    assert!(is_disabled(&RawRuleValue::NumberEnabledString(
        0,
        String::from("single")
    )));
    assert!(is_disabled(&RawRuleValue::StringEnabledString(
        String::from("off"),
        String::from("single")
    )));
    assert!(is_disabled(&RawRuleValue::NumberEnabledObject(0, settings())));
    assert!(is_disabled(&RawRuleValue::StringEnabledObject(
        String::from("off"),
        settings()
    )));
}

#[test]
fn is_disabled_all_shapes_on_severities() {
    for n in [1u8, 2, 3] {
        assert!(!is_disabled(&RawRuleValue::NumberEnabled(n)));
        assert!(!is_disabled(&RawRuleValue::NumberEnabledString(
            n,
            String::from("single")
        )));
        assert!(!is_disabled(&RawRuleValue::NumberEnabledObject(n, settings())));
    }
    for w in ["warn", "error", "anything"] {
        assert!(!is_disabled(&RawRuleValue::StringEnabled(String::from(w))));
        assert!(!is_disabled(&RawRuleValue::StringEnabledString(
            String::from(w),
            String::from("single")
        )));
        assert!(!is_disabled(&RawRuleValue::StringEnabledObject(
            String::from(w),
            settings()
        )));
    }
}

#[test]
fn parse_rule_value_number() {
    assert!(matches!(
        parse_rule_value(&num(2)),
        Ok(RawRuleValue::NumberEnabled(2))
    ));
}

#[test]
fn parse_rule_value_string() {
    match parse_rule_value(&text("error")) {
        Ok(RawRuleValue::StringEnabled(s)) => assert_eq!(s, "error"),
        other => panic!("wrong shape: {:?}", other.is_ok()),
    }
}

#[test]
fn parse_rule_value_number_string() {
    let v = serde_json::Value::Array(vec![num(2), text("single")]);
    match parse_rule_value(&v) {
        Ok(RawRuleValue::NumberEnabledString(n, s)) => {
            assert_eq!(n, 2);
            assert_eq!(s, "single");
        }
        other => panic!("wrong shape: {:?}", other.is_ok()),
    }
}

#[test]
fn parse_rule_value_string_string() {
    let v = serde_json::Value::Array(vec![text("error"), text("single")]);
    match parse_rule_value(&v) {
        Ok(RawRuleValue::StringEnabledString(a, b)) => {
            assert_eq!(a, "error");
            assert_eq!(b, "single");
        }
        other => panic!("wrong shape: {:?}", other.is_ok()),
    }
}

#[test]
fn parse_rule_value_object_shapes() {
    let mut map = serde_json::Map::new();
    map.insert(String::from("prefer"), text("single"));
    let v = serde_json::Value::Array(vec![num(2), serde_json::Value::Object(map.clone())]);
    match parse_rule_value(&v) {
        Ok(RawRuleValue::NumberEnabledObject(n, o)) => {
            assert_eq!(n, 2);
            assert_eq!(o.len(), 1);
            assert_eq!(o[0].0, "prefer");
        }
        other => panic!("wrong shape: {:?}", other.is_ok()),
    }
    let v = serde_json::Value::Array(vec![text("warn"), serde_json::Value::Object(map)]);
    match parse_rule_value(&v) {
        Ok(RawRuleValue::StringEnabledObject(a, o)) => {
            assert_eq!(a, "warn");
            assert_eq!(o.len(), 1);
        }
        other => panic!("wrong shape: {:?}", other.is_ok()),
    }
}

#[test]
fn parse_rule_value_rejects_other_shapes() {
    // A boolean, a bare object, a long array, an out-of-range number and a
    // mismatched pair all fall outside the six shapes.
    assert!(matches!(
        parse_rule_value(&serde_json::Value::Bool(true)),
        Err(ConfigError::MalformedConfig)
    ));
    assert!(matches!(
        parse_rule_value(&serde_json::Value::Object(serde_json::Map::new())),
        Err(ConfigError::MalformedConfig)
    ));
    assert!(matches!(
        parse_rule_value(&serde_json::Value::Array(vec![num(2), text("a"), text("b")])),
        Err(ConfigError::MalformedConfig)
    ));
    assert!(matches!(
        parse_rule_value(&num(300)),
        Err(ConfigError::MalformedConfig)
    ));
    assert!(matches!(
        parse_rule_value(&serde_json::Value::Array(vec![text("error"), num(2)])),
        Err(ConfigError::MalformedConfig)
    ));
    assert!(matches!(
        parse_rule_value(&serde_json::Value::Null),
        Err(ConfigError::MalformedConfig)
    ));
}

#[test]
fn default_config_when_no_document() {
    let config = LintConfig::default();
    assert_eq!(config.rules.len(), 0);
    assert_eq!(config.disabled_rules.len(), 0);
    assert_eq!(
        *config.quotes.get_rule_config(),
        QuotesConfig {
            prefer: QuotesType::Double
        }
    );
    assert_eq!(*config.semi.get_rule_config(), SemiConfig { prefer: false });
    assert_eq!(
        *config.eqeqeq.get_rule_config(),
        EqeqeqConfig { mode: Mode::Always }
    );
    assert_eq!(
        *config.indent.get_rule_config(),
        IndentConfig {
            num: 4,
            indent_type: IndentType::Space
        }
    );
}

#[test]
fn rule_config_hands_back_its_settings() {
    let rc = RuleConfig::new(QuotesConfig {
        prefer: QuotesType::Single,
    });
    assert_eq!(
        *rc.get_rule_config(),
        QuotesConfig {
            prefer: QuotesType::Single
        }
    );
}

// The round trip of the worked example: extends the all-rules preset,
// disables "a", keeps "b".
#[test]
fn resolve_round_trip_disables_only_zero() {
    let config = lint_config_from_json_text(
        "{\"extends\": [\"eslint:all\"], \"rules\": {\"a\": 0, \"b\": 2}}",
    )
    .unwrap();
    assert_eq!(config.rules, vec![String::from("eslint:all")]);
    assert_eq!(config.disabled_rules, vec![String::from("a")]);
}

#[test]
fn config_json_all_preset() {
    let config = lint_config_from_json_text(
        "{\"extends\": [\"eslint:all\"], \"rules\": {\
         \"object-curly-newline\": 0, \"linebreak-style\": 0, \
         \"implicit-arrow-linebreak\": 0, \"no-tabs\": 0}}",
    )
    .unwrap();
    assert_eq!(config.rules.len(), 1);
    assert_eq!(config.disabled_rules.len(), 4);
}

#[test]
fn config_json_no_eslint_all() {
    let config = lint_config_from_json_text(
        "{\"extends\": [], \"rules\": {\
         \"object-curly-newline\": 0, \"linebreak-style\": 0, \
         \"implicit-arrow-linebreak\": 0, \"no-tabs\": 0}}",
    )
    .unwrap();
    assert_eq!(config.rules.len(), 0);
    assert_eq!(config.disabled_rules.len(), 4);
}

#[test]
fn config_rejects_invalid_json() {
    assert!(matches!(
        lint_config_from_json_text("{not json"),
        Err(ConfigError::ConfigParseError)
    ));
}

#[test]
fn config_rejects_missing_extends_or_rules() {
    assert!(matches!(
        lint_config_from_json_text("{\"rules\": {}}"),
        Err(ConfigError::ConfigParseError)
    ));
    assert!(matches!(
        lint_config_from_json_text("{\"extends\": []}"),
        Err(ConfigError::ConfigParseError)
    ));
    assert!(matches!(
        lint_config_from_json_text("[1, 2]"),
        Err(ConfigError::ConfigParseError)
    ));
    assert!(matches!(
        lint_config_from_json_text("{\"extends\": [1], \"rules\": {}}"),
        Err(ConfigError::ConfigParseError)
    ));
}

#[test]
fn config_rejects_malformed_rule_value() {
    assert!(matches!(
        lint_config_from_json_text("{\"extends\": [], \"rules\": {\"a\": true}}"),
        Err(ConfigError::MalformedConfig)
    ));
}

#[test]
fn create_config_invalid_extension() {
    assert!(matches!(
        lint_config_from_text("thisisnotagoodextension", "{}"),
        Err(ConfigError::InvalidConfigExtension)
    ));
}

#[test]
fn create_config_js() {
    assert!(matches!(
        lint_config_from_text("js", "module.exports = {};"),
        Err(ConfigError::UnsupportedConfigFormat)
    ));
}

#[test]
fn create_config_cjs() {
    assert!(matches!(
        lint_config_from_text("cjs", "module.exports = {};"),
        Err(ConfigError::UnsupportedConfigFormat)
    ));
}

#[test]
fn create_config_yml() {
    assert!(matches!(
        lint_config_from_text("yml", "extends: []"),
        Err(ConfigError::UnsupportedConfigFormat)
    ));
}

#[test]
fn create_config_yaml() {
    assert!(matches!(
        lint_config_from_text("yaml", "extends: []"),
        Err(ConfigError::UnsupportedConfigFormat)
    ));
}

#[test]
fn config_json_via_extension() {
    let config =
        lint_config_from_text("json", "{\"extends\": [\"eslint:all\"], \"rules\": {}}").unwrap();
    assert_eq!(config.rules, vec![String::from("eslint:all")]);
    assert_eq!(config.disabled_rules.len(), 0);
}
