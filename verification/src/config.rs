//! The rule configuration model: the six shapes a rule declaration can
//! take, the enable/disable decision, and the resolved per-session
//! configuration.

use vstd::prelude::*;

use crate::json::{
    json_repr, parse_json_text, spec_parse_json, value_as_array, value_as_str, value_as_u64,
    value_object_entries, JsonData,
};
use crate::rules::eqeqeq::EqeqeqConfig;
use crate::rules::indent::IndentConfig;
use crate::rules::no_eval::NoEvalConfig;
use crate::rules::quotes::QuotesConfig;
use crate::rules::semi::SemiConfig;

verus! {

/// Why a configuration could not be used.  All of these are fatal to the
/// run: nothing is linted once one arises.
#[derive(Clone, Copy, Debug, PartialEq, Eq, Structural)]
pub enum ConfigError {
    /// A rule declaration matching none of the six known shapes.
    MalformedConfig,
    /// Structured data that does not parse, or a document without the
    /// expected `extends` list and `rules` map.
    ConfigParseError,
    /// A configuration file extension outside the known set.
    InvalidConfigExtension,
    /// A known configuration format this model cannot evaluate, such as a
    /// script-based one.
    UnsupportedConfigFormat,
}

/// A rule declaration as found in a configuration document.  Exactly six
/// shapes exist; each pairs a severity — an integer or a word — with
/// optional rule-specific settings, either a bare string or a key-value
/// map.  Severity is always present; settings only in the two-element
/// shapes.
pub enum RawRuleValue {
    /// `0` turns the rule off; `1` and `2` turn it on.
    NumberEnabled(u8),
    /// `"off"` turns the rule off; any other word turns it on.
    StringEnabled(String),
    /// A word severity with a bare string setting.
    StringEnabledString(String, String),
    /// An integer severity with a bare string setting.
    NumberEnabledString(u8, String),
    /// A word severity with a key-value settings map.
    StringEnabledObject(String, Vec<(String, serde_json::Value)>),
    /// An integer severity with a key-value settings map.
    NumberEnabledObject(u8, Vec<(String, serde_json::Value)>),
}

/// The shape of a rule declaration, with strings and settings taken to
/// their mathematical contents.
pub enum RawRuleData {
    Num(u8),
    Str(Seq<char>),
    StrStr(Seq<char>, Seq<char>),
    NumStr(u8, Seq<char>),
    StrObj(Seq<char>, Seq<(Seq<char>, JsonData)>),
    NumObj(u8, Seq<(Seq<char>, JsonData)>),
}

/// What a rule declaration holds.
pub open spec fn raw_rule_repr(v: RawRuleValue) -> RawRuleData {
    match v {
        RawRuleValue::NumberEnabled(n) => RawRuleData::Num(n),
        RawRuleValue::StringEnabled(s) => RawRuleData::Str(s@),
        RawRuleValue::StringEnabledString(s, t) => RawRuleData::StrStr(s@, t@),
        RawRuleValue::NumberEnabledString(n, t) => RawRuleData::NumStr(n, t@),
        RawRuleValue::StringEnabledObject(s, o) => RawRuleData::StrObj(
            s@,
            o@.map_values(|p: (String, serde_json::Value)| (p.0@, json_repr(p.1))),
        ),
        RawRuleValue::NumberEnabledObject(n, o) => RawRuleData::NumObj(
            n,
            o@.map_values(|p: (String, serde_json::Value)| (p.0@, json_repr(p.1))),
        ),
    }
}

/// A severity: an integer or a word, whatever settings stand beside it.
pub enum Severity {
    Num(u8),
    Word(Seq<char>),
}

/// The severity part of a rule declaration's shape.
pub open spec fn data_severity(d: RawRuleData) -> Severity {
    match d {
        RawRuleData::Num(n) => Severity::Num(n),
        RawRuleData::Str(s) => Severity::Word(s),
        RawRuleData::StrStr(s, _) => Severity::Word(s),
        RawRuleData::NumStr(n, _) => Severity::Num(n),
        RawRuleData::StrObj(s, _) => Severity::Word(s),
        RawRuleData::NumObj(n, _) => Severity::Num(n),
    }
}

/// The severity part of a rule declaration.
pub open spec fn severity_of(v: RawRuleValue) -> Severity {
    data_severity(raw_rule_repr(v))
}

/// Whether a severity turns its rule off: the integer `0` or the word
/// `"off"`, and nothing else.
pub open spec fn spec_severity_off(s: Severity) -> bool {
    s == Severity::Num(0u8) || s == Severity::Word("off"@)
}

/// Whether a rule declaration disables its rule.
pub open spec fn spec_is_disabled(v: RawRuleValue) -> bool {
    spec_severity_off(severity_of(v))
}

/// Whether an integer severity disables the rule named `key`: the key is
/// handed back exactly when the severity is `0`.
pub fn is_num_disabled(key: String, num: &u8) -> (r: Option<String>)
    ensures
        (match r {
            Some(k) => *num == 0 && k == key,
            None => *num != 0,
        }),
{
    if *num == 0 {
        Some(key)
    } else {
        None
    }
}

/// Whether a word severity disables the rule named `key`: the key is
/// handed back exactly when the word is `"off"`.
pub fn is_string_disabled(key: String, word: &str) -> (r: Option<String>)
    ensures
        (match r {
            Some(k) => word@ == "off"@ && k == key,
            None => word@ != "off"@,
        }),
{
    let w: String = word.to_owned();
    let off: String = "off".to_owned();
    if w == off {
        Some(key)
    } else {
        None
    }
}

/// The single source of truth for the enable/disable decision: a rule
/// declaration disables its rule exactly when its severity is the integer
/// `0` or the word `"off"`; attached settings play no part.
pub fn is_disabled(value: &RawRuleValue) -> (r: bool)
    ensures
        r == spec_is_disabled(*value),
{
    let off: String = "off".to_owned();
    match value {
        RawRuleValue::NumberEnabled(n) => *n == 0,
        RawRuleValue::NumberEnabledString(n, _) => *n == 0,
        RawRuleValue::NumberEnabledObject(n, _) => *n == 0,
        RawRuleValue::StringEnabled(s) => *s == off,
        RawRuleValue::StringEnabledString(s, _) => *s == off,
        RawRuleValue::StringEnabledObject(s, _) => *s == off,
    }
}

/// The enable/disable decision reads the severity alone: two declarations
/// with the same severity decide alike, whatever settings accompany either.
pub proof fn lemma_is_disabled_ignores_settings(a: RawRuleValue, b: RawRuleValue)
    requires
        severity_of(a) == severity_of(b),
    ensures
        spec_is_disabled(a) == spec_is_disabled(b),
{
}

/// Which declaration a JSON value encodes, when it encodes one.  The six
/// shapes are tried the way the document deserializer does: a number with
/// a `u8` value; a string; a two-element array pairing a number-or-string
/// severity with a string or an object.  Everything else encodes none.
pub open spec fn spec_parse_rule_value(d: JsonData) -> Option<RawRuleData> {
    match d {
        JsonData::Num(n) => match n {
            Some(u) => if u <= 255 {
                Some(RawRuleData::Num(u as u8))
            } else {
                None
            },
            None => None,
        },
        JsonData::Str(s) => Some(RawRuleData::Str(s)),
        JsonData::Arr(items) => if items.len() == 2 {
            spec_parse_rule_pair(items[0], items[1])
        } else {
            None
        },
        _ => None,
    }
}

/// Which declaration a two-element array encodes, from its severity
/// element and its settings element.
pub open spec fn spec_parse_rule_pair(sev: JsonData, settings: JsonData) -> Option<RawRuleData> {
    match (sev, settings) {
        (JsonData::Num(Some(u)), JsonData::Str(t)) => if u <= 255 {
            Some(RawRuleData::NumStr(u as u8, t))
        } else {
            None
        },
        (JsonData::Num(Some(u)), JsonData::Obj(o)) => if u <= 255 {
            Some(RawRuleData::NumObj(u as u8, o))
        } else {
            None
        },
        (JsonData::Str(s), JsonData::Str(t)) => Some(RawRuleData::StrStr(s, t)),
        (JsonData::Str(s), JsonData::Obj(o)) => Some(RawRuleData::StrObj(s, o)),
        _ => None,
    }
}

/// Decode one rule declaration from a parsed JSON value.  Exactly the six
/// shapes are accepted; anything else — a boolean, a bare object, an array
/// of another length or with other element kinds — is malformed.
pub fn parse_rule_value(v: &serde_json::Value) -> (r: Result<RawRuleValue, ConfigError>)
    ensures
        (match r {
            Ok(rv) => spec_parse_rule_value(json_repr(*v)) == Some(raw_rule_repr(rv)),
            Err(e) => e == ConfigError::MalformedConfig && spec_parse_rule_value(json_repr(*v))
                is None,
        }),
{
    if let Some(n) = value_as_u64(v) {
        if n <= 255 {
            return Ok(RawRuleValue::NumberEnabled(n as u8));
        }
        return Err(ConfigError::MalformedConfig);
    }
    if let Some(s) = value_as_str(v) {
        return Ok(RawRuleValue::StringEnabled(s.to_owned()));
    }
    if let Some(items) = value_as_array(v) {
        if items.len() != 2 {
            return Err(ConfigError::MalformedConfig);
        }
        let settings_str = value_as_str(&items[1]);
        if let Some(n) = value_as_u64(&items[0]) {
            if n > 255 {
                return Err(ConfigError::MalformedConfig);
            }
            if let Some(t) = settings_str {
                return Ok(RawRuleValue::NumberEnabledString(n as u8, t.to_owned()));
            }
            if let Some(o) = value_object_entries(&items[1]) {
                proof {
                    if let JsonData::Obj(entries) = json_repr(items@[1]) {
                        assert(o@.map_values(
                            |p: (String, serde_json::Value)| (p.0@, json_repr(p.1)),
                        ) =~= entries);
                    }
                }
                return Ok(RawRuleValue::NumberEnabledObject(n as u8, o));
            }
            return Err(ConfigError::MalformedConfig);
        }
        if let Some(s) = value_as_str(&items[0]) {
            let sev = s.to_owned();
            if let Some(t) = settings_str {
                return Ok(RawRuleValue::StringEnabledString(sev, t.to_owned()));
            }
            if let Some(o) = value_object_entries(&items[1]) {
                proof {
                    if let JsonData::Obj(entries) = json_repr(items@[1]) {
                        assert(o@.map_values(
                            |p: (String, serde_json::Value)| (p.0@, json_repr(p.1)),
                        ) =~= entries);
                    }
                }
                return Ok(RawRuleValue::StringEnabledObject(sev, o));
            }
            return Err(ConfigError::MalformedConfig);
        }
        return Err(ConfigError::MalformedConfig);
    }
    Err(ConfigError::MalformedConfig)
}

/// The typed settings block of one rule, as carried inside the resolved
/// configuration.
#[derive(Clone)]
pub struct RuleConfig<T: Clone>(T);

impl<T: Clone> RuleConfig<T> {
    /// The settings block inside.
    pub closed spec fn spec_inner(&self) -> T {
        self.0
    }

    /// Wrap one rule's typed settings.
    pub fn new(config: T) -> (r: Self)
        ensures
            r.spec_inner() == config,
    {
        RuleConfig(config)
    }

    /// Read this rule's typed settings.
    pub fn get_rule_config(&self) -> (r: &T)
        ensures
            *r == self.spec_inner(),
    {
        &self.0
    }
}

/// The resolved, typed configuration of one session: which rule-set presets
/// are extended (only the all-rules preset is meaningful), which rule names
/// are explicitly disabled, and one typed settings block per rule.  It is
/// created once, read-only thereafter.
#[derive(Clone)]
pub struct LintConfig {
    /// The rule-set presets this session extends.
    pub rules: Vec<String>,
    /// The rule names the document turned off.
    pub disabled_rules: Vec<String>,
    pub quotes: RuleConfig<QuotesConfig>,
    pub semi: RuleConfig<SemiConfig>,
    pub eqeqeq: RuleConfig<EqeqeqConfig>,
    pub noeval: RuleConfig<NoEvalConfig>,
    pub indent: RuleConfig<IndentConfig>,
}

/// The name of the all-rules preset.
pub open spec fn spec_all_rules_preset() -> Seq<char> {
    "eslint:all"@
}

impl LintConfig {
    /// Every rule's typed settings at its default.
    pub open spec fn has_default_settings(&self) -> bool {
        &&& self.quotes.spec_inner() == (QuotesConfig {
            prefer: crate::rules::quotes::QuotesType::Double,
        })
        &&& self.semi.spec_inner() == (SemiConfig { prefer: false })
        &&& self.eqeqeq.spec_inner() == (EqeqeqConfig { mode: crate::rules::eqeqeq::Mode::Always })
        &&& self.noeval.spec_inner() == (NoEvalConfig {})
        &&& self.indent.spec_inner() == (IndentConfig {
            num: 4,
            indent_type: crate::rules::indent::IndentType::Space,
        })
    }

    /// The configuration of a session without a document: nothing extended,
    /// nothing disabled, default settings throughout.
    pub open spec fn is_default(&self) -> bool {
        &&& self.rules@.len() == 0
        &&& self.disabled_rules@.len() == 0
        &&& self.has_default_settings()
    }
}

impl Default for LintConfig {
    /// The configuration used when no document exists.
    fn default() -> (r: Self)
        ensures
            r.is_default(),
    {
        LintConfig {
            rules: Vec::new(),
            disabled_rules: Vec::new(),
            quotes: RuleConfig::new(QuotesConfig::default()),
            semi: RuleConfig::new(SemiConfig::default()),
            eqeqeq: RuleConfig::new(EqeqeqConfig::default()),
            noeval: RuleConfig::new(NoEvalConfig::default()),
            indent: RuleConfig::new(IndentConfig::default()),
        }
    }
}

/// The views of a sequence of strings.
pub open spec fn views_of(v: Seq<String>) -> Seq<Seq<char>> {
    v.map_values(|s: String| s@)
}

/// Whether a name stands among a list of names.
pub fn contains_name(names: &Vec<String>, name: &String) -> (r: bool)
    ensures
        r == views_of(names@).contains(name@),
{
    let n = names.len();
    let mut i: usize = 0;
    while i < n
        invariant
            i <= n,
            n == names@.len(),
            forall|j: int| 0 <= j < i ==> names@[j]@ != name@,
        decreases n - i,
    {
        if names[i] == *name {
            proof {
                assert(views_of(names@)[i as int] == name@);
            }
            return true;
        }
        i = i + 1;
    }
    proof {
        assert forall|j: int| 0 <= j < views_of(names@).len() implies views_of(names@)[j]
            != name@ by {
            assert(names@[j]@ != name@);
        }
    }
    false
}

/// The shapes of a sequence of object entries.
pub open spec fn entries_repr(es: Seq<(String, serde_json::Value)>) -> Seq<(Seq<char>, JsonData)> {
    es.map_values(|p: (String, serde_json::Value)| (p.0@, json_repr(p.1)))
}

/// The value under the first entry with this key, if any.
pub open spec fn spec_find(entries: Seq<(Seq<char>, JsonData)>, key: Seq<char>) -> Option<JsonData>
    decreases entries.len(),
{
    if entries.len() == 0 {
        None
    } else if entries[0].0 == key {
        Some(entries[0].1)
    } else {
        spec_find(entries.drop_first(), key)
    }
}

/// The contents of an array all of whose elements are strings; nothing when
/// any element is not.
pub open spec fn spec_all_strings(items: Seq<JsonData>) -> Option<Seq<Seq<char>>>
    decreases items.len(),
{
    if items.len() == 0 {
        Some(Seq::<Seq<char>>::empty())
    } else {
        match (spec_all_strings(items.drop_last()), items.last()) {
            (Some(rest), JsonData::Str(s)) => Some(rest.push(s)),
            _ => None,
        }
    }
}

/// Whether every entry's value encodes a rule declaration.
pub open spec fn spec_rules_all_parse(entries: Seq<(Seq<char>, JsonData)>) -> bool {
    forall|i: int| 0 <= i < entries.len() ==> spec_parse_rule_value(entries[i].1) is Some
}

/// Whether an entry's value encodes a declaration that turns its rule off.
pub open spec fn spec_entry_disabled(d: JsonData) -> bool {
    match spec_parse_rule_value(d) {
        Some(rd) => spec_severity_off(data_severity(rd)),
        None => false,
    }
}

/// The names whose declarations turn their rules off, in entry order.
pub open spec fn spec_disabled_rules(entries: Seq<(Seq<char>, JsonData)>) -> Seq<Seq<char>>
    decreases entries.len(),
{
    if entries.len() == 0 {
        Seq::<Seq<char>>::empty()
    } else {
        spec_disabled_rules(entries.drop_last()) + (if spec_entry_disabled(entries.last().1) {
            seq![entries.last().0]
        } else {
            Seq::<Seq<char>>::empty()
        })
    }
}

/// What resolving a parsed document yields: the session's preset list and
/// its disabled rule names, or the error.  The document must be an object
/// whose `extends` entry is an array of strings and whose `rules` entry is
/// an object; a missing or ill-shaped one of either is a parse error, and a
/// rule declaration outside the six shapes is malformed.  A session extends
/// the all-rules preset exactly when the `extends` list names it; any other
/// preset list yields no active preset, the conservative reading.
pub open spec fn spec_resolve(d: JsonData) -> Result<
    (Seq<Seq<char>>, Seq<Seq<char>>),
    ConfigError,
> {
    match d {
        JsonData::Obj(entries) => match spec_find(entries, "extends"@) {
            Some(ext_val) => match ext_val {
                JsonData::Arr(items) => match spec_all_strings(items) {
                    Some(ext) => match spec_find(entries, "rules"@) {
                        Some(rules_val) => match rules_val {
                            JsonData::Obj(rules) => if spec_rules_all_parse(rules) {
                                Ok(
                                    (
                                        if ext.contains(spec_all_rules_preset()) {
                                            seq![spec_all_rules_preset()]
                                        } else {
                                            Seq::<Seq<char>>::empty()
                                        },
                                        spec_disabled_rules(rules),
                                    ),
                                )
                            } else {
                                Err(ConfigError::MalformedConfig)
                            },
                            _ => Err(ConfigError::ConfigParseError),
                        },
                        None => Err(ConfigError::ConfigParseError),
                    },
                    None => Err(ConfigError::ConfigParseError),
                },
                _ => Err(ConfigError::ConfigParseError),
            },
            None => Err(ConfigError::ConfigParseError),
        },
        _ => Err(ConfigError::ConfigParseError),
    }
}

/// Whether `r` is the outcome resolving `d` owes: on success, the presets
/// and disabled names of `spec_resolve`, with every typed settings block at
/// its default; on failure, exactly the error `spec_resolve` gives.
pub open spec fn resolve_matches(d: JsonData, r: Result<LintConfig, ConfigError>) -> bool {
    match r {
        Ok(c) => {
            &&& spec_resolve(d) == Ok::<_, ConfigError>(
                (views_of(c.rules@), views_of(c.disabled_rules@)),
            )
            &&& c.has_default_settings()
        },
        Err(e) => spec_resolve(d) == Err::<(Seq<Seq<char>>, Seq<Seq<char>>), ConfigError>(e),
    }
}

/// A hit at `i`, with no hit before it, is what the entry search finds.
proof fn lemma_spec_find_hit(entries: Seq<(Seq<char>, JsonData)>, key: Seq<char>, i: int)
    requires
        0 <= i < entries.len(),
        forall|j: int| 0 <= j < i ==> entries[j].0 != key,
        entries[i].0 == key,
    ensures
        spec_find(entries, key) == Some(entries[i].1),
    decreases i,
{
    if i > 0 {
        lemma_spec_find_hit(entries.drop_first(), key, i - 1);
    }
}

/// With no hit anywhere the entry search finds nothing.
proof fn lemma_spec_find_miss(entries: Seq<(Seq<char>, JsonData)>, key: Seq<char>)
    requires
        forall|j: int| 0 <= j < entries.len() ==> entries[j].0 != key,
    ensures
        spec_find(entries, key) is None,
    decreases entries.len(),
{
    if entries.len() > 0 {
        lemma_spec_find_miss(entries.drop_first(), key);
    }
}

/// Once a prefix fails the all-strings reading, the whole array does.
proof fn lemma_all_strings_none(items: Seq<JsonData>, k: int)
    requires
        0 <= k <= items.len(),
        spec_all_strings(items.take(k)) is None,
    ensures
        spec_all_strings(items) is None,
    decreases items.len() - k,
{
    if k < items.len() {
        assert(items.take(k + 1).drop_last() =~= items.take(k));
        lemma_all_strings_none(items, k + 1);
    } else {
        assert(items.take(k) =~= items);
    }
}

/// What a pushed element does to membership.
proof fn lemma_push_contains<A>(s: Seq<A>, x: A, y: A)
    ensures
        s.push(x).contains(y) <==> (s.contains(y) || x == y),
{
    if s.contains(y) {
        let i = choose|i: int| 0 <= i < s.len() && s[i] == y;
        assert(s.push(x)[i] == y);
    }
    if x == y {
        assert(s.push(x)[s.len() as int] == y);
    }
    if s.push(x).contains(y) {
        let i = choose|i: int| 0 <= i < s.push(x).len() && s.push(x)[i] == y;
        if i < s.len() {
            assert(s[i] == y);
        }
    }
}

/// Find the first entry under this key.
fn find_entry<'a>(entries: &'a Vec<(String, serde_json::Value)>, key: &String) -> (r: Option<
    &'a serde_json::Value,
>)
    ensures
        (match r {
            Some(v) => spec_find(entries_repr(entries@), key@) == Some(json_repr(*v)),
            None => spec_find(entries_repr(entries@), key@) is None,
        }),
{
    let n = entries.len();
    let mut i: usize = 0;
    while i < n
        invariant
            i <= n,
            n == entries@.len(),
            forall|j: int| 0 <= j < i ==> entries@[j].0@ != key@,
        decreases n - i,
    {
        if entries[i].0 == *key {
            proof {
                lemma_spec_find_hit(entries_repr(entries@), key@, i as int);
            }
            return Some(&entries[i].1);
        }
        i = i + 1;
    }
    proof {
        lemma_spec_find_miss(entries_repr(entries@), key@);
    }
    None
}

/// Resolve a parsed configuration document into a session configuration.
/// The document's `rules` map decides the disabled names; its `extends`
/// list decides whether the all-rules preset is in force; typed settings
/// keep their defaults.
#[verifier::loop_isolation(false)]
pub fn resolve(doc: &serde_json::Value) -> (r: Result<LintConfig, ConfigError>)
    ensures
        resolve_matches(json_repr(*doc), r),
{
    let entries = match value_object_entries(doc) {
        Some(es) => es,
        None => {
            return Err(ConfigError::ConfigParseError);
        },
    };
    let ghost doc_m = (match json_repr(*doc) {
        JsonData::Obj(es) => es,
        _ => arbitrary(),
    });
    proof {
        assert forall|k: int| 0 <= k < doc_m.len() implies entries_repr(entries@)[k] == doc_m[k] by {
            assert(entries@[k].0@ == doc_m[k].0 && json_repr(entries@[k].1) == doc_m[k].1);
        }
        assert(entries_repr(entries@) =~= doc_m);
    }
    let extends_key: String = "extends".to_owned();
    let ext_value = match find_entry(&entries, &extends_key) {
        Some(v) => v,
        None => {
            return Err(ConfigError::ConfigParseError);
        },
    };
    let ext_items = match value_as_array(ext_value) {
        Some(a) => a,
        None => {
            return Err(ConfigError::ConfigParseError);
        },
    };
    let ghost items_m = (match json_repr(*ext_value) {
        JsonData::Arr(items) => items,
        _ => arbitrary(),
    });
    let all_rules: String = "eslint:all".to_owned();
    let mut has_all = false;
    let ext_n = ext_items.len();
    let mut i: usize = 0;
    while i < ext_n
        invariant
            i <= ext_n,
            ext_n == ext_items@.len(),
            ext_n == items_m.len(),
            forall|k: int| 0 <= k < items_m.len() ==> json_repr(ext_items@[k]) == items_m[k],
            all_rules@ == spec_all_rules_preset(),
            spec_all_strings(items_m.take(i as int)) is Some,
            has_all == spec_all_strings(items_m.take(i as int)).unwrap().contains(
                spec_all_rules_preset(),
            ),
        decreases ext_n - i,
    {
        proof {
            assert(items_m.take(i + 1).drop_last() =~= items_m.take(i as int));
        }
        match value_as_str(&ext_items[i]) {
            Some(s) => {
                let name = s.to_owned();
                proof {
                    lemma_push_contains(
                        spec_all_strings(items_m.take(i as int)).unwrap(),
                        name@,
                        spec_all_rules_preset(),
                    );
                }
                if name == all_rules {
                    has_all = true;
                }
            },
            None => {
                proof {
                    assert(spec_all_strings(items_m.take(i + 1)) is None);
                    lemma_all_strings_none(items_m, i + 1);
                }
                return Err(ConfigError::ConfigParseError);
            },
        }
        i = i + 1;
    }
    proof {
        assert(items_m.take(ext_n as int) =~= items_m);
    }
    let rules_key: String = "rules".to_owned();
    let rules_value = match find_entry(&entries, &rules_key) {
        Some(v) => v,
        None => {
            return Err(ConfigError::ConfigParseError);
        },
    };
    let rule_entries = match value_object_entries(rules_value) {
        Some(es) => es,
        None => {
            return Err(ConfigError::ConfigParseError);
        },
    };
    let ghost rules_m = (match json_repr(*rules_value) {
        JsonData::Obj(es) => es,
        _ => arbitrary(),
    });
    let mut disabled: Vec<String> = Vec::new();
    let rules_n = rule_entries.len();
    let mut i: usize = 0;
    while i < rules_n
        invariant
            i <= rules_n,
            rules_n == rule_entries@.len(),
            rules_n == rules_m.len(),
            forall|k: int|
                0 <= k < rules_m.len() ==> rule_entries@[k].0@ == rules_m[k].0 && json_repr(
                    rule_entries@[k].1,
                ) == rules_m[k].1,
            forall|k: int| 0 <= k < i ==> spec_parse_rule_value(rules_m[k].1) is Some,
            views_of(disabled@) == spec_disabled_rules(rules_m.take(i as int)),
        decreases rules_n - i,
    {
        proof {
            assert(rules_m.take(i + 1).drop_last() =~= rules_m.take(i as int));
        }
        let rv = match parse_rule_value(&rule_entries[i].1) {
            Ok(rv) => rv,
            Err(e) => {
                proof {
                    assert(spec_parse_rule_value(rules_m[i as int].1) is None);
                    assert(!spec_rules_all_parse(rules_m));
                }
                return Err(e);
            },
        };
        if is_disabled(&rv) {
            let name = rule_entries[i].0.clone();
            disabled.push(name);
            proof {
                assert(views_of(disabled@) =~= spec_disabled_rules(rules_m.take(i + 1)));
            }
        } else {
            proof {
                assert(views_of(disabled@) =~= spec_disabled_rules(rules_m.take(i + 1)));
            }
        }
        i = i + 1;
    }
    proof {
        assert(rules_m.take(rules_n as int) =~= rules_m);
    }
    let mut rules_list: Vec<String> = Vec::new();
    if has_all {
        rules_list.push(all_rules);
        proof {
            assert(views_of(rules_list@) =~= seq![spec_all_rules_preset()]);
        }
    } else {
        proof {
            assert(views_of(rules_list@) =~= Seq::<Seq<char>>::empty());
        }
    }
    Ok(
        LintConfig {
            rules: rules_list,
            disabled_rules: disabled,
            quotes: RuleConfig::new(QuotesConfig::default()),
            semi: RuleConfig::new(SemiConfig::default()),
            eqeqeq: RuleConfig::new(EqeqeqConfig::default()),
            noeval: RuleConfig::new(NoEvalConfig::default()),
            indent: RuleConfig::new(IndentConfig::default()),
        },
    )
}

/// Resolve a configuration from the text of a JSON document.  Text that is
/// not valid JSON is a parse error; a parsed document resolves as
/// [`resolve`] says.
pub fn lint_config_from_json_text(text: &str) -> (r: Result<LintConfig, ConfigError>)
    ensures
        (match spec_parse_json(text@) {
            Some(d) => resolve_matches(d, r),
            None => r == Err::<LintConfig, ConfigError>(ConfigError::ConfigParseError),
        }),
{
    match parse_json_text(text) {
        Some(v) => resolve(&v),
        None => Err(ConfigError::ConfigParseError),
    }
}

/// Whether `r` is what loading a document with this extension and text
/// owes: only `json` documents are evaluated; the script and YAML
/// extensions are recognised but unsupported; anything else is an invalid
/// extension.
pub open spec fn spec_config_from_text(
    ext: Seq<char>,
    text: Seq<char>,
    r: Result<LintConfig, ConfigError>,
) -> bool {
    if ext == "json"@ {
        match spec_parse_json(text) {
            Some(d) => resolve_matches(d, r),
            None => r == Err::<LintConfig, ConfigError>(ConfigError::ConfigParseError),
        }
    } else if ext == "js"@ || ext == "cjs"@ || ext == "yml"@ || ext == "yaml"@ {
        r == Err::<LintConfig, ConfigError>(ConfigError::UnsupportedConfigFormat)
    } else {
        r == Err::<LintConfig, ConfigError>(ConfigError::InvalidConfigExtension)
    }
}

/// Resolve a configuration from a document's file extension and text.
/// Script-based formats and YAML are recognised extensions this model does
/// not evaluate; an extension outside the known set aborts the run.
pub fn lint_config_from_text(ext: &str, text: &str) -> (r: Result<LintConfig, ConfigError>)
    ensures
        spec_config_from_text(ext@, text@, r),
{
    let e: String = ext.to_owned();
    if e == "json".to_owned() {
        lint_config_from_json_text(text)
    } else if e == "js".to_owned() || e == "cjs".to_owned() || e == "yml".to_owned() || e
        == "yaml".to_owned() {
        Err(ConfigError::UnsupportedConfigFormat)
    } else {
        Err(ConfigError::InvalidConfigExtension)
    }
}

} // verus!
