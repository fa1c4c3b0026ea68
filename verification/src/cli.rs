//! The command-line surface, as plain data.
//!
//! Argument parsing itself is the caller's work; these types only carry
//! what was asked for.  Most switches are recognised but not yet
//! interpreted.

use vstd::prelude::*;

verus! {

/// The kinds of fixes a run may be asked to apply.
#[derive(Clone, Copy, PartialEq, Eq, Structural)]
pub enum FixType {
    Directive,
    Problem,
    Suggestion,
    Layout,
}

/// How changed files are recognised by a cache.
#[derive(Clone, Copy, PartialEq, Eq, Structural)]
pub enum CacheStrategy {
    Metadata,
    Content,
}

/// Everything the command line can ask of a run.  Only `config` and
/// `files` steer this core; the rest is carried along unread.
pub struct Cli {
    pub no_eslintrc: bool,
    pub config: Option<String>,
    pub env: Option<String>,
    pub ext: Option<String>,
    pub global: Option<String>,
    pub parser: Option<String>,
    pub parser_options: Option<String>,
    pub resolve_plugins_relative_to: Option<String>,
    pub plugin: Option<String>,
    pub rule: Option<String>,
    pub fix: bool,
    pub fix_dry_run: bool,
    pub fix_type: Option<FixType>,
    pub ignore_path: Option<String>,
    pub no_ignore: bool,
    pub ignore_pattern: Option<String>,
    pub stdin: bool,
    pub stdin_filename: Option<String>,
    pub quiet: bool,
    pub max_warnings: Option<u32>,
    pub output_file: Option<String>,
    pub format: Option<String>,
    pub color: bool,
    pub no_color: bool,
    pub no_inline_config: bool,
    pub report_unused_disable_directives: bool,
    pub cache: bool,
    pub cache_location: Option<String>,
    pub cache_strategy: Option<CacheStrategy>,
    pub init: bool,
    pub env_info: bool,
    pub no_error_on_unmatched_pattern: bool,
    pub exit_on_fatal_error: bool,
    pub debug: bool,
    pub version: bool,
    pub print_config: Option<String>,
    pub files: Vec<String>,
}

} // verus!
