//! Core of a style checker for JavaScript sources: a rule engine that runs a
//! set of independent checks over a parsed program and reports positioned
//! diagnostics together with an aggregate error count.

pub mod ast;
pub mod cli;
pub mod config;
pub mod files;
pub mod diagnostics;
pub mod json;
pub mod linter;
pub mod rule;
pub mod rules;
