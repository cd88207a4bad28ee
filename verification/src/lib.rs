//! Scaffolding for reproducible development-container environments.
//!
//! A single declarative configuration document (versioned YAML schema) is
//! parsed, defaulted and validated into a [`config::Config`]; artifact text is
//! produced from it by flat `{{KEY}}` placeholder substitution; and a
//! reconciliation pass compares generated artifacts against what is on disk,
//! classifying each file as created, modified, unchanged or orphaned.

use vstd::prelude::*;

pub mod error;
pub mod text;
pub mod yaml;
pub mod json;
pub mod config;
pub mod template;
pub mod generator;
pub mod marketplace;
pub mod diff;
pub mod sync;
pub mod validate;
pub mod doctor;
pub mod cli;
pub mod pull;

verus! {

/// Library version string.
pub fn library_version() -> (r: &'static str)
    ensures
        r@ == "0.1.0"@,
{
    "0.1.0"
}

} // verus!
