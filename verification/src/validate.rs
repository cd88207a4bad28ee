//! Validation reporting: the check records a health run produces and the
//! pure checks over a loaded configuration.
//!
//! Probing external tools (the container runtime, the assistant CLI) is an
//! external collaborator's concern; here live the record types, the format
//! parsing, and the checks that need nothing but the configuration.

use vstd::prelude::*;
use vstd::string::*;

use crate::config::Config;
use crate::config::v0_1::spec_valid_provider;
use crate::marketplace::{ascii_eq_ignore_case, spec_ascii_lower};
use crate::text::contains_sub;

verus! {

/// Output format of a validation run.
#[derive(Debug, Clone, Copy, PartialEq, Eq, Structural)]
pub enum ValidateFormat {
    /// Human-readable text.
    Text,
    /// Machine-readable output.
    Json,
    /// Static-analysis interchange format.
    Sarif,
}

impl ValidateFormat {
    /// Parse an output format name without regard to ASCII case.
    pub fn from_str(s: &str) -> (r: Option<ValidateFormat>)
        ensures
            ({
                let l = s@.map_values(|c: char| spec_ascii_lower(c));
                &&& (r is Some) <==> (l == "text"@ || l == "json"@ || l == "sarif"@)
                &&& l == "text"@ ==> r == Some(ValidateFormat::Text)
                &&& l == "json"@ ==> r == Some(ValidateFormat::Json)
                &&& l == "sarif"@ ==> r == Some(ValidateFormat::Sarif)
            }),
    {
        proof {
            reveal_strlit("text");
            reveal_strlit("json");
            reveal_strlit("sarif");
            assert("text"@.len() == 4);
            assert("json"@.len() == 4);
            assert("sarif"@.len() == 5);
            assert("text"@[0] != "json"@[0]);
        }
        if ascii_eq_ignore_case(s, "text") {
            proof {
                lemma_plain_lower("text"@);
            }
            Some(ValidateFormat::Text)
        } else if ascii_eq_ignore_case(s, "json") {
            proof {
                lemma_plain_lower("json"@);
            }
            Some(ValidateFormat::Json)
        } else if ascii_eq_ignore_case(s, "sarif") {
            proof {
                lemma_plain_lower("sarif"@);
            }
            Some(ValidateFormat::Sarif)
        } else {
            proof {
                lemma_plain_lower("text"@);
                lemma_plain_lower("json"@);
                lemma_plain_lower("sarif"@);
            }
            None
        }
    }
}

/// Lowercasing an already-lowercase ASCII text changes nothing.
proof fn lemma_plain_lower(s: Seq<char>)
    requires
        forall|i: int| 0 <= i < s.len() ==> !('A' <= #[trigger] s[i] && s[i] <= 'Z'),
    ensures
        s.map_values(|c: char| spec_ascii_lower(c)) == s,
{
    assert(s.map_values(|c: char| spec_ascii_lower(c)) =~= s);
}

/// Options of a validation run.
#[derive(Debug, Clone)]
pub struct ValidateOptions {
    /// Skip the expensive checks.
    pub quick: bool,
    /// Verbose output.
    pub verbose: bool,
    /// Treat warnings as failures.
    pub warnings_as_errors: bool,
    /// Output format.
    pub format: ValidateFormat,
    /// Additional paths to check.
    pub paths: Vec<String>,
}

impl Default for ValidateOptions {
    /// Full text-format validation with warnings allowed.
    fn default() -> (r: Self)
        ensures
            r.quick == false,
            r.verbose == false,
            r.warnings_as_errors == false,
            r.format == ValidateFormat::Text,
            r.paths@.len() == 0,
    {
        ValidateOptions {
            quick: false,
            verbose: false,
            warnings_as_errors: false,
            format: ValidateFormat::Text,
            paths: Vec::new(),
        }
    }
}

/// Outcome of one validation check.
#[derive(Debug, Clone, Copy, PartialEq, Eq, Structural)]
pub enum CheckStatus {
    /// The check passed.
    Passed,
    /// The check failed.
    Failed,
    /// The check passed with reservations.
    Warning,
    /// The check did not run.
    Skipped,
}

/// One validation check: its name, description, outcome and details.
#[derive(Debug, Clone)]
pub struct CheckResult {
    /// Machine-readable check name.
    pub name: String,
    /// Human-readable description.
    pub description: String,
    /// Outcome.
    pub status: CheckStatus,
    /// Further detail lines.
    pub details: Vec<String>,
}

/// The whole report of a validation run.
#[derive(Debug, Clone)]
pub struct ValidationReport {
    /// Whether the configuration checks passed.
    pub config_valid: bool,
    /// Whether the container build succeeded, when checked.
    pub build_success: Option<bool>,
    /// Whether the assistant CLI is installed, when checked.
    pub assistant_installed: Option<bool>,
    /// The individual checks.
    pub checks: Vec<CheckResult>,
    /// Number of failed checks.
    pub error_count: usize,
    /// Number of checks with warnings.
    pub warning_count: usize,
}

impl ValidationReport {
    /// Whether the run passed: no errors, and no warnings either when they
    /// count as errors.
    pub fn passed(&self, warnings_as_errors: bool) -> (r: bool)
        ensures
            r == (self.error_count == 0 && (!warnings_as_errors || self.warning_count == 0)),
    {
        if self.error_count > 0 {
            return false;
        }
        if warnings_as_errors && self.warning_count > 0 {
            return false;
        }
        true
    }
}

/// The interchange-format severity of a check outcome: failures are errors,
/// warnings are warnings, everything else is a note.
pub fn status_to_sarif_level(status: CheckStatus) -> (r: &'static str)
    ensures
        status == CheckStatus::Failed ==> r@ == "error"@,
        status == CheckStatus::Warning ==> r@ == "warning"@,
        (status == CheckStatus::Passed || status == CheckStatus::Skipped) ==> r@ == "note"@,
{
    match status {
        CheckStatus::Failed => "error",
        CheckStatus::Warning => "warning",
        _ => "note",
    }
}

/// Check the configuration's provider against the whitelist, noting the
/// project fields when verbose and remarking on a base container image.
///
/// The check fails exactly when the provider is off the whitelist — which a
/// configuration constructed by parsing never is.
pub fn check_config_validity(config: &Config, verbose: bool) -> (r: CheckResult)
    ensures
        r.name@ == "config-valid"@,
        r.description@ == "Configuration validity"@,
        (r.status == CheckStatus::Passed) <==> spec_valid_provider(
            config.spec_v0_1().assistant.provider@,
        ),
        !spec_valid_provider(config.spec_v0_1().assistant.provider@) ==> r.status
            == CheckStatus::Failed,
{
    let mut status = CheckStatus::Passed;
    let mut details: Vec<String> = Vec::new();
    if verbose {
        let mut name_line = "Project name: ".to_owned();
        name_line.append(config.name.as_str());
        details.push(name_line);
        let mut image_line = "Docker image: ".to_owned();
        image_line.append(config.docker_image());
        details.push(image_line);
        let mut provider_line = "Assistant provider: ".to_owned();
        provider_line.append(config.assistant_provider());
        details.push(provider_line);
    }
    let inner = match &config.inner {
        crate::config::ConfigInner::V0_1(c) => c,
    };
    match inner.assistant.validate() {
        Ok(()) => {},
        Err(_) => {
            status = CheckStatus::Failed;
            let mut line = "Invalid provider: ".to_owned();
            line.append(config.assistant_provider());
            details.push(line);
        },
    }
    if contains_sub(config.docker_image(), "devcontainers/base") {
        details.push("Note: Using base devcontainer image".to_owned());
    }
    CheckResult {
        name: "config-valid".to_owned(),
        description: "Configuration validity".to_owned(),
        status,
        details,
    }
}

} // verus!
