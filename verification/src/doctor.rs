//! Diagnostic reporting: the record types of an installation health run.
//!
//! The probes themselves (container runtime, version-control binary,
//! assistant CLI) are external collaborators; here live the record types and
//! the derived health verdict.

use vstd::prelude::*;
use vstd::string::*;

verus! {

/// Options of a diagnostic run.
#[derive(Debug, Clone)]
pub struct DoctorOptions {
    /// Attempt to fix fixable findings.
    pub fix: bool,
    /// Verbose output.
    pub verbose: bool,
    /// Restrict the run to one component.
    pub component: Option<String>,
    /// Path to write the report to.
    pub report: Option<String>,
    /// Directory the run works against.
    pub cwd: String,
}

impl Default for DoctorOptions {
    /// Diagnose every component without fixing, in the current directory.
    fn default() -> (r: Self)
        ensures
            r.fix == false,
            r.verbose == false,
            r.component is None,
            r.report is None,
            r.cwd@ == "."@,
    {
        DoctorOptions {
            fix: false,
            verbose: false,
            component: None,
            report: None,
            cwd: ".".to_owned(),
        }
    }
}

/// Outcome of one diagnostic probe.
#[derive(Debug, Clone, Copy, PartialEq, Eq, Structural)]
pub enum DiagnosticStatus {
    /// The component works.
    Healthy,
    /// The component works with reservations.
    Warning,
    /// The component is broken.
    Error,
    /// The component was not found.
    Missing,
}

/// One diagnostic finding.
#[derive(Debug, Clone)]
pub struct DiagnosticResult {
    /// Component name.
    pub component: String,
    /// Outcome.
    pub status: DiagnosticStatus,
    /// Human-readable message.
    pub message: String,
    /// Suggested remedies.
    pub suggestions: Vec<String>,
    /// Whether the finding can be fixed automatically.
    pub fixable: bool,
}

/// The whole report of a diagnostic run.
#[derive(Debug, Clone)]
pub struct DoctorReport {
    /// Version of this tool.
    pub isolde_version: String,
    /// Version of the compiler this tool was built with.
    pub rust_version: String,
    /// The individual findings.
    pub diagnostics: Vec<DiagnosticResult>,
    /// Number of findings with errors.
    pub error_count: usize,
    /// Number of findings with warnings.
    pub warning_count: usize,
    /// Number of healthy findings.
    pub healthy_count: usize,
}

impl DoctorReport {
    /// Whether every diagnostic passed: no errors and no warnings.
    pub fn is_healthy(&self) -> (r: bool)
        ensures
            r == (self.error_count == 0 && self.warning_count == 0),
    {
        self.error_count == 0 && self.warning_count == 0
    }
}

} // verus!
