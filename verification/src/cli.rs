//! Command model of the tool's surface: the parsed invocation as plain
//! data.
//!
//! Argument parsing itself is presentation-layer plumbing around the
//! library; these types carry what a parsed invocation means.

use vstd::prelude::*;
use vstd::string::*;

verus! {

/// A parsed invocation: global flags and the chosen command.
#[derive(Debug, Clone)]
pub struct Cli {
    /// Verbose output.
    pub verbose: bool,
    /// Disable colored output.
    pub no_color: bool,
    /// The chosen command, when one was given.
    pub command: Option<Commands>,
}

/// The commands the tool offers.
#[derive(Debug, Clone)]
pub enum Commands {
    /// Initialize a new project from a template or preset.
    Init {
        /// Project name.
        name: Option<String>,
        /// Template to use.
        template: Option<String>,
        /// Preset to use.
        preset: Option<String>,
        /// Language version.
        lang_version: Option<String>,
        /// Assistant CLI version to install.
        assistant_version: String,
        /// Assistant provider.
        assistant_provider: Option<String>,
        /// HTTP proxy URL.
        http_proxy: Option<String>,
        /// HTTPS proxy URL.
        https_proxy: Option<String>,
        /// Target directory.
        target_dir: Option<String>,
        /// List available templates and exit.
        list_templates: bool,
        /// List available presets and exit.
        list_presets: bool,
    },
    /// Synchronize the project with the latest template changes.
    Sync {
        /// Preview changes without applying them.
        dry_run: bool,
        /// Apply changes even over conflicts.
        force: bool,
        /// Template version to synchronize to.
        version: Option<String>,
    },
    /// Pull a template or preset from a remote repository.
    Pull {
        /// Name of the template or preset.
        name: String,
        /// Repository in owner/repo form.
        repo: String,
        /// Branch, tag or commit to pull.
        reference: Option<String>,
        /// Destination directory.
        output: Option<String>,
        /// Verify the checksum after downloading.
        verify: bool,
    },
    /// Validate the project configuration.
    Validate {
        /// Skip the expensive checks.
        quick: bool,
        /// Verbose output.
        verbose: bool,
        /// Treat warnings as failures.
        warnings_as_errors: bool,
        /// Output format name.
        format: String,
        /// Additional paths to check.
        path: Vec<String>,
    },
    /// Show differences between the project and the template.
    Diff {
        /// Restrict the comparison to one file.
        file: Option<String>,
        /// Output format name.
        format: String,
        /// Number of context lines.
        context: usize,
    },
    /// Diagnose the installation.
    Doctor {
        /// Attempt to fix findings automatically.
        fix: bool,
        /// Verbose output.
        verbose: bool,
        /// Restrict the run to one component.
        component: Option<String>,
        /// Path to write the report to.
        report: Option<String>,
    },
    /// Show version information.
    Version {
        /// Verbose output.
        verbose: bool,
        /// Output format name.
        format: String,
    },
}

impl Commands {
    /// The command's name.
    pub open spec fn spec_name(&self) -> Seq<char> {
        match self {
            Commands::Init { .. } => "init"@,
            Commands::Sync { .. } => "sync"@,
            Commands::Pull { .. } => "pull"@,
            Commands::Validate { .. } => "validate"@,
            Commands::Diff { .. } => "diff"@,
            Commands::Doctor { .. } => "doctor"@,
            Commands::Version { .. } => "version"@,
        }
    }

    /// The command's name.
    pub fn name(&self) -> (r: &'static str)
        ensures
            r@ == self.spec_name(),
            r@.len() > 0,
    {
        proof {
            reveal_strlit("init");
            assert("init"@.len() == 4);
            reveal_strlit("sync");
            assert("sync"@.len() == 4);
            reveal_strlit("pull");
            assert("pull"@.len() == 4);
            reveal_strlit("validate");
            assert("validate"@.len() == 8);
            reveal_strlit("diff");
            assert("diff"@.len() == 4);
            reveal_strlit("doctor");
            assert("doctor"@.len() == 6);
            reveal_strlit("version");
            assert("version"@.len() == 7);
        }
        match self {
            Commands::Init { .. } => "init",
            Commands::Sync { .. } => "sync",
            Commands::Pull { .. } => "pull",
            Commands::Validate { .. } => "validate",
            Commands::Diff { .. } => "diff",
            Commands::Doctor { .. } => "doctor",
            Commands::Version { .. } => "version",
        }
    }

    /// The command's display form.
    pub fn display(&self) -> (r: String)
        ensures
            r@ == self.spec_name(),
            r@.len() > 0,
    {
        self.name().to_owned()
    }
}

} // verus!
