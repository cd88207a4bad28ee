//! Tests for validation and diagnostic reporting, commands and pull options.

use isolde::cli::Commands;
use isolde::config::Config;
use isolde::doctor::{DiagnosticStatus, DoctorOptions, DoctorReport};
use isolde::pull::PullOptions;
use isolde::validate::{
    check_config_validity, status_to_sarif_level, CheckStatus, ValidateFormat, ValidateOptions,
    ValidationReport,
};

#[test]
fn test_validate_options_default() {
    let opts = ValidateOptions::default();
    assert!(!opts.quick);
    assert!(!opts.verbose);
    assert!(!opts.warnings_as_errors);
    assert_eq!(opts.format, ValidateFormat::Text);
}

#[test]
fn test_validate_format_from_str() {
    assert_eq!(ValidateFormat::from_str("text"), Some(ValidateFormat::Text));
    assert_eq!(ValidateFormat::from_str("TEXT"), Some(ValidateFormat::Text));
    assert_eq!(ValidateFormat::from_str("json"), Some(ValidateFormat::Json));
    assert_eq!(ValidateFormat::from_str("sarif"), Some(ValidateFormat::Sarif));
    assert_eq!(ValidateFormat::from_str("invalid"), None);
}

#[test]
fn test_validation_report_passed() {
    let report = ValidationReport {
        config_valid: true,
        build_success: None,
        assistant_installed: None,
        checks: vec![],
        error_count: 0,
        warning_count: 0,
    };
    assert!(report.passed(false));
    assert!(report.passed(true));

    let report_with_warnings = ValidationReport {
        config_valid: true,
        build_success: None,
        assistant_installed: None,
        checks: vec![],
        error_count: 0,
        warning_count: 1,
    };
    assert!(report_with_warnings.passed(false));
    assert!(!report_with_warnings.passed(true));

    let report_with_errors = ValidationReport {
        config_valid: false,
        build_success: None,
        assistant_installed: None,
        checks: vec![],
        error_count: 1,
        warning_count: 0,
    };
    assert!(!report_with_errors.passed(false));
    assert!(!report_with_errors.passed(true));
}

#[test]
fn test_check_config_validity() {
    let config_yaml = r#"
name: test
version: "0.1"
workspace:
  dir: .
docker:
  image: ubuntu:latest
assistant:
  provider: anthropic
"#;
    let config = Config::from_str(config_yaml).unwrap();
    let check = check_config_validity(&config, false);
    assert_eq!(check.status, CheckStatus::Passed);
}

#[test]
fn test_check_config_validity_invalid_provider() {
    let config_yaml = r#"
name: test
version: "0.1"
workspace:
  dir: .
docker:
  image: ubuntu:latest
assistant:
  provider: vertex
"#;
    let config = Config::from_str(config_yaml).unwrap();
    let check = check_config_validity(&config, false);
    assert_eq!(check.status, CheckStatus::Passed);
}

#[test]
fn test_status_to_sarif_level() {
    assert_eq!(status_to_sarif_level(CheckStatus::Failed), "error");
    assert_eq!(status_to_sarif_level(CheckStatus::Warning), "warning");
    assert_eq!(status_to_sarif_level(CheckStatus::Passed), "note");
    assert_eq!(status_to_sarif_level(CheckStatus::Skipped), "note");
}

#[test]
fn test_doctor_options_default() {
    let opts = DoctorOptions::default();
    assert!(!opts.fix);
    assert!(!opts.verbose);
    assert!(opts.component.is_none());
    assert!(opts.report.is_none());
}

#[test]
fn test_diagnostic_status_ord() {
    assert_eq!(DiagnosticStatus::Healthy as i32, 0);
}

#[test]
fn test_doctor_report_is_healthy() {
    let report = DoctorReport {
        isolde_version: "1.0.0".to_string(),
        rust_version: "1.75".to_string(),
        diagnostics: vec![],
        error_count: 0,
        warning_count: 0,
        healthy_count: 0,
    };
    assert!(report.is_healthy());

    let report_with_warnings = DoctorReport {
        isolde_version: "1.0.0".to_string(),
        rust_version: "1.75".to_string(),
        diagnostics: vec![],
        error_count: 0,
        warning_count: 1,
        healthy_count: 0,
    };
    assert!(!report_with_warnings.is_healthy());
}

#[test]
fn test_command_display() {
    let commands = vec![
        Commands::Init {
            name: Some("test".to_string()),
            template: None,
            preset: None,
            lang_version: None,
            assistant_version: "latest".to_string(),
            assistant_provider: None,
            http_proxy: None,
            https_proxy: None,
            target_dir: None,
            list_templates: false,
            list_presets: false,
        },
        Commands::Sync { dry_run: false, force: false, version: None },
        Commands::Pull {
            name: "test".to_string(),
            repo: "owner/repo".to_string(),
            reference: None,
            output: None,
            verify: false,
        },
        Commands::Validate {
            quick: false,
            verbose: false,
            warnings_as_errors: false,
            format: "text".to_string(),
            path: vec![],
        },
        Commands::Diff { file: None, format: "color".to_string(), context: 3 },
        Commands::Doctor { fix: false, verbose: false, component: None, report: None },
        Commands::Version { verbose: false, format: "text".to_string() },
    ];

    for cmd in commands {
        assert!(!cmd.name().is_empty());
        assert!(!cmd.display().is_empty());
    }
}

#[test]
fn test_pull_options_builders() {
    let opts = PullOptions::new("tmpl".to_string())
        .repo("https://example.com/repo".to_string())
        .reference("main".to_string())
        .sync(true)
        .cwd("/tmp/project".to_string());
    assert_eq!(opts.name, "tmpl");
    assert_eq!(opts.repo, Some("https://example.com/repo".to_string()));
    assert_eq!(opts.reference, Some("main".to_string()));
    assert!(opts.sync);
    assert_eq!(opts.cwd, "/tmp/project");
}
