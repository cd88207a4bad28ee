//! Tests for the revision-0.1 types: defaults, resolution and validation.

use isolde::config::v0_1::{
    default_plugin_activate, AssistantConfig, Config, DockerConfig, GitConfig,
    GitGeneratedHandling, RawAssistant, RawConfig, RawPlugin, WorkspaceConfig,
};
use isolde::error::Error;
use isolde::generator::{git_init_plan, GitCommand, GitRunner};

fn base_config() -> Config {
    Config {
        version: "0.1".to_string(),
        name: "test".to_string(),
        workspace: WorkspaceConfig { dir: ".".to_string() },
        docker: DockerConfig { image: "ubuntu:latest".to_string(), build_args: vec![] },
        assistant: AssistantConfig {
            version: "latest".to_string(),
            provider: "anthropic".to_string(),
            models: vec![],
        },
        runtime: None,
        proxy: None,
        marketplaces: vec![],
        plugins: vec![],
        git: GitConfig { generated: GitGeneratedHandling::Ignored },
    }
}

#[test]
fn test_config_validate_success() {
    assert!(base_config().validate().is_ok());
}

#[test]
fn test_config_validate_wrong_schema_version() {
    let mut config = base_config();
    config.version = "99.9".to_string();
    assert!(config.validate().is_err());
}

#[test]
fn test_config_validate_empty_name() {
    let mut config = base_config();
    config.name = String::new();
    assert!(config.validate().is_err());
}

#[test]
fn test_config_validate_invalid_provider() {
    let mut config = base_config();
    config.assistant.provider = "invalid_provider".to_string();
    assert!(config.validate().is_err());
}

#[test]
fn test_plugin_activate_default() {
    assert_eq!(default_plugin_activate(), true);
    let raw = RawConfig {
        version: "0.1".to_string(),
        name: "test".to_string(),
        workspace_dir: None,
        docker_image: "ubuntu:latest".to_string(),
        docker_build_args: vec![],
        assistant: None,
        runtime: None,
        proxy: None,
        marketplaces: vec![],
        plugins: vec![RawPlugin {
            marketplace: "omc".to_string(),
            name: "test-plugin".to_string(),
            activate: None,
        }],
        git_generated: None,
    };
    let resolved = raw.resolve();
    assert_eq!(resolved.plugins[0].activate, true);
}

#[test]
fn test_git_config_default() {
    let git = GitConfig::default();
    assert_eq!(git.generated, GitGeneratedHandling::Ignored);
}

#[test]
fn test_to_raw_resolve_round_trip() {
    let mut config = base_config();
    config.assistant.models = vec![("haiku".to_string(), "haiku-latest".to_string())];
    let resolved = config.to_raw().resolve();
    assert_eq!(resolved.name, config.name);
    assert_eq!(resolved.version, config.version);
    assert_eq!(resolved.workspace.dir, config.workspace.dir);
    assert_eq!(resolved.docker.image, config.docker.image);
    assert_eq!(resolved.assistant.provider, config.assistant.provider);
    assert_eq!(resolved.assistant.models, config.assistant.models);
    assert!(resolved.validate().is_ok());
}

#[test]
fn test_raw_defaults_applied() {
    let raw = RawConfig {
        version: "0.1".to_string(),
        name: "demo".to_string(),
        workspace_dir: None,
        docker_image: "ubuntu:latest".to_string(),
        docker_build_args: vec![],
        assistant: Some(RawAssistant { version: None, provider: None, models: vec![] }),
        runtime: None,
        proxy: None,
        marketplaces: vec![],
        plugins: vec![],
        git_generated: None,
    };
    let resolved = raw.resolve();
    assert_eq!(resolved.workspace.dir, "./project");
    assert_eq!(resolved.assistant.version, "latest");
    assert_eq!(resolved.assistant.provider, "anthropic");
    assert_eq!(resolved.git.generated, GitGeneratedHandling::Ignored);
}

struct MockGitRunner {
    should_fail: bool,
}

impl GitRunner for MockGitRunner {
    fn run_git(&self, _dir: &str, _args: &Vec<String>) -> Result<(), Error> {
        if self.should_fail {
            Err(Error::Other("Mock git failure".to_string()))
        } else {
            Ok(())
        }
    }
}

fn run_plan(runner: &dyn GitRunner, plan: &[GitCommand]) -> Result<(), Error> {
    for cmd in plan {
        runner.run_git(&cmd.dir, &cmd.args)?;
    }
    Ok(())
}

#[test]
fn test_initialize_git_with_mock_runner() {
    let plan = git_init_plan("./project", false, true, true, false);
    let runner = MockGitRunner { should_fail: false };
    assert!(run_plan(&runner, &plan).is_ok());
}

#[test]
fn test_run_git_command_fails_propagates_error() {
    let plan = git_init_plan("./project", false, true, true, false);
    let runner = MockGitRunner { should_fail: true };
    assert!(run_plan(&runner, &plan).is_err());
}
