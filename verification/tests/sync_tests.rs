//! Tests for the synchronization renders and the version-control policy.

use isolde::config::v0_1::GitGeneratedHandling;
use isolde::config::Config;
use isolde::sync::{
    generate_assistant_md, generate_devcontainer, generate_dockerfile, git_policy_file_updates,
    SyncOptions,
};

#[test]
fn test_generate_dockerfile() {
    let config_yaml = r#"
name: test
version: "0.1"
workspace:
  dir: .
docker:
  image: ubuntu:latest
assistant:
  provider: anthropic
"#;
    let config = Config::from_str(config_yaml).unwrap();
    let dockerfile = generate_dockerfile(&config).unwrap();
    assert!(dockerfile.contains("ARG BASE_IMAGE=ubuntu:latest"));
    assert!(dockerfile.contains("FROM ${BASE_IMAGE}"));
    assert!(dockerfile.contains("ARG USERNAME=user"));
}

#[test]
fn test_generate_claude_md() {
    let config_yaml = r#"
name: test-project
version: "0.1"
workspace:
  dir: .
docker:
  image: ubuntu:latest
assistant:
  provider: anthropic
runtime:
  language: python
  version: "3.12"
  package_manager: uv
"#;
    let config = Config::from_str(config_yaml).unwrap();
    let assistant_md = generate_assistant_md(&config).unwrap();
    assert!(assistant_md.contains("test-project"));
    assert!(assistant_md.contains("python 3.12"));
}

#[test]
fn test_generate_devcontainer() {
    let config_yaml = r#"
name: test
version: "0.1"
workspace:
  dir: .
docker:
  image: ubuntu:latest
assistant:
  provider: anthropic
"#;
    let config = Config::from_str(config_yaml).unwrap();
    let devcontainer = generate_devcontainer(&config).unwrap();
    assert!(devcontainer.contains("features"));
    assert!(devcontainer.contains("assistant"));
}

#[test]
fn test_sync_options_default() {
    let opts = SyncOptions::default();
    assert!(!opts.dry_run);
    assert!(!opts.force);
}

#[test]
fn test_generate_devcontainer_with_proxy_and_plugins() {
    let config = Config::from_str(
        r#"
name: full
version: "0.1"
docker:
  image: ubuntu:latest
proxy:
  http: http://proxy:8080
marketplaces:
  omc:
    url: https://example.com/m
plugins:
  - marketplace: omc
    name: helper
    activate: true
"#,
    )
    .unwrap();
    let devcontainer = generate_devcontainer(&config).unwrap();
    assert!(devcontainer.contains("./features/proxy"));
    assert!(devcontainer.contains("\"http_proxy\": \"http://proxy:8080\""));
    assert!(devcontainer.contains("\"activate_plugins\": [\"helper\"]"));
    assert!(devcontainer.contains("\"workspaceFolder\": \"/workspaces/full\""));
}

#[test]
fn test_git_policy_ignored_appends_missing_entries() {
    let (gitignore, gitattributes) =
        git_policy_file_updates(GitGeneratedHandling::Ignored, "target/\n", "");
    assert_eq!(gitignore, Some("target/\n.devcontainer/\n.assistant/\n".to_string()));
    assert!(gitattributes.is_none());
}

#[test]
fn test_git_policy_ignored_keeps_present_entries() {
    let content = "target/\n.devcontainer/\n.assistant/\n";
    let (gitignore, _) = git_policy_file_updates(GitGeneratedHandling::Ignored, content, "");
    assert_eq!(gitignore, Some(content.to_string()));
}

#[test]
fn test_git_policy_committed_touches_nothing() {
    let (gitignore, gitattributes) =
        git_policy_file_updates(GitGeneratedHandling::Committed, "x\n", "y\n");
    assert!(gitignore.is_none());
    assert!(gitattributes.is_none());
}

#[test]
fn test_git_policy_linguist_generated() {
    let (gitignore, gitattributes) =
        git_policy_file_updates(GitGeneratedHandling::LinguistGenerated, "", "");
    assert!(gitignore.is_none());
    assert_eq!(
        gitattributes,
        Some(
            ".devcontainer/ linguist-generated\n.assistant/ linguist-generated\n".to_string()
        )
    );
}
