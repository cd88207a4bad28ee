//! Tests for configuration parsing, defaults and validation.

use isolde::config::Config;
use isolde::config::v0_1::GitGeneratedHandling;
use isolde::config::version::SchemaVersion;

const VALID_ISOLDE_YAML_V0_1: &str = r#"
version: "0.1"
name: my-app
workspace:
  dir: ./project
docker:
  image: mcr.microsoft.com/devcontainers/base:ubuntu
  build_args: []
assistant:
  version: latest
  provider: anthropic
  models:
    haiku: assistant-3-5-haiku-20241022
    sonnet: assistant-3-5-sonnet-20241022
    opus: assistant-3-5-sonnet-20241022
runtime:
  language: python
  version: "3.12"
  package_manager: uv
  tools: []
proxy:
  http: http://proxy.corp.com:8080
  https: http://proxy.corp.com:8080
  no_proxy: localhost,127.0.0.1,.local
marketplaces:
  omc:
    url: https://github.com/community/marketplace
plugins:
  - marketplace: omc
    name: community
    activate: true
git:
  generated: ignored
"#;

#[test]
fn test_config_from_str_valid_v0_1() {
    let config = Config::from_str(VALID_ISOLDE_YAML_V0_1).unwrap();
    assert_eq!(config.name, "my-app");
    assert_eq!(config.version, SchemaVersion::V0_1);
    assert_eq!(config.workspace_dir(), "./project");
    assert_eq!(
        config.docker_image(),
        "mcr.microsoft.com/devcontainers/base:ubuntu"
    );
    assert_eq!(config.assistant_provider(), "anthropic");
}

#[test]
fn test_config_from_str_minimal_v0_1() {
    let yaml = r#"
version: "0.1"
name: minimal-app
docker:
  image: ubuntu:latest
"#;
    let config = Config::from_str(yaml).unwrap();
    assert_eq!(config.name, "minimal-app");
    assert_eq!(config.version, SchemaVersion::V0_1);
    assert_eq!(config.assistant_version(), "latest");
    assert_eq!(config.workspace_dir(), "./project");
    assert!(config.runtime().is_none());
    assert!(config.proxy().is_none());
}

#[test]
fn test_config_from_str_missing_version() {
    let yaml = r#"
name: my-app
workspace:
  dir: ./project
docker:
  image: ubuntu:latest
assistant:
  provider: anthropic
"#;
    let result = Config::from_str(yaml);
    assert!(result.is_err());
    assert!(result
        .unwrap_err()
        .message()
        .contains("Missing required field 'version'"));
}

#[test]
fn test_config_from_str_unknown_version() {
    let yaml = r#"
version: "99.9"
name: my-app
workspace:
  dir: ./project
docker:
  image: ubuntu:latest
assistant:
  provider: anthropic
"#;
    let result = Config::from_str(yaml);
    assert!(result.is_err());
    assert!(result
        .unwrap_err()
        .message()
        .contains("Unsupported schema version"));
}

#[test]
fn test_config_from_str_missing_name() {
    let yaml = r#"
version: "0.1"
workspace:
  dir: ./project
docker:
  image: ubuntu:latest
assistant:
  provider: anthropic
"#;
    let result = Config::from_str(yaml);
    assert!(result.is_err());
}

#[test]
fn test_config_from_str_missing_docker() {
    let yaml = r#"
version: "0.1"
name: test
workspace:
  dir: ./project
assistant:
  provider: anthropic
"#;
    let result = Config::from_str(yaml);
    assert!(result.is_err());
}

#[test]
fn test_config_accessor_methods() {
    let config = Config::from_str(VALID_ISOLDE_YAML_V0_1).unwrap();

    assert_eq!(config.workspace_dir(), "./project");
    assert_eq!(
        config.docker_image(),
        "mcr.microsoft.com/devcontainers/base:ubuntu"
    );
    assert_eq!(config.docker_build_args(), &Vec::<String>::new());
    assert_eq!(config.assistant_version(), "latest");
    assert_eq!(config.assistant_provider(), "anthropic");
    assert_eq!(config.assistant_models().len(), 3);

    let runtime = config.runtime().unwrap();
    assert_eq!(runtime.language(), "python");
    assert_eq!(runtime.version(), "3.12");
    assert_eq!(runtime.package_manager(), "uv");

    let proxy = config.proxy().unwrap();
    assert_eq!(proxy.http(), Some(&"http://proxy.corp.com:8080".to_string()));
    assert_eq!(proxy.https(), Some(&"http://proxy.corp.com:8080".to_string()));

    assert_eq!(config.git().generated, GitGeneratedHandling::Ignored);
}

#[test]
fn test_config_plugins_vec() {
    let config = Config::from_str(VALID_ISOLDE_YAML_V0_1).unwrap();
    let plugins = config.plugins_vec();
    assert_eq!(plugins.len(), 1);
    assert_eq!(plugins[0].name, "community");
    assert_eq!(plugins[0].activate, true);
}

#[test]
fn test_default_completeness() {
    let yaml = r#"
version: "0.1"
name: demo
docker:
  image: ubuntu:latest
"#;
    let config = Config::from_str(yaml).unwrap();
    assert_eq!(config.workspace_dir(), "./project");
    assert_eq!(config.assistant_version(), "latest");
    assert_eq!(config.assistant_provider(), "anthropic");
    assert!(config.plugins_vec().is_empty());
    assert_eq!(config.git().generated, GitGeneratedHandling::Ignored);
}

#[test]
fn test_dangling_reference_rejection() {
    let yaml = r#"
version: "0.1"
name: demo
docker:
  image: ubuntu:latest
marketplaces:
  omc:
    url: https://example.com/market
plugins:
  - marketplace: missing
    name: some-plugin
"#;
    let result = Config::from_str(yaml);
    assert!(result.is_err());
    let message = result.unwrap_err().message();
    assert!(message.contains("some-plugin"));
    assert!(message.contains("references unknown marketplace 'missing'"));
}

#[test]
fn test_provider_whitelist() {
    for provider in ["anthropic", "openai", "bedrock", "vertex", "azure"] {
        let yaml = format!(
            "version: \"0.1\"\nname: demo\ndocker:\n  image: ubuntu:latest\nassistant:\n  provider: {}\n",
            provider
        );
        assert!(Config::from_str(&yaml).is_ok());
    }
    for provider in ["ruby", "Anthropic", "unknown", "x"] {
        let yaml = format!(
            "version: \"0.1\"\nname: demo\ndocker:\n  image: ubuntu:latest\nassistant:\n  provider: {}\n",
            provider
        );
        let result = Config::from_str(&yaml);
        assert!(result.is_err());
        assert!(result.unwrap_err().message().contains("Invalid assistant provider"));
    }
}

#[test]
fn test_empty_name_rejected() {
    let yaml = r#"
version: "0.1"
name: ""
docker:
  image: ubuntu:latest
"#;
    let result = Config::from_str(yaml);
    assert!(result.is_err());
    assert!(result
        .unwrap_err()
        .message()
        .contains("Project name cannot be empty"));
}

#[test]
fn test_empty_image_rejected() {
    let yaml = r#"
version: "0.1"
name: demo
docker:
  image: ""
"#;
    let result = Config::from_str(yaml);
    assert!(result.is_err());
    assert!(result
        .unwrap_err()
        .message()
        .contains("Docker image cannot be empty"));
}

#[test]
fn test_round_trip_resolved_values() {
    let config = Config::from_str(VALID_ISOLDE_YAML_V0_1).unwrap();
    let emitted = config.to_yaml();
    let reparsed = Config::from_str(&emitted).unwrap();
    assert_eq!(reparsed.name, config.name);
    assert_eq!(reparsed.version, config.version);
    assert_eq!(reparsed.workspace_dir(), config.workspace_dir());
    assert_eq!(reparsed.docker_image(), config.docker_image());
    assert_eq!(reparsed.assistant_provider(), config.assistant_provider());
    assert_eq!(reparsed.assistant_models(), config.assistant_models());
    assert_eq!(reparsed.plugins_vec().len(), config.plugins_vec().len());
    assert_eq!(reparsed.git().generated, config.git().generated);
}

#[test]
fn test_to_yaml_shape() {
    let yaml = r#"
version: "0.1"
name: demo
docker:
  image: ubuntu:latest
"#;
    let config = Config::from_str(yaml).unwrap();
    let emitted = config.to_yaml();
    assert!(emitted.starts_with("version: \"0.1\"\nname: \"demo\"\n"));
    assert!(emitted.contains("workspace:\n  dir: \"./project\"\n"));
    assert!(emitted.contains("git:\n  generated: \"ignored\"\n"));
}
