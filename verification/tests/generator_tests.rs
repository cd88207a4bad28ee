//! Tests for the artifact generator.

use isolde::config::Config;
use isolde::generator::{git_init_plan, Generator};

fn create_test_config() -> Config {
    Config::from_str(
        r#"
name: test-app
version: "0.1"
workspace:
  dir: ./project
docker:
  image: mcr.microsoft.com/devcontainers/base:ubuntu
  build_args: []
assistant:
  version: latest
  provider: anthropic
  models:
    haiku: assistant-3-5-haiku-20241022
    sonnet: assistant-3-5-sonnet-20241022
runtime:
  language: python
  version: "3.12"
  package_manager: uv
  tools: []
"#,
    )
    .unwrap()
}

fn map_get<'a>(map: &'a [(String, String)], key: &str) -> Option<&'a String> {
    map.iter().find(|(k, _)| k == key).map(|(_, v)| v)
}

#[test]
fn test_generator_new() {
    let config = create_test_config();
    let generator = Generator::new(config);
    assert!(generator.is_ok());
}

#[test]
fn test_build_substitution_map() {
    let config = create_test_config();
    let generator = Generator::new(config).unwrap();
    let map = generator.build_substitution_map();

    assert_eq!(map_get(&map, "PROJECT_NAME"), Some(&"test-app".to_string()));
    assert_eq!(map_get(&map, "ASSISTANT_VERSION"), Some(&"latest".to_string()));
    assert_eq!(map_get(&map, "ASSISTANT_PROVIDER"), Some(&"anthropic".to_string()));
    assert_eq!(map_get(&map, "PYTHON_VERSION"), Some(&"3.12".to_string()));
    assert_eq!(map_get(&map, "PROXY_ENABLED"), Some(&"false".to_string()));
}

#[test]
fn test_render_dockerfile() {
    let config = create_test_config();
    let generator = Generator::new(config).unwrap();
    let dockerfile = generator.render_dockerfile().unwrap();

    assert!(dockerfile.contains("ARG BASE_IMAGE=mcr.microsoft.com/devcontainers/base:ubuntu"));
    assert!(dockerfile.contains("ARG PYTHON_VERSION=3.12"));
    assert!(dockerfile.contains("USER ${USERNAME}"));
}

#[test]
fn test_render_assistant_config() {
    let config = create_test_config();
    let generator = Generator::new(config).unwrap();
    let assistant_config = generator.render_assistant_config().unwrap();

    assert!(assistant_config.contains("\"provider\""));
    assert!(assistant_config.contains("anthropic"));
}

#[test]
fn test_render_project_gitignore() {
    let config = create_test_config();
    let generator = Generator::new(config).unwrap();
    let gitignore = generator.render_project_gitignore().unwrap();

    assert!(gitignore.contains(".assistant/"));
    assert!(gitignore.contains("node_modules/"));
}

#[test]
fn test_render_devcontainer_gitignore() {
    let config = create_test_config();
    let generator = Generator::new(config).unwrap();
    let gitignore = generator.render_devcontainer_gitignore().unwrap();

    assert!(gitignore.contains(".assistant/"));
    assert!(gitignore.contains(".omc/"));
    assert!(gitignore.contains("settings.json"));
}

#[test]
fn test_render_project_readme() {
    let config = create_test_config();
    let generator = Generator::new(config).unwrap();
    let readme = generator.render_project_readme().unwrap();

    assert!(readme.contains("# test-app"));
    assert!(readme.contains("Dev Containers: Rebuild Container"));
}

#[test]
fn test_substitution_with_proxy() {
    let config = Config::from_str(
        r#"
name: test-app
version: "0.1"
docker:
  image: ubuntu:latest
proxy:
  http: http://proxy.example.com:8080
  https: http://proxy.example.com:8080
  no_proxy: localhost,127.0.0.1
"#,
    )
    .unwrap();
    let generator = Generator::new(config).unwrap();
    let map = generator.build_substitution_map();

    assert_eq!(
        map_get(&map, "HTTP_PROXY"),
        Some(&"http://proxy.example.com:8080".to_string())
    );
    assert_eq!(
        map_get(&map, "HTTPS_PROXY"),
        Some(&"http://proxy.example.com:8080".to_string())
    );
    assert_eq!(map_get(&map, "PROXY_ENABLED"), Some(&"true".to_string()));
}

#[test]
fn test_plugin_activation_lists() {
    let config = Config::from_str(
        r#"
name: test-app
version: "0.1"
docker:
  image: ubuntu:latest
marketplaces:
  omc:
    url: https://example.com/market
plugins:
  - marketplace: omc
    name: plugin1
    activate: true
  - marketplace: omc
    name: plugin2
    activate: false
"#,
    )
    .unwrap();
    let generator = Generator::new(config).unwrap();
    let map = generator.build_substitution_map();

    assert!(map_get(&map, "ASSISTANT_ACTIVATE_PLUGINS").unwrap().contains("plugin1"));
    assert!(!map_get(&map, "ASSISTANT_ACTIVATE_PLUGINS").unwrap().contains("plugin2"));
    assert!(map_get(&map, "ASSISTANT_DEACTIVATE_PLUGINS").unwrap().contains("plugin2"));
    assert!(!map_get(&map, "ASSISTANT_DEACTIVATE_PLUGINS").unwrap().contains("plugin1"));
}

#[test]
fn test_language_to_version_key_mappings() {
    assert_eq!(
        Generator::language_to_version_key("python"),
        Some("PYTHON_VERSION".to_string())
    );
    assert_eq!(
        Generator::language_to_version_key("node"),
        Some("NODE_VERSION".to_string())
    );
    assert_eq!(
        Generator::language_to_version_key("nodejs"),
        Some("NODE_VERSION".to_string())
    );
    assert_eq!(
        Generator::language_to_version_key("javascript"),
        Some("NODE_VERSION".to_string())
    );
    assert_eq!(
        Generator::language_to_version_key("rust"),
        Some("RUST_VERSION".to_string())
    );
    assert_eq!(
        Generator::language_to_version_key("go"),
        Some("GO_VERSION".to_string())
    );
    assert_eq!(
        Generator::language_to_version_key("golang"),
        Some("GO_VERSION".to_string())
    );
    assert_eq!(Generator::language_to_version_key("unknown"), None);
}

#[test]
fn test_render_devcontainer_json_substitutions() {
    let config = create_test_config();
    let generator = Generator::new(config).unwrap();

    let result = generator.render_devcontainer_json();
    assert!(result.is_ok());

    let rendered = result.unwrap();
    assert!(rendered.contains("test-app"));
    assert!(!rendered.contains("{{PROJECT_NAME}}"));
    assert!(rendered.contains("\"haiku\":"));
    assert!(rendered.contains("\"sonnet\":"));
}

#[test]
fn test_substitution_no_language_key_for_unrecognized() {
    let config = Config::from_str(
        r#"
name: test-app
version: "0.1"
docker:
  image: ubuntu:latest
runtime:
  language: ruby
  version: "3.3"
  package_manager: bundler
"#,
    )
    .unwrap();
    let generator = Generator::new(config).unwrap();
    let map = generator.build_substitution_map();
    for key in ["PYTHON_VERSION", "NODE_VERSION", "RUST_VERSION", "GO_VERSION"] {
        assert_eq!(map_get(&map, key), None);
    }
}

#[test]
fn test_dry_run_classification() {
    let config = create_test_config();
    let generator = Generator::new(config).unwrap();
    let features = vec!["assistant".to_string(), "proxy".to_string()];
    let existing = vec![
        ".devcontainer/Dockerfile".to_string(),
        "./project/README.md".to_string(),
    ];
    let report = generator.dry_run(&features, &existing);
    assert!(report.would_modify.contains(&".devcontainer/Dockerfile".to_string()));
    assert!(report.would_modify.contains(&"./project/README.md".to_string()));
    assert!(report.would_create.contains(&".devcontainer/devcontainer.json".to_string()));
    assert!(report.would_create.contains(&".devcontainer/features/assistant".to_string()));
    assert_eq!(report.would_create.len() + report.would_modify.len(), 8);
}

#[test]
fn test_git_init_plan_fresh() {
    let plan = git_init_plan("./project", false, true, true, false);
    assert_eq!(plan.len(), 7);
    assert_eq!(plan[0].dir, "./project");
    assert_eq!(plan[0].args, vec!["init".to_string(), "-q".to_string()]);
    assert_eq!(plan[1].args, vec!["add".to_string(), "README.md".to_string()]);
    assert_eq!(plan[2].args, vec!["add".to_string(), ".gitignore".to_string()]);
    assert_eq!(plan[3].args[0], "commit");
    assert_eq!(plan[4].dir, ".devcontainer");
    assert_eq!(plan[6].args[2], "Initial devcontainer setup");
}

#[test]
fn test_git_init_plan_existing_repos() {
    let plan = git_init_plan("./project", true, true, true, true);
    assert!(plan.is_empty());
}

#[test]
fn test_end_to_end_generation() {
    let config = Config::from_str(
        r#"
version: "0.1"
name: demo
docker:
  image: ubuntu:latest
"#,
    )
    .unwrap();
    let generator = Generator::new(config).unwrap();
    let descriptor = generator.render_devcontainer_json().unwrap();
    assert!(descriptor.contains("\"name\": \"demo - Isolde Environment\""));
    let dockerfile = generator.render_dockerfile().unwrap();
    assert!(dockerfile.starts_with("ARG BASE_IMAGE=ubuntu:latest\n"));
    let plan = git_init_plan("./project", false, true, true, false);
    assert!(plan.iter().any(|c| c.dir == "./project" && c.args[0] == "init"));
    assert!(plan.iter().any(|c| c.dir == ".devcontainer" && c.args[0] == "init"));
}
