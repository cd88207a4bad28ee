//! Tests for the template engine and its context.

use isolde::config::Config;
use isolde::template::{render_template_simple, TemplateContext, TemplateEngine};

fn create_test_config() -> Config {
    Config::from_str(
        r#"
version: "0.1"
name: test-project
workspace:
  dir: ./project
docker:
  image: mcr.microsoft.com/devcontainers/base:ubuntu
  build_args:
    - USERNAME=user
assistant:
  version: latest
  provider: anthropic
  models:
    haiku: assistant-3-5-haiku-20241022
    sonnet: assistant-3-5-sonnet-20241022
    opus: assistant-3-5-sonnet-20241022
"#,
    )
    .unwrap()
}

#[test]
fn test_template_engine_new() {
    let engine = TemplateEngine::new();
    assert!(engine.is_ok());
    if let Ok(e) = engine {
        assert_eq!(e.templates.len(), 3);
    }
}

#[test]
fn test_template_engine_default() {
    let engine = TemplateEngine::default();
    assert_eq!(engine.templates.len(), 3);
}

#[test]
fn test_build_context() {
    let config = create_test_config();
    let context = TemplateEngine::build_context(&config);

    assert_eq!(context.project_name, "test-project");
    assert_eq!(context.docker_image, "mcr.microsoft.com/devcontainers/base:ubuntu");
    assert_eq!(context.assistant_version, "latest");
    assert_eq!(context.assistant_provider, "anthropic");
    assert!(!context.proxy_enabled);
}

#[test]
fn test_template_context_new() {
    let ctx = TemplateContext::new("my-project".to_string(), "ubuntu:latest".to_string());

    assert_eq!(ctx.project_name, "my-project");
    assert_eq!(ctx.docker_image, "ubuntu:latest");
    assert_eq!(ctx.assistant_version, "latest");
    assert_eq!(ctx.assistant_provider, "anthropic");
    assert!(!ctx.proxy_enabled);
    assert!(ctx.assistant_activate_plugins.is_empty());
}

#[test]
fn test_template_context_with_proxy() {
    let mut ctx = TemplateContext::new("my-project".to_string(), "ubuntu:latest".to_string());
    ctx.proxy_http = Some("http://proxy.example.com:8080".to_string());
    ctx.proxy_https = Some("http://proxy.example.com:8080".to_string());
    ctx.proxy_no_proxy = Some("localhost,127.0.0.1".to_string());
    ctx.proxy_enabled = true;

    assert!(ctx.proxy_enabled);
    assert_eq!(ctx.proxy_http, Some("http://proxy.example.com:8080".to_string()));
}

#[test]
fn test_template_context_with_plugins() {
    let mut ctx = TemplateContext::new("my-project".to_string(), "ubuntu:latest".to_string());
    ctx.assistant_activate_plugins = vec!["plugin-a".to_string(), "plugin-b".to_string()];
    ctx.assistant_deactivate_plugins = vec!["plugin-c".to_string()];

    assert_eq!(ctx.assistant_activate_plugins.len(), 2);
    assert_eq!(ctx.assistant_deactivate_plugins.len(), 1);
}

#[test]
fn test_render_template_simple() {
    let template = "Image: {{docker_image}}, Name: {{project_name}}";
    let ctx = TemplateContext::new("my-project".to_string(), "ubuntu:latest".to_string());

    let result = render_template_simple(template, &ctx);
    assert_eq!(result, "Image: ubuntu:latest, Name: my-project");
}

#[test]
fn test_render_template_with_lang_version() {
    let template = "{{project_name}}-v{{lang_version}}";
    let mut ctx = TemplateContext::new("my-project".to_string(), "ubuntu:latest".to_string());
    ctx.lang_version = Some("3.12".to_string());

    let result = render_template_simple(template, &ctx);
    assert_eq!(result, "my-project-v3.12");
}

#[test]
fn test_render_template_not_found_error() {
    let engine = TemplateEngine::new().unwrap();
    let ctx = TemplateContext::new("test".to_string(), "ubuntu:latest".to_string());

    let result = engine.render_template("nonexistent", &ctx);
    assert!(result.is_err());
    assert!(matches!(result, Err(isolde::error::Error::InvalidTemplate(_))));
}

#[test]
fn test_format_plugin_list_empty() {
    let template = "{{assistant_activate_plugins}}";
    let ctx = TemplateContext::new("test".to_string(), "ubuntu:latest".to_string());

    let result = render_template_simple(template, &ctx);
    assert_eq!(result, "");
}

#[test]
fn test_format_plugin_list_values() {
    let template = "[{{assistant_activate_plugins}}]";
    let mut ctx = TemplateContext::new("test".to_string(), "ubuntu:latest".to_string());
    ctx.assistant_activate_plugins = vec!["a".to_string(), "b".to_string()];
    let result = render_template_simple(template, &ctx);
    assert_eq!(result, "[\"a\", \"b\"]");
}

#[test]
fn test_render_with_config_integration() {
    let config = create_test_config();
    let engine = TemplateEngine::new().unwrap();

    let result = engine.render_with_config("devcontainer.json", &config);
    assert!(result.is_ok());
    let rendered = result.unwrap();
    assert!(rendered.contains("./features/assistant"));
    assert!(rendered.contains("test-project"));
}

#[test]
fn test_render_unresolved_token_left_verbatim() {
    let template = "{{not_a_known_key}} stays";
    let ctx = TemplateContext::new("test".to_string(), "ubuntu:latest".to_string());
    let result = render_template_simple(template, &ctx);
    assert_eq!(result, "{{not_a_known_key}} stays");
}
