//! Tests for marketplaces and plugins.

use isolde::marketplace::{Marketplace, Plugin, DEFAULT_MARKETPLACE_URL};

#[test]
fn test_marketplace_from_url_github() {
    let marketplace =
        Marketplace::from_url("https://github.com/community/marketplace").unwrap();
    assert_eq!(marketplace.name, "marketplace");
    assert_eq!(marketplace.url, "https://github.com/community/marketplace");
}

#[test]
fn test_marketplace_from_url_invalid() {
    let result = Marketplace::from_url("not-a-url");
    assert!(result.is_err());
}

#[test]
fn test_marketplace_from_url_empty() {
    let result = Marketplace::from_url("");
    assert!(result.is_err());
}

#[test]
fn test_marketplace_from_url_trailing_slashes() {
    let marketplace = Marketplace::from_url("https://example.com/things///").unwrap();
    assert_eq!(marketplace.name, "things");
}

#[test]
fn test_marketplace_default() {
    let marketplace = Marketplace::default();
    assert_eq!(marketplace.name, "community");
    assert_eq!(marketplace.url, DEFAULT_MARKETPLACE_URL);
}

#[test]
fn test_plugin_new() {
    let plugin = Plugin::new(
        "test-plugin".to_string(),
        "test-marketplace".to_string(),
        "A test plugin".to_string(),
    );

    assert_eq!(plugin.name, "test-plugin");
    assert_eq!(plugin.marketplace, "test-marketplace");
    assert_eq!(plugin.description, "A test plugin");
    assert!(plugin.version.is_none());
}

#[test]
fn test_plugin_builder() {
    let plugin = Plugin::new(
        "test-plugin".to_string(),
        "test-marketplace".to_string(),
        "A test plugin".to_string(),
    )
    .with_version("1.0.0".to_string())
    .with_author("Test Author".to_string())
    .with_tags(vec!["test".to_string(), "example".to_string()]);

    assert_eq!(plugin.version, Some("1.0.0".to_string()));
    assert_eq!(plugin.author, Some("Test Author".to_string()));
    assert!(plugin.has_tag("test"));
    assert!(plugin.has_tag("example"));
    assert!(!plugin.has_tag("other"));
}

#[test]
fn test_plugin_has_tag_ignores_ascii_case() {
    let plugin = Plugin::new(
        "p".to_string(),
        "m".to_string(),
        "d".to_string(),
    )
    .with_tags(vec!["Tools".to_string()]);
    assert!(plugin.has_tag("tools"));
    assert!(plugin.has_tag("TOOLS"));
    assert!(!plugin.has_tag("tool"));
}

#[test]
fn test_plugin_builder_homepage_repository() {
    let plugin = Plugin::new("p".to_string(), "m".to_string(), "d".to_string())
        .with_homepage("https://example.com".to_string())
        .with_repository("https://example.com/repo".to_string());
    assert_eq!(plugin.homepage, Some("https://example.com".to_string()));
    assert_eq!(plugin.repository, Some("https://example.com/repo".to_string()));
}

#[test]
fn test_list_plugins_returns_empty() {
    let marketplace = Marketplace::default();
    let plugins = marketplace.list_plugins().unwrap();
    assert!(plugins.is_empty());
}

#[test]
fn test_get_plugin_returns_error() {
    let marketplace = Marketplace::default();
    let result = marketplace.get_plugin("autopilot");
    assert!(result.is_err());
}

#[test]
fn test_get_plugin_empty_name() {
    let marketplace = Marketplace::default();
    let result = marketplace.get_plugin("");
    assert!(result.is_err());
    assert!(matches!(result, Err(isolde::error::Error::InvalidPlugin(_))));
}

#[test]
fn test_marketplace_display_format() {
    let marketplace = Marketplace {
        name: "test-market".to_string(),
        url: "https://example.com/market".to_string(),
    };

    let display = marketplace.display_string();
    assert!(display.contains("test-market"));
    assert!(display.contains("https://example.com/market"));
}

#[test]
fn test_plugin_display_format() {
    let plugin = Plugin::new(
        "test-plugin".to_string(),
        "test-market".to_string(),
        "A test plugin".to_string(),
    )
    .with_version("1.0.0".to_string());

    let display = plugin.display_string();
    assert!(display.contains("test-plugin"));
    assert!(display.contains("1.0.0"));
    assert!(display.contains("test-market"));
}
