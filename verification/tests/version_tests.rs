//! Tests for the schema version registry and the error taxonomy.

use isolde::config::version::SchemaVersion;
use isolde::error::Error;

#[test]
fn test_parse_v0_1() {
    assert_eq!(SchemaVersion::parse("0.1").unwrap(), SchemaVersion::V0_1);
}

#[test]
fn test_parse_invalid_version() {
    assert!(SchemaVersion::parse("99.9").is_err());
    assert!(SchemaVersion::parse("invalid").is_err());
    assert!(SchemaVersion::parse("1").is_err());
    assert!(SchemaVersion::parse("").is_err());
}

#[test]
fn test_as_str() {
    assert_eq!(SchemaVersion::V0_1.as_str(), "0.1");
}

#[test]
fn test_is_supported() {
    assert!(SchemaVersion::is_supported("0.1"));
    assert!(!SchemaVersion::is_supported("99.9"));
    assert!(!SchemaVersion::is_supported("invalid"));
}

#[test]
fn test_display() {
    assert_eq!(SchemaVersion::V0_1.as_str(), "0.1");
}

#[test]
fn test_default() {
    assert_eq!(SchemaVersion::default(), SchemaVersion::V0_1);
}

#[test]
fn test_equality() {
    assert_eq!(SchemaVersion::V0_1, SchemaVersion::V0_1);
}

#[test]
fn test_unsupported_version_message() {
    let err = SchemaVersion::parse("99.9").unwrap_err();
    assert_eq!(
        err.message(),
        "Invalid template configuration: Unsupported schema version: '99.9'. Supported versions: 0.1"
    );
}

#[test]
fn test_error_messages() {
    assert_eq!(
        Error::TemplateNotFound("python".to_string()).message(),
        "Template not found: python"
    );
    assert_eq!(
        Error::PresetNotFound("test".to_string()).message(),
        "Preset not found: test"
    );
    assert_eq!(
        Error::InvalidTemplate("bad template".to_string()).message(),
        "Invalid template configuration: bad template"
    );
    assert_eq!(
        Error::PathNotFound("/test/path".to_string()).message(),
        "Path not found: /test/path"
    );
    assert_eq!(
        Error::InvalidSubstitution("bad sub".to_string()).message(),
        "Invalid substitution: bad sub"
    );
    assert_eq!(Error::Other("generic error".to_string()).message(), "generic error");
    assert_eq!(
        Error::InvalidMarketplace("bad url".to_string()).message(),
        "Invalid marketplace: bad url"
    );
    assert_eq!(
        Error::PluginNotFound("plugin".to_string()).message(),
        "Plugin not found: plugin"
    );
    assert_eq!(
        Error::InvalidPlugin("bad plugin".to_string()).message(),
        "Invalid plugin: bad plugin"
    );
    assert_eq!(
        Error::MarketplaceError("market error".to_string()).message(),
        "Marketplace error: market error"
    );
    assert_eq!(Error::IoError("io".to_string()).message(), "I/O error: io");
}

#[test]
fn test_version() {
    assert!(!isolde::library_version().is_empty());
}
