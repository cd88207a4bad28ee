//! Tests for the diff and reconciliation engine.

use isolde::diff::{
    compute_diff, diff_file, find_orphans, generate_devcontainer_gitignore,
    generate_project_gitignore, DiffFormat, DiffLineType, DiffOptions, DiffStatus,
};

#[test]
fn test_diff_options_default() {
    let opts = DiffOptions::default();
    assert!(opts.file.is_none());
    assert_eq!(opts.format, DiffFormat::Color);
    assert_eq!(opts.context, 3);
}

#[test]
fn test_diff_format_from_str() {
    assert_eq!(DiffFormat::from_str("color"), Some(DiffFormat::Color));
    assert_eq!(DiffFormat::from_str("COLOR"), Some(DiffFormat::Color));
    assert_eq!(DiffFormat::from_str("unified"), Some(DiffFormat::Unified));
    assert_eq!(DiffFormat::from_str("json"), Some(DiffFormat::Json));
    assert_eq!(DiffFormat::from_str("invalid"), None);
}

#[test]
fn test_compute_diff_no_changes() {
    let content = "line1\nline2\nline3";
    let diff = compute_diff(content, content, 3);
    assert_eq!(diff.len(), 3);
    assert!(diff.iter().all(|d| d.line_type == DiffLineType::Context));
}

#[test]
fn test_compute_diff_with_changes() {
    let old = "line1\nline2\nline3";
    let new = "line1\nmodified\nline3";
    let diff = compute_diff(old, new, 3);

    assert!(diff.iter().any(|d| d.line_type == DiffLineType::Removed));
    assert!(diff.iter().any(|d| d.line_type == DiffLineType::Added));
}

#[test]
fn test_generate_devcontainer_gitignore() {
    let gitignore = generate_devcontainer_gitignore();
    assert!(gitignore.contains(".assistant/"));
    assert!(gitignore.contains(".omc/"));
}

#[test]
fn test_generate_project_gitignore() {
    let gitignore = generate_project_gitignore();
    assert!(gitignore.contains(".assistant/"));
    assert!(gitignore.contains(".vscode/"));
}

#[test]
fn test_diff_idempotence() {
    let content = "alpha\nbeta\ngamma\n";
    let d = diff_file("a/file.txt".to_string(), content, content);
    assert_eq!(d.status, DiffStatus::Unchanged);
    assert!(d.lines.iter().all(|l| l.line_type == DiffLineType::Context));
    assert_eq!(d.lines.len(), 3);
}

#[test]
fn test_diff_detects_substitution() {
    let old = "a\nb\nc";
    let new = "a\nX\nc";
    let diff = compute_diff(old, new, 3);

    let removed: Vec<_> = diff.iter().filter(|d| d.line_type == DiffLineType::Removed).collect();
    let added: Vec<_> = diff.iter().filter(|d| d.line_type == DiffLineType::Added).collect();
    let context: Vec<_> = diff.iter().filter(|d| d.line_type == DiffLineType::Context).collect();

    assert_eq!(removed.len(), 1);
    assert_eq!(removed[0].content, "b");
    assert_eq!(added.len(), 1);
    assert_eq!(added[0].content, "X");
    assert_eq!(context.len(), 2);
    assert_eq!(context[0].content, "a");
    assert_eq!(context[1].content, "c");
}

#[test]
fn test_diff_status_created_and_deleted() {
    let created = diff_file("p".to_string(), "", "new content\n");
    assert_eq!(created.status, DiffStatus::Created);
    let deleted = diff_file("p".to_string(), "old content\n", "");
    assert_eq!(deleted.status, DiffStatus::Deleted);
    let modified = diff_file("p".to_string(), "a\nb\n", "a\nc\n");
    assert_eq!(modified.status, DiffStatus::Modified);
}

#[test]
fn test_orphan_detection() {
    let disk = vec!["A".to_string(), "B".to_string(), "C".to_string()];
    let expected = vec!["A".to_string(), "B".to_string()];
    let orphans = find_orphans(&disk, &expected);
    assert_eq!(orphans, vec!["C".to_string()]);
}

#[test]
fn test_orphans_empty_when_all_expected() {
    let disk = vec!["A".to_string(), "B".to_string()];
    let expected = vec!["B".to_string(), "A".to_string(), "extra".to_string()];
    let orphans = find_orphans(&disk, &expected);
    assert!(orphans.is_empty());
}

#[test]
fn test_compute_diff_line_numbers() {
    let diff = compute_diff("a\nb", "a\nb\nc", 3);
    assert_eq!(diff.len(), 3);
    assert_eq!(diff[0].line_type, DiffLineType::Context);
    assert_eq!(diff[0].line_number, Some(1));
    assert_eq!(diff[2].line_type, DiffLineType::Added);
    assert_eq!(diff[2].line_number, Some(3));
    assert_eq!(diff[2].content, "c");
}

#[test]
fn test_expected_content_dispatch() {
    let config = isolde::config::Config::from_str(
        "version: \"0.1\"\nname: demo\ndocker:\n  image: ubuntu:latest\n",
    )
    .unwrap();
    let dockerfile =
        isolde::diff::generate_expected_content("Dockerfile", true, &config).unwrap();
    assert!(dockerfile.starts_with("ARG BASE_IMAGE=ubuntu:latest"));
    let gitignore =
        isolde::diff::generate_expected_content(".gitignore", false, &config).unwrap();
    assert!(gitignore.contains(".DS_Store"));
    let unknown = isolde::diff::generate_expected_content("whatever.txt", false, &config).unwrap();
    assert!(unknown.is_empty());
}
