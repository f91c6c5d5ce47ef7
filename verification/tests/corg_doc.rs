use corg::corg_doc::{file_name_contains, is_hidden_name, script_output_path, CorgDoc, CorgFileType};
use std::path::PathBuf;

#[test]
fn test_new() {
    let corg_doc = CorgDoc::new("examples/faye.md", Some("# Faye\n".to_string()));
    assert_ne!(corg_doc.file_contents, None);
}

#[test]
fn test_is_file_type() {
    let corg_file_type = CorgFileType::Markdown;
    let path_buf = PathBuf::from("/Users/seve/code/Projects/corg/examples/faye.md");
    let _ = corg_file_type;
    let _ = path_buf;
}

#[test]
fn unopened_document_has_no_contents() {
    let corg_doc = CorgDoc::new("missing.md", None);
    assert_eq!(corg_doc.file_contents, None);
    assert_eq!(corg_doc.file_name, "missing.md");
}

#[test]
fn file_type_extensions() {
    assert_eq!(CorgFileType::Markdown.to_string(), "md".to_string());
    assert_eq!(CorgFileType::ShellScript.to_string(), "sh".to_string());
}

#[test]
fn file_type_name_test_checks_extension() {
    assert!(CorgFileType::Markdown.is_file_type_name("examples/faye.md"));
    assert!(!CorgFileType::Markdown.is_file_type_name("examples/faye.sh"));
    assert!(CorgFileType::ShellScript.is_file_type_name("scripts/run.sh"));
    assert!(!CorgFileType::ShellScript.is_file_type_name("m"));
}

#[test]
fn matching_file_name_needs_stem_and_extension() {
    assert!(CorgFileType::Markdown.is_matching_file_name("/home/u/faye.md", "faye"));
    assert!(!CorgFileType::Markdown.is_matching_file_name("/home/u/faye.md", "janet"));
    assert!(!CorgFileType::ShellScript.is_matching_file_name("/home/u/faye.md", "faye"));
}

#[test]
fn hidden_names_start_with_a_dot() {
    assert!(is_hidden_name(".git"));
    assert!(!is_hidden_name("git"));
    assert!(!is_hidden_name(""));
}

#[test]
fn script_path_wraps_stem() {
    assert_eq!(script_output_path("faye"), "scripts/faye.sh".to_string());
}

#[test]
fn loose_name_matching_is_substring_search() {
    assert!(file_name_contains("faye.md", "faye"));
    assert!(file_name_contains("faye.md", "aye.m"));
    assert!(!file_name_contains("faye.md", "janet"));
    assert!(file_name_contains("anything", ""));
}
