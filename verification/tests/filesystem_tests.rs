//! Tests of the texts that a new project's files are made of, and of the
//! manifest reading that the keys command relies on.

use chio::content::templates;
use chio::manifest::{expected_keypair_path, project_name_from_cargo_toml};

#[test]
fn create_cargo_toml_mollusk_dependencies() {
    let content = templates::cargo_toml_mollusk("test_project");

    assert!(content.contains("mollusk-svm"));
    assert!(content.contains("mollusk-svm-bencher"));
    assert!(content.contains("pinocchio"));
    assert!(content.contains("solana-sdk"));
}

#[test]
fn create_cargo_toml_litesvm_dependencies() {
    let content = templates::cargo_toml_litesvm("test_project");

    assert!(content.contains("litesvm"));
    assert!(content.contains("litesvm-token"));
    assert!(!content.contains("mollusk-svm"));
}

#[test]
fn mollusk_test_file_contains_framework_reference() {
    let test_file = templates::unit_tests::unit_test_rs("user", "prog", "test_proj");

    assert!(test_file.contains("mollusk"));
    assert!(test_file.contains("use mollusk_svm"));
}

#[test]
fn litesvm_test_file_contains_framework_reference() {
    let test_file = templates::unit_tests::litesvm_initialize_rs("test_proj");

    assert!(test_file.contains("litesvm"));
    assert!(test_file.contains("use litesvm"));
}

#[test]
fn readme_contains_project_structure() {
    let readme = templates::readme_md();

    assert!(readme.contains("src/"));
    assert!(readme.contains("tests/"));
    assert!(readme.contains("entrypoint.rs"));
    assert!(readme.contains("instructions/"));
    assert!(readme.contains("states/"));
}

#[test]
fn gitignore_has_required_entries() {
    let gitignore = templates::gitignore();

    assert!(gitignore.contains("/target"));
    assert!(gitignore.contains(".env"));
}

#[test]
fn reads_project_name_from_cargo_toml() {
    let cargo_toml = "[package]\nname = \"hello_world\"\nversion = \"0.1.0\"\n";

    let project_name =
        project_name_from_cargo_toml(cargo_toml).expect("Failed to read project name");

    assert_eq!(project_name, "hello_world");
}

#[test]
fn builds_expected_keypair_path_from_project_name() {
    let project_dir = "/tmp/chio-project";
    let cargo_toml = "[package]\nname = \"hello_world\"\nversion = \"0.1.0\"\n";

    let keypair_path =
        expected_keypair_path(project_dir, cargo_toml).expect("Failed to build keypair path");

    assert_eq!(
        keypair_path,
        std::path::Path::new(project_dir)
            .join("target")
            .join("deploy")
            .join("hello_world-keypair.json")
            .to_str()
            .unwrap()
    );
}
