use simulacra::vfs::mount::{detect_project_root, expand_tilde, resolve_mount_source};

#[test]
fn resolution_detect_project_root_config_based_uses_parent_of_config_path() {
    let result = detect_project_root("/home/user/project/simulacra.toml", false, Ok("/elsewhere".to_string())).unwrap();
    assert_eq!(result, "/home/user/project");
}

#[test]
fn tests_detect_project_root_config_based_uses_parent_of_config_path() {
    resolution_detect_project_root_config_based_uses_parent_of_config_path();
}

#[test]
fn resolution_detect_project_root_absolute_config_path_uses_parent() {
    let result = detect_project_root("/tmp/myproject/simulacra.toml", false, Ok("/elsewhere".to_string())).unwrap();
    assert_eq!(result, "/tmp/myproject");
}

#[test]
fn tests_detect_project_root_absolute_config_path_uses_parent() {
    resolution_detect_project_root_absolute_config_path_uses_parent();
}

#[test]
fn resolution_detect_project_root_config_at_filesystem_root_returns_error() {
    let result = detect_project_root("/simulacra.toml", false, Ok("/elsewhere".to_string())).unwrap();
    assert_eq!(result, "/");
}

#[test]
fn tests_detect_project_root_config_at_filesystem_root_returns_error() {
    resolution_detect_project_root_config_at_filesystem_root_returns_error();
}

#[test]
fn resolution_detect_project_root_adhoc_mode_uses_cwd() {
    let cwd = "/work/tree".to_string();
    let result = detect_project_root("unused", true, Ok(cwd.clone())).unwrap();
    assert!(result.starts_with('/'), "ad-hoc project root should be absolute");
    assert_eq!(result, cwd);
}

#[test]
fn tests_detect_project_root_adhoc_mode_uses_cwd() {
    resolution_detect_project_root_adhoc_mode_uses_cwd();
}

#[test]
fn resolution_resolve_mount_source_absolute_path_returned_directly() {
    let root = "/project";
    let result = resolve_mount_source("/usr/share/data", Some("/home/user"), root);
    assert_eq!(result, "/usr/share/data");
}

#[test]
fn tests_resolve_mount_source_absolute_path_returned_directly() {
    resolution_resolve_mount_source_absolute_path_returned_directly();
}

#[test]
fn resolution_resolve_mount_source_relative_path_joined_with_project_root() {
    let root = "/home/user/project";
    let result = resolve_mount_source("prompts", Some("/home/user"), root);
    assert_eq!(
        result,
        "/home/user/project/prompts"
    );
}

#[test]
fn tests_resolve_mount_source_relative_path_joined_with_project_root() {
    resolution_resolve_mount_source_relative_path_joined_with_project_root();
}

#[test]
fn resolution_resolve_mount_source_relative_nested_path() {
    let root = "/project";
    let result = resolve_mount_source("a/b/c", Some("/home/user"), root);
    assert_eq!(result, "/project/a/b/c");
}

#[test]
fn tests_resolve_mount_source_relative_nested_path() {
    resolution_resolve_mount_source_relative_nested_path();
}

#[test]
fn resolution_expand_tilde_replaces_with_home() {
    let home = "/home/user";
    let result = expand_tilde("~/simulacra-skills", Some("/home/user"));
    assert_eq!(result, format!("{home}/simulacra-skills"));
}

#[test]
fn tests_expand_tilde_replaces_with_home() {
    resolution_expand_tilde_replaces_with_home();
}

#[test]
fn resolution_expand_tilde_lone_tilde() {
    let home = "/home/user";
    let result = expand_tilde("~", Some("/home/user"));
    assert_eq!(result, home);
}

#[test]
fn tests_expand_tilde_lone_tilde() {
    resolution_expand_tilde_lone_tilde();
}

#[test]
fn resolution_expand_tilde_no_tilde_returns_unchanged() {
    let result = expand_tilde("/absolute/path", Some("/home/user"));
    assert_eq!(result, "/absolute/path");
}

#[test]
fn tests_expand_tilde_no_tilde_returns_unchanged() {
    resolution_expand_tilde_no_tilde_returns_unchanged();
}

#[test]
fn resolution_expand_tilde_tilde_in_middle_returns_unchanged() {
    let result = expand_tilde("/path/with/~tilde", Some("/home/user"));
    assert_eq!(result, "/path/with/~tilde");
}

#[test]
fn tests_expand_tilde_tilde_in_middle_returns_unchanged() {
    resolution_expand_tilde_tilde_in_middle_returns_unchanged();
}

#[test]
fn resolution_resolve_mount_source_tilde_expanded_then_treated_as_absolute() {
    let root = "/project";
    let result = resolve_mount_source("~/data", Some("/home/user"), root);
    let home = "/home/user";
    assert_eq!(result, format!("{home}/data"));
    assert!(
        !result.starts_with("/project"),
        "tilde-expanded path should not be relative to project root"
    );
}

#[test]
fn tests_resolve_mount_source_tilde_expanded_then_treated_as_absolute() {
    resolution_resolve_mount_source_tilde_expanded_then_treated_as_absolute();
}
