#![allow(unused_mut)]

use serde_json::Value;
use simulacra::types::{VfsError, VirtualFs};
use simulacra::vfs::servicefs::svc_integration;
use simulacra::vfs::{IntegrationLister, MemoryFs, ServiceFs};

struct FakeIntegrationLister {
    names: Vec<String>,
}

impl FakeIntegrationLister {
    fn new(names: &[&str]) -> Self {
        Self {
            names: names.iter().map(|s| (*s).to_string()).collect(),
        }
    }
}

impl IntegrationLister for FakeIntegrationLister {
    fn integration_names(&self) -> Vec<String> {
        self.names.clone()
    }

    fn integration_metadata(&self, name: &str) -> Option<String> {
        if self.names.iter().any(|n| n == name) {
            Some(format!(
                "{{\"base_url\":\"https://api.{name}.example.com\",\"rate_limit_rps\":10,\"scopes\":[\"{name}.read\"],\"status\":\"ok\"}}"
            ))
        } else {
            None
        }
    }

    fn integration_readme(&self, name: &str) -> Option<String> {
        if self.names.iter().any(|n| n == name) {
            Some(format!("# {name}\n\nIntegration for {name}.\n\nAvailable skills:\n- sync"))
        } else {
            None
        }
    }

    fn integration_skill_names(&self, name: &str) -> Vec<String> {
        if self.names.iter().any(|n| n == name) {
            vec!["create-contact".to_string(), "sync".to_string()]
        } else {
            Vec::new()
        }
    }
}

fn service_fs(names: &[&str]) -> ServiceFs<MemoryFs, FakeIntegrationLister> {
    ServiceFs::new(MemoryFs::new(), FakeIntegrationLister::new(names))
}

fn read_string(fs: &ServiceFs<MemoryFs, FakeIntegrationLister>, path: &str) -> Result<String, VfsError> {
    fs.read(path)
        .map(|bytes| String::from_utf8(bytes).expect("utf-8"))
}

#[test]
fn list_dir_svc_returns_sorted_integration_names() {
    let mut fs = service_fs(&["slack", "hubspot", "linear"]);
    let entries = fs.list_dir("/svc/").unwrap();
    assert_eq!(entries, vec!["hubspot", "linear", "slack"]);
}

#[test]
fn list_dir_svc_no_trailing_slash() {
    let mut fs = service_fs(&["slack", "hubspot"]);
    let entries = fs.list_dir("/svc").unwrap();
    assert_eq!(entries, vec!["hubspot", "slack"]);
}

#[test]
fn read_svc_readme_returns_markdown() {
    let mut fs = service_fs(&["hubspot"]);
    let readme = read_string(&fs, "/svc/hubspot/README.md").unwrap();
    assert!(
        readme.starts_with("# hubspot"),
        "README should start with heading"
    );
    assert!(
        readme.contains("Available skills"),
        "README should list skills"
    );
}

#[test]
fn read_svc_config_returns_metadata_json() {
    let mut fs = service_fs(&["hubspot"]);
    let raw = read_string(&fs, "/svc/hubspot/config.json").unwrap();
    let json: Value = serde_json::from_str(&raw).expect("valid JSON");
    assert_eq!(json["base_url"], "https://api.hubspot.example.com");
    assert_eq!(json["status"], "ok");
    assert_eq!(json["rate_limit_rps"], 10);
    assert!(json["scopes"].is_array());
}

#[test]
fn config_json_never_contains_credentials() {
    let mut fs = service_fs(&["hubspot"]);
    let raw = read_string(&fs, "/svc/hubspot/config.json").unwrap();
    assert!(!raw.contains("client_secret"));
    assert!(!raw.contains("refresh_token"));
    assert!(!raw.contains("HUBSPOT_CLIENT_SECRET"));
    assert!(!raw.contains("Bearer "));
    assert!(!raw.contains("access_token"));
}

#[test]
fn list_dir_svc_skills_returns_skill_names() {
    let mut fs = service_fs(&["hubspot"]);
    let skills = fs.list_dir("/svc/hubspot/skills/").unwrap();
    assert_eq!(skills, vec!["create-contact", "sync"]);
}

#[test]
fn list_dir_nonexistent_integration_returns_not_found() {
    let mut fs = service_fs(&["hubspot"]);
    let err = fs.list_dir("/svc/nonexistent/").unwrap_err();
    assert!(matches!(err, VfsError::NotFound(_)));
}

#[test]
fn read_nonexistent_file_returns_not_found() {
    let mut fs = service_fs(&["hubspot"]);
    let err = fs.read("/svc/hubspot/nonexistent").unwrap_err();
    assert!(matches!(err, VfsError::NotFound(_)));
}

#[test]
fn read_nonexistent_integration_readme_returns_not_found() {
    let mut fs = service_fs(&["hubspot"]);
    let err = fs.read("/svc/nonexistent/README.md").unwrap_err();
    assert!(matches!(err, VfsError::NotFound(_)));
}

#[test]
fn write_to_svc_returns_permission_denied() {
    let mut fs = service_fs(&["hubspot"]);
    let err = fs.write("/svc/hubspot/README.md", b"nope").unwrap_err();
    assert!(matches!(err, VfsError::PermissionDenied(_)));
}

#[test]
fn mkdir_under_svc_returns_permission_denied() {
    let mut fs = service_fs(&["hubspot"]);
    let err = fs.mkdir("/svc/custom").unwrap_err();
    assert!(matches!(err, VfsError::PermissionDenied(_)));
}

#[test]
fn remove_under_svc_returns_permission_denied() {
    let mut fs = service_fs(&["hubspot"]);
    let err = fs.remove("/svc/hubspot/config.json").unwrap_err();
    assert!(matches!(err, VfsError::PermissionDenied(_)));
}

#[test]
fn all_write_ops_under_svc_return_permission_denied() {
    let mut fs = service_fs(&["hubspot"]);
    assert!(matches!(
        fs.write("/svc/hubspot/skills/sync", b"x"),
        Err(VfsError::PermissionDenied(_))
    ));
    assert!(matches!(
        fs.mkdir("/svc/hubspot/skills/new"),
        Err(VfsError::PermissionDenied(_))
    ));
    assert!(matches!(
        fs.remove("/svc/hubspot/skills/sync"),
        Err(VfsError::PermissionDenied(_))
    ));
}

#[test]
fn list_dir_svc_returns_directory_entries() {
    let mut fs = service_fs(&["hubspot", "slack"]);
    let entries = fs.list_dir("/svc/").unwrap();
    assert!(entries.contains(&"hubspot".to_string()));
    assert!(entries.contains(&"slack".to_string()));
}

#[test]
fn list_dir_integration_root_returns_readme_config_skills() {
    let mut fs = service_fs(&["hubspot"]);
    let entries = fs.list_dir("/svc/hubspot/").unwrap();
    assert_eq!(entries, vec!["README.md", "config.json", "skills"]);
}

#[test]
fn exists_returns_true_for_integration_readme() {
    let mut fs = service_fs(&["hubspot"]);
    assert!(fs.entry_exists("/svc/hubspot/README.md"));
}

#[test]
fn exists_returns_true_for_integration_directory() {
    let mut fs = service_fs(&["hubspot"]);
    assert!(fs.entry_exists("/svc/hubspot"));
}

#[test]
fn exists_returns_false_for_nonexistent_service() {
    let mut fs = service_fs(&["hubspot"]);
    assert!(!fs.entry_exists("/svc/nonexistent"));
}

#[test]
fn metadata_svc_root_is_directory() {
    let mut fs = service_fs(&["hubspot"]);
    let m = fs.metadata("/svc/").unwrap();
    assert!(m.is_dir);
    assert!(!m.is_file);
}

#[test]
fn metadata_svc_no_trailing_slash_is_directory() {
    let mut fs = service_fs(&["hubspot"]);
    let m = fs.metadata("/svc").unwrap();
    assert!(m.is_dir);
    assert!(!m.is_file);
}

#[test]
fn metadata_integration_directory() {
    let mut fs = service_fs(&["hubspot"]);
    let m = fs.metadata("/svc/hubspot/").unwrap();
    assert!(m.is_dir);
}

#[test]
fn metadata_integration_readme_has_correct_size() {
    let mut fs = service_fs(&["hubspot"]);
    let content = read_string(&fs, "/svc/hubspot/README.md").unwrap();
    let m = fs.metadata("/svc/hubspot/README.md").unwrap();
    assert!(m.is_file);
    assert!(!m.is_dir);
    assert_eq!(m.size, content.len() as u64);
}

#[test]
fn non_svc_read_delegates_to_inner() {
    let mut fs = service_fs(&["hubspot"]);
    fs.mkdir("/workspace").unwrap();
    fs.write("/workspace/hello.txt", b"hi").unwrap();
    let data = fs.read("/workspace/hello.txt").unwrap();
    assert_eq!(data, b"hi");
}

#[test]
fn non_svc_write_delegates_to_inner() {
    let mut fs = service_fs(&["hubspot"]);
    fs.mkdir("/workspace").unwrap();
    fs.write("/workspace/test.txt", b"data").unwrap();
    assert!(fs.entry_exists("/workspace/test.txt"));
}

#[test]
fn snapshot_restore_delegates_to_inner() {
    let mut fs = service_fs(&["hubspot"]);
    fs.mkdir("/workspace").unwrap();
    fs.write("/workspace/a.txt", b"before").unwrap();
    let snap = fs.snapshot().unwrap();
    fs.write("/workspace/a.txt", b"after").unwrap();
    fs.restore(&snap).unwrap();
    assert_eq!(fs.read("/workspace/a.txt").unwrap(), b"before");
}

#[test]
fn config_json_reflects_connectivity_status() {
    let mut fs = service_fs(&["hubspot"]);
    let raw = read_string(&fs, "/svc/hubspot/config.json").unwrap();
    let json: Value = serde_json::from_str(&raw).unwrap();
    assert!(json["status"].is_string());
}

#[test]
fn paths_of_services_name_an_integration() {
    assert_eq!(svc_integration("/svc/crm/skills/sync").as_deref(), Some("crm"));
    assert_eq!(svc_integration("/svc/crm/").as_deref(), Some("crm"));
    assert_eq!(svc_integration("/svc/").as_deref(), Some("svc"));
    assert_eq!(svc_integration("/service"), None);
}

#[test]
fn services_that_are_listed_are_there_and_can_be_read() {
    let fs = service_fs(&["crm", "mail"]);
    for name in fs.list_dir("/svc").unwrap() {
        let dir = format!("/svc/{name}");
        assert!(fs.entry_exists(&dir));
        assert!(fs.metadata(&dir).unwrap().is_dir);
        for file in fs.list_dir(&dir).unwrap() {
            let path = format!("{dir}/{file}");
            assert!(fs.entry_exists(&path));
            let metadata = fs.metadata(&path).unwrap();
            if metadata.is_file {
                assert_eq!(fs.read(&path).unwrap().len() as u64, metadata.size);
            }
        }
    }
}
