#![allow(unused_mut)]

use simulacra::types::{
    ArtifactEntry, ArtifactError, ArtifactStore, CapabilityToken, Cost, MemoryCapability, MemoryPath, MemoryVersion,
    NetworkPermission, PathPattern, ResourceBudget, TenantId, VfsError, VirtualFs,
};
use simulacra::vfs::{
    HookLister, IntegrationLister, MailboxFs, MemoryError, MemoryFs, MemoryStore, MemoryStoreFs, ProcFs, ProcState,
    ServiceFs, ToolLister,
};
use std::cell::RefCell;
use std::collections::BTreeMap;
use std::rc::Rc;
use std::time::Instant;

fn tenant() -> TenantId {
    TenantId::parse("tenant-a").unwrap()
}

fn memory_path(path: &str) -> MemoryPath {
    MemoryPath::parse(path).unwrap()
}

fn memory_capability(search_scopes: &[&str], write_scopes: &[&str]) -> MemoryCapability {
    MemoryCapability {
        enabled: true,
        search_scopes: search_scopes.iter().map(|scope| memory_path(scope)).collect(),
        write_scopes: write_scopes.iter().map(|scope| memory_path(scope)).collect(),
    }
}

/// A handle on a store of memory that several owners share.
#[derive(Clone, Default)]
struct SharedMemoryStore {
    entries: Rc<RefCell<BTreeMap<(String, String), (Vec<u8>, u64)>>>,
    last_version: Rc<RefCell<u64>>,
}

impl SharedMemoryStore {
    fn next_version(&self) -> u64 {
        let mut last = self.last_version.borrow_mut();
        *last += 1;
        *last
    }
}

fn key(tenant: &TenantId, path: &MemoryPath) -> (String, String) {
    (tenant.as_str().to_string(), path.as_str().to_string())
}

fn missing(path: &MemoryPath) -> MemoryError {
    MemoryError::NotFound {
        path: path.as_str().to_string(),
        message: format!("not found: {}", path.as_str()),
    }
}

impl MemoryStore for SharedMemoryStore {
    fn put(&mut self, tenant: &TenantId, path: &MemoryPath, data: &[u8]) -> Result<MemoryVersion, MemoryError> {
        let version = self.next_version();
        self.entries
            .borrow_mut()
            .insert(key(tenant, path), (data.to_vec(), version));
        Ok(MemoryVersion(version))
    }

    fn get(&self, tenant: &TenantId, path: &MemoryPath) -> Result<(Vec<u8>, MemoryVersion), MemoryError> {
        match self.entries.borrow().get(&key(tenant, path)) {
            Some((data, version)) => Ok((data.clone(), MemoryVersion(*version))),
            None => Err(missing(path)),
        }
    }

    fn entry_exists(&self, tenant: &TenantId, path: &MemoryPath) -> Result<bool, MemoryError> {
        Ok(self.entries.borrow().contains_key(&key(tenant, path)))
    }

    fn list_prefix(&self, tenant: &TenantId, prefix: &MemoryPath) -> Result<Vec<MemoryPath>, MemoryError> {
        Ok(self
            .entries
            .borrow()
            .keys()
            .filter(|(owner, _)| owner == tenant.as_str())
            .map(|(_, path)| memory_path(path))
            .filter(|path| path.starts_with_prefix(prefix))
            .collect())
    }

    fn delete(&mut self, tenant: &TenantId, path: &MemoryPath) -> Result<MemoryVersion, MemoryError> {
        match self.entries.borrow_mut().remove(&key(tenant, path)) {
            Some((_, version)) => Ok(MemoryVersion(version)),
            None => Err(missing(path)),
        }
    }
}

#[derive(Default)]
struct StubArtifactStore {
    entries: BTreeMap<(String, String), Vec<u8>>,
}

impl ArtifactStore for StubArtifactStore {
    fn put(&mut self, task_id: &str, _tenant: &str, path: &str, data: &[u8]) -> Result<(), ArtifactError> {
        self.entries
            .insert((task_id.to_string(), path.to_string()), data.to_vec());
        Ok(())
    }

    fn get(&self, _tenant: &str, task_id: &str, path: &str) -> Result<Vec<u8>, ArtifactError> {
        self.entries
            .get(&(task_id.to_string(), path.to_string()))
            .cloned()
            .ok_or_else(|| ArtifactError::NotFound(path.to_string()))
    }

    fn list(&self, _tenant: &str, task_id: &str) -> Result<Vec<ArtifactEntry>, ArtifactError> {
        Ok(self
            .entries
            .iter()
            .filter(|((stored_task, _), _)| stored_task == task_id)
            .map(|((_, path), data)| ArtifactEntry {
                path: path.clone(),
                size: data.len() as u64,
            })
            .collect())
    }

    fn delete_task(&mut self, _tenant: &str, task_id: &str) -> Result<(), ArtifactError> {
        self.entries.retain(|(stored_task, _), _| stored_task != task_id);
        Ok(())
    }
}

struct StubToolLister;

impl ToolLister for StubToolLister {
    fn tool_names(&self) -> Vec<String> {
        vec!["semantic_search".to_string()]
    }

    fn tool_json(&self, name: &str) -> Option<String> {
        Some(format!(r#"{{"name":"{name}"}}"#))
    }
}

struct StubHookLister;

impl HookLister for StubHookLister {
    fn hook_names(&self, operation: &str) -> Vec<String> {
        vec![format!("{operation}-hook")]
    }
}

struct StubIntegrationLister;

impl IntegrationLister for StubIntegrationLister {
    fn integration_names(&self) -> Vec<String> {
        vec!["policies".to_string()]
    }

    fn integration_metadata(&self, name: &str) -> Option<String> {
        if name == "policies" {
            Some(r#"{"name":"policies"}"#.to_string())
        } else {
            None
        }
    }

    fn integration_readme(&self, name: &str) -> Option<String> {
        if name == "policies" {
            Some("# policies".to_string())
        } else {
            None
        }
    }

    fn integration_skill_names(&self, name: &str) -> Vec<String> {
        if name == "policies" {
            vec!["lookup".to_string()]
        } else {
            Vec::new()
        }
    }
}

fn patterns(texts: &[&str]) -> Vec<PathPattern> {
    texts.iter().map(|pattern| PathPattern((*pattern).to_string())).collect()
}

fn proc_state(
    memory: MemoryCapability,
    paths_read: &[&str],
    paths_write: &[&str],
) -> ProcState<StubToolLister, StubHookLister> {
    ProcState {
        agent_id: "agent-1".to_string(),
        agent_name: "worker".to_string(),
        model: "gpt-test".to_string(),
        parent_id: None,
        budget: ResourceBudget::new(0, 0, Cost::zero(), 0),
        capabilities: CapabilityToken {
            network: vec![NetworkPermission("https://example.com".to_string())],
            mcp_tools: vec!["memory_search".to_string()],
            shell: false,
            javascript: false,
            python: false,
            paths_write: patterns(paths_write),
            paths_read: patterns(paths_read),
            spawn_types: Vec::new(),
            skill_patterns: Vec::new(),
            memory,
        },
        tools: StubToolLister,
        session_id: "session-1".to_string(),
        session_start: Instant::now(),
        journal_entries: 0,
        hooks: StubHookLister,
        turn: 1,
    }
}

type Mailbox = MailboxFs<MemoryFs, StubArtifactStore>;
type Stack<V> = ProcFs<ServiceFs<V, StubIntegrationLister>, StubToolLister, StubHookLister>;

fn mailbox() -> Mailbox {
    MailboxFs::new(
        MemoryFs::new(),
        "task-1".to_string(),
        tenant().to_string(),
        StubArtifactStore::default(),
    )
}

fn build_stack(
    store: SharedMemoryStore,
    memory: MemoryCapability,
    paths_read: &[&str],
    paths_write: &[&str],
) -> Stack<MemoryStoreFs<Mailbox, SharedMemoryStore>> {
    let state = proc_state(memory.clone(), paths_read, paths_write);
    let layer = MemoryStoreFs::new(mailbox(), tenant(), store, memory);
    ProcFs::new(ServiceFs::new(layer, StubIntegrationLister), state)
}

fn build_stack_without_memory(paths_read: &[&str], paths_write: &[&str]) -> Stack<Mailbox> {
    let state = proc_state(MemoryCapability::default(), paths_read, paths_write);
    ProcFs::new(ServiceFs::new(mailbox(), StubIntegrationLister), state)
}

#[test]
fn conditional_install_gate_returns_not_found_from_the_inner_vfs_when_memory_is_disabled() {
    let mut vfs = build_stack_without_memory(&["/**"], &["/**"]);

    let err = vfs.read("/var/memory/self/x.md").unwrap_err();

    assert!(matches!(err, VfsError::NotFound(path) if path == "/var/memory/self/x.md"));
}

#[test]
fn installed_layer_enforces_self_gating_and_mnt_read_rules() {
    let mut store = SharedMemoryStore::default();
    let self_path = memory_path("/var/memory/self/note.md");
    let users_path = memory_path("/var/memory/users/brian.md");
    let mnt_path = memory_path("/mnt/policies/hr.md");
    store.put(&tenant(), &self_path, b"self note").unwrap();
    store.put(&tenant(), &users_path, b"user note").unwrap();
    store.put(&tenant(), &mnt_path, b"hr policy").unwrap();

    let mut vfs = build_stack(
        store,
        memory_capability(
            &["/var/memory/self", "/mnt"],
            &["/var/memory/self"],
        ),
        &["/**"],
        &["/**"],
    );

    assert_eq!(vfs.read(self_path.as_str()).unwrap(), b"self note");
    assert!(matches!(
        vfs.read(users_path.as_str()),
        Err(VfsError::PermissionDenied(_))
    ));
    assert!(matches!(
        vfs.write(users_path.as_str(), b"blocked"),
        Err(VfsError::PermissionDenied(_))
    ));
    assert!(matches!(
        vfs.write(mnt_path.as_str(), b"blocked"),
        Err(VfsError::PermissionDenied(_))
    ));
    assert_eq!(vfs.read(mnt_path.as_str()).unwrap(), b"hr policy");
}

#[test]
fn memory_paths_outside_search_scopes_are_rejected_even_when_generic_paths_read_is_wildcard() {
    let mut store = SharedMemoryStore::default();
    let outside_path = memory_path("/var/memory/users/brian.md");
    store.put(&tenant(), &outside_path, b"private").unwrap();
    let mut vfs = build_stack(
        store,
        memory_capability(
            &["/var/memory/self"],
            &["/var/memory/self"],
        ),
        &["/**"],
        &["/workspace/**"],
    );

    let err = vfs.read(outside_path.as_str()).unwrap_err();

    assert!(matches!(err, VfsError::PermissionDenied(_)));
}

#[test]
fn list_dir_returns_only_immediate_children_for_memory_prefixes() {
    let mut store = SharedMemoryStore::default();
    for path in [
        "/var/memory/self/a.md",
        "/var/memory/self/sub/b.md",
        "/var/memory/self/sub/c.md",
    ] {
        store
            .put(&tenant(), &memory_path(path), path.as_bytes())
            .unwrap();
    }
    let mut vfs = build_stack(
        store,
        memory_capability(
            &["/var/memory/self"],
            &["/var/memory/self"],
        ),
        &[],
        &[],
    );

    let entries = vfs.list_dir("/var/memory/self").unwrap();

    assert_eq!(entries, vec!["a.md", "sub"]);
}

#[test]
fn exists_returns_false_for_missing_in_scope_paths_instead_of_permission_denied() {
    let mut store = SharedMemoryStore::default();
    let mut vfs = build_stack(
        store,
        memory_capability(
            &["/var/memory/self"],
            &["/var/memory/self"],
        ),
        &[],
        &[],
    );

    assert!(!vfs.entry_exists("/var/memory/self/missing.md"));
}

#[test]
fn mkdir_is_a_no_op_success_inside_write_scopes_and_denied_outside_them() {
    let mut store = SharedMemoryStore::default();
    let mut vfs = build_stack(
        store,
        memory_capability(
            &["/var/memory/self"],
            &["/var/memory/self"],
        ),
        &[],
        &[],
    );

    assert!(vfs.mkdir("/var/memory/self/projects").is_ok());
    assert!(matches!(
        vfs.mkdir("/var/memory/users/brian"),
        Err(VfsError::PermissionDenied(_))
    ));
}

#[test]
fn remove_deletes_in_scope_paths_and_rejects_out_of_scope_paths() {
    let mut store = SharedMemoryStore::default();
    let inside = memory_path("/var/memory/self/delete-me.md");
    let outside = memory_path("/var/memory/users/keep-me.md");
    store.put(&tenant(), &inside, b"bye").unwrap();
    store.put(&tenant(), &outside, b"stay").unwrap();
    let mut vfs = build_stack(
        store.clone(),
        memory_capability(
            &["/var/memory/self"],
            &["/var/memory/self"],
        ),
        &[],
        &[],
    );

    vfs.remove(inside.as_str()).unwrap();

    assert!(matches!(
        store.get(&tenant(), &inside),
        Err(MemoryError::NotFound { path, .. }) if path == inside.as_str()
    ));
    assert!(matches!(
        vfs.remove(outside.as_str()),
        Err(VfsError::PermissionDenied(_))
    ));
}

#[test]
fn metadata_reports_files_and_directories_from_the_store() {
    let mut store = SharedMemoryStore::default();
    let file_path = memory_path("/var/memory/self/info.md");
    let dir_path = "/var/memory/self/subdir";
    store.put(&tenant(), &file_path, b"abcde").unwrap();
    store
        .put(
            &tenant(),
            &memory_path("/var/memory/self/subdir/child.md"),
            b"child",
        )
        .unwrap();
    let mut vfs = build_stack(
        store,
        memory_capability(
            &["/var/memory/self"],
            &["/var/memory/self"],
        ),
        &[],
        &[],
    );

    let file_meta = vfs.metadata(file_path.as_str()).unwrap();
    let dir_meta = vfs.metadata(dir_path).unwrap();

    assert!(file_meta.is_file);
    assert!(!file_meta.is_dir);
    assert_eq!(file_meta.size, 5);
    assert!(!dir_meta.is_file);
    assert!(dir_meta.is_dir);
}

#[test]
fn stack_composition_keeps_proc_svc_workspace_and_memory_routes_working() {
    let mut store = SharedMemoryStore::default();
    let memory_file = memory_path("/var/memory/self/note.md");
    store.put(&tenant(), &memory_file, b"memory data").unwrap();
    let mut vfs = build_stack(
        store,
        memory_capability(
            &["/var/memory/self", "/mnt"],
            &["/var/memory/self"],
        ),
        &["/**"],
        &["/**"],
    );

    vfs.write("/workspace/local.txt", b"workspace data")
        .unwrap();

    assert_eq!(vfs.read("/proc/agent/id").unwrap(), b"agent-1");
    assert_eq!(vfs.read("/svc/policies/README.md").unwrap(), b"# policies");
    assert_eq!(vfs.read("/workspace/local.txt").unwrap(), b"workspace data");
    assert_eq!(vfs.read(memory_file.as_str()).unwrap(), b"memory data");
}

#[test]
fn snapshot_and_restore_delegate_to_the_inner_vfs_while_memory_persists_via_the_store() {
    let mut store = SharedMemoryStore::default();
    let memory_file = "/var/memory/self/note.md";
    let mut vfs = build_stack(
        store,
        memory_capability(
            &["/var/memory/self"],
            &["/var/memory/self"],
        ),
        &[],
        &[],
    );

    vfs.write("/workspace/state.txt", b"before").unwrap();
    vfs.write(memory_file, b"memory before").unwrap();
    let snapshot = vfs.snapshot().unwrap();

    vfs.write("/workspace/state.txt", b"after").unwrap();
    vfs.write(memory_file, b"memory after").unwrap();
    vfs.restore(&snapshot).unwrap();

    assert_eq!(vfs.read("/workspace/state.txt").unwrap(), b"before");
    assert_eq!(vfs.read(memory_file).unwrap(), b"memory after");
}

#[test]
fn traversal_like_memory_paths_are_rejected_with_permission_denied() {
    let mut store = SharedMemoryStore::default();
    let mut vfs = build_stack(
        store,
        memory_capability(
            &["/var/memory/self"],
            &["/var/memory/self"],
        ),
        &[],
        &[],
    );

    let err = vfs.read("/var/memory/self/../users/x.md").unwrap_err();

    assert!(matches!(err, VfsError::PermissionDenied(_)));
}
