#![allow(unused_mut)]

use simulacra::types::{
    ArtifactEntry, ArtifactError, ArtifactStore, CapabilityToken, Cost, FsMetadata, ResourceBudget, VfsError,
    VfsSnapshot, VirtualFs,
};
use simulacra::vfs::{HookLister, IntegrationLister, MailboxFs, MemoryFs, ProcFs, ProcState, ServiceFs, ToolLister};
use std::cell::{Cell, RefCell};
use std::collections::BTreeMap;
use std::rc::Rc;
use std::time::Instant;

/// A handle on a filesystem in memory that several owners share.
#[derive(Clone)]
struct SharedFs {
    inner: Rc<RefCell<MemoryFs>>,
}

impl SharedFs {
    fn memory() -> Self {
        Self {
            inner: Rc::new(RefCell::new(MemoryFs::new())),
        }
    }
}

impl VirtualFs for SharedFs {
    fn read(&self, path: &str) -> Result<Vec<u8>, VfsError> {
        self.inner.borrow().read(path)
    }

    fn write(&mut self, path: &str, data: &[u8]) -> Result<(), VfsError> {
        self.inner.borrow_mut().write(path, data)
    }

    fn entry_exists(&self, path: &str) -> bool {
        self.inner.borrow().entry_exists(path)
    }

    fn list_dir(&self, path: &str) -> Result<Vec<String>, VfsError> {
        self.inner.borrow().list_dir(path)
    }

    fn mkdir(&mut self, path: &str) -> Result<(), VfsError> {
        self.inner.borrow_mut().mkdir(path)
    }

    fn remove(&mut self, path: &str) -> Result<(), VfsError> {
        self.inner.borrow_mut().remove(path)
    }

    fn metadata(&self, path: &str) -> Result<FsMetadata, VfsError> {
        self.inner.borrow().metadata(path)
    }

    fn snapshot(&self) -> Result<VfsSnapshot, VfsError> {
        self.inner.borrow().snapshot()
    }

    fn restore(&mut self, snapshot: &VfsSnapshot) -> Result<(), VfsError> {
        self.inner.borrow_mut().restore(snapshot)
    }
}

type ArtifactKey = (String, String, String);

/// A handle on a store that several owners share.
#[derive(Clone, Default)]
struct RecordingArtifactStore {
    files: Rc<RefCell<BTreeMap<ArtifactKey, Vec<u8>>>>,
    fail_put: Rc<Cell<bool>>,
}

impl RecordingArtifactStore {
    fn seed(&self, tenant: &str, task_id: &str, path: &str, data: &[u8]) {
        self.files.borrow_mut().insert(
            (tenant.to_string(), task_id.to_string(), path.to_string()),
            data.to_vec(),
        );
    }

    fn stored(&self, tenant: &str, task_id: &str, path: &str) -> Option<Vec<u8>> {
        self.files
            .borrow()
            .get(&(tenant.to_string(), task_id.to_string(), path.to_string()))
            .cloned()
    }

    fn fail_next_put(&self) {
        self.fail_put.set(true);
    }
}

impl ArtifactStore for RecordingArtifactStore {
    fn put(&mut self, task_id: &str, tenant: &str, path: &str, data: &[u8]) -> Result<(), ArtifactError> {
        if self.fail_put.replace(false) {
            return Err(ArtifactError::InvalidPath(path.to_string()));
        }
        self.seed(tenant, task_id, path, data);
        Ok(())
    }

    fn get(&self, tenant: &str, task_id: &str, path: &str) -> Result<Vec<u8>, ArtifactError> {
        self.stored(tenant, task_id, path)
            .ok_or_else(|| ArtifactError::NotFound(path.to_string()))
    }

    fn list(&self, tenant: &str, task_id: &str) -> Result<Vec<ArtifactEntry>, ArtifactError> {
        Ok(self
            .files
            .borrow()
            .iter()
            .filter(|((entry_tenant, entry_task, _), _)| entry_tenant == tenant && entry_task == task_id)
            .map(|((_, _, path), data)| ArtifactEntry {
                path: path.clone(),
                size: data.len() as u64,
            })
            .collect())
    }

    fn delete_task(&mut self, tenant: &str, task_id: &str) -> Result<(), ArtifactError> {
        self.files
            .borrow_mut()
            .retain(|(entry_tenant, entry_task, _), _| entry_tenant != tenant || entry_task != task_id);
        Ok(())
    }
}

struct StaticIntegrationLister;

impl IntegrationLister for StaticIntegrationLister {
    fn integration_names(&self) -> Vec<String> {
        vec!["toy-saas".to_string()]
    }

    fn integration_metadata(&self, name: &str) -> Option<String> {
        if name == "toy-saas" {
            Some(r#"{"base_url":"http://example.test"}"#.to_string())
        } else {
            None
        }
    }

    fn integration_readme(&self, name: &str) -> Option<String> {
        if name == "toy-saas" {
            Some("# Toy SaaS".to_string())
        } else {
            None
        }
    }

    fn integration_skill_names(&self, _name: &str) -> Vec<String> {
        vec![]
    }
}

struct EmptyToolLister;

impl ToolLister for EmptyToolLister {
    fn tool_names(&self) -> Vec<String> {
        vec![]
    }

    fn tool_json(&self, _name: &str) -> Option<String> {
        None
    }
}

struct EmptyHookLister;

impl HookLister for EmptyHookLister {
    fn hook_names(&self, _operation: &str) -> Vec<String> {
        vec![]
    }
}

type Mailbox = MailboxFs<SharedFs, RecordingArtifactStore>;

fn mailbox_fs(inner: SharedFs, store: RecordingArtifactStore) -> Mailbox {
    MailboxFs::new(inner, "task-123".to_string(), "tenant-a".to_string(), store)
}

fn composed_procfs(
    inner: SharedFs,
    store: RecordingArtifactStore,
) -> ProcFs<ServiceFs<Mailbox, StaticIntegrationLister>, EmptyToolLister, EmptyHookLister> {
    let mailbox = mailbox_fs(inner, store);
    let with_svc = ServiceFs::new(mailbox, StaticIntegrationLister);
    let state = ProcState {
        agent_id: "task-123".to_string(),
        agent_name: "worker".to_string(),
        model: "ollama:llama3".to_string(),
        parent_id: None,
        budget: ResourceBudget::new(8_192, 12, Cost::zero(), 0),
        capabilities: CapabilityToken::default(),
        tools: EmptyToolLister,
        session_id: "task-123".to_string(),
        session_start: Instant::now(),
        journal_entries: 0,
        hooks: EmptyHookLister,
        turn: 0,
    };
    ProcFs::new(with_svc, state)
}

fn read_string<V: VirtualFs>(vfs: &V, path: &str) -> String {
    String::from_utf8(vfs.read(path).unwrap()).unwrap()
}

fn assert_virtual_fs<T: VirtualFs>() {}

#[test]
fn mailbox_fs_implements_the_full_virtual_fs_trait() {
    assert_virtual_fs::<Mailbox>();
}

#[test]
fn mailbox_fs_stack_order_procfs_servicefs_mailboxfs_memoryfs_routes_mailbox_writes_to_the_store() {
    let mut inner = SharedFs::memory();
    let store = RecordingArtifactStore::default();
    let mut fs = composed_procfs(inner.clone(), store.clone());
    let vfs = &mut fs;

    vfs.write("/proc/mailbox/reports/q1-summary.md", b"pipeline summary")
        .unwrap();

    assert_eq!(
        store
            .stored("tenant-a", "task-123", "reports/q1-summary.md")
            .unwrap(),
        b"pipeline summary"
    );
    assert_eq!(
        read_string(vfs, "/svc/toy-saas/config.json"),
        r#"{"base_url":"http://example.test"}"#
    );
}

#[test]
fn write_to_proc_mailbox_persists_to_artifact_store_and_delegates_to_inner_vfs() {
    let mut inner = SharedFs::memory();
    let store = RecordingArtifactStore::default();
    let mut fs = mailbox_fs(inner.clone(), store.clone());
    let vfs = &mut fs;

    vfs.write("/proc/mailbox/summary.md", b"artifact body")
        .unwrap();

    assert_eq!(
        store.stored("tenant-a", "task-123", "summary.md").unwrap(),
        b"artifact body"
    );
    assert_eq!(
        inner.read("/proc/mailbox/summary.md").unwrap(),
        b"artifact body"
    );
}

#[test]
fn read_from_proc_mailbox_reads_from_artifact_store_as_the_authoritative_source() {
    let mut inner = SharedFs::memory();
    inner
        .write("/proc/mailbox/summary.md", b"stale inner copy")
        .unwrap();
    let store = RecordingArtifactStore::default();
    store.seed("tenant-a", "task-123", "summary.md", b"durable copy");
    let mut fs = mailbox_fs(inner, store);
    let vfs = &mut fs;

    assert_eq!(
        vfs.read("/proc/mailbox/summary.md").unwrap(),
        b"durable copy"
    );
}

#[test]
fn list_dir_on_proc_mailbox_returns_entries_from_the_artifact_store() {
    let mut inner = SharedFs::memory();
    let store = RecordingArtifactStore::default();
    store.seed("tenant-a", "task-123", "summary.md", b"top-level");
    store.seed("tenant-a", "task-123", "reports/q1.csv", b"q1");
    store.seed("tenant-a", "task-123", "reports/q2.csv", b"q2");
    let mut fs = mailbox_fs(inner, store);
    let vfs = &mut fs;

    let mut root = vfs.list_dir("/proc/mailbox").unwrap();
    root.sort();
    assert_eq!(root, vec!["reports", "summary.md"]);

    let mut nested = vfs.list_dir("/proc/mailbox/reports").unwrap();
    nested.sort();
    assert_eq!(nested, vec!["q1.csv", "q2.csv"]);
}

#[test]
fn exists_for_mailbox_paths_checks_the_artifact_store() {
    let mut inner = SharedFs::memory();
    let store = RecordingArtifactStore::default();
    store.seed("tenant-a", "task-123", "summary.md", b"body");
    let mut fs = mailbox_fs(inner, store);

    assert!(fs.entry_exists("/proc/mailbox/summary.md"));
    assert!(!fs.entry_exists("/proc/mailbox/missing.md"));
}

#[test]
fn mkdir_on_mailbox_paths_is_a_no_op_success() {
    let mut inner = SharedFs::memory();
    let store = RecordingArtifactStore::default();
    let mut fs = mailbox_fs(inner, store);
    let vfs = &mut fs;

    vfs.mkdir("/proc/mailbox/reports").unwrap();
    assert!(vfs.list_dir("/proc/mailbox").unwrap().is_empty());
}

#[test]
fn remove_on_mailbox_paths_returns_permission_denied() {
    let mut inner = SharedFs::memory();
    let store = RecordingArtifactStore::default();
    let mut fs = mailbox_fs(inner, store);
    let vfs = &mut fs;

    let err = vfs
        .remove("/proc/mailbox/summary.md")
        .expect_err("mailbox artifacts must be immutable once written");

    assert!(matches!(err, VfsError::PermissionDenied(_)));
}

#[test]
fn non_mailbox_paths_pass_through_to_the_inner_vfs_unchanged() {
    let mut inner = SharedFs::memory();
    let store = RecordingArtifactStore::default();
    let mut fs = mailbox_fs(inner.clone(), store);
    let vfs = &mut fs;

    vfs.write("/workspace/input.csv", b"vendor,amount").unwrap();

    assert_eq!(
        inner.read("/workspace/input.csv").unwrap(),
        b"vendor,amount"
    );
}

#[test]
fn nested_mailbox_paths_work_for_write_read_exists_and_listing() {
    let mut inner = SharedFs::memory();
    let store = RecordingArtifactStore::default();
    let mut fs = mailbox_fs(inner, store);
    let vfs = &mut fs;

    vfs.write("/proc/mailbox/reports/flagged/high-value.csv", b"id,amount")
        .unwrap();

    assert!(vfs.entry_exists("/proc/mailbox/reports/flagged/high-value.csv"));
    assert_eq!(
        vfs.read("/proc/mailbox/reports/flagged/high-value.csv")
            .unwrap(),
        b"id,amount"
    );

    let mut reports = vfs.list_dir("/proc/mailbox/reports").unwrap();
    reports.sort();
    assert_eq!(reports, vec!["flagged"]);
}

#[test]
fn artifacts_survive_vfs_drop_because_mailbox_fs_persists_to_durable_storage() {
    let store = RecordingArtifactStore::default();

    {
        let mut inner = SharedFs::memory();
        let mut fs = mailbox_fs(inner, store.clone());
        let vfs = &mut fs;
        vfs.write("/proc/mailbox/summary.md", b"persist me")
            .unwrap();
    }

    assert_eq!(
        store.stored("tenant-a", "task-123", "summary.md").unwrap(),
        b"persist me"
    );
}

#[test]
fn write_to_proc_mailbox_invokes_artifact_sink_with_full_path_tenant_and_size() {
    let mut inner = SharedFs::memory();
    let store = RecordingArtifactStore::default();

    let mut fs = MailboxFs::new(
        inner,
        "task-123".to_string(),
        "tenant-a".to_string(),
        store.clone(),
    )
    .with_artifact_sink();

    let vfs = &mut fs;
    vfs.write("/proc/mailbox/foo.md", b"hello world").unwrap();

    let recorded: Vec<(String, String, u64)> = fs
        .take_notices()
        .into_iter()
        .map(|notice| (notice.path, notice.tenant, notice.size))
        .collect();
    assert_eq!(
        recorded,
        vec![(
            "/proc/mailbox/foo.md".to_string(),
            "tenant-a".to_string(),
            "hello world".len() as u64
        )]
    );
}

#[test]
fn write_to_non_mailbox_path_does_not_invoke_artifact_sink() {
    let mut inner = SharedFs::memory();
    let store = RecordingArtifactStore::default();

    let mut fs = MailboxFs::new(
        inner,
        "task-123".to_string(),
        "tenant-a".to_string(),
        store.clone(),
    )
    .with_artifact_sink();

    let vfs = &mut fs;
    vfs.write("/workspace/x.md", b"not a mailbox write")
        .unwrap();

    assert!(
        fs.take_notices().is_empty(),
        "sink must not fire for non-mailbox paths"
    );
}

#[test]
fn failed_artifact_store_put_does_not_invoke_artifact_sink() {
    let mut inner = SharedFs::memory();
    let store = RecordingArtifactStore::default();
    store.fail_next_put();

    let mut fs = MailboxFs::new(
        inner,
        "task-123".to_string(),
        "tenant-a".to_string(),
        store.clone(),
    )
    .with_artifact_sink();

    let vfs = &mut fs;
    let err = vfs
        .write("/proc/mailbox/foo.md", b"data")
        .expect_err("write should propagate the store error");
    assert!(matches!(err, VfsError::Io(_)));

    assert!(
        fs.take_notices().is_empty(),
        "sink must not fire when store.put fails"
    );
}
