use simulacra::types::vfs::deliver;
use simulacra::types::{
    Delivery, FsMetadata, MemoryCapability, MemoryPath, MemoryVersion, Received, TenantId, VfsError, VfsEvent,
    VfsSnapshot, VirtualFs,
};
use simulacra::vfs::memory_store_fs::forward_memory_event;
use simulacra::vfs::{MemoryError, MemoryEvent, MemoryFs, MemoryStore, MemoryStoreFs, NotifyingFsLayer};

fn tenant_id() -> TenantId {
    TenantId::parse("tenant-a").unwrap()
}

/// A filesystem on which every operation fails.
struct FailingFs;

fn failing() -> VfsError {
    VfsError::Io("failing fs".to_string())
}

impl VirtualFs for FailingFs {
    fn read(&self, _path: &str) -> Result<Vec<u8>, VfsError> {
        Err(failing())
    }

    fn write(&mut self, _path: &str, _data: &[u8]) -> Result<(), VfsError> {
        Err(failing())
    }

    fn entry_exists(&self, _path: &str) -> bool {
        false
    }

    fn list_dir(&self, _path: &str) -> Result<Vec<String>, VfsError> {
        Err(failing())
    }

    fn mkdir(&mut self, _path: &str) -> Result<(), VfsError> {
        Err(failing())
    }

    fn remove(&mut self, _path: &str) -> Result<(), VfsError> {
        Err(failing())
    }

    fn metadata(&self, _path: &str) -> Result<FsMetadata, VfsError> {
        Err(failing())
    }

    fn snapshot(&self) -> Result<VfsSnapshot, VfsError> {
        Err(failing())
    }

    fn restore(&mut self, _snapshot: &VfsSnapshot) -> Result<(), VfsError> {
        Err(failing())
    }
}

fn written(path: &str, len: u64) -> VfsEvent {
    VfsEvent::Written {
        tenant: tenant_id(),
        path: path.to_string(),
        len,
    }
}

fn removed(path: &str) -> VfsEvent {
    VfsEvent::Removed {
        tenant: tenant_id(),
        path: path.to_string(),
    }
}

#[test]
fn for_tenant_constructor_supports_default_and_custom_capacity() {
    let mut layer = NotifyingFsLayer::for_tenant(tenant_id(), MemoryFs::new());
    let custom = NotifyingFsLayer::for_tenant_with_capacity(tenant_id(), MemoryFs::new(), 4);
    assert_eq!(layer.capacity(), 256);
    assert_eq!(custom.capacity(), 4);
    assert!(layer.take_events().is_empty());
}

#[test]
fn successful_write_publishes_written_event_with_byte_len() {
    let mut layer = NotifyingFsLayer::for_tenant(tenant_id(), MemoryFs::new());
    layer.write("/foo/bar.txt", b"hello").unwrap();
    assert_eq!(layer.take_events(), vec![written("/foo/bar.txt", 5)]);
    assert!(layer.take_events().is_empty());
}

#[test]
fn empty_payload_write_publishes_written_event_with_len_zero() {
    let mut layer = NotifyingFsLayer::for_tenant(tenant_id(), MemoryFs::new());
    layer.write("/foo/empty.txt", b"").unwrap();
    assert_eq!(layer.take_events(), vec![written("/foo/empty.txt", 0)]);
}

#[test]
fn successful_remove_publishes_removed_event_after_written() {
    let mut layer = NotifyingFsLayer::for_tenant(tenant_id(), MemoryFs::new());
    layer.write("/foo/bar.txt", b"hello").unwrap();
    layer.remove("/foo/bar.txt").unwrap();
    assert_eq!(
        layer.take_events(),
        vec![written("/foo/bar.txt", 5), removed("/foo/bar.txt")]
    );
}

#[test]
fn failing_write_publishes_no_event() {
    let mut layer = NotifyingFsLayer::for_tenant(tenant_id(), FailingFs);
    assert!(layer.write("/foo/bar.txt", b"hello").is_err());
    assert!(layer.take_events().is_empty());
}

#[test]
fn failing_remove_publishes_no_event() {
    let mut layer = NotifyingFsLayer::for_tenant(tenant_id(), FailingFs);
    assert!(layer.remove("/foo/bar.txt").is_err());
    assert!(layer.take_events().is_empty());
}

#[test]
fn directories_are_made_without_an_event() {
    let mut layer = NotifyingFsLayer::for_tenant(tenant_id(), MemoryFs::new());
    layer.mkdir("/foo").unwrap();
    assert!(layer.take_events().is_empty());
}

#[test]
fn notifying_layer_filters_events_by_prefix() {
    let mut layer = NotifyingFsLayer::for_tenant(tenant_id(), MemoryFs::new());
    layer.write("/foo/bar.txt", b"foo").unwrap();
    layer.write("/baz/qux.txt", b"baz").unwrap();
    let mut delivered = Vec::new();
    for event in layer.take_events() {
        match deliver(Received::Event(event), "/foo") {
            Delivery::Deliver(event) => delivered.push(event),
            Delivery::Ignore => {}
            Delivery::End => panic!("the channel is still open"),
        }
    }
    assert_eq!(delivered, vec![written("/foo/bar.txt", 3)]);
}

#[test]
fn same_path_writes_are_observed_in_order_modulo_skipped() {
    let mut layer = NotifyingFsLayer::for_tenant(tenant_id(), MemoryFs::new());
    layer.write("/foo/bar.txt", b"A").unwrap();
    layer.write("/foo/bar.txt", b"BB").unwrap();
    layer.write("/foo/bar.txt", b"CCC").unwrap();
    assert_eq!(
        layer.take_events(),
        vec![
            written("/foo/bar.txt", 1),
            written("/foo/bar.txt", 2),
            written("/foo/bar.txt", 3)
        ]
    );
}

#[test]
fn each_layer_in_a_stack_emits_one_event_per_write_to_its_own_subscriber() {
    let inner = NotifyingFsLayer::for_tenant(tenant_id(), MemoryFs::new());
    let mut outer = NotifyingFsLayer::for_tenant(tenant_id(), inner);
    outer.write("/foo/bar.txt", b"hello").unwrap();
    assert_eq!(outer.take_events(), vec![written("/foo/bar.txt", 5)]);
    assert_eq!(outer.inner().inner().read("/foo/bar.txt").unwrap(), b"hello");
}

#[test]
fn vfs_watcher_recv_filters_prefixes_and_surfaces_skipped_events() {
    assert!(matches!(
        deliver(Received::Event(written("/baz/qux.txt", 4)), "/foo"),
        Delivery::Ignore
    ));
    assert!(matches!(
        deliver(Received::Event(VfsEvent::Skipped { count: 2 }), "/foo"),
        Delivery::Deliver(VfsEvent::Skipped { count: 2 })
    ));
    assert!(matches!(
        deliver(Received::Lagged(7), "/foo"),
        Delivery::Deliver(VfsEvent::Skipped { count: 7 })
    ));
    assert!(matches!(deliver(Received::Closed, "/foo"), Delivery::End));
}

#[test]
fn empty_prefix_is_equivalent_to_root_for_vfs_watchers() {
    for prefix in ["", "/"] {
        assert!(matches!(
            deliver(Received::Event(written("/foo/bar.txt", 3)), prefix),
            Delivery::Deliver(VfsEvent::Written { len: 3, .. })
        ));
    }
}

/// A store that holds nothing and takes everything.
struct NullStore;

fn nothing(path: &MemoryPath) -> MemoryError {
    MemoryError::NotFound {
        path: path.as_str().to_string(),
        message: "nothing is kept".to_string(),
    }
}

impl MemoryStore for NullStore {
    fn put(&mut self, _tenant: &TenantId, _path: &MemoryPath, _data: &[u8]) -> Result<MemoryVersion, MemoryError> {
        Ok(MemoryVersion(7))
    }

    fn get(&self, _tenant: &TenantId, path: &MemoryPath) -> Result<(Vec<u8>, MemoryVersion), MemoryError> {
        Err(nothing(path))
    }

    fn entry_exists(&self, _tenant: &TenantId, _path: &MemoryPath) -> Result<bool, MemoryError> {
        Ok(false)
    }

    fn list_prefix(&self, _tenant: &TenantId, _prefix: &MemoryPath) -> Result<Vec<MemoryPath>, MemoryError> {
        Ok(vec![])
    }

    fn delete(&mut self, _tenant: &TenantId, path: &MemoryPath) -> Result<MemoryVersion, MemoryError> {
        Err(nothing(path))
    }
}

fn capability() -> MemoryCapability {
    MemoryCapability {
        enabled: true,
        search_scopes: vec![MemoryPath::parse("/var/memory").unwrap()],
        write_scopes: vec![MemoryPath::parse("/var/memory").unwrap()],
    }
}

#[test]
fn tenant_isolation_holds_across_memory_store_and_notifying_stack() {
    let other = TenantId::parse("tenant-b").unwrap();
    let mut a = NotifyingFsLayer::for_tenant(
        tenant_id(),
        MemoryStoreFs::new(MemoryFs::new(), tenant_id(), NullStore, capability()),
    );
    let mut b = NotifyingFsLayer::for_tenant(
        other.clone(),
        MemoryStoreFs::new(MemoryFs::new(), other.clone(), NullStore, capability()),
    );
    a.write("/var/memory/a.md", b"a").unwrap();
    b.write("/var/memory/b.md", b"b").unwrap();
    assert_eq!(a.take_events(), vec![written("/var/memory/a.md", 1)]);
    assert_eq!(
        b.take_events(),
        vec![VfsEvent::Written {
            tenant: other,
            path: "/var/memory/b.md".to_string(),
            len: 1
        }]
    );
}

#[test]
fn memory_events_of_other_tenants_are_not_forwarded() {
    let path = MemoryPath::parse("/var/memory/self/note.md").unwrap();
    let own = MemoryEvent::Put {
        tenant: tenant_id(),
        path: path.clone(),
        bytes_len: 9,
    };
    assert_eq!(
        forward_memory_event(&tenant_id(), own),
        Some(written("/var/memory/self/note.md", 9))
    );
    let gone = MemoryEvent::Delete {
        tenant: tenant_id(),
        path: path.clone(),
    };
    assert_eq!(
        forward_memory_event(&tenant_id(), gone),
        Some(removed("/var/memory/self/note.md"))
    );
    let foreign = MemoryEvent::Delete {
        tenant: TenantId::parse("tenant-b").unwrap(),
        path,
    };
    assert_eq!(forward_memory_event(&tenant_id(), foreign), None);
}

#[test]
fn writes_to_memory_are_recorded_where_a_record_is_kept() {
    let mut fs = MemoryStoreFs::new(MemoryFs::new(), tenant_id(), NullStore, capability()).with_rrwb();
    fs.write("/var/memory/self/note.md", b"hello").unwrap();
    fs.write("/workspace/x.txt", b"plain").unwrap();
    let recent = fs.take_recent();
    assert_eq!(recent.len(), 1);
    assert_eq!(recent[0].path.as_str(), "/var/memory/self/note.md");
    assert_eq!(recent[0].version, MemoryVersion(7));
    assert_eq!(recent[0].data, b"hello");

    let mut plain = MemoryStoreFs::new(MemoryFs::new(), tenant_id(), NullStore, capability());
    plain.write("/var/memory/self/note.md", b"hello").unwrap();
    assert!(plain.take_recent().is_empty());
}

#[test]
fn vfs_event_variants_are_constructible_with_their_payload_fields() {
    let tenant = tenant_id();
    let written = VfsEvent::Written {
        tenant: tenant.clone(),
        path: "/foo/bar.txt".to_string(),
        len: 7,
    };
    let removed = VfsEvent::Removed {
        tenant,
        path: "/foo/bar.txt".to_string(),
    };
    let skipped = VfsEvent::Skipped { count: 3 };
    assert!(matches!(written, VfsEvent::Written { len: 7, .. }));
    assert!(matches!(removed, VfsEvent::Removed { .. }));
    assert!(matches!(skipped, VfsEvent::Skipped { count: 3 }));
}
