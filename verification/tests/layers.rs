#![allow(unused_mut)]

use simulacra::types::{FsMetadata, VfsError, VfsSnapshot, VirtualFs};
use simulacra::vfs::{MemoryFs, OverlayFs, ReadOnlyPathGuard};
use std::cell::RefCell;
use std::rc::Rc;

/// A handle on a filesystem in memory that several owners share.
#[derive(Clone)]
struct SharedFs {
    inner: Rc<RefCell<MemoryFs>>,
}

impl SharedFs {
    fn memory() -> Self {
        Self {
            inner: Rc::new(RefCell::new(MemoryFs::new())),
        }
    }
}

impl VirtualFs for SharedFs {
    fn read(&self, path: &str) -> Result<Vec<u8>, VfsError> {
        self.inner.borrow().read(path)
    }

    fn write(&mut self, path: &str, data: &[u8]) -> Result<(), VfsError> {
        self.inner.borrow_mut().write(path, data)
    }

    fn entry_exists(&self, path: &str) -> bool {
        self.inner.borrow().entry_exists(path)
    }

    fn list_dir(&self, path: &str) -> Result<Vec<String>, VfsError> {
        self.inner.borrow().list_dir(path)
    }

    fn mkdir(&mut self, path: &str) -> Result<(), VfsError> {
        self.inner.borrow_mut().mkdir(path)
    }

    fn remove(&mut self, path: &str) -> Result<(), VfsError> {
        self.inner.borrow_mut().remove(path)
    }

    fn metadata(&self, path: &str) -> Result<FsMetadata, VfsError> {
        self.inner.borrow().metadata(path)
    }

    fn snapshot(&self) -> Result<VfsSnapshot, VfsError> {
        self.inner.borrow().snapshot()
    }

    fn restore(&mut self, snapshot: &VfsSnapshot) -> Result<(), VfsError> {
        self.inner.borrow_mut().restore(snapshot)
    }
}

#[test]
fn core_write_then_read_roundtrip_returns_identical_bytes() {
    let mut fs = SharedFs::memory();
    let vfs = &mut fs;
    let data = b"roundtrip bytes \0 with punctuation!";

    vfs.write("/artifacts/output.bin", data).unwrap();

    let roundtrip = vfs.read("/artifacts/output.bin").unwrap();
    assert_eq!(roundtrip, data);
}

#[test]
fn tests_write_then_read_roundtrip_returns_identical_bytes() {
    core_write_then_read_roundtrip_returns_identical_bytes();
}

#[test]
fn core_snapshot_then_restore_is_a_no_op() {
    let mut fs = SharedFs::memory();
    let vfs = &mut fs;

    vfs.write("/alpha.txt", b"alpha").unwrap();
    vfs.write("/nested/beta.txt", b"beta").unwrap();
    let snapshot = vfs.snapshot().unwrap();

    vfs.write("/alpha.txt", b"mutated").unwrap();
    vfs.remove("/nested").unwrap();
    vfs.write("/new.txt", b"new").unwrap();

    vfs.restore(&snapshot).unwrap();

    let restored = vfs.snapshot().unwrap();
    assert_eq!(restored.data, snapshot.data);
    assert_eq!(vfs.read("/alpha.txt").unwrap(), b"alpha");
    assert_eq!(vfs.read("/nested/beta.txt").unwrap(), b"beta");
    assert!(matches!(vfs.read("/new.txt"), Err(VfsError::NotFound(_))));
}

#[test]
fn tests_snapshot_then_restore_is_a_no_op() {
    core_snapshot_then_restore_is_a_no_op();
}

#[test]
fn core_list_dir_on_nonexistent_path_returns_error_not_empty_list() {
    let mut fs = SharedFs::memory();
    let vfs = &mut fs;

    assert!(matches!(
        vfs.list_dir("/does/not/exist"),
        Err(VfsError::NotFound(_))
    ));
}

#[test]
fn tests_list_dir_on_nonexistent_path_returns_error_not_empty_list() {
    core_list_dir_on_nonexistent_path_returns_error_not_empty_list();
}

#[test]
fn core_metadata_returns_correct_size_after_write() {
    let mut fs = SharedFs::memory();
    let vfs = &mut fs;
    let data = b"1234567890";

    vfs.write("/sizes/payload.bin", data).unwrap();

    let metadata = vfs.metadata("/sizes/payload.bin").unwrap();
    assert!(metadata.is_file);
    assert!(!metadata.is_dir);
    assert_eq!(metadata.size, data.len() as u64);
}

#[test]
fn tests_metadata_returns_correct_size_after_write() {
    core_metadata_returns_correct_size_after_write();
}

#[test]
fn core_list_dir_returns_entries_sorted_by_name() {
    let mut fs = SharedFs::memory();
    let vfs = &mut fs;

    vfs.write("/dir/c.txt", b"").unwrap();
    vfs.write("/dir/a.txt", b"").unwrap();
    vfs.write("/dir/b.txt", b"").unwrap();

    let entries = vfs.list_dir("/dir").unwrap();
    assert_eq!(entries, vec!["a.txt", "b.txt", "c.txt"]);
}

#[test]
fn tests_list_dir_returns_entries_sorted_by_name() {
    core_list_dir_returns_entries_sorted_by_name();
}

#[test]
fn core_write_creates_parent_directories_implicitly() {
    let mut fs = SharedFs::memory();
    let vfs = &mut fs;

    vfs.write("/a/b/c/file.txt", b"content").unwrap();

    assert!(vfs.entry_exists("/a"));
    assert!(vfs.entry_exists("/a/b"));
    assert!(vfs.entry_exists("/a/b/c"));
    assert!(vfs.entry_exists("/a/b/c/file.txt"));

    let entries = vfs.list_dir("/a/b").unwrap();
    assert_eq!(entries, vec!["c"]);
}

#[test]
fn tests_write_creates_parent_directories_implicitly() {
    core_write_creates_parent_directories_implicitly();
}

#[test]
fn core_remove_nonexistent_path_returns_not_found_error() {
    let mut fs = SharedFs::memory();
    let vfs = &mut fs;

    let result = vfs.remove("/does/not/exist.txt");
    assert!(
        matches!(result, Err(VfsError::NotFound(_))),
        "remove() on non-existent path should return NotFound, got {result:?}"
    );
}

#[test]
fn tests_remove_nonexistent_path_returns_not_found_error() {
    core_remove_nonexistent_path_returns_not_found_error();
}

#[test]
fn dotdot_at_root_resolves_to_root() {
    let cases: [&[&str]; 4] = [&["a"], &["alpha", "b"], &["x", "yy", "zzz"], &["abcdefgh", "q"]];
    for climbs in 1..8 {
        for segments in cases {
            let mut fs = SharedFs::memory();
            let canonical_path = format!("/{}", segments.join("/"));
            let traversed_path = format!("/{}{}/./", "../".repeat(climbs), segments.join("//"));
            let payload = canonical_path.as_bytes().to_vec();

            fs.write(&canonical_path, &payload).unwrap();

            let read_back = fs.read(&traversed_path).unwrap();
            assert_eq!(read_back, payload);
        }
    }
}

#[test]
fn overlay_overlay_write_to_upper_does_not_mutate_lower() {
    let lower = SharedFs::memory();
    let upper = SharedFs::memory();
    let mut lower_view = lower.clone();
    lower_view.write("/shared.txt", b"lower").unwrap();

    let mut overlay = OverlayFs::new(lower.clone(), upper);
    let vfs = &mut overlay;

    vfs.write("/shared.txt", b"upper").unwrap();

    assert_eq!(vfs.read("/shared.txt").unwrap(), b"upper");
    assert_eq!(lower_view.read("/shared.txt").unwrap(), b"lower");
}

#[test]
fn tests_overlay_write_to_upper_does_not_mutate_lower() {
    overlay_overlay_write_to_upper_does_not_mutate_lower();
}

#[test]
fn overlay_overlay_read_falls_through_to_lower_when_upper_has_no_entry() {
    let lower = SharedFs::memory();
    let upper = SharedFs::memory();
    let mut lower_view = lower.clone();
    lower_view.write("/from-lower.txt", b"lower-layer").unwrap();

    let mut overlay = OverlayFs::new(lower, upper);
    let vfs = &mut overlay;

    assert_eq!(vfs.read("/from-lower.txt").unwrap(), b"lower-layer");
}

#[test]
fn tests_overlay_read_falls_through_to_lower_when_upper_has_no_entry() {
    overlay_overlay_read_falls_through_to_lower_when_upper_has_no_entry();
}

#[test]
fn overlay_overlay_delete_in_upper_shadows_lower_entry() {
    let lower = SharedFs::memory();
    let upper = SharedFs::memory();
    let mut lower_view = lower.clone();
    lower_view.write("/masked.txt", b"still in lower").unwrap();

    let mut overlay = OverlayFs::new(lower.clone(), upper);
    let vfs = &mut overlay;

    vfs.remove("/masked.txt").unwrap();

    assert!(matches!(
        vfs.read("/masked.txt"),
        Err(VfsError::NotFound(_))
    ));
    assert!(!vfs.entry_exists("/masked.txt"));
    assert_eq!(lower_view.read("/masked.txt").unwrap(), b"still in lower");
}

#[test]
fn tests_overlay_delete_in_upper_shadows_lower_entry() {
    overlay_overlay_delete_in_upper_shadows_lower_entry();
}

#[test]
fn overlay_overlay_write_implicitly_revives_whited_out_ancestor() {
    let lower = SharedFs::memory();
    let upper = SharedFs::memory();
    let mut lower_vfs = lower.clone();
    lower_vfs.write("/dir/old.txt", b"old").unwrap();

    let mut overlay = OverlayFs::new(lower.clone(), upper);
    let vfs = &mut overlay;

    vfs.remove("/dir").unwrap();
    assert!(!vfs.entry_exists("/dir/old.txt"));

    vfs.write("/dir/new.txt", b"new content").unwrap();

    let content = vfs.read("/dir/new.txt");
    assert!(
        content.is_ok(),
        "Should be able to read file after writing to deleted directory, got {:?}",
        content.err()
    );
    assert_eq!(content.unwrap(), b"new content");
}

#[test]
fn tests_overlay_write_implicitly_revives_whited_out_ancestor() {
    overlay_overlay_write_implicitly_revives_whited_out_ancestor();
}

#[test]
fn overlay_overlay_snapshot_then_restore_preserves_whiteout_state() {
    let lower = SharedFs::memory();
    let upper = SharedFs::memory();
    let mut lower_view = lower.clone();
    lower_view.write("/visible.txt", b"data").unwrap();

    let mut overlay = OverlayFs::new(lower.clone(), upper);
    let vfs = &mut overlay;

    vfs.remove("/visible.txt").unwrap();
    assert!(!vfs.entry_exists("/visible.txt"));

    let snapshot = vfs.snapshot().unwrap();

    vfs.write("/visible.txt", b"revived").unwrap();
    assert!(vfs.entry_exists("/visible.txt"));

    vfs.restore(&snapshot).unwrap();
    assert!(
        !vfs.entry_exists("/visible.txt"),
        "whiteout should survive snapshot/restore — /visible.txt should remain deleted"
    );
}

#[test]
fn tests_overlay_snapshot_then_restore_preserves_whiteout_state() {
    overlay_overlay_snapshot_then_restore_preserves_whiteout_state();
}

#[test]
fn overlay_overlay_list_dir_merges_upper_and_lower_entries() {
    let lower = SharedFs::memory();
    let upper = SharedFs::memory();
    let mut lower_vfs = lower.clone();
    let mut upper_vfs = upper.clone();

    lower_vfs.write("/dir/from_lower.txt", b"l").unwrap();
    upper_vfs.write("/dir/from_upper.txt", b"u").unwrap();

    let mut overlay = OverlayFs::new(lower, upper);
    let vfs = &mut overlay;

    let entries = vfs.list_dir("/dir").unwrap();
    assert!(
        entries.contains(&"from_lower.txt".to_string()),
        "list_dir should include lower entries: {entries:?}"
    );
    assert!(
        entries.contains(&"from_upper.txt".to_string()),
        "list_dir should include upper entries: {entries:?}"
    );
}

#[test]
fn tests_overlay_list_dir_merges_upper_and_lower_entries() {
    overlay_overlay_list_dir_merges_upper_and_lower_entries();
}

#[test]
fn overlay_overlay_list_dir_returns_sorted_entries() {
    let lower = SharedFs::memory();
    let upper = SharedFs::memory();
    let mut lower_vfs = lower.clone();
    let mut upper_vfs = upper.clone();

    lower_vfs.write("/dir/zebra.txt", b"z").unwrap();
    lower_vfs.write("/dir/alpha.txt", b"a").unwrap();
    upper_vfs.write("/dir/middle.txt", b"m").unwrap();

    let mut overlay = OverlayFs::new(lower, upper);
    let vfs = &mut overlay;

    let entries = vfs.list_dir("/dir").unwrap();
    assert_eq!(entries, vec!["alpha.txt", "middle.txt", "zebra.txt"]);
}

#[test]
fn tests_overlay_list_dir_returns_sorted_entries() {
    overlay_overlay_list_dir_returns_sorted_entries();
}

#[test]
fn overlay_overlay_list_dir_deduplicates_entries_present_in_both_layers() {
    let lower = SharedFs::memory();
    let upper = SharedFs::memory();
    let mut lower_vfs = lower.clone();
    let mut upper_vfs = upper.clone();

    lower_vfs.write("/dir/shared.txt", b"lower").unwrap();
    upper_vfs.write("/dir/shared.txt", b"upper").unwrap();

    let mut overlay = OverlayFs::new(lower, upper);
    let vfs = &mut overlay;

    let entries = vfs.list_dir("/dir").unwrap();
    let count = entries.iter().filter(|e| *e == "shared.txt").count();
    assert_eq!(
        count, 1,
        "shared.txt should appear exactly once, got {entries:?}"
    );
}

#[test]
fn tests_overlay_list_dir_deduplicates_entries_present_in_both_layers() {
    overlay_overlay_list_dir_deduplicates_entries_present_in_both_layers();
}

#[test]
fn overlay_overlay_list_dir_excludes_whited_out_entries() {
    let lower = SharedFs::memory();
    let upper = SharedFs::memory();
    let mut lower_vfs = lower.clone();

    lower_vfs.write("/dir/keep.txt", b"keep").unwrap();
    lower_vfs.write("/dir/delete.txt", b"delete").unwrap();

    let mut overlay = OverlayFs::new(lower, upper);
    let vfs = &mut overlay;

    vfs.remove("/dir/delete.txt").unwrap();

    let entries = vfs.list_dir("/dir").unwrap();
    assert!(
        entries.contains(&"keep.txt".to_string()),
        "keep.txt should remain: {entries:?}"
    );
    assert!(
        !entries.contains(&"delete.txt".to_string()),
        "deleted entry should not appear: {entries:?}"
    );
}

#[test]
fn tests_overlay_list_dir_excludes_whited_out_entries() {
    overlay_overlay_list_dir_excludes_whited_out_entries();
}

#[test]
fn overlay_overlay_list_dir_on_whited_out_directory_returns_not_found() {
    let lower = SharedFs::memory();
    let upper = SharedFs::memory();
    let mut lower_vfs = lower.clone();

    lower_vfs.write("/dir/file.txt", b"data").unwrap();

    let mut overlay = OverlayFs::new(lower, upper);
    let vfs = &mut overlay;

    vfs.remove("/dir").unwrap();

    assert!(matches!(vfs.list_dir("/dir"), Err(VfsError::NotFound(_))));
}

#[test]
fn tests_overlay_list_dir_on_whited_out_directory_returns_not_found() {
    overlay_overlay_list_dir_on_whited_out_directory_returns_not_found();
}

#[test]
fn overlay_overlay_list_dir_upper_only_directory() {
    let lower = SharedFs::memory();
    let upper = SharedFs::memory();
    let mut upper_vfs = upper.clone();

    upper_vfs.write("/upper_only/file.txt", b"data").unwrap();

    let mut overlay = OverlayFs::new(lower, upper);
    let vfs = &mut overlay;

    let entries = vfs.list_dir("/upper_only").unwrap();
    assert_eq!(entries, vec!["file.txt"]);
}

#[test]
fn tests_overlay_list_dir_upper_only_directory() {
    overlay_overlay_list_dir_upper_only_directory();
}

#[test]
fn overlay_overlay_list_dir_lower_only_directory() {
    let lower = SharedFs::memory();
    let upper = SharedFs::memory();
    let mut lower_vfs = lower.clone();

    lower_vfs.write("/lower_only/file.txt", b"data").unwrap();

    let mut overlay = OverlayFs::new(lower, upper);
    let vfs = &mut overlay;

    let entries = vfs.list_dir("/lower_only").unwrap();
    assert_eq!(entries, vec!["file.txt"]);
}

#[test]
fn tests_overlay_list_dir_lower_only_directory() {
    overlay_overlay_list_dir_lower_only_directory();
}

#[test]
fn overlay_overlay_list_dir_nonexistent_directory_returns_error() {
    let lower = SharedFs::memory();
    let upper = SharedFs::memory();

    let mut overlay = OverlayFs::new(lower, upper);
    let vfs = &mut overlay;

    assert!(matches!(
        vfs.list_dir("/nonexistent"),
        Err(VfsError::NotFound(_))
    ));
}

#[test]
fn tests_overlay_list_dir_nonexistent_directory_returns_error() {
    overlay_overlay_list_dir_nonexistent_directory_returns_error();
}

#[test]
fn write_rejects_normalized_paths_inside_locked_prefix() {
    let mut fs = SharedFs::memory();
    fs.write("/skills/runbook/SKILL.md", b"original").unwrap();
    let mut guarded = ReadOnlyPathGuard::new(fs, "/skills");

    let err = guarded
        .write("/workspace/../skills/runbook/SKILL.md", b"tampered")
        .expect_err("normalized path inside locked prefix must be read-only");

    assert!(matches!(err, VfsError::PermissionDenied(_)));
}
