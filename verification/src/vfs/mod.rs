//! Filesystems: in memory, layered, and virtual.
pub mod agreement_laws;
pub mod failure_laws;
pub mod layer_laws;
pub mod listing;
pub mod made_laws;
pub mod mailboxfs;
pub mod memory_fs;
pub mod memory_laws;
pub mod memory_store_fs;
pub mod memory_store_laws;
pub mod mount;
pub mod mount_copy;
pub mod mount_copy_laws;
pub mod mount_laws;
pub mod mount_run;
pub mod mount_run_laws;
pub mod notifying;
pub mod overlay;
pub mod overlay_laws;
pub mod proc_laws;
pub mod procfs;
pub mod readonly_path_guard;
pub mod servicefs;
pub mod store_laws;
pub mod synthetic;

pub use mailboxfs::{ArtifactNotice, MailboxFs};
pub use memory_fs::MemoryFs;
pub use memory_store_fs::{MemoryError, MemoryEvent, MemoryStore, MemoryStoreFs, RecentWrite};
pub use mount::{detect_project_root, MountError};
pub use notifying::NotifyingFsLayer;
pub use overlay::OverlayFs;
pub use procfs::{HookLister, ProcFs, ProcState, ToolLister};
pub use readonly_path_guard::ReadOnlyPathGuard;
pub use servicefs::{IntegrationLister, ServiceFs};
