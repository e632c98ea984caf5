//! The JSON forms of the core types.
pub mod budget;
pub mod capability;
pub mod exit;
pub mod journal;
pub mod memory;
pub mod provider;
pub mod tool;
pub mod vfs;
pub mod vfs_event;
