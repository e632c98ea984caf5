//! The virtual filesystem: its errors, its events, and what every filesystem does.
use crate::path::{is_under, trim_slashes, under, without_trailing_slashes};
use crate::text::{concat, copy, strip_suffix, texts};
use crate::types::memory::TenantId;
use vstd::prelude::*;
use vstd::string::*;

verus! {

broadcast use vstd::seq_lib::group_seq_properties;

/// Metadata about a file or directory in the virtual filesystem.
#[derive(Debug, Clone, Copy, PartialEq, Eq)]
pub struct FsMetadata {
    pub is_file: bool,
    pub is_dir: bool,
    pub size: u64,
}

/// The metadata of a directory.
pub open spec fn directory() -> FsMetadata {
    FsMetadata { is_file: false, is_dir: true, size: 0 }
}

/// The metadata of a file of `len` bytes.
pub open spec fn file_of(len: nat) -> FsMetadata {
    FsMetadata { is_file: true, is_dir: false, size: len as u64 }
}

impl FsMetadata {
    /// The metadata of a directory.
    pub fn dir() -> (r: FsMetadata)
        ensures
            r == directory(),
    {
        FsMetadata { is_file: false, is_dir: true, size: 0 }
    }

    /// The metadata of a file of `len` bytes.
    pub fn file(len: usize) -> (r: FsMetadata)
        ensures
            r == file_of(len as nat),
    {
        FsMetadata { is_file: true, is_dir: false, size: len as u64 }
    }
}

/// A serializable snapshot of all filesystem state.
#[derive(Debug, Clone, PartialEq, Eq)]
pub struct VfsSnapshot {
    pub data: Vec<u8>,
}

/// A change of a filesystem, as its watchers see it.
#[derive(Debug, Clone, PartialEq, Eq)]
pub enum VfsEvent {
    /// A file was written.
    Written { tenant: TenantId, path: String, len: u64 },
    /// An entry was removed.
    Removed { tenant: TenantId, path: String },
    /// The watcher was too slow and missed `count` events.
    Skipped { count: u64 },
}

/// What an event says.
#[verifier::ext_equal]
pub enum VfsEventView {
    Written { tenant: Seq<char>, path: Seq<char>, len: u64 },
    Removed { tenant: Seq<char>, path: Seq<char> },
    Skipped { count: u64 },
}

impl View for VfsEvent {
    type V = VfsEventView;

    open spec fn view(&self) -> VfsEventView {
        match self {
            VfsEvent::Written { tenant, path, len } => VfsEventView::Written {
                tenant: tenant@,
                path: path@,
                len: *len,
            },
            VfsEvent::Removed { tenant, path } => VfsEventView::Removed { tenant: tenant@, path: path@ },
            VfsEvent::Skipped { count } => VfsEventView::Skipped { count: *count },
        }
    }
}

/// `path` is under `prefix` for a watcher: the empty prefix, and any of slashes only, takes
/// every path; any other one, without the slash at its end, takes itself and what goes on
/// after it with a slash.
pub open spec fn watched(path: Seq<char>, prefix: Seq<char>) -> bool {
    ||| trim_slashes(prefix).len() == 0
    ||| under(
        path,
        if "/"@.is_suffix_of(prefix) {
            prefix.drop_last()
        } else {
            prefix
        },
    )
}

/// Returns true if `path` is "under" `prefix` for a watcher, by whole segments:
/// `/foo` accepts `/foo` and `/foo/bar` but not `/foobar`.
pub fn path_matches_prefix(path: &str, prefix: &str) -> (r: bool)
    ensures
        r == watched(path@, prefix@),
{
    if without_trailing_slashes(prefix).as_str().is_empty() {
        return true;
    }
    proof {
        reveal_strlit("/");
        assert(prefix@.take(prefix@.len() - 1) =~= prefix@.drop_last());
    }
    match strip_suffix(prefix, "/") {
        Some(stripped) => is_under(path, stripped),
        None => is_under(path, prefix),
    }
}

/// What comes out of the channel of a watcher.
#[derive(Debug)]
pub enum Received {
    /// An event.
    Event(VfsEvent),
    /// The watcher was too slow; so many events are gone.
    Lagged(u64),
    /// Nobody publishes any more.
    Closed,
}

/// What a watcher does with it.
#[derive(Debug)]
pub enum Delivery {
    /// Hand the event to the consumer.
    Deliver(VfsEvent),
    /// Drop it, and wait for the next one.
    Ignore,
    /// Tell the consumer that there is nothing more.
    End,
}

/// The path of an event that has one.
pub open spec fn event_path(event: VfsEventView) -> Option<Seq<char>> {
    match event {
        VfsEventView::Written { path, .. } => Some(path),
        VfsEventView::Removed { path, .. } => Some(path),
        VfsEventView::Skipped { .. } => None,
    }
}

/// The step of a watcher with the given prefix: events under the prefix are
/// delivered, others are consumed in silence; lag is delivered as a skipped event,
/// whatever the prefix.
pub fn deliver(received: Received, prefix: &str) -> (r: Delivery)
    ensures
        match received {
            Received::Event(event) => match event_path(event@) {
                Some(path) => if watched(path, prefix@) {
                    r == Delivery::Deliver(event)
                } else {
                    r is Ignore
                },
                None => r == Delivery::Deliver(event),
            },
            Received::Lagged(n) => r is Deliver && r->Deliver_0@ == (VfsEventView::Skipped { count: n }),
            Received::Closed => r is End,
        },
{
    match received {
        Received::Event(event) => {
            let wanted = match &event {
                VfsEvent::Skipped { .. } => true,
                VfsEvent::Written { path, .. } => path_matches_prefix(path.as_str(), prefix),
                VfsEvent::Removed { path, .. } => path_matches_prefix(path.as_str(), prefix),
            };
            if wanted {
                Delivery::Deliver(event)
            } else {
                Delivery::Ignore
            }
        },
        Received::Lagged(count) => Delivery::Deliver(VfsEvent::Skipped { count }),
        Received::Closed => Delivery::End,
    }
}

/// Errors from filesystem operations.
#[derive(Debug, PartialEq, Eq)]
pub enum VfsError {
    NotFound(String),
    AlreadyExists(String),
    NotADirectory(String),
    NotAFile(String),
    Io(String),
    PermissionDenied(String),
    /// A write hook denied the write, for the reason that it gave.
    HookDenied { reason: String },
    /// A write hook ends the run of the agent, for the reason that it gave.
    HookKilled { reason: String },
    /// A write hook changed more of its context than the path.
    HookContractViolation,
}

/// What an error says.
#[verifier::ext_equal]
pub enum VfsErrorView {
    NotFound(Seq<char>),
    AlreadyExists(Seq<char>),
    NotADirectory(Seq<char>),
    NotAFile(Seq<char>),
    Io(Seq<char>),
    PermissionDenied(Seq<char>),
    HookDenied { reason: Seq<char> },
    HookKilled { reason: Seq<char> },
    HookContractViolation,
}

impl View for VfsError {
    type V = VfsErrorView;

    open spec fn view(&self) -> VfsErrorView {
        match self {
            VfsError::NotFound(s) => VfsErrorView::NotFound(s@),
            VfsError::AlreadyExists(s) => VfsErrorView::AlreadyExists(s@),
            VfsError::NotADirectory(s) => VfsErrorView::NotADirectory(s@),
            VfsError::NotAFile(s) => VfsErrorView::NotAFile(s@),
            VfsError::Io(s) => VfsErrorView::Io(s@),
            VfsError::PermissionDenied(s) => VfsErrorView::PermissionDenied(s@),
            VfsError::HookDenied { reason } => VfsErrorView::HookDenied { reason: reason@ },
            VfsError::HookKilled { reason } => VfsErrorView::HookKilled { reason: reason@ },
            VfsError::HookContractViolation => VfsErrorView::HookContractViolation,
        }
    }
}

/// The text of an error.
pub open spec fn vfs_message(e: VfsErrorView) -> Seq<char> {
    match e {
        VfsErrorView::NotFound(s) => "not found: "@ + s,
        VfsErrorView::AlreadyExists(s) => "already exists: "@ + s,
        VfsErrorView::NotADirectory(s) => "not a directory: "@ + s,
        VfsErrorView::NotAFile(s) => "not a file: "@ + s,
        VfsErrorView::Io(s) => "io error: "@ + s,
        VfsErrorView::PermissionDenied(s) => "permission denied: "@ + s,
        VfsErrorView::HookDenied { reason } => "hook denied: "@ + reason,
        VfsErrorView::HookKilled { reason } => "hook killed: "@ + reason,
        VfsErrorView::HookContractViolation => "hook contract violation"@,
    }
}

impl VfsError {
    /// What the error says.
    pub fn to_string(&self) -> (r: String)
        ensures
            r@ == vfs_message(self@),
    {
        match self {
            VfsError::NotFound(s) => concat("not found: ", s.as_str()),
            VfsError::AlreadyExists(s) => concat("already exists: ", s.as_str()),
            VfsError::NotADirectory(s) => concat("not a directory: ", s.as_str()),
            VfsError::NotAFile(s) => concat("not a file: ", s.as_str()),
            VfsError::Io(s) => concat("io error: ", s.as_str()),
            VfsError::PermissionDenied(s) => concat("permission denied: ", s.as_str()),
            VfsError::HookDenied { reason } => concat("hook denied: ", reason.as_str()),
            VfsError::HookKilled { reason } => concat("hook killed: ", reason.as_str()),
            VfsError::HookContractViolation => copy("hook contract violation"),
        }
    }

    /// Whether the error says that something is not there.
    pub fn is_not_found(&self) -> (r: bool)
        ensures
            r == (self@ is NotFound),
    {
        match self {
            VfsError::NotFound(_) => true,
            _ => false,
        }
    }
}

/// The outcome of reading bytes.
pub open spec fn bytes_out(r: Result<Vec<u8>, VfsError>) -> Result<Seq<u8>, VfsErrorView> {
    match r {
        Ok(v) => Ok(v@),
        Err(e) => Err(e@),
    }
}

/// The outcome of an operation that gives nothing back.
pub open spec fn unit_out(r: Result<(), VfsError>) -> Result<(), VfsErrorView> {
    match r {
        Ok(()) => Ok(()),
        Err(e) => Err(e@),
    }
}

/// The outcome of listing a directory.
pub open spec fn names_out(r: Result<Vec<String>, VfsError>) -> Result<Seq<Seq<char>>, VfsErrorView> {
    match r {
        Ok(v) => Ok(texts(v@)),
        Err(e) => Err(e@),
    }
}

/// The outcome of asking for metadata.
pub open spec fn metadata_out(r: Result<FsMetadata, VfsError>) -> Result<FsMetadata, VfsErrorView> {
    match r {
        Ok(m) => Ok(m),
        Err(e) => Err(e@),
    }
}

/// The outcome of taking a snapshot.
pub open spec fn snapshot_out(r: Result<VfsSnapshot, VfsError>) -> Result<Seq<u8>, VfsErrorView> {
    match r {
        Ok(s) => Ok(s.data@),
        Err(e) => Err(e@),
    }
}

/// A virtual filesystem. All paths are rooted at `/`, with no way out above it.
///
/// A filesystem says by its spec functions what its operations may give: the
/// operations that only look relate a state to an outcome, those that change it
/// relate the state before to an outcome and the state after. One that does not say
/// allows everything.
pub trait VirtualFs: Sized {
    /// What every state of the filesystem keeps.
    open spec fn wf(&self) -> bool {
        true
    }

    /// What reading the file `path` may give.
    open spec fn reads(&self, path: Seq<char>, out: Result<Seq<u8>, VfsErrorView>) -> bool {
        true
    }

    /// What writing the file `path` may give, and the state after it.
    open spec fn writes(
        &self,
        path: Seq<char>,
        data: Seq<u8>,
        after: Self,
        out: Result<(), VfsErrorView>,
    ) -> bool {
        true
    }

    /// What asking for the existence of `path` may give.
    open spec fn has(&self, path: Seq<char>, out: bool) -> bool {
        true
    }

    /// What listing the directory `path` may give.
    open spec fn lists(&self, path: Seq<char>, out: Result<Seq<Seq<char>>, VfsErrorView>) -> bool {
        true
    }

    /// What creating the directory `path` may give, and the state after it.
    open spec fn makes_dir(&self, path: Seq<char>, after: Self, out: Result<(), VfsErrorView>) -> bool {
        true
    }

    /// What removing `path` may give, and the state after it.
    open spec fn removes(&self, path: Seq<char>, after: Self, out: Result<(), VfsErrorView>) -> bool {
        true
    }

    /// What the metadata of `path` may be.
    open spec fn describes(&self, path: Seq<char>, out: Result<FsMetadata, VfsErrorView>) -> bool {
        true
    }

    /// What a snapshot of the state may be.
    open spec fn saves(&self, out: Result<Seq<u8>, VfsErrorView>) -> bool {
        true
    }

    /// What restoring a snapshot may give, and the state after it.
    open spec fn restores(&self, data: Seq<u8>, after: Self, out: Result<(), VfsErrorView>) -> bool {
        true
    }

    /// Reads a file.
    fn read(&self, path: &str) -> (r: Result<Vec<u8>, VfsError>)
        requires
            self.wf(),
        ensures
            self.reads(path@, bytes_out(r)),
    ;

    /// Writes a file.
    fn write(&mut self, path: &str, data: &[u8]) -> (r: Result<(), VfsError>)
        requires
            old(self).wf(),
        ensures
            final(self).wf(),
            old(self).writes(path@, data@, *final(self), unit_out(r)),
    ;

    /// Whether there is an entry.
    fn entry_exists(&self, path: &str) -> (r: bool)
        requires
            self.wf(),
        ensures
            self.has(path@, r),
    ;

    /// The names in a directory.
    fn list_dir(&self, path: &str) -> (r: Result<Vec<String>, VfsError>)
        requires
            self.wf(),
        ensures
            self.lists(path@, names_out(r)),
    ;

    /// Creates a directory.
    fn mkdir(&mut self, path: &str) -> (r: Result<(), VfsError>)
        requires
            old(self).wf(),
        ensures
            final(self).wf(),
            old(self).makes_dir(path@, *final(self), unit_out(r)),
    ;

    /// Removes an entry, with all under it.
    fn remove(&mut self, path: &str) -> (r: Result<(), VfsError>)
        requires
            old(self).wf(),
        ensures
            final(self).wf(),
            old(self).removes(path@, *final(self), unit_out(r)),
    ;

    /// The metadata of an entry.
    fn metadata(&self, path: &str) -> (r: Result<FsMetadata, VfsError>)
        requires
            self.wf(),
        ensures
            self.describes(path@, metadata_out(r)),
    ;

    /// A snapshot of the state.
    fn snapshot(&self) -> (r: Result<VfsSnapshot, VfsError>)
        requires
            self.wf(),
        ensures
            self.saves(snapshot_out(r)),
    ;

    /// Puts the state of a snapshot back.
    fn restore(&mut self, snapshot: &VfsSnapshot) -> (r: Result<(), VfsError>)
        requires
            old(self).wf(),
        ensures
            final(self).wf(),
            old(self).restores(snapshot.data@, *final(self), unit_out(r)),
    ;
}

} // verus!
