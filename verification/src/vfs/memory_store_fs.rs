//! The layer that routes `/var/memory/**` and `/mnt/**` to a durable [`MemoryStore`].
//!
//! It enforces the scopes of a [`MemoryCapability`] itself, whatever path patterns a
//! capability token grants: with `/**` readable, a memory path still cannot be read unless
//! a search scope grants it. All other paths go to the filesystem inside.
use crate::path::under;
use crate::text::{concat, concat3, copy, ends_with, texts};
use crate::types::memory::{in_scope, is_memory_path, parsed_memory_path, MemoryCapability, MemoryCapabilityView, MemoryPath, MemoryPathError, MemoryVersion, TenantId};
use crate::types::vfs::{directory, file_of, metadata_out, names_out, unit_out, FsMetadata, VfsError, VfsErrorView, VfsEvent, VfsEventView, VfsSnapshot, VirtualFs};
use crate::vfs::listing::{is_listing_of, names_within};
use vstd::prelude::*;
use vstd::slice::slice_to_vec;
use vstd::string::*;

verus! {

broadcast use vstd::seq_lib::group_seq_properties;

// ---- The store ---------------------------------------------------------------

/// Errors of a [`MemoryStore`].
#[derive(Debug, PartialEq, Eq)]
pub enum MemoryError {
    /// There is nothing at `path`.
    NotFound { path: String, message: String },
    /// Anything else.
    Other { message: String },
}

/// What a [`MemoryError`] says.
#[verifier::ext_equal]
pub enum MemoryErrorView {
    NotFound { path: Seq<char>, message: Seq<char> },
    Other { message: Seq<char> },
}

impl View for MemoryError {
    type V = MemoryErrorView;

    open spec fn view(&self) -> MemoryErrorView {
        match self {
            MemoryError::NotFound { path, message } => MemoryErrorView::NotFound { path: path@, message: message@ },
            MemoryError::Other { message } => MemoryErrorView::Other { message: message@ },
        }
    }
}

/// The text of a [`MemoryError`].
pub open spec fn memory_message(e: MemoryErrorView) -> Seq<char> {
    match e {
        MemoryErrorView::NotFound { path, message } => message,
        MemoryErrorView::Other { message } => message,
    }
}

impl MemoryError {
    /// What the error says.
    pub fn to_string(&self) -> (r: String)
        ensures
            r@ == memory_message(self@),
    {
        match self {
            MemoryError::NotFound { path: _, message } => message.clone(),
            MemoryError::Other { message } => message.clone(),
        }
    }
}

/// The outcome of fetching an entry.
pub open spec fn entry_out(r: Result<(Vec<u8>, MemoryVersion), MemoryError>) -> Result<
    (Seq<u8>, MemoryVersion),
    MemoryErrorView,
> {
    match r {
        Ok(entry) => Ok((entry.0@, entry.1)),
        Err(e) => Err(e@),
    }
}

/// The outcome of an operation that gives a version.
pub open spec fn version_out(r: Result<MemoryVersion, MemoryError>) -> Result<MemoryVersion, MemoryErrorView> {
    match r {
        Ok(version) => Ok(version),
        Err(e) => Err(e@),
    }
}

/// The outcome of asking for an entry.
pub open spec fn known_out(r: Result<bool, MemoryError>) -> Result<bool, MemoryErrorView> {
    match r {
        Ok(known) => Ok(known),
        Err(e) => Err(e@),
    }
}

/// The outcome of listing entries.
pub open spec fn paths_out(r: Result<Vec<MemoryPath>, MemoryError>) -> Result<Seq<Seq<char>>, MemoryErrorView> {
    match r {
        Ok(paths) => Ok(texts(paths@)),
        Err(e) => Err(e@),
    }
}

/// Durable, versioned memory, keyed by tenant and path.
///
/// A store says by its spec functions what its operations may give, and, for those that
/// change it, the state after. One that does not say allows everything.
pub trait MemoryStore: Sized {
    /// What storing an entry may give, and the state after it.
    open spec fn puts(
        &self,
        tenant: Seq<char>,
        path: Seq<char>,
        data: Seq<u8>,
        after: Self,
        out: Result<MemoryVersion, MemoryErrorView>,
    ) -> bool {
        true
    }

    /// What fetching an entry may give.
    open spec fn gets(
        &self,
        tenant: Seq<char>,
        path: Seq<char>,
        out: Result<(Seq<u8>, MemoryVersion), MemoryErrorView>,
    ) -> bool {
        true
    }

    /// What asking for an entry may give.
    open spec fn knows(&self, tenant: Seq<char>, path: Seq<char>, out: Result<bool, MemoryErrorView>) -> bool {
        true
    }

    /// What listing the entries under a path may give.
    open spec fn lists(
        &self,
        tenant: Seq<char>,
        prefix: Seq<char>,
        out: Result<Seq<Seq<char>>, MemoryErrorView>,
    ) -> bool {
        true
    }

    /// What deleting an entry may give, and the state after it.
    open spec fn deletes(
        &self,
        tenant: Seq<char>,
        path: Seq<char>,
        after: Self,
        out: Result<MemoryVersion, MemoryErrorView>,
    ) -> bool {
        true
    }

    /// Stores an entry, and gives its version.
    fn put(&mut self, tenant: &TenantId, path: &MemoryPath, data: &[u8]) -> (r: Result<MemoryVersion, MemoryError>)
        ensures
            old(self).puts(tenant@, path@, data@, *final(self), version_out(r)),
    ;

    /// Fetches an entry and its version.
    fn get(&self, tenant: &TenantId, path: &MemoryPath) -> (r: Result<(Vec<u8>, MemoryVersion), MemoryError>)
        ensures
            self.gets(tenant@, path@, entry_out(r)),
    ;

    /// Whether there is an entry.
    fn entry_exists(&self, tenant: &TenantId, path: &MemoryPath) -> (r: Result<bool, MemoryError>)
        ensures
            self.knows(tenant@, path@, known_out(r)),
    ;

    /// The paths of all entries under `prefix`.
    fn list_prefix(&self, tenant: &TenantId, prefix: &MemoryPath) -> (r: Result<Vec<MemoryPath>, MemoryError>)
        ensures
            self.lists(tenant@, prefix@, paths_out(r)),
    ;

    /// Deletes an entry, and gives the version of the deletion.
    fn delete(&mut self, tenant: &TenantId, path: &MemoryPath) -> (r: Result<MemoryVersion, MemoryError>)
        ensures
            old(self).deletes(tenant@, path@, *final(self), version_out(r)),
    ;
}

/// A change of a [`MemoryStore`].
#[derive(Debug, PartialEq, Eq)]
pub enum MemoryEvent {
    Put { tenant: TenantId, path: MemoryPath, bytes_len: u64 },
    Delete { tenant: TenantId, path: MemoryPath },
}

/// A change of the store as a change of the filesystem of `bound_tenant`; nothing for the
/// changes of other tenants.
pub open spec fn forwarded(bound_tenant: Seq<char>, event: MemoryEvent) -> Option<VfsEventView> {
    match event {
        MemoryEvent::Put { tenant, path, bytes_len } => if tenant@ == bound_tenant {
            Some(VfsEventView::Written { tenant: tenant@, path: path@, len: bytes_len })
        } else {
            None
        },
        MemoryEvent::Delete { tenant, path } => if tenant@ == bound_tenant {
            Some(VfsEventView::Removed { tenant: tenant@, path: path@ })
        } else {
            None
        },
    }
}

/// What a filesystem event says, where there is one.
pub open spec fn event_out(event: Option<VfsEvent>) -> Option<VfsEventView> {
    match event {
        Some(e) => Some(e@),
        None => None,
    }
}

/// A change of the store as a change of the filesystem of `bound_tenant`; nothing for the
/// changes of other tenants.
pub fn forward_memory_event(bound_tenant: &TenantId, event: MemoryEvent) -> (r: Option<VfsEvent>)
    ensures
        event_out(r) == forwarded(bound_tenant@, event),
{
    match event {
        MemoryEvent::Put { tenant, path, bytes_len } => {
            if *tenant.as_str() == *bound_tenant.as_str() {
                Some(VfsEvent::Written { tenant, path: copy(path.as_str()), len: bytes_len })
            } else {
                None
            }
        },
        MemoryEvent::Delete { tenant, path } => {
            if *tenant.as_str() == *bound_tenant.as_str() {
                Some(VfsEvent::Removed { tenant, path: copy(path.as_str()) })
            } else {
                None
            }
        },
    }
}

// ---- The gates ---------------------------------------------------------------

/// What is denied when a path is no memory path.
pub open spec fn bad_memory_path(path: Seq<char>, e: MemoryPathError) -> VfsErrorView {
    VfsErrorView::PermissionDenied("invalid memory path '"@ + path + "': "@ + e.message())
}

/// The canonical path, where the capability lets it be read. `what` names the operation.
pub open spec fn read_gate_of(cap: MemoryCapabilityView, what: Seq<char>, path: Seq<char>) -> Result<
    Seq<char>,
    VfsErrorView,
> {
    match parsed_memory_path(path) {
        Err(e) => Err(bad_memory_path(path, e)),
        Ok(p) => if cap.enabled && in_scope(p, cap.search_scopes) {
            Ok(p)
        } else {
            Err(VfsErrorView::PermissionDenied(what + " outside memory search_scopes: "@ + path))
        },
    }
}

/// The canonical path, where the capability lets it be written. Nothing under `/mnt` can
/// be. `what` names the operation.
pub open spec fn write_gate_of(cap: MemoryCapabilityView, what: Seq<char>, path: Seq<char>) -> Result<
    Seq<char>,
    VfsErrorView,
> {
    match parsed_memory_path(path) {
        Err(e) => Err(bad_memory_path(path, e)),
        Ok(p) => if under(p, "/mnt"@) {
            Err(VfsErrorView::PermissionDenied("/mnt is admin-ingested only: "@ + path))
        } else if cap.enabled && in_scope(p, cap.write_scopes) {
            Ok(p)
        } else {
            Err(VfsErrorView::PermissionDenied(what + " outside memory write_scopes: "@ + path))
        },
    }
}

/// What a gate gives, over views.
pub open spec fn gate_out(r: Result<MemoryPath, VfsError>) -> Result<Seq<char>, VfsErrorView> {
    match r {
        Ok(path) => Ok(path@),
        Err(e) => Err(e@),
    }
}

/// The canonical path, or that `raw` is no memory path.
pub fn parse_memory_path(raw: &str) -> (r: Result<MemoryPath, VfsError>)
    ensures
        gate_out(r) == match parsed_memory_path(raw@) {
            Ok(path) => Ok(path),
            Err(e) => Err(bad_memory_path(raw@, e)),
        },
{
    match MemoryPath::parse(raw) {
        Ok(path) => Ok(path),
        Err(e) => {
            let mut text = concat3("invalid memory path '", raw, "': ");
            text.append(e.to_string().as_str());
            Err(VfsError::PermissionDenied(text))
        },
    }
}

/// The canonical path, where the capability lets it be read. `what` names the operation.
pub fn read_gate(capability: &MemoryCapability, what: &str, path: &str) -> (r: Result<MemoryPath, VfsError>)
    ensures
        gate_out(r) == read_gate_of(capability@, what@, path@),
{
    match parse_memory_path(path) {
        Err(e) => Err(e),
        Ok(p) => if capability.can_read(&p) {
            Ok(p)
        } else {
            Err(VfsError::PermissionDenied(concat3(what, " outside memory search_scopes: ", path)))
        },
    }
}

/// The canonical path, where the capability lets it be written. `what` names the
/// operation.
pub fn write_gate(capability: &MemoryCapability, what: &str, path: &str) -> (r: Result<MemoryPath, VfsError>)
    ensures
        gate_out(r) == write_gate_of(capability@, what@, path@),
{
    match parse_memory_path(path) {
        Err(e) => Err(e),
        Ok(p) => if p.is_mnt() {
            Err(VfsError::PermissionDenied(concat("/mnt is admin-ingested only: ", path)))
        } else if capability.can_write(&p) {
            Ok(p)
        } else {
            Err(VfsError::PermissionDenied(concat3(what, " outside memory write_scopes: ", path)))
        },
    }
}

// ---- The filesystem ----------------------------------------------------------

/// A write that the same run can already see.
#[derive(Debug)]
pub struct RecentWrite {
    pub path: MemoryPath,
    pub version: MemoryVersion,
    pub data: Vec<u8>,
}

/// What a [`RecentWrite`] says.
#[verifier::ext_equal]
pub struct RecentWriteView {
    pub path: Seq<char>,
    pub version: MemoryVersion,
    pub data: Seq<u8>,
}

impl View for RecentWrite {
    type V = RecentWriteView;

    open spec fn view(&self) -> RecentWriteView {
        RecentWriteView { path: self.path@, version: self.version, data: self.data@ }
    }
}

/// What recent writes say.
pub open spec fn write_views(writes: Seq<RecentWrite>) -> Seq<RecentWriteView> {
    Seq::new(writes.len(), |i: int| writes[i]@)
}

/// A layer that gates and routes memory paths. Pass-through for all other paths.
pub struct MemoryStoreFs<V: VirtualFs, S: MemoryStore> {
    inner: V,
    tenant: TenantId,
    store: S,
    capability: MemoryCapability,
    rrwb: Option<Vec<RecentWrite>>,
}

/// An error of the store as an error of the filesystem: what is missing is missing, the
/// rest is an I/O error.
pub open spec fn store_error(e: MemoryErrorView) -> VfsErrorView {
    match e {
        MemoryErrorView::NotFound { path, message } => VfsErrorView::NotFound(path),
        MemoryErrorView::Other { message } => VfsErrorView::Io(message),
    }
}

fn map_store_error(e: MemoryError) -> (r: VfsError)
    ensures
        r@ == store_error(e@),
{
    match e {
        MemoryError::NotFound { path, message: _ } => VfsError::NotFound(path),
        MemoryError::Other { message } => VfsError::Io(message),
    }
}

/// What reading an entry gives, where the store answers `got`.
pub open spec fn memory_read_of(got: Result<(Seq<u8>, MemoryVersion), MemoryErrorView>) -> Result<
    Seq<u8>,
    VfsErrorView,
> {
    match got {
        Ok(entry) => Ok(entry.0),
        Err(e) => Err(store_error(e)),
    }
}

/// `prefix` with a slash at its end.
pub open spec fn with_slash(prefix: Seq<char>) -> Seq<char> {
    if "/"@.is_suffix_of(prefix) {
        prefix
    } else {
        prefix + "/"@
    }
}

/// What listing a memory path may give, where the store answers `listed`.
pub open spec fn memory_lists_of(
    path: Seq<char>,
    listed: Result<Seq<Seq<char>>, MemoryErrorView>,
    out: Result<Seq<Seq<char>>, VfsErrorView>,
) -> bool {
    match listed {
        Ok(paths) => out is Ok && is_listing_of(paths, with_slash(path), out->Ok_0),
        Err(e) => out == Err::<Seq<Seq<char>>, VfsErrorView>(VfsErrorView::Io(memory_message(e))),
    }
}

/// What the metadata of a path without an entry is, where the store answers `listed` for
/// the entries under it.
pub open spec fn memory_dir_of(raw: Seq<char>, listed: Result<Seq<Seq<char>>, MemoryErrorView>) -> Result<
    FsMetadata,
    VfsErrorView,
> {
    match listed {
        Ok(paths) => if paths.len() == 0 {
            Err(VfsErrorView::NotFound(raw))
        } else {
            Ok(directory())
        },
        Err(e) => Err(VfsErrorView::Io(memory_message(e))),
    }
}

impl<V: VirtualFs, S: MemoryStore> MemoryStoreFs<V, S> {
    /// The filesystem inside.
    pub closed spec fn inner_fs(&self) -> V {
        self.inner
    }

    /// The store.
    pub closed spec fn memory(&self) -> S {
        self.store
    }

    /// The tenant whose memory it is.
    pub closed spec fn owner(&self) -> Seq<char> {
        self.tenant@
    }

    /// What may be read and written.
    pub closed spec fn grants(&self) -> MemoryCapabilityView {
        self.capability@
    }

    /// The writes that have not been taken, where they are collected.
    pub closed spec fn recent(&self) -> Option<Seq<RecentWriteView>> {
        match self.rrwb {
            Some(writes) => Some(write_views(writes@)),
            None => None,
        }
    }

    /// The memory of a tenant over `inner`.
    pub fn new(inner: V, tenant: TenantId, store: S, capability: MemoryCapability) -> (r: Self)
        requires
            inner.wf(),
        ensures
            r.wf(),
            r.inner_fs() == inner,
            r.memory() == store,
            r.owner() == tenant@,
            r.grants() == capability@,
            r.recent() is None,
    {
        MemoryStoreFs { inner, tenant, store, capability, rrwb: None }
    }

    /// The same layer, which from here on collects its writes for searches in the same
    /// run.
    pub fn with_rrwb(self) -> (r: Self)
        requires
            self.wf(),
        ensures
            r.wf(),
            r.inner_fs() == self.inner_fs(),
            r.memory() == self.memory(),
            r.owner() == self.owner(),
            r.grants() == self.grants(),
            r.recent() == Some(Seq::<RecentWriteView>::empty()),
    {
        let none: Vec<RecentWrite> = Vec::new();
        assert(write_views(none@) =~= Seq::empty());
        MemoryStoreFs {
            inner: self.inner,
            tenant: self.tenant,
            store: self.store,
            capability: self.capability,
            rrwb: Some(none),
        }
    }

    /// Hands the collected writes out, the oldest first.
    pub fn take_recent(&mut self) -> (r: Vec<RecentWrite>)
        ensures
            final(self).inner_fs() == old(self).inner_fs(),
            final(self).memory() == old(self).memory(),
            final(self).owner() == old(self).owner(),
            final(self).grants() == old(self).grants(),
            old(self).wf() ==> final(self).wf(),
            match old(self).recent() {
                Some(writes) => write_views(r@) == writes && final(self).recent() == Some(
                    Seq::<RecentWriteView>::empty(),
                ),
                None => r@.len() == 0 && final(self).recent() is None,
            },
    {
        let none: Vec<RecentWrite> = Vec::new();
        assert(write_views(none@) =~= Seq::empty());
        if self.rrwb.is_none() {
            return none;
        }
        let mut writes = Some(none);
        std::mem::swap(&mut writes, &mut self.rrwb);
        match writes {
            Some(writes) => writes,
            None => Vec::new(),
        }
    }

    /// The filesystem inside.
    pub fn inner(&self) -> (r: &V)
        ensures
            *r == self.inner_fs(),
    {
        &self.inner
    }

    /// The store.
    pub fn store(&self) -> (r: &S)
        ensures
            *r == self.memory(),
    {
        &self.store
    }

    /// The same layer, but for the filesystem inside, the store and the collected writes.
    pub open spec fn same_rules(&self, after: Self) -> bool {
        after.owner() == self.owner() && after.grants() == self.grants()
    }

    /// The same layer, but for the filesystem inside.
    pub open spec fn same_memory(&self, after: Self) -> bool {
        self.same_rules(after) && after.memory() == self.memory() && after.recent() == self.recent()
    }

    /// Nothing changed.
    pub open spec fn unchanged(&self, after: Self) -> bool {
        self.same_memory(after) && after.inner_fs() == self.inner_fs()
    }

    /// The collected writes, with one more where they are collected.
    pub open spec fn recorded(&self, path: Seq<char>, version: MemoryVersion, data: Seq<u8>) -> Option<
        Seq<RecentWriteView>,
    > {
        match self.recent() {
            Some(writes) => Some(writes.push(RecentWriteView { path, version, data })),
            None => None,
        }
    }

    /// What storing an entry may give.
    pub open spec fn stores(
        &self,
        path: Seq<char>,
        data: Seq<u8>,
        after: Self,
        out: Result<(), VfsErrorView>,
    ) -> bool {
        exists|stored: Result<MemoryVersion, MemoryErrorView>| #[trigger]
            self.memory().puts(self.owner(), path, data, after.memory(), stored) && match stored {
                Ok(version) => out == Ok::<(), VfsErrorView>(()) && after.recent() == self.recorded(
                    path,
                    version,
                    data,
                ),
                Err(e) => out == Err::<(), VfsErrorView>(VfsErrorView::Io(memory_message(e))) && after.recent()
                    == self.recent(),
            }
    }

    /// What deleting an entry may give.
    pub open spec fn deletes(&self, path: Seq<char>, after: Self, out: Result<(), VfsErrorView>) -> bool {
        exists|deleted: Result<MemoryVersion, MemoryErrorView>| #[trigger]
            self.memory().deletes(self.owner(), path, after.memory(), deleted) && match deleted {
                Ok(_) => out == Ok::<(), VfsErrorView>(()),
                Err(e) => out == Err::<(), VfsErrorView>(store_error(e)),
            }
    }

    /// What reading an entry may give.
    pub open spec fn fetches(&self, path: Seq<char>, out: Result<Seq<u8>, VfsErrorView>) -> bool {
        exists|got: Result<(Seq<u8>, MemoryVersion), MemoryErrorView>| #[trigger]
            self.memory().gets(self.owner(), path, got) && out == memory_read_of(got)
    }

    /// What asking for an entry may give.
    pub open spec fn finds(&self, path: Seq<char>, out: bool) -> bool {
        exists|known: Result<bool, MemoryErrorView>| #[trigger]
            self.memory().knows(self.owner(), path, known) && out == (known == Ok::<bool, MemoryErrorView>(true))
    }

    /// What listing a memory path may give.
    pub open spec fn memory_lists(&self, path: Seq<char>, out: Result<Seq<Seq<char>>, VfsErrorView>) -> bool {
        exists|listed: Result<Seq<Seq<char>>, MemoryErrorView>| #[trigger]
            self.memory().lists(self.owner(), path, listed) && memory_lists_of(path, listed, out)
    }

    /// What the metadata of a path without an entry may be.
    pub open spec fn dir_describes(
        &self,
        raw: Seq<char>,
        path: Seq<char>,
        out: Result<FsMetadata, VfsErrorView>,
    ) -> bool {
        exists|listed: Result<Seq<Seq<char>>, MemoryErrorView>| #[trigger]
            self.memory().lists(self.owner(), path, listed) && out == memory_dir_of(raw, listed)
    }

    /// What the metadata of a memory path may be.
    pub open spec fn memory_describes(
        &self,
        raw: Seq<char>,
        path: Seq<char>,
        out: Result<FsMetadata, VfsErrorView>,
    ) -> bool {
        exists|got: Result<(Seq<u8>, MemoryVersion), MemoryErrorView>| #[trigger]
            self.memory().gets(self.owner(), path, got) && match got {
                Ok(entry) => out == Ok::<FsMetadata, VfsErrorView>(file_of(entry.0.len())),
                Err(MemoryErrorView::NotFound { path: _, message: _ }) => self.dir_describes(raw, path, out),
                Err(MemoryErrorView::Other { message }) => out == Err::<FsMetadata, VfsErrorView>(
                    VfsErrorView::Io(message),
                ),
            }
    }

    /// Stores an entry.
    fn store_entry(&mut self, path: MemoryPath, data: &[u8]) -> (r: Result<(), VfsError>)
        requires
            old(self).wf(),
        ensures
            final(self).wf(),
            old(self).same_rules(*final(self)),
            final(self).inner_fs() == old(self).inner_fs(),
            old(self).stores(path@, data@, *final(self), unit_out(r)),
    {
        let ghost was = *self;
        let ghost p = path@;
        let stored = self.store.put(&self.tenant, &path, data);
        let ghost after_put = *self;
        assert(was.memory().puts(was.owner(), p, data@, after_put.memory(), version_out(stored)));
        let version = match stored {
            Ok(version) => version,
            Err(e) => {
                return Err(VfsError::Io(e.to_string()));
            },
        };
        match &mut self.rrwb {
            Some(writes) => {
                let ghost before = write_views(writes@);
                writes.push(RecentWrite { path, version, data: slice_to_vec(data) });
                assert(write_views(writes@) =~= before.push(RecentWriteView { path: p, version, data: data@ }));
            },
            None => {},
        }
        assert(self.recent() == was.recorded(p, version, data@));
        assert(self.memory() == after_put.memory());
        Ok(())
    }

    /// Lists a memory path.
    fn list_entries(&self, path: &MemoryPath) -> (r: Result<Vec<String>, VfsError>)
        ensures
            self.memory_lists(path@, names_out(r)),
    {
        let listed = self.store.list_prefix(&self.tenant, path);
        assert(self.memory().lists(self.owner(), path@, paths_out(listed)));
        match listed {
            Ok(entries) => {
                let prefix = if ends_with(path.as_str(), "/") {
                    copy(path.as_str())
                } else {
                    concat(path.as_str(), "/")
                };
                Ok(names_within(&entries, prefix.as_str()))
            },
            Err(e) => Err(VfsError::Io(e.to_string())),
        }
    }

    /// The metadata of a memory path.
    fn entry_metadata(&self, raw: &str, path: &MemoryPath) -> (r: Result<FsMetadata, VfsError>)
        ensures
            self.memory_describes(raw@, path@, metadata_out(r)),
    {
        let got = self.store.get(&self.tenant, path);
        assert(self.memory().gets(self.owner(), path@, entry_out(got)));
        match got {
            Ok((data, _)) => Ok(FsMetadata::file(data.len())),
            Err(MemoryError::NotFound { path: _, message: _ }) => {
                let listed = self.store.list_prefix(&self.tenant, path);
                assert(self.memory().lists(self.owner(), path@, paths_out(listed)));
                let r = match listed {
                    Ok(entries) => if entries.len() == 0 {
                        Err(VfsError::NotFound(copy(raw)))
                    } else {
                        Ok(FsMetadata::dir())
                    },
                    Err(e) => Err(VfsError::Io(e.to_string())),
                };
                assert(self.dir_describes(raw@, path@, metadata_out(r)));
                r
            },
            Err(MemoryError::Other { message }) => Err(VfsError::Io(message)),
        }
    }
}

impl<V: VirtualFs, S: MemoryStore> VirtualFs for MemoryStoreFs<V, S> {
    closed spec fn wf(&self) -> bool {
        self.inner.wf()
    }

    open spec fn reads(&self, path: Seq<char>, out: Result<Seq<u8>, VfsErrorView>) -> bool {
        if is_memory_path(path) {
            match read_gate_of(self.grants(), "read"@, path) {
                Err(e) => out == Err::<Seq<u8>, VfsErrorView>(e),
                Ok(p) => self.fetches(p, out),
            }
        } else {
            self.inner_fs().reads(path, out)
        }
    }

    open spec fn writes(
        &self,
        path: Seq<char>,
        data: Seq<u8>,
        after: Self,
        out: Result<(), VfsErrorView>,
    ) -> bool {
        if is_memory_path(path) {
            match write_gate_of(self.grants(), "write"@, path) {
                Err(e) => out == Err::<(), VfsErrorView>(e) && self.unchanged(after),
                Ok(p) => self.stores(p, data, after, out) && self.same_rules(after) && after.inner_fs()
                    == self.inner_fs(),
            }
        } else {
            self.same_memory(after) && self.inner_fs().writes(path, data, after.inner_fs(), out)
        }
    }

    open spec fn has(&self, path: Seq<char>, out: bool) -> bool {
        if is_memory_path(path) {
            match read_gate_of(self.grants(), "read"@, path) {
                Err(_) => !out,
                Ok(p) => self.finds(p, out),
            }
        } else {
            self.inner_fs().has(path, out)
        }
    }

    open spec fn lists(&self, path: Seq<char>, out: Result<Seq<Seq<char>>, VfsErrorView>) -> bool {
        if is_memory_path(path) {
            match read_gate_of(self.grants(), "list"@, path) {
                Err(e) => out == Err::<Seq<Seq<char>>, VfsErrorView>(e),
                Ok(p) => self.memory_lists(p, out),
            }
        } else {
            self.inner_fs().lists(path, out)
        }
    }

    open spec fn makes_dir(&self, path: Seq<char>, after: Self, out: Result<(), VfsErrorView>) -> bool {
        if is_memory_path(path) {
            self.unchanged(after) && match write_gate_of(self.grants(), "mkdir"@, path) {
                Err(e) => out == Err::<(), VfsErrorView>(e),
                Ok(_) => out == Ok::<(), VfsErrorView>(()),
            }
        } else {
            self.same_memory(after) && self.inner_fs().makes_dir(path, after.inner_fs(), out)
        }
    }

    open spec fn removes(&self, path: Seq<char>, after: Self, out: Result<(), VfsErrorView>) -> bool {
        if is_memory_path(path) {
            match write_gate_of(self.grants(), "remove"@, path) {
                Err(e) => out == Err::<(), VfsErrorView>(e) && self.unchanged(after),
                Ok(p) => self.deletes(p, after, out) && self.same_rules(after) && after.inner_fs()
                    == self.inner_fs() && after.recent() == self.recent(),
            }
        } else {
            self.same_memory(after) && self.inner_fs().removes(path, after.inner_fs(), out)
        }
    }

    open spec fn describes(&self, path: Seq<char>, out: Result<FsMetadata, VfsErrorView>) -> bool {
        if is_memory_path(path) {
            match read_gate_of(self.grants(), "metadata"@, path) {
                Err(e) => out == Err::<FsMetadata, VfsErrorView>(e),
                Ok(p) => self.memory_describes(path, p, out),
            }
        } else {
            self.inner_fs().describes(path, out)
        }
    }

    open spec fn saves(&self, out: Result<Seq<u8>, VfsErrorView>) -> bool {
        self.inner_fs().saves(out)
    }

    open spec fn restores(&self, data: Seq<u8>, after: Self, out: Result<(), VfsErrorView>) -> bool {
        self.same_memory(after) && self.inner_fs().restores(data, after.inner_fs(), out)
    }

    fn read(&self, path: &str) -> (r: Result<Vec<u8>, VfsError>) {
        if !MemoryPath::is_memory_path_str(path) {
            return self.inner.read(path);
        }
        match read_gate(&self.capability, "read", path) {
            Err(e) => Err(e),
            Ok(p) => {
                let got = self.store.get(&self.tenant, &p);
                assert(self.memory().gets(self.owner(), p@, entry_out(got)));
                match got {
                    Ok((data, _)) => Ok(data),
                    Err(e) => Err(map_store_error(e)),
                }
            },
        }
    }

    fn write(&mut self, path: &str, data: &[u8]) -> (r: Result<(), VfsError>) {
        if !MemoryPath::is_memory_path_str(path) {
            return self.inner.write(path, data);
        }
        match write_gate(&self.capability, "write", path) {
            Err(e) => Err(e),
            Ok(p) => self.store_entry(p, data),
        }
    }

    fn entry_exists(&self, path: &str) -> (r: bool) {
        if !MemoryPath::is_memory_path_str(path) {
            return self.inner.entry_exists(path);
        }
        match read_gate(&self.capability, "read", path) {
            Err(_) => false,
            Ok(p) => {
                let known = self.store.entry_exists(&self.tenant, &p);
                assert(self.memory().knows(self.owner(), p@, known_out(known)));
                match known {
                    Ok(known) => known,
                    Err(_) => false,
                }
            },
        }
    }

    fn list_dir(&self, path: &str) -> (r: Result<Vec<String>, VfsError>) {
        if !MemoryPath::is_memory_path_str(path) {
            return self.inner.list_dir(path);
        }
        match read_gate(&self.capability, "list", path) {
            Err(e) => Err(e),
            Ok(p) => self.list_entries(&p),
        }
    }

    fn mkdir(&mut self, path: &str) -> (r: Result<(), VfsError>) {
        if !MemoryPath::is_memory_path_str(path) {
            return self.inner.mkdir(path);
        }
        // Directories are implicit in the memory store.
        match write_gate(&self.capability, "mkdir", path) {
            Err(e) => Err(e),
            Ok(_) => Ok(()),
        }
    }

    fn remove(&mut self, path: &str) -> (r: Result<(), VfsError>) {
        if !MemoryPath::is_memory_path_str(path) {
            return self.inner.remove(path);
        }
        let ghost was = *self;
        match write_gate(&self.capability, "remove", path) {
            Err(e) => Err(e),
            Ok(p) => {
                let deleted = self.store.delete(&self.tenant, &p);
                assert(was.memory().deletes(was.owner(), p@, self.memory(), version_out(deleted)));
                match deleted {
                    Ok(_) => Ok(()),
                    Err(e) => Err(map_store_error(e)),
                }
            },
        }
    }

    fn metadata(&self, path: &str) -> (r: Result<FsMetadata, VfsError>) {
        if !MemoryPath::is_memory_path_str(path) {
            return self.inner.metadata(path);
        }
        match read_gate(&self.capability, "metadata", path) {
            Err(e) => Err(e),
            Ok(p) => self.entry_metadata(path, &p),
        }
    }

    fn snapshot(&self) -> (r: Result<VfsSnapshot, VfsError>) {
        // Memory content lives in the durable store, not in session snapshots.
        self.inner.snapshot()
    }

    fn restore(&mut self, snapshot: &VfsSnapshot) -> (r: Result<(), VfsError>) {
        self.inner.restore(snapshot)
    }
}

} // verus!
