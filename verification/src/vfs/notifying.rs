//! A filesystem layer that announces every successful `write` and `remove`.
//!
//! Bound to a single tenant at construction; the events of the layer carry that tenant.
//! They wait in the layer, in order, until they are taken and sent on.
use crate::text::copy;
use crate::types::memory::TenantId;
use crate::types::vfs::{FsMetadata, VfsError, VfsErrorView, VfsEvent, VfsEventView, VfsSnapshot, VirtualFs};
use vstd::prelude::*;

verus! {

broadcast use vstd::seq_lib::group_seq_properties;

/// How many events a slow watcher can fall behind before it misses some.
pub const DEFAULT_CAPACITY: usize = 256;

/// What events say.
pub open spec fn event_views(events: Seq<VfsEvent>) -> Seq<VfsEventView> {
    Seq::new(events.len(), |i: int| events[i]@)
}

/// A layer that announces every successful `write` and `remove`.
pub struct NotifyingFsLayer<V: VirtualFs> {
    inner: V,
    tenant: TenantId,
    capacity: usize,
    events: Vec<VfsEvent>,
}

impl<V: VirtualFs> NotifyingFsLayer<V> {
    /// The filesystem inside.
    pub closed spec fn inner_fs(&self) -> V {
        self.inner
    }

    /// The tenant whose changes are announced.
    pub closed spec fn owner(&self) -> Seq<char> {
        self.tenant@
    }

    /// How far a watcher can fall behind.
    pub closed spec fn ring(&self) -> usize {
        self.capacity
    }

    /// The events that have not been taken.
    pub closed spec fn pending(&self) -> Seq<VfsEventView> {
        event_views(self.events@)
    }

    /// A layer bound to `tenant` with the default capacity.
    pub fn for_tenant(tenant: TenantId, inner: V) -> (r: Self)
        requires
            inner.wf(),
        ensures
            r.wf(),
            r.inner_fs() == inner,
            r.owner() == tenant@,
            r.ring() == DEFAULT_CAPACITY,
            r.pending() == Seq::<VfsEventView>::empty(),
    {
        Self::for_tenant_with_capacity(tenant, inner, DEFAULT_CAPACITY)
    }

    /// A layer bound to `tenant` with an explicit capacity, which is fixed from here on.
    pub fn for_tenant_with_capacity(tenant: TenantId, inner: V, capacity: usize) -> (r: Self)
        requires
            inner.wf(),
            0 < capacity <= usize::MAX / 2,
        ensures
            r.wf(),
            r.inner_fs() == inner,
            r.owner() == tenant@,
            r.ring() == capacity,
            r.pending() == Seq::<VfsEventView>::empty(),
    {
        let events: Vec<VfsEvent> = Vec::new();
        assert(event_views(events@) =~= Seq::empty());
        NotifyingFsLayer { inner, tenant, capacity, events }
    }

    /// How far a watcher can fall behind.
    pub fn capacity(&self) -> (r: usize)
        ensures
            r == self.ring(),
    {
        self.capacity
    }

    /// The filesystem inside.
    pub fn inner(&self) -> (r: &V)
        ensures
            *r == self.inner_fs(),
    {
        &self.inner
    }

    /// Hands the events out, the oldest first.
    pub fn take_events(&mut self) -> (r: Vec<VfsEvent>)
        ensures
            event_views(r@) == old(self).pending(),
            final(self).pending() == Seq::<VfsEventView>::empty(),
            final(self).inner_fs() == old(self).inner_fs(),
            final(self).owner() == old(self).owner(),
            final(self).ring() == old(self).ring(),
            old(self).wf() ==> final(self).wf(),
    {
        let mut events: Vec<VfsEvent> = Vec::new();
        std::mem::swap(&mut events, &mut self.events);
        assert(event_views(self.events@) =~= Seq::empty());
        events
    }

    /// The same layer, but for the filesystem inside and the events.
    pub open spec fn same_layer(&self, after: Self) -> bool {
        after.owner() == self.owner() && after.ring() == self.ring()
    }

    /// The same layer and the same events.
    pub open spec fn silent(&self, after: Self) -> bool {
        self.same_layer(after) && after.pending() == self.pending()
    }

    fn publish_written(&mut self, path: &str, len: u64)
        ensures
            final(self).pending() == old(self).pending().push(
                VfsEventView::Written { tenant: old(self).owner(), path: path@, len },
            ),
            final(self).inner_fs() == old(self).inner_fs(),
            old(self).same_layer(*final(self)),
    {
        let ghost was = self.pending();
        let ghost tenant = self.owner();
        self.events.push(VfsEvent::Written { tenant: self.tenant.clone(), path: copy(path), len });
        assert(self.pending() =~= was.push(VfsEventView::Written { tenant, path: path@, len }));
    }

    fn publish_removed(&mut self, path: &str)
        ensures
            final(self).pending() == old(self).pending().push(
                VfsEventView::Removed { tenant: old(self).owner(), path: path@ },
            ),
            final(self).inner_fs() == old(self).inner_fs(),
            old(self).same_layer(*final(self)),
    {
        let ghost was = self.pending();
        let ghost tenant = self.owner();
        self.events.push(VfsEvent::Removed { tenant: self.tenant.clone(), path: copy(path) });
        assert(self.pending() =~= was.push(VfsEventView::Removed { tenant, path: path@ }));
    }
}

impl<V: VirtualFs> VirtualFs for NotifyingFsLayer<V> {
    closed spec fn wf(&self) -> bool {
        self.inner.wf()
    }

    open spec fn reads(&self, path: Seq<char>, out: Result<Seq<u8>, VfsErrorView>) -> bool {
        self.inner_fs().reads(path, out)
    }

    open spec fn writes(
        &self,
        path: Seq<char>,
        data: Seq<u8>,
        after: Self,
        out: Result<(), VfsErrorView>,
    ) -> bool {
        &&& self.same_layer(after)
        &&& self.inner_fs().writes(path, data, after.inner_fs(), out)
        &&& after.pending() == if out is Ok {
            self.pending().push(
                VfsEventView::Written { tenant: self.owner(), path, len: data.len() as u64 },
            )
        } else {
            self.pending()
        }
    }

    open spec fn has(&self, path: Seq<char>, out: bool) -> bool {
        self.inner_fs().has(path, out)
    }

    open spec fn lists(&self, path: Seq<char>, out: Result<Seq<Seq<char>>, VfsErrorView>) -> bool {
        self.inner_fs().lists(path, out)
    }

    open spec fn makes_dir(&self, path: Seq<char>, after: Self, out: Result<(), VfsErrorView>) -> bool {
        self.silent(after) && self.inner_fs().makes_dir(path, after.inner_fs(), out)
    }

    open spec fn removes(&self, path: Seq<char>, after: Self, out: Result<(), VfsErrorView>) -> bool {
        &&& self.same_layer(after)
        &&& self.inner_fs().removes(path, after.inner_fs(), out)
        &&& after.pending() == if out is Ok {
            self.pending().push(VfsEventView::Removed { tenant: self.owner(), path })
        } else {
            self.pending()
        }
    }

    open spec fn describes(&self, path: Seq<char>, out: Result<FsMetadata, VfsErrorView>) -> bool {
        self.inner_fs().describes(path, out)
    }

    open spec fn saves(&self, out: Result<Seq<u8>, VfsErrorView>) -> bool {
        self.inner_fs().saves(out)
    }

    open spec fn restores(&self, data: Seq<u8>, after: Self, out: Result<(), VfsErrorView>) -> bool {
        self.silent(after) && self.inner_fs().restores(data, after.inner_fs(), out)
    }

    fn read(&self, path: &str) -> (r: Result<Vec<u8>, VfsError>) {
        self.inner.read(path)
    }

    fn write(&mut self, path: &str, data: &[u8]) -> (r: Result<(), VfsError>) {
        let written = self.inner.write(path, data);
        if written.is_ok() {
            self.publish_written(path, data.len() as u64);
        }
        written
    }

    fn entry_exists(&self, path: &str) -> (r: bool) {
        self.inner.entry_exists(path)
    }

    fn list_dir(&self, path: &str) -> (r: Result<Vec<String>, VfsError>) {
        self.inner.list_dir(path)
    }

    fn mkdir(&mut self, path: &str) -> (r: Result<(), VfsError>) {
        self.inner.mkdir(path)
    }

    fn remove(&mut self, path: &str) -> (r: Result<(), VfsError>) {
        let removed = self.inner.remove(path);
        if removed.is_ok() {
            self.publish_removed(path);
        }
        removed
    }

    fn metadata(&self, path: &str) -> (r: Result<FsMetadata, VfsError>) {
        self.inner.metadata(path)
    }

    fn snapshot(&self) -> (r: Result<VfsSnapshot, VfsError>) {
        self.inner.snapshot()
    }

    fn restore(&mut self, snapshot: &VfsSnapshot) -> (r: Result<(), VfsError>) {
        self.inner.restore(snapshot)
    }
}

/// A write or a removal adds exactly one event where it succeeds, at the end and with the
/// tenant of the layer, and none where it fails; nothing else adds any.
pub proof fn one_event_per_change<V: VirtualFs>(
    fs: NotifyingFsLayer<V>,
    path: Seq<char>,
    data: Seq<u8>,
    after: NotifyingFsLayer<V>,
    out: Result<(), VfsErrorView>,
)
    ensures
        fs.writes(path, data, after, out) || fs.removes(path, after, out) ==> after.pending().len()
            == fs.pending().len() + if out is Ok {
            1int
        } else {
            0
        } && after.pending().take(fs.pending().len() as int) == fs.pending(),
        fs.makes_dir(path, after, out) || fs.restores(data, after, out) ==> after.pending() == fs.pending(),
{
    assert(fs.pending().take(fs.pending().len() as int) =~= fs.pending());
    if fs.writes(path, data, after, out) || fs.removes(path, after, out) {
        assert(after.pending().take(fs.pending().len() as int) =~= fs.pending());
    }
}

/// The layer answers and changes as the filesystem inside does.
pub proof fn announcing_changes_no_answer<V: VirtualFs>(
    fs: NotifyingFsLayer<V>,
    path: Seq<char>,
    data: Seq<u8>,
    after: NotifyingFsLayer<V>,
    out: Result<(), VfsErrorView>,
    bytes: Result<Seq<u8>, VfsErrorView>,
    names: Result<Seq<Seq<char>>, VfsErrorView>,
    metadata: Result<FsMetadata, VfsErrorView>,
    there: bool,
)
    ensures
        fs.reads(path, bytes) <==> fs.inner_fs().reads(path, bytes),
        fs.has(path, there) <==> fs.inner_fs().has(path, there),
        fs.lists(path, names) <==> fs.inner_fs().lists(path, names),
        fs.describes(path, metadata) <==> fs.inner_fs().describes(path, metadata),
        fs.saves(bytes) <==> fs.inner_fs().saves(bytes),
        fs.writes(path, data, after, out) ==> fs.inner_fs().writes(path, data, after.inner_fs(), out),
        fs.makes_dir(path, after, out) ==> fs.inner_fs().makes_dir(path, after.inner_fs(), out),
        fs.removes(path, after, out) ==> fs.inner_fs().removes(path, after.inner_fs(), out),
        fs.restores(data, after, out) ==> fs.inner_fs().restores(data, after.inner_fs(), out),
{
}

} // verus!
