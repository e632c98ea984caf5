//! A filesystem with a read-only part.
use crate::path::{normalize, normalized, trim_slashes, without_trailing_slashes};
use crate::text::{concat3, copy, ends_with, starts_with};
use crate::types::vfs::{FsMetadata, VfsError, VfsErrorView, VfsSnapshot, VirtualFs};
use vstd::prelude::*;
use vstd::string::*;

verus! {

broadcast use vstd::seq_lib::group_seq_properties;

/// A thin wrapper that delegates reads to an inner filesystem but rejects
/// writes, removals and new directories under a configured prefix. Everything outside
/// the prefix is delegated.
pub struct ReadOnlyPathGuard<V: VirtualFs> {
    inner: V,
    /// The prefix with a slash at its end.
    locked_prefix: String,
}

/// A locked prefix with a slash at its end.
pub open spec fn with_slash(prefix: Seq<char>) -> Seq<char> {
    if "/"@.is_suffix_of(prefix) {
        prefix
    } else {
        prefix.push('/')
    }
}

/// `path`, once it is normalized, is the locked prefix or lies under it.
pub open spec fn is_locked_by(prefix: Seq<char>, path: Seq<char>) -> bool {
    normalized(path) == trim_slashes(prefix) || prefix.is_prefix_of(normalized(path))
}

/// What a change under the locked prefix is denied with.
pub open spec fn read_only(prefix: Seq<char>, path: Seq<char>) -> VfsErrorView {
    VfsErrorView::PermissionDenied("path is read-only ("@ + trim_slashes(prefix) + "): "@ + path)
}

impl<V: VirtualFs> ReadOnlyPathGuard<V> {
    /// The guarded filesystem.
    pub closed spec fn inner_fs(&self) -> V {
        self.inner
    }

    /// The locked prefix, with a slash at its end.
    pub closed spec fn prefix(&self) -> Seq<char> {
        self.locked_prefix@
    }

    /// Guards `inner` under `locked_prefix`.
    pub fn new(inner: V, locked_prefix: &str) -> (r: Self)
        requires
            inner.wf(),
        ensures
            r.wf(),
            r.inner_fs() == inner,
            r.prefix() == with_slash(locked_prefix@),
    {
        let mut prefix = copy(locked_prefix);
        if !ends_with(locked_prefix, "/") {
            prefix.push('/');
        }
        ReadOnlyPathGuard { inner, locked_prefix: prefix }
    }

    /// The guarded filesystem.
    pub fn inner(&self) -> (r: &V)
        ensures
            *r == self.inner_fs(),
    {
        &self.inner
    }

    fn is_locked(&self, path: &str) -> (r: bool)
        ensures
            r == is_locked_by(self.prefix(), path@),
    {
        let path = normalize(path);
        let trimmed = without_trailing_slashes(self.locked_prefix.as_str());
        *path.as_str() == *trimmed.as_str() || starts_with(path.as_str(), self.locked_prefix.as_str())
    }

    fn rofs(&self, path: &str) -> (r: VfsError)
        ensures
            r@ == read_only(self.prefix(), path@),
    {
        let trimmed = without_trailing_slashes(self.locked_prefix.as_str());
        let mut text = concat3("path is read-only (", trimmed.as_str(), "): ");
        text.append(path);
        VfsError::PermissionDenied(text)
    }

    /// Only the guarded filesystem may differ.
    pub open spec fn same_prefix(&self, after: Self) -> bool {
        after.prefix() == self.prefix()
    }

    /// The change was denied, and nothing happened.
    pub open spec fn denied(&self, path: Seq<char>, after: Self, out: Result<(), VfsErrorView>) -> bool {
        &&& out == Err::<(), VfsErrorView>(read_only(self.prefix(), path))
        &&& after.inner_fs() == self.inner_fs()
    }
}

impl<V: VirtualFs> VirtualFs for ReadOnlyPathGuard<V> {
    closed spec fn wf(&self) -> bool {
        self.inner.wf()
    }

    open spec fn reads(&self, path: Seq<char>, out: Result<Seq<u8>, VfsErrorView>) -> bool {
        self.inner_fs().reads(path, out)
    }

    open spec fn writes(
        &self,
        path: Seq<char>,
        data: Seq<u8>,
        after: Self,
        out: Result<(), VfsErrorView>,
    ) -> bool {
        &&& self.same_prefix(after)
        &&& if is_locked_by(self.prefix(), path) {
            self.denied(path, after, out)
        } else {
            self.inner_fs().writes(path, data, after.inner_fs(), out)
        }
    }

    open spec fn has(&self, path: Seq<char>, out: bool) -> bool {
        self.inner_fs().has(path, out)
    }

    open spec fn lists(&self, path: Seq<char>, out: Result<Seq<Seq<char>>, VfsErrorView>) -> bool {
        self.inner_fs().lists(path, out)
    }

    open spec fn makes_dir(&self, path: Seq<char>, after: Self, out: Result<(), VfsErrorView>) -> bool {
        &&& self.same_prefix(after)
        &&& if is_locked_by(self.prefix(), path) {
            self.denied(path, after, out)
        } else {
            self.inner_fs().makes_dir(path, after.inner_fs(), out)
        }
    }

    open spec fn removes(&self, path: Seq<char>, after: Self, out: Result<(), VfsErrorView>) -> bool {
        &&& self.same_prefix(after)
        &&& if is_locked_by(self.prefix(), path) {
            self.denied(path, after, out)
        } else {
            self.inner_fs().removes(path, after.inner_fs(), out)
        }
    }

    open spec fn describes(&self, path: Seq<char>, out: Result<FsMetadata, VfsErrorView>) -> bool {
        self.inner_fs().describes(path, out)
    }

    open spec fn saves(&self, out: Result<Seq<u8>, VfsErrorView>) -> bool {
        self.inner_fs().saves(out)
    }

    open spec fn restores(&self, data: Seq<u8>, after: Self, out: Result<(), VfsErrorView>) -> bool {
        self.same_prefix(after) && self.inner_fs().restores(data, after.inner_fs(), out)
    }

    fn read(&self, path: &str) -> (r: Result<Vec<u8>, VfsError>) {
        self.inner.read(path)
    }

    fn write(&mut self, path: &str, data: &[u8]) -> (r: Result<(), VfsError>) {
        if self.is_locked(path) {
            return Err(self.rofs(path));
        }
        self.inner.write(path, data)
    }

    fn entry_exists(&self, path: &str) -> (r: bool) {
        self.inner.entry_exists(path)
    }

    fn list_dir(&self, path: &str) -> (r: Result<Vec<String>, VfsError>) {
        self.inner.list_dir(path)
    }

    fn mkdir(&mut self, path: &str) -> (r: Result<(), VfsError>) {
        if self.is_locked(path) {
            return Err(self.rofs(path));
        }
        self.inner.mkdir(path)
    }

    fn remove(&mut self, path: &str) -> (r: Result<(), VfsError>) {
        if self.is_locked(path) {
            return Err(self.rofs(path));
        }
        self.inner.remove(path)
    }

    fn metadata(&self, path: &str) -> (r: Result<FsMetadata, VfsError>) {
        self.inner.metadata(path)
    }

    fn snapshot(&self) -> (r: Result<VfsSnapshot, VfsError>) {
        self.inner.snapshot()
    }

    fn restore(&mut self, snapshot: &VfsSnapshot) -> (r: Result<(), VfsError>) {
        self.inner.restore(snapshot)
    }
}

/// No write, new directory or removal under the locked prefix changes anything,
/// however the path is spelled.
pub proof fn locked_paths_never_change<V: VirtualFs>(
    fs: ReadOnlyPathGuard<V>,
    path: Seq<char>,
    spelled: Seq<char>,
    data: Seq<u8>,
    after: ReadOnlyPathGuard<V>,
    out: Result<(), VfsErrorView>,
)
    requires
        is_locked_by(fs.prefix(), path),
        normalized(spelled) == normalized(path),
        fs.writes(spelled, data, after, out) || fs.makes_dir(spelled, after, out) || fs.removes(spelled, after, out),
    ensures
        out == Err::<(), VfsErrorView>(read_only(fs.prefix(), spelled)),
        after.inner_fs() == fs.inner_fs(),
{
}

/// The guard shows what the filesystem inside shows, and lets changes outside the locked prefix
/// through.
pub proof fn unlocked_paths_pass_through<V: VirtualFs>(
    fs: ReadOnlyPathGuard<V>,
    path: Seq<char>,
    data: Seq<u8>,
    after: ReadOnlyPathGuard<V>,
    out: Result<(), VfsErrorView>,
    bytes: Result<Seq<u8>, VfsErrorView>,
    names: Result<Seq<Seq<char>>, VfsErrorView>,
    metadata: Result<FsMetadata, VfsErrorView>,
    there: bool,
)
    ensures
        fs.reads(path, bytes) <==> fs.inner_fs().reads(path, bytes),
        fs.has(path, there) <==> fs.inner_fs().has(path, there),
        fs.lists(path, names) <==> fs.inner_fs().lists(path, names),
        fs.describes(path, metadata) <==> fs.inner_fs().describes(path, metadata),
        !is_locked_by(fs.prefix(), path) && fs.writes(path, data, after, out) ==> fs.inner_fs().writes(path, data, after.inner_fs(), out),
        !is_locked_by(fs.prefix(), path) && fs.makes_dir(path, after, out) ==> fs.inner_fs().makes_dir(path, after.inner_fs(), out),
        !is_locked_by(fs.prefix(), path) && fs.removes(path, after, out) ==> fs.inner_fs().removes(path, after.inner_fs(), out),
{
}

} // verus!
