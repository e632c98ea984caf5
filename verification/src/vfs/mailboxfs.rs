//! Mailbox layer (`/proc/mailbox/`).
//!
//! [`MailboxFs`] routes the paths under `/proc/mailbox` to a durable [`ArtifactStore`], and
//! hands all other paths to the filesystem inside.
//!
//! Writes are dual-written: the artifact store is the authoritative source, while the
//! filesystem inside gets a copy for same-session reads by other layers. Reads always
//! come from the artifact store.
use crate::path::{is_under, trim_slashes, under, without_trailing_slashes};
use crate::text::{before_last_slash, concat, copy, parent, skip, texts};
use crate::types::artifact::{artifact_message, artifact_out, done_out, entries_out, entry_paths, entry_views, ArtifactEntryView, ArtifactErrorView, ArtifactStore};
use crate::types::vfs::{bytes_out, directory, file_of, metadata_out, names_out, unit_out, FsMetadata, VfsError, VfsErrorView, VfsSnapshot, VirtualFs};
use crate::vfs::listing::{any_under, has_path_under, is_listing_of, names_within};
use vstd::prelude::*;
use vstd::string::*;

verus! {

broadcast use vstd::seq_lib::group_seq_properties;

// ---- Paths -------------------------------------------------------------------

/// The path, without slashes at its end, is `/proc/mailbox` or lies under it.
pub open spec fn in_mailbox(path: Seq<char>) -> bool {
    under(trim_slashes(path), "/proc/mailbox"@)
}

/// The name of the artifact that a path under `/proc/mailbox` stands for.
pub open spec fn artifact_name(path: Seq<char>) -> Option<Seq<char>> {
    if trim_slashes(path) == "/proc/mailbox"@ {
        None
    } else {
        Some(trim_slashes(path).skip("/proc/mailbox"@.len() as int + 1))
    }
}

fn is_mailbox(path: &str) -> (r: bool)
    ensures
        r == in_mailbox(path@),
{
    is_under(without_trailing_slashes(path).as_str(), "/proc/mailbox")
}

/// Strip the `/proc/mailbox/` prefix. Returns `None` for `/proc/mailbox` itself.
fn mailbox_tail(path: &str) -> (r: Option<String>)
    requires
        in_mailbox(path@),
    ensures
        match r {
            Some(tail) => artifact_name(path@) == Some(tail@),
            None => artifact_name(path@) is None,
        },
{
    let trimmed = without_trailing_slashes(path);
    if *trimmed.as_str() == *"/proc/mailbox" {
        None
    } else {
        proof {
            reveal_strlit("/proc/mailbox");
        }
        Some(copy(skip(trimmed.as_str(), 14)))
    }
}

// ---- The filesystem ----------------------------------------------------------

/// An artifact was stored.
#[derive(Debug, PartialEq, Eq)]
pub struct ArtifactNotice {
    /// The full mailbox path.
    pub path: String,
    pub tenant: String,
    /// The number of bytes that were written.
    pub size: u64,
}

/// What an [`ArtifactNotice`] says.
#[verifier::ext_equal]
pub struct NoticeView {
    pub path: Seq<char>,
    pub tenant: Seq<char>,
    pub size: u64,
}

impl View for ArtifactNotice {
    type V = NoticeView;

    open spec fn view(&self) -> NoticeView {
        NoticeView { path: self.path@, tenant: self.tenant@, size: self.size }
    }
}

/// What notices say.
pub open spec fn notice_views(notices: Seq<ArtifactNotice>) -> Seq<NoticeView> {
    Seq::new(notices.len(), |i: int| notices[i]@)
}

/// A layer that routes `/proc/mailbox/**` to an [`ArtifactStore`] for durable artifact
/// persistence.
pub struct MailboxFs<V: VirtualFs, S: ArtifactStore> {
    inner: V,
    task_id: String,
    tenant: String,
    store: S,
    artifact_sink: Option<Vec<ArtifactNotice>>,
}

/// `after` holds a copy of `data` at `path`, as far as the filesystem takes it: a write,
/// and where that fails, the parent directory and one more write.
pub open spec fn mirrored<V: VirtualFs>(before: V, path: Seq<char>, data: Seq<u8>, after: V) -> bool {
    exists|first: Result<(), VfsErrorView>, state: V| #[trigger]
        before.writes(path, data, state, first) && if first is Ok {
            after == state
        } else {
            retried(state, path, data, after)
        }
}

/// The parent directory was made and the write tried again.
pub open spec fn retried<V: VirtualFs>(before: V, path: Seq<char>, data: Seq<u8>, after: V) -> bool {
    exists|made: V, second: Result<(), VfsErrorView>| #[trigger]
        made.writes(path, data, after, second) && parent_made(before, path, made)
}

/// The parent directory was made, as far as the filesystem allows it.
pub open spec fn parent_made<V: VirtualFs>(before: V, path: Seq<char>, after: V) -> bool {
    match before_last_slash(path) {
        Some(dir) => dir_made(before, dir, after),
        None => after == before,
    }
}

/// A directory was made, as far as the filesystem allows it.
pub open spec fn dir_made<V: VirtualFs>(before: V, dir: Seq<char>, after: V) -> bool {
    exists|out: Result<(), VfsErrorView>| #[trigger] before.makes_dir(dir, after, out)
}

/// What is denied when a mailbox artifact is removed.
pub open spec fn immutable(path: Seq<char>) -> VfsErrorView {
    VfsErrorView::PermissionDenied(path + ": mailbox artifacts are immutable"@)
}

/// What reading a mailbox path gives, where the store answers `got`.
pub open spec fn mailbox_read_of(path: Seq<char>, got: Result<Seq<u8>, ArtifactErrorView>) -> Result<
    Seq<u8>,
    VfsErrorView,
> {
    match got {
        Ok(data) => Ok(data),
        Err(_) => Err(VfsErrorView::NotFound(path)),
    }
}

/// What the metadata of a directory of artifacts is, where the store answers `listed`.
pub open spec fn artifact_dir_of(
    path: Seq<char>,
    name: Seq<char>,
    listed: Result<Seq<ArtifactEntryView>, ArtifactErrorView>,
) -> Result<FsMetadata, VfsErrorView> {
    match listed {
        Ok(entries) => if has_path_under(entry_paths(entries), name) {
            Ok(directory())
        } else {
            Err(VfsErrorView::NotFound(path))
        },
        Err(_) => Err(VfsErrorView::NotFound(path)),
    }
}

/// What listing a mailbox directory may give, where the store answers `listed`.
pub open spec fn mailbox_lists_of(
    prefix: Seq<char>,
    listed: Result<Seq<ArtifactEntryView>, ArtifactErrorView>,
    out: Result<Seq<Seq<char>>, VfsErrorView>,
) -> bool {
    match listed {
        Ok(entries) => out is Ok && is_listing_of(entry_paths(entries), prefix, out->Ok_0),
        Err(e) => out == Err::<Seq<Seq<char>>, VfsErrorView>(VfsErrorView::Io(artifact_message(e))),
    }
}

/// The directory of a mailbox path, with a slash behind it; nothing for the mailbox
/// itself.
pub open spec fn listing_prefix(path: Seq<char>) -> Seq<char> {
    match artifact_name(path) {
        Some(name) => name + seq!['/'],
        None => Seq::empty(),
    }
}

impl<V: VirtualFs, S: ArtifactStore> MailboxFs<V, S> {
    /// The filesystem inside.
    pub closed spec fn inner_fs(&self) -> V {
        self.inner
    }

    /// The store.
    pub closed spec fn artifacts(&self) -> S {
        self.store
    }

    /// The tenant whose mailbox it is.
    pub closed spec fn owner(&self) -> Seq<char> {
        self.tenant@
    }

    /// The task whose mailbox it is.
    pub closed spec fn task(&self) -> Seq<char> {
        self.task_id@
    }

    /// The notices that have not been taken, where they are collected.
    pub closed spec fn notices(&self) -> Option<Seq<NoticeView>> {
        match self.artifact_sink {
            Some(notices) => Some(notice_views(notices@)),
            None => None,
        }
    }

    /// A mailbox for a task of a tenant.
    pub fn new(inner: V, task_id: String, tenant: String, store: S) -> (r: Self)
        requires
            inner.wf(),
        ensures
            r.wf(),
            r.inner_fs() == inner,
            r.artifacts() == store,
            r.task() == task_id@,
            r.owner() == tenant@,
            r.notices() is None,
    {
        MailboxFs { inner, task_id, tenant, store, artifact_sink: None }
    }

    /// The same mailbox, with a notice for each successful mailbox write to come.
    pub fn with_artifact_sink(self) -> (r: Self)
        requires
            self.wf(),
        ensures
            r.wf(),
            r.inner_fs() == self.inner_fs(),
            r.artifacts() == self.artifacts(),
            r.task() == self.task(),
            r.owner() == self.owner(),
            r.notices() == Some(Seq::<NoticeView>::empty()),
    {
        let none: Vec<ArtifactNotice> = Vec::new();
        assert(notice_views(none@) =~= Seq::empty());
        MailboxFs {
            inner: self.inner,
            task_id: self.task_id,
            tenant: self.tenant,
            store: self.store,
            artifact_sink: Some(none),
        }
    }

    /// Hands the notices out, the oldest first.
    pub fn take_notices(&mut self) -> (r: Vec<ArtifactNotice>)
        ensures
            final(self).inner_fs() == old(self).inner_fs(),
            final(self).artifacts() == old(self).artifacts(),
            final(self).task() == old(self).task(),
            final(self).owner() == old(self).owner(),
            old(self).wf() ==> final(self).wf(),
            match old(self).notices() {
                Some(notices) => notice_views(r@) == notices && final(self).notices() == Some(
                    Seq::<NoticeView>::empty(),
                ),
                None => r@.len() == 0 && final(self).notices() is None,
            },
    {
        let none: Vec<ArtifactNotice> = Vec::new();
        assert(notice_views(none@) =~= Seq::empty());
        if self.artifact_sink.is_none() {
            return none;
        }
        let mut notices = Some(none);
        std::mem::swap(&mut notices, &mut self.artifact_sink);
        match notices {
            Some(notices) => notices,
            None => Vec::new(),
        }
    }

    /// The filesystem inside.
    pub fn inner(&self) -> (r: &V)
        ensures
            *r == self.inner_fs(),
    {
        &self.inner
    }

    /// The store.
    pub fn store(&self) -> (r: &S)
        ensures
            *r == self.artifacts(),
    {
        &self.store
    }

    /// The same mailbox, but for the filesystem inside.
    pub open spec fn same_mailbox(&self, after: Self) -> bool {
        &&& after.artifacts() == self.artifacts()
        &&& after.task() == self.task()
        &&& after.owner() == self.owner()
        &&& after.notices() == self.notices()
    }

    /// The notice of a write, where notices are collected.
    pub open spec fn noticed(&self, path: Seq<char>, len: nat) -> Option<Seq<NoticeView>> {
        match self.notices() {
            Some(notices) => Some(
                notices.push(NoticeView { path, tenant: self.owner(), size: len as u64 }),
            ),
            None => None,
        }
    }

    /// What writing the artifact `name` may give: the store decides.
    pub open spec fn stores(
        &self,
        path: Seq<char>,
        name: Seq<char>,
        data: Seq<u8>,
        after: Self,
        out: Result<(), VfsErrorView>,
    ) -> bool {
        exists|stored: Result<(), ArtifactErrorView>|
            #![trigger self.artifacts().puts(self.task(), self.owner(), name, data, after.artifacts(), stored)]
            {
                &&& self.artifacts().puts(self.task(), self.owner(), name, data, after.artifacts(), stored)
                &&& match stored {
                    Ok(()) => {
                        &&& out == Ok::<(), VfsErrorView>(())
                        &&& mirrored(self.inner_fs(), path, data, after.inner_fs())
                        &&& after.notices() == self.noticed(path, data.len())
                    },
                    Err(e) => {
                        &&& out == Err::<(), VfsErrorView>(VfsErrorView::Io(artifact_message(e)))
                        &&& after.inner_fs() == self.inner_fs()
                        &&& after.notices() == self.notices()
                    },
                }
            }
    }

    /// What reading the artifact `name` may give.
    pub open spec fn fetches(&self, path: Seq<char>, name: Seq<char>, out: Result<Seq<u8>, VfsErrorView>) -> bool {
        exists|got: Result<Seq<u8>, ArtifactErrorView>| #[trigger]
            self.artifacts().gets(self.owner(), self.task(), name, got) && out == mailbox_read_of(path, got)
    }

    /// What the metadata of the directory `name` may be.
    pub open spec fn dir_describes(
        &self,
        path: Seq<char>,
        name: Seq<char>,
        out: Result<FsMetadata, VfsErrorView>,
    ) -> bool {
        exists|listed: Result<Seq<ArtifactEntryView>, ArtifactErrorView>| #[trigger]
            self.artifacts().lists(self.owner(), self.task(), listed) && out == artifact_dir_of(path, name, listed)
    }

    /// What the metadata of the artifact or the directory `name` may be.
    pub open spec fn artifact_describes(
        &self,
        path: Seq<char>,
        name: Seq<char>,
        out: Result<FsMetadata, VfsErrorView>,
    ) -> bool {
        exists|got: Result<Seq<u8>, ArtifactErrorView>| #[trigger]
            self.artifacts().gets(self.owner(), self.task(), name, got) && match got {
                Ok(data) => out == Ok::<FsMetadata, VfsErrorView>(file_of(data.len())),
                Err(_) => self.dir_describes(path, name, out),
            }
    }

    /// What the metadata of a mailbox path may be.
    pub open spec fn mailbox_describes(&self, path: Seq<char>, out: Result<FsMetadata, VfsErrorView>) -> bool {
        match artifact_name(path) {
            None => out == Ok::<FsMetadata, VfsErrorView>(directory()),
            Some(name) => self.artifact_describes(path, name, out),
        }
    }

    /// What listing a mailbox path may give.
    pub open spec fn mailbox_lists(&self, path: Seq<char>, out: Result<Seq<Seq<char>>, VfsErrorView>) -> bool {
        exists|listed: Result<Seq<ArtifactEntryView>, ArtifactErrorView>| #[trigger]
            self.artifacts().lists(self.owner(), self.task(), listed) && mailbox_lists_of(
                listing_prefix(path),
                listed,
                out,
            )
    }

    /// Stores the artifact `name`, and copies it into the filesystem inside.
    fn store_artifact(&mut self, path: &str, name: &str, data: &[u8]) -> (r: Result<(), VfsError>)
        requires
            old(self).wf(),
        ensures
            final(self).wf(),
            final(self).task() == old(self).task(),
            final(self).owner() == old(self).owner(),
            old(self).stores(path@, name@, data@, *final(self), unit_out(r)),
    {
        let ghost was = *self;
        // The store is authoritative, and must succeed.
        let stored = self.store.put(self.task_id.as_str(), self.tenant.as_str(), name, data);
        let ghost after_put = *self;
        assert(was.artifacts().puts(
            was.task(),
            was.owner(),
            name@,
            data@,
            after_put.artifacts(),
            done_out(stored),
        ));
        match stored {
            Err(e) => {
                return Err(VfsError::Io(e.to_string()));
            },
            Ok(()) => {},
        }
        // A copy for same-session reads by other layers. Where it fails, the store still
        // has the data.
        self.mirror(path, data);
        match &mut self.artifact_sink {
            Some(notices) => {
                let ghost before = notice_views(notices@);
                notices.push(
                    ArtifactNotice { path: copy(path), tenant: self.tenant.clone(), size: data.len() as u64 },
                );
                assert(notice_views(notices@) =~= before.push(
                    NoticeView { path: path@, tenant: was.owner(), size: data@.len() as u64 },
                ));
            },
            None => {},
        }
        assert(self.notices() == was.noticed(path@, data@.len()));
        assert(self.artifacts() == after_put.artifacts());
        assert(mirrored(was.inner_fs(), path@, data@, self.inner_fs()));
        Ok(())
    }

    /// Copies `data` into the filesystem inside.
    fn mirror(&mut self, path: &str, data: &[u8])
        requires
            old(self).wf(),
        ensures
            final(self).wf(),
            old(self).same_mailbox(*final(self)),
            mirrored(old(self).inner_fs(), path@, data@, final(self).inner_fs()),
    {
        let ghost before = self.inner;
        let first = self.inner.write(path, data);
        let ghost state = self.inner;
        assert(before.writes(path@, data@, state, unit_out(first)));
        if first.is_err() {
            match parent(path) {
                Some(dir) => {
                    let made = self.inner.mkdir(dir.as_str());
                    assert(state.makes_dir(dir@, self.inner, unit_out(made)));
                },
                None => {},
            }
            let ghost made = self.inner;
            assert(parent_made(state, path@, made));
            let second = self.inner.write(path, data);
            assert(made.writes(path@, data@, self.inner, unit_out(second)));
            assert(retried(state, path@, data@, self.inner));
        }
    }

    /// Reads the artifact `name`.
    fn fetch_artifact(&self, path: &str, name: &str) -> (r: Result<Vec<u8>, VfsError>)
        ensures
            self.fetches(path@, name@, bytes_out(r)),
    {
        let got = self.store.get(self.tenant.as_str(), self.task_id.as_str(), name);
        assert(self.artifacts().gets(self.owner(), self.task(), name@, artifact_out(got)));
        match got {
            Ok(data) => Ok(data),
            Err(_) => Err(VfsError::NotFound(copy(path))),
        }
    }

    /// The metadata of a mailbox path.
    fn mailbox_metadata(&self, path: &str) -> (r: Result<FsMetadata, VfsError>)
        requires
            in_mailbox(path@),
        ensures
            self.mailbox_describes(path@, metadata_out(r)),
    {
        let name = match mailbox_tail(path) {
            None => {
                return Ok(FsMetadata::dir());
            },
            Some(name) => name,
        };
        let got = self.store.get(self.tenant.as_str(), self.task_id.as_str(), name.as_str());
        assert(self.artifacts().gets(self.owner(), self.task(), name@, artifact_out(got)));
        if let Ok(data) = got {
            return Ok(FsMetadata::file(data.len()));
        }
        let listed = self.store.list(self.tenant.as_str(), self.task_id.as_str());
        assert(self.artifacts().lists(self.owner(), self.task(), entries_out(listed)));
        let r = match listed {
            Ok(entries) => {
                assert(entry_paths(entry_views(entries@)) =~= texts(entries@));
                if any_under(&entries, name.as_str()) {
                    Ok(FsMetadata::dir())
                } else {
                    Err(VfsError::NotFound(copy(path)))
                }
            },
            Err(_) => Err(VfsError::NotFound(copy(path))),
        };
        assert(self.dir_describes(path@, name@, metadata_out(r)));
        r
    }

    /// Lists a mailbox path.
    fn mailbox_list_dir(&self, path: &str) -> (r: Result<Vec<String>, VfsError>)
        requires
            in_mailbox(path@),
        ensures
            self.mailbox_lists(path@, names_out(r)),
    {
        proof {
            reveal_strlit("/");
            assert("/"@ =~= seq!['/']);
        }
        let prefix = match mailbox_tail(path) {
            Some(name) => concat(name.as_str(), "/"),
            None => String::new(),
        };
        assert(prefix@ =~= listing_prefix(path@));
        let listed = self.store.list(self.tenant.as_str(), self.task_id.as_str());
        assert(self.artifacts().lists(self.owner(), self.task(), entries_out(listed)));
        match listed {
            Ok(entries) => {
                assert(entry_paths(entry_views(entries@)) =~= texts(entries@));
                Ok(names_within(&entries, prefix.as_str()))
            },
            Err(e) => Err(VfsError::Io(e.to_string())),
        }
    }
}

impl<V: VirtualFs, S: ArtifactStore> VirtualFs for MailboxFs<V, S> {
    closed spec fn wf(&self) -> bool {
        self.inner.wf()
    }

    open spec fn reads(&self, path: Seq<char>, out: Result<Seq<u8>, VfsErrorView>) -> bool {
        if in_mailbox(path) {
            match artifact_name(path) {
                None => out == Err::<Seq<u8>, VfsErrorView>(VfsErrorView::NotAFile(path)),
                Some(name) => self.fetches(path, name, out),
            }
        } else {
            self.inner_fs().reads(path, out)
        }
    }

    open spec fn writes(
        &self,
        path: Seq<char>,
        data: Seq<u8>,
        after: Self,
        out: Result<(), VfsErrorView>,
    ) -> bool {
        &&& after.task() == self.task() && after.owner() == self.owner()
        &&& if in_mailbox(path) {
            match artifact_name(path) {
                None => out == Err::<(), VfsErrorView>(VfsErrorView::NotAFile(path)) && after.inner_fs()
                    == self.inner_fs() && self.same_mailbox(after),
                Some(name) => self.stores(path, name, data, after, out),
            }
        } else {
            self.same_mailbox(after) && self.inner_fs().writes(path, data, after.inner_fs(), out)
        }
    }

    open spec fn has(&self, path: Seq<char>, out: bool) -> bool {
        if in_mailbox(path) {
            exists|m: Result<FsMetadata, VfsErrorView>| #[trigger]
                self.mailbox_describes(path, m) && out == (m is Ok)
        } else {
            self.inner_fs().has(path, out)
        }
    }

    open spec fn lists(&self, path: Seq<char>, out: Result<Seq<Seq<char>>, VfsErrorView>) -> bool {
        if in_mailbox(path) {
            self.mailbox_lists(path, out)
        } else {
            self.inner_fs().lists(path, out)
        }
    }

    open spec fn makes_dir(&self, path: Seq<char>, after: Self, out: Result<(), VfsErrorView>) -> bool {
        &&& self.same_mailbox(after)
        &&& if in_mailbox(path) {
            out == Ok::<(), VfsErrorView>(()) && after.inner_fs() == self.inner_fs()
        } else {
            self.inner_fs().makes_dir(path, after.inner_fs(), out)
        }
    }

    open spec fn removes(&self, path: Seq<char>, after: Self, out: Result<(), VfsErrorView>) -> bool {
        &&& self.same_mailbox(after)
        &&& if in_mailbox(path) {
            out == Err::<(), VfsErrorView>(immutable(path)) && after.inner_fs() == self.inner_fs()
        } else {
            self.inner_fs().removes(path, after.inner_fs(), out)
        }
    }

    open spec fn describes(&self, path: Seq<char>, out: Result<FsMetadata, VfsErrorView>) -> bool {
        if in_mailbox(path) {
            self.mailbox_describes(path, out)
        } else {
            self.inner_fs().describes(path, out)
        }
    }

    open spec fn saves(&self, out: Result<Seq<u8>, VfsErrorView>) -> bool {
        self.inner_fs().saves(out)
    }

    open spec fn restores(&self, data: Seq<u8>, after: Self, out: Result<(), VfsErrorView>) -> bool {
        self.same_mailbox(after) && self.inner_fs().restores(data, after.inner_fs(), out)
    }

    fn read(&self, path: &str) -> (r: Result<Vec<u8>, VfsError>) {
        if is_mailbox(path) {
            return match mailbox_tail(path) {
                None => Err(VfsError::NotAFile(copy(path))),
                Some(name) => self.fetch_artifact(path, name.as_str()),
            };
        }
        self.inner.read(path)
    }

    fn write(&mut self, path: &str, data: &[u8]) -> (r: Result<(), VfsError>) {
        if is_mailbox(path) {
            return match mailbox_tail(path) {
                None => Err(VfsError::NotAFile(copy(path))),
                Some(name) => self.store_artifact(path, name.as_str(), data),
            };
        }
        self.inner.write(path, data)
    }

    fn entry_exists(&self, path: &str) -> (r: bool) {
        if is_mailbox(path) {
            let metadata = self.mailbox_metadata(path);
            assert(self.mailbox_describes(path@, metadata_out(metadata)));
            return metadata.is_ok();
        }
        self.inner.entry_exists(path)
    }

    fn list_dir(&self, path: &str) -> (r: Result<Vec<String>, VfsError>) {
        if is_mailbox(path) {
            return self.mailbox_list_dir(path);
        }
        self.inner.list_dir(path)
    }

    fn mkdir(&mut self, path: &str) -> (r: Result<(), VfsError>) {
        if is_mailbox(path) {
            // Directories are implicit in the artifact store.
            return Ok(());
        }
        self.inner.mkdir(path)
    }

    fn remove(&mut self, path: &str) -> (r: Result<(), VfsError>) {
        if is_mailbox(path) {
            return Err(VfsError::PermissionDenied(concat(path, ": mailbox artifacts are immutable")));
        }
        self.inner.remove(path)
    }

    fn metadata(&self, path: &str) -> (r: Result<FsMetadata, VfsError>) {
        if is_mailbox(path) {
            return self.mailbox_metadata(path);
        }
        self.inner.metadata(path)
    }

    fn snapshot(&self) -> (r: Result<VfsSnapshot, VfsError>) {
        self.inner.snapshot()
    }

    fn restore(&mut self, snapshot: &VfsSnapshot) -> (r: Result<(), VfsError>) {
        self.inner.restore(snapshot)
    }
}

// ---- Laws --------------------------------------------------------------------

/// The store gives back what it was given: after `data` was stored, `path` reads as
/// `data`.
pub open spec fn gives_back<S: ArtifactStore>(
    after: S,
    tenant: Seq<char>,
    task_id: Seq<char>,
    path: Seq<char>,
    data: Seq<u8>,
) -> bool {
    forall|got: Result<Seq<u8>, ArtifactErrorView>| #[trigger]
        after.gets(tenant, task_id, path, got) ==> got == Ok::<Seq<u8>, ArtifactErrorView>(data)
}

/// A mailbox write that succeeded is read back, whatever became of the copy in the
/// filesystem inside, wherever the store gives back what it was given.
pub proof fn mailbox_read_gives_back_the_write<V: VirtualFs, S: ArtifactStore>(
    fs: MailboxFs<V, S>,
    path: Seq<char>,
    data: Seq<u8>,
    after: MailboxFs<V, S>,
    out: Result<(), VfsErrorView>,
    read: Result<Seq<u8>, VfsErrorView>,
)
    requires
        in_mailbox(path) && artifact_name(path) is Some,
        fs.writes(path, data, after, out),
        out is Ok,
        gives_back(after.artifacts(), fs.owner(), fs.task(), artifact_name(path)->0, data),
        after.reads(path, read),
    ensures
        read == Ok::<Seq<u8>, VfsErrorView>(data),
{
}

/// A mailbox write succeeds exactly when the store takes the artifact, and then, and only
/// then, there is a notice of it.
pub proof fn the_store_decides<V: VirtualFs, S: ArtifactStore>(
    fs: MailboxFs<V, S>,
    path: Seq<char>,
    data: Seq<u8>,
    after: MailboxFs<V, S>,
    out: Result<(), VfsErrorView>,
)
    requires
        in_mailbox(path) && artifact_name(path) is Some,
        fs.writes(path, data, after, out),
    ensures
        exists|stored: Result<(), ArtifactErrorView>| #[trigger]
            fs.artifacts().puts(
                fs.task(),
                fs.owner(),
                artifact_name(path)->0,
                data,
                after.artifacts(),
                stored,
            ) && (out is Ok <==> stored is Ok),
        out is Ok ==> after.notices() == fs.noticed(path, data.len()),
        out is Err ==> after.notices() == fs.notices() && after.inner_fs() == fs.inner_fs(),
{
}

/// Mailbox artifacts cannot be removed.
pub proof fn artifacts_stay<V: VirtualFs, S: ArtifactStore>(
    fs: MailboxFs<V, S>,
    path: Seq<char>,
    after: MailboxFs<V, S>,
    out: Result<(), VfsErrorView>,
)
    requires
        in_mailbox(path),
        fs.removes(path, after, out),
    ensures
        out is Err && out->Err_0 is PermissionDenied,
        after.artifacts() == fs.artifacts() && after.inner_fs() == fs.inner_fs(),
{
}

/// Paths outside the mailbox are those of the filesystem inside, and leave the store alone.
pub proof fn paths_outside_the_mailbox_pass_through<V: VirtualFs, S: ArtifactStore>(
    fs: MailboxFs<V, S>,
    path: Seq<char>,
    data: Seq<u8>,
    after: MailboxFs<V, S>,
    out: Result<(), VfsErrorView>,
    bytes: Result<Seq<u8>, VfsErrorView>,
    names: Result<Seq<Seq<char>>, VfsErrorView>,
    metadata: Result<FsMetadata, VfsErrorView>,
    there: bool,
)
    requires
        !in_mailbox(path),
    ensures
        fs.reads(path, bytes) <==> fs.inner_fs().reads(path, bytes),
        fs.has(path, there) <==> fs.inner_fs().has(path, there),
        fs.lists(path, names) <==> fs.inner_fs().lists(path, names),
        fs.describes(path, metadata) <==> fs.inner_fs().describes(path, metadata),
        fs.writes(path, data, after, out) ==> fs.inner_fs().writes(path, data, after.inner_fs(), out) && after.artifacts()
            == fs.artifacts(),
        fs.makes_dir(path, after, out) ==> fs.inner_fs().makes_dir(path, after.inner_fs(), out) && after.artifacts()
            == fs.artifacts(),
        fs.removes(path, after, out) ==> fs.inner_fs().removes(path, after.inner_fs(), out) && after.artifacts()
            == fs.artifacts(),
{
}

} // verus!
