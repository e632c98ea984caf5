//! Copying a directory tree of the host into a filesystem, step by step.
//!
//! A [`CopyJob`] says which directory to read next, takes the entries that were found in it
//! one by one, and says for each what to do. It keeps the limits, and enters no directory
//! twice, so that links cannot lead it in circles.
use crate::path::{under, under_is_transitive};
use crate::text::{concat, concat3, copy, decimal, number};
use crate::types::vfs::{unit_out, VfsErrorView, VirtualFs};
use crate::vfs::mount::{dir_made, write_error, MountError, MountErrorView};
use vstd::prelude::*;
use vstd::string::*;

verus! {

broadcast use vstd::seq_lib::group_seq_properties;

/// How much a mount may hold, and from where on it is warned of.
#[derive(Debug, Clone, Copy, PartialEq, Eq)]
pub struct CopyLimits {
    pub max_files: usize,
    pub max_bytes: u64,
    pub file_threshold: usize,
    pub byte_threshold: u64,
}

/// A directory to be copied.
#[derive(Debug, PartialEq, Eq)]
pub struct CopyDir {
    /// Where it is on the host.
    pub host: String,
    /// Where it goes to.
    pub target: String,
}

/// What a [`CopyDir`] says.
#[verifier::ext_equal]
pub struct CopyDirView {
    pub host: Seq<char>,
    pub target: Seq<char>,
}

impl View for CopyDir {
    type V = CopyDirView;

    open spec fn view(&self) -> CopyDirView {
        CopyDirView { host: self.host@, target: self.target@ }
    }
}

/// What directories say.
pub open spec fn dir_views(dirs: Seq<CopyDir>) -> Seq<CopyDirView> {
    Seq::new(dirs.len(), |i: int| dirs[i]@)
}

/// What an entry of a host directory is, with links followed.
#[derive(Debug, Clone, Copy, PartialEq, Eq)]
pub enum HostEntry {
    /// A directory, by the device and the inode that it is known by.
    Dir { device: u64, inode: u64 },
    /// A file of `size` bytes.
    File { size: u64 },
    /// Anything else.
    Other,
}

/// What to do about an entry.
#[derive(Debug, PartialEq, Eq)]
pub enum EntryStep {
    /// Nothing.
    Skip,
    /// Nothing: the directory was entered before.
    Loop,
    /// Nothing now: the directory waits to be read.
    Enter,
    /// Read the file, and hand its bytes in for `target`.
    Read { target: String },
}

/// What an [`EntryStep`] says.
#[verifier::ext_equal]
pub enum EntryStepView {
    Skip,
    Loop,
    Enter,
    Read { target: Seq<char> },
}

impl View for EntryStep {
    type V = EntryStepView;

    open spec fn view(&self) -> EntryStepView {
        match self {
            EntryStep::Skip => EntryStepView::Skip,
            EntryStep::Loop => EntryStepView::Loop,
            EntryStep::Enter => EntryStepView::Enter,
            EntryStep::Read { target } => EntryStepView::Read { target: target@ },
        }
    }
}

/// A copy under way.
pub struct CopyJob {
    mount_target: String,
    limits: CopyLimits,
    files: usize,
    bytes: u64,
    warned_files: bool,
    warned_bytes: bool,
    dirs: Vec<CopyDir>,
    entered: Vec<(u64, u64)>,
}

/// The state of a copy.
#[verifier::ext_equal]
pub struct CopyView {
    /// The mount, as errors and warnings name it.
    pub mount_target: Seq<char>,
    pub limits: CopyLimits,
    /// The files that were counted.
    pub files: nat,
    /// The bytes that were read.
    pub bytes: nat,
    pub warned_files: bool,
    pub warned_bytes: bool,
    /// The directories that wait to be read, the next one last.
    pub dirs: Seq<CopyDirView>,
    /// The directories that were found, by device and inode.
    pub entered: Set<(u64, u64)>,
}

impl View for CopyJob {
    type V = CopyView;

    closed spec fn view(&self) -> CopyView {
        CopyView {
            mount_target: self.mount_target@,
            limits: self.limits,
            files: self.files as nat,
            bytes: self.bytes as nat,
            warned_files: self.warned_files,
            warned_bytes: self.warned_bytes,
            dirs: dir_views(self.dirs@),
            entered: self.entered@.to_set(),
        }
    }
}

/// The path of the entry `name` of the directory `dir`.
pub open spec fn entry_path(dir: Seq<char>, name: Seq<char>) -> Seq<char> {
    if dir == "/"@ {
        "/"@ + name
    } else {
        dir + "/"@ + name
    }
}

/// The start of a copy of `host` to `target`.
pub open spec fn copy_started(
    host: Seq<char>,
    target: Seq<char>,
    limits: CopyLimits,
    mount_target: Seq<char>,
) -> CopyView {
    CopyView {
        mount_target,
        limits,
        files: 0,
        bytes: 0,
        warned_files: false,
        warned_bytes: false,
        dirs: seq![CopyDirView { host, target }],
        entered: Set::empty(),
    }
}

/// The state after an entry, and what to do about it.
pub open spec fn entry_taken(
    job: CopyView,
    dir: Seq<char>,
    host: Seq<char>,
    name: Seq<char>,
    entry: HostEntry,
) -> (CopyView, Result<EntryStepView, MountErrorView>) {
    match entry {
        HostEntry::Dir { device, inode } => if job.entered.contains((device, inode)) {
            (job, Ok(EntryStepView::Loop))
        } else {
            (
                CopyView {
                    dirs: job.dirs.push(CopyDirView { host, target: entry_path(dir, name) }),
                    entered: job.entered.insert((device, inode)),
                    ..job
                },
                Ok(EntryStepView::Enter),
            )
        },
        HostEntry::File { size } => (
            CopyView { files: job.files + 1, ..job },
            if job.files + 1 > job.limits.max_files {
                Err(
                    MountErrorView::FileLimitExceeded {
                        mount_target: job.mount_target,
                        actual: job.files + 1,
                        limit: job.limits.max_files as nat,
                    },
                )
            } else if job.bytes + size > job.limits.max_bytes {
                Err(
                    MountErrorView::SizeLimitExceeded {
                        mount_target: job.mount_target,
                        actual: job.bytes + size as nat,
                        limit: job.limits.max_bytes as nat,
                    },
                )
            } else {
                Ok(EntryStepView::Read { target: entry_path(dir, name) })
            },
        ),
        HostEntry::Other => (job, Ok(EntryStepView::Skip)),
    }
}

/// The files come close to their limit, for the first time.
pub open spec fn files_near(job: CopyView) -> bool {
    !job.warned_files && job.files >= job.limits.file_threshold
}

/// The bytes come close to their limit, for the first time.
pub open spec fn bytes_near(job: CopyView) -> bool {
    !job.warned_bytes && job.bytes >= job.limits.byte_threshold
}

/// What is warned of when the files come close to their limit.
pub open spec fn files_warning(job: CopyView) -> Seq<char> {
    "mount '"@ + job.mount_target + "' approaching file limit: "@ + decimal(job.files) + "/"@ + decimal(
        job.limits.max_files as nat,
    )
}

/// What is warned of when the bytes come close to their limit.
pub open spec fn bytes_warning(job: CopyView) -> Seq<char> {
    "mount '"@ + job.mount_target + "' approaching size limit: "@ + decimal(job.bytes) + "/"@ + decimal(
        job.limits.max_bytes as nat,
    )
}

/// The state after `len` bytes were read.
pub open spec fn bytes_read(job: CopyView, len: nat) -> CopyView {
    CopyView { bytes: job.bytes + len, ..job }
}

/// The state after a file was written.
pub open spec fn file_taken(job: CopyView, len: nat) -> CopyView {
    let read = bytes_read(job, len);
    CopyView {
        warned_files: read.warned_files || files_near(read),
        warned_bytes: read.warned_bytes || bytes_near(read),
        ..read
    }
}

/// The warnings after a file was written.
pub open spec fn file_warnings(job: CopyView, len: nat) -> Seq<Seq<char>> {
    let read = bytes_read(job, len);
    let first = if files_near(read) {
        seq![files_warning(read)]
    } else {
        Seq::empty()
    };
    let second = if bytes_near(read) {
        seq![bytes_warning(read)]
    } else {
        Seq::empty()
    };
    first + second
}

/// What an entry gives, over views.
pub open spec fn step_out(r: Result<EntryStep, MountError>) -> Result<EntryStepView, MountErrorView> {
    match r {
        Ok(step) => Ok(step@),
        Err(e) => Err(e@),
    }
}

/// What writing a file gives, over views.
pub open spec fn warnings_out(r: Result<Vec<String>, MountError>) -> Result<Seq<Seq<char>>, MountErrorView> {
    match r {
        Ok(warnings) => Ok(crate::text::texts(warnings@)),
        Err(e) => Err(e@),
    }
}

/// What writing the bytes of a file may give.
pub open spec fn file_written<V: VirtualFs>(
    before: V,
    job: CopyView,
    path: Seq<char>,
    data: Seq<u8>,
    after: V,
    job_after: CopyView,
    out: Result<Seq<Seq<char>>, MountErrorView>,
) -> bool {
    exists|written: Result<(), VfsErrorView>| #[trigger]
        before.writes(path, data, after, written) && match written {
            Ok(()) => {
                &&& job_after == file_taken(job, data.len())
                &&& out == Ok::<Seq<Seq<char>>, MountErrorView>(file_warnings(job, data.len()))
            },
            Err(e) => {
                &&& job_after == bytes_read(job, data.len())
                &&& out == Err::<Seq<Seq<char>>, MountErrorView>(write_error(path, e))
            },
        }
}

fn warning(mount_target: &str, what: &str, used: u64, limit: u64) -> (r: String)
    ensures
        r@ == "mount '"@ + mount_target@ + what@ + decimal(used as nat) + "/"@ + decimal(limit as nat),
{
    let mut r = concat3("mount '", mount_target, what);
    r.append(number(used).as_str());
    r.append("/");
    r.append(number(limit).as_str());
    r
}

impl CopyJob {
    /// The start of a copy of the host directory `host` to `target`.
    pub fn new(host: &str, target: &str, limits: CopyLimits, mount_target: &str) -> (r: Self)
        ensures
            r@ == copy_started(host@, target@, limits, mount_target@),
    {
        let dirs = vec![CopyDir { host: copy(host), target: copy(target) }];
        let entered: Vec<(u64, u64)> = Vec::new();
        let r = CopyJob {
            mount_target: copy(mount_target),
            limits,
            files: 0,
            bytes: 0,
            warned_files: false,
            warned_bytes: false,
            dirs,
            entered,
        };
        assert(r@.dirs =~= seq![CopyDirView { host: host@, target: target@ }]);
        assert(r@.entered =~= Set::empty());
        r
    }

    /// The files that were counted.
    pub fn files(&self) -> (r: usize)
        ensures
            r == self@.files,
    {
        self.files
    }

    /// The bytes that were read.
    pub fn bytes(&self) -> (r: u64)
        ensures
            r == self@.bytes,
    {
        self.bytes
    }

    /// The next directory to read; none when the copy is complete. The directory is made
    /// first, as far as the filesystem allows it.
    pub fn next_dir<V: VirtualFs>(&mut self, vfs: &mut V) -> (r: Option<CopyDir>)
        requires
            old(vfs).wf(),
        ensures
            final(vfs).wf(),
            match r {
                Some(dir) => {
                    &&& old(self)@.dirs.len() > 0
                    &&& dir@ == old(self)@.dirs.last()
                    &&& final(self)@ == (CopyView { dirs: old(self)@.dirs.drop_last(), ..old(self)@ })
                    &&& dir_made(*old(vfs), dir@.target, *final(vfs))
                },
                None => old(self)@.dirs.len() == 0 && final(self)@ == old(self)@ && *final(vfs) == *old(vfs),
            },
    {
        let ghost was = self.dirs@;
        let ghost before = *vfs;
        let r = self.dirs.pop();
        proof {
            if was.len() > 0 {
                assert(dir_views(self.dirs@) =~= dir_views(was).drop_last());
            } else {
                assert(self.dirs@ =~= was);
            }
        }
        match &r {
            Some(dir) => {
                let made = vfs.mkdir(dir.target.as_str());
                assert(before.makes_dir(dir.target@, *vfs, unit_out(made)));
                assert(dir_made(before, dir@.target, *vfs));
            },
            None => {},
        }
        r
    }

    fn was_entered(&self, key: (u64, u64)) -> (r: bool)
        ensures
            r == self@.entered.contains(key),
    {
        let mut i: usize = 0;
        while i < self.entered.len()
            invariant
                i <= self.entered@.len(),
                forall|k: int| 0 <= k < i ==> #[trigger] self.entered@[k] != key,
            decreases self.entered@.len() - i,
        {
            if self.entered[i].0 == key.0 && self.entered[i].1 == key.1 {
                assert(self.entered@[i as int] == key);
                assert(self.entered@.contains(key));
                return true;
            }
            i = i + 1;
        }
        assert(!self.entered@.contains(key));
        false
    }

    /// Takes the entry `name` of the directory that goes to `dir`, and says what to do
    /// about it. `host` is where the entry is.
    pub fn take_entry(&mut self, dir: &str, host: &str, name: &str, entry: HostEntry) -> (r: Result<
        EntryStep,
        MountError,
    >)
        requires
            entry is File ==> old(self)@.files < usize::MAX && old(self)@.bytes + entry->size <= u64::MAX,
        ensures
            (final(self)@, step_out(r)) == entry_taken(old(self)@, dir@, host@, name@, entry),
    {
        let ghost was = self@;
        match entry {
            HostEntry::Dir { device, inode } => {
                let key = (device, inode);
                if self.was_entered(key) {
                    return Ok(EntryStep::Loop);
                }
                let ghost dirs = self.dirs@;
                let ghost entered = self.entered@;
                self.entered.push(key);
                let target = path_of_entry(dir, name);
                self.dirs.push(CopyDir { host: copy(host), target });
                proof {
                    assert(dir_views(self.dirs@) =~= dir_views(dirs).push(
                        CopyDirView { host: host@, target: entry_path(dir@, name@) },
                    ));
                    assert(self.entered@.to_set() =~= entered.to_set().insert(key)) by {
                        assert forall|k: (u64, u64)| self.entered@.contains(k) == (entered.contains(k) || k == key) by {
                            assert(self.entered@[entered.len() as int] == key);
                            if entered.contains(k) {
                                let i = choose|i: int| 0 <= i < entered.len() && entered[i] == k;
                                assert(self.entered@[i] == k);
                            }
                        }
                    }
                }
                Ok(EntryStep::Enter)
            },
            HostEntry::File { size } => {
                self.files = self.files + 1;
                if self.files > self.limits.max_files {
                    return Err(
                        MountError::FileLimitExceeded {
                            mount_target: self.mount_target.clone(),
                            actual: self.files,
                            limit: self.limits.max_files,
                        },
                    );
                }
                if self.bytes + size > self.limits.max_bytes {
                    return Err(
                        MountError::SizeLimitExceeded {
                            mount_target: self.mount_target.clone(),
                            actual: self.bytes + size,
                            limit: self.limits.max_bytes,
                        },
                    );
                }
                Ok(EntryStep::Read { target: path_of_entry(dir, name) })
            },
            HostEntry::Other => Ok(EntryStep::Skip),
        }
    }

    /// Writes the bytes of a file, and gives the warnings that are due.
    pub fn write_file<V: VirtualFs>(&mut self, vfs: &mut V, path: &str, data: &[u8]) -> (r: Result<
        Vec<String>,
        MountError,
    >)
        requires
            old(vfs).wf(),
            old(self)@.bytes + data@.len() <= u64::MAX,
        ensures
            final(vfs).wf(),
            file_written(*old(vfs), old(self)@, path@, data@, *final(vfs), final(self)@, warnings_out(r)),
    {
        let ghost before = *vfs;
        let ghost job = self@;
        self.bytes = self.bytes + data.len() as u64;
        assert(self@ == bytes_read(job, data@.len()));
        let written = vfs.write(path, data);
        assert(before.writes(path@, data@, *vfs, unit_out(written)));
        match written {
            Ok(()) => {},
            Err(e) => {
                return Err(MountError::VfsWrite { path: copy(path), detail: e.to_string() });
            },
        }
        let mut warnings: Vec<String> = Vec::new();
        if !self.warned_files && self.files >= self.limits.file_threshold {
            self.warned_files = true;
            warnings.push(
                warning(
                    self.mount_target.as_str(),
                    "' approaching file limit: ",
                    self.files as u64,
                    self.limits.max_files as u64,
                ),
            );
        }
        if !self.warned_bytes && self.bytes >= self.limits.byte_threshold {
            self.warned_bytes = true;
            warnings.push(
                warning(
                    self.mount_target.as_str(),
                    "' approaching size limit: ",
                    self.bytes,
                    self.limits.max_bytes,
                ),
            );
        }
        assert(crate::text::texts(warnings@) =~= file_warnings(job, data@.len()));
        assert(self@ == file_taken(job, data@.len()));
        Ok(warnings)
    }
}

/// The error of a file that the host could not read.
pub fn unreadable_file(host: &str, error: &str) -> (r: MountError)
    ensures
        r@ == (MountErrorView::Io { context: "failed to read file for mount: "@ + host@, source: error@ }),
{
    MountError::Io { context: concat("failed to read file for mount: ", host), source: copy(error) }
}

/// The path of the entry `name` of the directory `dir`.
pub fn path_of_entry(dir: &str, name: &str) -> (r: String)
    ensures
        r@ == entry_path(dir@, name@),
{
    if *dir == *"/" {
        concat("/", name)
    } else {
        concat3(dir, "/", name)
    }
}

// ---- Laws --------------------------------------------------------------------

/// No file is read that would bring a mount over its limits.
pub proof fn limits_hold(job: CopyView, dir: Seq<char>, host: Seq<char>, name: Seq<char>, size: u64)
    requires
        entry_taken(job, dir, host, name, HostEntry::File { size }).1 is Ok,
    ensures
        entry_taken(job, dir, host, name, HostEntry::File { size }).0.files <= job.limits.max_files,
        job.bytes + size <= job.limits.max_bytes,
{
}

/// A directory is entered at most once: after it was found, whatever else was found since,
/// it only leads to a loop.
pub proof fn no_directory_twice(
    job: CopyView,
    later: CopyView,
    dir: Seq<char>,
    host: Seq<char>,
    name: Seq<char>,
    device: u64,
    inode: u64,
)
    requires
        entry_taken(job, dir, host, name, HostEntry::Dir { device, inode }).0.entered.subset_of(later.entered),
    ensures
        entry_taken(later, dir, host, name, HostEntry::Dir { device, inode }) == (
            later,
            Ok::<EntryStepView, MountErrorView>(EntryStepView::Loop),
        ),
{
}

/// What was found stays found.
pub proof fn found_directories_stay(
    job: CopyView,
    dir: Seq<char>,
    host: Seq<char>,
    name: Seq<char>,
    entry: HostEntry,
    len: nat,
)
    ensures
        job.entered.subset_of(entry_taken(job, dir, host, name, entry).0.entered),
        file_taken(job, len).entered == job.entered,
{
}

/// Every directory that waits is placed at or under `root`.
pub open spec fn placed_under(job: CopyView, root: Seq<char>) -> bool {
    forall|i: int| 0 <= i < job.dirs.len() ==> under(#[trigger] job.dirs[i].target, root)
}

/// Whatever the host has, everything that is copied has its place at or under the target of
/// the mount, which is never the root.
pub proof fn copies_stay_under_the_target(
    job: CopyView,
    root: Seq<char>,
    dir: Seq<char>,
    host: Seq<char>,
    name: Seq<char>,
    entry: HostEntry,
)
    requires
        root != "/"@,
        under(dir, root),
        placed_under(job, root),
    ensures
        placed_under(copy_started(host, root, job.limits, job.mount_target), root),
        placed_under(entry_taken(job, dir, host, name, entry).0, root),
        entry_taken(job, dir, host, name, entry).1 matches Ok(EntryStepView::Read { target }) ==> under(target, root),
{
    reveal_strlit("/");
    let at = entry_path(dir, name);
    assert("/"@ =~= seq!['/']);
    if dir == "/"@ {
        assert(root.len() == 0) by {
            if dir != root {
                assert(root.push('/').len() <= 1);
            }
        }
        assert(root.push('/') =~= at.subrange(0, 1));
    } else {
        assert(dir.push('/') =~= at.subrange(0, dir.len() as int + 1));
        assert(under(at, dir));
        under_is_transitive(at, dir, root);
    }
}

/// Each limit is warned of at most once.
pub proof fn one_warning_per_limit(job: CopyView, first: nat, second: nat)
    ensures
        files_near(bytes_read(job, first)) ==> !files_near(bytes_read(file_taken(job, first), second)),
        bytes_near(bytes_read(job, first)) ==> !bytes_near(bytes_read(file_taken(job, first), second)),
{
}

} // verus!
