//! Laws of a run over all mounts and of a copy, said of what was asked and what was answered.
use crate::text::{decimal, texts};
use crate::types::vfs::{VfsErrorView, VirtualFs};
use crate::vfs::memory_fs::MemoryFs;
use crate::vfs::mount::{action_at, step_count, MountActionView, MountError, MountErrorView, MountSettings};
use crate::vfs::mount_copy::{path_of_entry, unreadable_file, CopyDir, CopyDirView, CopyJob, CopyLimits, EntryStep, HostEntry};
use crate::vfs::mount_run::{ask_out, at_step, MountAsk, MountAskView, MountRun, MountRunView, PromptView, StageView};
use vstd::prelude::*;

verus! {

broadcast use vstd::seq_lib::group_seq_properties;

// ---- Runs --------------------------------------------------------------------

/// The run stands at the first step from `from` on at which something is to be done, and asks what
/// that step needs to know first; it is done where there is no such step.
pub open spec fn goes_on(
    settings: MountSettings,
    from: nat,
    mounts: nat,
    files: nat,
    run: MountRunView,
    out: Result<MountAskView, MountErrorView>,
) -> bool {
    let n = 1 + settings.prompts@.len() + settings.mounts@.len();
    &&& from <= run.step <= n
    &&& run.mounts == mounts && run.files == files
    &&& forall|i: int|
        from <= i < run.step ==> #[trigger] action_at(settings, i) == Ok::<MountActionView, MountErrorView>(
            MountActionView::Nothing,
        )
    &&& if run.step == n {
        run.stage is Over && out == Ok::<MountAskView, MountErrorView>(MountAskView::Done { mounts, files })
    } else {
        match action_at(settings, run.step as int) {
            Err(e) => run.stage is Over && out == Err::<MountAskView, MountErrorView>(e),
            Ok(MountActionView::Nothing) => false,
            Ok(MountActionView::Skills { source }) => {
                &&& run.stage == (StageView::SkillsDir { source })
                &&& out == Ok::<MountAskView, MountErrorView>(MountAskView::IsDir { path: source })
            },
            Ok(MountActionView::Prompt { agent, prompt_path, source, target }) => {
                &&& run.stage == StageView::PromptThere(PromptView { agent, prompt_path, source, target })
                &&& out == Ok::<MountAskView, MountErrorView>(MountAskView::Exists { path: source })
            },
            Ok(MountActionView::Mount { source, target }) => {
                &&& run.stage == (StageView::SourceThere { source, target })
                &&& out == Ok::<MountAskView, MountErrorView>(MountAskView::Exists { path: source })
            },
        }
    }
}

proof fn lemma_goes_on(settings: MountSettings, from: nat, mounts: nat, files: nat)
    requires
        from <= step_count(settings),
    ensures
        goes_on(settings, from, mounts, files, at_step(settings, from, mounts, files).0, at_step(settings, from, mounts, files).1),
    decreases step_count(settings) - from,
{
    if from < step_count(settings) && action_at(settings, from as int) == Ok::<MountActionView, MountErrorView>(
        MountActionView::Nothing,
    ) {
        lemma_goes_on(settings, from + 1, mounts, files);
    }
}

/// The run is over, with this error, and has mounted nothing more.
pub open spec fn stops(was: MountRunView, run: MountRunView, out: Result<MountAskView, MountErrorView>, e: MountErrorView) -> bool {
    run.stage is Over && run.mounts == was.mounts && run.files == was.files && run.step == was.step && out == Err::<
        MountAskView,
        MountErrorView,
    >(e)
}

/// The run stays at its step, and asks this next.
pub open spec fn asks(
    was: MountRunView,
    run: MountRunView,
    stage: StageView,
    out: Result<MountAskView, MountErrorView>,
    ask: MountAskView,
) -> bool {
    run.stage == stage && run.mounts == was.mounts && run.files == was.files && run.step == was.step && out == Ok::<
        MountAskView,
        MountErrorView,
    >(ask)
}

/// A run begins at the first step, with nothing mounted.
pub proof fn runs_begin_at_the_first_step(settings: MountSettings, r: (MountRun, Result<MountAsk, MountError>))
    requires
        call_ensures(MountRun::start, (settings,), r),
    ensures
        r.0.config() == settings,
        goes_on(settings, 0, 0, 0, r.0@, ask_out(r.1)),
{
    lemma_goes_on(settings, 0, 0, 0);
}

/// What is there is mounted or looked at further. Skills that are not there are passed over, and so
/// is a prompt that is not there, but for the one of the entry agent; a configured source must be
/// there.
pub proof fn flags_decide_what_is_mounted(run: &mut MountRun, there: bool, r: Result<MountAsk, MountError>)
    requires
        old(run).wf(),
        call_ensures(MountRun::answer_flag, (run, there), r),
    ensures
        final(run).config() == old(run).config(),
        old(run)@.stage matches StageView::SkillsDir { source } ==> if there {
            asks(
                old(run)@,
                final(run)@,
                StageView::SkillsCopy,
                ask_out(r),
                MountAskView::Copy { source, target: "/skills"@ },
            )
        } else {
            goes_on(old(run).config(), old(run)@.step + 1, old(run)@.mounts, old(run)@.files, final(run)@, ask_out(r))
        },
        old(run)@.stage matches StageView::PromptThere(p) ==> if there {
            asks(
                old(run)@,
                final(run)@,
                StageView::PromptCanonical(p),
                ask_out(r),
                MountAskView::Canonical { path: p.source },
            )
        } else if p.agent == old(run).config().entry_agent@ {
            stops(
                old(run)@,
                final(run)@,
                ask_out(r),
                MountErrorView::EntryPromptNotFound { prompt_path: p.prompt_path, resolved: p.source },
            )
        } else {
            goes_on(old(run).config(), old(run)@.step + 1, old(run)@.mounts, old(run)@.files, final(run)@, ask_out(r))
        },
        old(run)@.stage matches StageView::SourceThere { source, target } ==> if there {
            asks(old(run)@, final(run)@, StageView::SourceCopy, ask_out(r), MountAskView::Copy { source, target })
        } else {
            stops(old(run)@, final(run)@, ask_out(r), MountErrorView::SourceNotFound { source_path: source, target })
        },
{
    old(run).steps_are_left();
    if old(run)@.stage is SkillsDir || old(run)@.stage is PromptThere {
        lemma_goes_on(old(run).config(), old(run)@.step + 1, old(run)@.mounts, old(run)@.files);
    }
}

/// A prompt is looked at further only where it lies in the project: at its root or below it.
pub proof fn prompts_lie_in_the_project(run: &mut MountRun, path: Result<String, String>, r: Result<MountAsk, MountError>)
    requires
        call_ensures(MountRun::answer_path, (run, path), r),
    ensures
        final(run).config() == old(run).config(),
        old(run)@.stage matches StageView::PromptCanonical(p) ==> match path {
            Err(e) => stops(
                old(run)@,
                final(run)@,
                ask_out(r),
                MountErrorView::Io { context: "failed to canonicalize system prompt path: "@ + p.source, source: e@ },
            ),
            Ok(host) => asks(
                old(run)@,
                final(run)@,
                StageView::PromptRoot(p, host@),
                ask_out(r),
                MountAskView::Canonical { path: old(run).config().project_root@ },
            ),
        },
        old(run)@.stage matches StageView::PromptRoot(p, host) ==> match path {
            Err(e) => stops(
                old(run)@,
                final(run)@,
                ask_out(r),
                MountErrorView::Io {
                    context: "failed to canonicalize project root: "@ + old(run).config().project_root@,
                    source: e@,
                },
            ),
            Ok(root) => if root@ == "/"@ || host == root@ || (root@ + seq!['/']).is_prefix_of(host) {
                asks(old(run)@, final(run)@, StageView::PromptSize(p), ask_out(r), MountAskView::Size { path: p.source })
            } else {
                stops(
                    old(run)@,
                    final(run)@,
                    ask_out(r),
                    MountErrorView::PathTraversal { prompt_path: p.prompt_path, resolved: host, root: root@ },
                )
            },
        },
{
    if let Ok(root) = path {
        assert(root@ + seq!['/'] =~= root@.push('/'));
    }
}

/// A prompt of at most one megabyte is read, and a larger one is refused.
pub proof fn large_prompts_are_refused(run: &mut MountRun, size: Result<u64, String>, r: Result<MountAsk, MountError>)
    requires
        call_ensures(MountRun::answer_size, (run, size), r),
    ensures
        final(run).config() == old(run).config(),
        old(run)@.stage matches StageView::PromptSize(p) ==> match size {
            Err(e) => stops(
                old(run)@,
                final(run)@,
                ask_out(r),
                MountErrorView::Io { context: "failed to stat system prompt: "@ + p.source, source: e@ },
            ),
            Ok(n) => if n <= 1024 * 1024 {
                asks(old(run)@, final(run)@, StageView::PromptRead(p), ask_out(r), MountAskView::Read { path: p.source })
            } else {
                stops(
                    old(run)@,
                    final(run)@,
                    ask_out(r),
                    MountErrorView::PromptTooLarge { prompt_path: p.prompt_path, size: n as nat },
                )
            },
        },
{
}

/// What was copied counts as one mount more and its files, and the run goes on with the next step.
pub proof fn copies_count_as_one_mount(run: &mut MountRun, files: usize, r: Result<MountAsk, MountError>)
    requires
        old(run).wf(),
        old(run)@.stage is SkillsCopy || old(run)@.stage is SourceCopy,
        call_ensures(MountRun::answer_copied, (run, files), r),
    ensures
        final(run).config() == old(run).config(),
        goes_on(
            old(run).config(),
            old(run)@.step + 1,
            old(run)@.mounts + 1,
            old(run)@.files + files as nat,
            final(run)@,
            ask_out(r),
        ),
{
    old(run).steps_are_left();
    lemma_goes_on(old(run).config(), old(run)@.step + 1, old(run)@.mounts + 1, old(run)@.files + files as nat);
}

/// A prompt that was read is written to its place, counts as one mount and one file, and can be read
/// there; one that could not be read ends the run and writes nothing.
pub proof fn prompts_count_as_one_file(
    run: &mut MountRun,
    vfs: &mut MemoryFs,
    bytes: Result<Vec<u8>, String>,
    r: Result<MountAsk, MountError>,
    read: Result<Seq<u8>, VfsErrorView>,
)
    requires
        old(run).wf(),
        old(run)@.stage is PromptRead,
        call_ensures(MountRun::answer_bytes::<MemoryFs>, (run, vfs, bytes), r),
        final(vfs).reads(old(run)@.stage->PromptRead_0.target, read),
    ensures
        final(run).config() == old(run).config(),
        bytes matches Err(e) ==> *final(vfs) == *old(vfs) && stops(
            old(run)@,
            final(run)@,
            ask_out(r),
            MountErrorView::Io {
                context: "failed to read system prompt: "@ + old(run)@.stage->PromptRead_0.source,
                source: e@,
            },
        ),
        bytes matches Ok(data) ==> {
            ||| final(run)@.stage is Over && final(run)@.mounts == old(run)@.mounts && final(run)@.files == old(run)@.files
                && ask_out(r) is Err && crate::path::normalized(old(run)@.stage->PromptRead_0.target)
                == crate::vfs::memory_fs::root()
            ||| read == Ok::<Seq<u8>, VfsErrorView>(data@) && goes_on(
                old(run).config(),
                old(run)@.step + 1,
                old(run)@.mounts + 1,
                old(run)@.files + 1,
                final(run)@,
                ask_out(r),
            )
        },
{
    old(run).steps_are_left();
    lemma_goes_on(old(run).config(), old(run)@.step + 1, old(run)@.mounts + 1, old(run)@.files + 1);
    if let Ok(data) = bytes {
        let target = old(run)@.stage->PromptRead_0.target;
        let written = choose|written: Option<MountErrorView>| #[trigger]
            crate::vfs::mount::prompt_written(*old(vfs), target, data@, *final(vfs), written) && (final(run)@, ask_out(r))
                == crate::vfs::mount_run::prompt_done(old(run).config(), old(run)@, written);
        crate::vfs::mount_laws::written_prompts_are_read_back(*old(vfs), target, data@, *final(vfs), written, read);
    }
}

/// Skills and prompts are mounted by themselves, and what was configured is not; a prompt has its
/// place from when its size is asked for.
pub proof fn waiting_runs_say_what_they_wait_for(run: MountRun, r: bool, target: Option<&str>, files: usize)
    ensures
        call_ensures(MountRun::is_automatic, (&run,), r) ==> (r <==> match run@.stage {
            StageView::SkillsDir { .. } | StageView::SkillsCopy => true,
            StageView::PromptThere(_) | StageView::PromptCanonical(_) | StageView::PromptRoot(_, _) => true,
            StageView::PromptSize(_) | StageView::PromptRead(_) => true,
            StageView::SourceThere { .. } | StageView::SourceCopy | StageView::Over => false,
        }),
        call_ensures(MountRun::prompt_target, (&run,), target) ==> match run@.stage {
            StageView::PromptSize(p) => target is Some && target->0@ == p.target,
            StageView::PromptRead(p) => target is Some && target->0@ == p.target,
            _ => target is None,
        },
        call_ensures(MountRun::files, (&run,), files) ==> files == run@.files,
{
}

// ---- Copies ------------------------------------------------------------------

/// A copy begins with its one directory, and has counted nothing.
pub proof fn copies_begin_with_their_directory(host: &str, target: &str, limits: CopyLimits, name: &str, r: CopyJob)
    requires
        call_ensures(CopyJob::new, (host, target, limits, name), r),
    ensures
        r@.files == 0 && r@.bytes == 0,
        !r@.warned_files && !r@.warned_bytes,
        r@.limits == limits,
        r@.mount_target == name@,
        r@.dirs.len() == 1 && r@.dirs[0].host == host@ && r@.dirs[0].target == target@,
        forall|k: (u64, u64)| !r@.entered.contains(k),
{
}

/// A directory is entered once: it waits under the path of its entry and counts as entered. A file
/// is read where it keeps both limits, and counts as one file in any case. Anything else is skipped.
pub proof fn entries_are_taken_by_their_kind(
    job: &mut CopyJob,
    dir: &str,
    host: &str,
    name: &str,
    entry: HostEntry,
    r: Result<EntryStep, MountError>,
)
    requires
        call_ensures(CopyJob::take_entry, (job, dir, host, name, entry), r),
    ensures
        final(job)@.limits == old(job)@.limits && final(job)@.mount_target == old(job)@.mount_target,
        final(job)@.bytes == old(job)@.bytes,
        final(job)@.files == old(job)@.files + if entry is File { 1int } else { 0int },
        final(job)@.warned_files == old(job)@.warned_files && final(job)@.warned_bytes == old(job)@.warned_bytes,
        match entry {
            HostEntry::Other => r matches Ok(EntryStep::Skip) && final(job)@.dirs == old(job)@.dirs && final(job)@.entered
                == old(job)@.entered,
            HostEntry::Dir { device, inode } => if old(job)@.entered.contains((device, inode)) {
                r matches Ok(EntryStep::Loop) && final(job)@.dirs == old(job)@.dirs && final(job)@.entered
                    == old(job)@.entered
            } else {
                &&& r matches Ok(EntryStep::Enter)
                &&& final(job)@.entered == old(job)@.entered.insert((device, inode))
                &&& final(job)@.dirs == old(job)@.dirs.push(
                    CopyDirView { host: host@, target: if dir@ == "/"@ { "/"@ + name@ } else { dir@ + "/"@ + name@ } },
                )
            },
            HostEntry::File { size } => {
                &&& final(job)@.dirs == old(job)@.dirs && final(job)@.entered == old(job)@.entered
                &&& r is Ok <==> old(job)@.files + 1 <= old(job)@.limits.max_files && old(job)@.bytes + size
                    <= old(job)@.limits.max_bytes
                &&& r is Ok ==> (r matches Ok(EntryStep::Read { target }) && target@ == if dir@ == "/"@ {
                    "/"@ + name@
                } else {
                    dir@ + "/"@ + name@
                })
                &&& old(job)@.files + 1 > old(job)@.limits.max_files ==> (r matches Err(
                    MountError::FileLimitExceeded { mount_target, actual, limit },
                ) && mount_target@ == old(job)@.mount_target && actual == old(job)@.files + 1 && limit
                    == old(job)@.limits.max_files)
                &&& old(job)@.files + 1 <= old(job)@.limits.max_files && old(job)@.bytes + size > old(job)@.limits.max_bytes
                    ==> (r matches Err(MountError::SizeLimitExceeded { mount_target, actual, limit }) && mount_target@
                    == old(job)@.mount_target && actual == old(job)@.bytes + size && limit == old(job)@.limits.max_bytes)
            },
        },
{
    if let HostEntry::Dir { device, inode } = entry {
        if !old(job)@.entered.contains((device, inode)) {
            assert(r is Ok);
        }
    }
}

/// The path of an entry is its name behind its directory, with one slash between them; a file that
/// cannot be read is told with its path.
pub proof fn entries_stand_behind_their_directory(dir: &str, name: &str, r: String, e: MountError)
    ensures
        call_ensures(path_of_entry, (dir, name), r) ==> r@ == (if dir@ == "/"@ { "/"@ + name@ } else { dir@ + "/"@ + name@ }),
        call_ensures(unreadable_file, (dir, name), e) ==> (e matches MountError::Io { context, source } && context@
            == "failed to read file for mount: "@ + dir@ && source@ == name@),
{
}

/// A file that was written counts with its bytes, can be read where it was written, and brings a
/// warning for each limit that is near for the first time.
pub proof fn files_count_with_their_bytes(
    job: &mut CopyJob,
    vfs: &mut MemoryFs,
    path: &str,
    data: &[u8],
    r: Result<Vec<String>, MountError>,
    read: Result<Seq<u8>, VfsErrorView>,
)
    requires
        call_ensures(CopyJob::write_file::<MemoryFs>, (job, vfs, path, data), r),
        final(vfs).reads(path@, read),
    ensures
        final(job)@.bytes == old(job)@.bytes + data@.len(),
        final(job)@.files == old(job)@.files,
        final(job)@.dirs == old(job)@.dirs && final(job)@.entered == old(job)@.entered,
        final(job)@.limits == old(job)@.limits && final(job)@.mount_target == old(job)@.mount_target,
        r is Ok ==> read == Ok::<Seq<u8>, VfsErrorView>(data@),
        r matches Err(e) ==> (e matches MountError::VfsWrite { path: at, .. } && at@ == path@),
        r is Ok ==> {
            let files_new = !old(job)@.warned_files && old(job)@.files >= old(job)@.limits.file_threshold;
            let bytes_new = !old(job)@.warned_bytes && old(job)@.bytes + data@.len() >= old(job)@.limits.byte_threshold;
            &&& final(job)@.warned_files <==> old(job)@.warned_files || files_new
            &&& final(job)@.warned_bytes <==> old(job)@.warned_bytes || bytes_new
            &&& r->Ok_0@.len() == (if files_new { 1int } else { 0int }) + (if bytes_new { 1int } else { 0int })
            &&& files_new ==> r->Ok_0@[0]@ == "mount '"@ + old(job)@.mount_target + "' approaching file limit: "@ + decimal(
                old(job)@.files,
            ) + "/"@ + decimal(old(job)@.limits.max_files as nat)
            &&& bytes_new ==> r->Ok_0@.last()@ == "mount '"@ + old(job)@.mount_target + "' approaching size limit: "@ + decimal(
                old(job)@.bytes + data@.len(),
            ) + "/"@ + decimal(old(job)@.limits.max_bytes as nat)
        },
{
    if let Ok(warnings) = r {
        let told = texts(warnings@);
        assert(told.len() == warnings@.len());
        if warnings@.len() > 0 {
            assert(told[0] == warnings@[0]@);
            assert(told[warnings@.len() - 1] == warnings@.last()@);
        }
    }
}

/// The directory found last is read next, and is made in the filesystem; without one the copy is
/// over and changes nothing.
pub proof fn the_last_directory_is_next(job: &mut CopyJob, vfs: &mut MemoryFs, r: Option<CopyDir>)
    requires
        call_ensures(CopyJob::next_dir::<MemoryFs>, (job, vfs), r),
    ensures
        r is None <==> old(job)@.dirs.len() == 0,
        r is None ==> final(job)@ == old(job)@ && *final(vfs) == *old(vfs),
        r matches Some(dir) ==> dir.host@ == old(job)@.dirs.last().host && dir.target@ == old(job)@.dirs.last().target
            && final(job)@.dirs == old(job)@.dirs.drop_last() && final(job)@.files == old(job)@.files && final(job)@.bytes
            == old(job)@.bytes && final(job)@.entered == old(job)@.entered && final(job)@.limits == old(job)@.limits && exists|
            made: Result<(), VfsErrorView>,
        | #[trigger] old(vfs).makes_dir(dir.target@, *final(vfs), made),
{
}

} // verus!
