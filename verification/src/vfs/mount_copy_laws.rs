//! What holds of a whole copy.
use crate::path::under;
use crate::types::vfs::VirtualFs;
use crate::vfs::mount::dir_made;
use crate::vfs::mount_copy::{copies_stay_under_the_target, copy_started, entry_taken, file_written, placed_under, CopyLimits, CopyView, EntryStepView, HostEntry};
use vstd::prelude::*;

verus! {

broadcast use vstd::seq_lib::group_seq_properties;

/// One step of a copy.
pub enum CopyMove {
    /// The next directory is opened.
    Open,
    /// An entry was found in the directory that is open.
    Entry { host: Seq<char>, name: Seq<char>, entry: HostEntry },
    /// The file that was asked for was read, and its bytes are written.
    File { data: Seq<u8> },
}

/// How far a copy has come.
pub struct CopyTrace {
    pub job: CopyView,
    /// Where the directory goes to that is open.
    pub dir: Seq<char>,
    /// The targets that were handed out, in order.
    pub handed: Seq<Seq<char>>,
    /// What was written, in order.
    pub wrote: Seq<(Seq<char>, Seq<u8>)>,
}

/// The start of a copy of `host` to `target`.
pub open spec fn trace_started(
    host: Seq<char>,
    target: Seq<char>,
    limits: CopyLimits,
    mount_target: Seq<char>,
) -> CopyTrace {
    CopyTrace {
        job: copy_started(host, target, limits, mount_target),
        dir: target,
        handed: Seq::empty(),
        wrote: Seq::empty(),
    }
}

/// No file is asked for that was not written yet.
pub open spec fn all_written(s: CopyTrace) -> bool {
    s.handed.len() == s.wrote.len()
}

/// A copy goes one step on.
pub open spec fn moves_on<V: VirtualFs>(before: V, s: CopyTrace, step: CopyMove, after: V, t: CopyTrace) -> bool {
    match step {
        CopyMove::Open => {
            &&& all_written(s)
            &&& s.job.dirs.len() > 0
            &&& dir_made(before, s.job.dirs.last().target, after)
            &&& t == (CopyTrace {
                job: CopyView { dirs: s.job.dirs.drop_last(), ..s.job },
                dir: s.job.dirs.last().target,
                ..s
            })
        },
        CopyMove::Entry { host, name, entry } => {
            let (job, out) = entry_taken(s.job, s.dir, host, name, entry);
            &&& all_written(s)
            &&& after == before
            &&& out is Ok
            &&& t == match out->Ok_0 {
                EntryStepView::Read { target } => CopyTrace { job, handed: s.handed.push(target), ..s },
                _ => CopyTrace { job, ..s },
            }
        },
        CopyMove::File { data } => {
            &&& s.handed.len() == s.wrote.len() + 1
            &&& exists|warnings: Seq<Seq<char>>| #[trigger]
                file_written(before, s.job, s.handed.last(), data, after, t.job, Ok(warnings))
            &&& t == (CopyTrace { job: t.job, wrote: s.wrote.push((s.handed.last(), data)), ..s })
        },
    }
}

/// A copy goes on step by step.
pub open spec fn copies<V: VirtualFs>(before: V, s: CopyTrace, steps: Seq<CopyMove>, after: V, t: CopyTrace) -> bool
    decreases steps.len(),
{
    if steps.len() == 0 {
        after == before && t == s
    } else {
        exists|mid: V, m: CopyTrace| #[trigger]
            moves_on(mid, m, steps.last(), after, t) && copies(before, s, steps.drop_last(), mid, m)
    }
}

/// The number of files that were read.
pub open spec fn files_read(steps: Seq<CopyMove>) -> nat
    decreases steps.len(),
{
    if steps.len() == 0 {
        0
    } else {
        files_read(steps.drop_last()) + if steps.last() is File {
            1nat
        } else {
            0nat
        }
    }
}

/// The sum of the lengths of the files that were read.
pub open spec fn lengths_read(steps: Seq<CopyMove>) -> nat
    decreases steps.len(),
{
    if steps.len() == 0 {
        0
    } else {
        lengths_read(steps.drop_last()) + match steps.last() {
            CopyMove::File { data } => data.len(),
            _ => 0,
        }
    }
}

/// The bytes of the files that were read, in order.
pub open spec fn contents_read(steps: Seq<CopyMove>) -> Seq<Seq<u8>>
    decreases steps.len(),
{
    if steps.len() == 0 {
        Seq::empty()
    } else {
        match steps.last() {
            CopyMove::File { data } => contents_read(steps.drop_last()).push(data),
            _ => contents_read(steps.drop_last()),
        }
    }
}

/// What was written: each target that was handed out, with the bytes of the file that was
/// read for it.
pub open spec fn paired(targets: Seq<Seq<char>>, contents: Seq<Seq<u8>>) -> Seq<(Seq<char>, Seq<u8>)> {
    Seq::new(contents.len(), |i: int| (targets[i], contents[i]))
}

/// Every target lies at or under `root`.
pub open spec fn all_under(targets: Seq<Seq<char>>, root: Seq<char>) -> bool {
    forall|i: int| 0 <= i < targets.len() ==> under(#[trigger] targets[i], root)
}

/// A whole copy counts what it did, at every step: the bytes are the sum of the lengths of the
/// files that were read. The files are those that were read, and one more where one is asked
/// for. What was written are those files at the targets that were handed out for them, each
/// once and in order, and no more. The files stay within their limit, and the targets at or
/// under that of the copy.
pub proof fn a_copy_counts_what_it_wrote<V: VirtualFs>(
    before: V,
    host: Seq<char>,
    target: Seq<char>,
    limits: CopyLimits,
    mount_target: Seq<char>,
    steps: Seq<CopyMove>,
    after: V,
    t: CopyTrace,
)
    requires
        copies(before, trace_started(host, target, limits, mount_target), steps, after, t),
    ensures
        t.job.files == t.handed.len(),
        t.wrote.len() == files_read(steps),
        t.handed.len() == t.wrote.len() || t.handed.len() == t.wrote.len() + 1,
        all_written(t) ==> t.job.files == files_read(steps),
        t.job.bytes == lengths_read(steps),
        t.wrote == paired(t.handed, contents_read(steps)),
        t.job.files <= limits.max_files,
        target != "/"@ ==> all_under(t.handed, target),
{
    lemma_copies(before, host, target, limits, mount_target, steps, after, t);
}

/// What a copy keeps from step to step.
proof fn lemma_copies<V: VirtualFs>(
    before: V,
    host: Seq<char>,
    target: Seq<char>,
    limits: CopyLimits,
    mount_target: Seq<char>,
    steps: Seq<CopyMove>,
    after: V,
    t: CopyTrace,
)
    requires
        copies(before, trace_started(host, target, limits, mount_target), steps, after, t),
    ensures
        t.job.limits == limits,
        t.job.files == t.handed.len(),
        t.job.files <= limits.max_files,
        t.wrote.len() == files_read(steps),
        contents_read(steps).len() == files_read(steps),
        t.wrote.len() <= t.handed.len() <= t.wrote.len() + 1,
        t.job.bytes == lengths_read(steps),
        t.wrote == paired(t.handed, contents_read(steps)),
        target != "/"@ ==> all_under(t.handed, target) && placed_under(t.job, target) && under(t.dir, target),
    decreases steps.len(),
{
    let start = trace_started(host, target, limits, mount_target);
    if steps.len() == 0 {
        assert(t.wrote =~= paired(t.handed, contents_read(steps)));
    } else {
        let (mid, m) = choose|mid: V, m: CopyTrace| #[trigger]
            moves_on(mid, m, steps.last(), after, t) && copies(before, start, steps.drop_last(), mid, m);
        lemma_copies(before, host, target, limits, mount_target, steps.drop_last(), mid, m);
        match steps.last() {
            CopyMove::Open => {
                assert(under(m.job.dirs[m.job.dirs.len() - 1].target, target) || target == "/"@);
            },
            CopyMove::Entry { host: at, name, entry } => {
                if target != "/"@ {
                    copies_stay_under_the_target(m.job, target, m.dir, at, name, entry);
                }
                assert(t.wrote =~= paired(t.handed, contents_read(steps)));
            },
            CopyMove::File { data } => {
                assert(t.wrote =~= paired(t.handed, contents_read(steps)));
            },
        }
    }
}

} // verus!
