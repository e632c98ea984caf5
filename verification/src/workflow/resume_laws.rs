//! Laws of resuming: what an earlier run gives to a later one.
use crate::text_map::TextMap;
use crate::types::vfs::VirtualFs;
use crate::workflow::error::WorkflowErrorView;
use crate::workflow::run::{adds, cache_view, collects, load_resume_cache, run_gives};
use crate::workflow::store::{agent_result_path, loads, run_path, WorkflowStore};
use crate::workflow::types::{ResultView, RunView, WorkflowAgentResult, WorkflowRun};
use vstd::prelude::*;

verus! {

broadcast use vstd::seq_lib::group_seq_properties;

/// The kept result of a call can only be read as `saved`.
pub open spec fn only_reads_as<V: VirtualFs>(vfs: V, run_id: Seq<char>, key: Seq<char>, saved: ResultView) -> bool {
    forall|out: Result<ResultView, WorkflowErrorView>| #[trigger]
        loads::<V, WorkflowAgentResult>(vfs, agent_result_path(run_id, key), out) ==> out == Ok::<
            ResultView,
            WorkflowErrorView,
        >(saved)
}

/// The kept result of a call cannot be read as one with the key `key`.
pub open spec fn never_reads_with<V: VirtualFs>(vfs: V, run_id: Seq<char>, call: Seq<char>, key: Seq<char>) -> bool {
    forall|other: ResultView| #[trigger]
        loads::<V, WorkflowAgentResult>(vfs, agent_result_path(run_id, call), Ok(other)) ==> other.key != key
}

/// Every call of the earlier run that succeeded and whose kept result can be read is there to
/// reuse, whatever became of the other calls of the run. It is reused as it was read, unless a
/// later call of the run was kept under the same key.
pub proof fn every_success_is_reused<V: VirtualFs>(
    vfs: V,
    run_id: Seq<char>,
    results: Seq<ResultView>,
    cache: Map<Seq<char>, ResultView>,
    i: int,
    saved: ResultView,
)
    requires
        collects(vfs, run_id, results, cache),
        0 <= i < results.len(),
        !results[i].is_error,
        only_reads_as(vfs, run_id, results[i].key, saved),
    ensures
        cache.contains_key(saved.key),
        (forall|j: int|
            i < j < results.len() && !(#[trigger] results[j]).is_error ==> never_reads_with(
                vfs,
                run_id,
                results[j].key,
                saved.key,
            )) ==> cache[saved.key] == saved,
    decreases results.len(),
{
    let init = results.drop_last();
    let last = results.last();
    let n = results.len() - 1;
    assert(results[n] == last);
    let before = choose|before: Map<Seq<char>, ResultView>| #[trigger]
        adds(vfs, run_id, last, before, cache) && collects(vfs, run_id, init, before);
    if i == n {
        let out = choose|out: Result<ResultView, WorkflowErrorView>| #[trigger]
            loads::<V, WorkflowAgentResult>(vfs, agent_result_path(run_id, last.key), out) && cache == match out {
                Ok(v) => before.insert(v.key, v),
                Err(_) => before,
            };
        assert(out == Ok::<ResultView, WorkflowErrorView>(saved));
    } else {
        assert(init[i] == results[i]);
        every_success_is_reused(vfs, run_id, init, before, i, saved);
        if forall|j: int|
            i < j < results.len() && !(#[trigger] results[j]).is_error ==> never_reads_with(
                vfs,
                run_id,
                results[j].key,
                saved.key,
            ) {
            assert forall|j: int| i < j < init.len() && !(#[trigger] init[j]).is_error implies never_reads_with(
                vfs,
                run_id,
                init[j].key,
                saved.key,
            ) by {
                assert(init[j] == results[j]);
            }
            if !last.is_error {
                assert(never_reads_with(vfs, run_id, results[n].key, saved.key));
            }
        }
    }
}

/// The state of the run `run_id` can only be read as `run`.
pub open spec fn run_only_reads_as<V: VirtualFs>(vfs: V, run_id: Seq<char>, run: RunView) -> bool {
    forall|out: Result<RunView, WorkflowErrorView>| #[trigger]
        loads::<V, WorkflowRun>(vfs, run_path(run_id), out) ==> out == Ok::<RunView, WorkflowErrorView>(run)
}

/// A run that resumes another one finds the results of all its calls that succeeded, each as it was
/// kept unless a later call was kept under the same key.
pub proof fn resuming_finds_every_success<V: VirtualFs>(
    store: WorkflowStore<V>,
    run_id: &str,
    cache: TextMap<WorkflowAgentResult>,
    run: RunView,
    i: int,
    saved: ResultView,
)
    requires
        call_ensures(load_resume_cache::<V>, (&store, Some(run_id)), cache),
        run_only_reads_as(store.fs(), run_id@, run),
        0 <= i < run.results.len(),
        !run.results[i].is_error,
        only_reads_as(store.fs(), run_id@, run.results[i].key, saved),
    ensures
        cache.map().contains_key(saved.key),
        (forall|j: int|
            i < j < run.results.len() && !(#[trigger] run.results[j]).is_error ==> never_reads_with(
                store.fs(),
                run_id@,
                run.results[j].key,
                saved.key,
            )) ==> cache.map()[saved.key]@ == saved,
{
    let vfs = store.fs();
    let shown = cache_view(cache.map());
    let out = choose|out: Result<RunView, WorkflowErrorView>| #[trigger]
        loads::<V, WorkflowRun>(vfs, run_path(run_id@), out) && run_gives(vfs, run_id@, out, shown);
    assert(out == Ok::<RunView, WorkflowErrorView>(run));
    every_success_is_reused(vfs, run_id@, run.results, shown, i, saved);
    assert(shown.contains_key(saved.key));
}

/// A run that resumes none, or one whose state cannot be read, reuses nothing.
pub proof fn nothing_to_resume_gives_nothing<V: VirtualFs>(
    store: WorkflowStore<V>,
    run_id: Option<&str>,
    cache: TextMap<WorkflowAgentResult>,
    key: Seq<char>,
)
    requires
        call_ensures(load_resume_cache::<V>, (&store, run_id), cache),
        run_id matches Some(id) ==> forall|run: RunView| !#[trigger]
            loads::<V, WorkflowRun>(store.fs(), run_path(id@), Ok(run)),
    ensures
        !cache.map().contains_key(key),
{
    let vfs = store.fs();
    let shown = cache_view(cache.map());
    if let Some(id) = run_id {
        let out = choose|out: Result<RunView, WorkflowErrorView>| #[trigger]
            loads::<V, WorkflowRun>(vfs, run_path(id@), out) && run_gives(vfs, id@, out, shown);
        match out {
            Ok(run) => {
                assert(loads::<V, WorkflowRun>(vfs, run_path(id@), Ok(run)));
            },
            Err(_) => {},
        }
    }
    assert(!shown.contains_key(key));
}

} // verus!
