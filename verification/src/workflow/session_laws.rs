//! Laws of a running workflow, said of its operations and of what they leave behind.
use crate::coding::{view_of, views, Coded};
use crate::form::Recorded;
use crate::json::{parse_view, parsed, plain, printed, Json, JsonView};
use crate::text::is_blank;
use crate::types::tool::{ToolDefinition, ToolError};
use crate::types::vfs::{VfsErrorView, VirtualFs};
use crate::vfs::memory_fs::MemoryFs;
use crate::workflow::call_laws::{filled, is_odd, scripts_come_from_the_first_source};
use crate::workflow::error::{WorkflowError, WorkflowErrorView};
use crate::workflow::laws::{kept_results_are_read_back, kept_runs_are_read_back, results_are_in_call_order};
use crate::workflow::options::{check_metadata, evaluate_metadata, metadata_source, parse_tool_options, resolve_script, run_source, started_output, workflow_tool_definition, WorkflowRunOptions};
use crate::workflow::resume_laws::{every_success_is_reused, only_reads_as, run_only_reads_as};
use crate::workflow::run::{run_gives, session_out, CallStep, RunSession, SessionView};
use crate::workflow::store::{agent_result_path, coded_out, loads, run_path, stores_json, WorkflowStore};
use crate::workflow::types::{ResultView, RunView, WorkflowAgentResult, WorkflowEvent, WorkflowEventView, WorkflowRun, WorkflowScript, WorkflowScriptMeta, WorkflowStatus};
use vstd::prelude::*;
use vstd::string::*;

verus! {

broadcast use vstd::seq_lib::group_seq_properties;

// ---- The session -------------------------------------------------------------

/// Only the events changed, by one more.
pub open spec fn announces(s: SessionView, t: SessionView, event: WorkflowEventView) -> bool {
    &&& t.events.len() == s.events.len() + 1
    &&& t.events.drop_last() == s.events
    &&& t.events.last() == event
    &&& t.run_id == s.run_id && t.script_path == s.script_path && t.meta == s.meta
    &&& t.results == s.results && t.next_index == s.next_index && t.open == s.open && t.cached == s.cached
    &&& t.cancelled == s.cancelled
}

/// What a script says of its progress and its phases is announced, and changes nothing else.
pub proof fn progress_is_announced(s: &mut RunSession, text: &str, event: WorkflowEvent)
    ensures
        call_ensures(RunSession::progress, (s, text), ()) ==> announces(
            old(s)@,
            final(s)@,
            WorkflowEventView::Progress { run_id: old(s)@.run_id, message: text@ },
        ),
        call_ensures(RunSession::phase_started, (s, text), ()) ==> announces(
            old(s)@,
            final(s)@,
            WorkflowEventView::PhaseStarted { run_id: old(s)@.run_id, name: text@ },
        ),
        call_ensures(RunSession::phase_completed, (s, text), ()) ==> announces(
            old(s)@,
            final(s)@,
            WorkflowEventView::PhaseCompleted { run_id: old(s)@.run_id, name: text@ },
        ),
        call_ensures(RunSession::push_event, (s, event), ()) ==> announces(old(s)@, final(s)@, event@),
{
    let all = final(s)@.events;
    if all.len() > 0 && all == old(s)@.events.push(all.last()) {
        assert(all.drop_last() =~= old(s)@.events);
    }
    assert(old(s)@.events.push(event@).drop_last() =~= old(s)@.events);
    assert forall|e: WorkflowEventView| #[trigger] old(s)@.events.push(e).drop_last() == old(s)@.events by {
        assert(old(s)@.events.push(e).drop_last() =~= old(s)@.events);
    }
}

/// A cancelled run says so, keeps all it has, and takes no further call.
pub proof fn cancelled_runs_take_no_calls(
    s: &mut RunSession,
    r: bool,
    t: &mut RunSession,
    parse: Result<Json, String>,
    step: Result<CallStep, WorkflowError>,
)
    requires
        call_ensures(RunSession::cancel, (s,), ()),
        old(t)@ == final(s)@,
        call_ensures(RunSession::take_call, (t, parse), step),
    ensures
        call_ensures(RunSession::is_cancelled, (&*final(s),), r) ==> r,
        final(s)@.events == old(s)@.events && final(s)@.results == old(s)@.results && final(s)@.open == old(s)@.open,
        final(s)@.next_index == old(s)@.next_index && final(s)@.cached == old(s)@.cached && final(s)@.run_id == old(s)@.run_id,
        final(t)@ == old(t)@,
        step matches Err(WorkflowError::Cancelled),
{
}

/// A session says what it holds.
pub proof fn sessions_say_what_they_hold(s: RunSession, index: usize, text: &str, events: Vec<WorkflowEvent>, r: bool)
    ensures
        call_ensures(RunSession::run_id, (&s,), text) ==> text@ == s@.run_id,
        call_ensures(RunSession::script_path, (&s,), text) ==> text@ == s@.script_path,
        call_ensures(RunSession::is_cancelled, (&s,), r) ==> r == s@.cancelled,
        call_ensures(RunSession::is_open, (&s, index), r) ==> (r <==> s@.open.contains_key(index)),
        call_ensures(RunSession::events, (&s,), events) ==> events@.len() == s@.events.len() && forall|i: int|
            0 <= i < events@.len() ==> (#[trigger] events@[i])@ == s@.events[i],
{
    if call_ensures(RunSession::events, (&s,), events) {
        assert(views(events@).len() == events@.len());
        assert forall|i: int| 0 <= i < events@.len() implies (#[trigger] events@[i])@ == s@.events[i] by {
            assert(views(events@)[i] == events@[i]@);
        }
    }
}

/// A call uses the next number: it is answered at once or open under that number, and until it is
/// answered it is open under no other.
pub proof fn calls_use_the_next_number(s: &mut RunSession, parse: Result<Json, String>, r: Result<CallStep, WorkflowError>)
    requires
        !old(s)@.cancelled,
        old(s)@.next_index < usize::MAX,
        call_ensures(RunSession::take_call, (s, parse), r),
    ensures
        final(s)@.next_index == old(s)@.next_index + 1,
        r is Err <==> parse is Err,
        r matches Ok(CallStep::Work(call)) ==> {
            &&& call.index == old(s)@.next_index
            &&& !old(s)@.cached.contains_key(call.key@)
            &&& final(s)@.open == old(s)@.open.insert(old(s)@.next_index, call.key@)
            &&& final(s)@.results == old(s)@.results
            &&& final(s)@.events.len() == old(s)@.events.len() + 1
            &&& (final(s)@.events.last() matches WorkflowEventView::AgentCallStarted { run_id, key, .. } && run_id == old(s)@.run_id
                && key == call.key@)
        },
        r matches Ok(CallStep::Reuse(text)) ==> {
            &&& final(s)@.open == old(s)@.open
            &&& final(s)@.results.len() == old(s)@.results.len() + 1
            &&& final(s)@.results.drop_last() == old(s)@.results
            &&& final(s)@.results.last().0 == old(s)@.next_index
            &&& exists|key: Seq<char>| #[trigger]
                old(s)@.cached.contains_key(key) && final(s)@.results.last().1 == old(s)@.cached[key]
            &&& (final(s)@.events.last() matches WorkflowEventView::AgentCallCompleted { run_id, cached, is_error, .. } && run_id
                == old(s)@.run_id && cached && is_error == final(s)@.results.last().1.is_error)
        },
        r is Err ==> final(s)@.results == old(s)@.results && final(s)@.open == old(s)@.open && final(s)@.events == old(s)@.events,
        final(s)@.cached == old(s)@.cached && final(s)@.run_id == old(s)@.run_id && !final(s)@.cancelled,
{
    if r matches Ok(CallStep::Reuse(text)) {
        assert(final(s)@.results.drop_last() =~= old(s)@.results);
        let key = crate::workflow::run::key_of(parse->Ok_0@, old(s)@.next_index);
        assert(old(s)@.cached.contains_key(key));
    }
}

/// An answer that could be kept counts under the number of its call, which is open no longer; one
/// that could not be kept changes nothing.
pub proof fn answers_close_their_calls<V: VirtualFs>(
    s: &mut RunSession,
    store: &mut WorkflowStore<V>,
    index: usize,
    result: WorkflowAgentResult,
    r: Result<String, WorkflowError>,
)
    requires
        old(s)@.open.contains_key(index),
        call_ensures(RunSession::take_result::<V>, (s, store, index, result), r),
    ensures
        r is Err ==> final(s)@ == old(s)@,
        r is Ok ==> {
            &&& final(s)@.open == old(s)@.open.remove(index)
            &&& final(s)@.results.len() == old(s)@.results.len() + 1
            &&& final(s)@.results.drop_last() == old(s)@.results
            &&& final(s)@.results.last() == (index, result@)
            &&& final(s)@.next_index == old(s)@.next_index && final(s)@.cached == old(s)@.cached
            &&& final(s)@.events.len() == old(s)@.events.len() + 1
            &&& (final(s)@.events.last() matches WorkflowEventView::AgentCallCompleted { run_id, key, cached, is_error } && run_id
                == old(s)@.run_id && key == old(s)@.open[index] && !cached && is_error == result.is_error)
        },
{
    if r is Ok {
        assert(final(s)@.results.drop_last() =~= old(s)@.results);
    }
}

/// The end of a run is announced once, after which the session is as it was.
pub proof fn ends_are_announced<V: VirtualFs>(
    s: &mut RunSession,
    store: &mut WorkflowStore<V>,
    failure: Option<WorkflowError>,
    r: Result<WorkflowRun, WorkflowError>,
)
    requires
        call_ensures(RunSession::finish::<V>, (s, store, failure), r),
    ensures
        announces(old(s)@, final(s)@, final(s)@.events.last()),
        old(s)@.cancelled ==> final(s)@.events.last() is RunCancelled,
        !old(s)@.cancelled && failure is Some ==> final(s)@.events.last() is RunFailed && r is Err,
        !old(s)@.cancelled && failure is None && (exists|i: int|
            0 <= i < old(s)@.results.len() && (#[trigger] old(s)@.results[i]).1.is_error) ==> final(s)@.events.last() is RunFailed,
        !old(s)@.cancelled && failure is None && (forall|i: int|
            0 <= i < old(s)@.results.len() ==> !(#[trigger] old(s)@.results[i]).1.is_error) ==> final(s)@.events.last() is RunCompleted,
        r matches Ok(run) ==> {
            &&& run.run_id@ == old(s)@.run_id
            &&& run.script_path@ == old(s)@.script_path
            &&& run.meta@ == old(s)@.meta
            &&& run.status == WorkflowStatus::Completed <==> final(s)@.events.last() is RunCompleted
            &&& run.status == WorkflowStatus::Cancelled <==> final(s)@.events.last() is RunCancelled
            &&& run.status == WorkflowStatus::Failed <==> final(s)@.events.last() is RunFailed
        },
{
    assert(final(s)@.events.drop_last() =~= old(s)@.events);
}

/// A run that resumes another one finds what succeeded there, and is otherwise as it was; one that
/// resumes none finds nothing.
pub proof fn resumed_runs_find_what_succeeded<V: VirtualFs>(
    s: &mut RunSession,
    store: WorkflowStore<V>,
    source: Option<&str>,
    run: RunView,
    i: int,
    saved: ResultView,
)
    requires
        call_ensures(RunSession::resume::<V>, (s, &store, source), ()),
    ensures
        source is None ==> forall|key: Seq<char>| !#[trigger] final(s)@.cached.contains_key(key),
        source matches Some(id) && run_only_reads_as(store.fs(), id@, run) && 0 <= i < run.results.len() && !run.results[i].is_error
            && only_reads_as(store.fs(), id@, run.results[i].key, saved) ==> final(s)@.cached.contains_key(saved.key),
        final(s)@.run_id == old(s)@.run_id && final(s)@.script_path == old(s)@.script_path && final(s)@.meta == old(s)@.meta,
        final(s)@.events == old(s)@.events && final(s)@.results == old(s)@.results && final(s)@.next_index == old(s)@.next_index,
        final(s)@.open == old(s)@.open && final(s)@.cancelled == old(s)@.cancelled,
{
    if let Some(id) = source {
        if run_only_reads_as(store.fs(), id@, run) && 0 <= i < run.results.len() && !run.results[i].is_error && only_reads_as(
            store.fs(),
            id@,
            run.results[i].key,
            saved,
        ) {
            let shown = final(s)@.cached;
            let out = choose|out: Result<RunView, WorkflowErrorView>| #[trigger]
                loads::<V, WorkflowRun>(store.fs(), run_path(id@), out) && run_gives(store.fs(), id@, out, shown);
            assert(out == Ok::<RunView, WorkflowErrorView>(run));
            every_success_is_reused(store.fs(), id@, run.results, shown, i, saved);
        }
    }
}

/// A run that has started has only the event of its start, and its state says that it runs.
pub proof fn states_say_that_a_run_has_started(
    store: &mut WorkflowStore<MemoryFs>,
    id: &str,
    script: WorkflowScript,
    started: Result<RunSession, WorkflowError>,
    state: Result<WorkflowRun, WorkflowError>,
)
    requires
        call_ensures(RunSession::start::<MemoryFs>, (store, id, &script), started),
        started is Ok,
        call_ensures(WorkflowStore::<MemoryFs>::read_run, (&*final(store), id), state),
        plain(
            WorkflowRun::enc(
                RunView {
                    run_id: id@,
                    script_path: script.path@,
                    meta: script.meta@,
                    status: WorkflowStatus::Running,
                    results: Seq::empty(),
                    error: None,
                },
            ),
            crate::json::parse_depth(),
        ),
    ensures
        started->Ok_0@.run_id == id@ && started->Ok_0@.script_path == script.path@ && started->Ok_0@.meta == script.meta@,
        started->Ok_0@.results.len() == 0 && started->Ok_0@.next_index == 0 && !started->Ok_0@.cancelled,
        started->Ok_0@.events == seq![
            WorkflowEventView::RunStarted { run_id: id@, script_path: script.path@, name: script.meta@.name },
        ],
        state is Ok,
        state->Ok_0.run_id@ == id@ && state->Ok_0.status == WorkflowStatus::Running && state->Ok_0@.results.len() == 0
            && state->Ok_0@.error is None,
{
    let run = RunView {
        run_id: id@,
        script_path: script.path@,
        meta: script.meta@,
        status: WorkflowStatus::Running,
        results: Seq::empty(),
        error: None,
    };
    let out = coded_out(state);
    let kept = choose|kept: Result<(), WorkflowErrorView>| #[trigger]
        stores_json(
            old(store).fs(),
            run_path(id@),
            WorkflowRun::form(crate::workflow::run::running(id@, script.path@, script.meta@)),
            final(store).fs(),
            kept,
        ) && session_out(started) == match kept {
            Ok(_) => Ok(crate::workflow::run::session_started(id@, script.path@, script.meta@)),
            Err(e) => Err(e),
        };
    assert(crate::workflow::run::running(id@, script.path@, script.meta@) == run);
    match kept {
        Ok(nothing) => assert(nothing == ()),
        Err(_) => {},
    }
    kept_runs_are_read_back(old(store).fs(), run, final(store).fs(), out);
}

/// The run that is told at its end is the one that is read from its state from then on.
pub proof fn states_end_with_the_run_that_is_told(
    s: &mut RunSession,
    store: &mut WorkflowStore<MemoryFs>,
    failure: Option<WorkflowError>,
    r: Result<WorkflowRun, WorkflowError>,
    id: &str,
    state: Result<WorkflowRun, WorkflowError>,
)
    requires
        call_ensures(RunSession::finish::<MemoryFs>, (s, store, failure), r),
        r is Ok,
        id@ == old(s)@.run_id,
        call_ensures(WorkflowStore::<MemoryFs>::read_run, (&*final(store), id), state),
        plain(WorkflowRun::enc(r->Ok_0@), crate::json::parse_depth()),
    ensures
        state is Ok,
        state->Ok_0@ == r->Ok_0@,
{
    let f = view_of(failure);
    let kept = choose|kept: Result<(), WorkflowErrorView>| #[trigger]
        stores_json(
            old(store).fs(),
            run_path(id@),
            WorkflowRun::form(crate::workflow::run::ended(old(s)@, f)),
            final(store).fs(),
            kept,
        ) && coded_out(r) == crate::workflow::run::final_answer(old(s)@, f, kept);
    match kept {
        Ok(nothing) => assert(nothing == ()),
        Err(_) => {},
    }
    kept_runs_are_read_back(old(store).fs(), r->Ok_0@, final(store).fs(), coded_out(state));
}

/// An answer that was taken is read from its place under the run and its key.
pub proof fn answers_are_kept_under_their_key(
    s: &mut RunSession,
    store: &mut WorkflowStore<MemoryFs>,
    index: usize,
    result: WorkflowAgentResult,
    r: Result<String, WorkflowError>,
    id: &str,
    key: &str,
    read: Result<WorkflowAgentResult, WorkflowError>,
)
    requires
        call_ensures(RunSession::take_result::<MemoryFs>, (s, store, index, result), r),
        r is Ok,
        id@ == old(s)@.run_id,
        key@ == result.key@,
        call_ensures(WorkflowStore::<MemoryFs>::read_agent_result, (&*final(store), id, key), read),
        plain(WorkflowAgentResult::enc(result@), crate::json::parse_depth()),
    ensures
        read is Ok,
        read->Ok_0@ == result@,
{
    let kept = choose|kept: Result<(), WorkflowErrorView>| #[trigger]
        stores_json(
            old(store).fs(),
            agent_result_path(id@, key@),
            WorkflowAgentResult::form(result@),
            final(store).fs(),
            kept,
        ) && match kept {
            Ok(_) => r is Ok,
            Err(_) => r is Err,
        };
    match kept {
        Ok(nothing) => assert(nothing == ()),
        Err(_) => {},
    }
    kept_results_are_read_back(old(store).fs(), id@, result@, final(store).fs(), coded_out(read));
}

/// The run that is told at its end has every result once, in the order of the calls.
pub proof fn told_runs_have_their_results_in_call_order<V: VirtualFs>(
    s: &mut RunSession,
    store: &mut WorkflowStore<V>,
    failure: Option<WorkflowError>,
    r: Result<WorkflowRun, WorkflowError>,
)
    requires
        call_ensures(RunSession::finish::<V>, (s, store, failure), r),
        r is Ok,
    ensures
        exists|ordered: Seq<(usize, ResultView)>| #[trigger]
            ordered.to_multiset() == old(s)@.results.to_multiset() && ordered.len() == r->Ok_0@.results.len() && (forall|i: int, j: int|
                0 <= i < j < ordered.len() ==> (#[trigger] ordered[i]).0 <= (#[trigger] ordered[j]).0) && (forall|i: int|
                0 <= i < ordered.len() ==> r->Ok_0@.results[i] == (#[trigger] ordered[i]).1),
{
    results_are_in_call_order(old(s)@.results);
    let ordered = crate::workflow::run::in_order(old(s)@.results);
    assert(ordered.to_multiset() == old(s)@.results.to_multiset());
}

// ---- The store ---------------------------------------------------------------

/// A state that was kept is read back under its identifier.
pub proof fn states_are_read_back(
    store: &mut WorkflowStore<MemoryFs>,
    run: WorkflowRun,
    saved: Result<(), WorkflowError>,
    id: &str,
    r: Result<WorkflowRun, WorkflowError>,
)
    requires
        WorkflowRun::stable(run@),
        plain(WorkflowRun::enc(run@), crate::json::parse_depth()),
        call_ensures(WorkflowStore::<MemoryFs>::save_run, (store, &run), saved),
        saved is Ok,
        id@ == run.run_id@,
        call_ensures(WorkflowStore::<MemoryFs>::read_run, (&*final(store), id), r),
    ensures
        r is Ok,
        r->Ok_0@ == run@,
{
    let out = crate::workflow::store::coded_out(r);
    kept_runs_are_read_back(old(store).fs(), run@, final(store).fs(), out);
}

/// A result that was kept is read back under its run and its key.
pub proof fn results_are_read_back(
    store: &mut WorkflowStore<MemoryFs>,
    id: &str,
    result: WorkflowAgentResult,
    saved: Result<(), WorkflowError>,
    key: &str,
    r: Result<WorkflowAgentResult, WorkflowError>,
)
    requires
        WorkflowAgentResult::stable(result@),
        plain(WorkflowAgentResult::enc(result@), crate::json::parse_depth()),
        call_ensures(WorkflowStore::<MemoryFs>::save_agent_result, (store, id, &result), saved),
        saved is Ok,
        key@ == result.key@,
        call_ensures(WorkflowStore::<MemoryFs>::read_agent_result, (&*final(store), id, key), r),
    ensures
        r is Ok,
        r->Ok_0@ == result@,
{
    let out = crate::workflow::store::coded_out(r);
    kept_results_are_read_back(old(store).fs(), id@, result@, final(store).fs(), out);
}

/// An inline script that was kept is a script at the place that it was given, under its run.
pub proof fn inline_scripts_are_kept<V: VirtualFs>(
    store: &mut WorkflowStore<V>,
    id: &str,
    source: &str,
    r: Result<String, WorkflowError>,
    path: String,
)
    requires
        call_ensures(WorkflowStore::<V>::persist_inline_script, (store, id, source), r),
        call_ensures(WorkflowStore::<V>::inline_script_path, (id,), path),
    ensures
        r matches Ok(p) ==> p@ == path@,
        exists|written: Result<(), VfsErrorView>| #[trigger]
            old(store).fs().writes(path@, vstd::utf8::encode_utf8(source@), final(store).fs(), written) && (written is Ok <==> r is Ok),
{
}

/// An inline script that was kept in memory is read back as it is, where its place is one for
/// scripts.
pub proof fn inline_scripts_are_read_back(
    store: &mut WorkflowStore<MemoryFs>,
    id: &str,
    source: &str,
    kept: Result<String, WorkflowError>,
    path: &str,
    valid: Result<(), WorkflowError>,
    r: Result<String, WorkflowError>,
)
    requires
        call_ensures(WorkflowStore::<MemoryFs>::persist_inline_script, (store, id, source), kept),
        kept matches Ok(p) && p@ == path@,
        call_ensures(WorkflowStore::<MemoryFs>::validate_script_path, (path,), valid),
        call_ensures(WorkflowStore::<MemoryFs>::read_script, (&*final(store), path), r),
    ensures
        valid is Ok ==> r is Ok && r->Ok_0@ == source@,
        valid is Err ==> r is Err,
{
    vstd::utf8::encode_utf8_valid_utf8(source@);
    vstd::utf8::encode_utf8_decode_utf8(source@);
}

/// The script of a run comes from its path, then from its name, then from its own source; the
/// description that a script hands out is checked as what its text says.
pub proof fn scripts_are_resolved_and_described(
    store: &mut WorkflowStore<MemoryFs>,
    id: &str,
    options: WorkflowRunOptions,
    r: Result<(String, String), WorkflowError>,
    text: &str,
    parse: Result<Json, String>,
    meta: Result<WorkflowScriptMeta, WorkflowError>,
    checked: Result<WorkflowScriptMeta, WorkflowError>,
)
    requires
        call_ensures(resolve_script::<MemoryFs>, (store, id, &options), r),
        parse_view(parse) == parsed(text@),
        call_ensures(evaluate_metadata, (text,), meta),
        call_ensures(check_metadata, (parse,), checked),
    ensures
        r matches Ok(script) ==> match (options.script_path, options.name, options.script) {
            (Some(path), _, _) => script.0@ == path@,
            (None, Some(name), _) => script.0@ == "/workflows/"@ + name@ + ".mjs"@,
            (None, None, Some(source)) => script.0@ == "/var/workflows/runs/"@ + id@ + "/workflow.mjs"@ && script.1@ == source@,
            (None, None, None) => false,
        },
        options.script_path is Some || options.name is Some ==> *final(store) == *old(store),
        meta is Ok <==> checked is Ok,
        meta is Ok ==> meta->Ok_0@ == checked->Ok_0@,
{
    let out = crate::workflow::options::resolved_out(r);
    scripts_come_from_the_first_source(*old(store), id@, options@, *final(store), out);
}

/// A store works on the filesystem that it was made with, and a loaded script holds what it was
/// loaded from.
pub proof fn stores_work_on_their_filesystem<V: VirtualFs>(
    fs: V,
    store: WorkflowStore<V>,
    shown: &V,
    path: String,
    source: String,
    meta: WorkflowScriptMeta,
    script: WorkflowScript,
)
    ensures
        call_ensures(WorkflowStore::<V>::new, (fs,), store) ==> store.fs() == fs,
        call_ensures(WorkflowStore::<V>::vfs, (&store,), shown) ==> *shown == store.fs(),
        call_ensures(WorkflowStore::<V>::load_script, (&store, path, source, meta), script) ==> script.path@ == path@
            && script.source@ == source@ && script.meta@ == meta@,
{
}

// ---- The tool ----------------------------------------------------------------

/// A run goes by the identifier that it was given.
pub proof fn given_identifiers_are_used(options: WorkflowRunOptions, r: String)
    requires
        call_ensures(WorkflowRunOptions::run_id_or_fresh, (&options,), r),
    ensures
        options.run_id matches Some(id) ==> r@ == id@,
        options.run_id is None ==> r@.len() == 26,
{
}

/// What a run says of its start has its identifier, its script and its results as members, and says
/// that it runs; the text is that of the same value.
pub proof fn starts_say_what_runs(run_id: &str, script: &str, dir: &str, r: Json)
    requires
        call_ensures(started_output, (run_id, script, dir), r),
    ensures
        r@ matches JsonView::Object(m) && {
            &&& m.contains_key("is_error"@) && m["is_error"@] == JsonView::Bool(false)
            &&& m.contains_key("structured"@)
            &&& m.contains_key("content"@) && m["content"@] == JsonView::Text(printed(m["structured"@]))
            &&& m["structured"@] matches JsonView::Object(said) && {
                &&& said.dom() == set!["run_id"@, "status"@, "script_path"@, "transcript_dir"@]
                &&& said["run_id"@] == JsonView::Text(run_id@)
                &&& said["status"@] == JsonView::Text("Running"@)
                &&& said["script_path"@] == JsonView::Text(script@)
                &&& said["transcript_dir"@] == JsonView::Text(dir@)
            }
        },
{
    crate::types::tool::lemma_output_names();
    reveal_strlit("run_id");
    reveal_strlit("status");
    reveal_strlit("script_path");
    reveal_strlit("transcript_dir");
    assert("run_id"@.len() == 6 && "status"@.len() == 6 && "script_path"@.len() == 11 && "transcript_dir"@.len() == 14);
    assert("run_id"@[0] == 'r' && "status"@[0] == 's');
    let said = r@->Object_0["structured"@]->Object_0;
    assert(said.dom() =~= set!["run_id"@, "status"@, "script_path"@, "transcript_dir"@]);
}

/// The tool is called `Workflow`, takes a script, a name, a path, arguments and a run to resume, none
/// of which must be there, and nothing else.
pub proof fn the_tool_takes_what_a_run_needs(r: ToolDefinition)
    requires
        call_ensures(workflow_tool_definition, (), r),
    ensures
        r.name@ == "Workflow"@,
        r.input_schema@ matches JsonView::Object(m) && {
            &&& m.contains_key("type"@) && m["type"@] == JsonView::Text("object"@)
            &&& m.contains_key("required"@) && (m["required"@] matches JsonView::Array(names) && names.len() == 0)
            &&& m.contains_key("additionalProperties"@) && m["additionalProperties"@] == JsonView::Bool(false)
            &&& m.contains_key("properties"@)
            &&& m["properties"@] matches JsonView::Object(p) && p.dom() == set![
                "script"@,
                "name"@,
                "script_path"@,
                "args"@,
                "resume_from_run_id"@,
            ]
        },
{
    reveal_strlit("type");
    reveal_strlit("properties");
    reveal_strlit("required");
    reveal_strlit("additionalProperties");
    assert("type"@.len() == 4 && "properties"@.len() == 10 && "required"@.len() == 8 && "additionalProperties"@.len() == 20);
    let m = r.input_schema@->Object_0;
    let p = m["properties"@]->Object_0;
    assert(p.dom() =~= set!["script"@, "name"@, "script_path"@, "args"@, "resume_from_run_id"@]);
}

/// The source that is run is the source of the script with a line behind it: for the description
/// one that hands out `meta`, for a run one with the arguments as a text of JSON and one that
/// calls `workflow` with them.
pub proof fn sources_are_run_with_a_line_behind(source: &str, args: Json, r: String)
    ensures
        call_ensures(metadata_source, (source,), r) ==> r@ == source@
            + "\nglobalThis.__simulacraWorkflowResult__ = JSON.stringify(typeof meta === 'undefined' ? null : meta);"@,
        call_ensures(run_source, (source, &args), r) ==> r@ == source@ + "\nglobalThis.__simulacraWorkflowArgsJson = "@ + printed(
            JsonView::Text(printed(args@)),
        )
            + ";\nglobalThis.__simulacraWorkflowResult__ = JSON.stringify(await workflow(JSON.parse(globalThis.__simulacraWorkflowArgsJson)));"@,
{
}

// ---- Refusals ----------------------------------------------------------------

/// The first of the texts of the input that is no text is what is said of the input; without any
/// script that is said.
pub proof fn refused_input_is_told(json: Json, r: Result<WorkflowRunOptions, ToolError>)
    requires
        call_ensures(parse_tool_options, (&json,), r),
    ensures
        !(json@ is Object) ==> is_refused(r, "Workflow input must be an object"@),
        json@ is Object ==> {
            let m = json@->Object_0;
            let texts = is_odd(m, "script"@) || is_odd(m, "name"@) || is_odd(m, "script_path"@);
            let some = filled(m, "script"@) is Some || filled(m, "name"@) is Some || filled(m, "script_path"@) is Some;
            &&& is_odd(m, "script"@) ==> is_refused(r, no_text("script"@))
            &&& !is_odd(m, "script"@) && is_odd(m, "name"@) ==> is_refused(r, no_text("name"@))
            &&& !is_odd(m, "script"@) && !is_odd(m, "name"@) && is_odd(m, "script_path"@) ==> is_refused(r, no_text("script_path"@))
            &&& !texts && !some ==> is_refused(r, "Workflow requires script, name, or script_path"@)
            &&& !texts && some && is_odd(m, "run_id"@) ==> is_refused(r, no_text("run_id"@))
            &&& !texts && some && !is_odd(m, "run_id"@) && is_odd(m, "resume_from_run_id"@) ==> is_refused(
                r,
                no_text("resume_from_run_id"@),
            )
        },
{
}

/// What is said of a member that is no text.
pub open spec fn no_text(field: Seq<char>) -> Seq<char> {
    "Workflow field `"@ + field + "` must be a string"@
}

/// The input was refused with this text.
pub open spec fn is_refused(r: Result<WorkflowRunOptions, ToolError>, text: Seq<char>) -> bool {
    r matches Err(ToolError::InvalidArguments(said)) && said@ == text
}

/// A path that is none of a script is refused with the first thing that is wrong with it, and a name
/// that is no single segment as such.
pub proof fn refused_paths_are_told<V: VirtualFs>(
    path: &str,
    r: Result<(), WorkflowError>,
    named: Result<String, WorkflowError>,
)
    ensures
        call_ensures(WorkflowStore::<V>::validate_script_path, (path,), r) ==> (r matches Err(e) ==> (
        e matches WorkflowError::InvalidScriptPath { path: at, reason } && at@ == path@ && reason@ == (if path@.contains('\0') {
            "path contains NUL byte"@
        } else if !".mjs"@.is_suffix_of(path@) {
            "workflow scripts must use .mjs extension"@
        } else if !"/workflows/"@.is_prefix_of(path@) && !"/var/workflows/runs/"@.is_prefix_of(path@) {
            "workflow path must be under /workflows/ or /var/workflows/runs/"@
        } else {
            "path traversal is not allowed"@
        }))),
        call_ensures(WorkflowStore::<V>::script_path_for_name, (path,), named) ==> (named matches Err(e) ==> (
        e matches WorkflowError::InvalidScriptPath { path: at, reason } && at@ == path@ && reason@
            == "workflow name must be a single path segment"@)),
{
}

/// A description that is missing, or has a blank name or text, is refused as such.
pub proof fn refused_descriptions_are_told(
    parse: Result<Json, String>,
    m: Map<Seq<char>, JsonView>,
    name: Seq<char>,
    text: Seq<char>,
    r: Result<WorkflowScriptMeta, WorkflowError>,
)
    requires
        call_ensures(check_metadata, (parse,), r),
    ensures
        parse matches Err(e) ==> (r matches Err(WorkflowError::Serde(told)) && told@ == e@),
        parse is Ok && parse->Ok_0@ is Null ==> (r matches Err(WorkflowError::InvalidMetadata(told)) && told@
            == "workflow meta must be exported as a non-empty object"@),
        parse is Ok && parse->Ok_0@ == JsonView::Object(m) && m.contains_key("name"@) && m["name"@] == JsonView::Text(name)
            && m.contains_key("description"@) && m["description"@] == JsonView::Text(text) && (is_blank(name) || is_blank(text)) ==> (
        r matches Err(WorkflowError::InvalidMetadata(told)) && told@ == "workflow meta name and description must be non-empty"@),
{
    if parse is Ok && parse->Ok_0@ == JsonView::Object(m) {
        crate::workflow::record_laws::descriptions_are_written_and_read_by_name(
            crate::workflow::types::MetaView { name, description: text },
            m,
        );
    }
}

} // verus!
