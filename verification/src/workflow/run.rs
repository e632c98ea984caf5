//! A run: the calls that its script makes, what is reused, and how it ends.
use crate::coding::{view_of, views};
use crate::form::Recorded;
use crate::json::{formed, member, parse_json, parse_view, parsed, print_form, print_json, printed, put, text_of, Json, JsonView};
use crate::text::{concat, copy, decimal, number, opt_text};
use crate::text_map::TextMap;
use crate::types::vfs::VirtualFs;
use crate::workflow::error::{workflow_message, WorkflowError, WorkflowErrorView};
use crate::workflow::store::{agent_result_path, coded_out, loads, path_check_out, run_path, stores_json, WorkflowStore};
use crate::workflow::types::{copy_maybe, field_or_null, or_null, pending_run, CallView, MetaView, ResultView, RunView, WorkflowAgentCall, WorkflowAgentResult, WorkflowEvent, WorkflowEventView, WorkflowRun, WorkflowScript, WorkflowScriptMeta, WorkflowStatus};
use vstd::prelude::*;
use std::collections::HashMap;
use vstd::string::*;

verus! {

broadcast use {vstd::seq_lib::group_seq_properties, vstd::std_specs::hash::group_hash_axioms};

// ---- The state ---------------------------------------------------------------

/// A run under way.
pub struct RunSession {
    run_id: String,
    script_path: String,
    meta: WorkflowScriptMeta,
    events: Vec<WorkflowEvent>,
    results: Vec<(usize, WorkflowAgentResult)>,
    next_index: usize,
    open: HashMap<usize, String>,
    cached: TextMap<WorkflowAgentResult>,
    cancelled: bool,
}

/// The state of a run under way.
pub struct SessionView {
    pub run_id: Seq<char>,
    pub script_path: Seq<char>,
    pub meta: MetaView,
    /// What happened, in order.
    pub events: Seq<WorkflowEventView>,
    /// The results in the order in which they came in, each with the number of its call.
    pub results: Seq<(usize, ResultView)>,
    /// The number of the next call.
    pub next_index: usize,
    /// The keys of the calls that a worker was handed and that did not come back yet, by
    /// their numbers.
    pub open: Map<usize, Seq<char>>,
    /// The results that are reused, by key.
    pub cached: Map<Seq<char>, ResultView>,
    pub cancelled: bool,
}

/// What numbered results say.
pub open spec fn numbered(results: Seq<(usize, WorkflowAgentResult)>) -> Seq<(usize, ResultView)> {
    Seq::new(results.len(), |i: int| (results[i].0, results[i].1@))
}

/// What results by key say.
pub open spec fn cache_view(cache: Map<Seq<char>, WorkflowAgentResult>) -> Map<Seq<char>, ResultView> {
    Map::new(|k: Seq<char>| cache.contains_key(k), |k: Seq<char>| cache[k]@)
}

/// The keys of the calls that did not come back yet.
pub open spec fn open_view(open: Map<usize, String>) -> Map<usize, Seq<char>> {
    Map::new(|n: usize| open.contains_key(n), |n: usize| open[n]@)
}

impl View for RunSession {
    type V = SessionView;

    closed spec fn view(&self) -> SessionView {
        SessionView {
            run_id: self.run_id@,
            script_path: self.script_path@,
            meta: self.meta@,
            events: views(self.events@),
            results: numbered(self.results@),
            next_index: self.next_index,
            open: open_view(self.open@),
            cached: cache_view(self.cached.map()),
            cancelled: self.cancelled,
        }
    }
}

// ---- Calls -------------------------------------------------------------------

/// The first of two members that is there.
pub open spec fn either(json: JsonView, first: Seq<char>, second: Seq<char>) -> Option<JsonView> {
    match member(json, first) {
        Some(v) => Some(v),
        None => member(json, second),
    }
}

/// The key of a call: its label, or else a name made of its number.
pub open spec fn key_of(json: JsonView, index: usize) -> Seq<char> {
    match text_of(either(json, "label"@, "key"@)) {
        Some(label) => if label.len() > 0 {
            label
        } else {
            "agent-"@ + decimal(index as nat)
        },
        None => "agent-"@ + decimal(index as nat),
    }
}

/// The call that an argument of `agent()` stands for.
pub open spec fn call_of(json: JsonView, index: usize) -> CallView {
    CallView {
        key: key_of(json, index),
        index,
        phase: None,
        agent: text_of(either(json, "agent"@, "agent_type"@)),
        task: text_of(either(json, "task"@, "prompt"@)),
        input: or_null(member(json, "input"@)),
        arguments: or_null(member(json, "arguments"@)),
    }
}

fn text_of_either(json: &Json, first: &str, second: &str) -> (r: Option<String>)
    ensures
        opt_text(r) == text_of(either(json@, first@, second@)),
{
    let found = match json.get(first) {
        Some(v) => Some(v),
        None => json.get(second),
    };
    match found {
        Some(Json::Text(text)) => Some(text.clone()),
        _ => None,
    }
}

fn call_key(json: &Json, index: usize) -> (r: String)
    ensures
        r@ == key_of(json@, index),
{
    match text_of_either(json, "label", "key") {
        Some(label) => if label.as_str().unicode_len() > 0 {
            label
        } else {
            concat("agent-", number(index as u64).as_str())
        },
        None => concat("agent-", number(index as u64).as_str()),
    }
}

/// What to do about a call.
#[derive(Debug)]
pub enum CallStep {
    /// Answer with the text of a result of an earlier run.
    Reuse(String),
    /// Hand the call to a worker.
    Work(WorkflowAgentCall),
}

/// What a [`CallStep`] says.
pub enum CallStepView {
    Reuse(Seq<char>),
    Work(CallView),
}

impl View for CallStep {
    type V = CallStepView;

    open spec fn view(&self) -> CallStepView {
        match self {
            CallStep::Reuse(text) => CallStepView::Reuse(text@),
            CallStep::Work(call) => CallStepView::Work(call@),
        }
    }
}

/// The number after `n`. Behind the largest number comes zero.
pub open spec fn next_number(n: usize) -> usize {
    if n == usize::MAX {
        0
    } else {
        (n + 1) as usize
    }
}

/// The state after a call was made whose argument parses as `parse`, and what to do about
/// it.
pub open spec fn called(s: SessionView, parse: Result<JsonView, Seq<char>>) -> (
    SessionView,
    Result<CallStepView, WorkflowErrorView>,
) {
    if s.cancelled {
        (s, Err(WorkflowErrorView::Cancelled))
    } else {
        let index = s.next_index;
        let counted = SessionView { next_index: next_number(s.next_index), ..s };
        match parse {
            Err(e) => (
                counted,
                Err(WorkflowErrorView::InvalidScript("agent() argument is not JSON: "@ + e)),
            ),
            Ok(json) => {
                let key = key_of(json, index);
                if s.cached.contains_key(key) {
                    let result = s.cached[key];
                    (
                        SessionView {
                            events: s.events.push(
                                WorkflowEventView::AgentCallCompleted {
                                    run_id: s.run_id,
                                    key,
                                    cached: true,
                                    is_error: result.is_error,
                                },
                            ),
                            results: s.results.push((index, result)),
                            ..counted
                        },
                        Ok(CallStepView::Reuse(formed(WorkflowAgentResult::form(result)))),
                    )
                } else {
                    let call = call_of(json, index);
                    (
                        SessionView {
                            events: s.events.push(
                                WorkflowEventView::AgentCallStarted {
                                    run_id: s.run_id,
                                    key,
                                    agent: call.agent,
                                    task: call.task,
                                },
                            ),
                            open: s.open.insert(index, key),
                            ..counted
                        },
                        Ok(CallStepView::Work(call)),
                    )
                }
            },
        }
    }
}

/// What a call gives, over views.
pub open spec fn step_out(r: Result<CallStep, WorkflowError>) -> Result<CallStepView, WorkflowErrorView> {
    match r {
        Ok(step) => Ok(step@),
        Err(e) => Err(e@),
    }
}

/// The text that stands for an answer, over views.
pub open spec fn answer_out(r: Result<String, WorkflowError>) -> Result<Seq<char>, WorkflowErrorView> {
    match r {
        Ok(text) => Ok(text@),
        Err(e) => Err(e@),
    }
}

/// The state after the call with the number `index`, which a worker was handed, came back
/// with `result`.
pub open spec fn answered(s: SessionView, index: usize, result: ResultView) -> SessionView {
    SessionView {
        events: s.events.push(
            WorkflowEventView::AgentCallCompleted {
                run_id: s.run_id,
                key: s.open[index],
                cached: false,
                is_error: result.is_error,
            },
        ),
        results: s.results.push((index, result)),
        open: s.open.remove(index),
        ..s
    }
}

/// What becomes of a result: it is kept, and then it counts.
pub open spec fn result_taken<V: VirtualFs>(
    before: WorkflowStore<V>,
    s: SessionView,
    index: usize,
    result: ResultView,
    after: WorkflowStore<V>,
    t: SessionView,
    out: Result<Seq<char>, WorkflowErrorView>,
) -> bool {
    exists|saved: Result<(), WorkflowErrorView>| #[trigger]
        stores_json(
            before.fs(),
            agent_result_path(s.run_id, result.key),
            WorkflowAgentResult::form(result),
            after.fs(),
            saved,
        ) && match saved {
            Ok(()) => {
                &&& t == answered(s, index, result)
                &&& out == Ok::<Seq<char>, WorkflowErrorView>(formed(WorkflowAgentResult::form(result)))
            },
            Err(e) => t == s && out == Err::<Seq<char>, WorkflowErrorView>(e),
        }
}

/// What a script is answered when a call fails.
pub open spec fn error_value(message: Seq<char>) -> JsonView {
    JsonView::Object(
        Map::empty().insert("key"@, JsonView::Text("workflow-error"@)).insert("output"@, JsonView::Null).insert(
            "is_error"@,
            JsonView::Bool(true),
        ).insert("error"@, JsonView::Text(message)),
    )
}

/// What a script is answered when a call fails.
pub fn error_reply(error: &WorkflowError) -> (r: String)
    ensures
        r@ == printed(error_value(workflow_message(error@))),
{
    let mut m: Vec<(String, Json)> = Vec::new();
    put(&mut m, "key", Json::text("workflow-error"));
    put(&mut m, "output", Json::Null);
    put(&mut m, "is_error", Json::Bool(true));
    put(&mut m, "error", Json::Text(error.to_string()));
    print_json(&Json::Object(m))
}

// ---- The end -----------------------------------------------------------------

/// A result put in its place: behind all with the same or a smaller number.
pub open spec fn placed(results: Seq<(usize, ResultView)>, r: (usize, ResultView)) -> Seq<(usize, ResultView)>
    decreases results.len(),
{
    if results.len() == 0 || results.last().0 <= r.0 {
        results.push(r)
    } else {
        placed(results.drop_last(), r).push(results.last())
    }
}

/// The results by the numbers of their calls.
pub open spec fn in_order(results: Seq<(usize, ResultView)>) -> Seq<(usize, ResultView)>
    decreases results.len(),
{
    if results.len() == 0 {
        Seq::empty()
    } else {
        placed(in_order(results.drop_last()), results.last())
    }
}

/// The results without their numbers.
pub open spec fn unnumbered(results: Seq<(usize, ResultView)>) -> Seq<ResultView> {
    Seq::new(results.len(), |i: int| results[i].1)
}

/// Some call failed.
pub open spec fn any_failed(results: Seq<(usize, ResultView)>) -> bool {
    exists|i: int| 0 <= i < results.len() && (#[trigger] results[i]).1.is_error
}

/// How a run ends.
pub struct Ending {
    pub status: WorkflowStatus,
    pub error: Option<Seq<char>>,
    pub event: WorkflowEventView,
}

/// How a run ends, where its script failed with `failure` or did not: cancelled, failed or
/// completed.
pub open spec fn ending(s: SessionView, failure: Option<WorkflowErrorView>) -> Ending {
    if s.cancelled {
        Ending {
            status: WorkflowStatus::Cancelled,
            error: None,
            event: WorkflowEventView::RunCancelled { run_id: s.run_id },
        }
    } else {
        match failure {
            Some(e) => Ending {
                status: WorkflowStatus::Failed,
                error: Some(workflow_message(e)),
                event: WorkflowEventView::RunFailed { run_id: s.run_id, error: workflow_message(e) },
            },
            None => if any_failed(s.results) {
                Ending {
                    status: WorkflowStatus::Failed,
                    error: Some("one or more workflow workers failed"@),
                    event: WorkflowEventView::RunFailed {
                        run_id: s.run_id,
                        error: "one or more workflow workers failed"@,
                    },
                }
            } else {
                Ending {
                    status: WorkflowStatus::Completed,
                    error: None,
                    event: WorkflowEventView::RunCompleted { run_id: s.run_id },
                }
            },
        }
    }
}

/// The run at its end.
pub open spec fn ended(s: SessionView, failure: Option<WorkflowErrorView>) -> RunView {
    RunView {
        run_id: s.run_id,
        script_path: s.script_path,
        meta: s.meta,
        status: ending(s, failure).status,
        results: unnumbered(in_order(s.results)),
        error: ending(s, failure).error,
    }
}

/// What is told of a run at its end, where keeping its state gave `saved`.
pub open spec fn final_answer(
    s: SessionView,
    failure: Option<WorkflowErrorView>,
    saved: Result<(), WorkflowErrorView>,
) -> Result<RunView, WorkflowErrorView> {
    match saved {
        Err(e) => Err(e),
        Ok(()) => if !s.cancelled && failure is Some {
            Err(failure->0)
        } else {
            Ok(ended(s, failure))
        },
    }
}

/// What ending a run may give.
pub open spec fn ends<V: VirtualFs>(
    before: WorkflowStore<V>,
    s: SessionView,
    failure: Option<WorkflowErrorView>,
    after: WorkflowStore<V>,
    out: Result<RunView, WorkflowErrorView>,
) -> bool {
    exists|saved: Result<(), WorkflowErrorView>| #[trigger]
        stores_json(before.fs(), run_path(s.run_id), WorkflowRun::form(ended(s, failure)), after.fs(), saved) && out
            == final_answer(s, failure, saved)
}

proof fn lemma_placed(results: Seq<(usize, ResultView)>, r: (usize, ResultView), p: int)
    requires
        0 <= p <= results.len(),
        forall|k: int| p <= k < results.len() ==> (#[trigger] results[k]).0 > r.0,
        p > 0 ==> results[p - 1].0 <= r.0,
    ensures
        placed(results, r) == results.insert(p, r),
    decreases results.len(),
{
    if p == results.len() {
        assert(results.insert(p, r) =~= results.push(r));
    } else {
        assert(results[results.len() - 1].0 > r.0);
        lemma_placed(results.drop_last(), r, p);
        assert(results.insert(p, r) =~= results.drop_last().insert(p, r).push(results.last()));
    }
}

fn order_results(results: &Vec<(usize, WorkflowAgentResult)>) -> (r: Vec<(usize, WorkflowAgentResult)>)
    ensures
        numbered(r@) == in_order(numbered(results@)),
{
    let ghost all = numbered(results@);
    let mut out: Vec<(usize, WorkflowAgentResult)> = Vec::new();
    let mut i: usize = 0;
    assert(all.take(0) =~= Seq::empty());
    assert(numbered(out@) =~= Seq::empty());
    while i < results.len()
        invariant
            i <= results@.len(),
            all == numbered(results@),
            numbered(out@) == in_order(all.take(i as int)),
        decreases results@.len() - i,
    {
        let ghost was = out@;
        let entry = &results[i];
        let mut p: usize = out.len();
        while p > 0 && out[p - 1].0 > entry.0
            invariant
                p <= out@.len(),
                forall|k: int| p <= k < out@.len() ==> (#[trigger] out@[k]).0 > entry.0,
            decreases p,
        {
            p = p - 1;
        }
        proof {
            let sorted = numbered(was);
            assert forall|k: int| p <= k < sorted.len() implies (#[trigger] sorted[k]).0 > entry.0 by {
                assert(was[k].0 > entry.0);
            }
            lemma_placed(sorted, all[i as int], p as int);
            assert(all.take(i + 1).drop_last() =~= all.take(i as int));
        }
        out.insert(p, (entry.0, entry.1.clone()));
        assert(numbered(out@) =~= numbered(was).insert(p as int, all[i as int]));
        i = i + 1;
    }
    assert(all.take(i as int) =~= all);
    out
}

// ---- Resuming ----------------------------------------------------------------

/// What a result of an earlier run adds to what is reused: a call that succeeded counts if
/// its result can still be read.
pub open spec fn adds<V: VirtualFs>(
    vfs: V,
    run_id: Seq<char>,
    result: ResultView,
    before: Map<Seq<char>, ResultView>,
    after: Map<Seq<char>, ResultView>,
) -> bool {
    if result.is_error {
        after == before
    } else {
        exists|saved: Result<ResultView, WorkflowErrorView>| #[trigger]
            loads::<V, WorkflowAgentResult>(vfs, agent_result_path(run_id, result.key), saved) && after
                == match saved {
                Ok(saved) => before.insert(saved.key, saved),
                Err(_) => before,
            }
    }
}

/// What the results of an earlier run give to reuse.
pub open spec fn collects<V: VirtualFs>(
    vfs: V,
    run_id: Seq<char>,
    results: Seq<ResultView>,
    cache: Map<Seq<char>, ResultView>,
) -> bool
    decreases results.len(),
{
    if results.len() == 0 {
        cache == Map::<Seq<char>, ResultView>::empty()
    } else {
        exists|before: Map<Seq<char>, ResultView>| #[trigger]
            adds(vfs, run_id, results.last(), before, cache) && collects(vfs, run_id, results.drop_last(), before)
    }
}

/// What an earlier run gives to reuse, where reading its state gave `run`.
pub open spec fn run_gives<V: VirtualFs>(
    vfs: V,
    run_id: Seq<char>,
    run: Result<RunView, WorkflowErrorView>,
    cache: Map<Seq<char>, ResultView>,
) -> bool {
    match run {
        Err(_) => cache == Map::<Seq<char>, ResultView>::empty(),
        Ok(run) => collects(vfs, run_id, run.results, cache),
    }
}

/// What there is to reuse of the run `run_id`.
pub open spec fn reuses<V: VirtualFs>(vfs: V, run_id: Seq<char>, cache: Map<Seq<char>, ResultView>) -> bool {
    exists|run: Result<RunView, WorkflowErrorView>| #[trigger]
        loads::<V, WorkflowRun>(vfs, run_path(run_id), run) && run_gives(vfs, run_id, run, cache)
}

/// What there is to reuse.
pub open spec fn resumes<V: VirtualFs>(
    vfs: V,
    run_id: Option<Seq<char>>,
    cache: Map<Seq<char>, ResultView>,
) -> bool {
    match run_id {
        None => cache == Map::<Seq<char>, ResultView>::empty(),
        Some(run_id) => reuses(vfs, run_id, cache),
    }
}

fn collect_results<V: VirtualFs>(
    store: &WorkflowStore<V>,
    run_id: &str,
    results: &Vec<WorkflowAgentResult>,
) -> (cache: TextMap<WorkflowAgentResult>)
    requires
        store.fs().wf(),
    ensures
        cache.wf(),
        collects(store.fs(), run_id@, views(results@), cache_view(cache.map())),
{
    let ghost all = views(results@);
    let mut cache: TextMap<WorkflowAgentResult> = TextMap::new();
    let mut i: usize = 0;
    assert(all.take(0) =~= Seq::empty());
    assert(cache_view(cache.map()) =~= Map::empty());
    while i < results.len()
        invariant
            i <= results@.len(),
            all == views(results@),
            store.fs().wf(),
            cache.wf(),
            collects(store.fs(), run_id@, all.take(i as int), cache_view(cache.map())),
        decreases results@.len() - i,
    {
        let ghost before = cache_view(cache.map());
        let result = &results[i];
        assert(all.take(i + 1).drop_last() =~= all.take(i as int));
        if !result.is_error {
            let saved = store.read_agent_result(run_id, result.key.as_str());
            let ghost out = coded_out(saved);
            assert(loads::<V, WorkflowAgentResult>(store.fs(), agent_result_path(run_id@, result@.key), out));
            match saved {
                Ok(saved) => {
                    let key = saved.key.clone();
                    let ghost k = key@;
                    let ghost v = saved@;
                    cache.insert(key, saved);
                    assert(cache_view(cache.map()) =~= before.insert(k, v));
                },
                Err(_) => {},
            }
        }
        proof {
            let so_far = all.take(i + 1);
            assert(adds(store.fs(), run_id@, so_far.last(), before, cache_view(cache.map())));
        }
        i = i + 1;
    }
    assert(all.take(i as int) =~= all);
    cache
}

/// What there is to reuse: the results of the calls of the run `source_run_id` that
/// succeeded and can still be read.
pub fn load_resume_cache<V: VirtualFs>(store: &WorkflowStore<V>, source_run_id: Option<&str>) -> (cache: TextMap<
    WorkflowAgentResult,
>)
    requires
        store.fs().wf(),
    ensures
        cache.wf(),
        resumes(
            store.fs(),
            match source_run_id {
                Some(id) => Some(id@),
                None => None,
            },
            cache_view(cache.map()),
        ),
{
    let run_id = match source_run_id {
        None => {
            let cache: TextMap<WorkflowAgentResult> = TextMap::new();
            assert(cache_view(cache.map()) =~= Map::empty());
            return cache;
        },
        Some(run_id) => run_id,
    };
    let run = store.read_run(run_id);
    let ghost out = coded_out(run);
    assert(loads::<V, WorkflowRun>(store.fs(), run_path(run_id@), out));
    match run {
        Err(_) => {
            let cache: TextMap<WorkflowAgentResult> = TextMap::new();
            assert(cache_view(cache.map()) =~= Map::empty());
            assert(run_gives(store.fs(), run_id@, out, cache_view(cache.map())));
            cache
        },
        Ok(run) => {
            let cache = collect_results(store, run_id, &run.results);
            assert(run_gives(store.fs(), run_id@, out, cache_view(cache.map())));
            cache
        },
    }
}

// ---- The session -------------------------------------------------------------

/// The state of a run that has just started.
pub open spec fn session_started(run_id: Seq<char>, script_path: Seq<char>, meta: MetaView) -> SessionView {
    SessionView {
        run_id,
        script_path,
        meta,
        events: seq![WorkflowEventView::RunStarted { run_id, script_path, name: meta.name }],
        results: Seq::empty(),
        next_index: 0,
        open: Map::empty(),
        cached: Map::empty(),
        cancelled: false,
    }
}

/// The run once it has started.
pub open spec fn running(run_id: Seq<char>, script_path: Seq<char>, meta: MetaView) -> RunView {
    RunView { status: WorkflowStatus::Running, ..pending_run(run_id, script_path, meta) }
}

/// A session or its error, over views.
pub open spec fn session_out(r: Result<RunSession, WorkflowError>) -> Result<SessionView, WorkflowErrorView> {
    match r {
        Ok(s) => Ok(s@),
        Err(e) => Err(e@),
    }
}

/// What starting a run may give: its state is kept as running, and then it runs.
pub open spec fn starts<V: VirtualFs>(
    before: WorkflowStore<V>,
    run_id: Seq<char>,
    script_path: Seq<char>,
    meta: MetaView,
    after: WorkflowStore<V>,
    out: Result<SessionView, WorkflowErrorView>,
) -> bool {
    exists|saved: Result<(), WorkflowErrorView>| #[trigger]
        stores_json(
            before.fs(),
            run_path(run_id),
            WorkflowRun::form(running(run_id, script_path, meta)),
            after.fs(),
            saved,
        ) && out == match saved {
            Ok(()) => Ok(session_started(run_id, script_path, meta)),
            Err(e) => Err(e),
        }
}

impl RunSession {
    /// What a session keeps.
    pub closed spec fn wf(&self) -> bool {
        self.cached.wf()
    }

    /// Starts a run: its state is kept as running.
    pub fn start<V: VirtualFs>(store: &mut WorkflowStore<V>, run_id: &str, script: &WorkflowScript) -> (r: Result<
        RunSession,
        WorkflowError,
    >)
        requires
            old(store).fs().wf(),
        ensures
            final(store).fs().wf(),
            r is Ok ==> r->Ok_0.wf(),
            starts(*old(store), run_id@, script.path@, script.meta@, *final(store), session_out(r)),
    {
        let ghost before = *store;
        let mut run = WorkflowRun::pending(copy(run_id), script);
        run.status = WorkflowStatus::Running;
        let saved = store.save_run(&run);
        assert(stores_json(before.fs(), run_path(run_id@), WorkflowRun::form(run@), store.fs(), path_check_out(saved)));
        match saved {
            Err(e) => {
                return Err(e);
            },
            Ok(()) => {},
        }
        let events = vec![
            WorkflowEvent::RunStarted {
                run_id: copy(run_id),
                script_path: script.path.clone(),
                name: script.meta.name.clone(),
            },
        ];
        let session = RunSession {
            run_id: copy(run_id),
            script_path: script.path.clone(),
            meta: script.meta.clone(),
            events,
            results: Vec::new(),
            next_index: 0,
            open: HashMap::new(),
            cached: TextMap::new(),
            cancelled: false,
        };
        proof {
            let start = session_started(run_id@, script.path@, script.meta@);
            assert(session@.events =~= start.events);
            assert(session@.results =~= start.results);
            assert(session@.cached =~= start.cached);
            assert(session@.open =~= start.open);
        }
        Ok(session)
    }

    /// Reuses the results of an earlier run, where there is one.
    pub fn resume<V: VirtualFs>(&mut self, store: &WorkflowStore<V>, source_run_id: Option<&str>)
        requires
            old(self).wf(),
            store.fs().wf(),
        ensures
            final(self).wf(),
            resumes(
                store.fs(),
                match source_run_id {
                    Some(id) => Some(id@),
                    None => None,
                },
                final(self)@.cached,
            ),
            final(self)@ == (SessionView { cached: final(self)@.cached, ..old(self)@ }),
    {
        self.cached = load_resume_cache(store, source_run_id);
    }

    /// The identifier of the run.
    pub fn run_id(&self) -> (r: &str)
        ensures
            r@ == self@.run_id,
    {
        self.run_id.as_str()
    }

    /// The path of the script.
    pub fn script_path(&self) -> (r: &str)
        ensures
            r@ == self@.script_path,
    {
        self.script_path.as_str()
    }

    /// What happened so far, in order.
    pub fn events(&self) -> (r: Vec<WorkflowEvent>)
        ensures
            views(r@) == self@.events,
    {
        let mut out: Vec<WorkflowEvent> = Vec::new();
        let mut i: usize = 0;
        while i < self.events.len()
            invariant
                i <= self.events@.len(),
                out@.len() == i,
                forall|k: int| 0 <= k < i ==> (#[trigger] out@[k])@ == self.events@[k]@,
            decreases self.events@.len() - i,
        {
            out.push(self.events[i].clone());
            i = i + 1;
        }
        assert(views(out@) =~= views(self.events@));
        out
    }

    /// Whether the run was cancelled.
    pub fn is_cancelled(&self) -> (r: bool)
        ensures
            r == self@.cancelled,
    {
        self.cancelled
    }

    /// Cancels the run.
    pub fn cancel(&mut self)
        requires
            old(self).wf(),
        ensures
            final(self).wf(),
            final(self)@ == (SessionView { cancelled: true, ..old(self)@ }),
    {
        self.cancelled = true;
    }

    /// Adds an event.
    pub fn push_event(&mut self, event: WorkflowEvent)
        requires
            old(self).wf(),
        ensures
            final(self).wf(),
            final(self)@ == (SessionView { events: old(self)@.events.push(event@), ..old(self)@ }),
    {
        let ghost was = views(self.events@);
        let ghost e = event@;
        self.events.push(event);
        assert(views(self.events@) =~= was.push(e));
    }

    /// The script reports progress.
    pub fn progress(&mut self, message: &str)
        requires
            old(self).wf(),
        ensures
            final(self).wf(),
            final(self)@ == (SessionView {
                events: old(self)@.events.push(
                    WorkflowEventView::Progress { run_id: old(self)@.run_id, message: message@ },
                ),
                ..old(self)@
            }),
    {
        let event = WorkflowEvent::Progress { run_id: self.run_id.clone(), message: copy(message) };
        self.push_event(event);
    }

    /// A phase of the script starts.
    pub fn phase_started(&mut self, name: &str)
        requires
            old(self).wf(),
        ensures
            final(self).wf(),
            final(self)@ == (SessionView {
                events: old(self)@.events.push(
                    WorkflowEventView::PhaseStarted { run_id: old(self)@.run_id, name: name@ },
                ),
                ..old(self)@
            }),
    {
        let event = WorkflowEvent::PhaseStarted { run_id: self.run_id.clone(), name: copy(name) };
        self.push_event(event);
    }

    /// A phase of the script ends.
    pub fn phase_completed(&mut self, name: &str)
        requires
            old(self).wf(),
        ensures
            final(self).wf(),
            final(self)@ == (SessionView {
                events: old(self)@.events.push(
                    WorkflowEventView::PhaseCompleted { run_id: old(self)@.run_id, name: name@ },
                ),
                ..old(self)@
            }),
    {
        let event = WorkflowEvent::PhaseCompleted { run_id: self.run_id.clone(), name: copy(name) };
        self.push_event(event);
    }

    fn push_result(&mut self, index: usize, result: WorkflowAgentResult)
        requires
            old(self).wf(),
        ensures
            final(self).wf(),
            final(self)@ == (SessionView { results: old(self)@.results.push((index, result@)), ..old(self)@ }),
    {
        let ghost was = numbered(self.results@);
        let ghost r = (index, result@);
        self.results.push((index, result));
        assert(numbered(self.results@) =~= was.push(r));
    }

    /// Takes a call of the script whose argument parses as `parse`, and says what to do
    /// about it.
    pub fn take_call(&mut self, parse: Result<Json, String>) -> (r: Result<CallStep, WorkflowError>)
        requires
            old(self).wf(),
        ensures
            final(self).wf(),
            (final(self)@, step_out(r)) == called(old(self)@, parse_view(parse)),
    {
        if self.cancelled {
            return Err(WorkflowError::Cancelled);
        }
        let index: usize = self.next_index;
        self.next_index = index.wrapping_add(1);
        let json = match parse {
            Err(e) => {
                return Err(WorkflowError::InvalidScript(concat("agent() argument is not JSON: ", e.as_str())));
            },
            Ok(json) => json,
        };
        let key = call_key(&json, index);
        let found = match self.cached.get(key.as_str()) {
            Some(result) => Some(result.clone()),
            None => None,
        };
        match found {
            Some(result) => {
                let event = WorkflowEvent::AgentCallCompleted {
                    run_id: self.run_id.clone(),
                    key,
                    cached: true,
                    is_error: result.is_error,
                };
                self.push_event(event);
                let text = print_form(&result.to_form());
                self.push_result(index, result);
                Ok(CallStep::Reuse(text))
            },
            None => {
                let call = WorkflowAgentCall {
                    key,
                    index,
                    phase: None,
                    agent: text_of_either(&json, "agent", "agent_type"),
                    task: text_of_either(&json, "task", "prompt"),
                    input: field_or_null(&json, "input"),
                    arguments: field_or_null(&json, "arguments"),
                };
                let event = WorkflowEvent::AgentCallStarted {
                    run_id: self.run_id.clone(),
                    key: call.key.clone(),
                    agent: copy_maybe(&call.agent),
                    task: copy_maybe(&call.task),
                };
                self.push_event(event);
                let ghost was = open_view(self.open@);
                self.open.insert(index, call.key.clone());
                assert(open_view(self.open@) =~= was.insert(index, call.key@));
                Ok(CallStep::Work(call))
            },
        }
    }

    /// Takes a call of the script, and says what to do about it.
    pub fn call(&mut self, call_json: &str) -> (r: Result<CallStep, WorkflowError>)
        requires
            old(self).wf(),
        ensures
            final(self).wf(),
            (final(self)@, step_out(r)) == called(old(self)@, parsed(call_json@)),
    {
        self.take_call(parse_json(call_json))
    }

    /// Whether a worker was handed the call with the number and did not give it back yet.
    pub fn is_open(&self, index: usize) -> (r: bool)
        ensures
            r == self@.open.contains_key(index),
    {
        self.open.contains_key(&index)
    }

    /// Takes what a worker made of a call that it was handed: the result is kept, and then it
    /// counts. Gives the text that the script is answered with.
    pub fn take_result<V: VirtualFs>(
        &mut self,
        store: &mut WorkflowStore<V>,
        index: usize,
        result: WorkflowAgentResult,
    ) -> (r: Result<String, WorkflowError>)
        requires
            old(self).wf(),
            old(self)@.open.contains_key(index),
            old(store).fs().wf(),
        ensures
            final(self).wf(),
            final(store).fs().wf(),
            result_taken(*old(store), old(self)@, index, result@, *final(store), final(self)@, answer_out(r)),
    {
        let ghost before = *store;
        let ghost s = self@;
        let saved = store.save_agent_result(self.run_id.as_str(), &result);
        assert(stores_json(
            before.fs(),
            agent_result_path(s.run_id, result@.key),
            WorkflowAgentResult::form(result@),
            store.fs(),
            path_check_out(saved),
        ));
        match saved {
            Err(e) => {
                return Err(e);
            },
            Ok(()) => {},
        }
        let key = match self.open.remove(&index) {
            Some(key) => key,
            None => String::new(),
        };
        assert(open_view(self.open@) =~= s.open.remove(index));
        let event = WorkflowEvent::AgentCallCompleted {
            run_id: self.run_id.clone(),
            key,
            cached: false,
            is_error: result.is_error,
        };
        self.push_event(event);
        let text = print_form(&result.to_form());
        self.push_result(index, result);
        assert(self@ == answered(s, index, result@));
        Ok(text)
    }

    fn has_failure(&self) -> (r: bool)
        ensures
            r == any_failed(self@.results),
    {
        let ghost all = numbered(self.results@);
        let mut i: usize = 0;
        while i < self.results.len()
            invariant
                i <= self.results@.len(),
                all == numbered(self.results@),
                forall|k: int| 0 <= k < i ==> !(#[trigger] all[k]).1.is_error,
            decreases self.results@.len() - i,
        {
            if self.results[i].1.is_error {
                assert(all[i as int].1.is_error);
                return true;
            }
            assert(!all[i as int].1.is_error);
            i = i + 1;
        }
        false
    }

    /// Ends the run, where its script failed with `failure` or did not. Its state is kept.
    pub fn finish<V: VirtualFs>(&mut self, store: &mut WorkflowStore<V>, failure: Option<WorkflowError>) -> (r: Result<
        WorkflowRun,
        WorkflowError,
    >)
        requires
            old(self).wf(),
            old(store).fs().wf(),
        ensures
            final(self).wf(),
            final(store).fs().wf(),
            final(self)@ == (SessionView {
                events: old(self)@.events.push(ending(old(self)@, view_of(failure)).event),
                ..old(self)@
            }),
            ends(*old(store), old(self)@, view_of(failure), *final(store), coded_out(r)),
    {
        let ghost before = *store;
        let ghost s = self@;
        let ghost f = view_of(failure);
        let ordered = order_results(&self.results);
        let mut results: Vec<WorkflowAgentResult> = Vec::new();
        let mut i: usize = 0;
        while i < ordered.len()
            invariant
                i <= ordered@.len(),
                results@.len() == i,
                forall|k: int| 0 <= k < i ==> (#[trigger] results@[k])@ == ordered@[k].1@,
            decreases ordered@.len() - i,
        {
            results.push(ordered[i].1.clone());
            i = i + 1;
        }
        assert(views(results@) =~= unnumbered(in_order(s.results)));
        let run_id = self.run_id.clone();
        let mut run = WorkflowRun {
            run_id: self.run_id.clone(),
            script_path: self.script_path.clone(),
            meta: self.meta.clone(),
            status: WorkflowStatus::Completed,
            results,
            error: None,
        };
        let mut failed: Option<WorkflowError> = None;
        let event = if self.cancelled {
            run.status = WorkflowStatus::Cancelled;
            WorkflowEvent::RunCancelled { run_id }
        } else {
            match failure {
                Some(e) => {
                    let message = e.to_string();
                    failed = Some(e);
                    run.status = WorkflowStatus::Failed;
                    run.error = Some(message.clone());
                    WorkflowEvent::RunFailed { run_id, error: message }
                },
                None => if self.has_failure() {
                    run.status = WorkflowStatus::Failed;
                    run.error = Some(copy("one or more workflow workers failed"));
                    WorkflowEvent::RunFailed { run_id, error: copy("one or more workflow workers failed") }
                } else {
                    WorkflowEvent::RunCompleted { run_id }
                },
            }
        };
        assert(run@ == ended(s, f));
        assert(event@ == ending(s, f).event);
        self.push_event(event);
        let saved = store.save_run(&run);
        assert(stores_json(
            before.fs(),
            run_path(s.run_id),
            WorkflowRun::form(ended(s, f)),
            store.fs(),
            path_check_out(saved),
        ));
        match saved {
            Err(e) => Err(e),
            Ok(()) => match failed {
                Some(e) => Err(e),
                None => Ok(run),
            },
        }
    }
}

} // verus!
