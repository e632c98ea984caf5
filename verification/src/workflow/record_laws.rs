//! Laws of how scripts, calls, results and runs are written as JSON, and what is read of it.
use crate::coding::{dec_list, enc_list, Coded};
use crate::form::Recorded;
use crate::json::{FormView, Json, JsonView};
use crate::workflow::event_laws::says_text;
use crate::workflow::types::{lemma_call_names, lemma_meta_names, lemma_result_names, lemma_run_names, CallView, MetaView, ResultView, RunView, WorkflowAgentCall, WorkflowAgentResult, WorkflowRun, WorkflowScript, WorkflowScriptMeta, WorkflowStatus};
use vstd::prelude::*;

verus! {

broadcast use vstd::seq_lib::group_seq_properties;

/// The member is the text, or is missing or null where there is none.
pub open spec fn may_say(m: Map<Seq<char>, JsonView>, key: Seq<char>, text: Option<Seq<char>>) -> bool {
    match text {
        Some(text) => m.contains_key(key) && m[key] == JsonView::Text(text),
        None => !m.contains_key(key) || m[key] is Null,
    }
}

/// The member is the value, which is null where it is missing.
pub open spec fn holds_value(m: Map<Seq<char>, JsonView>, key: Seq<char>, value: JsonView) -> bool {
    value == if m.contains_key(key) {
        m[key]
    } else {
        JsonView::Null
    }
}

/// A status is written by its name.
pub proof fn statuses_are_written_by_name()
    ensures
        WorkflowStatus::enc(WorkflowStatus::Pending) == JsonView::Text("Pending"@),
        WorkflowStatus::enc(WorkflowStatus::Running) == JsonView::Text("Running"@),
        WorkflowStatus::enc(WorkflowStatus::Completed) == JsonView::Text("Completed"@),
        WorkflowStatus::enc(WorkflowStatus::Failed) == JsonView::Text("Failed"@),
        WorkflowStatus::enc(WorkflowStatus::Cancelled) == JsonView::Text("Cancelled"@),
{
}

/// A description is written with its name and its text, and read from them.
pub proof fn descriptions_are_written_and_read_by_name(v: MetaView, m: Map<Seq<char>, JsonView>)
    ensures
        WorkflowScriptMeta::enc(v) matches JsonView::Object(w) && {
            &&& w.dom() == set!["name"@, "description"@]
            &&& w["name"@] == JsonView::Text(v.name)
            &&& w["description"@] == JsonView::Text(v.description)
        },
        WorkflowScriptMeta::dec(JsonView::Object(m)) == Some(v) <==> {
            &&& m.contains_key("name"@) && m["name"@] == JsonView::Text(v.name)
            &&& m.contains_key("description"@) && m["description"@] == JsonView::Text(v.description)
        },
{
    lemma_meta_names();
    assert(WorkflowScriptMeta::enc(v)->Object_0.dom() =~= set!["name"@, "description"@]);
}

/// A call is written with its key, its number, its input and its arguments, and with its phase, its
/// agent and its task where it has them. Only the key and the number must be there to be read.
pub proof fn calls_are_written_and_read_by_name(v: CallView, m: Map<Seq<char>, JsonView>)
    ensures
        WorkflowAgentCall::enc(v) matches JsonView::Object(w) && {
            &&& w.contains_key("key"@) && w["key"@] == JsonView::Text(v.key)
            &&& w.contains_key("index"@) && w["index"@] == JsonView::Unsigned(v.index as u64)
            &&& says_text(w, "phase"@, v.phase) && says_text(w, "agent"@, v.agent) && says_text(w, "task"@, v.task)
            &&& w.contains_key("input"@) && w["input"@] == v.input
            &&& w.contains_key("arguments"@) && w["arguments"@] == v.arguments
        },
        m.contains_key("key"@) && m["key"@] == JsonView::Text(v.key) && m.contains_key("index"@) && m["index"@] == JsonView::Unsigned(
            v.index as u64,
        ) && may_say(m, "phase"@, v.phase) && may_say(m, "agent"@, v.agent) && may_say(m, "task"@, v.task) && holds_value(
            m,
            "input"@,
            v.input,
        ) && holds_value(m, "arguments"@, v.arguments) ==> WorkflowAgentCall::dec(JsonView::Object(m)) == Some(v),
        !m.contains_key("key"@) || !m.contains_key("index"@) ==> WorkflowAgentCall::dec(JsonView::Object(m)) is None,
{
    lemma_call_names();
}

/// A result is written with its key, its output and its error flag, and with its error where it has
/// one; the former three must be there to be read.
pub proof fn results_are_written_and_read_by_name(v: ResultView, m: Map<Seq<char>, JsonView>)
    ensures
        WorkflowAgentResult::enc(v) matches JsonView::Object(w) && {
            &&& w.contains_key("key"@) && w["key"@] == JsonView::Text(v.key)
            &&& w.contains_key("output"@) && w["output"@] == v.output
            &&& w.contains_key("is_error"@) && w["is_error"@] == JsonView::Bool(v.is_error)
            &&& says_text(w, "error"@, v.error)
        },
        WorkflowAgentResult::dec(JsonView::Object(m)) == Some(v) <==> {
            &&& m.contains_key("key"@) && m["key"@] == JsonView::Text(v.key)
            &&& m.contains_key("output"@) && m["output"@] == v.output
            &&& m.contains_key("is_error"@) && m["is_error"@] == JsonView::Bool(v.is_error)
            &&& may_say(m, "error"@, v.error)
        },
{
    lemma_result_names();
}

/// A run is written with its identifier, its script, its description, its status and its results,
/// and with its error where it has one. The results may be missing, and are none then.
pub proof fn runs_are_written_and_read_by_name(v: RunView, m: Map<Seq<char>, JsonView>)
    ensures
        WorkflowRun::enc(v) matches JsonView::Object(w) && {
            &&& w.contains_key("run_id"@) && w["run_id"@] == JsonView::Text(v.run_id)
            &&& w.contains_key("script_path"@) && w["script_path"@] == JsonView::Text(v.script_path)
            &&& w.contains_key("meta"@) && w["meta"@] == WorkflowScriptMeta::enc(v.meta)
            &&& w.contains_key("status"@) && w["status"@] == WorkflowStatus::enc(v.status)
            &&& w.contains_key("results"@) && w["results"@] == enc_list::<WorkflowAgentResult>(v.results)
            &&& says_text(w, "error"@, v.error)
        },
        WorkflowRun::dec(JsonView::Object(m)) == Some(v) <==> {
            &&& m.contains_key("run_id"@) && m["run_id"@] == JsonView::Text(v.run_id)
            &&& m.contains_key("script_path"@) && m["script_path"@] == JsonView::Text(v.script_path)
            &&& m.contains_key("meta"@) && WorkflowScriptMeta::dec(m["meta"@]) == Some(v.meta)
            &&& m.contains_key("status"@) && WorkflowStatus::dec(m["status"@]) == Some(v.status)
            &&& if m.contains_key("results"@) {
                dec_list::<WorkflowAgentResult>(m["results"@]) == Some(v.results)
            } else {
                v.results == Seq::<ResultView>::empty()
            }
            &&& may_say(m, "error"@, v.error)
        },
{
    lemma_run_names();
}

/// Results, runs and descriptions are printed with their members in the order in which they are
/// declared, the error last and only where there is one.
pub proof fn records_are_printed_in_order(meta: MetaView, result: ResultView, run: RunView)
    ensures
        WorkflowScriptMeta::form(meta) == FormView::Record(
            seq![
                ("name"@, FormView::Value(JsonView::Text(meta.name))),
                ("description"@, FormView::Value(JsonView::Text(meta.description))),
            ],
        ),
        WorkflowAgentResult::form(result) == FormView::Record(
            seq![
                ("key"@, FormView::Value(JsonView::Text(result.key))),
                ("output"@, FormView::Value(result.output)),
                ("is_error"@, FormView::Value(JsonView::Bool(result.is_error))),
            ] + match result.error {
                Some(e) => seq![("error"@, FormView::Value(JsonView::Text(e)))],
                None => Seq::empty(),
            },
        ),
        WorkflowRun::form(run) == FormView::Record(
            seq![
                ("run_id"@, FormView::Value(JsonView::Text(run.run_id))),
                ("script_path"@, FormView::Value(JsonView::Text(run.script_path))),
                ("meta"@, WorkflowScriptMeta::form(run.meta)),
                ("status"@, FormView::Value(WorkflowStatus::enc(run.status))),
                ("results"@, FormView::List(Seq::new(run.results.len(), |i: int| WorkflowAgentResult::form(run.results[i])))),
            ] + match run.error {
                Some(e) => seq![("error"@, FormView::Value(JsonView::Text(e)))],
                None => Seq::empty(),
            },
        ),
{
    assert(WorkflowScriptMeta::form(meta)->Record_0 =~= seq![
        ("name"@, FormView::Value(JsonView::Text(meta.name))),
        ("description"@, FormView::Value(JsonView::Text(meta.description))),
    ]);
    assert(WorkflowAgentResult::form(result)->Record_0 =~= seq![
        ("key"@, FormView::Value(JsonView::Text(result.key))),
        ("output"@, FormView::Value(result.output)),
        ("is_error"@, FormView::Value(JsonView::Bool(result.is_error))),
    ] + match result.error {
        Some(e) => seq![("error"@, FormView::Value(JsonView::Text(e)))],
        None => Seq::empty(),
    });
    assert(WorkflowRun::form(run)->Record_0 =~= seq![
        ("run_id"@, FormView::Value(JsonView::Text(run.run_id))),
        ("script_path"@, FormView::Value(JsonView::Text(run.script_path))),
        ("meta"@, WorkflowScriptMeta::form(run.meta)),
        ("status"@, FormView::Value(WorkflowStatus::enc(run.status))),
        ("results"@, FormView::List(Seq::new(run.results.len(), |i: int| WorkflowAgentResult::form(run.results[i])))),
    ] + match run.error {
        Some(e) => seq![("error"@, FormView::Value(JsonView::Text(e)))],
        None => Seq::empty(),
    });
}

/// A call that succeeded has its output and no error, one that failed has its error and no output,
/// and a run that has not started has nothing.
pub proof fn results_and_runs_begin_as_they_should(
    key: &str,
    output: Json,
    message: &str,
    r: WorkflowAgentResult,
    run_id: String,
    script: WorkflowScript,
    run: WorkflowRun,
)
    ensures
        call_ensures(WorkflowAgentResult::success, (key, output), r) ==> r.key@ == key@ && r.output@ == output@ && !r.is_error
            && r@.error is None,
        call_ensures(WorkflowAgentResult::failure, (key, message), r) ==> r.key@ == key@ && r.output@ is Null && r.is_error
            && r@.error == Some(message@),
        call_ensures(WorkflowRun::pending, (run_id, &script), run) ==> run.run_id@ == run_id@ && run.script_path@ == script.path@
            && run.meta@ == script.meta@ && run.status == WorkflowStatus::Pending && run@.results.len() == 0 && run@.error is None,
{
}

} // verus!
