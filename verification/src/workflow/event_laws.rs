//! Laws of how the events of a run are written as JSON and sent, and what is read of them.
use crate::coding::{has_tag, mark};
use crate::json::{Json, JsonView};
use crate::types::event_laws::text_or_null;
use crate::workflow::types::{dec_event, enc_event, lemma_event_fields, lemma_event_tags, WorkflowEvent, WorkflowEventView};
use vstd::prelude::*;

verus! {

broadcast use vstd::seq_lib::group_seq_properties;

/// The members that an event is written with: its name under `type`, and each of its parts under the
/// name of the part.
pub open spec fn event_written(v: WorkflowEventView, m: Map<Seq<char>, JsonView>) -> bool {
    match v {
        WorkflowEventView::RunStarted { run_id, script_path, name } => {
            &&& m.dom() == set!["type"@, "run_id"@, "script_path"@, "name"@]
            &&& m["type"@] == JsonView::Text("run_started"@)
            &&& m["run_id"@] == JsonView::Text(run_id)
            &&& m["script_path"@] == JsonView::Text(script_path)
            &&& m["name"@] == JsonView::Text(name)
        },
        WorkflowEventView::Progress { run_id, message } => {
            &&& m.dom() == set!["type"@, "run_id"@, "message"@]
            &&& m["type"@] == JsonView::Text("progress"@)
            &&& m["run_id"@] == JsonView::Text(run_id)
            &&& m["message"@] == JsonView::Text(message)
        },
        WorkflowEventView::PhaseStarted { run_id, name } => {
            &&& m.dom() == set!["type"@, "run_id"@, "name"@]
            &&& m["type"@] == JsonView::Text("phase_started"@)
            &&& m["run_id"@] == JsonView::Text(run_id)
            &&& m["name"@] == JsonView::Text(name)
        },
        WorkflowEventView::PhaseCompleted { run_id, name } => {
            &&& m.dom() == set!["type"@, "run_id"@, "name"@]
            &&& m["type"@] == JsonView::Text("phase_completed"@)
            &&& m["run_id"@] == JsonView::Text(run_id)
            &&& m["name"@] == JsonView::Text(name)
        },
        WorkflowEventView::AgentCallStarted { run_id, key, agent, task } => {
            &&& m.dom() == set!["type"@, "run_id"@, "key"@, "agent"@, "task"@]
            &&& m["type"@] == JsonView::Text("agent_call_started"@)
            &&& m["run_id"@] == JsonView::Text(run_id)
            &&& m["key"@] == JsonView::Text(key)
            &&& m["agent"@] == text_or_null(agent)
            &&& m["task"@] == text_or_null(task)
        },
        WorkflowEventView::AgentCallCompleted { run_id, key, cached, is_error } => {
            &&& m.dom() == set!["type"@, "run_id"@, "key"@, "cached"@, "is_error"@]
            &&& m["type"@] == JsonView::Text("agent_call_completed"@)
            &&& m["run_id"@] == JsonView::Text(run_id)
            &&& m["key"@] == JsonView::Text(key)
            &&& m["cached"@] == JsonView::Bool(cached)
            &&& m["is_error"@] == JsonView::Bool(is_error)
        },
        WorkflowEventView::RunCompleted { run_id } => {
            &&& m.dom() == set!["type"@, "run_id"@]
            &&& m["type"@] == JsonView::Text("run_completed"@)
            &&& m["run_id"@] == JsonView::Text(run_id)
        },
        WorkflowEventView::RunFailed { run_id, error } => {
            &&& m.dom() == set!["type"@, "run_id"@, "error"@]
            &&& m["type"@] == JsonView::Text("run_failed"@)
            &&& m["run_id"@] == JsonView::Text(run_id)
            &&& m["error"@] == JsonView::Text(error)
        },
        WorkflowEventView::RunCancelled { run_id } => {
            &&& m.dom() == set!["type"@, "run_id"@]
            &&& m["type"@] == JsonView::Text("run_cancelled"@)
            &&& m["run_id"@] == JsonView::Text(run_id)
        },
    }
}

/// The members that an event is read from. What may be missing may also be null.
pub open spec fn event_readable(v: WorkflowEventView, m: Map<Seq<char>, JsonView>) -> bool {
    match v {
        WorkflowEventView::RunStarted { run_id, script_path, name } => {
            &&& m.contains_key("type"@) && m["type"@] == JsonView::Text("run_started"@)
            &&& m.contains_key("run_id"@) && m["run_id"@] == JsonView::Text(run_id)
            &&& m.contains_key("script_path"@) && m["script_path"@] == JsonView::Text(script_path)
            &&& m.contains_key("name"@) && m["name"@] == JsonView::Text(name)
        },
        WorkflowEventView::Progress { run_id, message } => {
            &&& m.contains_key("type"@) && m["type"@] == JsonView::Text("progress"@)
            &&& m.contains_key("run_id"@) && m["run_id"@] == JsonView::Text(run_id)
            &&& m.contains_key("message"@) && m["message"@] == JsonView::Text(message)
        },
        WorkflowEventView::PhaseStarted { run_id, name } => {
            &&& m.contains_key("type"@) && m["type"@] == JsonView::Text("phase_started"@)
            &&& m.contains_key("run_id"@) && m["run_id"@] == JsonView::Text(run_id)
            &&& m.contains_key("name"@) && m["name"@] == JsonView::Text(name)
        },
        WorkflowEventView::PhaseCompleted { run_id, name } => {
            &&& m.contains_key("type"@) && m["type"@] == JsonView::Text("phase_completed"@)
            &&& m.contains_key("run_id"@) && m["run_id"@] == JsonView::Text(run_id)
            &&& m.contains_key("name"@) && m["name"@] == JsonView::Text(name)
        },
        WorkflowEventView::AgentCallStarted { run_id, key, agent, task } => {
            &&& m.contains_key("type"@) && m["type"@] == JsonView::Text("agent_call_started"@)
            &&& m.contains_key("run_id"@) && m["run_id"@] == JsonView::Text(run_id)
            &&& m.contains_key("key"@) && m["key"@] == JsonView::Text(key)
            &&& if agent is Some { m.contains_key("agent"@) && m["agent"@] == JsonView::Text(agent->0) } else { !m.contains_key("agent"@) || m["agent"@] is Null }
            &&& if task is Some { m.contains_key("task"@) && m["task"@] == JsonView::Text(task->0) } else { !m.contains_key("task"@) || m["task"@] is Null }
        },
        WorkflowEventView::AgentCallCompleted { run_id, key, cached, is_error } => {
            &&& m.contains_key("type"@) && m["type"@] == JsonView::Text("agent_call_completed"@)
            &&& m.contains_key("run_id"@) && m["run_id"@] == JsonView::Text(run_id)
            &&& m.contains_key("key"@) && m["key"@] == JsonView::Text(key)
            &&& m.contains_key("cached"@) && m["cached"@] == JsonView::Bool(cached)
            &&& m.contains_key("is_error"@) && m["is_error"@] == JsonView::Bool(is_error)
        },
        WorkflowEventView::RunCompleted { run_id } => {
            &&& m.contains_key("type"@) && m["type"@] == JsonView::Text("run_completed"@)
            &&& m.contains_key("run_id"@) && m["run_id"@] == JsonView::Text(run_id)
        },
        WorkflowEventView::RunFailed { run_id, error } => {
            &&& m.contains_key("type"@) && m["type"@] == JsonView::Text("run_failed"@)
            &&& m.contains_key("run_id"@) && m["run_id"@] == JsonView::Text(run_id)
            &&& m.contains_key("error"@) && m["error"@] == JsonView::Text(error)
        },
        WorkflowEventView::RunCancelled { run_id } => {
            &&& m.contains_key("type"@) && m["type"@] == JsonView::Text("run_cancelled"@)
            &&& m.contains_key("run_id"@) && m["run_id"@] == JsonView::Text(run_id)
        },
    }
}

/// An event is written as its members and no others.
pub proof fn events_are_written_by_name(v: WorkflowEventView)
    ensures
        enc_event(v) matches JsonView::Object(m) && event_written(v, m),
{
    lemma_event_tags();
    lemma_event_fields();
    let m = enc_event(v)->Object_0;
    match v {
        WorkflowEventView::RunStarted { run_id, script_path, name } => {
            assert(m.dom() =~= set!["type"@, "run_id"@, "script_path"@, "name"@]);
        },
        WorkflowEventView::Progress { run_id, message } => {
            assert(m.dom() =~= set!["type"@, "run_id"@, "message"@]);
        },
        WorkflowEventView::PhaseStarted { run_id, name } => {
            assert(m.dom() =~= set!["type"@, "run_id"@, "name"@]);
        },
        WorkflowEventView::PhaseCompleted { run_id, name } => {
            assert(m.dom() =~= set!["type"@, "run_id"@, "name"@]);
        },
        WorkflowEventView::AgentCallStarted { run_id, key, agent, task } => {
            assert(m.dom() =~= set!["type"@, "run_id"@, "key"@, "agent"@, "task"@]);
        },
        WorkflowEventView::AgentCallCompleted { run_id, key, cached, is_error } => {
            assert(m.dom() =~= set!["type"@, "run_id"@, "key"@, "cached"@, "is_error"@]);
        },
        WorkflowEventView::RunCompleted { run_id } => {
            assert(m.dom() =~= set!["type"@, "run_id"@]);
        },
        WorkflowEventView::RunFailed { run_id, error } => {
            assert(m.dom() =~= set!["type"@, "run_id"@, "error"@]);
        },
        WorkflowEventView::RunCancelled { run_id } => {
            assert(m.dom() =~= set!["type"@, "run_id"@]);
        },
    }
}

/// An event is read from its members, whatever other members stand beside them.
pub proof fn events_are_read_by_name(v: WorkflowEventView, m: Map<Seq<char>, JsonView>)
    requires
        event_readable(v, m),
    ensures
        dec_event(JsonView::Object(m)) == Some(v),
{
    lemma_event_tags();
    lemma_event_fields();
    let json = JsonView::Object(m);
    match v {
        WorkflowEventView::RunStarted { run_id, script_path, name } => {
            assert(has_tag(json, "run_started"@));
        },
        WorkflowEventView::Progress { run_id, message } => {
            assert(has_tag(json, "progress"@));
        },
        WorkflowEventView::PhaseStarted { run_id, name } => {
            assert(has_tag(json, "phase_started"@));
        },
        WorkflowEventView::PhaseCompleted { run_id, name } => {
            assert(has_tag(json, "phase_completed"@));
        },
        WorkflowEventView::AgentCallStarted { run_id, key, agent, task } => {
            assert(has_tag(json, "agent_call_started"@));
        },
        WorkflowEventView::AgentCallCompleted { run_id, key, cached, is_error } => {
            assert(has_tag(json, "agent_call_completed"@));
        },
        WorkflowEventView::RunCompleted { run_id } => {
            assert(has_tag(json, "run_completed"@));
        },
        WorkflowEventView::RunFailed { run_id, error } => {
            assert(has_tag(json, "run_failed"@));
        },
        WorkflowEventView::RunCancelled { run_id } => {
            assert(has_tag(json, "run_cancelled"@));
        },
    }
}

/// What every event that is sent says: its name, its run and its number.
pub open spec fn sent(m: Map<Seq<char>, JsonView>, event: Seq<char>, run_id: Seq<char>, seq: u64) -> bool {
    &&& m.contains_key("event"@) && m["event"@] == JsonView::Text(event)
    &&& m.contains_key("run_id"@) && m["run_id"@] == JsonView::Text(run_id)
    &&& m.contains_key("seq"@) && m["seq"@] == JsonView::Unsigned(seq)
}

/// The member is the text where there is one, and is missing where there is none.
pub open spec fn says_text(m: Map<Seq<char>, JsonView>, key: Seq<char>, text: Option<Seq<char>>) -> bool {
    match text {
        Some(text) => m.contains_key(key) && m[key] == JsonView::Text(text),
        None => !m.contains_key(key),
    }
}

/// Each event is sent under its own name with its own members, and says whether the run goes on,
/// is done, failed or was cancelled. A call that failed is sent as failed.
pub proof fn events_are_sent_with_their_status(e: WorkflowEvent, seq: u64, r: Json)
    requires
        call_ensures(WorkflowEvent::to_sse_json, (&e, seq), r),
    ensures
        r@ matches JsonView::Object(m) && match e@ {
            WorkflowEventView::RunStarted { run_id, script_path, name } => sent(m, "workflow.started"@, run_id, seq) && says_text(
                m,
                "script_path"@,
                Some(script_path),
            ) && says_text(m, "name"@, Some(name)) && says_text(m, "status"@, Some("running"@)),
            WorkflowEventView::Progress { run_id, message } => sent(m, "workflow.progress"@, run_id, seq) && says_text(
                m,
                "message"@,
                Some(message),
            ) && says_text(m, "status"@, Some("running"@)),
            WorkflowEventView::PhaseStarted { run_id, name } => sent(m, "workflow.phase_start"@, run_id, seq) && says_text(
                m,
                "phase"@,
                Some(name),
            ) && says_text(m, "status"@, Some("running"@)),
            WorkflowEventView::PhaseCompleted { run_id, name } => sent(m, "workflow.phase_finish"@, run_id, seq) && says_text(
                m,
                "phase"@,
                Some(name),
            ) && says_text(m, "status"@, Some("running"@)),
            WorkflowEventView::AgentCallStarted { run_id, key, agent, task } => sent(m, "workflow.agent_start"@, run_id, seq)
                && says_text(m, "agent_label"@, Some(key)) && says_text(m, "agent_type"@, agent) && says_text(m, "task"@, task)
                && says_text(m, "status"@, Some("running"@)),
            WorkflowEventView::AgentCallCompleted { run_id, key, cached, is_error } => sent(
                m,
                "workflow.agent_finish"@,
                run_id,
                seq,
            ) && says_text(m, "agent_label"@, Some(key)) && m.contains_key("cached"@) && m["cached"@] == JsonView::Bool(cached)
                && m.contains_key("is_error"@) && m["is_error"@] == JsonView::Bool(is_error) && says_text(
                m,
                "status"@,
                Some(if is_error { "failed"@ } else { "running"@ }),
            ),
            WorkflowEventView::RunCompleted { run_id } => sent(m, "workflow.completed"@, run_id, seq) && says_text(
                m,
                "status"@,
                Some("completed"@),
            ),
            WorkflowEventView::RunFailed { run_id, error } => sent(m, "workflow.failed"@, run_id, seq) && says_text(
                m,
                "status"@,
                Some("failed"@),
            ) && says_text(m, "error"@, Some(error)),
            WorkflowEventView::RunCancelled { run_id } => sent(m, "workflow.cancelled"@, run_id, seq) && says_text(
                m,
                "status"@,
                Some("cancelled"@),
            ),
        },
{
    lemma_event_fields();
    lemma_sent_names();
}

/// The names of the members that are sent differ.
proof fn lemma_sent_names()
    ensures
        mark("event"@) == 5_101_101_116,
        mark("seq"@) == 3_115_101_113,
        mark("status"@) == 6_115_116_115,
        mark("phase"@) == 5_112_097_101,
        mark("agent_label"@) == 11_097_095_108,
        mark("agent_type"@) == 10_097_095_101,
{
    reveal_strlit("event");
    reveal_strlit("seq");
    reveal_strlit("status");
    reveal_strlit("phase");
    reveal_strlit("agent_label");
    reveal_strlit("agent_type");
}

} // verus!
