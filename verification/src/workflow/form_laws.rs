//! Laws of how options and scripts are written as JSON, and what is read of it.
use crate::coding::Coded;
use crate::json::JsonView;
use crate::types::event_laws::text_or_null;
use crate::types::form_laws::lemma_record_of;
use crate::workflow::forms::ScriptView;
use crate::workflow::options::{OptionsView, WorkflowRunOptions};
use crate::workflow::types::{WorkflowScript, WorkflowScriptMeta};
use vstd::prelude::*;

verus! {

broadcast use vstd::seq_lib::group_seq_properties;

/// The options of a run is written by the names of its members.
pub proof fn options_are_written_by_name(v: OptionsView)
    ensures
        WorkflowRunOptions::enc(v) matches JsonView::Object(w) && {
            &&& w.dom() == set!["run_id"@, "script"@, "name"@, "script_path"@, "args"@, "resume_from_run_id"@, "concurrency_limit"@]
            &&& w["run_id"@] == text_or_null(v.run_id)
            &&& w["script"@] == text_or_null(v.script)
            &&& w["name"@] == text_or_null(v.name)
            &&& w["script_path"@] == text_or_null(v.script_path)
            &&& w["args"@] == v.args
            &&& w["resume_from_run_id"@] == text_or_null(v.resume_from_run_id)
            &&& w["concurrency_limit"@] == JsonView::Unsigned(v.concurrency_limit as u64)
        },
{
    crate::workflow::forms::lemma_options_names();
    assert(WorkflowRunOptions::enc(v)->Object_0.dom() =~= set!["run_id"@, "script"@, "name"@, "script_path"@, "args"@, "resume_from_run_id"@, "concurrency_limit"@]);
}

/// The options of a run is read by the names of its members, of which some may be missing.
pub proof fn options_are_read_by_name(v: OptionsView, m: Map<Seq<char>, JsonView>)
    ensures
        WorkflowRunOptions::dec(JsonView::Object(m)) == Some(v) <==> {
            &&& if m.contains_key("run_id"@) {
                m["run_id"@] == text_or_null(v.run_id)
            } else {
                v.run_id is None
            }
            &&& if m.contains_key("script"@) {
                m["script"@] == text_or_null(v.script)
            } else {
                v.script is None
            }
            &&& if m.contains_key("name"@) {
                m["name"@] == text_or_null(v.name)
            } else {
                v.name is None
            }
            &&& if m.contains_key("script_path"@) {
                m["script_path"@] == text_or_null(v.script_path)
            } else {
                v.script_path is None
            }
            &&& if m.contains_key("args"@) {
                m["args"@] == v.args
            } else {
                v.args == JsonView::Null
            }
            &&& if m.contains_key("resume_from_run_id"@) {
                m["resume_from_run_id"@] == text_or_null(v.resume_from_run_id)
            } else {
                v.resume_from_run_id is None
            }
            &&& if m.contains_key("concurrency_limit"@) {
                m["concurrency_limit"@] == JsonView::Unsigned(v.concurrency_limit as u64)
            } else {
                v.concurrency_limit == 16
            }
        },
{
    crate::workflow::forms::lemma_options_names();
}

/// The options of a run may also be a list of the values of its members, in their order.
pub proof fn options_are_read_from_a_list(m: Map<Seq<char>, JsonView>)
    requires
        m.dom() == set!["run_id"@, "script"@, "name"@, "script_path"@, "args"@, "resume_from_run_id"@, "concurrency_limit"@],
    ensures
        WorkflowRunOptions::dec(JsonView::Array(seq![m["run_id"@], m["script"@], m["name"@], m["script_path"@], m["args"@], m["resume_from_run_id"@], m["concurrency_limit"@]])) == WorkflowRunOptions::dec(JsonView::Object(m)),
{
    crate::workflow::forms::lemma_options_names();
    let names = seq!["run_id"@, "script"@, "name"@, "script_path"@, "args"@, "resume_from_run_id"@, "concurrency_limit"@];
    let items = seq![m["run_id"@], m["script"@], m["name"@], m["script_path"@], m["args"@], m["resume_from_run_id"@], m["concurrency_limit"@]];
    lemma_record_of(names, items, m);
}

/// A script is written by the names of its members.
pub proof fn scripts_are_written_by_name(v: ScriptView)
    ensures
        WorkflowScript::enc(v) matches JsonView::Object(w) && {
            &&& w.dom() == set!["path"@, "source"@, "meta"@]
            &&& w["path"@] == JsonView::Text(v.path)
            &&& w["source"@] == JsonView::Text(v.source)
            &&& w["meta"@] == WorkflowScriptMeta::enc(v.meta)
        },
{
    crate::workflow::forms::lemma_script_names();
    assert(WorkflowScript::enc(v)->Object_0.dom() =~= set!["path"@, "source"@, "meta"@]);
}

/// A script is read by the names of its members, all of which must be there.
pub proof fn scripts_are_read_by_name(v: ScriptView, m: Map<Seq<char>, JsonView>)
    ensures
        WorkflowScript::dec(JsonView::Object(m)) == Some(v) <==> {
            &&& m.contains_key("path"@) && m["path"@] == JsonView::Text(v.path)
            &&& m.contains_key("source"@) && m["source"@] == JsonView::Text(v.source)
            &&& m.contains_key("meta"@) && WorkflowScriptMeta::dec(m["meta"@]) == Some(v.meta)
        },
{
    crate::workflow::forms::lemma_script_names();
}

/// A script may also be a list of the values of its members, in their order.
pub proof fn scripts_are_read_from_a_list(m: Map<Seq<char>, JsonView>)
    requires
        m.dom() == set!["path"@, "source"@, "meta"@],
    ensures
        WorkflowScript::dec(JsonView::Array(seq![m["path"@], m["source"@], m["meta"@]])) == WorkflowScript::dec(JsonView::Object(m)),
{
    crate::workflow::forms::lemma_script_names();
    let names = seq!["path"@, "source"@, "meta"@];
    let items = seq![m["path"@], m["source"@], m["meta"@]];
    lemma_record_of(names, items, m);
}

} // verus!
