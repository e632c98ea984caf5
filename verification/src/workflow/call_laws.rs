//! Laws of the calls, the end and the options of a run, said of their inputs and results.
use crate::form::Recorded;
use crate::json::{formed, printed, Json, JsonView};
use crate::text::{is_blank, split_at_char};
use crate::text_laws::{decimals_are_worth_their_number, worth};
use crate::types::tool::{ToolError, ToolErrorView};
use crate::types::vfs::{VfsErrorView, VirtualFs};
use crate::workflow::error::{WorkflowError, WorkflowErrorView};
use crate::workflow::options::{check_metadata, effective_concurrency, options_of, parse_tool_options, resolves, OptionsView, WorkflowRunOptions};
use crate::workflow::run::{answered, called, ended, ending, error_reply, final_answer, key_of, result_taken, running, session_started, starts, CallStepView, SessionView};
use crate::workflow::store::{agent_result_path, inline_path, run_path, stores_json, WorkflowStore};
use crate::workflow::types::{MetaView, ResultView, RunView, WorkflowAgentResult, WorkflowEventView, WorkflowRun, WorkflowScriptMeta, WorkflowStatus};
use vstd::prelude::*;
use vstd::utf8::{decode_utf8, encode_utf8, valid_utf8};

verus! {

broadcast use vstd::seq_lib::group_seq_properties;

// ---- Calls -------------------------------------------------------------------

/// The text member `first`, or where that is not there at all, the text member `second`.
pub open spec fn said(members: Map<Seq<char>, JsonView>, first: Seq<char>, second: Seq<char>) -> Option<Seq<char>> {
    let key = if members.contains_key(first) {
        first
    } else {
        second
    };
    if members.contains_key(key) {
        match members[key] {
            JsonView::Text(text) => Some(text),
            _ => None,
        }
    } else {
        None
    }
}

/// The key of a call is its `label`, or without one its `key`, where that is a text that is not
/// empty; else it is made of `agent-` and the number of the call.
pub proof fn calls_are_named_by_their_label(members: Map<Seq<char>, JsonView>, index: usize)
    ensures
        said(members, "label"@, "key"@) matches Some(label) && label.len() > 0 ==> key_of(JsonView::Object(members), index)
            == said(members, "label"@, "key"@)->0,
        !(said(members, "label"@, "key"@) matches Some(label) && label.len() > 0) ==> {
            let key = key_of(JsonView::Object(members), index);
            &&& "agent-"@.is_prefix_of(key)
            &&& worth(key.skip(6), 10) == index
            &&& key.len() > 6 && (key.len() > 7 ==> key[6] != '0')
        },
{
    reveal_strlit("agent-");
    decimals_are_worth_their_number(index as nat);
    let digits = crate::text::decimal(index as nat);
    let made = "agent-"@ + digits;
    assert("agent-"@ =~= made.subrange(0, 6));
    assert(made.skip(6) =~= digits);
}

/// A call that is not reused is handed on with the agent, the task, the input and the arguments
/// that its script says, and with the next number. It is announced once, and it is open under
/// its number from then on; nothing else changes.
pub proof fn calls_say_what_the_script_says(s: SessionView, members: Map<Seq<char>, JsonView>)
    requires
        !s.cancelled,
        s.next_index < usize::MAX,
        !s.cached.contains_key(key_of(JsonView::Object(members), s.next_index)),
    ensures
        ({
            let key = key_of(JsonView::Object(members), s.next_index);
            let (t, step) = called(s, Ok(JsonView::Object(members)));
            &&& step matches Ok(CallStepView::Work(call)) && {
                &&& call.key == key
                &&& call.index == s.next_index
                &&& call.phase is None
                &&& call.agent == said(members, "agent"@, "agent_type"@)
                &&& call.task == said(members, "task"@, "prompt"@)
                &&& call.input == if members.contains_key("input"@) { members["input"@] } else { JsonView::Null }
                &&& call.arguments == if members.contains_key("arguments"@) { members["arguments"@] } else { JsonView::Null }
            }
            &&& t.next_index == s.next_index + 1
            &&& t.open == s.open.insert(s.next_index, key)
            &&& t.results == s.results
            &&& t.events == s.events.push(
                WorkflowEventView::AgentCallStarted {
                    run_id: s.run_id,
                    key,
                    agent: said(members, "agent"@, "agent_type"@),
                    task: said(members, "task"@, "prompt"@),
                },
            )
            &&& t.cached == s.cached && !t.cancelled && t.run_id == s.run_id && t.script_path == s.script_path && t.meta == s.meta
        }),
{
}

/// A call whose key is there to reuse is answered with that result, which counts as the result of
/// the call and is announced as reused; no worker gets it.
pub proof fn reused_calls_are_answered_at_once(s: SessionView, json: JsonView)
    requires
        !s.cancelled,
        s.next_index < usize::MAX,
        s.cached.contains_key(key_of(json, s.next_index)),
    ensures
        ({
            let key = key_of(json, s.next_index);
            let (t, step) = called(s, Ok(json));
            &&& step == Ok::<CallStepView, WorkflowErrorView>(
                CallStepView::Reuse(formed(WorkflowAgentResult::form(s.cached[key]))),
            )
            &&& t.next_index == s.next_index + 1
            &&& t.open == s.open
            &&& t.results == s.results.push((s.next_index, s.cached[key]))
            &&& t.events == s.events.push(
                WorkflowEventView::AgentCallCompleted {
                    run_id: s.run_id,
                    key,
                    cached: true,
                    is_error: s.cached[key].is_error,
                },
            )
            &&& t.cached == s.cached && !t.cancelled && t.run_id == s.run_id && t.script_path == s.script_path && t.meta == s.meta
        }),
{
}

/// A call whose argument is not JSON uses up its number and nothing more.
pub proof fn broken_calls_only_count(s: SessionView, e: Seq<char>)
    requires
        !s.cancelled,
        s.next_index < usize::MAX,
    ensures
        called(s, Err(e)).1 matches Err(WorkflowErrorView::InvalidScript(text)) && e.is_suffix_of(text),
        called(s, Err(e)).0 == (SessionView { next_index: (s.next_index + 1) as usize, ..s }),
{
    let text = "agent() argument is not JSON: "@ + e;
    assert(e =~= text.subrange(text.len() - e.len(), text.len() as int));
}

/// The answer of a worker is kept under its key before it counts; where it cannot be kept it does
/// not count. It is added with the number of its call, and the call is no longer open.
pub proof fn answers_count_once_they_are_kept<V: VirtualFs>(
    before: WorkflowStore<V>,
    s: SessionView,
    index: usize,
    result: ResultView,
    after: WorkflowStore<V>,
    t: SessionView,
    out: Result<Seq<char>, WorkflowErrorView>,
)
    requires
        result_taken(before, s, index, result, after, t, out),
    ensures
        out is Ok ==> stores_json(
            before.fs(),
            agent_result_path(s.run_id, result.key),
            WorkflowAgentResult::form(result),
            after.fs(),
            Ok(()),
        ) && t.results == s.results.push((index, result)) && t.open == s.open.remove(index) && t.events.len() == s.events.len() + 1
            && t.events.last() == (WorkflowEventView::AgentCallCompleted {
            run_id: s.run_id,
            key: s.open[index],
            cached: false,
            is_error: result.is_error,
        }) && t.next_index == s.next_index && t.cached == s.cached && t.cancelled == s.cancelled && t.run_id == s.run_id,
        out is Err ==> t == s,
{
    let saved = choose|saved: Result<(), WorkflowErrorView>| #[trigger]
        stores_json(
            before.fs(),
            agent_result_path(s.run_id, result.key),
            WorkflowAgentResult::form(result),
            after.fs(),
            saved,
        ) && match saved {
            Ok(()) => {
                &&& t == answered(s, index, result)
                &&& out == Ok::<Seq<char>, WorkflowErrorView>(formed(WorkflowAgentResult::form(result)))
            },
            Err(e) => t == s && out == Err::<Seq<char>, WorkflowErrorView>(e),
        };
    match saved {
        Ok(nothing) => assert(nothing == ()),
        Err(_) => {},
    }
}

/// A script is told of an error as a result that failed, with the message.
pub proof fn errors_are_told_as_failed_results(e: WorkflowError, text: String, r: String)
    requires
        call_ensures(error_reply, (&e,), r),
        call_ensures(WorkflowError::to_string, (&e,), text),
    ensures
        exists|m: Map<Seq<char>, JsonView>|
            #![trigger printed(JsonView::Object(m))]
            {
                &&& r@ == printed(JsonView::Object(m))
                &&& m.dom() == set!["key"@, "output"@, "is_error"@, "error"@]
                &&& m["key"@] == JsonView::Text("workflow-error"@)
                &&& m["output"@] == JsonView::Null
                &&& m["is_error"@] == JsonView::Bool(true)
                &&& m["error"@] == JsonView::Text(text@)
            },
{
    reveal_strlit("key");
    reveal_strlit("output");
    reveal_strlit("is_error");
    reveal_strlit("error");
    assert("key"@.len() == 3 && "output"@.len() == 6 && "is_error"@.len() == 8 && "error"@.len() == 5);
    let m = Map::<Seq<char>, JsonView>::empty().insert("key"@, JsonView::Text("workflow-error"@)).insert("output"@, JsonView::Null).insert(
        "is_error"@,
        JsonView::Bool(true),
    ).insert("error"@, JsonView::Text(text@));
    assert(m.dom() =~= set!["key"@, "output"@, "is_error"@, "error"@]);
    assert(r@ == printed(JsonView::Object(m)));
}

// ---- Start and end -----------------------------------------------------------

/// A run starts without results, calls or anything to reuse, with the event of its start, and its
/// state is kept as running under its identifier.
pub proof fn runs_start_empty<V: VirtualFs>(
    before: WorkflowStore<V>,
    run_id: Seq<char>,
    script_path: Seq<char>,
    meta: MetaView,
    after: WorkflowStore<V>,
    out: Result<SessionView, WorkflowErrorView>,
)
    requires
        starts(before, run_id, script_path, meta, after, out),
    ensures
        out matches Ok(s) ==> {
            &&& s.run_id == run_id && s.script_path == script_path && s.meta == meta
            &&& s.results.len() == 0 && s.next_index == 0 && !s.cancelled
            &&& forall|n: usize| !#[trigger] s.open.contains_key(n)
            &&& forall|k: Seq<char>| !#[trigger] s.cached.contains_key(k)
            &&& s.events == seq![WorkflowEventView::RunStarted { run_id, script_path, name: meta.name }]
            &&& stores_json(before.fs(), run_path(run_id), WorkflowRun::form(running(run_id, script_path, meta)), after.fs(), Ok(()))
        },
        running(run_id, script_path, meta).status == WorkflowStatus::Running,
        running(run_id, script_path, meta).run_id == run_id,
        running(run_id, script_path, meta).script_path == script_path,
        running(run_id, script_path, meta).meta == meta,
        running(run_id, script_path, meta).results.len() == 0,
        running(run_id, script_path, meta).error is None,
{
    let saved = choose|saved: Result<(), WorkflowErrorView>| #[trigger]
        stores_json(
            before.fs(),
            run_path(run_id),
            WorkflowRun::form(running(run_id, script_path, meta)),
            after.fs(),
            saved,
        ) && out == match saved {
            Ok(()) => Ok(session_started(run_id, script_path, meta)),
            Err(e) => Err(e),
        };
    match saved {
        Ok(nothing) => assert(nothing == ()),
        Err(_) => {},
    }
}

/// A run that was cancelled ends cancelled, one whose script failed ends failed with the message of
/// the script, one with a call that failed ends failed, and every other one completes. The event
/// of the end says the same, and the run keeps its identifier, its script and its description.
pub proof fn runs_end_by_what_happened(s: SessionView, failure: Option<WorkflowErrorView>, i: int)
    ensures
        s.cancelled ==> ended(s, failure).status == WorkflowStatus::Cancelled && ended(s, failure).error is None
            && ending(s, failure).event == (WorkflowEventView::RunCancelled { run_id: s.run_id }),
        !s.cancelled && failure is Some ==> ended(s, failure).status == WorkflowStatus::Failed && ended(s, failure).error == Some(
            crate::workflow::error::workflow_message(failure->0),
        ) && ending(s, failure).event == (WorkflowEventView::RunFailed {
            run_id: s.run_id,
            error: crate::workflow::error::workflow_message(failure->0),
        }),
        !s.cancelled && failure is None && 0 <= i < s.results.len() && s.results[i].1.is_error ==> ended(s, failure).status
            == WorkflowStatus::Failed && ended(s, failure).error is Some && (ending(s, failure).event matches WorkflowEventView::RunFailed {
            run_id,
            error,
        } && run_id == s.run_id && Some(error) == ended(s, failure).error),
        !s.cancelled && failure is None && (forall|k: int| 0 <= k < s.results.len() ==> !(#[trigger] s.results[k]).1.is_error)
            ==> ended(s, failure).status == WorkflowStatus::Completed && ended(s, failure).error is None && ending(s, failure).event
            == (WorkflowEventView::RunCompleted { run_id: s.run_id }),
        ended(s, failure).run_id == s.run_id,
        ended(s, failure).script_path == s.script_path,
        ended(s, failure).meta == s.meta,
        ended(s, failure).results.len() == s.results.len(),
{
    crate::workflow::laws::results_are_in_call_order(s.results);
}

/// A script that failed is told as its error, unless the run was cancelled or could not be kept;
/// every other end is told as the run.
pub proof fn ends_are_told(s: SessionView, failure: Option<WorkflowErrorView>, e: WorkflowErrorView)
    ensures
        final_answer(s, failure, Err(e)) == Err::<RunView, WorkflowErrorView>(e),
        failure is None || s.cancelled ==> final_answer(s, failure, Ok(())) == Ok::<RunView, WorkflowErrorView>(ended(s, failure)),
        !s.cancelled ==> (failure matches Some(f) ==> final_answer(s, failure, Ok(())) == Err::<RunView, WorkflowErrorView>(f)),
{
}

// ---- Options -----------------------------------------------------------------

/// The text of a member that is there, is a text and is not blank.
pub open spec fn filled(members: Map<Seq<char>, JsonView>, key: Seq<char>) -> Option<Seq<char>> {
    if members.contains_key(key) {
        match members[key] {
            JsonView::Text(text) => if is_blank(text) { None } else { Some(text) },
            _ => None,
        }
    } else {
        None
    }
}

/// A member that is there and is neither a text nor null.
pub open spec fn is_odd(members: Map<Seq<char>, JsonView>, key: Seq<char>) -> bool {
    members.contains_key(key) && !(members[key] is Text) && !(members[key] is Null)
}

/// The options of a run are the texts of the input that are not blank, one of the script, its name
/// and its path at least; no other value may stand for a text. Without arguments there are none,
/// and without a limit that is a number it is sixteen.
pub proof fn options_are_what_the_input_says(members: Map<Seq<char>, JsonView>)
    ensures
        options_of(JsonView::Object(members)) is Ok <==> {
            &&& !is_odd(members, "script"@) && !is_odd(members, "name"@) && !is_odd(members, "script_path"@)
            &&& !is_odd(members, "run_id"@) && !is_odd(members, "resume_from_run_id"@)
            &&& filled(members, "script"@) is Some || filled(members, "name"@) is Some || filled(members, "script_path"@) is Some
        },
        options_of(JsonView::Object(members)) matches Ok(o) ==> {
            &&& o.script == filled(members, "script"@)
            &&& o.name == filled(members, "name"@)
            &&& o.script_path == filled(members, "script_path"@)
            &&& o.run_id == filled(members, "run_id"@)
            &&& o.resume_from_run_id == filled(members, "resume_from_run_id"@)
            &&& o.args == if members.contains_key("args"@) { members["args"@] } else { JsonView::Object(Map::empty()) }
            &&& o.concurrency_limit == (if members.contains_key("concurrency_limit"@) {
                match members["concurrency_limit"@] {
                    JsonView::Unsigned(n) => if n <= usize::MAX { n as int } else { 16 },
                    _ => 16,
                }
            } else {
                16
            })
        },
        options_of(JsonView::Object(members)) matches Err(e) ==> e is InvalidArguments,
{
}

/// Input that is no object has no options, and the options are what is parsed.
pub proof fn only_objects_are_options(json: Json, r: Result<WorkflowRunOptions, ToolError>)
    requires
        call_ensures(parse_tool_options, (&json,), r),
    ensures
        !(json@ is Object) ==> r is Err,
        r matches Ok(o) ==> options_of(json@) == Ok::<OptionsView, ToolErrorView>(o@),
        r matches Err(e) ==> options_of(json@) == Err::<OptionsView, ToolErrorView>(e@),
{
}

/// At least one agent works at a time, and otherwise as many as the limit says.
pub proof fn somebody_works(limit: usize, r: usize)
    requires
        call_ensures(effective_concurrency, (limit,), r),
    ensures
        r >= 1,
        limit >= 1 ==> r == limit,
{
}

/// The script of a run comes from its path, without one from its name, and without one from its
/// own source, which is kept at the place for inline scripts. Without any of these there is none.
pub proof fn scripts_come_from_the_first_source<V: VirtualFs>(
    before: WorkflowStore<V>,
    run_id: Seq<char>,
    options: OptionsView,
    after: WorkflowStore<V>,
    out: Result<(Seq<char>, Seq<char>), WorkflowErrorView>,
)
    requires
        resolves(before, run_id, options, after, out),
    ensures
        out matches Ok(script) ==> match (options.script_path, options.name, options.script) {
            (Some(path), _, _) => script.0 == path,
            (None, Some(name), _) => script.0 == "/workflows/"@ + name + ".mjs"@,
            (None, None, Some(source)) => script.0 == "/var/workflows/runs/"@ + run_id + "/workflow.mjs"@ && script.1 == source,
            (None, None, None) => false,
        },
        options.script_path is Some || options.name is Some ==> after == before,
        options.script_path is Some || options.name is Some ==> (out matches Ok(script) ==> exists|data: Seq<u8>|
            #[trigger] before.fs().reads(script.0, Ok(data)) && valid_utf8(data) && script.1 == decode_utf8(data)),
        options.script_path is None && options.name is None ==> (out matches Ok(script) ==> before.fs().writes(
            script.0,
            encode_utf8(script.1),
            after.fs(),
            Ok(()),
        )),
{
    if options.script_path is Some || options.name is Some {
        if let Ok(script) = out {
            let path = script.0;
            let source = choose|source: Result<Seq<char>, WorkflowErrorView>| #[trigger]
                before.script_reads(path, source) && out == crate::workflow::options::with_path(path, source);
            assert(before.source_reads(path, source));
            let read = choose|read: Result<Seq<u8>, VfsErrorView>| #[trigger]
                before.fs().reads(path, read) && source == crate::workflow::store::script_of(read);
            match read {
                Ok(data) => {
                    assert(before.fs().reads(path, Ok(data)));
                },
                Err(_) => {},
            }
        }
    } else if let Some(source) = options.script {
        if let Ok(script) = out {
            let kept = choose|kept: Result<(), WorkflowErrorView>| #[trigger]
                crate::workflow::store::stores_bytes(before.fs(), inline_path(run_id), encode_utf8(source), after.fs(), kept) && out
                    == match kept {
                    Ok(()) => Ok((inline_path(run_id), source)),
                    Err(e) => Err(e),
                };
            let written = choose|written: Result<(), VfsErrorView>| #[trigger]
                before.fs().writes(inline_path(run_id), encode_utf8(source), after.fs(), written) && kept
                    == crate::workflow::store::write_result(written);
            match written {
                Ok(nothing) => assert(nothing == ()),
                Err(_) => {},
            }
        }
    }
}

/// A script describes itself by an object with a name and a description, or by the list of the two,
/// neither of them blank.
pub proof fn descriptions_have_a_name_and_a_text(parse: Result<Json, String>, r: Result<WorkflowScriptMeta, WorkflowError>)
    requires
        call_ensures(check_metadata, (parse,), r),
    ensures
        parse is Err ==> r is Err,
        r matches Ok(meta) ==> !is_blank(meta.name@) && !is_blank(meta.description@),
        parse matches Ok(json) && (json@ matches JsonView::Object(members) && members.contains_key("name"@) && members.contains_key(
            "description"@,
        ) && (members["name"@] matches JsonView::Text(name) && !is_blank(name)) && (members["description"@] matches JsonView::Text(
            description,
        ) && !is_blank(description))) ==> r is Ok && r->Ok_0.name@ == parse->Ok_0@->Object_0["name"@]->Text_0
            && r->Ok_0.description@ == parse->Ok_0@->Object_0["description"@]->Text_0,
        parse matches Ok(json) && (json@ matches JsonView::Object(members) && (filled(members, "name"@) is None || filled(
            members,
            "description"@,
        ) is None)) ==> r is Err,
{
}

// ---- Where things are kept ---------------------------------------------------

/// Everything of a run is kept under `/var/workflows/runs` and its identifier: the script, the
/// state, and the results, each by its key with every character replaced that is no letter, digit,
/// dash or underscore.
pub proof fn runs_are_kept_by_their_identifier<V: VirtualFs>(run_id: &str, key: &str, r: String)
    ensures
        call_ensures(WorkflowStore::<V>::state_path, (run_id,), r) ==> r@ == "/var/workflows/runs/"@ + run_id@ + "/state.json"@,
        call_ensures(WorkflowStore::<V>::inline_script_path, (run_id,), r) ==> r@ == "/var/workflows/runs/"@ + run_id@
            + "/workflow.mjs"@,
        call_ensures(WorkflowStore::<V>::transcript_dir, (run_id,), r) ==> r@ == "/var/workflows/runs/"@ + run_id@ + "/agents"@,
        call_ensures(WorkflowStore::<V>::result_path, (run_id, key), r) ==> {
            let head = "/var/workflows/runs/"@ + run_id@ + "/agents"@ + "/"@;
            let n = head.len() as int;
            &&& r@.len() == n + key@.len() + 5
            &&& r@.take(n) == head
            &&& r@.skip(n + key@.len()) == ".json"@
            &&& forall|i: int|
                0 <= i < key@.len() ==> r@[n + i] == (if ('a' <= #[trigger] key@[i] <= 'z') || ('A' <= key@[i] <= 'Z') || ('0' <= key@[i]
                    <= '9') || key@[i] == '-' || key@[i] == '_' {
                    key@[i]
                } else {
                    '_'
                })
        },
{
    reveal_strlit(".json");
    if call_ensures(WorkflowStore::<V>::result_path, (run_id, key), r) {
        let head = "/var/workflows/runs/"@ + run_id@ + "/agents"@ + "/"@;
        let n = head.len() as int;
        let clean = crate::workflow::store::sanitized(key@);
        assert(r@ =~= head + clean + ".json"@);
        assert(r@.take(n) =~= head);
        assert(r@.skip(n + key@.len()) =~= ".json"@);
        assert forall|i: int|
            0 <= i < key@.len() implies r@[n + i] == (if ('a' <= #[trigger] key@[i] <= 'z') || ('A' <= key@[i] <= 'Z') || ('0' <= key@[i]
                <= '9') || key@[i] == '-' || key@[i] == '_' {
                key@[i]
            } else {
                '_'
            }) by {
            assert(r@[n + i] == clean[i]);
        }
    }
}

/// A path is that of a script exactly where it ends in `.mjs`, lies in one of the two script
/// directories, holds no null character and has no segment `..`. A saved script has one segment as
/// its name.
pub proof fn script_paths_stay_in_their_directories<V: VirtualFs>(
    path: &str,
    r: Result<(), WorkflowError>,
    named: Result<String, WorkflowError>,
)
    ensures
        call_ensures(WorkflowStore::<V>::validate_script_path, (path,), r) ==> (r is Ok <==> {
            &&& ".mjs"@.is_suffix_of(path@)
            &&& "/workflows/"@.is_prefix_of(path@) || "/var/workflows/runs/"@.is_prefix_of(path@)
            &&& !path@.contains('\0')
            &&& !split_at_char(path@, '/').contains(".."@)
        }),
        call_ensures(WorkflowStore::<V>::script_path_for_name, (path,), named) ==> (named is Ok <==> path@.len() > 0 && path@ != "."@
            && path@ != ".."@ && !path@.contains('/') && !path@.contains('\\') && !path@.contains('\0')) && (named matches Ok(p)
            ==> p@ == "/workflows/"@ + path@ + ".mjs"@),
{
}

} // verus!
