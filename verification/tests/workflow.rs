use simulacra::coding::Coded;
use simulacra::json::Json;
use simulacra::types::VirtualFs;
use simulacra::vfs::MemoryFs;
use simulacra::workflow::options::{
    default_concurrency_limit, effective_concurrency, evaluate_metadata, metadata_source, parse_tool_options,
    resolve_script, run_source, started_output, workflow_tool_definition,
};
use simulacra::workflow::run::{error_reply, load_resume_cache};
use simulacra::workflow::{
    CallStep, RunSession, WorkflowAgentCall, WorkflowAgentResult, WorkflowError, WorkflowEvent, WorkflowRun,
    WorkflowRunOptions, WorkflowScript, WorkflowScriptMeta, WorkflowStatus, WorkflowStore,
};

fn json(text: &str) -> Json {
    Json::parse(text).unwrap()
}

fn new_store() -> WorkflowStore<MemoryFs> {
    WorkflowStore::new(MemoryFs::new())
}

fn options(run_id: &str) -> WorkflowRunOptions {
    WorkflowRunOptions {
        run_id: Some(run_id.to_string()),
        script: None,
        name: None,
        script_path: None,
        args: json("{}"),
        resume_from_run_id: None,
        concurrency_limit: 4,
    }
}

fn script() -> WorkflowScript {
    WorkflowScript {
        path: "/workflows/demo.mjs".to_string(),
        source: "export const meta = {};".to_string(),
        meta: WorkflowScriptMeta {
            name: "demo".to_string(),
            description: "a demonstration".to_string(),
        },
    }
}

fn start(store: &mut WorkflowStore<MemoryFs>, run_id: &str) -> RunSession {
    RunSession::start(store, run_id, &script()).unwrap()
}

fn work(step: Result<CallStep, WorkflowError>) -> WorkflowAgentCall {
    match step {
        Ok(CallStep::Work(call)) => call,
        other => panic!("expected a call to work on, got {other:?}"),
    }
}

/// A worker that succeeds on every call.
fn succeed(session: &mut RunSession, store: &mut WorkflowStore<MemoryFs>, call: &WorkflowAgentCall) -> String {
    let result = WorkflowAgentResult::success(&call.key, Json::text("done"));
    session.take_result(store, call.index, result).unwrap()
}

fn keys(run: &WorkflowRun) -> Vec<&str> {
    run.results.iter().map(|result| result.key.as_str()).collect()
}

#[test]
fn workflow_scripts_require_non_empty_const_or_let_meta() {
    for text in [
        "null",
        r#"{"name":"","description":"missing name"}"#,
        r#"{"name":"empty description","description":" "}"#,
        r#"{"name":"no description"}"#,
        "[]",
    ] {
        let err = evaluate_metadata(text).unwrap_err();
        assert!(matches!(err, WorkflowError::InvalidMetadata(_)), "{text}: {err:?}");
    }
    assert!(matches!(evaluate_metadata("{"), Err(WorkflowError::Serde(_))));
    for (text, reason) in [
        ("true", "invalid type: boolean `true`, expected struct WorkflowScriptMeta"),
        ("7", "invalid type: integer `7`, expected struct WorkflowScriptMeta"),
        ("-1.5", "invalid type: floating point `-1.5`, expected struct WorkflowScriptMeta"),
        (r#""a\"b""#, r#"invalid type: string "a\"b", expected struct WorkflowScriptMeta"#),
        (r#"{"name": "n", "description": 7}"#, "invalid type: integer `7`, expected a string"),
        (r#"{"name": null, "description": []}"#, "invalid type: sequence, expected a string"),
        (r#"{"name": null}"#, "invalid type: null, expected a string"),
        (r#"{"description": "d"}"#, "missing field `name`"),
        ("{}", "missing field `name`"),
        (r#"{"name": "n"}"#, "missing field `description`"),
        ("[]", "invalid length 0, expected struct WorkflowScriptMeta with 2 elements"),
        (r#"["n"]"#, "invalid length 1, expected struct WorkflowScriptMeta with 2 elements"),
        (r#"["n", {}]"#, "invalid type: map, expected a string"),
        (r#"["n", "d", 1]"#, "invalid length 3, expected fewer elements in array"),
    ] {
        match evaluate_metadata(text) {
            Err(WorkflowError::InvalidMetadata(e)) => assert_eq!(e, format!("workflow meta is invalid: {reason}")),
            other => panic!("expected invalid metadata, got {other:?}"),
        }
    }
    let meta = evaluate_metadata(r#"{"name":"let-meta","description":"let meta is accepted"}"#).unwrap();
    assert_eq!(meta.name, "let-meta");
}

#[test]
fn saved_workflow_paths_validate_and_script_path_takes_precedence() {
    let mut store = new_store();
    store.vfs_mut().write("/workflows/saved.mjs", b"export const saved = 1;").unwrap();
    let mut wanted = options("run-saved");
    wanted.script_path = Some("/workflows/saved.mjs".to_string());
    wanted.script = Some("ignored".to_string());
    wanted.name = Some("ignored".to_string());
    let (path, source) = resolve_script(&mut store, "run-saved", &wanted).unwrap();
    assert_eq!(path, "/workflows/saved.mjs");
    assert_eq!(source, "export const saved = 1;");

    for invalid in [
        "../escape.mjs",
        "/tmp/host.mjs",
        "/workflows/../secret.mjs",
        "/workflows/not-js.txt",
        "/workflows/nul\0byte.mjs",
    ] {
        wanted.script_path = Some(invalid.to_string());
        let err = resolve_script(&mut store, "run-invalid-path", &wanted).unwrap_err();
        assert!(matches!(err, WorkflowError::InvalidScriptPath { .. }), "{invalid:?}: {err:?}");
    }
}

#[test]
fn saved_workflow_name_resolves_from_workflows_dir_and_script_source_is_required() {
    let mut store = new_store();
    store.vfs_mut().write("/workflows/named.mjs", b"named").unwrap();
    let mut wanted = options("run-named");
    wanted.name = Some("named".to_string());
    wanted.script = Some("ignored".to_string());
    let (path, source) = resolve_script(&mut store, "run-named", &wanted).unwrap();
    assert_eq!((path.as_str(), source.as_str()), ("/workflows/named.mjs", "named"));

    let err = resolve_script(&mut store, "run-no-source", &options("run-no-source")).unwrap_err();
    assert!(matches!(err, WorkflowError::InvalidScript(_)));

    for invalid in ["", ".", "..", "a/b", "a\\b", "a\0b"] {
        assert!(matches!(
            WorkflowStore::<MemoryFs>::script_path_for_name(invalid),
            Err(WorkflowError::InvalidScriptPath { .. })
        ));
    }
}

#[test]
fn inline_runs_persist_script_state_and_worker_transcripts_to_vfs() {
    let mut store = new_store();
    let mut wanted = options("run-persist");
    wanted.script = Some("export const meta = 1;".to_string());
    let (path, source) = resolve_script(&mut store, "run-persist", &wanted).unwrap();
    assert_eq!(path, "/var/workflows/runs/run-persist/workflow.mjs");
    assert_eq!(source, "export const meta = 1;");
    assert_eq!(store.vfs().read(&path).unwrap(), source.as_bytes());
    assert_eq!(
        WorkflowStore::<MemoryFs>::transcript_dir("run-persist"),
        "/var/workflows/runs/run-persist/agents"
    );

    let mut session = start(&mut store, "run-persist");
    let call = work(session.call(r#"{"label":"alpha","agent":"worker","task":"run alpha"}"#));
    succeed(&mut session, &mut store, &call);
    let run = session.finish(&mut store, None).unwrap();
    assert_eq!(run.status, WorkflowStatus::Completed);

    let state: serde_json::Value =
        serde_json::from_slice(&store.vfs().read("/var/workflows/runs/run-persist/state.json").unwrap()).unwrap();
    assert_eq!(state["run_id"], "run-persist");
    assert_eq!(state["status"], "Completed");
    let agent: serde_json::Value =
        serde_json::from_slice(&store.vfs().read("/var/workflows/runs/run-persist/agents/alpha.json").unwrap())
            .unwrap();
    assert_eq!(agent["key"], "alpha");
    assert_eq!(agent["is_error"], false);
    assert_eq!(agent["output"], "done");

    let kept = store.read_run("run-persist").unwrap();
    assert_eq!(kept.status, WorkflowStatus::Completed);
    assert_eq!(keys(&kept), ["alpha"]);
}

#[test]
fn a_run_is_kept_as_running_when_it_starts() {
    let mut store = new_store();
    let session = start(&mut store, "run-prompt");
    assert_eq!(session.run_id(), "run-prompt");
    assert_eq!(session.script_path(), "/workflows/demo.mjs");
    assert_eq!(store.read_run("run-prompt").unwrap().status, WorkflowStatus::Running);
    let output = started_output("run-prompt", "/workflows/demo.mjs", "/var/workflows/runs/run-prompt/agents");
    let structured = output.get("structured").unwrap();
    assert_eq!(structured.text_field("status").as_deref(), Some("Running"));
    assert_eq!(structured.text_field("run_id").as_deref(), Some("run-prompt"));
}

#[test]
fn orchestration_helpers_emit_events_without_changing_result_semantics() {
    let mut store = new_store();
    let mut session = start(&mut store, "run-helpers");
    session.progress("queued:b17");
    session.phase_started("plan");
    let plan = work(session.call(r#"{"label":"plan","agent":"planner","task":"plan b17"}"#));
    succeed(&mut session, &mut store, &plan);
    session.phase_completed("plan");
    let run = session.finish(&mut store, None).unwrap();
    assert_eq!(run.status, WorkflowStatus::Completed);
    assert_eq!(keys(&run), ["plan"]);
    let events: Vec<String> = session.events().iter().map(|event| event.to_json().to_string()).collect();
    let expected = [
        r#"{"name":"demo","run_id":"run-helpers","script_path":"/workflows/demo.mjs","type":"run_started"}"#,
        r#"{"message":"queued:b17","run_id":"run-helpers","type":"progress"}"#,
        r#"{"name":"plan","run_id":"run-helpers","type":"phase_started"}"#,
        r#"{"agent":"planner","key":"plan","run_id":"run-helpers","task":"plan b17","type":"agent_call_started"}"#,
        r#"{"cached":false,"is_error":false,"key":"plan","run_id":"run-helpers","type":"agent_call_completed"}"#,
        r#"{"name":"plan","run_id":"run-helpers","type":"phase_completed"}"#,
        r#"{"run_id":"run-helpers","type":"run_completed"}"#,
    ];
    assert_eq!(events, expected);
}

#[test]
fn calls_are_keyed_by_label_key_or_number() {
    let mut store = new_store();
    let mut session = start(&mut store, "run-keys");
    let first = work(session.call(r#"{"label":"a","key":"b"}"#));
    let second = work(session.call(r#"{"key":"b","agent_type":"worker","prompt":"do it","input":{"n":1}}"#));
    let third = work(session.call(r#"{"label":""}"#));
    let fourth = work(session.call(r#"{"label":7,"key":"b"}"#));
    assert_eq!((first.key.as_str(), first.index), ("a", 0));
    assert_eq!((second.key.as_str(), second.index), ("b", 1));
    assert_eq!(second.agent.as_deref(), Some("worker"));
    assert_eq!(second.task.as_deref(), Some("do it"));
    assert_eq!(second.input.to_string(), r#"{"n":1}"#);
    assert!(second.arguments.is_null());
    assert_eq!((third.key.as_str(), third.index), ("agent-2", 2));
    assert_eq!((fourth.key.as_str(), fourth.index), ("agent-3", 3));
}

#[test]
fn a_call_that_is_not_json_uses_up_its_number() {
    let mut store = new_store();
    let mut session = start(&mut store, "run-bad");
    let err = session.call("{").unwrap_err();
    assert!(matches!(&err, WorkflowError::InvalidScript(m) if m.starts_with("agent() argument is not JSON: ")));
    let reply = json(&error_reply(&err));
    assert_eq!(reply.text_field("key").as_deref(), Some("workflow-error"));
    assert_eq!(reply.bool_field("is_error"), Some(true));
    assert!(reply.get("output").unwrap().is_null());
    assert_eq!(work(session.call("{}")).index, 1);
}

#[test]
fn parallel_respects_configured_concurrency_limit_and_preserves_input_order() {
    assert_eq!(default_concurrency_limit(), 16);
    assert_eq!(effective_concurrency(0), 1);
    assert_eq!(effective_concurrency(2), 2);
    let labels = ["one", "two", "three", "four"];
    for order in [[0, 1, 2, 3], [3, 2, 1, 0], [2, 0, 3, 1]] {
        let mut store = new_store();
        let mut session = start(&mut store, "run-fanout");
        let calls: Vec<WorkflowAgentCall> = labels
            .iter()
            .map(|label| work(session.call(&format!(r#"{{"label":"{label}"}}"#))))
            .collect();
        for i in order {
            succeed(&mut session, &mut store, &calls[i]);
        }
        let run = session.finish(&mut store, None).unwrap();
        assert_eq!(keys(&run), labels);
    }
}

#[test]
fn cancellation_marks_run_cancelled_and_does_not_fabricate_successes() {
    let mut store = new_store();
    let mut session = start(&mut store, "run-cancel");
    let _blocked = work(session.call(r#"{"label":"blocked"}"#));
    assert!(!session.is_cancelled());
    session.cancel();
    assert!(session.is_cancelled());
    assert!(matches!(session.call(r#"{"label":"late"}"#), Err(WorkflowError::Cancelled)));
    let run = session.finish(&mut store, Some(WorkflowError::Cancelled)).unwrap();
    assert_eq!(run.status, WorkflowStatus::Cancelled);
    assert!(run.results.is_empty());
    assert!(run.error.is_none());
    assert_eq!(store.read_run("run-cancel").unwrap().status, WorkflowStatus::Cancelled);
    assert!(!store.vfs().entry_exists("/var/workflows/runs/run-cancel/agents/blocked.json"));
    assert!(matches!(session.events().last(), Some(WorkflowEvent::RunCancelled { .. })));
}

#[test]
fn a_failed_script_is_kept_and_its_error_handed_on() {
    let mut store = new_store();
    let mut session = start(&mut store, "run-failed");
    let err = session
        .finish(&mut store, Some(WorkflowError::InvalidScript("boom".to_string())))
        .unwrap_err();
    assert_eq!(err, WorkflowError::InvalidScript("boom".to_string()));
    let kept = store.read_run("run-failed").unwrap();
    assert_eq!(kept.status, WorkflowStatus::Failed);
    assert_eq!(kept.error, Some(err.to_string()));
}

#[test]
fn a_failed_worker_fails_the_run() {
    let mut store = new_store();
    let mut session = start(&mut store, "run-worker");
    let call = work(session.call(r#"{"label":"bad"}"#));
    let failure = WorkflowAgentResult::failure("bad", "no luck");
    session.take_result(&mut store, call.index, failure).unwrap();
    let run = session.finish(&mut store, None).unwrap();
    assert_eq!(run.status, WorkflowStatus::Failed);
    assert_eq!(run.error.as_deref(), Some("one or more workflow workers failed"));
    assert_eq!(run.results[0].error.as_deref(), Some("no luck"));
}

#[test]
fn resume_reuses_completed_calls_and_reruns_changed_missing_or_failed_calls() {
    let mut store = new_store();
    let mut first = start(&mut store, "resume-source");
    let stable = work(first.call(r#"{"label":"stable"}"#));
    let failed = work(first.call(r#"{"label":"failed"}"#));
    let old = work(first.call(r#"{"label":"changed-old"}"#));
    let stable_text = succeed(&mut first, &mut store, &stable);
    let failure = WorkflowAgentResult::failure("failed", "previous failure");
    first.take_result(&mut store, failed.index, failure).unwrap();
    succeed(&mut first, &mut store, &old);
    assert_eq!(first.finish(&mut store, None).unwrap().status, WorkflowStatus::Failed);
    store
        .vfs_mut()
        .remove("/var/workflows/runs/resume-source/agents/changed-old.json")
        .unwrap();

    let mut second = start(&mut store, "resume-target");
    second.resume(&store, Some("resume-source"));
    match second.call(r#"{"label":"stable"}"#) {
        Ok(CallStep::Reuse(text)) => assert_eq!(text, stable_text),
        other => panic!("expected the earlier result, got {other:?}"),
    }
    for label in ["failed", "changed-old", "changed-new", "missing"] {
        let call = work(second.call(&format!(r#"{{"label":"{label}"}}"#)));
        succeed(&mut second, &mut store, &call);
    }
    let run = second.finish(&mut store, None).unwrap();
    assert_eq!(run.status, WorkflowStatus::Completed);
    assert_eq!(keys(&run), ["stable", "failed", "changed-old", "changed-new", "missing"]);
    assert!(second
        .events()
        .iter()
        .any(|event| matches!(event, WorkflowEvent::AgentCallCompleted { key, cached: true, .. } if key == "stable")));
}

#[test]
fn nothing_is_reused_of_a_run_that_is_not_there() {
    let store = new_store();
    assert!(load_resume_cache(&store, None).get("stable").is_none());
    assert!(load_resume_cache(&store, Some("unheard-of")).get("stable").is_none());
}

#[test]
fn labels_cannot_lead_out_of_the_directory_of_the_results() {
    assert_eq!(
        WorkflowStore::<MemoryFs>::result_path("r", "../../etc/passwd"),
        "/var/workflows/runs/r/agents/______etc_passwd.json"
    );
    assert_eq!(
        WorkflowStore::<MemoryFs>::result_path("r", "build-a_1"),
        "/var/workflows/runs/r/agents/build-a_1.json"
    );
}

#[test]
fn workflow_events_serialize_and_map_to_server_sse_payloads() {
    let event = WorkflowEvent::AgentCallStarted {
        run_id: "run-events".to_string(),
        key: "research".to_string(),
        agent: Some("researcher".to_string()),
        task: Some("collect evidence".to_string()),
    };
    let serialized = event.to_json();
    assert_eq!(serialized.text_field("type").as_deref(), Some("agent_call_started"));
    assert_eq!(serialized.text_field("run_id").as_deref(), Some("run-events"));
    assert_eq!(serialized.text_field("key").as_deref(), Some("research"));

    let sse = event.to_sse_json(42);
    assert_eq!(sse.text_field("event").as_deref(), Some("workflow.agent_start"));
    assert_eq!(sse.text_field("run_id").as_deref(), Some("run-events"));
    assert_eq!(sse.u64_field("seq"), Some(42));
    assert_eq!(sse.text_field("agent_label").as_deref(), Some("research"));
    assert_eq!(sse.text_field("status").as_deref(), Some("running"));
}

#[test]
fn workflow_run_state_and_events_are_serializable_contract_types() {
    fn assert_coded<T: Coded>() {}
    assert_coded::<WorkflowAgentCall>();
    assert_coded::<WorkflowAgentResult>();
    assert_coded::<WorkflowEvent>();
    assert_coded::<WorkflowRun>();
    assert_coded::<WorkflowStatus>();

    let run = WorkflowRun {
        run_id: "run-serde".to_string(),
        script_path: "/workflows/serde.mjs".to_string(),
        meta: WorkflowScriptMeta {
            name: "serde".to_string(),
            description: "serializable run state".to_string(),
        },
        status: WorkflowStatus::Completed,
        results: vec![WorkflowAgentResult::success("agent", json(r#"{"ok": true}"#))],
        error: None,
    };
    let encoded = run.to_json().to_string();
    let decoded = WorkflowRun::from_json(&json(&encoded)).expect("run state should roundtrip");
    assert_eq!(decoded.run_id, "run-serde");
    assert_eq!(decoded.results[0].key, "agent");
}

#[test]
fn the_tool_takes_its_options_from_its_input() {
    let options = parse_tool_options(&json(
        r#"{"script":" ","name":"named","run_id":null,"concurrency_limit":3,"resume_from_run_id":"old"}"#,
    ))
    .unwrap();
    assert_eq!(options.script, None);
    assert_eq!(options.name.as_deref(), Some("named"));
    assert_eq!(options.run_id, None);
    assert_eq!(options.concurrency_limit, 3);
    assert_eq!(options.resume_from_run_id.as_deref(), Some("old"));
    assert_eq!(options.args.to_string(), "{}");
    let fresh = options.run_id_or_fresh();
    assert_eq!(fresh.len(), 26);
    assert_ne!(fresh, options.run_id_or_fresh());

    let plain = parse_tool_options(&json(r#"{"name":"n","run_id":"mine","concurrency_limit":-1}"#)).unwrap();
    assert_eq!(plain.concurrency_limit, 16);
    assert_eq!(plain.run_id_or_fresh(), "mine");

    for (input, message) in [
        ("[]", "invalid arguments: Workflow input must be an object"),
        ("{}", "invalid arguments: Workflow requires script, name, or script_path"),
        (r#"{"name":7}"#, "invalid arguments: Workflow field `name` must be a string"),
    ] {
        assert_eq!(parse_tool_options(&json(input)).unwrap_err().to_string(), message);
    }
    assert_eq!(workflow_tool_definition().name, "Workflow");
}

#[test]
fn scripts_are_run_with_their_arguments() {
    let source = run_source("SCRIPT", &json(r#"{"a":"b\"c"}"#));
    assert!(source.starts_with("SCRIPT\n"));
    assert!(source.contains(r#"globalThis.__simulacraWorkflowArgsJson = "{\"a\":\"b\\\"c\"}";"#));
    assert!(metadata_source("SCRIPT").starts_with("SCRIPT\nglobalThis.__simulacraWorkflowResult__ = "));
}

#[test]
fn scripts_that_are_not_utf8_are_refused() {
    let mut store = new_store();
    store.vfs_mut().write("/workflows/bad.mjs", &[0xff, 0xfe]).unwrap();
    let err = store.read_script("/workflows/bad.mjs").unwrap_err();
    assert!(matches!(&err, WorkflowError::InvalidScript(m) if m.starts_with("workflow script is not UTF-8: ")));
    store.vfs_mut().write("/workflows/good.mjs", "déjà".as_bytes()).unwrap();
    assert_eq!(store.read_script("/workflows/good.mjs").unwrap(), "déjà");
}

#[test]
fn state_that_is_not_json_is_refused() {
    let mut store = new_store();
    assert!(matches!(store.read_run("none"), Err(WorkflowError::Vfs(_))));
    store.vfs_mut().write("/var/workflows/runs/r/state.json", b"{").unwrap();
    assert!(matches!(store.read_run("r"), Err(WorkflowError::Serde(_))));
    store.vfs_mut().write("/var/workflows/runs/r/state.json", b"{}").unwrap();
    assert!(matches!(store.read_run("r"), Err(WorkflowError::Serde(_))));
}

#[test]
fn answers_belong_to_calls_that_were_handed_out() {
    let mut store = new_store();
    let mut session = start(&mut store, "run-open");
    assert!(!session.is_open(0));
    let call = work(session.call(r#"{"label":"one"}"#));
    assert!(session.is_open(call.index));
    succeed(&mut session, &mut store, &call);
    assert!(!session.is_open(call.index));
    assert!(session
        .events()
        .iter()
        .any(|event| matches!(event, WorkflowEvent::AgentCallCompleted { key, .. } if key == "one")));
}

#[test]
fn results_and_runs_keep_the_order_of_their_members() {
    let mut store = new_store();
    let mut session = start(&mut store, "run-order");
    let call = work(session.call(r#"{"label":"one"}"#));
    let output = Json::parse(r#"{"z": 1, "a": {"y": 2, "b": 3}}"#).unwrap();
    let text = session
        .take_result(&mut store, call.index, WorkflowAgentResult::success("one", output))
        .unwrap();
    assert_eq!(text, r#"{"key":"one","output":{"a":{"b":3,"y":2},"z":1},"is_error":false}"#);
    let kept = store.vfs().read("/var/workflows/runs/run-order/agents/one.json").unwrap();
    assert_eq!(
        String::from_utf8(kept).unwrap(),
        "{\n  \"key\": \"one\",\n  \"output\": {\n    \"a\": {\n      \"b\": 3,\n      \"y\": 2\n    },\n    \"z\": 1\n  },\n  \"is_error\": false\n}"
    );
    session.finish(&mut store, None).unwrap();
    let kept = String::from_utf8(store.vfs().read("/var/workflows/runs/run-order/state.json").unwrap()).unwrap();
    let at = |name: &str| kept.find(&format!("\"{name}\":")).unwrap();
    assert!(at("run_id") < at("script_path"));
    assert!(at("script_path") < at("meta"));
    assert!(at("meta") < at("name"));
    assert!(at("name") < at("description"));
    assert!(at("description") < at("status"));
    assert!(at("status") < at("results"));
    assert!(at("results") < at("key"));
}

#[test]
fn values_of_the_depth_that_the_parser_goes_to_are_read_back() {
    let deep = |n: usize| format!("{}{}", "[".repeat(n), "]".repeat(n));
    assert_eq!(Json::parse(&deep(127)).unwrap().to_string(), deep(127));
    assert!(Json::parse(&deep(128)).is_err());
}
