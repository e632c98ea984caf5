//! What a run is asked for: its script, its arguments, and what it resumes.
use crate::coding::{lemma_item_views, Coded};
use crate::json::{item_views, member, parse_json, parse_view, parsed, print_json, printed, put, say_wrong_type, wrong_type, Json, JsonView};
use crate::record::{missing, say_missing};
use crate::text::{blank, concat, concat3, copy, decimal, is_blank, number, opt_text};
use crate::types::tool::{described, object_schema, output_value, text_output, DefinitionView, ToolDefinition, ToolError, ToolErrorView, ToolOutput, ToolOutputView, ToolSchema};
use crate::types::vfs::VirtualFs;
use crate::workflow::error::{WorkflowError, WorkflowErrorView};
use crate::workflow::store::{bad_path, inline_path, is_single_segment, saved_script_path, stores_bytes, text_out, WorkflowStore};
use crate::workflow::types::{MetaView, WorkflowScriptMeta};
use vstd::prelude::*;
use vstd::string::*;
use vstd::utf8::encode_utf8;

verus! {

broadcast use vstd::seq_lib::group_seq_properties;

/// What a run is asked for.
#[derive(Debug, Clone)]
pub struct WorkflowRunOptions {
    pub run_id: Option<String>,
    pub script: Option<String>,
    pub name: Option<String>,
    pub script_path: Option<String>,
    pub args: Json,
    pub resume_from_run_id: Option<String>,
    pub concurrency_limit: usize,
}

/// What [`WorkflowRunOptions`] say.
pub struct OptionsView {
    pub run_id: Option<Seq<char>>,
    pub script: Option<Seq<char>>,
    pub name: Option<Seq<char>>,
    pub script_path: Option<Seq<char>>,
    pub args: JsonView,
    pub resume_from_run_id: Option<Seq<char>>,
    pub concurrency_limit: usize,
}

impl View for WorkflowRunOptions {
    type V = OptionsView;

    open spec fn view(&self) -> OptionsView {
        OptionsView {
            run_id: opt_text(self.run_id),
            script: opt_text(self.script),
            name: opt_text(self.name),
            script_path: opt_text(self.script_path),
            args: self.args@,
            resume_from_run_id: opt_text(self.resume_from_run_id),
            concurrency_limit: self.concurrency_limit,
        }
    }
}

/// How many agents work at the same time, where nothing is said about it.
pub fn default_concurrency_limit() -> (r: usize)
    ensures
        r == 16,
{
    16
}

/// How many agents work at the same time: at least one.
pub fn effective_concurrency(limit: usize) -> (r: usize)
    ensures
        r == if limit == 0 {
            1
        } else {
            limit
        },
{
    if limit == 0 {
        1
    } else {
        limit
    }
}

/// `ulid::Ulid::new` in its canonical text: twenty-six characters of Crockford's base 32,
/// which does not use the letters I, L, O and U. The identifier is new each time.
#[verifier::external_body]
fn fresh_id() -> (r: String)
    ensures
        r@.len() == 26,
        forall|i: int| 0 <= i < r@.len() ==> is_crockford(#[trigger] r@[i]),
{
    ulid::Ulid::new().to_string()
}

/// A character of Crockford's base 32.
pub open spec fn is_crockford(c: char) -> bool {
    ('0' <= c <= '9') || ('A' <= c <= 'Z' && c != 'I' && c != 'L' && c != 'O' && c != 'U')
}

impl WorkflowRunOptions {
    /// The identifier that was asked for, or a fresh one.
    pub fn run_id_or_fresh(&self) -> (r: String)
        ensures
            self@.run_id is Some ==> r@ == self@.run_id->0,
            self@.run_id is None ==> r@.len() == 26,
            self@.run_id is None ==> forall|i: int| 0 <= i < r@.len() ==> is_crockford(#[trigger] r@[i]),
    {
        match &self.run_id {
            Some(id) => id.clone(),
            None => fresh_id(),
        }
    }
}

// ---- The tool ----------------------------------------------------------------

/// An optional text of the input: blank texts count as missing.
pub open spec fn maybe_string(json: JsonView, field: Seq<char>) -> Result<Option<Seq<char>>, ToolErrorView> {
    match member(json, field) {
        None => Ok(None),
        Some(JsonView::Null) => Ok(None),
        Some(JsonView::Text(text)) => if is_blank(text) {
            Ok(None)
        } else {
            Ok(Some(text))
        },
        Some(_) => Err(
            ToolErrorView::InvalidArguments("Workflow field `"@ + field + "` must be a string"@),
        ),
    }
}

/// What an optional text gives, over views.
pub open spec fn maybe_string_out(r: Result<Option<String>, ToolError>) -> Result<
    Option<Seq<char>>,
    ToolErrorView,
> {
    match r {
        Ok(text) => Ok(opt_text(text)),
        Err(e) => Err(e@),
    }
}

fn optional_string(object: &Json, field: &str) -> (r: Result<Option<String>, ToolError>)
    ensures
        maybe_string_out(r) == maybe_string(object@, field@),
{
    match object.get(field) {
        None => Ok(None),
        Some(Json::Null) => Ok(None),
        Some(Json::Text(text)) => if blank(text.as_str()) {
            Ok(None)
        } else {
            Ok(Some(text.clone()))
        },
        Some(_) => Err(
            ToolError::InvalidArguments(concat3("Workflow field `", field, "` must be a string")),
        ),
    }
}

/// The concurrency limit of the input, where it is one that can be counted.
pub open spec fn limit_of(json: Option<JsonView>) -> usize {
    match json {
        Some(JsonView::Unsigned(n)) => if n <= usize::MAX {
            n as usize
        } else {
            16
        },
        _ => 16,
    }
}

/// The arguments of the input: an empty object, where there are none.
pub open spec fn args_of(json: Option<JsonView>) -> JsonView {
    match json {
        Some(args) => args,
        None => JsonView::Object(Map::empty()),
    }
}

/// The options that the input of the tool stands for.
pub open spec fn options_of(json: JsonView) -> Result<OptionsView, ToolErrorView> {
    if !(json is Object) {
        Err(ToolErrorView::InvalidArguments("Workflow input must be an object"@))
    } else {
        match maybe_string(json, "script"@) {
            Err(e) => Err(e),
            Ok(script) => match maybe_string(json, "name"@) {
                Err(e) => Err(e),
                Ok(name) => match maybe_string(json, "script_path"@) {
                    Err(e) => Err(e),
                    Ok(script_path) => if script is None && name is None && script_path is None {
                        Err(
                            ToolErrorView::InvalidArguments("Workflow requires script, name, or script_path"@),
                        )
                    } else {
                        match maybe_string(json, "run_id"@) {
                            Err(e) => Err(e),
                            Ok(run_id) => match maybe_string(json, "resume_from_run_id"@) {
                                Err(e) => Err(e),
                                Ok(resume_from_run_id) => Ok(
                                    OptionsView {
                                        run_id,
                                        script,
                                        name,
                                        script_path,
                                        args: args_of(member(json, "args"@)),
                                        resume_from_run_id,
                                        concurrency_limit: limit_of(member(json, "concurrency_limit"@)),
                                    },
                                ),
                            },
                        }
                    },
                },
            },
        }
    }
}

/// Options or their error, over views.
pub open spec fn options_out(r: Result<WorkflowRunOptions, ToolError>) -> Result<OptionsView, ToolErrorView> {
    match r {
        Ok(options) => Ok(options@),
        Err(e) => Err(e@),
    }
}

/// The options that the input of the tool stands for.
pub fn parse_tool_options(arguments: &Json) -> (r: Result<WorkflowRunOptions, ToolError>)
    ensures
        options_out(r) == options_of(arguments@),
{
    if !arguments.is_object() {
        return Err(ToolError::InvalidArguments(copy("Workflow input must be an object")));
    }
    let script = match optional_string(arguments, "script") {
        Ok(text) => text,
        Err(e) => {
            return Err(e);
        },
    };
    let name = match optional_string(arguments, "name") {
        Ok(text) => text,
        Err(e) => {
            return Err(e);
        },
    };
    let script_path = match optional_string(arguments, "script_path") {
        Ok(text) => text,
        Err(e) => {
            return Err(e);
        },
    };
    if script.is_none() && name.is_none() && script_path.is_none() {
        return Err(ToolError::InvalidArguments(copy("Workflow requires script, name, or script_path")));
    }
    let run_id = match optional_string(arguments, "run_id") {
        Ok(text) => text,
        Err(e) => {
            return Err(e);
        },
    };
    let resume_from_run_id = match optional_string(arguments, "resume_from_run_id") {
        Ok(text) => text,
        Err(e) => {
            return Err(e);
        },
    };
    let args = match arguments.get("args") {
        Some(args) => args.clone(),
        None => Json::empty_object(),
    };
    let concurrency_limit: usize = match arguments.get("concurrency_limit") {
        Some(Json::Unsigned(n)) => if *n <= usize::MAX as u64 {
            *n as usize
        } else {
            default_concurrency_limit()
        },
        _ => default_concurrency_limit(),
    };
    Ok(WorkflowRunOptions { run_id, script, name, script_path, args, resume_from_run_id, concurrency_limit })
}

/// The properties of the input of the tool.
pub open spec fn input_properties() -> Map<Seq<char>, JsonView> {
    Map::empty().insert("script"@, described("string"@, "Inline workflow ESM source."@)).insert(
        "name"@,
        described("string"@, "Saved workflow name under /workflows."@),
    ).insert("script_path"@, described("string"@, "Saved workflow script path in the VFS."@)).insert(
        "args"@,
        JsonView::Object(
            Map::empty().insert("type"@, JsonView::Text("object"@)).insert(
                "description"@,
                JsonView::Text("JSON arguments passed to the workflow."@),
            ).insert("additionalProperties"@, JsonView::Bool(true)),
        ),
    ).insert("resume_from_run_id"@, described("string"@, "Previous workflow run id to resume from."@))
}

/// The definition of the tool that starts a run.
pub fn workflow_tool_definition() -> (r: ToolDefinition)
    ensures
        r@ == (DefinitionView {
            name: "Workflow"@,
            description: "Start a persisted workflow orchestration run."@,
            input_schema: object_schema(input_properties(), Seq::empty()),
        }),
{
    let mut args: Vec<(String, Json)> = Vec::new();
    put(&mut args, "type", Json::text("object"));
    put(&mut args, "description", Json::text("JSON arguments passed to the workflow."));
    put(&mut args, "additionalProperties", Json::Bool(true));
    let mut properties: Vec<(String, Json)> = Vec::new();
    put(&mut properties, "script", ToolSchema::string("Inline workflow ESM source."));
    put(&mut properties, "name", ToolSchema::string("Saved workflow name under /workflows."));
    put(&mut properties, "script_path", ToolSchema::string("Saved workflow script path in the VFS."));
    put(&mut properties, "args", Json::Object(args));
    put(&mut properties, "resume_from_run_id", ToolSchema::string("Previous workflow run id to resume from."));
    let required: Vec<String> = Vec::new();
    assert(crate::text::texts(required@) =~= Seq::empty());
    ToolDefinition {
        name: copy("Workflow"),
        description: copy("Start a persisted workflow orchestration run."),
        input_schema: ToolSchema::object(properties, required),
    }
}

/// What is told of a run that was started.
pub open spec fn started_value(run_id: Seq<char>, script_path: Seq<char>, transcript_dir: Seq<char>) -> JsonView {
    JsonView::Object(
        Map::empty().insert("run_id"@, JsonView::Text(run_id)).insert(
            "status"@,
            JsonView::Text("Running"@),
        ).insert("script_path"@, JsonView::Text(script_path)).insert(
            "transcript_dir"@,
            JsonView::Text(transcript_dir),
        ),
    )
}

/// The output of the tool that has started a run.
pub fn started_output(run_id: &str, script_path: &str, transcript_dir: &str) -> (r: Json)
    ensures
        r@ == output_value(
            (ToolOutputView {
                structured: Some(started_value(run_id@, script_path@, transcript_dir@)),
                ..text_output(printed(started_value(run_id@, script_path@, transcript_dir@)), false)
            }),
        ),
{
    let mut m: Vec<(String, Json)> = Vec::new();
    put(&mut m, "run_id", Json::text(run_id));
    put(&mut m, "status", Json::text("Running"));
    put(&mut m, "script_path", Json::text(script_path));
    put(&mut m, "transcript_dir", Json::text(transcript_dir));
    let structured = Json::Object(m);
    let text = structured.to_string();
    ToolOutput::success(text.as_str()).with_structured(structured).to_value()
}

// ---- Scripts -----------------------------------------------------------------

/// A script with its path, over views.
pub open spec fn resolved_out(r: Result<(String, String), WorkflowError>) -> Result<
    (Seq<char>, Seq<char>),
    WorkflowErrorView,
> {
    match r {
        Ok(script) => Ok((script.0@, script.1@)),
        Err(e) => Err(e@),
    }
}

/// The source that was read, with its path.
pub open spec fn with_path(path: Seq<char>, source: Result<Seq<char>, WorkflowErrorView>) -> Result<
    (Seq<char>, Seq<char>),
    WorkflowErrorView,
> {
    match source {
        Ok(source) => Ok((path, source)),
        Err(e) => Err(e),
    }
}

/// What resolving the script at `path` may give.
pub open spec fn resolves_path<V: VirtualFs>(
    store: WorkflowStore<V>,
    path: Seq<char>,
    out: Result<(Seq<char>, Seq<char>), WorkflowErrorView>,
) -> bool {
    exists|source: Result<Seq<char>, WorkflowErrorView>| #[trigger]
        store.script_reads(path, source) && out == with_path(path, source)
}

/// What keeping an inline script may give.
pub open spec fn resolves_inline<V: VirtualFs>(
    before: WorkflowStore<V>,
    run_id: Seq<char>,
    source: Seq<char>,
    after: WorkflowStore<V>,
    out: Result<(Seq<char>, Seq<char>), WorkflowErrorView>,
) -> bool {
    exists|kept: Result<(), WorkflowErrorView>| #[trigger]
        stores_bytes(before.fs(), inline_path(run_id), encode_utf8(source), after.fs(), kept) && out
            == match kept {
            Ok(()) => Ok((inline_path(run_id), source)),
            Err(e) => Err(e),
        }
}

/// What resolving the script of a run may give: a path counts before a name, and a name
/// before an inline script.
pub open spec fn resolves<V: VirtualFs>(
    before: WorkflowStore<V>,
    run_id: Seq<char>,
    options: OptionsView,
    after: WorkflowStore<V>,
    out: Result<(Seq<char>, Seq<char>), WorkflowErrorView>,
) -> bool {
    match options.script_path {
        Some(path) => after == before && resolves_path(before, path, out),
        None => match options.name {
            Some(name) => after == before && if is_single_segment(name) {
                resolves_path(before, saved_script_path(name), out)
            } else {
                out == Err::<(Seq<char>, Seq<char>), WorkflowErrorView>(
                    bad_path(name, "workflow name must be a single path segment"@),
                )
            },
            None => match options.script {
                Some(source) => resolves_inline(before, run_id, source, after, out),
                None => after == before && out == Err::<(Seq<char>, Seq<char>), WorkflowErrorView>(
                    WorkflowErrorView::InvalidScript("must provide script, name, or script_path"@),
                ),
            },
        },
    }
}

fn read_at<V: VirtualFs>(store: &WorkflowStore<V>, path: &str) -> (r: Result<(String, String), WorkflowError>)
    requires
        store.fs().wf(),
    ensures
        resolves_path(*store, path@, resolved_out(r)),
{
    let source = store.read_script(path);
    assert(store.script_reads(path@, text_out(source)));
    match source {
        Ok(source) => Ok((copy(path), source)),
        Err(e) => Err(e),
    }
}

/// The path and the source of the script of a run: a path counts before a name, and a name
/// before an inline script, which is kept.
pub fn resolve_script<V: VirtualFs>(
    store: &mut WorkflowStore<V>,
    run_id: &str,
    options: &WorkflowRunOptions,
) -> (r: Result<(String, String), WorkflowError>)
    requires
        old(store).fs().wf(),
    ensures
        final(store).fs().wf(),
        resolves(*old(store), run_id@, options@, *final(store), resolved_out(r)),
{
    if let Some(path) = &options.script_path {
        return read_at(store, path.as_str());
    }
    if let Some(name) = &options.name {
        return match WorkflowStore::<V>::script_path_for_name(name.as_str()) {
            Ok(path) => read_at(store, path.as_str()),
            Err(e) => Err(e),
        };
    }
    if let Some(script) = &options.script {
        let ghost before = *store;
        let kept = store.persist_inline_script(run_id, script.as_str());
        let ghost outcome = match text_out(kept) {
            Ok(_) => Ok::<(), WorkflowErrorView>(()),
            Err(e) => Err(e),
        };
        assert(stores_bytes(before.fs(), inline_path(run_id@), encode_utf8(script@), store.fs(), outcome));
        return match kept {
            Ok(path) => Ok((path, script.clone())),
            Err(e) => Err(e),
        };
    }
    Err(WorkflowError::InvalidScript(copy("must provide script, name, or script_path")))
}

/// The module that tells what a script says of itself.
pub fn metadata_source(source: &str) -> (r: String)
    ensures
        r@ == source@
            + "\nglobalThis.__simulacraWorkflowResult__ = JSON.stringify(typeof meta === 'undefined' ? null : meta);"@,
{
    crate::text::concat(
        source,
        "\nglobalThis.__simulacraWorkflowResult__ = JSON.stringify(typeof meta === 'undefined' ? null : meta);",
    )
}

/// The module that runs a script with its arguments.
pub fn run_source(source: &str, args: &Json) -> (r: String)
    ensures
        r@ == source@ + "\nglobalThis.__simulacraWorkflowArgsJson = "@ + printed(
            JsonView::Text(printed(args@)),
        )
            + ";\nglobalThis.__simulacraWorkflowResult__ = JSON.stringify(await workflow(JSON.parse(globalThis.__simulacraWorkflowArgsJson)));"@,
{
    let args_json = print_json(args);
    let literal = print_json(&Json::Text(args_json));
    let mut r = concat3(source, "\nglobalThis.__simulacraWorkflowArgsJson = ", literal.as_str());
    r.append(
        ";\nglobalThis.__simulacraWorkflowResult__ = JSON.stringify(await workflow(JSON.parse(globalThis.__simulacraWorkflowArgsJson)));",
    );
    r
}

/// What is said against a list of so many items.
pub open spec fn wrong_length(len: nat, expected: Seq<char>) -> Seq<char> {
    "invalid length "@ + decimal(len) + ", expected "@ + expected
}

/// Says what is wrong with a list of so many items.
fn say_wrong_length(len: usize, expected: &str) -> (r: String)
    ensures
        r@ == wrong_length(len as nat, expected@),
{
    let head = concat3("invalid length ", number(len as u64).as_str(), ", expected ");
    concat(head.as_str(), expected)
}

/// A member that is there and is no text.
pub open spec fn is_no_text(value: Option<JsonView>) -> bool {
    value is Some && !(value->0 is Text)
}

/// What is said against metadata of the wrong shape. Of an object, the members are looked at
/// in the order of their names, and then it is looked for what is missing; of a list, the
/// items are looked at in order.
pub open spec fn meta_refusal(json: JsonView) -> Seq<char> {
    match json {
        JsonView::Object(_) => if is_no_text(member(json, "description"@)) {
            wrong_type(member(json, "description"@)->0, "a string"@)
        } else if is_no_text(member(json, "name"@)) {
            wrong_type(member(json, "name"@)->0, "a string"@)
        } else if member(json, "name"@) is None {
            missing("name"@)
        } else {
            missing("description"@)
        },
        JsonView::Array(items) => if items.len() == 0 {
            wrong_length(0, "struct WorkflowScriptMeta with 2 elements"@)
        } else if !(items[0] is Text) {
            wrong_type(items[0], "a string"@)
        } else if items.len() == 1 {
            wrong_length(1, "struct WorkflowScriptMeta with 2 elements"@)
        } else if !(items[1] is Text) {
            wrong_type(items[1], "a string"@)
        } else {
            wrong_length(items.len(), "fewer elements in array"@)
        },
        _ => wrong_type(json, "struct WorkflowScriptMeta"@),
    }
}

/// Says what is wrong with metadata of the wrong shape.
fn refuse_meta(json: &Json) -> (r: String)
    ensures
        r@ == meta_refusal(json@),
{
    match json {
        Json::Object(_) => {
            let description = json.get("description");
            let name = json.get("name");
            match description {
                None => {},
                Some(Json::Text(_)) => {},
                Some(value) => {
                    return say_wrong_type(value, "a string");
                },
            }
            match name {
                None => say_missing("name"),
                Some(Json::Text(_)) => say_missing("description"),
                Some(value) => say_wrong_type(value, "a string"),
            }
        },
        Json::Array(items) => {
            proof {
                lemma_item_views(items@);
            }
            if items.len() == 0 {
                return say_wrong_length(0, "struct WorkflowScriptMeta with 2 elements");
            }
            assert(item_views(items@)[0] == items@[0]@);
            match &items[0] {
                Json::Text(_) => {},
                value => {
                    return say_wrong_type(value, "a string");
                },
            }
            if items.len() == 1 {
                return say_wrong_length(1, "struct WorkflowScriptMeta with 2 elements");
            }
            assert(item_views(items@)[1] == items@[1]@);
            match &items[1] {
                Json::Text(_) => say_wrong_length(items.len(), "fewer elements in array"),
                value => say_wrong_type(value, "a string"),
            }
        },
        _ => say_wrong_type(json, "struct WorkflowScriptMeta"),
    }
}

/// What a script says of itself, where the text of it parses as `parse`.
pub open spec fn meta_of(parse: Result<JsonView, Seq<char>>) -> Result<MetaView, WorkflowErrorView> {
    match parse {
        Err(e) => Err(WorkflowErrorView::Serde(e)),
        Ok(json) => if json is Null {
            Err(
                WorkflowErrorView::InvalidMetadata("workflow meta must be exported as a non-empty object"@),
            )
        } else {
            match WorkflowScriptMeta::dec(json) {
                None => Err(
                    WorkflowErrorView::InvalidMetadata("workflow meta is invalid: "@ + meta_refusal(json)),
                ),
                Some(meta) => if is_blank(meta.name) || is_blank(meta.description) {
                    Err(
                        WorkflowErrorView::InvalidMetadata("workflow meta name and description must be non-empty"@),
                    )
                } else {
                    Ok(meta)
                },
            }
        },
    }
}

/// A description or its error, over views.
pub open spec fn meta_out(r: Result<WorkflowScriptMeta, WorkflowError>) -> Result<MetaView, WorkflowErrorView> {
    match r {
        Ok(meta) => Ok(meta@),
        Err(e) => Err(e@),
    }
}

/// What a script says of itself, where the text of it parses as `parse`.
pub fn check_metadata(parse: Result<Json, String>) -> (r: Result<WorkflowScriptMeta, WorkflowError>)
    ensures
        meta_out(r) == meta_of(parse_view(parse)),
{
    let json = match parse {
        Err(e) => {
            return Err(WorkflowError::Serde(e));
        },
        Ok(json) => json,
    };
    if json.is_null() {
        return Err(
            WorkflowError::InvalidMetadata(copy("workflow meta must be exported as a non-empty object")),
        );
    }
    match WorkflowScriptMeta::read(&json) {
        None => Err(
            WorkflowError::InvalidMetadata(concat("workflow meta is invalid: ", refuse_meta(&json).as_str())),
        ),
        Some(meta) => if blank(meta.name.as_str()) || blank(meta.description.as_str()) {
            Err(
                WorkflowError::InvalidMetadata(copy("workflow meta name and description must be non-empty")),
            )
        } else {
            Ok(meta)
        },
    }
}

/// What a script says of itself, from the text that its metadata module left.
pub fn evaluate_metadata(result: &str) -> (r: Result<WorkflowScriptMeta, WorkflowError>)
    ensures
        meta_out(r) == meta_of(parsed(result@)),
{
    check_metadata(parse_json(result))
}

/// A run whose options name a path ignores the name and the inline script.
pub proof fn a_path_takes_precedence<V: VirtualFs>(
    before: WorkflowStore<V>,
    run_id: Seq<char>,
    options: OptionsView,
    other: OptionsView,
    after: WorkflowStore<V>,
    out: Result<(Seq<char>, Seq<char>), WorkflowErrorView>,
)
    requires
        options.script_path is Some,
        other.script_path == options.script_path,
        resolves(before, run_id, options, after, out),
    ensures
        resolves(before, run_id, other, after, out),
        after == before,
        out is Ok ==> out->Ok_0.0 == options.script_path->0,
{
}

/// A script whose name or description is blank cannot be run.
pub proof fn scripts_describe_themselves(parse: Result<JsonView, Seq<char>>)
    requires
        meta_of(parse) is Ok,
    ensures
        !is_blank(meta_of(parse)->Ok_0.name),
        !is_blank(meta_of(parse)->Ok_0.description),
{
}

} // verus!
