//! Workflow scripts, calls, results and runs, and how they are written down.
use crate::coding::{dec_list, enc_list, enc_optional, has_tag, list_from_json, list_round_trip, list_to_json, mark, optional, optional_field, optional_to_json, required, required_field, tagged, view_of, views, Coded};
use crate::form::{add_member, lemma_list_form, lemma_then_member, list_form, list_to_form, then_member, then_text, Recorded};
use crate::json::{member, member_views, put, Form, FormView, Json, JsonView};
use crate::record::{as_record, as_variant, default_fault, default_list_fault, find_default_fault, find_default_list_fault, find_object_fault, find_optional_fault, find_required_fault, find_tag_fault, first, leading_text, lemma_item_fault, list_tag, names_unit, object_fault, optional_fault, record_of, required_fault, said, shape_view, tag_fault, tell, unit_name, variant_of};
use crate::text::{copy, opt_text, texts};
use vstd::prelude::*;

verus! {

broadcast use vstd::seq_lib::group_seq_properties;

// ---- Status ------------------------------------------------------------------

/// Where a run stands.
#[derive(Debug, Clone, Copy, PartialEq, Eq)]
pub enum WorkflowStatus {
    Pending,
    Running,
    Completed,
    Failed,
    Cancelled,
}

impl View for WorkflowStatus {
    type V = WorkflowStatus;

    open spec fn view(&self) -> WorkflowStatus {
        *self
    }
}

/// The name of a status.
pub open spec fn status_name(status: WorkflowStatus) -> Seq<char> {
    match status {
        WorkflowStatus::Pending => "Pending"@,
        WorkflowStatus::Running => "Running"@,
        WorkflowStatus::Completed => "Completed"@,
        WorkflowStatus::Failed => "Failed"@,
        WorkflowStatus::Cancelled => "Cancelled"@,
    }
}

/// The names of the statuses differ.
proof fn lemma_status_names()
    ensures
        mark("Pending"@) == 7_080_100_103,
        mark("Running"@) == 7_082_110_103,
        mark("Completed"@) == 9_067_108_100,
        mark("Failed"@) == 6_070_108_100,
        mark("Cancelled"@) == 9_067_101_100,
{
    reveal_strlit("Pending");
    reveal_strlit("Running");
    reveal_strlit("Completed");
    reveal_strlit("Failed");
    reveal_strlit("Cancelled");
}

impl Coded for WorkflowStatus {
    open spec fn stable(v: WorkflowStatus) -> bool {
        true
    }

    open spec fn enc(v: WorkflowStatus) -> JsonView {
        JsonView::Text(status_name(v))
    }

    open spec fn dec(json: JsonView) -> Option<WorkflowStatus> {
        if names_unit(json, "Pending"@) {
            Some(WorkflowStatus::Pending)
        } else if names_unit(json, "Running"@) {
            Some(WorkflowStatus::Running)
        } else if names_unit(json, "Completed"@) {
            Some(WorkflowStatus::Completed)
        } else if names_unit(json, "Failed"@) {
            Some(WorkflowStatus::Failed)
        } else if names_unit(json, "Cancelled"@) {
            Some(WorkflowStatus::Cancelled)
        } else {
            None
        }
    }

    open spec fn complaint(json: JsonView) -> Seq<char> {
        "expected one of Pending, Running, Completed, Failed, Cancelled"@
    }

    proof fn round_trip(v: WorkflowStatus) {
        lemma_status_names();
    }

    fn to_json(&self) -> (r: Json) {
        Json::text(
            match self {
                WorkflowStatus::Pending => "Pending",
                WorkflowStatus::Running => "Running",
                WorkflowStatus::Completed => "Completed",
                WorkflowStatus::Failed => "Failed",
                WorkflowStatus::Cancelled => "Cancelled",
            },
        )
    }

    fn read(json: &Json) -> (r: Option<Self>) {
        proof {
            lemma_status_names();
        }
        match unit_name(json) {
            Some(name) => if *name.as_str() == *"Pending" {
                Some(WorkflowStatus::Pending)
            } else if *name.as_str() == *"Running" {
                Some(WorkflowStatus::Running)
            } else if *name.as_str() == *"Completed" {
                Some(WorkflowStatus::Completed)
            } else if *name.as_str() == *"Failed" {
                Some(WorkflowStatus::Failed)
            } else if *name.as_str() == *"Cancelled" {
                Some(WorkflowStatus::Cancelled)
            } else {
                None
            },
            _ => None,
        }
    }

    fn complain(json: &Json) -> (r: String) {
        copy("expected one of Pending, Running, Completed, Failed, Cancelled")
    }
}

// ---- Scripts -----------------------------------------------------------------

/// What a script says of itself.
#[derive(Debug, PartialEq, Eq)]
pub struct WorkflowScriptMeta {
    pub name: String,
    pub description: String,
}

/// What a [`WorkflowScriptMeta`] says.
#[verifier::ext_equal]
pub struct MetaView {
    pub name: Seq<char>,
    pub description: Seq<char>,
}

impl View for WorkflowScriptMeta {
    type V = MetaView;

    open spec fn view(&self) -> MetaView {
        MetaView { name: self.name@, description: self.description@ }
    }
}

impl Clone for WorkflowScriptMeta {
    fn clone(&self) -> (r: Self)
        ensures
            r@ == self@,
    {
        WorkflowScriptMeta { name: self.name.clone(), description: self.description.clone() }
    }
}

/// The names of the members of a description differ.
pub proof fn lemma_meta_names()
    ensures
        mark("name"@) == 4_110_109_101,
        mark("description"@) == 11_100_105_110,
{
    reveal_strlit("name");
    reveal_strlit("description");
}

/// The value that the members of an object stand for, where they stand for metadata.
pub open spec fn meta_value(json: JsonView) -> Option<MetaView> {
    match (required::<String>(member(json, "name"@)), required::<String>(member(json, "description"@))) {
        (Some(name), Some(description)) => Some(MetaView { name, description }),
        _ => None,
    }
}

/// Reads the members of metadata.
fn read_meta_value(json: &Json) -> (r: Option<WorkflowScriptMeta>)
    ensures
        view_of(r) == meta_value(json@),
{
    match (required_field::<String>(json, "name"), required_field::<String>(json, "description")) {
        (Some(name), Some(description)) => Some(WorkflowScriptMeta { name, description }),
        _ => None,
    }
}

/// The members of metadata.
pub open spec fn meta_names() -> Seq<Seq<char>> {
    seq!["name"@, "description"@]
}

/// The object that a list stands for, where it stands for metadata.
fn meta_record(json: &Json) -> (r: Option<Json>)
    ensures
        match r {
            Some(record) => record@ == record_of(json@, meta_names(), 2),
            None => json@ == record_of(json@, meta_names(), 2),
        },
{
    let names: Vec<String> = vec![copy("name"), copy("description")];
    assert(texts(names@) =~= meta_names());
    as_record(json, &names, 2)
}

/// What is wrong with the members of metadata.
pub open spec fn meta_fault(json: JsonView) -> Option<Seq<char>> {
    first(
        object_fault(json),
        first(
            required_fault::<String>(json, "name"@),
            required_fault::<String>(json, "description"@),
        ),
    )
}

/// Finds what is wrong with the members of metadata.
fn find_meta_fault(json: &Json) -> (r: Option<String>)
    ensures
        opt_text(r) == meta_fault(json@),
{
    let fault = find_object_fault(json);
    if fault.is_some() {
        return fault;
    }
    let fault = find_required_fault::<String>(json, "name");
    if fault.is_some() {
        return fault;
    }
    find_required_fault::<String>(json, "description")
}

impl Coded for WorkflowScriptMeta {
    open spec fn stable(v: MetaView) -> bool {
        true
    }

    open spec fn enc(v: MetaView) -> JsonView {
        JsonView::Object(
            Map::empty()
                .insert("name"@, String::enc(v.name))
                .insert("description"@, String::enc(v.description)),
        )
    }

    open spec fn dec(json: JsonView) -> Option<MetaView> {
        meta_value(record_of(json, meta_names(), 2))
    }

    open spec fn complaint(json: JsonView) -> Seq<char> {
        said(meta_fault(record_of(json, meta_names(), 2)))
    }

    proof fn round_trip(v: MetaView) {
        lemma_meta_names();
    }

    fn to_json(&self) -> (r: Json) {
        let mut m: Vec<(String, Json)> = Vec::new();
        put(&mut m, "name", self.name.to_json());
        put(&mut m, "description", self.description.to_json());
        Json::Object(m)
    }

    fn read(json: &Json) -> (r: Option<Self>) {
        match meta_record(json) {
            Some(record) => read_meta_value(&record),
            None => read_meta_value(json),
        }
    }

    fn complain(json: &Json) -> (r: String) {
        match meta_record(json) {
            Some(record) => tell(find_meta_fault(&record)),
            None => tell(find_meta_fault(json)),
        }
    }
}

/// A script.
#[derive(Debug, Clone, PartialEq, Eq)]
pub struct WorkflowScript {
    pub path: String,
    pub source: String,
    pub meta: WorkflowScriptMeta,
}

// ---- Calls -------------------------------------------------------------------

/// `members` with one more text, where there is one.
pub open spec fn with_text(members: Map<Seq<char>, JsonView>, key: Seq<char>, text: Option<Seq<char>>) -> Map<
    Seq<char>,
    JsonView,
> {
    match text {
        Some(text) => members.insert(key, JsonView::Text(text)),
        None => members,
    }
}

fn put_text(members: &mut Vec<(String, Json)>, key: &str, text: &Option<String>)
    ensures
        member_views(final(members)@) == with_text(member_views(old(members)@), key@, opt_text(*text)),
{
    if let Some(text) = text {
        put(members, key, Json::Text(text.clone()));
    }
}

/// A value that may be missing, and is null then.
pub open spec fn or_null(json: Option<JsonView>) -> JsonView {
    match json {
        Some(json) => json,
        None => JsonView::Null,
    }
}

/// The member `key`, or null.
pub fn field_or_null(json: &Json, key: &str) -> (r: Json)
    ensures
        r@ == or_null(member(json@, key@)),
{
    match json.get(key) {
        Some(value) => value.clone(),
        None => Json::Null,
    }
}

/// A call of an agent.
#[derive(Debug, Clone)]
pub struct WorkflowAgentCall {
    pub key: String,
    pub index: usize,
    pub phase: Option<String>,
    pub agent: Option<String>,
    pub task: Option<String>,
    pub input: Json,
    pub arguments: Json,
}

/// What a [`WorkflowAgentCall`] says.
pub struct CallView {
    pub key: Seq<char>,
    pub index: usize,
    pub phase: Option<Seq<char>>,
    pub agent: Option<Seq<char>>,
    pub task: Option<Seq<char>>,
    pub input: JsonView,
    pub arguments: JsonView,
}

impl View for WorkflowAgentCall {
    type V = CallView;

    open spec fn view(&self) -> CallView {
        CallView {
            key: self.key@,
            index: self.index,
            phase: opt_text(self.phase),
            agent: opt_text(self.agent),
            task: opt_text(self.task),
            input: self.input@,
            arguments: self.arguments@,
        }
    }
}

impl WorkflowAgentCall {
    /// The argument `name`, where there is one.
    pub fn argument(&self, name: &str) -> (r: Option<&Json>)
        ensures
            match r {
                Some(v) => member(self@.arguments, name@) == Some(v@),
                None => member(self@.arguments, name@) is None,
            },
    {
        self.arguments.get(name)
    }
}

/// The names of the members of a call differ.
pub proof fn lemma_call_names()
    ensures
        mark("key"@) == 3_107_101_121,
        mark("index"@) == 5_105_100_120,
        mark("phase"@) == 5_112_097_101,
        mark("agent"@) == 5_097_101_116,
        mark("task"@) == 4_116_115_107,
        mark("input"@) == 5_105_112_116,
        mark("arguments"@) == 9_097_109_115,
{
    reveal_strlit("key");
    reveal_strlit("index");
    reveal_strlit("phase");
    reveal_strlit("agent");
    reveal_strlit("task");
    reveal_strlit("input");
    reveal_strlit("arguments");
}

/// The value that the members of an object stand for, where they stand for a call.
pub open spec fn call_value(json: JsonView) -> Option<CallView> {
    match (
        required::<String>(member(json, "key"@)),
        required::<usize>(member(json, "index"@)),
        optional::<String>(member(json, "phase"@)),
        optional::<String>(member(json, "agent"@)),
        optional::<String>(member(json, "task"@)),
    ) {
        (Some(key), Some(index), Some(phase), Some(agent), Some(task)) => Some(
            CallView {
                key,
                index,
                phase,
                agent,
                task,
                input: or_null(member(json, "input"@)),
                arguments: or_null(member(json, "arguments"@)),
            },
        ),
        _ => None,
    }
}

/// Reads the members of a call.
fn read_call_value(json: &Json) -> (r: Option<WorkflowAgentCall>)
    ensures
        view_of(r) == call_value(json@),
{
    match (
        required_field::<String>(json, "key"),
        required_field::<usize>(json, "index"),
        optional_field::<String>(json, "phase"),
        optional_field::<String>(json, "agent"),
        optional_field::<String>(json, "task"),
    ) {
        (Some(key), Some(index), Some(phase), Some(agent), Some(task)) => Some(
            WorkflowAgentCall {
                key,
                index,
                phase,
                agent,
                task,
                input: field_or_null(json, "input"),
                arguments: field_or_null(json, "arguments"),
            },
        ),
        _ => None,
    }
}

/// The members of a call.
pub open spec fn call_names() -> Seq<Seq<char>> {
    seq!["key"@, "index"@, "phase"@, "agent"@, "task"@, "input"@, "arguments"@]
}

/// The object that a list stands for, where it stands for a call.
fn call_record(json: &Json) -> (r: Option<Json>)
    ensures
        match r {
            Some(record) => record@ == record_of(json@, call_names(), 2),
            None => json@ == record_of(json@, call_names(), 2),
        },
{
    let names: Vec<String> = vec![
        copy("key"),
        copy("index"),
        copy("phase"),
        copy("agent"),
        copy("task"),
        copy("input"),
        copy("arguments"),
    ];
    assert(texts(names@) =~= call_names());
    as_record(json, &names, 2)
}

/// What is wrong with the members of a call.
pub open spec fn call_fault(json: JsonView) -> Option<Seq<char>> {
    first(
        object_fault(json),
        first(
            required_fault::<String>(json, "key"@),
            first(
                required_fault::<usize>(json, "index"@),
                first(
                    optional_fault::<String>(json, "phase"@),
                    first(
                        optional_fault::<String>(json, "agent"@),
                        first(
                            optional_fault::<String>(json, "task"@),
                            first(
                                default_fault::<Json>(json, "input"@),
                                default_fault::<Json>(json, "arguments"@),
                            ),
                        ),
                    ),
                ),
            ),
        ),
    )
}

/// Finds what is wrong with the members of a call.
fn find_call_fault(json: &Json) -> (r: Option<String>)
    ensures
        opt_text(r) == call_fault(json@),
{
    let fault = find_object_fault(json);
    if fault.is_some() {
        return fault;
    }
    let fault = find_required_fault::<String>(json, "key");
    if fault.is_some() {
        return fault;
    }
    let fault = find_required_fault::<usize>(json, "index");
    if fault.is_some() {
        return fault;
    }
    let fault = find_optional_fault::<String>(json, "phase");
    if fault.is_some() {
        return fault;
    }
    let fault = find_optional_fault::<String>(json, "agent");
    if fault.is_some() {
        return fault;
    }
    let fault = find_optional_fault::<String>(json, "task");
    if fault.is_some() {
        return fault;
    }
    let fault = find_default_fault::<Json>(json, "input");
    if fault.is_some() {
        return fault;
    }
    find_default_fault::<Json>(json, "arguments")
}

impl Coded for WorkflowAgentCall {
    open spec fn stable(v: CallView) -> bool {
        true
    }

    open spec fn enc(v: CallView) -> JsonView {
        let members = Map::empty().insert("key"@, String::enc(v.key)).insert("index"@, usize::enc(v.index));
        let members = with_text(members, "phase"@, v.phase);
        let members = with_text(members, "agent"@, v.agent);
        let members = with_text(members, "task"@, v.task);
        JsonView::Object(members.insert("input"@, v.input).insert("arguments"@, v.arguments))
    }

    open spec fn dec(json: JsonView) -> Option<CallView> {
        call_value(record_of(json, call_names(), 2))
    }

    open spec fn complaint(json: JsonView) -> Seq<char> {
        said(call_fault(record_of(json, call_names(), 2)))
    }

    proof fn round_trip(v: CallView) {
        lemma_call_names();
        let json = Self::enc(v);
        assert(member(json, "key"@) == Some(String::enc(v.key)));
        assert(member(json, "index"@) == Some(usize::enc(v.index)));
        assert(member(json, "input"@) == Some(v.input));
        assert(member(json, "arguments"@) == Some(v.arguments));
        usize::round_trip(v.index);
    }

    fn to_json(&self) -> (r: Json) {
        let mut m: Vec<(String, Json)> = Vec::new();
        put(&mut m, "key", self.key.to_json());
        put(&mut m, "index", self.index.to_json());
        put_text(&mut m, "phase", &self.phase);
        put_text(&mut m, "agent", &self.agent);
        put_text(&mut m, "task", &self.task);
        put(&mut m, "input", self.input.clone());
        put(&mut m, "arguments", self.arguments.clone());
        Json::Object(m)
    }

    fn read(json: &Json) -> (r: Option<Self>) {
        match call_record(json) {
            Some(record) => read_call_value(&record),
            None => read_call_value(json),
        }
    }

    fn complain(json: &Json) -> (r: String) {
        match call_record(json) {
            Some(record) => tell(find_call_fault(&record)),
            None => tell(find_call_fault(json)),
        }
    }
}

// ---- Results -----------------------------------------------------------------

/// What came of a call.
#[derive(Debug)]
pub struct WorkflowAgentResult {
    pub key: String,
    pub output: Json,
    pub is_error: bool,
    pub error: Option<String>,
}

/// What a [`WorkflowAgentResult`] says.
pub struct ResultView {
    pub key: Seq<char>,
    pub output: JsonView,
    pub is_error: bool,
    pub error: Option<Seq<char>>,
}

impl View for WorkflowAgentResult {
    type V = ResultView;

    open spec fn view(&self) -> ResultView {
        ResultView {
            key: self.key@,
            output: self.output@,
            is_error: self.is_error,
            error: opt_text(self.error),
        }
    }
}

impl Clone for WorkflowAgentResult {
    fn clone(&self) -> (r: Self)
        ensures
            r@ == self@,
    {
        WorkflowAgentResult {
            key: self.key.clone(),
            output: self.output.clone(),
            is_error: self.is_error,
            error: match &self.error {
                Some(text) => Some(text.clone()),
                None => None,
            },
        }
    }
}

impl WorkflowAgentResult {
    /// A call that succeeded.
    pub fn success(key: &str, output: Json) -> (r: Self)
        ensures
            r@ == (ResultView { key: key@, output: output@, is_error: false, error: None }),
    {
        WorkflowAgentResult { key: copy(key), output, is_error: false, error: None }
    }

    /// A call that failed.
    pub fn failure(key: &str, message: &str) -> (r: Self)
        ensures
            r@ == (ResultView { key: key@, output: JsonView::Null, is_error: true, error: Some(message@) }),
    {
        WorkflowAgentResult { key: copy(key), output: Json::Null, is_error: true, error: Some(copy(message)) }
    }
}

/// The names of the members of a result differ.
pub proof fn lemma_result_names()
    ensures
        mark("key"@) == 3_107_101_121,
        mark("output"@) == 6_111_112_116,
        mark("is_error"@) == 8_105_114_114,
        mark("error"@) == 5_101_114_114,
{
    reveal_strlit("key");
    reveal_strlit("output");
    reveal_strlit("is_error");
    reveal_strlit("error");
}

/// The value that the members of an object stand for, where they stand for a result.
pub open spec fn result_value(json: JsonView) -> Option<ResultView> {
    match (
        required::<String>(member(json, "key"@)),
        member(json, "output"@),
        required::<bool>(member(json, "is_error"@)),
        optional::<String>(member(json, "error"@)),
    ) {
        (Some(key), Some(output), Some(is_error), Some(error)) => Some(
            ResultView { key, output, is_error, error },
        ),
        _ => None,
    }
}

/// Reads the members of a result.
fn read_result_value(json: &Json) -> (r: Option<WorkflowAgentResult>)
    ensures
        view_of(r) == result_value(json@),
{
    match (
        required_field::<String>(json, "key"),
        json.get("output"),
        required_field::<bool>(json, "is_error"),
        optional_field::<String>(json, "error"),
    ) {
        (Some(key), Some(output), Some(is_error), Some(error)) => Some(
            WorkflowAgentResult { key, output: output.clone(), is_error, error },
        ),
        _ => None,
    }
}

/// The members of a result.
pub open spec fn result_names() -> Seq<Seq<char>> {
    seq!["key"@, "output"@, "is_error"@, "error"@]
}

/// The object that a list stands for, where it stands for a result.
fn result_record(json: &Json) -> (r: Option<Json>)
    ensures
        match r {
            Some(record) => record@ == record_of(json@, result_names(), 3),
            None => json@ == record_of(json@, result_names(), 3),
        },
{
    let names: Vec<String> = vec![copy("key"), copy("output"), copy("is_error"), copy("error")];
    assert(texts(names@) =~= result_names());
    as_record(json, &names, 3)
}

/// What is wrong with the members of a result.
pub open spec fn result_fault(json: JsonView) -> Option<Seq<char>> {
    first(
        object_fault(json),
        first(
            required_fault::<String>(json, "key"@),
            first(
                required_fault::<Json>(json, "output"@),
                first(
                    required_fault::<bool>(json, "is_error"@),
                    optional_fault::<String>(json, "error"@),
                ),
            ),
        ),
    )
}

/// Finds what is wrong with the members of a result.
fn find_result_fault(json: &Json) -> (r: Option<String>)
    ensures
        opt_text(r) == result_fault(json@),
{
    let fault = find_object_fault(json);
    if fault.is_some() {
        return fault;
    }
    let fault = find_required_fault::<String>(json, "key");
    if fault.is_some() {
        return fault;
    }
    let fault = find_required_fault::<Json>(json, "output");
    if fault.is_some() {
        return fault;
    }
    let fault = find_required_fault::<bool>(json, "is_error");
    if fault.is_some() {
        return fault;
    }
    find_optional_fault::<String>(json, "error")
}

impl Coded for WorkflowAgentResult {
    open spec fn stable(v: ResultView) -> bool {
        true
    }

    open spec fn enc(v: ResultView) -> JsonView {
        JsonView::Object(
            with_text(
                Map::empty().insert("key"@, String::enc(v.key)).insert("output"@, v.output).insert(
                    "is_error"@,
                    bool::enc(v.is_error),
                ),
                "error"@,
                v.error,
            ),
        )
    }

    open spec fn dec(json: JsonView) -> Option<ResultView> {
        result_value(record_of(json, result_names(), 3))
    }

    open spec fn complaint(json: JsonView) -> Seq<char> {
        said(result_fault(record_of(json, result_names(), 3)))
    }

    proof fn round_trip(v: ResultView) {
        lemma_result_names();
        let json = Self::enc(v);
        assert(member(json, "key"@) == Some(String::enc(v.key)));
        assert(member(json, "output"@) == Some(v.output));
        assert(member(json, "is_error"@) == Some(bool::enc(v.is_error)));
    }

    fn to_json(&self) -> (r: Json) {
        let mut m: Vec<(String, Json)> = Vec::new();
        put(&mut m, "key", self.key.to_json());
        put(&mut m, "output", self.output.clone());
        put(&mut m, "is_error", self.is_error.to_json());
        put_text(&mut m, "error", &self.error);
        Json::Object(m)
    }

    fn read(json: &Json) -> (r: Option<Self>) {
        match result_record(json) {
            Some(record) => read_result_value(&record),
            None => read_result_value(json),
        }
    }

    fn complain(json: &Json) -> (r: String) {
        match result_record(json) {
            Some(record) => tell(find_result_fault(&record)),
            None => tell(find_result_fault(json)),
        }
    }
}

impl Recorded for WorkflowScriptMeta {
    open spec fn form(v: MetaView) -> FormView {
        FormView::Record(
            then_member(
                then_member(Seq::empty(), "name"@, FormView::Value(String::enc(v.name))),
                "description"@,
                FormView::Value(String::enc(v.description)),
            ),
        )
    }

    proof fn form_says(v: MetaView) {
        let name = FormView::Value(String::enc(v.name));
        lemma_then_member(Seq::empty(), "name"@, name);
        lemma_then_member(
            then_member(Seq::empty(), "name"@, name),
            "description"@,
            FormView::Value(String::enc(v.description)),
        );
    }

    fn to_form(&self) -> (r: Form) {
        let mut m: Vec<(String, Form)> = Vec::new();
        add_member(&mut m, "name", Form::Value(self.name.to_json()));
        add_member(&mut m, "description", Form::Value(self.description.to_json()));
        Form::Record(m)
    }
}

/// The members of a result that are always there.
pub open spec fn result_head(v: ResultView) -> Seq<(Seq<char>, FormView)> {
    then_member(
        then_member(
            then_member(Seq::empty(), "key"@, FormView::Value(String::enc(v.key))),
            "output"@,
            FormView::Value(v.output),
        ),
        "is_error"@,
        FormView::Value(bool::enc(v.is_error)),
    )
}

impl Recorded for WorkflowAgentResult {
    open spec fn form(v: ResultView) -> FormView {
        FormView::Record(then_text(result_head(v), "error"@, v.error))
    }

    proof fn form_says(v: ResultView) {
        let key = FormView::Value(String::enc(v.key));
        let first = then_member(Seq::empty(), "key"@, key);
        let second = then_member(first, "output"@, FormView::Value(v.output));
        lemma_then_member(Seq::empty(), "key"@, key);
        lemma_then_member(first, "output"@, FormView::Value(v.output));
        lemma_then_member(second, "is_error"@, FormView::Value(bool::enc(v.is_error)));
        if let Some(error) = v.error {
            lemma_then_member(result_head(v), "error"@, FormView::Value(JsonView::Text(error)));
        }
    }

    fn to_form(&self) -> (r: Form) {
        let mut m: Vec<(String, Form)> = Vec::new();
        add_member(&mut m, "key", Form::Value(self.key.to_json()));
        add_member(&mut m, "output", Form::Value(self.output.clone()));
        add_member(&mut m, "is_error", Form::Value(self.is_error.to_json()));
        if let Some(error) = &self.error {
            add_member(&mut m, "error", Form::Value(error.to_json()));
        }
        Form::Record(m)
    }
}

// ---- Runs --------------------------------------------------------------------

/// The state of a run.
#[derive(Debug, Clone)]
pub struct WorkflowRun {
    pub run_id: String,
    pub script_path: String,
    pub meta: WorkflowScriptMeta,
    pub status: WorkflowStatus,
    pub results: Vec<WorkflowAgentResult>,
    pub error: Option<String>,
}

/// What a [`WorkflowRun`] says.
pub struct RunView {
    pub run_id: Seq<char>,
    pub script_path: Seq<char>,
    pub meta: MetaView,
    pub status: WorkflowStatus,
    pub results: Seq<ResultView>,
    pub error: Option<Seq<char>>,
}

impl View for WorkflowRun {
    type V = RunView;

    open spec fn view(&self) -> RunView {
        RunView {
            run_id: self.run_id@,
            script_path: self.script_path@,
            meta: self.meta@,
            status: self.status,
            results: views(self.results@),
            error: opt_text(self.error),
        }
    }
}

/// A run that has not started.
pub open spec fn pending_run(run_id: Seq<char>, script_path: Seq<char>, meta: MetaView) -> RunView {
    RunView {
        run_id,
        script_path,
        meta,
        status: WorkflowStatus::Pending,
        results: Seq::empty(),
        error: None,
    }
}

impl WorkflowRun {
    /// A run that has not started.
    pub fn pending(run_id: String, script: &WorkflowScript) -> (r: Self)
        ensures
            r@ == pending_run(run_id@, script.path@, script.meta@),
    {
        let results: Vec<WorkflowAgentResult> = Vec::new();
        assert(views(results@) =~= Seq::empty());
        WorkflowRun {
            run_id,
            script_path: script.path.clone(),
            meta: script.meta.clone(),
            status: WorkflowStatus::Pending,
            results,
            error: None,
        }
    }
}

/// Results that may be missing, and are none then.
pub open spec fn dec_results(json: Option<JsonView>) -> Option<Seq<ResultView>> {
    match json {
        Some(list) => dec_list::<WorkflowAgentResult>(list),
        None => Some(Seq::empty()),
    }
}

/// The names of the members of a run differ.
pub proof fn lemma_run_names()
    ensures
        mark("run_id"@) == 6_114_095_100,
        mark("script_path"@) == 11_115_116_104,
        mark("meta"@) == 4_109_116_097,
        mark("status"@) == 6_115_116_115,
        mark("results"@) == 7_114_117_115,
        mark("error"@) == 5_101_114_114,
{
    reveal_strlit("run_id");
    reveal_strlit("script_path");
    reveal_strlit("meta");
    reveal_strlit("status");
    reveal_strlit("results");
    reveal_strlit("error");
}

/// The value that the members of an object stand for, where they stand for a run.
pub open spec fn run_value(json: JsonView) -> Option<RunView> {
    match (
        required::<String>(member(json, "run_id"@)),
        required::<String>(member(json, "script_path"@)),
        required::<WorkflowScriptMeta>(member(json, "meta"@)),
        required::<WorkflowStatus>(member(json, "status"@)),
        dec_results(member(json, "results"@)),
        optional::<String>(member(json, "error"@)),
    ) {
        (Some(run_id), Some(script_path), Some(meta), Some(status), Some(results), Some(error)) => Some(
            RunView { run_id, script_path, meta, status, results, error },
        ),
        _ => None,
    }
}

/// Reads the members of a run.
fn read_run_value(json: &Json) -> (r: Option<WorkflowRun>)
    ensures
        view_of(r) == run_value(json@),
{
    let results: Option<Vec<WorkflowAgentResult>> = match json.get("results") {
        Some(list) => list_from_json(list),
        None => {
            let none: Vec<WorkflowAgentResult> = Vec::new();
            assert(views(none@) =~= Seq::empty());
            Some(none)
        },
    };
    match (
        required_field::<String>(json, "run_id"),
        required_field::<String>(json, "script_path"),
        required_field::<WorkflowScriptMeta>(json, "meta"),
        required_field::<WorkflowStatus>(json, "status"),
        results,
        optional_field::<String>(json, "error"),
    ) {
        (Some(run_id), Some(script_path), Some(meta), Some(status), Some(results), Some(error)) => Some(
            WorkflowRun { run_id, script_path, meta, status, results, error },
        ),
        _ => None,
    }
}

/// The members of a run.
pub open spec fn run_names() -> Seq<Seq<char>> {
    seq!["run_id"@, "script_path"@, "meta"@, "status"@, "results"@, "error"@]
}

/// The object that a list stands for, where it stands for a run.
fn run_record(json: &Json) -> (r: Option<Json>)
    ensures
        match r {
            Some(record) => record@ == record_of(json@, run_names(), 4),
            None => json@ == record_of(json@, run_names(), 4),
        },
{
    let names: Vec<String> = vec![
        copy("run_id"),
        copy("script_path"),
        copy("meta"),
        copy("status"),
        copy("results"),
        copy("error"),
    ];
    assert(texts(names@) =~= run_names());
    as_record(json, &names, 4)
}

/// What is wrong with the members of a run.
pub open spec fn run_fault(json: JsonView) -> Option<Seq<char>> {
    first(
        object_fault(json),
        first(
            required_fault::<String>(json, "run_id"@),
            first(
                required_fault::<String>(json, "script_path"@),
                first(
                    required_fault::<WorkflowScriptMeta>(json, "meta"@),
                    first(
                        required_fault::<WorkflowStatus>(json, "status"@),
                        first(
                            default_list_fault::<WorkflowAgentResult>(json, "results"@),
                            optional_fault::<String>(json, "error"@),
                        ),
                    ),
                ),
            ),
        ),
    )
}

/// Finds what is wrong with the members of a run.
fn find_run_fault(json: &Json) -> (r: Option<String>)
    ensures
        opt_text(r) == run_fault(json@),
{
    let fault = find_object_fault(json);
    if fault.is_some() {
        return fault;
    }
    let fault = find_required_fault::<String>(json, "run_id");
    if fault.is_some() {
        return fault;
    }
    let fault = find_required_fault::<String>(json, "script_path");
    if fault.is_some() {
        return fault;
    }
    let fault = find_required_fault::<WorkflowScriptMeta>(json, "meta");
    if fault.is_some() {
        return fault;
    }
    let fault = find_required_fault::<WorkflowStatus>(json, "status");
    if fault.is_some() {
        return fault;
    }
    let fault = find_default_list_fault::<WorkflowAgentResult>(json, "results");
    if fault.is_some() {
        return fault;
    }
    find_optional_fault::<String>(json, "error")
}

impl Coded for WorkflowRun {
    open spec fn stable(v: RunView) -> bool {
        true
    }

    open spec fn enc(v: RunView) -> JsonView {
        JsonView::Object(
            with_text(
                Map::empty().insert("run_id"@, String::enc(v.run_id)).insert(
                    "script_path"@,
                    String::enc(v.script_path),
                ).insert("meta"@, WorkflowScriptMeta::enc(v.meta)).insert(
                    "status"@,
                    WorkflowStatus::enc(v.status),
                ).insert("results"@, enc_list::<WorkflowAgentResult>(v.results)),
                "error"@,
                v.error,
            ),
        )
    }

    open spec fn dec(json: JsonView) -> Option<RunView> {
        run_value(record_of(json, run_names(), 4))
    }

    open spec fn complaint(json: JsonView) -> Seq<char> {
        said(run_fault(record_of(json, run_names(), 4)))
    }

    proof fn round_trip(v: RunView) {
        lemma_run_names();
        let json = Self::enc(v);
        assert(member(json, "run_id"@) == Some(String::enc(v.run_id)));
        assert(member(json, "script_path"@) == Some(String::enc(v.script_path)));
        assert(member(json, "meta"@) == Some(WorkflowScriptMeta::enc(v.meta)));
        assert(member(json, "status"@) == Some(WorkflowStatus::enc(v.status)));
        assert(member(json, "results"@) == Some(enc_list::<WorkflowAgentResult>(v.results)));
        WorkflowScriptMeta::round_trip(v.meta);
        WorkflowStatus::round_trip(v.status);
        list_round_trip::<WorkflowAgentResult>(v.results);
    }

    fn to_json(&self) -> (r: Json) {
        let mut m: Vec<(String, Json)> = Vec::new();
        put(&mut m, "run_id", self.run_id.to_json());
        put(&mut m, "script_path", self.script_path.to_json());
        put(&mut m, "meta", self.meta.to_json());
        put(&mut m, "status", self.status.to_json());
        put(&mut m, "results", list_to_json(&self.results));
        put_text(&mut m, "error", &self.error);
        Json::Object(m)
    }

    fn read(json: &Json) -> (r: Option<Self>) {
        match run_record(json) {
            Some(record) => read_run_value(&record),
            None => read_run_value(json),
        }
    }

    fn complain(json: &Json) -> (r: String) {
        match run_record(json) {
            Some(record) => tell(find_run_fault(&record)),
            None => tell(find_run_fault(json)),
        }
    }
}

/// The members of a run that are always there.
pub open spec fn run_head(v: RunView) -> Seq<(Seq<char>, FormView)> {
    then_member(
        then_member(
            then_member(
                then_member(
                    then_member(Seq::empty(), "run_id"@, FormView::Value(String::enc(v.run_id))),
                    "script_path"@,
                    FormView::Value(String::enc(v.script_path)),
                ),
                "meta"@,
                WorkflowScriptMeta::form(v.meta),
            ),
            "status"@,
            FormView::Value(WorkflowStatus::enc(v.status)),
        ),
        "results"@,
        list_form::<WorkflowAgentResult>(v.results),
    )
}

impl Recorded for WorkflowRun {
    open spec fn form(v: RunView) -> FormView {
        FormView::Record(then_text(run_head(v), "error"@, v.error))
    }

    proof fn form_says(v: RunView) {
        let none = Seq::<(Seq<char>, FormView)>::empty();
        let one = then_member(none, "run_id"@, FormView::Value(String::enc(v.run_id)));
        let two = then_member(one, "script_path"@, FormView::Value(String::enc(v.script_path)));
        let three = then_member(two, "meta"@, WorkflowScriptMeta::form(v.meta));
        let four = then_member(three, "status"@, FormView::Value(WorkflowStatus::enc(v.status)));
        lemma_then_member(none, "run_id"@, FormView::Value(String::enc(v.run_id)));
        lemma_then_member(one, "script_path"@, FormView::Value(String::enc(v.script_path)));
        lemma_then_member(two, "meta"@, WorkflowScriptMeta::form(v.meta));
        lemma_then_member(three, "status"@, FormView::Value(WorkflowStatus::enc(v.status)));
        lemma_then_member(four, "results"@, list_form::<WorkflowAgentResult>(v.results));
        WorkflowScriptMeta::form_says(v.meta);
        lemma_list_form::<WorkflowAgentResult>(v.results);
        if let Some(error) = v.error {
            lemma_then_member(run_head(v), "error"@, FormView::Value(JsonView::Text(error)));
        }
    }

    fn to_form(&self) -> (r: Form) {
        let mut m: Vec<(String, Form)> = Vec::new();
        add_member(&mut m, "run_id", Form::Value(self.run_id.to_json()));
        add_member(&mut m, "script_path", Form::Value(self.script_path.to_json()));
        add_member(&mut m, "meta", self.meta.to_form());
        add_member(&mut m, "status", Form::Value(self.status.to_json()));
        add_member(&mut m, "results", list_to_form(&self.results));
        if let Some(error) = &self.error {
            add_member(&mut m, "error", Form::Value(error.to_json()));
        }
        Form::Record(m)
    }
}

// ---- Events ------------------------------------------------------------------

/// What happens in the course of a run.
#[derive(Debug)]
pub enum WorkflowEvent {
    /// A run started.
    RunStarted { run_id: String, script_path: String, name: String },
    /// The script reported progress.
    Progress { run_id: String, message: String },
    /// A phase of the script started.
    PhaseStarted { run_id: String, name: String },
    /// A phase of the script is done.
    PhaseCompleted { run_id: String, name: String },
    /// An agent was called.
    AgentCallStarted { run_id: String, key: String, agent: Option<String>, task: Option<String> },
    /// An agent call is done.
    AgentCallCompleted { run_id: String, key: String, cached: bool, is_error: bool },
    /// A run is done.
    RunCompleted { run_id: String },
    /// A run failed.
    RunFailed { run_id: String, error: String },
    /// A run was cancelled.
    RunCancelled { run_id: String },
}

/// What a [`WorkflowEvent`] says.
pub enum WorkflowEventView {
    RunStarted { run_id: Seq<char>, script_path: Seq<char>, name: Seq<char> },
    Progress { run_id: Seq<char>, message: Seq<char> },
    PhaseStarted { run_id: Seq<char>, name: Seq<char> },
    PhaseCompleted { run_id: Seq<char>, name: Seq<char> },
    AgentCallStarted { run_id: Seq<char>, key: Seq<char>, agent: Option<Seq<char>>, task: Option<Seq<char>> },
    AgentCallCompleted { run_id: Seq<char>, key: Seq<char>, cached: bool, is_error: bool },
    RunCompleted { run_id: Seq<char> },
    RunFailed { run_id: Seq<char>, error: Seq<char> },
    RunCancelled { run_id: Seq<char> },
}

impl View for WorkflowEvent {
    type V = WorkflowEventView;

    open spec fn view(&self) -> WorkflowEventView {
        match self {
            WorkflowEvent::RunStarted { run_id, script_path, name } => WorkflowEventView::RunStarted {
                run_id: run_id@,
                script_path: script_path@,
                name: name@,
            },
            WorkflowEvent::Progress { run_id, message } => WorkflowEventView::Progress { run_id: run_id@, message: message@ },
            WorkflowEvent::PhaseStarted { run_id, name } => WorkflowEventView::PhaseStarted { run_id: run_id@, name: name@ },
            WorkflowEvent::PhaseCompleted { run_id, name } => WorkflowEventView::PhaseCompleted { run_id: run_id@, name: name@ },
            WorkflowEvent::AgentCallStarted { run_id, key, agent, task } => WorkflowEventView::AgentCallStarted {
                run_id: run_id@,
                key: key@,
                agent: view_of(*agent),
                task: view_of(*task),
            },
            WorkflowEvent::AgentCallCompleted { run_id, key, cached, is_error } => WorkflowEventView::AgentCallCompleted {
                run_id: run_id@,
                key: key@,
                cached: cached@,
                is_error: is_error@,
            },
            WorkflowEvent::RunCompleted { run_id } => WorkflowEventView::RunCompleted { run_id: run_id@ },
            WorkflowEvent::RunFailed { run_id, error } => WorkflowEventView::RunFailed { run_id: run_id@, error: error@ },
            WorkflowEvent::RunCancelled { run_id } => WorkflowEventView::RunCancelled { run_id: run_id@ },
        }
    }
}

/// The JSON of an event.
pub open spec fn enc_event(v: WorkflowEventView) -> JsonView
{
    match v {
        WorkflowEventView::RunStarted { run_id, script_path, name } => JsonView::Object(
            tagged("run_started"@)
                .insert("run_id"@, String::enc(run_id))
                .insert("script_path"@, String::enc(script_path))
                .insert("name"@, String::enc(name)),
        ),
        WorkflowEventView::Progress { run_id, message } => JsonView::Object(
            tagged("progress"@).insert("run_id"@, String::enc(run_id)).insert("message"@, String::enc(message)),
        ),
        WorkflowEventView::PhaseStarted { run_id, name } => JsonView::Object(
            tagged("phase_started"@).insert("run_id"@, String::enc(run_id)).insert("name"@, String::enc(name)),
        ),
        WorkflowEventView::PhaseCompleted { run_id, name } => JsonView::Object(
            tagged("phase_completed"@)
                .insert("run_id"@, String::enc(run_id))
                .insert("name"@, String::enc(name)),
        ),
        WorkflowEventView::AgentCallStarted { run_id, key, agent, task } => JsonView::Object(
            tagged("agent_call_started"@)
                .insert("run_id"@, String::enc(run_id))
                .insert("key"@, String::enc(key))
                .insert("agent"@, enc_optional::<String>(agent))
                .insert("task"@, enc_optional::<String>(task)),
        ),
        WorkflowEventView::AgentCallCompleted { run_id, key, cached, is_error } => JsonView::Object(
            tagged("agent_call_completed"@)
                .insert("run_id"@, String::enc(run_id))
                .insert("key"@, String::enc(key))
                .insert("cached"@, bool::enc(cached))
                .insert("is_error"@, bool::enc(is_error)),
        ),
        WorkflowEventView::RunCompleted { run_id } => JsonView::Object(
            tagged("run_completed"@).insert("run_id"@, String::enc(run_id)),
        ),
        WorkflowEventView::RunFailed { run_id, error } => JsonView::Object(
            tagged("run_failed"@).insert("run_id"@, String::enc(run_id)).insert("error"@, String::enc(error)),
        ),
        WorkflowEventView::RunCancelled { run_id } => JsonView::Object(
            tagged("run_cancelled"@).insert("run_id"@, String::enc(run_id)),
        ),
    }
}

/// What the members of an object say of an event, where they say something.
pub open spec fn event_value(json: JsonView) -> Option<WorkflowEventView>
{
    if has_tag(json, "run_started"@) {
        match (
            required::<String>(member(json, "run_id"@)),
            required::<String>(member(json, "script_path"@)),
            required::<String>(member(json, "name"@)),
        ) {
            (Some(run_id), Some(script_path), Some(name)) => Some(WorkflowEventView::RunStarted { run_id, script_path, name }),
            _ => None,
        }
    } else if has_tag(json, "progress"@) {
        match (
            required::<String>(member(json, "run_id"@)),
            required::<String>(member(json, "message"@)),
        ) {
            (Some(run_id), Some(message)) => Some(WorkflowEventView::Progress { run_id, message }),
            _ => None,
        }
    } else if has_tag(json, "phase_started"@) {
        match (
            required::<String>(member(json, "run_id"@)),
            required::<String>(member(json, "name"@)),
        ) {
            (Some(run_id), Some(name)) => Some(WorkflowEventView::PhaseStarted { run_id, name }),
            _ => None,
        }
    } else if has_tag(json, "phase_completed"@) {
        match (
            required::<String>(member(json, "run_id"@)),
            required::<String>(member(json, "name"@)),
        ) {
            (Some(run_id), Some(name)) => Some(WorkflowEventView::PhaseCompleted { run_id, name }),
            _ => None,
        }
    } else if has_tag(json, "agent_call_started"@) {
        match (
            required::<String>(member(json, "run_id"@)),
            required::<String>(member(json, "key"@)),
            optional::<String>(member(json, "agent"@)),
            optional::<String>(member(json, "task"@)),
        ) {
            (Some(run_id), Some(key), Some(agent), Some(task)) => Some(WorkflowEventView::AgentCallStarted { run_id, key, agent, task }),
            _ => None,
        }
    } else if has_tag(json, "agent_call_completed"@) {
        match (
            required::<String>(member(json, "run_id"@)),
            required::<String>(member(json, "key"@)),
            required::<bool>(member(json, "cached"@)),
            required::<bool>(member(json, "is_error"@)),
        ) {
            (
                Some(run_id),
                Some(key),
                Some(cached),
                Some(is_error),
            ) => Some(WorkflowEventView::AgentCallCompleted { run_id, key, cached, is_error }),
            _ => None,
        }
    } else if has_tag(json, "run_completed"@) {
        match required::<String>(member(json, "run_id"@)) {
            Some(run_id) => Some(WorkflowEventView::RunCompleted { run_id }),
            None => None,
        }
    } else if has_tag(json, "run_failed"@) {
        match (
            required::<String>(member(json, "run_id"@)),
            required::<String>(member(json, "error"@)),
        ) {
            (Some(run_id), Some(error)) => Some(WorkflowEventView::RunFailed { run_id, error }),
            _ => None,
        }
    } else if has_tag(json, "run_cancelled"@) {
        match required::<String>(member(json, "run_id"@)) {
            Some(run_id) => Some(WorkflowEventView::RunCancelled { run_id }),
            None => None,
        }
    } else {
        None
    }
}

/// The members of each variant of an event, the tag first.
pub open spec fn event_shape(tag: Seq<char>) -> Option<(Seq<Seq<char>>, nat)> {
    if tag == "run_started"@ {
        Some((seq!["type"@, "run_id"@, "script_path"@, "name"@], 4))
    } else if tag == "progress"@ {
        Some((seq!["type"@, "run_id"@, "message"@], 3))
    } else if tag == "phase_started"@ {
        Some((seq!["type"@, "run_id"@, "name"@], 3))
    } else if tag == "phase_completed"@ {
        Some((seq!["type"@, "run_id"@, "name"@], 3))
    } else if tag == "agent_call_started"@ {
        Some((seq!["type"@, "run_id"@, "key"@, "agent"@, "task"@], 5))
    } else if tag == "agent_call_completed"@ {
        Some((seq!["type"@, "run_id"@, "key"@, "cached"@, "is_error"@], 5))
    } else if tag == "run_completed"@ {
        Some((seq!["type"@, "run_id"@], 2))
    } else if tag == "run_failed"@ {
        Some((seq!["type"@, "run_id"@, "error"@], 3))
    } else if tag == "run_cancelled"@ {
        Some((seq!["type"@, "run_id"@], 2))
    } else {
        None
    }
}

/// The object that stands for an event, which may be written as the list of a tag and of the
/// values of the variant's members.
pub open spec fn event_record(json: JsonView) -> JsonView {
    match leading_text(json) {
        Some(tag) => variant_of(json, event_shape(tag)),
        None => json,
    }
}

/// The members of each variant of an event, the tag first.
fn shape_of_event(tag: &str) -> (r: Option<(Vec<String>, usize)>)
    ensures
        shape_view(r) == event_shape(tag@),
{
    if *tag == *"run_started" {
        let names: Vec<String> = vec![copy("type"), copy("run_id"), copy("script_path"), copy("name")];
        assert(texts(names@) =~= seq!["type"@, "run_id"@, "script_path"@, "name"@]);
        Some((names, 4))
    } else if *tag == *"progress" {
        let names: Vec<String> = vec![copy("type"), copy("run_id"), copy("message")];
        assert(texts(names@) =~= seq!["type"@, "run_id"@, "message"@]);
        Some((names, 3))
    } else if *tag == *"phase_started" {
        let names: Vec<String> = vec![copy("type"), copy("run_id"), copy("name")];
        assert(texts(names@) =~= seq!["type"@, "run_id"@, "name"@]);
        Some((names, 3))
    } else if *tag == *"phase_completed" {
        let names: Vec<String> = vec![copy("type"), copy("run_id"), copy("name")];
        assert(texts(names@) =~= seq!["type"@, "run_id"@, "name"@]);
        Some((names, 3))
    } else if *tag == *"agent_call_started" {
        let names: Vec<String> = vec![copy("type"), copy("run_id"), copy("key"), copy("agent"), copy("task")];
        assert(texts(names@) =~= seq!["type"@, "run_id"@, "key"@, "agent"@, "task"@]);
        Some((names, 5))
    } else if *tag == *"agent_call_completed" {
        let names: Vec<String> = vec![
            copy("type"),
            copy("run_id"),
            copy("key"),
            copy("cached"),
            copy("is_error"),
        ];
        assert(texts(names@) =~= seq!["type"@, "run_id"@, "key"@, "cached"@, "is_error"@]);
        Some((names, 5))
    } else if *tag == *"run_completed" {
        let names: Vec<String> = vec![copy("type"), copy("run_id")];
        assert(texts(names@) =~= seq!["type"@, "run_id"@]);
        Some((names, 2))
    } else if *tag == *"run_failed" {
        let names: Vec<String> = vec![copy("type"), copy("run_id"), copy("error")];
        assert(texts(names@) =~= seq!["type"@, "run_id"@, "error"@]);
        Some((names, 3))
    } else if *tag == *"run_cancelled" {
        let names: Vec<String> = vec![copy("type"), copy("run_id")];
        assert(texts(names@) =~= seq!["type"@, "run_id"@]);
        Some((names, 2))
    } else {
        None
    }
}

/// The object that a list stands for, where it stands for an event.
fn record_of_event(json: &Json) -> (r: Option<Json>)
    ensures
        match r {
            Some(record) => record@ == event_record(json@),
            None => json@ == event_record(json@),
        },
{
    match list_tag(json) {
        Some(tag) => as_variant(json, &shape_of_event(tag.as_str())),
        None => None,
    }
}

/// What is wrong with the members of an event.
pub open spec fn event_fault(json: JsonView) -> Option<Seq<char>> {
    if has_tag(json, "run_started"@) {
        first(
            required_fault::<String>(json, "run_id"@),
            first(
                required_fault::<String>(json, "script_path"@),
                required_fault::<String>(json, "name"@),
            ),
        )
    } else if has_tag(json, "progress"@) {
        first(
            required_fault::<String>(json, "run_id"@),
            required_fault::<String>(json, "message"@),
        )
    } else if has_tag(json, "phase_started"@) {
        first(
            required_fault::<String>(json, "run_id"@),
            required_fault::<String>(json, "name"@),
        )
    } else if has_tag(json, "phase_completed"@) {
        first(
            required_fault::<String>(json, "run_id"@),
            required_fault::<String>(json, "name"@),
        )
    } else if has_tag(json, "agent_call_started"@) {
        first(
            required_fault::<String>(json, "run_id"@),
            first(
                required_fault::<String>(json, "key"@),
                first(
                    optional_fault::<String>(json, "agent"@),
                    optional_fault::<String>(json, "task"@),
                ),
            ),
        )
    } else if has_tag(json, "agent_call_completed"@) {
        first(
            required_fault::<String>(json, "run_id"@),
            first(
                required_fault::<String>(json, "key"@),
                first(
                    required_fault::<bool>(json, "cached"@),
                    required_fault::<bool>(json, "is_error"@),
                ),
            ),
        )
    } else if has_tag(json, "run_completed"@) {
        required_fault::<String>(json, "run_id"@)
    } else if has_tag(json, "run_failed"@) {
        first(
            required_fault::<String>(json, "run_id"@),
            required_fault::<String>(json, "error"@),
        )
    } else if has_tag(json, "run_cancelled"@) {
        required_fault::<String>(json, "run_id"@)
    } else {
        Some(tag_fault(json, "type"@))
    }
}

/// Finds what is wrong with the members of an event.
fn find_event_fault(json: &Json) -> (r: Option<String>)
    ensures
        opt_text(r) == event_fault(json@),
{
    let tag = match json.get("type") {
        Some(Json::Text(tag)) => tag.as_str(),
        _ => {
            return Some(find_tag_fault(json, "type"));
        },
    };
    if *tag == *"run_started" {
        let fault = find_required_fault::<String>(json, "run_id");
        if fault.is_some() {
            return fault;
        }
        let fault = find_required_fault::<String>(json, "script_path");
        if fault.is_some() {
            return fault;
        }
        find_required_fault::<String>(json, "name")
    } else if *tag == *"progress" {
        let fault = find_required_fault::<String>(json, "run_id");
        if fault.is_some() {
            return fault;
        }
        find_required_fault::<String>(json, "message")
    } else if *tag == *"phase_started" {
        let fault = find_required_fault::<String>(json, "run_id");
        if fault.is_some() {
            return fault;
        }
        find_required_fault::<String>(json, "name")
    } else if *tag == *"phase_completed" {
        let fault = find_required_fault::<String>(json, "run_id");
        if fault.is_some() {
            return fault;
        }
        find_required_fault::<String>(json, "name")
    } else if *tag == *"agent_call_started" {
        let fault = find_required_fault::<String>(json, "run_id");
        if fault.is_some() {
            return fault;
        }
        let fault = find_required_fault::<String>(json, "key");
        if fault.is_some() {
            return fault;
        }
        let fault = find_optional_fault::<String>(json, "agent");
        if fault.is_some() {
            return fault;
        }
        find_optional_fault::<String>(json, "task")
    } else if *tag == *"agent_call_completed" {
        let fault = find_required_fault::<String>(json, "run_id");
        if fault.is_some() {
            return fault;
        }
        let fault = find_required_fault::<String>(json, "key");
        if fault.is_some() {
            return fault;
        }
        let fault = find_required_fault::<bool>(json, "cached");
        if fault.is_some() {
            return fault;
        }
        find_required_fault::<bool>(json, "is_error")
    } else if *tag == *"run_completed" {
        find_required_fault::<String>(json, "run_id")
    } else if *tag == *"run_failed" {
        let fault = find_required_fault::<String>(json, "run_id");
        if fault.is_some() {
            return fault;
        }
        find_required_fault::<String>(json, "error")
    } else if *tag == *"run_cancelled" {
        find_required_fault::<String>(json, "run_id")
    } else {
        Some(find_tag_fault(json, "type"))
    }
}

/// The event that a JSON value stands for, where it stands for one.
pub open spec fn dec_event(json: JsonView) -> Option<WorkflowEventView> {
    event_value(event_record(json))
}

/// The names of the variants differ.
pub proof fn lemma_event_tags()
    ensures
        mark("run_started"@) == 11_114_116_100,
        mark("progress"@) == 8_112_114_115,
        mark("phase_started"@) == 13_112_115_100,
        mark("phase_completed"@) == 15_112_111_100,
        mark("agent_call_started"@) == 18_097_108_100,
        mark("agent_call_completed"@) == 20_097_095_100,
        mark("run_completed"@) == 13_114_109_100,
        mark("run_failed"@) == 10_114_097_100,
        mark("run_cancelled"@) == 13_114_110_100,
{
    reveal_strlit("run_started");
    reveal_strlit("progress");
    reveal_strlit("phase_started");
    reveal_strlit("phase_completed");
    reveal_strlit("agent_call_started");
    reveal_strlit("agent_call_completed");
    reveal_strlit("run_completed");
    reveal_strlit("run_failed");
    reveal_strlit("run_cancelled");
}

/// The names of the members differ.
pub proof fn lemma_event_fields()
    ensures
        mark("type"@) == 4_116_112_101,
        mark("run_id"@) == 6_114_095_100,
        mark("script_path"@) == 11_115_116_104,
        mark("name"@) == 4_110_109_101,
        mark("message"@) == 7_109_115_101,
        mark("key"@) == 3_107_101_121,
        mark("agent"@) == 5_097_101_116,
        mark("task"@) == 4_116_115_107,
        mark("cached"@) == 6_099_104_100,
        mark("is_error"@) == 8_105_114_114,
        mark("error"@) == 5_101_114_114,
{
    reveal_strlit("type");
    reveal_strlit("run_id");
    reveal_strlit("script_path");
    reveal_strlit("name");
    reveal_strlit("message");
    reveal_strlit("key");
    reveal_strlit("agent");
    reveal_strlit("task");
    reveal_strlit("cached");
    reveal_strlit("is_error");
    reveal_strlit("error");
}

/// What was written down of an event reads back as it was.
pub proof fn event_round_trip(v: WorkflowEventView)
    ensures
        dec_event(enc_event(v)) == Some(v),
{
    lemma_event_tags();
    lemma_event_fields();
    let json = enc_event(v);
    match v {
        WorkflowEventView::RunStarted { run_id, script_path, name } => {
            assert(has_tag(json, "run_started"@));
            assert(member(json, "run_id"@) == Some(String::enc(run_id)));
            assert(member(json, "script_path"@) == Some(String::enc(script_path)));
            assert(member(json, "name"@) == Some(String::enc(name)));
        },
        WorkflowEventView::Progress { run_id, message } => {
            assert(has_tag(json, "progress"@));
            assert(member(json, "run_id"@) == Some(String::enc(run_id)));
            assert(member(json, "message"@) == Some(String::enc(message)));
        },
        WorkflowEventView::PhaseStarted { run_id, name } => {
            assert(has_tag(json, "phase_started"@));
            assert(member(json, "run_id"@) == Some(String::enc(run_id)));
            assert(member(json, "name"@) == Some(String::enc(name)));
        },
        WorkflowEventView::PhaseCompleted { run_id, name } => {
            assert(has_tag(json, "phase_completed"@));
            assert(member(json, "run_id"@) == Some(String::enc(run_id)));
            assert(member(json, "name"@) == Some(String::enc(name)));
        },
        WorkflowEventView::AgentCallStarted { run_id, key, agent, task } => {
            assert(has_tag(json, "agent_call_started"@));
            assert(member(json, "run_id"@) == Some(String::enc(run_id)));
            assert(member(json, "key"@) == Some(String::enc(key)));
            assert(member(json, "agent"@) == Some(enc_optional::<String>(agent)));
            assert(member(json, "task"@) == Some(enc_optional::<String>(task)));
        },
        WorkflowEventView::AgentCallCompleted { run_id, key, cached, is_error } => {
            assert(has_tag(json, "agent_call_completed"@));
            assert(member(json, "run_id"@) == Some(String::enc(run_id)));
            assert(member(json, "key"@) == Some(String::enc(key)));
            assert(member(json, "cached"@) == Some(bool::enc(cached)));
            assert(member(json, "is_error"@) == Some(bool::enc(is_error)));
        },
        WorkflowEventView::RunCompleted { run_id } => {
            assert(has_tag(json, "run_completed"@));
            assert(member(json, "run_id"@) == Some(String::enc(run_id)));
        },
        WorkflowEventView::RunFailed { run_id, error } => {
            assert(has_tag(json, "run_failed"@));
            assert(member(json, "run_id"@) == Some(String::enc(run_id)));
            assert(member(json, "error"@) == Some(String::enc(error)));
        },
        WorkflowEventView::RunCancelled { run_id } => {
            assert(has_tag(json, "run_cancelled"@));
            assert(member(json, "run_id"@) == Some(String::enc(run_id)));
        },
    }
}

/// Reads the members of an event.
fn read_event_value(json: &Json) -> (r: Option<WorkflowEvent>)
    ensures
        view_of(r) == event_value(json@),
{
    let tag = match json.get("type") {
        Some(Json::Text(tag)) => tag.as_str(),
        _ => {
            return None;
        },
    };
    if *tag == *"run_started" {
        match (
            required_field::<String>(json, "run_id"),
            required_field::<String>(json, "script_path"),
            required_field::<String>(json, "name"),
        ) {
            (Some(run_id), Some(script_path), Some(name)) => Some(WorkflowEvent::RunStarted { run_id, script_path, name }),
            _ => None,
        }
    } else if *tag == *"progress" {
        match (
            required_field::<String>(json, "run_id"),
            required_field::<String>(json, "message"),
        ) {
            (Some(run_id), Some(message)) => Some(WorkflowEvent::Progress { run_id, message }),
            _ => None,
        }
    } else if *tag == *"phase_started" {
        match (
            required_field::<String>(json, "run_id"),
            required_field::<String>(json, "name"),
        ) {
            (Some(run_id), Some(name)) => Some(WorkflowEvent::PhaseStarted { run_id, name }),
            _ => None,
        }
    } else if *tag == *"phase_completed" {
        match (
            required_field::<String>(json, "run_id"),
            required_field::<String>(json, "name"),
        ) {
            (Some(run_id), Some(name)) => Some(WorkflowEvent::PhaseCompleted { run_id, name }),
            _ => None,
        }
    } else if *tag == *"agent_call_started" {
        match (
            required_field::<String>(json, "run_id"),
            required_field::<String>(json, "key"),
            optional_field::<String>(json, "agent"),
            optional_field::<String>(json, "task"),
        ) {
            (Some(run_id), Some(key), Some(agent), Some(task)) => Some(WorkflowEvent::AgentCallStarted { run_id, key, agent, task }),
            _ => None,
        }
    } else if *tag == *"agent_call_completed" {
        match (
            required_field::<String>(json, "run_id"),
            required_field::<String>(json, "key"),
            required_field::<bool>(json, "cached"),
            required_field::<bool>(json, "is_error"),
        ) {
            (
                Some(run_id),
                Some(key),
                Some(cached),
                Some(is_error),
            ) => Some(WorkflowEvent::AgentCallCompleted { run_id, key, cached, is_error }),
            _ => None,
        }
    } else if *tag == *"run_completed" {
        match required_field::<String>(json, "run_id") {
            Some(run_id) => Some(WorkflowEvent::RunCompleted { run_id }),
            None => None,
        }
    } else if *tag == *"run_failed" {
        match (
            required_field::<String>(json, "run_id"),
            required_field::<String>(json, "error"),
        ) {
            (Some(run_id), Some(error)) => Some(WorkflowEvent::RunFailed { run_id, error }),
            _ => None,
        }
    } else if *tag == *"run_cancelled" {
        match required_field::<String>(json, "run_id") {
            Some(run_id) => Some(WorkflowEvent::RunCancelled { run_id }),
            None => None,
        }
    } else {
        None
    }
}

impl Coded for WorkflowEvent {
    open spec fn stable(v: WorkflowEventView) -> bool {
        true
    }

    open spec fn enc(v: WorkflowEventView) -> JsonView {
        enc_event(v)
    }

    open spec fn dec(json: JsonView) -> Option<WorkflowEventView> {
        dec_event(json)
    }

    open spec fn complaint(json: JsonView) -> Seq<char> {
        said(event_fault(event_record(json)))
    }

    proof fn round_trip(v: WorkflowEventView) {
        event_round_trip(v);
    }

    fn to_json(&self) -> (r: Json)
    {
        let mut m: Vec<(String, Json)> = Vec::new();
        match self {
            WorkflowEvent::RunStarted { run_id, script_path, name } => {
                put(&mut m, "type", Json::text("run_started"));
                put(&mut m, "run_id", run_id.to_json());
                put(&mut m, "script_path", script_path.to_json());
                put(&mut m, "name", name.to_json());
            },
            WorkflowEvent::Progress { run_id, message } => {
                put(&mut m, "type", Json::text("progress"));
                put(&mut m, "run_id", run_id.to_json());
                put(&mut m, "message", message.to_json());
            },
            WorkflowEvent::PhaseStarted { run_id, name } => {
                put(&mut m, "type", Json::text("phase_started"));
                put(&mut m, "run_id", run_id.to_json());
                put(&mut m, "name", name.to_json());
            },
            WorkflowEvent::PhaseCompleted { run_id, name } => {
                put(&mut m, "type", Json::text("phase_completed"));
                put(&mut m, "run_id", run_id.to_json());
                put(&mut m, "name", name.to_json());
            },
            WorkflowEvent::AgentCallStarted { run_id, key, agent, task } => {
                put(&mut m, "type", Json::text("agent_call_started"));
                put(&mut m, "run_id", run_id.to_json());
                put(&mut m, "key", key.to_json());
                put(&mut m, "agent", optional_to_json(agent));
                put(&mut m, "task", optional_to_json(task));
            },
            WorkflowEvent::AgentCallCompleted { run_id, key, cached, is_error } => {
                put(&mut m, "type", Json::text("agent_call_completed"));
                put(&mut m, "run_id", run_id.to_json());
                put(&mut m, "key", key.to_json());
                put(&mut m, "cached", cached.to_json());
                put(&mut m, "is_error", is_error.to_json());
            },
            WorkflowEvent::RunCompleted { run_id } => {
                put(&mut m, "type", Json::text("run_completed"));
                put(&mut m, "run_id", run_id.to_json());
            },
            WorkflowEvent::RunFailed { run_id, error } => {
                put(&mut m, "type", Json::text("run_failed"));
                put(&mut m, "run_id", run_id.to_json());
                put(&mut m, "error", error.to_json());
            },
            WorkflowEvent::RunCancelled { run_id } => {
                put(&mut m, "type", Json::text("run_cancelled"));
                put(&mut m, "run_id", run_id.to_json());
            },
        }
        Json::Object(m)
    }

    fn read(json: &Json) -> (r: Option<Self>) {
        match record_of_event(json) {
            Some(record) => read_event_value(&record),
            None => read_event_value(json),
        }
    }

    fn complain(json: &Json) -> (r: String) {
        match record_of_event(json) {
            Some(record) => tell(find_event_fault(&record)),
            None => tell(find_event_fault(json)),
        }
    }
}

/// The members that every server-sent event has.
pub open spec fn sse_base(event: Seq<char>, run_id: Seq<char>, seq: u64) -> Map<Seq<char>, JsonView> {
    Map::empty().insert("event"@, JsonView::Text(event)).insert("run_id"@, JsonView::Text(run_id)).insert(
        "seq"@,
        JsonView::Unsigned(seq),
    )
}

/// An event as the server sends it.
pub open spec fn sse_of(v: WorkflowEventView, seq: u64) -> JsonView {
    let running = JsonView::Text("running"@);
    JsonView::Object(
        match v {
            WorkflowEventView::RunStarted { run_id, script_path, name } => sse_base(
                "workflow.started"@,
                run_id,
                seq,
            ).insert("script_path"@, JsonView::Text(script_path)).insert("name"@, JsonView::Text(name)).insert(
                "status"@,
                running,
            ),
            WorkflowEventView::Progress { run_id, message } => sse_base("workflow.progress"@, run_id, seq).insert(
                "message"@,
                JsonView::Text(message),
            ).insert("status"@, running),
            WorkflowEventView::PhaseStarted { run_id, name } => sse_base(
                "workflow.phase_start"@,
                run_id,
                seq,
            ).insert("phase"@, JsonView::Text(name)).insert("status"@, running),
            WorkflowEventView::PhaseCompleted { run_id, name } => sse_base(
                "workflow.phase_finish"@,
                run_id,
                seq,
            ).insert("phase"@, JsonView::Text(name)).insert("status"@, running),
            WorkflowEventView::AgentCallStarted { run_id, key, agent, task } => with_text(
                with_text(
                    sse_base("workflow.agent_start"@, run_id, seq).insert(
                        "agent_label"@,
                        JsonView::Text(key),
                    ).insert("status"@, running),
                    "agent_type"@,
                    agent,
                ),
                "task"@,
                task,
            ),
            WorkflowEventView::AgentCallCompleted { run_id, key, cached, is_error } => sse_base(
                "workflow.agent_finish"@,
                run_id,
                seq,
            ).insert("agent_label"@, JsonView::Text(key)).insert("cached"@, JsonView::Bool(cached)).insert(
                "is_error"@,
                JsonView::Bool(is_error),
            ).insert(
                "status"@,
                if is_error {
                    JsonView::Text("failed"@)
                } else {
                    running
                },
            ),
            WorkflowEventView::RunCompleted { run_id } => sse_base("workflow.completed"@, run_id, seq).insert(
                "status"@,
                JsonView::Text("completed"@),
            ),
            WorkflowEventView::RunFailed { run_id, error } => sse_base("workflow.failed"@, run_id, seq).insert(
                "status"@,
                JsonView::Text("failed"@),
            ).insert("error"@, JsonView::Text(error)),
            WorkflowEventView::RunCancelled { run_id } => sse_base("workflow.cancelled"@, run_id, seq).insert(
                "status"@,
                JsonView::Text("cancelled"@),
            ),
        },
    )
}

fn json_event(event: &str, run_id: &str, seq: u64) -> (r: Vec<(String, Json)>)
    ensures
        member_views(r@) == sse_base(event@, run_id@, seq),
{
    let mut m: Vec<(String, Json)> = Vec::new();
    put(&mut m, "event", Json::text(event));
    put(&mut m, "run_id", Json::text(run_id));
    put(&mut m, "seq", Json::Unsigned(seq));
    m
}

impl Clone for WorkflowEvent {
    fn clone(&self) -> (r: Self)
        ensures
            r@ == self@,
    {
        match self {
            WorkflowEvent::RunStarted { run_id, script_path, name } => WorkflowEvent::RunStarted {
                run_id: run_id.clone(),
                script_path: script_path.clone(),
                name: name.clone(),
            },
            WorkflowEvent::Progress { run_id, message } => WorkflowEvent::Progress {
                run_id: run_id.clone(),
                message: message.clone(),
            },
            WorkflowEvent::PhaseStarted { run_id, name } => WorkflowEvent::PhaseStarted {
                run_id: run_id.clone(),
                name: name.clone(),
            },
            WorkflowEvent::PhaseCompleted { run_id, name } => WorkflowEvent::PhaseCompleted {
                run_id: run_id.clone(),
                name: name.clone(),
            },
            WorkflowEvent::AgentCallStarted { run_id, key, agent, task } => WorkflowEvent::AgentCallStarted {
                run_id: run_id.clone(),
                key: key.clone(),
                agent: copy_maybe(agent),
                task: copy_maybe(task),
            },
            WorkflowEvent::AgentCallCompleted { run_id, key, cached, is_error } => WorkflowEvent::AgentCallCompleted {
                run_id: run_id.clone(),
                key: key.clone(),
                cached: *cached,
                is_error: *is_error,
            },
            WorkflowEvent::RunCompleted { run_id } => WorkflowEvent::RunCompleted { run_id: run_id.clone() },
            WorkflowEvent::RunFailed { run_id, error } => WorkflowEvent::RunFailed {
                run_id: run_id.clone(),
                error: error.clone(),
            },
            WorkflowEvent::RunCancelled { run_id } => WorkflowEvent::RunCancelled { run_id: run_id.clone() },
        }
    }
}

/// A copy of a text, where there is one.
pub fn copy_maybe(text: &Option<String>) -> (r: Option<String>)
    ensures
        view_of(r) == view_of(*text),
{
    match text {
        Some(text) => Some(text.clone()),
        None => None,
    }
}

impl WorkflowEvent {
    /// The event as the server sends it, with the number `seq`.
    pub fn to_sse_json(&self, seq: u64) -> (r: Json)
        ensures
            r@ == sse_of(self@, seq),
    {
        let members = match self {
            WorkflowEvent::RunStarted { run_id, script_path, name } => {
                let mut m = json_event("workflow.started", run_id.as_str(), seq);
                put(&mut m, "script_path", Json::Text(script_path.clone()));
                put(&mut m, "name", Json::Text(name.clone()));
                put(&mut m, "status", Json::text("running"));
                m
            },
            WorkflowEvent::Progress { run_id, message } => {
                let mut m = json_event("workflow.progress", run_id.as_str(), seq);
                put(&mut m, "message", Json::Text(message.clone()));
                put(&mut m, "status", Json::text("running"));
                m
            },
            WorkflowEvent::PhaseStarted { run_id, name } => {
                let mut m = json_event("workflow.phase_start", run_id.as_str(), seq);
                put(&mut m, "phase", Json::Text(name.clone()));
                put(&mut m, "status", Json::text("running"));
                m
            },
            WorkflowEvent::PhaseCompleted { run_id, name } => {
                let mut m = json_event("workflow.phase_finish", run_id.as_str(), seq);
                put(&mut m, "phase", Json::Text(name.clone()));
                put(&mut m, "status", Json::text("running"));
                m
            },
            WorkflowEvent::AgentCallStarted { run_id, key, agent, task } => {
                let mut m = json_event("workflow.agent_start", run_id.as_str(), seq);
                put(&mut m, "agent_label", Json::Text(key.clone()));
                put(&mut m, "status", Json::text("running"));
                put_text(&mut m, "agent_type", agent);
                put_text(&mut m, "task", task);
                m
            },
            WorkflowEvent::AgentCallCompleted { run_id, key, cached, is_error } => {
                let mut m = json_event("workflow.agent_finish", run_id.as_str(), seq);
                put(&mut m, "agent_label", Json::Text(key.clone()));
                put(&mut m, "cached", Json::Bool(*cached));
                put(&mut m, "is_error", Json::Bool(*is_error));
                put(&mut m, "status", Json::text(if *is_error { "failed" } else { "running" }));
                m
            },
            WorkflowEvent::RunCompleted { run_id } => {
                let mut m = json_event("workflow.completed", run_id.as_str(), seq);
                put(&mut m, "status", Json::text("completed"));
                m
            },
            WorkflowEvent::RunFailed { run_id, error } => {
                let mut m = json_event("workflow.failed", run_id.as_str(), seq);
                put(&mut m, "status", Json::text("failed"));
                put(&mut m, "error", Json::Text(error.clone()));
                m
            },
            WorkflowEvent::RunCancelled { run_id } => {
                let mut m = json_event("workflow.cancelled", run_id.as_str(), seq);
                put(&mut m, "status", Json::text("cancelled"));
                m
            },
        };
        Json::Object(members)
    }
}

/// What is kept of a run is refused where something is wrong with it, and only there.
pub proof fn refused_runs_are_explained(json: JsonView)
    ensures
        meta_fault(json) is Some <==> meta_value(json) is None,
        call_fault(json) is Some <==> call_value(json) is None,
        result_fault(json) is Some <==> result_value(json) is None,
        run_fault(json) is Some <==> run_value(json) is None,
        event_fault(json) is Some <==> event_value(json) is None,
{
    match member(json, "results"@) {
        Some(JsonView::Array(items)) => {
            lemma_item_fault::<WorkflowAgentResult>(items);
        },
        _ => {},
    }
}

} // verus!
