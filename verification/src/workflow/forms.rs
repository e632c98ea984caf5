//! Run options and scripts as JSON.
use crate::coding::{default_field, defaulted, enc_optional, mark, optional, optional_field, optional_to_json, required, required_field, view_of, Coded};
use crate::json::{member, put, Json, JsonView};
use crate::record::{as_record, default_fault, find_default_fault, find_object_fault, find_optional_fault, find_required_fault, first, object_fault, optional_fault, record_of, required_fault, said, tell};
use crate::text::{copy, opt_text, texts};
use crate::workflow::options::{default_concurrency_limit, OptionsView, WorkflowRunOptions};
use crate::workflow::types::{MetaView, WorkflowScript, WorkflowScriptMeta};
use vstd::prelude::*;

verus! {

broadcast use vstd::seq_lib::group_seq_properties;

/// The names of the members of run options differ.
pub proof fn lemma_options_names()
    ensures
        mark("run_id"@) == 6_114_095_100,
        mark("script"@) == 6_115_105_116,
        mark("name"@) == 4_110_109_101,
        mark("script_path"@) == 11_115_116_104,
        mark("args"@) == 4_097_103_115,
        mark("resume_from_run_id"@) == 18_114_111_100,
        mark("concurrency_limit"@) == 17_099_110_116,
{
    reveal_strlit("run_id");
    reveal_strlit("script");
    reveal_strlit("name");
    reveal_strlit("script_path");
    reveal_strlit("args");
    reveal_strlit("resume_from_run_id");
    reveal_strlit("concurrency_limit");
}

/// The value that the members of an object stand for, where they stand for run options.
pub open spec fn options_value(json: JsonView) -> Option<OptionsView> {
    if json is Object {
        match (
            optional::<String>(member(json, "run_id"@)),
            optional::<String>(member(json, "script"@)),
            optional::<String>(member(json, "name"@)),
            optional::<String>(member(json, "script_path"@)),
            defaulted::<Json>(member(json, "args"@), JsonView::Null),
            optional::<String>(member(json, "resume_from_run_id"@)),
            defaulted::<usize>(member(json, "concurrency_limit"@), 16),
        ) {
            (
                Some(run_id),
                Some(script),
                Some(name),
                Some(script_path),
                Some(args),
                Some(resume_from_run_id),
                Some(concurrency_limit),
            ) => Some(
                OptionsView { run_id, script, name, script_path, args, resume_from_run_id, concurrency_limit },
            ),
            _ => None,
        }
    } else {
        None
    }
}

/// Reads the members of run options.
fn read_options_value(json: &Json) -> (r: Option<WorkflowRunOptions>)
    ensures
        view_of(r) == options_value(json@),
{
    match json {
        Json::Object(_) => {},
        _ => {
            return None;
        },
    }
    match (
        optional_field::<String>(json, "run_id"),
        optional_field::<String>(json, "script"),
        optional_field::<String>(json, "name"),
        optional_field::<String>(json, "script_path"),
        default_field::<Json>(json, "args", Json::Null),
        optional_field::<String>(json, "resume_from_run_id"),
        default_field::<usize>(json, "concurrency_limit", default_concurrency_limit()),
    ) {
        (
            Some(run_id),
            Some(script),
            Some(name),
            Some(script_path),
            Some(args),
            Some(resume_from_run_id),
            Some(concurrency_limit),
        ) => Some(
            WorkflowRunOptions {
                run_id,
                script,
                name,
                script_path,
                args,
                resume_from_run_id,
                concurrency_limit,
            },
        ),
        _ => None,
    }
}

/// The members of run options.
pub open spec fn options_names() -> Seq<Seq<char>> {
    seq!["run_id"@, "script"@, "name"@, "script_path"@, "args"@, "resume_from_run_id"@, "concurrency_limit"@]
}

/// The object that a list stands for, where it stands for run options.
fn options_record(json: &Json) -> (r: Option<Json>)
    ensures
        match r {
            Some(record) => record@ == record_of(json@, options_names(), 6),
            None => json@ == record_of(json@, options_names(), 6),
        },
{
    let names: Vec<String> = vec![
        copy("run_id"),
        copy("script"),
        copy("name"),
        copy("script_path"),
        copy("args"),
        copy("resume_from_run_id"),
        copy("concurrency_limit"),
    ];
    assert(texts(names@) =~= options_names());
    as_record(json, &names, 6)
}

/// What is wrong with the members of run options.
pub open spec fn options_fault(json: JsonView) -> Option<Seq<char>> {
    first(
        object_fault(json),
        first(
            optional_fault::<String>(json, "run_id"@),
            first(
                optional_fault::<String>(json, "script"@),
                first(
                    optional_fault::<String>(json, "name"@),
                    first(
                        optional_fault::<String>(json, "script_path"@),
                        first(
                            default_fault::<Json>(json, "args"@),
                            first(
                                optional_fault::<String>(json, "resume_from_run_id"@),
                                default_fault::<usize>(json, "concurrency_limit"@),
                            ),
                        ),
                    ),
                ),
            ),
        ),
    )
}

/// Finds what is wrong with the members of run options.
fn find_options_fault(json: &Json) -> (r: Option<String>)
    ensures
        opt_text(r) == options_fault(json@),
{
    let fault = find_object_fault(json);
    if fault.is_some() {
        return fault;
    }
    let fault = find_optional_fault::<String>(json, "run_id");
    if fault.is_some() {
        return fault;
    }
    let fault = find_optional_fault::<String>(json, "script");
    if fault.is_some() {
        return fault;
    }
    let fault = find_optional_fault::<String>(json, "name");
    if fault.is_some() {
        return fault;
    }
    let fault = find_optional_fault::<String>(json, "script_path");
    if fault.is_some() {
        return fault;
    }
    let fault = find_default_fault::<Json>(json, "args");
    if fault.is_some() {
        return fault;
    }
    let fault = find_optional_fault::<String>(json, "resume_from_run_id");
    if fault.is_some() {
        return fault;
    }
    find_default_fault::<usize>(json, "concurrency_limit")
}

impl Coded for WorkflowRunOptions {
    open spec fn stable(v: OptionsView) -> bool {
        true
    }

    open spec fn enc(v: OptionsView) -> JsonView {
        JsonView::Object(
            Map::empty()
                .insert("run_id"@, enc_optional::<String>(v.run_id))
                .insert("script"@, enc_optional::<String>(v.script))
                .insert("name"@, enc_optional::<String>(v.name))
                .insert("script_path"@, enc_optional::<String>(v.script_path))
                .insert("args"@, Json::enc(v.args))
                .insert("resume_from_run_id"@, enc_optional::<String>(v.resume_from_run_id))
                .insert("concurrency_limit"@, usize::enc(v.concurrency_limit)),
        )
    }

    open spec fn dec(json: JsonView) -> Option<OptionsView> {
        options_value(record_of(json, options_names(), 6))
    }

    open spec fn complaint(json: JsonView) -> Seq<char> {
        said(options_fault(record_of(json, options_names(), 6)))
    }

    proof fn round_trip(v: OptionsView) {
        lemma_options_names();
        let json = Self::enc(v);
        assert(member(json, "run_id"@) == Some(enc_optional::<String>(v.run_id)));
        if v.run_id is Some {
            String::round_trip(v.run_id->0);
        }
        assert(member(json, "script"@) == Some(enc_optional::<String>(v.script)));
        if v.script is Some {
            String::round_trip(v.script->0);
        }
        assert(member(json, "name"@) == Some(enc_optional::<String>(v.name)));
        if v.name is Some {
            String::round_trip(v.name->0);
        }
        assert(member(json, "script_path"@) == Some(enc_optional::<String>(v.script_path)));
        if v.script_path is Some {
            String::round_trip(v.script_path->0);
        }
        assert(member(json, "args"@) == Some(Json::enc(v.args)));
        Json::round_trip(v.args);
        assert(member(json, "resume_from_run_id"@) == Some(enc_optional::<String>(v.resume_from_run_id)));
        if v.resume_from_run_id is Some {
            String::round_trip(v.resume_from_run_id->0);
        }
        assert(member(json, "concurrency_limit"@) == Some(usize::enc(v.concurrency_limit)));
        usize::round_trip(v.concurrency_limit);
    }

    fn to_json(&self) -> (r: Json) {
        let mut m: Vec<(String, Json)> = Vec::new();
        put(&mut m, "run_id", optional_to_json(&self.run_id));
        put(&mut m, "script", optional_to_json(&self.script));
        put(&mut m, "name", optional_to_json(&self.name));
        put(&mut m, "script_path", optional_to_json(&self.script_path));
        put(&mut m, "args", self.args.to_json());
        put(&mut m, "resume_from_run_id", optional_to_json(&self.resume_from_run_id));
        put(&mut m, "concurrency_limit", self.concurrency_limit.to_json());
        Json::Object(m)
    }

    fn read(json: &Json) -> (r: Option<Self>) {
        match options_record(json) {
            Some(record) => read_options_value(&record),
            None => read_options_value(json),
        }
    }

    fn complain(json: &Json) -> (r: String) {
        match options_record(json) {
            Some(record) => tell(find_options_fault(&record)),
            None => tell(find_options_fault(json)),
        }
    }
}

/// What a [`WorkflowScript`] says.
pub struct ScriptView {
    pub path: Seq<char>,
    pub source: Seq<char>,
    pub meta: MetaView,
}

impl View for WorkflowScript {
    type V = ScriptView;

    open spec fn view(&self) -> ScriptView {
        ScriptView { path: self.path@, source: self.source@, meta: self.meta@ }
    }
}

/// The names of the members of a script differ.
pub proof fn lemma_script_names()
    ensures
        mark("path"@) == 4_112_116_104,
        mark("source"@) == 6_115_114_101,
        mark("meta"@) == 4_109_116_097,
{
    reveal_strlit("path");
    reveal_strlit("source");
    reveal_strlit("meta");
}

/// The value that the members of an object stand for, where they stand for a script.
pub open spec fn script_value(json: JsonView) -> Option<ScriptView> {
    match (
        required::<String>(member(json, "path"@)),
        required::<String>(member(json, "source"@)),
        required::<WorkflowScriptMeta>(member(json, "meta"@)),
    ) {
        (Some(path), Some(source), Some(meta)) => Some(
            ScriptView { path, source, meta },
        ),
        _ => None,
    }
}

/// Reads the members of a script.
fn read_script_value(json: &Json) -> (r: Option<WorkflowScript>)
    ensures
        view_of(r) == script_value(json@),
{
    match (
        required_field::<String>(json, "path"),
        required_field::<String>(json, "source"),
        required_field::<WorkflowScriptMeta>(json, "meta"),
    ) {
        (Some(path), Some(source), Some(meta)) => Some(
            WorkflowScript { path, source, meta },
        ),
        _ => None,
    }
}

/// The members of a script.
pub open spec fn script_names() -> Seq<Seq<char>> {
    seq!["path"@, "source"@, "meta"@]
}

/// The object that a list stands for, where it stands for a script.
fn script_record(json: &Json) -> (r: Option<Json>)
    ensures
        match r {
            Some(record) => record@ == record_of(json@, script_names(), 3),
            None => json@ == record_of(json@, script_names(), 3),
        },
{
    let names: Vec<String> = vec![copy("path"), copy("source"), copy("meta")];
    assert(texts(names@) =~= script_names());
    as_record(json, &names, 3)
}

/// What is wrong with the members of a script.
pub open spec fn script_fault(json: JsonView) -> Option<Seq<char>> {
    first(
        object_fault(json),
        first(
            required_fault::<String>(json, "path"@),
            first(
                required_fault::<String>(json, "source"@),
                required_fault::<WorkflowScriptMeta>(json, "meta"@),
            ),
        ),
    )
}

/// Finds what is wrong with the members of a script.
fn find_script_fault(json: &Json) -> (r: Option<String>)
    ensures
        opt_text(r) == script_fault(json@),
{
    let fault = find_object_fault(json);
    if fault.is_some() {
        return fault;
    }
    let fault = find_required_fault::<String>(json, "path");
    if fault.is_some() {
        return fault;
    }
    let fault = find_required_fault::<String>(json, "source");
    if fault.is_some() {
        return fault;
    }
    find_required_fault::<WorkflowScriptMeta>(json, "meta")
}

impl Coded for WorkflowScript {
    open spec fn stable(v: ScriptView) -> bool {
        true
    }

    open spec fn enc(v: ScriptView) -> JsonView {
        JsonView::Object(
            Map::empty()
                .insert("path"@, String::enc(v.path))
                .insert("source"@, String::enc(v.source))
                .insert("meta"@, WorkflowScriptMeta::enc(v.meta)),
        )
    }

    open spec fn dec(json: JsonView) -> Option<ScriptView> {
        script_value(record_of(json, script_names(), 3))
    }

    open spec fn complaint(json: JsonView) -> Seq<char> {
        said(script_fault(record_of(json, script_names(), 3)))
    }

    proof fn round_trip(v: ScriptView) {
        lemma_script_names();
        let json = Self::enc(v);
        assert(member(json, "path"@) == Some(String::enc(v.path)));
        String::round_trip(v.path);
        assert(member(json, "source"@) == Some(String::enc(v.source)));
        String::round_trip(v.source);
        assert(member(json, "meta"@) == Some(WorkflowScriptMeta::enc(v.meta)));
        WorkflowScriptMeta::round_trip(v.meta);
    }

    fn to_json(&self) -> (r: Json) {
        let mut m: Vec<(String, Json)> = Vec::new();
        put(&mut m, "path", self.path.to_json());
        put(&mut m, "source", self.source.to_json());
        put(&mut m, "meta", self.meta.to_json());
        Json::Object(m)
    }

    fn read(json: &Json) -> (r: Option<Self>) {
        match script_record(json) {
            Some(record) => read_script_value(&record),
            None => read_script_value(json),
        }
    }

    fn complain(json: &Json) -> (r: String) {
        match script_record(json) {
            Some(record) => tell(find_script_fault(&record)),
            None => tell(find_script_fault(json)),
        }
    }
}

/// Options or a script is refused where something is wrong with it, and only there.
pub proof fn refused_options_are_explained(json: JsonView)
    ensures
        options_fault(json) is Some <==> options_value(json) is None,
        script_fault(json) is Some <==> script_value(json) is None,
{
}

} // verus!
