//! Where workflow scripts, runs and results are kept.
use crate::coding::Coded;
use crate::form::Recorded;
use crate::json::{gives, is_pretty, parse_depth, parse_json_bytes, parse_view, parsed_bytes, plain, pretty, print_form_pretty, value_in, Form, FormView, Json, JsonView};
use crate::text::{concat3, copy, ends_with, has_char, holds, split, split_at_char, starts_with};
use crate::types::vfs::{bytes_out, unit_out, VfsErrorView, VirtualFs};
use crate::workflow::error::{WorkflowError, WorkflowErrorView};
use crate::workflow::types::{WorkflowAgentResult, WorkflowRun, WorkflowScript, WorkflowScriptMeta};
use vstd::prelude::*;
use vstd::string::*;
use vstd::utf8::{decode_utf8, encode_utf8, valid_utf8};

verus! {

broadcast use vstd::seq_lib::group_seq_properties;

// ---- Paths -------------------------------------------------------------------

/// Why a path cannot be that of a script.
pub open spec fn script_path_complaint(path: Seq<char>) -> Option<Seq<char>> {
    if path.contains('\0') {
        Some("path contains NUL byte"@)
    } else if !".mjs"@.is_suffix_of(path) {
        Some("workflow scripts must use .mjs extension"@)
    } else if !"/workflows/"@.is_prefix_of(path) && !"/var/workflows/runs/"@.is_prefix_of(path) {
        Some("workflow path must be under /workflows/ or /var/workflows/runs/"@)
    } else if split_at_char(path, '/').contains(".."@) {
        Some("path traversal is not allowed"@)
    } else {
        None
    }
}

/// A text is a single path segment.
pub open spec fn is_single_segment(name: Seq<char>) -> bool {
    &&& name.len() > 0
    &&& !name.contains('/')
    &&& !name.contains('\\')
    &&& !name.contains('\0')
    &&& name != "."@
    &&& name != ".."@
}

/// The path of the saved script `name`.
pub open spec fn saved_script_path(name: Seq<char>) -> Seq<char> {
    "/workflows/"@ + name + ".mjs"@
}

/// The path of the inline script of a run.
pub open spec fn inline_path(run_id: Seq<char>) -> Seq<char> {
    "/var/workflows/runs/"@ + run_id + "/workflow.mjs"@
}

/// The directory of the results of a run.
pub open spec fn results_dir(run_id: Seq<char>) -> Seq<char> {
    "/var/workflows/runs/"@ + run_id + "/agents"@
}

/// The path of the state of a run.
pub open spec fn run_path(run_id: Seq<char>) -> Seq<char> {
    "/var/workflows/runs/"@ + run_id + "/state.json"@
}

/// A character that may stand in a file name.
pub open spec fn is_label_char(c: char) -> bool {
    ('a' <= c <= 'z') || ('A' <= c <= 'Z') || ('0' <= c <= '9') || c == '-' || c == '_'
}

/// A label with every other character replaced by `_`.
pub open spec fn sanitized(label: Seq<char>) -> Seq<char> {
    Seq::new(
        label.len(),
        |i: int|
            if is_label_char(label[i]) {
                label[i]
            } else {
                '_'
            },
    )
}

/// The path of a result of a run.
pub open spec fn agent_result_path(run_id: Seq<char>, key: Seq<char>) -> Seq<char> {
    results_dir(run_id) + "/"@ + sanitized(key) + ".json"@
}

/// What a check of a path gives, over views.
pub open spec fn path_check_out(r: Result<(), WorkflowError>) -> Result<(), WorkflowErrorView> {
    match r {
        Ok(()) => Ok(()),
        Err(e) => Err(e@),
    }
}

/// What is said against a path.
pub open spec fn bad_path(path: Seq<char>, reason: Seq<char>) -> WorkflowErrorView {
    WorkflowErrorView::InvalidScriptPath { path, reason }
}

/// What a text or its error is.
pub open spec fn text_out(r: Result<String, WorkflowError>) -> Result<Seq<char>, WorkflowErrorView> {
    match r {
        Ok(text) => Ok(text@),
        Err(e) => Err(e@),
    }
}

fn path_error(path: &str, reason: &str) -> (r: WorkflowError)
    ensures
        r@ == bad_path(path@, reason@),
{
    WorkflowError::InvalidScriptPath { path: copy(path), reason: copy(reason) }
}

fn sanitize_label(label: &str) -> (r: String)
    ensures
        r@ == sanitized(label@),
{
    let chars = crate::text::chars_of(label);
    let mut out = String::new();
    let mut i: usize = 0;
    while i < chars.len()
        invariant
            i <= chars@.len(),
            chars@ == label@,
            out@ =~= sanitized(label@).take(i as int),
        decreases chars@.len() - i,
    {
        let c = chars[i];
        let keep = ('a' <= c && c <= 'z') || ('A' <= c && c <= 'Z') || ('0' <= c && c <= '9') || c == '-' || c
            == '_';
        out.push(if keep { c } else { '_' });
        i = i + 1;
    }
    assert(sanitized(label@).take(i as int) =~= sanitized(label@));
    out
}

// ---- Bytes -------------------------------------------------------------------

/// What `String::from_utf8` says against bytes that are no UTF-8.
pub uninterp spec fn utf8_complaint(bytes: Seq<u8>) -> Seq<char>;

/// The text of bytes, or what is said against them.
pub open spec fn utf8_text(bytes: Seq<u8>) -> Result<Seq<char>, Seq<char>> {
    if valid_utf8(bytes) {
        Ok(decode_utf8(bytes))
    } else {
        Err(utf8_complaint(bytes))
    }
}

/// `String::from_utf8`: the text of bytes that are UTF-8, and for others an error whose
/// text is a function of the bytes.
#[verifier::external_body]
fn text_from_utf8(bytes: Vec<u8>) -> (r: Result<String, String>)
    ensures
        r is Ok <==> valid_utf8(bytes@),
        r is Ok ==> r->Ok_0@ == decode_utf8(bytes@),
        r is Err ==> r->Err_0@ == utf8_complaint(bytes@),
{
    String::from_utf8(bytes).map_err(|e| e.to_string())
}

/// The source of a script, where reading it gave `read`.
pub open spec fn script_of(read: Result<Seq<u8>, VfsErrorView>) -> Result<Seq<char>, WorkflowErrorView> {
    match read {
        Err(e) => Err(WorkflowErrorView::Vfs(e)),
        Ok(bytes) => match utf8_text(bytes) {
            Ok(text) => Ok(text),
            Err(e) => Err(WorkflowErrorView::InvalidScript("workflow script is not UTF-8: "@ + e)),
        },
    }
}

/// What reading bytes as JSON gives: what the parser gives, and the value that was written
/// where the bytes are the indented text of one.
pub open spec fn reads_json(bytes: Seq<u8>, json: Result<JsonView, Seq<char>>) -> bool {
    &&& json == parsed_bytes(bytes)
    &&& forall|written: Form|
        plain(value_in(written@), parse_depth()) && is_pretty(#[trigger] written@, bytes) ==> json == Ok::<
            JsonView,
            Seq<char>,
        >(value_in(written@))
}

/// What reading bytes as JSON gives.
pub fn read_json(bytes: &Vec<u8>) -> (r: Result<Json, String>)
    ensures
        reads_json(bytes@, parse_view(r)),
{
    let r = parse_json_bytes(bytes.as_slice());
    assert forall|written: Form|
        plain(value_in(written@), parse_depth()) && is_pretty(#[trigger] written@, bytes@) implies parse_view(r) == Ok::<
        JsonView,
        Seq<char>,
    >(value_in(written@)) by {
        assert(gives(r, value_in(written@)));
    }
    r
}

/// The value that a parsed text stands for.
pub open spec fn decoded<T: Coded>(json: Result<JsonView, Seq<char>>) -> Result<T::V, WorkflowErrorView> {
    match json {
        Err(e) => Err(WorkflowErrorView::Serde(e)),
        Ok(json) => match T::dec(json) {
            Some(v) => Ok(v),
            None => Err(WorkflowErrorView::Serde(T::complaint(json))),
        },
    }
}

/// A value or its error, over views.
pub open spec fn coded_out<T: Coded>(r: Result<T, WorkflowError>) -> Result<T::V, WorkflowErrorView> {
    match r {
        Ok(x) => Ok(x@),
        Err(e) => Err(e@),
    }
}

/// The value that a parsed text stands for.
pub fn decode<T: Coded>(json: Result<Json, String>) -> (r: Result<T, WorkflowError>)
    ensures
        coded_out(r) == decoded::<T>(parse_view(json)),
{
    match json {
        Err(e) => Err(WorkflowError::Serde(e)),
        Ok(json) => match T::from_json(&json) {
            Ok(x) => Ok(x),
            Err(e) => Err(WorkflowError::Serde(e)),
        },
    }
}

/// Bytes are read as a value.
pub open spec fn bytes_give<T: Coded>(bytes: Seq<u8>, out: Result<T::V, WorkflowErrorView>) -> bool {
    exists|json: Result<JsonView, Seq<char>>| #[trigger] reads_json(bytes, json) && out == decoded::<T>(json)
}

/// A file is read as a value, where reading it gave `read`.
pub open spec fn file_gives<T: Coded>(
    read: Result<Seq<u8>, VfsErrorView>,
    out: Result<T::V, WorkflowErrorView>,
) -> bool {
    match read {
        Err(e) => out == Err::<T::V, WorkflowErrorView>(WorkflowErrorView::Vfs(e)),
        Ok(bytes) => bytes_give::<T>(bytes, out),
    }
}

/// What loading a value from a file may give.
pub open spec fn loads<V: VirtualFs, T: Coded>(
    vfs: V,
    path: Seq<char>,
    out: Result<T::V, WorkflowErrorView>,
) -> bool {
    exists|read: Result<Seq<u8>, VfsErrorView>| #[trigger] vfs.reads(path, read) && file_gives::<T>(read, out)
}

/// The outcome of a write.
pub open spec fn write_result(written: Result<(), VfsErrorView>) -> Result<(), WorkflowErrorView> {
    match written {
        Ok(()) => Ok(()),
        Err(e) => Err(WorkflowErrorView::Vfs(e)),
    }
}

/// What writing bytes may give.
pub open spec fn stores_bytes<V: VirtualFs>(
    before: V,
    path: Seq<char>,
    data: Seq<u8>,
    after: V,
    out: Result<(), WorkflowErrorView>,
) -> bool {
    exists|written: Result<(), VfsErrorView>| #[trigger]
        before.writes(path, data, after, written) && out == write_result(written)
}

/// Some form says `form`.
pub open spec fn is_some_form(form: FormView) -> bool {
    exists|f: Form| (#[trigger] f@) == form
}

/// What writing a form as indented JSON may give.
pub open spec fn stores_json<V: VirtualFs>(
    before: V,
    path: Seq<char>,
    form: FormView,
    after: V,
    out: Result<(), WorkflowErrorView>,
) -> bool {
    match pretty(form) {
        Err(e) => out == Err::<(), WorkflowErrorView>(WorkflowErrorView::Serde(e)) && after == before,
        Ok(data) => is_some_form(form) && stores_bytes(before, path, data, after, out),
    }
}

// ---- The store ---------------------------------------------------------------

/// Where workflow scripts, runs and results are kept.
pub struct WorkflowStore<V: VirtualFs> {
    vfs: V,
}

impl<V: VirtualFs> WorkflowStore<V> {
    /// The filesystem inside.
    pub closed spec fn fs(&self) -> V {
        self.vfs
    }

    /// Keeps everything in `vfs`.
    pub fn new(vfs: V) -> (r: Self)
        ensures
            r.fs() == vfs,
    {
        WorkflowStore { vfs }
    }

    /// The filesystem inside.
    pub fn vfs(&self) -> (r: &V)
        ensures
            *r == self.fs(),
    {
        &self.vfs
    }

    /// The filesystem inside, to be changed.
    pub fn vfs_mut(&mut self) -> (r: &mut V)
        ensures
            *r == old(self).fs(),
            final(self).fs() == *final(r),
    {
        &mut self.vfs
    }

    /// A path can be that of a script: it has the right extension, lies under one of the two
    /// script directories, and does not lead out of it.
    pub fn validate_script_path(path: &str) -> (r: Result<(), WorkflowError>)
        ensures
            path_check_out(r) == match script_path_complaint(path@) {
                Some(reason) => Err(bad_path(path@, reason)),
                None => Ok(()),
            },
    {
        if has_char(path, '\0') {
            return Err(path_error(path, "path contains NUL byte"));
        }
        if !ends_with(path, ".mjs") {
            return Err(path_error(path, "workflow scripts must use .mjs extension"));
        }
        if !starts_with(path, "/workflows/") && !starts_with(path, "/var/workflows/runs/") {
            return Err(
                path_error(path, "workflow path must be under /workflows/ or /var/workflows/runs/"),
            );
        }
        let segments = split(path, '/');
        if holds(&segments, "..") {
            return Err(path_error(path, "path traversal is not allowed"));
        }
        Ok(())
    }

    /// The path of the saved script `name`, which must be a single path segment.
    pub fn script_path_for_name(name: &str) -> (r: Result<String, WorkflowError>)
        ensures
            text_out(r) == if is_single_segment(name@) {
                Ok(saved_script_path(name@))
            } else {
                Err(bad_path(name@, "workflow name must be a single path segment"@))
            },
    {
        if name.is_empty() || has_char(name, '/') || has_char(name, '\\') || has_char(name, '\0') || *name == *"."
            || *name == *".." {
            return Err(path_error(name, "workflow name must be a single path segment"));
        }
        Ok(concat3("/workflows/", name, ".mjs"))
    }

    /// The path of the inline script of a run.
    pub fn inline_script_path(run_id: &str) -> (r: String)
        ensures
            r@ == inline_path(run_id@),
    {
        concat3("/var/workflows/runs/", run_id, "/workflow.mjs")
    }

    /// The directory of the results of a run.
    pub fn transcript_dir(run_id: &str) -> (r: String)
        ensures
            r@ == results_dir(run_id@),
    {
        concat3("/var/workflows/runs/", run_id, "/agents")
    }

    /// The path of a result of a run.
    pub fn result_path(run_id: &str, key: &str) -> (r: String)
        ensures
            r@ == agent_result_path(run_id@, key@),
    {
        let mut path = concat3(Self::transcript_dir(run_id).as_str(), "/", sanitize_label(key).as_str());
        path.append(".json");
        path
    }

    /// The path of the state of a run.
    pub fn state_path(run_id: &str) -> (r: String)
        ensures
            r@ == run_path(run_id@),
    {
        concat3("/var/workflows/runs/", run_id, "/state.json")
    }

    /// Keeps the source of an inline script, and gives its path.
    pub fn persist_inline_script(&mut self, run_id: &str, source: &str) -> (r: Result<String, WorkflowError>)
        requires
            old(self).fs().wf(),
        ensures
            final(self).fs().wf(),
            stores_bytes(
                old(self).fs(),
                inline_path(run_id@),
                encode_utf8(source@),
                final(self).fs(),
                match text_out(r) {
                    Ok(_) => Ok(()),
                    Err(e) => Err(e),
                },
            ),
            r is Ok ==> r->Ok_0@ == inline_path(run_id@),
    {
        let ghost before = self.vfs;
        let path = Self::inline_script_path(run_id);
        let written = self.vfs.write(path.as_str(), source.as_bytes());
        assert(before.writes(path@, encode_utf8(source@), self.vfs, unit_out(written)));
        match written {
            Ok(()) => Ok(path),
            Err(e) => Err(WorkflowError::Vfs(e)),
        }
    }

    /// What reading a script may give.
    pub open spec fn script_reads(&self, path: Seq<char>, out: Result<Seq<char>, WorkflowErrorView>) -> bool {
        match script_path_complaint(path) {
            Some(reason) => out == Err::<Seq<char>, WorkflowErrorView>(bad_path(path, reason)),
            None => self.source_reads(path, out),
        }
    }

    /// What reading a script at a valid path may give.
    pub open spec fn source_reads(&self, path: Seq<char>, out: Result<Seq<char>, WorkflowErrorView>) -> bool {
        exists|read: Result<Seq<u8>, VfsErrorView>| #[trigger] self.fs().reads(path, read) && out == script_of(read)
    }

    /// Reads a script.
    pub fn read_script(&self, path: &str) -> (r: Result<String, WorkflowError>)
        requires
            self.fs().wf(),
        ensures
            self.script_reads(path@, text_out(r)),
    {
        match Self::validate_script_path(path) {
            Err(e) => {
                return Err(e);
            },
            Ok(()) => {},
        }
        let read = self.vfs.read(path);
        assert(self.fs().reads(path@, bytes_out(read)));
        let r = match read {
            Err(e) => Err(WorkflowError::Vfs(e)),
            Ok(bytes) => match text_from_utf8(bytes) {
                Ok(text) => Ok(text),
                Err(e) => Err(
                    WorkflowError::InvalidScript(
                        crate::text::concat("workflow script is not UTF-8: ", e.as_str()),
                    ),
                ),
            },
        };
        assert(self.source_reads(path@, text_out(r)));
        r
    }

    /// A script with its path and description.
    pub fn load_script(&self, path: String, source: String, meta: WorkflowScriptMeta) -> (r: WorkflowScript)
        ensures
            r.path@ == path@,
            r.source@ == source@,
            r.meta@ == meta@,
    {
        WorkflowScript { path, source, meta }
    }

    fn save<T: Recorded>(&mut self, path: &str, value: &T) -> (r: Result<(), WorkflowError>)
        requires
            old(self).fs().wf(),
        ensures
            final(self).fs().wf(),
            stores_json(old(self).fs(), path@, T::form(value@), final(self).fs(), path_check_out(r)),
    {
        let ghost before = self.vfs;
        let form = value.to_form();
        assert(is_some_form(form@));
        match print_form_pretty(&form) {
            Err(e) => Err(WorkflowError::Serde(e)),
            Ok(data) => {
                let written = self.vfs.write(path, data.as_slice());
                assert(before.writes(path@, data@, self.vfs, unit_out(written)));
                match written {
                    Ok(()) => Ok(()),
                    Err(e) => Err(WorkflowError::Vfs(e)),
                }
            },
        }
    }

    fn load<T: Coded>(&self, path: &str) -> (r: Result<T, WorkflowError>)
        requires
            self.fs().wf(),
        ensures
            loads::<V, T>(self.fs(), path@, coded_out(r)),
    {
        let read = self.vfs.read(path);
        assert(self.fs().reads(path@, bytes_out(read)));
        match read {
            Err(e) => {
                let r: Result<T, WorkflowError> = Err(WorkflowError::Vfs(e));
                assert(file_gives::<T>(bytes_out(read), coded_out(r)));
                r
            },
            Ok(bytes) => {
                let json = read_json(&bytes);
                let ghost j = parse_view(json);
                assert(reads_json(bytes@, j));
                let r = decode::<T>(json);
                assert(bytes_give::<T>(bytes@, coded_out(r)));
                r
            },
        }
    }

    /// Keeps the state of a run.
    pub fn save_run(&mut self, run: &WorkflowRun) -> (r: Result<(), WorkflowError>)
        requires
            old(self).fs().wf(),
        ensures
            final(self).fs().wf(),
            stores_json(
                old(self).fs(),
                run_path(run@.run_id),
                WorkflowRun::form(run@),
                final(self).fs(),
                path_check_out(r),
            ),
    {
        self.save(Self::state_path(run.run_id.as_str()).as_str(), run)
    }

    /// The state of a run.
    pub fn read_run(&self, run_id: &str) -> (r: Result<WorkflowRun, WorkflowError>)
        requires
            self.fs().wf(),
        ensures
            loads::<V, WorkflowRun>(self.fs(), run_path(run_id@), coded_out(r)),
    {
        self.load(Self::state_path(run_id).as_str())
    }

    /// Keeps a result of a run.
    pub fn save_agent_result(&mut self, run_id: &str, result: &WorkflowAgentResult) -> (r: Result<
        (),
        WorkflowError,
    >)
        requires
            old(self).fs().wf(),
        ensures
            final(self).fs().wf(),
            stores_json(
                old(self).fs(),
                agent_result_path(run_id@, result@.key),
                WorkflowAgentResult::form(result@),
                final(self).fs(),
                path_check_out(r),
            ),
    {
        self.save(Self::result_path(run_id, result.key.as_str()).as_str(), result)
    }

    /// A result of a run.
    pub fn read_agent_result(&self, run_id: &str, key: &str) -> (r: Result<WorkflowAgentResult, WorkflowError>)
        requires
            self.fs().wf(),
        ensures
            loads::<V, WorkflowAgentResult>(self.fs(), agent_result_path(run_id@, key@), coded_out(r)),
    {
        self.load(Self::result_path(run_id, key).as_str())
    }
}

} // verus!
