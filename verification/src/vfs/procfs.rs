//! Agent virtual process filesystem (`/proc`).
//!
//! [`ProcFs`] serves the state of an agent as virtual files under `/proc`, and hands all
//! other paths and all of `/proc/mailbox` to the filesystem inside. Every value is
//! computed when it is read; nothing under `/proc` but the mailbox can be changed.
use crate::path::{is_under, normalize, normalized, trim_slashes, under, without_trailing_slashes};
use crate::text::{after_slash, ascending, before, before_slash, copy, decimal, join, join_with, lemma_ascending, lemma_before_at, number, opt_text, split_once, strip_prefix, texts, wide_number};
use crate::types::budget::{cost_text, ResourceBudget};
use crate::types::capability::{CapabilityToken, TokenView};
use crate::types::vfs::{bytes_out, directory, metadata_out, names_out, FsMetadata, VfsError, VfsErrorView, VfsSnapshot, VirtualFs};
use crate::vfs::synthetic::{found, found_text, is_read_only, is_sorted_copy, read_only_error, sized, sorted_listing};
use vstd::prelude::*;
use vstd::string::*;

verus! {

broadcast use vstd::seq_lib::group_seq_properties;

// ---- Where the values come from ----------------------------------------------

/// Provides tool names and compact-JSON definitions for `/proc/tools/`.
pub trait ToolLister: Sized {
    /// All tool names, in any order.
    fn tool_names(&self) -> (r: Vec<String>);

    /// Compact JSON object for the given tool, or `None` if not found.
    fn tool_json(&self, name: &str) -> (r: Option<String>);
}

/// Provides hook names per operation type for `/proc/hooks/`.
pub trait HookLister: Sized {
    /// Hook names registered for `operation` (e.g. `"tool_call"`), in order.
    fn hook_names(&self, operation: &str) -> (r: Vec<String>);
}

/// The lister may answer `r` when it is asked for all tool names.
pub open spec fn tool_names_are<T: ToolLister>(tools: T, r: Seq<Seq<char>>) -> bool {
    exists|v: Vec<String>| r == texts(v@) && #[trigger] call_ensures(T::tool_names, (&tools,), v)
}

/// The lister may answer `r` when it is asked for the definition of a tool.
pub open spec fn tool_json_is<T: ToolLister>(tools: T, name: Seq<char>, r: Option<Seq<char>>) -> bool {
    exists|n: &str, v: Option<String>|
        n@ == name && r == opt_text(v) && #[trigger] call_ensures(T::tool_json, (&tools, n), v)
}

/// The lister may answer `r` when it is asked for the hooks of an operation.
pub open spec fn hook_names_are<H: HookLister>(hooks: H, operation: Seq<char>, r: Seq<Seq<char>>) -> bool {
    exists|n: &str, v: Vec<String>|
        n@ == operation && r == texts(v@) && #[trigger] call_ensures(H::hook_names, (&hooks, n), v)
}

fn ask_tool_names<T: ToolLister>(tools: &T) -> (r: Vec<String>)
    ensures
        tool_names_are(*tools, texts(r@)),
{
    tools.tool_names()
}

fn ask_tool_json<T: ToolLister>(tools: &T, name: &str) -> (r: Option<String>)
    ensures
        tool_json_is(*tools, name@, opt_text(r)),
{
    tools.tool_json(name)
}

fn ask_hook_names<H: HookLister>(hooks: &H, operation: &str) -> (r: Vec<String>)
    ensures
        hook_names_are(*hooks, operation@, texts(r@)),
{
    hooks.hook_names(operation)
}

/// `std::time::Instant`: a point in time.
#[verifier::external_type_specification]
#[verifier::external_body]
pub struct ExInstant(std::time::Instant);

/// `std::time::Instant::elapsed`, in milliseconds. Nothing is claimed of the time that
/// has passed.
#[verifier::external_body]
fn elapsed_ms(start: &std::time::Instant) -> (ms: u128) {
    start.elapsed().as_millis()
}

/// All the live runtime state that `/proc` files expose.
pub struct ProcState<T: ToolLister, H: HookLister> {
    pub agent_id: String,
    pub agent_name: String,
    pub model: String,
    pub parent_id: Option<String>,
    pub budget: ResourceBudget,
    pub capabilities: CapabilityToken,
    pub tools: T,
    pub session_id: String,
    pub session_start: std::time::Instant,
    pub journal_entries: u64,
    pub hooks: H,
    pub turn: u64,
}

// ---- Paths -------------------------------------------------------------------

/// The path is `/proc` or lies under it.
pub open spec fn is_proc_path(path: Seq<char>) -> bool {
    under(path, "/proc"@)
}

/// The path is `/proc/mailbox` or lies under it.
pub open spec fn is_mailbox_path(path: Seq<char>) -> bool {
    under(path, "/proc/mailbox"@)
}

/// What follows `/proc/`, without slashes at the end.
pub open spec fn proc_path(path: Seq<char>) -> Option<Seq<char>> {
    let trimmed = trim_slashes(path);
    if trimmed == "/proc"@ {
        None
    } else if "/proc/"@.is_prefix_of(trimmed) {
        Some(trimmed.skip("/proc/"@.len() as int))
    } else {
        None
    }
}

/// Returns `true` if `path` is under `/proc/` (or exactly `/proc`).
fn is_proc(path: &str) -> (r: bool)
    ensures
        r == is_proc_path(path@),
{
    is_under(path, "/proc")
}

/// Returns `true` if `path` is under `/proc/mailbox/` (or exactly `/proc/mailbox`).
fn is_mailbox(path: &str) -> (r: bool)
    ensures
        r == is_mailbox_path(path@),
{
    is_under(path, "/proc/mailbox")
}

/// Strip the `/proc/` prefix and return the remainder, with any trailing slash removed.
/// Returns `None` if the path is exactly `/proc` or `/proc/`.
fn proc_tail(path: &str) -> (r: Option<String>)
    ensures
        opt_text(r) == proc_path(path@),
{
    let trimmed = without_trailing_slashes(path);
    if *trimmed.as_str() == *"/proc" {
        return None;
    }
    match strip_prefix(trimmed.as_str(), "/proc/") {
        Some(tail) => Some(copy(tail)),
        None => None,
    }
}

/// What kind of state a path is about, where the path is one of the state and not one of the
/// mailbox: the first name behind `/proc`, and `proc` for the directory itself.
pub open spec fn category_of(path: Seq<char>) -> Option<Seq<char>> {
    let path = normalized(path);
    if is_mailbox_path(path) || !is_proc_path(path) {
        None
    } else {
        match proc_path(path) {
            Some(tail) => Some(before_slash(tail)),
            None => Some("proc"@),
        }
    }
}

/// What kind of state a path is about, where it is about the state.
pub fn proc_category(path: &str) -> (r: Option<String>)
    ensures
        opt_text(r) == category_of(path@),
{
    let path = normalize(path);
    if is_mailbox(path.as_str()) || !is_proc(path.as_str()) {
        return None;
    }
    match proc_tail(path.as_str()) {
        Some(tail) => Some(split_once(tail.as_str()).0),
        None => Some(copy("proc")),
    }
}

// ---- Values ------------------------------------------------------------------

/// What is left of a limit. Nothing is left of no limit.
pub open spec fn remaining(max: nat, used: nat) -> nat {
    if max > used {
        (max - used) as nat
    } else {
        0
    }
}

/// The value of a file in `/proc/budget`.
pub open spec fn budget_text(b: ResourceBudget, name: Seq<char>) -> Option<Seq<char>> {
    if name == "max_tokens"@ {
        Some(decimal(b.max_tokens as nat))
    } else if name == "used_tokens"@ {
        Some(decimal(b.used_tokens as nat))
    } else if name == "remaining_tokens"@ {
        Some(decimal(remaining(b.max_tokens as nat, b.used_tokens as nat)))
    } else if name == "max_turns"@ {
        Some(decimal(b.max_turns as nat))
    } else if name == "used_turns"@ {
        Some(decimal(b.used_turns as nat))
    } else if name == "remaining_turns"@ {
        Some(decimal(remaining(b.max_turns as nat, b.used_turns as nat)))
    } else if name == "max_fuel"@ {
        Some(decimal(b.max_fuel as nat))
    } else if name == "used_fuel"@ {
        Some(decimal(b.used_fuel as nat))
    } else if name == "max_cost"@ {
        Some(cost_text(b.max_cost.units(), b.max_cost.places(), 2))
    } else if name == "used_cost"@ {
        Some(cost_text(b.used_cost.units(), b.used_cost.places(), 2))
    } else {
        None
    }
}

/// The value of a file in `/proc/budget`.
pub fn budget_value(b: &ResourceBudget, name: &str) -> (r: Option<String>)
    ensures
        opt_text(r) == budget_text(*b, name@),
{
    if *name == *"max_tokens" {
        Some(number(b.max_tokens))
    } else if *name == *"used_tokens" {
        Some(number(b.used_tokens))
    } else if *name == *"remaining_tokens" {
        Some(number(if b.max_tokens > b.used_tokens { b.max_tokens - b.used_tokens } else { 0 }))
    } else if *name == *"max_turns" {
        Some(number(b.max_turns as u64))
    } else if *name == *"used_turns" {
        Some(number(b.used_turns as u64))
    } else if *name == *"remaining_turns" {
        Some(number(if b.max_turns > b.used_turns { (b.max_turns - b.used_turns) as u64 } else { 0 }))
    } else if *name == *"max_fuel" {
        Some(number(b.max_fuel))
    } else if *name == *"used_fuel" {
        Some(number(b.used_fuel))
    } else if *name == *"max_cost" {
        Some(b.max_cost.to_fixed(2))
    } else if *name == *"used_cost" {
        Some(b.used_cost.to_fixed(2))
    } else {
        None
    }
}

/// `true` or `false`.
pub open spec fn flag_text(flag: bool) -> Seq<char> {
    if flag {
        "true"@
    } else {
        "false"@
    }
}

fn flag_value(flag: bool) -> (r: String)
    ensures
        r@ == flag_text(flag),
{
    copy(if flag { "true" } else { "false" })
}

/// The value of a file in `/proc/capabilities`.
pub open spec fn capability_text(c: TokenView, name: Seq<char>) -> Option<Seq<char>> {
    if name == "shell"@ {
        Some(flag_text(c.shell))
    } else if name == "javascript"@ {
        Some(flag_text(c.javascript))
    } else if name == "python"@ {
        Some(flag_text(c.python))
    } else if name == "network"@ {
        Some(join_with(c.network, '\n'))
    } else if name == "mcp_tools"@ {
        Some(join_with(c.mcp_tools, '\n'))
    } else if name == "paths_read"@ {
        Some(join_with(c.paths_read, '\n'))
    } else if name == "paths_write"@ {
        Some(join_with(c.paths_write, '\n'))
    } else {
        None
    }
}

/// The value of a file in `/proc/capabilities`.
pub fn capabilities_value(c: &CapabilityToken, name: &str) -> (r: Option<String>)
    ensures
        opt_text(r) == capability_text(c@, name@),
{
    if *name == *"shell" {
        Some(flag_value(c.shell))
    } else if *name == *"javascript" {
        Some(flag_value(c.javascript))
    } else if *name == *"python" {
        Some(flag_value(c.python))
    } else if *name == *"network" {
        Some(join(&c.network, '\n'))
    } else if *name == *"mcp_tools" {
        Some(join(&c.mcp_tools, '\n'))
    } else if *name == *"paths_read" {
        Some(join(&c.paths_read, '\n'))
    } else if *name == *"paths_write" {
        Some(join(&c.paths_write, '\n'))
    } else {
        None
    }
}

/// Some number in base ten.
pub open spec fn is_some_number(value: Option<Seq<char>>) -> bool {
    exists|n: nat| value == Some(#[trigger] decimal(n))
}

/// What a file in `/proc/session` may hold. Of the time that has passed only that it is
/// a number is said.
pub open spec fn session_gives<T: ToolLister, H: HookLister>(
    state: ProcState<T, H>,
    name: Seq<char>,
    value: Option<Seq<char>>,
) -> bool {
    if name == "id"@ {
        value == Some(state.session_id@)
    } else if name == "uptime_ms"@ {
        is_some_number(value)
    } else if name == "journal_entries"@ {
        value == Some(decimal(state.journal_entries as nat))
    } else {
        value is None
    }
}

fn session_value<T: ToolLister, H: HookLister>(state: &ProcState<T, H>, name: &str) -> (r: Option<String>)
    ensures
        session_gives(*state, name@, opt_text(r)),
{
    if *name == *"id" {
        Some(copy(state.session_id.as_str()))
    } else if *name == *"uptime_ms" {
        let ms: u128 = elapsed_ms(&state.session_start);
        let text = wide_number(ms);
        assert(text@ == decimal(ms as nat));
        Some(text)
    } else if *name == *"journal_entries" {
        Some(number(state.journal_entries))
    } else {
        None
    }
}

/// The value of a file in `/proc/agent`.
pub open spec fn agent_text<T: ToolLister, H: HookLister>(state: ProcState<T, H>, name: Seq<char>) -> Option<
    Seq<char>,
> {
    if name == "id"@ {
        Some(state.agent_id@)
    } else if name == "name"@ {
        Some(state.agent_name@)
    } else if name == "model"@ {
        Some(state.model@)
    } else if name == "turn"@ {
        Some(decimal(state.turn as nat))
    } else if name == "parent_id"@ {
        match state.parent_id {
            Some(id) => Some(id@),
            None => Some(Seq::empty()),
        }
    } else {
        None
    }
}

fn agent_value<T: ToolLister, H: HookLister>(state: &ProcState<T, H>, name: &str) -> (r: Option<String>)
    ensures
        opt_text(r) == agent_text(*state, name@),
{
    if *name == *"id" {
        Some(copy(state.agent_id.as_str()))
    } else if *name == *"name" {
        Some(copy(state.agent_name.as_str()))
    } else if *name == *"model" {
        Some(copy(state.model.as_str()))
    } else if *name == *"turn" {
        Some(number(state.turn))
    } else if *name == *"parent_id" {
        match &state.parent_id {
            Some(id) => Some(copy(id.as_str())),
            None => {
                let none = String::new();
                assert(none@ =~= Seq::empty());
                Some(none)
            },
        }
    } else {
        None
    }
}

/// An operation that hooks can be registered for.
pub open spec fn is_hook_operation(name: Seq<char>) -> bool {
    name == "tool_call"@ || name == "llm"@ || name == "spawn"@ || name == "http_request"@
}

/// What a file in `/proc/hooks` may hold: one hook name per line.
pub open spec fn hooks_give<H: HookLister>(hooks: H, name: Seq<char>, value: Option<Seq<char>>) -> bool {
    if is_hook_operation(name) {
        exists|names: Seq<Seq<char>>| #[trigger]
            hook_names_are(hooks, name, names) && value == Some(join_with(names, '\n'))
    } else {
        value is None
    }
}

fn hooks_value<H: HookLister>(hooks: &H, name: &str) -> (r: Option<String>)
    ensures
        hooks_give(*hooks, name@, opt_text(r)),
{
    if *name == *"tool_call" || *name == *"llm" || *name == *"spawn" || *name == *"http_request" {
        let names = ask_hook_names(hooks, name);
        Some(join(&names, '\n'))
    } else {
        None
    }
}

// ---- Reading, listing, describing --------------------------------------------

/// The directories of `/proc` that hold values.
pub open spec fn is_proc_dir(name: Seq<char>) -> bool {
    name == "agent"@ || name == "budget"@ || name == "capabilities"@ || name == "tools"@ || name == "session"@
        || name == "hooks"@
}

/// What the file `name` of a directory of `/proc` may hold.
pub open spec fn proc_gives<T: ToolLister, H: HookLister>(
    state: ProcState<T, H>,
    dir: Seq<char>,
    name: Seq<char>,
    value: Option<Seq<char>>,
) -> bool {
    if dir == "agent"@ {
        value == agent_text(state, name)
    } else if dir == "budget"@ {
        value == budget_text(state.budget, name)
    } else if dir == "capabilities"@ {
        value == capability_text(state.capabilities@, name)
    } else if dir == "tools"@ {
        tool_json_is(state.tools, name, value)
    } else if dir == "session"@ {
        session_gives(state, name, value)
    } else {
        hooks_give(state.hooks, name, value)
    }
}

/// What reading a path that names a file of a directory of `/proc` may give.
pub open spec fn proc_file_reads<T: ToolLister, H: HookLister>(
    state: ProcState<T, H>,
    path: Seq<char>,
    dir: Seq<char>,
    name: Seq<char>,
    out: Result<Seq<u8>, VfsErrorView>,
) -> bool {
    exists|value: Option<Seq<char>>| #[trigger] proc_gives(state, dir, name, value) && out == found(path, value)
}

/// What reading a path under `/proc` may give.
pub open spec fn proc_reads<T: ToolLister, H: HookLister>(
    state: ProcState<T, H>,
    path: Seq<char>,
    out: Result<Seq<u8>, VfsErrorView>,
) -> bool {
    match proc_path(path) {
        None => out == Err::<Seq<u8>, VfsErrorView>(VfsErrorView::NotAFile(path)),
        Some(tail) => if !is_proc_dir(before_slash(tail)) {
            out == Err::<Seq<u8>, VfsErrorView>(VfsErrorView::NotFound(path))
        } else {
            match after_slash(tail) {
                None => out == Err::<Seq<u8>, VfsErrorView>(VfsErrorView::NotAFile(path)),
                Some(name) => proc_file_reads(state, path, before_slash(tail), name, out),
            }
        },
    }
}

fn proc_value<T: ToolLister, H: HookLister>(state: &ProcState<T, H>, dir: &str, name: &str) -> (r: Option<String>)
    requires
        is_proc_dir(dir@),
    ensures
        proc_gives(*state, dir@, name@, opt_text(r)),
{
    if *dir == *"agent" {
        agent_value(state, name)
    } else if *dir == *"budget" {
        budget_value(&state.budget, name)
    } else if *dir == *"capabilities" {
        capabilities_value(&state.capabilities, name)
    } else if *dir == *"tools" {
        ask_tool_json(&state.tools, name)
    } else if *dir == *"session" {
        session_value(state, name)
    } else {
        hooks_value(&state.hooks, name)
    }
}

fn is_value_dir(name: &str) -> (r: bool)
    ensures
        r == is_proc_dir(name@),
{
    *name == *"agent" || *name == *"budget" || *name == *"capabilities" || *name == *"tools" || *name == *"session"
        || *name == *"hooks"
}

fn proc_read<T: ToolLister, H: HookLister>(state: &ProcState<T, H>, path: &str) -> (r: Result<Vec<u8>, VfsError>)
    ensures
        proc_reads(*state, path@, bytes_out(r)),
{
    let tail = match proc_tail(path) {
        None => {
            return Err(VfsError::NotAFile(copy(path)));
        },
        Some(tail) => tail,
    };
    let (dir, name) = split_once(tail.as_str());
    if !is_value_dir(dir.as_str()) {
        return Err(VfsError::NotFound(copy(path)));
    }
    match name {
        None => Err(VfsError::NotAFile(copy(path))),
        Some(name) => {
            let value = proc_value(state, dir.as_str(), name.as_str());
            let ghost v = opt_text(value);
            let r = found_text(path, value);
            assert(proc_gives(*state, dir@, name@, v));
            assert(proc_file_reads(*state, path@, dir@, name@, bytes_out(r)));
            r
        },
    }
}

/// The entries of a directory of `/proc`, but for `/proc/tools`.
pub open spec fn proc_entries(tail: Option<Seq<char>>) -> Option<Seq<Seq<char>>> {
    match tail {
        None => Some(
            seq!["agent"@, "budget"@, "capabilities"@, "hooks"@, "mailbox"@, "session"@, "tools"@],
        ),
        Some(dir) => if dir == "agent"@ {
            Some(seq!["id"@, "model"@, "name"@, "parent_id"@, "turn"@])
        } else if dir == "budget"@ {
            Some(
                seq![
                    "max_cost"@,
                    "max_fuel"@,
                    "max_tokens"@,
                    "max_turns"@,
                    "remaining_tokens"@,
                    "remaining_turns"@,
                    "used_cost"@,
                    "used_fuel"@,
                    "used_tokens"@,
                    "used_turns"@,
                ],
            )
        } else if dir == "capabilities"@ {
            Some(
                seq!["javascript"@, "mcp_tools"@, "network"@, "paths_read"@, "paths_write"@, "python"@, "shell"@],
            )
        } else if dir == "session"@ {
            Some(seq!["id"@, "journal_entries"@, "uptime_ms"@])
        } else if dir == "hooks"@ {
            Some(seq!["http_request"@, "llm"@, "spawn"@, "tool_call"@])
        } else {
            None
        },
    }
}

/// What listing a path under `/proc` may give.
pub open spec fn proc_lists<T: ToolLister, H: HookLister>(
    state: ProcState<T, H>,
    path: Seq<char>,
    out: Result<Seq<Seq<char>>, VfsErrorView>,
) -> bool {
    if proc_path(path) == Some("tools"@) {
        exists|names: Seq<Seq<char>>| #[trigger] tool_names_are(state.tools, names) && is_sorted_copy(names, out)
    } else {
        match proc_entries(proc_path(path)) {
            Some(names) => out == Ok::<Seq<Seq<char>>, VfsErrorView>(names),
            None => out == Err::<Seq<Seq<char>>, VfsErrorView>(VfsErrorView::NotFound(path)),
        }
    }
}

/// The entries of a directory of `/proc`, but for `/proc/tools`.
pub fn proc_entry_names(tail: Option<&str>) -> (r: Option<Vec<String>>)
    ensures
        match r {
            Some(names) => proc_entries(
                match tail {
                    Some(t) => Some(t@),
                    None => None,
                },
            ) == Some(texts(names@)),
            None => proc_entries(
                match tail {
                    Some(t) => Some(t@),
                    None => None,
                },
            ) is None,
        },
{
    let names = match tail {
        None => vec![
            copy("agent"),
            copy("budget"),
            copy("capabilities"),
            copy("hooks"),
            copy("mailbox"),
            copy("session"),
            copy("tools"),
        ],
        Some(dir) => if *dir == *"agent" {
            vec![copy("id"), copy("model"), copy("name"), copy("parent_id"), copy("turn")]
        } else if *dir == *"budget" {
            vec![
                copy("max_cost"),
                copy("max_fuel"),
                copy("max_tokens"),
                copy("max_turns"),
                copy("remaining_tokens"),
                copy("remaining_turns"),
                copy("used_cost"),
                copy("used_fuel"),
                copy("used_tokens"),
                copy("used_turns"),
            ]
        } else if *dir == *"capabilities" {
            vec![
                copy("javascript"),
                copy("mcp_tools"),
                copy("network"),
                copy("paths_read"),
                copy("paths_write"),
                copy("python"),
                copy("shell"),
            ]
        } else if *dir == *"session" {
            vec![copy("id"), copy("journal_entries"), copy("uptime_ms")]
        } else if *dir == *"hooks" {
            vec![copy("http_request"), copy("llm"), copy("spawn"), copy("tool_call")]
        } else {
            return None;
        },
    };
    proof {
        let entries = proc_entries(
            match tail {
                Some(t) => Some(t@),
                None => None,
            },
        );
        assert(texts(names@) =~= entries->0);
    }
    Some(names)
}

fn proc_list_dir<T: ToolLister, H: HookLister>(state: &ProcState<T, H>, path: &str) -> (r: Result<
    Vec<String>,
    VfsError,
>)
    ensures
        proc_lists(*state, path@, names_out(r)),
{
    let names = match proc_tail(path) {
        None => proc_entry_names(None),
        Some(tail) => {
            if *tail.as_str() == *"tools" {
                return sorted_listing(ask_tool_names(&state.tools));
            }
            proc_entry_names(Some(tail.as_str()))
        },
    };
    match names {
        Some(names) => Ok(names),
        None => Err(VfsError::NotFound(copy(path))),
    }
}

/// What the metadata of a path under `/proc` may be.
pub open spec fn proc_describes<T: ToolLister, H: HookLister>(
    state: ProcState<T, H>,
    path: Seq<char>,
    out: Result<FsMetadata, VfsErrorView>,
) -> bool {
    if trim_slashes(path) == "/proc"@ || (proc_path(path) is Some && (is_proc_dir(proc_path(path)->0) || proc_path(
        path,
    ) == Some("mailbox"@))) {
        out == Ok::<FsMetadata, VfsErrorView>(directory())
    } else {
        exists|bytes: Result<Seq<u8>, VfsErrorView>| #[trigger]
            proc_reads(state, path, bytes) && out == sized(bytes)
    }
}

fn proc_metadata<T: ToolLister, H: HookLister>(state: &ProcState<T, H>, path: &str) -> (r: Result<
    FsMetadata,
    VfsError,
>)
    ensures
        proc_describes(*state, path@, metadata_out(r)),
{
    if *without_trailing_slashes(path).as_str() == *"/proc" {
        return Ok(FsMetadata::dir());
    }
    match proc_tail(path) {
        Some(tail) => {
            if is_value_dir(tail.as_str()) || *tail.as_str() == *"mailbox" {
                return Ok(FsMetadata::dir());
            }
        },
        None => {},
    }
    let bytes = proc_read(state, path);
    assert(proc_reads(*state, path@, bytes_out(bytes)));
    match bytes {
        Ok(data) => Ok(FsMetadata::file(data.len())),
        Err(e) => Err(e),
    }
}

/// Whether a path under `/proc` may exist.
pub open spec fn proc_has<T: ToolLister, H: HookLister>(
    state: ProcState<T, H>,
    path: Seq<char>,
    out: bool,
) -> bool {
    exists|m: Result<FsMetadata, VfsErrorView>| #[trigger] proc_describes(state, path, m) && out == (m is Ok)
}

fn proc_exists<T: ToolLister, H: HookLister>(state: &ProcState<T, H>, path: &str) -> (r: bool)
    ensures
        proc_has(*state, path@, r),
{
    let metadata = proc_metadata(state, path);
    assert(proc_describes(*state, path@, metadata_out(metadata)));
    metadata.is_ok()
}

// ---- The filesystem ----------------------------------------------------------

/// A [`VirtualFs`] layer that adds a virtual `/proc` directory.
pub struct ProcFs<V: VirtualFs, T: ToolLister, H: HookLister> {
    inner: V,
    state: ProcState<T, H>,
}

/// The path is served from the state of the agent.
pub open spec fn is_state_path(path: Seq<char>) -> bool {
    is_proc_path(path) && !is_mailbox_path(path)
}

/// A directory that is not there lists as empty.
pub open spec fn empty_if_missing(r: Result<Seq<Seq<char>>, VfsErrorView>) -> Result<
    Seq<Seq<char>>,
    VfsErrorView,
> {
    match r {
        Err(VfsErrorView::NotFound(_)) => Ok(Seq::empty()),
        _ => r,
    }
}

impl<V: VirtualFs, T: ToolLister, H: HookLister> ProcFs<V, T, H> {
    /// The filesystem inside.
    pub closed spec fn inner_fs(&self) -> V {
        self.inner
    }

    /// The state that `/proc` shows.
    pub closed spec fn proc_state(&self) -> ProcState<T, H> {
        self.state
    }

    /// Wrap `inner` with a `/proc` layer backed by `state`.
    pub fn new(inner: V, state: ProcState<T, H>) -> (r: Self)
        requires
            inner.wf(),
        ensures
            r.wf(),
            r.inner_fs() == inner,
            r.proc_state() == state,
    {
        ProcFs { inner, state }
    }

    /// The filesystem inside.
    pub fn inner(&self) -> (r: &V)
        ensures
            *r == self.inner_fs(),
    {
        &self.inner
    }

    /// The state that `/proc` shows, to be changed as the agent goes on.
    pub fn state_mut(&mut self) -> (r: &mut ProcState<T, H>)
        ensures
            *r == old(self).proc_state(),
            final(self).proc_state() == *final(r),
            final(self).inner_fs() == old(self).inner_fs(),
            old(self).wf() ==> final(self).wf(),
    {
        &mut self.state
    }

    /// Denied, and nothing happened.
    pub open spec fn denied(&self, path: Seq<char>, after: Self, out: Result<(), VfsErrorView>) -> bool {
        &&& out == Err::<(), VfsErrorView>(is_read_only(path))
        &&& after.inner_fs() == self.inner_fs()
    }
}

impl<V: VirtualFs, T: ToolLister, H: HookLister> VirtualFs for ProcFs<V, T, H> {
    closed spec fn wf(&self) -> bool {
        self.inner.wf()
    }

    open spec fn reads(&self, path: Seq<char>, out: Result<Seq<u8>, VfsErrorView>) -> bool {
        if is_state_path(normalized(path)) {
            proc_reads(self.proc_state(), normalized(path), out)
        } else {
            self.inner_fs().reads(normalized(path), out)
        }
    }

    open spec fn writes(
        &self,
        path: Seq<char>,
        data: Seq<u8>,
        after: Self,
        out: Result<(), VfsErrorView>,
    ) -> bool {
        &&& after.proc_state() == self.proc_state()
        &&& if is_state_path(normalized(path)) {
            self.denied(normalized(path), after, out)
        } else {
            self.inner_fs().writes(normalized(path), data, after.inner_fs(), out)
        }
    }

    open spec fn has(&self, path: Seq<char>, out: bool) -> bool {
        if is_state_path(normalized(path)) {
            proc_has(self.proc_state(), normalized(path), out)
        } else {
            self.inner_fs().has(normalized(path), out)
        }
    }

    open spec fn lists(&self, path: Seq<char>, out: Result<Seq<Seq<char>>, VfsErrorView>) -> bool {
        if is_state_path(normalized(path)) {
            proc_lists(self.proc_state(), normalized(path), out)
        } else if is_mailbox_path(normalized(path)) {
            exists|r: Result<Seq<Seq<char>>, VfsErrorView>| #[trigger]
                self.inner_fs().lists(normalized(path), r) && out == empty_if_missing(r)
        } else {
            self.inner_fs().lists(normalized(path), out)
        }
    }

    open spec fn makes_dir(&self, path: Seq<char>, after: Self, out: Result<(), VfsErrorView>) -> bool {
        &&& after.proc_state() == self.proc_state()
        &&& if is_state_path(normalized(path)) {
            self.denied(normalized(path), after, out)
        } else {
            self.inner_fs().makes_dir(normalized(path), after.inner_fs(), out)
        }
    }

    open spec fn removes(&self, path: Seq<char>, after: Self, out: Result<(), VfsErrorView>) -> bool {
        &&& after.proc_state() == self.proc_state()
        &&& if is_state_path(normalized(path)) {
            self.denied(normalized(path), after, out)
        } else {
            self.inner_fs().removes(normalized(path), after.inner_fs(), out)
        }
    }

    open spec fn describes(&self, path: Seq<char>, out: Result<FsMetadata, VfsErrorView>) -> bool {
        if is_state_path(normalized(path)) {
            proc_describes(self.proc_state(), normalized(path), out)
        } else {
            self.inner_fs().describes(normalized(path), out)
        }
    }

    open spec fn saves(&self, out: Result<Seq<u8>, VfsErrorView>) -> bool {
        self.inner_fs().saves(out)
    }

    open spec fn restores(&self, data: Seq<u8>, after: Self, out: Result<(), VfsErrorView>) -> bool {
        after.proc_state() == self.proc_state() && self.inner_fs().restores(data, after.inner_fs(), out)
    }

    fn read(&self, path: &str) -> (r: Result<Vec<u8>, VfsError>) {
        let path = normalize(path);
        if is_mailbox(path.as_str()) {
            return self.inner.read(path.as_str());
        }
        if is_proc(path.as_str()) {
            return proc_read(&self.state, path.as_str());
        }
        self.inner.read(path.as_str())
    }

    fn write(&mut self, path: &str, data: &[u8]) -> (r: Result<(), VfsError>) {
        let path = normalize(path);
        if is_mailbox(path.as_str()) {
            return self.inner.write(path.as_str(), data);
        }
        if is_proc(path.as_str()) {
            return Err(read_only_error(path.as_str()));
        }
        self.inner.write(path.as_str(), data)
    }

    fn entry_exists(&self, path: &str) -> (r: bool) {
        let path = normalize(path);
        if is_mailbox(path.as_str()) {
            return self.inner.entry_exists(path.as_str());
        }
        if is_proc(path.as_str()) {
            return proc_exists(&self.state, path.as_str());
        }
        self.inner.entry_exists(path.as_str())
    }

    fn list_dir(&self, path: &str) -> (r: Result<Vec<String>, VfsError>) {
        let path = normalize(path);
        if is_mailbox(path.as_str()) {
            let listing = self.inner.list_dir(path.as_str());
            assert(self.inner_fs().lists(path@, names_out(listing)));
            return match listing {
                Err(VfsError::NotFound(_)) => {
                    let none: Vec<String> = Vec::new();
                    assert(texts(none@) =~= Seq::empty());
                    Ok(none)
                },
                _ => listing,
            };
        }
        if is_proc(path.as_str()) {
            return proc_list_dir(&self.state, path.as_str());
        }
        self.inner.list_dir(path.as_str())
    }

    fn mkdir(&mut self, path: &str) -> (r: Result<(), VfsError>) {
        let path = normalize(path);
        if is_mailbox(path.as_str()) {
            return self.inner.mkdir(path.as_str());
        }
        if is_proc(path.as_str()) {
            return Err(read_only_error(path.as_str()));
        }
        self.inner.mkdir(path.as_str())
    }

    fn remove(&mut self, path: &str) -> (r: Result<(), VfsError>) {
        let path = normalize(path);
        if is_mailbox(path.as_str()) {
            return self.inner.remove(path.as_str());
        }
        if is_proc(path.as_str()) {
            return Err(read_only_error(path.as_str()));
        }
        self.inner.remove(path.as_str())
    }

    fn metadata(&self, path: &str) -> (r: Result<FsMetadata, VfsError>) {
        let path = normalize(path);
        if is_mailbox(path.as_str()) {
            return self.inner.metadata(path.as_str());
        }
        if is_proc(path.as_str()) {
            return proc_metadata(&self.state, path.as_str());
        }
        self.inner.metadata(path.as_str())
    }

    fn snapshot(&self) -> (r: Result<VfsSnapshot, VfsError>) {
        self.inner.snapshot()
    }

    fn restore(&mut self, snapshot: &VfsSnapshot) -> (r: Result<(), VfsError>) {
        self.inner.restore(snapshot)
    }
}

// ---- Laws --------------------------------------------------------------------

/// Nothing under `/proc` but the mailbox can be written, created or removed, and an
/// attempt changes nothing.
pub proof fn proc_never_changes<V: VirtualFs, T: ToolLister, H: HookLister>(
    fs: ProcFs<V, T, H>,
    path: Seq<char>,
    data: Seq<u8>,
    after: ProcFs<V, T, H>,
    out: Result<(), VfsErrorView>,
)
    requires
        is_proc_path(normalized(path)),
        !is_mailbox_path(normalized(path)),
        fs.writes(path, data, after, out) || fs.makes_dir(path, after, out) || fs.removes(path, after, out),
    ensures
        out is Err && out->Err_0 is PermissionDenied,
        after.inner_fs() == fs.inner_fs() && after.proc_state() == fs.proc_state(),
{
}

/// The mailbox, and every path outside `/proc`, is that of the filesystem inside. Only a
/// mailbox that is not there is listed as an empty one.
pub proof fn other_paths_pass_through<V: VirtualFs, T: ToolLister, H: HookLister>(
    fs: ProcFs<V, T, H>,
    path: Seq<char>,
    data: Seq<u8>,
    after: ProcFs<V, T, H>,
    out: Result<(), VfsErrorView>,
    bytes: Result<Seq<u8>, VfsErrorView>,
    names: Result<Seq<Seq<char>>, VfsErrorView>,
    metadata: Result<FsMetadata, VfsErrorView>,
    there: bool,
)
    requires
        is_mailbox_path(normalized(path)) || !is_proc_path(normalized(path)),
    ensures
        fs.reads(path, bytes) <==> fs.inner_fs().reads(normalized(path), bytes),
        fs.has(path, there) <==> fs.inner_fs().has(normalized(path), there),
        fs.describes(path, metadata) <==> fs.inner_fs().describes(normalized(path), metadata),
        !is_mailbox_path(normalized(path)) ==> (fs.lists(path, names) <==> fs.inner_fs().lists(
            normalized(path),
            names,
        )),
        is_mailbox_path(normalized(path)) && fs.inner_fs().lists(normalized(path), names) ==> fs.lists(
            path,
            empty_if_missing(names),
        ),
        fs.writes(path, data, after, out) ==> fs.inner_fs().writes(normalized(path), data, after.inner_fs(), out),
        fs.makes_dir(path, after, out) ==> fs.inner_fs().makes_dir(normalized(path), after.inner_fs(), out),
        fs.removes(path, after, out) ==> fs.inner_fs().removes(normalized(path), after.inner_fs(), out),
{
}

proof fn lemma_agent_ascends()
    ensures
        ascending(seq!["id"@, "model"@, "name"@, "parent_id"@, "turn"@]),
{
    reveal_strlit("id");
    reveal_strlit("model");
    reveal_strlit("name");
    reveal_strlit("parent_id");
    reveal_strlit("turn");
    let s = seq!["id"@, "model"@, "name"@, "parent_id"@, "turn"@];
    assert forall|i: int| 0 <= i < s.len() - 1 implies before(#[trigger] s[i], s[i + 1]) by {
        if i == 0 {
            lemma_before_at("id"@, "model"@, 0);
        }
        if i == 1 {
            lemma_before_at("model"@, "name"@, 0);
        }
        if i == 2 {
            lemma_before_at("name"@, "parent_id"@, 0);
        }
        if i == 3 {
            lemma_before_at("parent_id"@, "turn"@, 0);
        }
    }
    lemma_ascending(s);
}

proof fn lemma_budget_ascends()
    ensures
        ascending(seq!["max_cost"@, "max_fuel"@, "max_tokens"@, "max_turns"@, "remaining_tokens"@, "remaining_turns"@, "used_cost"@, "used_fuel"@, "used_tokens"@, "used_turns"@]),
{
    reveal_strlit("max_cost");
    reveal_strlit("max_fuel");
    reveal_strlit("max_tokens");
    reveal_strlit("max_turns");
    reveal_strlit("remaining_tokens");
    reveal_strlit("remaining_turns");
    reveal_strlit("used_cost");
    reveal_strlit("used_fuel");
    reveal_strlit("used_tokens");
    reveal_strlit("used_turns");
    let s = seq!["max_cost"@, "max_fuel"@, "max_tokens"@, "max_turns"@, "remaining_tokens"@, "remaining_turns"@, "used_cost"@, "used_fuel"@, "used_tokens"@, "used_turns"@];
    assert forall|i: int| 0 <= i < s.len() - 1 implies before(#[trigger] s[i], s[i + 1]) by {
        if i == 0 {
            lemma_before_at("max_cost"@, "max_fuel"@, 4);
        }
        if i == 1 {
            lemma_before_at("max_fuel"@, "max_tokens"@, 4);
        }
        if i == 2 {
            lemma_before_at("max_tokens"@, "max_turns"@, 5);
        }
        if i == 3 {
            lemma_before_at("max_turns"@, "remaining_tokens"@, 0);
        }
        if i == 4 {
            lemma_before_at("remaining_tokens"@, "remaining_turns"@, 11);
        }
        if i == 5 {
            lemma_before_at("remaining_turns"@, "used_cost"@, 0);
        }
        if i == 6 {
            lemma_before_at("used_cost"@, "used_fuel"@, 5);
        }
        if i == 7 {
            lemma_before_at("used_fuel"@, "used_tokens"@, 5);
        }
        if i == 8 {
            lemma_before_at("used_tokens"@, "used_turns"@, 6);
        }
    }
    lemma_ascending(s);
}

proof fn lemma_capabilities_ascends()
    ensures
        ascending(seq!["javascript"@, "mcp_tools"@, "network"@, "paths_read"@, "paths_write"@, "python"@, "shell"@]),
{
    reveal_strlit("javascript");
    reveal_strlit("mcp_tools");
    reveal_strlit("network");
    reveal_strlit("paths_read");
    reveal_strlit("paths_write");
    reveal_strlit("python");
    reveal_strlit("shell");
    let s = seq!["javascript"@, "mcp_tools"@, "network"@, "paths_read"@, "paths_write"@, "python"@, "shell"@];
    assert forall|i: int| 0 <= i < s.len() - 1 implies before(#[trigger] s[i], s[i + 1]) by {
        if i == 0 {
            lemma_before_at("javascript"@, "mcp_tools"@, 0);
        }
        if i == 1 {
            lemma_before_at("mcp_tools"@, "network"@, 0);
        }
        if i == 2 {
            lemma_before_at("network"@, "paths_read"@, 0);
        }
        if i == 3 {
            lemma_before_at("paths_read"@, "paths_write"@, 6);
        }
        if i == 4 {
            lemma_before_at("paths_write"@, "python"@, 1);
        }
        if i == 5 {
            lemma_before_at("python"@, "shell"@, 0);
        }
    }
    lemma_ascending(s);
}

proof fn lemma_session_ascends()
    ensures
        ascending(seq!["id"@, "journal_entries"@, "uptime_ms"@]),
{
    reveal_strlit("id");
    reveal_strlit("journal_entries");
    reveal_strlit("uptime_ms");
    let s = seq!["id"@, "journal_entries"@, "uptime_ms"@];
    assert forall|i: int| 0 <= i < s.len() - 1 implies before(#[trigger] s[i], s[i + 1]) by {
        if i == 0 {
            lemma_before_at("id"@, "journal_entries"@, 0);
        }
        if i == 1 {
            lemma_before_at("journal_entries"@, "uptime_ms"@, 0);
        }
    }
    lemma_ascending(s);
}

proof fn lemma_hooks_ascends()
    ensures
        ascending(seq!["http_request"@, "llm"@, "spawn"@, "tool_call"@]),
{
    reveal_strlit("http_request");
    reveal_strlit("llm");
    reveal_strlit("spawn");
    reveal_strlit("tool_call");
    let s = seq!["http_request"@, "llm"@, "spawn"@, "tool_call"@];
    assert forall|i: int| 0 <= i < s.len() - 1 implies before(#[trigger] s[i], s[i + 1]) by {
        if i == 0 {
            lemma_before_at("http_request"@, "llm"@, 0);
        }
        if i == 1 {
            lemma_before_at("llm"@, "spawn"@, 0);
        }
        if i == 2 {
            lemma_before_at("spawn"@, "tool_call"@, 0);
        }
    }
    lemma_ascending(s);
}

proof fn lemma_proc_ascends()
    ensures
        ascending(seq!["agent"@, "budget"@, "capabilities"@, "hooks"@, "mailbox"@, "session"@, "tools"@]),
{
    reveal_strlit("agent");
    reveal_strlit("budget");
    reveal_strlit("capabilities");
    reveal_strlit("hooks");
    reveal_strlit("mailbox");
    reveal_strlit("session");
    reveal_strlit("tools");
    let s = seq!["agent"@, "budget"@, "capabilities"@, "hooks"@, "mailbox"@, "session"@, "tools"@];
    assert forall|i: int| 0 <= i < s.len() - 1 implies before(#[trigger] s[i], s[i + 1]) by {
        if i == 0 {
            lemma_before_at("agent"@, "budget"@, 0);
        }
        if i == 1 {
            lemma_before_at("budget"@, "capabilities"@, 0);
        }
        if i == 2 {
            lemma_before_at("capabilities"@, "hooks"@, 0);
        }
        if i == 3 {
            lemma_before_at("hooks"@, "mailbox"@, 0);
        }
        if i == 4 {
            lemma_before_at("mailbox"@, "session"@, 0);
        }
        if i == 5 {
            lemma_before_at("session"@, "tools"@, 0);
        }
    }
    lemma_ascending(s);
}

/// The names in every directory of `/proc` whose files do not come and go ascend, and so do
/// the names of the directories.
pub proof fn listings_ascend(dir: Option<Seq<char>>)
    requires
        proc_entries(dir) is Some,
    ensures
        ascending(proc_entries(dir)->0),
{
    lemma_proc_ascends();
    lemma_agent_ascends();
    lemma_budget_ascends();
    lemma_capabilities_ascends();
    lemma_session_ascends();
    lemma_hooks_ascends();
}

/// In every directory of `/proc` whose files do not come and go, a file is listed exactly
/// where it can be read.
pub proof fn readable_files_are_listed<T: ToolLister, H: HookLister>(
    state: ProcState<T, H>,
    path: Seq<char>,
    file: Seq<char>,
    name: Seq<char>,
    names: Result<Seq<Seq<char>>, VfsErrorView>,
    bytes: Result<Seq<u8>, VfsErrorView>,
)
    requires
        proc_path(path) is Some,
        proc_entries(proc_path(path)) is Some,
        proc_path(file) is Some,
        before_slash(proc_path(file)->0) == proc_path(path)->0,
        after_slash(proc_path(file)->0) == Some(name),
        proc_lists(state, path, names),
        proc_reads(state, file, bytes),
    ensures
        names is Ok,
        ascending(names->Ok_0),
        names->Ok_0.contains(name) <==> bytes is Ok,
{
    let dir = proc_path(path)->0;
    let entries = proc_entries(Some(dir))->0;
    reveal_strlit("tools");
    reveal_strlit("session");
    reveal_strlit("hooks");
    reveal_strlit("agent");
    reveal_strlit("budget");
    reveal_strlit("capabilities");
    assert("session"@.len() == 7 && "budget"@.len() == 6 && "capabilities"@.len() == 12);
    assert("hooks"@[0] == 'h' && "tools"@[0] == 't' && "agent"@[0] == 'a');
    listings_ascend(Some(dir));
    let value = choose|value: Option<Seq<char>>| #[trigger]
        proc_gives(state, dir, name, value) && bytes == found(file, value);
    assert(value is Some <==> entries.contains(name)) by {
        if dir == "agent"@ {
            assert(entries[0] == "id"@);
            assert(entries[1] == "model"@);
            assert(entries[2] == "name"@);
            assert(entries[3] == "parent_id"@);
            assert(entries[4] == "turn"@);
        }
        if dir == "budget"@ {
            assert(entries[0] == "max_cost"@);
            assert(entries[1] == "max_fuel"@);
            assert(entries[2] == "max_tokens"@);
            assert(entries[3] == "max_turns"@);
            assert(entries[4] == "remaining_tokens"@);
            assert(entries[5] == "remaining_turns"@);
            assert(entries[6] == "used_cost"@);
            assert(entries[7] == "used_fuel"@);
            assert(entries[8] == "used_tokens"@);
            assert(entries[9] == "used_turns"@);
        }
        if dir == "capabilities"@ {
            assert(entries[0] == "javascript"@);
            assert(entries[1] == "mcp_tools"@);
            assert(entries[2] == "network"@);
            assert(entries[3] == "paths_read"@);
            assert(entries[4] == "paths_write"@);
            assert(entries[5] == "python"@);
            assert(entries[6] == "shell"@);
        }
        if dir == "session"@ {
            assert(entries[0] == "id"@);
            assert(entries[1] == "journal_entries"@);
            assert(entries[2] == "uptime_ms"@);
        }
        if dir == "hooks"@ {
            assert(entries[0] == "http_request"@);
            assert(entries[1] == "llm"@);
            assert(entries[2] == "spawn"@);
            assert(entries[3] == "tool_call"@);
        }
    }
}

/// What is left of a token limit and what is used add up to the limit, as long as no
/// more than the limit is used.
pub proof fn tokens_add_up(b: ResourceBudget)
    requires
        b.used_tokens <= b.max_tokens,
    ensures
        remaining(b.max_tokens as nat, b.used_tokens as nat) + b.used_tokens == b.max_tokens,
{
}

} // verus!
