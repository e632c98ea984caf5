//! Laws of `/proc`: what each file shows of the state of the agent.
use crate::path::{normalized, trim_slashes};
use crate::text::{after_slash, before_slash, decimal, join_with};
use crate::text_laws::{decimals_are_worth_their_number, texts_are_cut_at_the_first, worth};
use crate::types::budget::{cost_text, ResourceBudget};
use crate::types::capability::CapabilityToken;
use crate::types::grants::at_or_below;
use crate::types::vfs::{FsMetadata, VfsErrorView, VirtualFs};
use crate::vfs::layer_laws::{is_one_name, is_some_file};
use crate::vfs::procfs::{budget_value, capabilities_value, hook_names_are, is_mailbox_path, is_proc_path, proc_category, proc_gives, proc_path, proc_reads, tool_json_is, tool_names_are, HookLister, ProcFs, ToolLister};
use vstd::prelude::*;
use vstd::utf8::encode_utf8;

verus! {

broadcast use vstd::seq_lib::group_seq_properties;

// ---- Values ------------------------------------------------------------------

/// The text spells the number in base ten.
pub open spec fn spells_number(text: Option<String>, n: nat) -> bool {
    text is Some && worth(text->0@, 10) == n && text->0@.len() > 0 && (forall|i: int|
        0 <= i < text->0@.len() ==> '0' <= #[trigger] text->0@[i] <= '9') && (text->0@.len() > 1 ==> text->0@[0] != '0')
}

/// Each file of `/proc/budget` shows its own limit or use, what is left is the difference and
/// never less than nothing, and costs are shown with two places.
#[verifier::spinoff_prover]
#[verifier::rlimit(60)]
pub proof fn the_budget_is_shown(b: ResourceBudget, name: &str, r: Option<String>)
    requires
        call_ensures(budget_value, (&b, name), r),
    ensures
        name@ == "max_tokens"@ ==> spells_number(r, b.max_tokens as nat),
        name@ == "used_tokens"@ ==> spells_number(r, b.used_tokens as nat),
        name@ == "remaining_tokens"@ && b.used_tokens <= b.max_tokens ==> spells_number(r, (b.max_tokens - b.used_tokens) as nat),
        name@ == "remaining_tokens"@ && b.used_tokens > b.max_tokens ==> spells_number(r, 0),
        name@ == "max_turns"@ ==> spells_number(r, b.max_turns as nat),
        name@ == "used_turns"@ ==> spells_number(r, b.used_turns as nat),
        name@ == "remaining_turns"@ && b.used_turns <= b.max_turns ==> spells_number(r, (b.max_turns - b.used_turns) as nat),
        name@ == "remaining_turns"@ && b.used_turns > b.max_turns ==> spells_number(r, 0),
        name@ == "max_fuel"@ ==> spells_number(r, b.max_fuel as nat),
        name@ == "used_fuel"@ ==> spells_number(r, b.used_fuel as nat),
        name@ == "max_cost"@ ==> r is Some && r->0@ == cost_text(b.max_cost.units(), b.max_cost.places(), 2),
        name@ == "used_cost"@ ==> r is Some && r->0@ == cost_text(b.used_cost.units(), b.used_cost.places(), 2),
        r is Some ==> name@ == "max_tokens"@ || name@ == "used_tokens"@ || name@ == "remaining_tokens"@ || name@ == "max_turns"@
            || name@ == "used_turns"@ || name@ == "remaining_turns"@ || name@ == "max_fuel"@ || name@ == "used_fuel"@ || name@
            == "max_cost"@ || name@ == "used_cost"@,
{
    reveal_strlit("max_tokens");
    reveal_strlit("used_tokens");
    reveal_strlit("remaining_tokens");
    reveal_strlit("max_turns");
    reveal_strlit("used_turns");
    reveal_strlit("remaining_turns");
    reveal_strlit("max_fuel");
    reveal_strlit("used_fuel");
    reveal_strlit("max_cost");
    reveal_strlit("used_cost");
    lemma_budget_names(name@);
    decimals_are_worth_their_number(b.max_tokens as nat);
    decimals_are_worth_their_number(b.used_tokens as nat);
    decimals_are_worth_their_number(b.max_turns as nat);
    decimals_are_worth_their_number(b.used_turns as nat);
    decimals_are_worth_their_number(b.max_fuel as nat);
    decimals_are_worth_their_number(b.used_fuel as nat);
    decimals_are_worth_their_number(crate::vfs::procfs::remaining(b.max_tokens as nat, b.used_tokens as nat));
    decimals_are_worth_their_number(crate::vfs::procfs::remaining(b.max_turns as nat, b.used_turns as nat));
}

/// No two of the names are the same.
#[verifier::spinoff_prover]
#[verifier::rlimit(60)]
proof fn lemma_budget_names(name: Seq<char>)
    ensures
        name == "max_tokens"@ ==> name.len() == 10 && name[0] == 'm',
        name == "used_turns"@ ==> name.len() == 10 && name[0] == 'u',
        name == "used_tokens"@ ==> name.len() == 11,
        name == "remaining_tokens"@ ==> name.len() == 16,
        name == "remaining_turns"@ ==> name.len() == 15,
        name == "max_turns"@ ==> name.len() == 9 && name[0] == 'm',
        name == "used_fuel"@ ==> name.len() == 9 && name[0] == 'u' && name[5] == 'f',
        name == "used_cost"@ ==> name.len() == 9 && name[0] == 'u' && name[5] == 'c',
        name == "max_fuel"@ ==> name.len() == 8 && name[4] == 'f',
        name == "max_cost"@ ==> name.len() == 8 && name[4] == 'c',
{
    reveal_strlit("max_tokens");
    reveal_strlit("used_tokens");
    reveal_strlit("remaining_tokens");
    reveal_strlit("max_turns");
    reveal_strlit("used_turns");
    reveal_strlit("remaining_turns");
    reveal_strlit("max_fuel");
    reveal_strlit("used_fuel");
    reveal_strlit("max_cost");
    reveal_strlit("used_cost");
}

/// Each file of `/proc/capabilities` shows its own flag or list, one entry per line.
#[verifier::spinoff_prover]
#[verifier::rlimit(60)]
pub proof fn the_capabilities_are_shown(c: CapabilityToken, name: &str, r: Option<String>)
    requires
        call_ensures(capabilities_value, (&c, name), r),
    ensures
        name@ == "shell"@ ==> r is Some && r->0@ == (if c.shell { "true"@ } else { "false"@ }),
        name@ == "javascript"@ ==> r is Some && r->0@ == (if c.javascript { "true"@ } else { "false"@ }),
        name@ == "python"@ ==> r is Some && r->0@ == (if c.python { "true"@ } else { "false"@ }),
        name@ == "network"@ ==> r is Some && r->0@ == join_with(c@.network, '\n'),
        name@ == "mcp_tools"@ ==> r is Some && r->0@ == join_with(c@.mcp_tools, '\n'),
        name@ == "paths_read"@ ==> r is Some && r->0@ == join_with(c@.paths_read, '\n'),
        name@ == "paths_write"@ ==> r is Some && r->0@ == join_with(c@.paths_write, '\n'),
        r is Some ==> name@ == "shell"@ || name@ == "javascript"@ || name@ == "python"@ || name@ == "network"@ || name@
            == "mcp_tools"@ || name@ == "paths_read"@ || name@ == "paths_write"@,
{
    reveal_strlit("shell");
    reveal_strlit("javascript");
    reveal_strlit("python");
    reveal_strlit("network");
    reveal_strlit("mcp_tools");
    reveal_strlit("paths_read");
    reveal_strlit("paths_write");
    assert("shell"@.len() == 5 && "javascript"@.len() == 10 && "python"@.len() == 6 && "network"@.len() == 7);
    assert("mcp_tools"@.len() == 9 && "paths_read"@.len() == 10 && "paths_write"@.len() == 11);
    assert("javascript"@[0] == 'j' && "paths_read"@[0] == 'p');
}

// ---- Files -------------------------------------------------------------------

/// What `/proc/<dir>` and `/proc/<dir>/<file>` name.
#[verifier::spinoff_prover]
#[verifier::rlimit(60)]
pub proof fn lemma_proc_path(dir: Seq<char>, file: Seq<char>)
    requires
        is_one_name(dir),
        is_some_file(file),
        dir != "mailbox"@,
    ensures
        proc_path("/proc/"@ + dir) == Some(dir),
        is_proc_path("/proc/"@ + dir),
        !is_mailbox_path("/proc/"@ + dir),
        proc_path("/proc/"@ + dir + "/"@ + file) == Some(dir + "/"@ + file),
        before_slash(dir + "/"@ + file) == dir,
        after_slash(dir + "/"@ + file) == Some(file),
        before_slash(dir) == dir,
        after_slash(dir) is None,
        is_proc_path("/proc/"@ + dir + "/"@ + file),
        !is_mailbox_path("/proc/"@ + dir + "/"@ + file),
{
    reveal_strlit("/proc");
    reveal_strlit("/proc/");
    reveal_strlit("/");
    let base = "/proc"@;
    assert(base.push('/') =~= "/proc/"@);
    assert("/"@ =~= seq!['/']);
    let a = "/proc/"@ + dir;
    assert(dir.contains(dir.last()));
    assert(a.last() == dir.last());
    assert(trim_slashes(a) == a);
    assert("/proc/"@ =~= a.subrange(0, 6));
    assert(a.skip(6) =~= dir);
    assert(a.len() > 6);
    let b = a + "/"@ + file;
    assert(b.last() == file.last());
    assert(trim_slashes(b) == b);
    assert("/proc/"@ =~= b.subrange(0, 6));
    assert(b.skip(6) =~= dir + "/"@ + file);
    texts_are_cut_at_the_first(dir, '/', file);
    assert(dir + "/"@ + file =~= dir + seq!['/'] + file);
    lemma_not_mailbox(dir, Seq::empty());
    assert(a + Seq::<char>::empty() =~= a);
    lemma_not_mailbox(dir, "/"@ + file);
    assert(a + ("/"@ + file) =~= b);
}

/// What begins with another name is not the mailbox.
#[verifier::spinoff_prover]
#[verifier::rlimit(60)]
proof fn lemma_not_mailbox(dir: Seq<char>, rest: Seq<char>)
    requires
        is_one_name(dir),
        dir != "mailbox"@,
        rest.len() == 0 || rest[0] == '/',
    ensures
        !is_mailbox_path("/proc/"@ + dir + rest),
{
    reveal_strlit("/proc/");
    reveal_strlit("/proc/mailbox");
    reveal_strlit("mailbox");
    let p = "/proc/"@ + dir + rest;
    let m = "/proc/mailbox"@;
    let n = dir.len() as int;
    if is_mailbox_path(p) {
        assert(p.len() >= 13);
        assert forall|k: int| 0 <= k < 13 implies #[trigger] p[k] == m[k] by {
            if p != m {
                assert(p.subrange(0, 14)[k] == m.push('/')[k]);
            }
        }
        assert(p.len() > 13 ==> p[13] == '/') by {
            if p != m {
                assert(p.subrange(0, 14)[13] == m.push('/')[13]);
            }
        }
        if n < 7 {
            assert(p[6 + n] == rest[0]);
            assert(m[6 + n] != '/');
        } else if n == 7 {
            assert forall|k: int| 0 <= k < 7 implies #[trigger] dir[k] == "mailbox"@[k] by {
                assert(p[k + 6] == dir[k]);
                assert(m[k + 6] == "mailbox"@[k]);
            }
            assert(dir =~= "mailbox"@);
        } else {
            assert(p[13] == dir[7]);
            assert(dir.contains(dir[7]));
        }
    }
}

/// A file of `/proc` is read as the value of the state that it stands for: those of `agent`,
/// `session`, `tools` and `hooks`.
#[verifier::spinoff_prover]
#[verifier::rlimit(60)]
pub proof fn the_state_is_shown<V: VirtualFs, T: ToolLister, H: HookLister>(
    fs: ProcFs<V, T, H>,
    path: Seq<char>,
    dir: Seq<char>,
    file: Seq<char>,
    value: Seq<char>,
    out: Result<Seq<u8>, VfsErrorView>,
)
    requires
        is_one_name(dir),
        is_some_file(file),
        normalized(path) == "/proc/"@ + dir + "/"@ + file,
        fs.reads(path, out),
    ensures
        dir == "agent"@ && file == "id"@ ==> out == Ok::<Seq<u8>, VfsErrorView>(encode_utf8(fs.proc_state().agent_id@)),
        dir == "agent"@ && file == "name"@ ==> out == Ok::<Seq<u8>, VfsErrorView>(encode_utf8(fs.proc_state().agent_name@)),
        dir == "agent"@ && file == "model"@ ==> out == Ok::<Seq<u8>, VfsErrorView>(encode_utf8(fs.proc_state().model@)),
        dir == "agent"@ && file == "turn"@ ==> out == Ok::<Seq<u8>, VfsErrorView>(
            encode_utf8(decimal(fs.proc_state().turn as nat)),
        ),
        dir == "agent"@ && file == "parent_id"@ ==> out == Ok::<Seq<u8>, VfsErrorView>(
            encode_utf8(
                match fs.proc_state().parent_id {
                    Some(id) => id@,
                    None => Seq::empty(),
                },
            ),
        ),
        dir == "session"@ && file == "id"@ ==> out == Ok::<Seq<u8>, VfsErrorView>(encode_utf8(fs.proc_state().session_id@)),
        dir == "session"@ && file == "journal_entries"@ ==> out == Ok::<Seq<u8>, VfsErrorView>(
            encode_utf8(decimal(fs.proc_state().journal_entries as nat)),
        ),
        dir == "session"@ && file == "uptime_ms"@ ==> out is Ok && exists|n: nat|
            out == Ok::<Seq<u8>, VfsErrorView>(encode_utf8(#[trigger] decimal(n))),
        dir == "tools"@ && out is Ok ==> exists|text: Seq<char>|
            #[trigger] tool_json_is(fs.proc_state().tools, file, Some(text)) && out == Ok::<Seq<u8>, VfsErrorView>(
                encode_utf8(text),
            ),
        dir == "tools"@ && out is Err ==> tool_json_is(fs.proc_state().tools, file, None) && out->Err_0 is NotFound,
        dir == "hooks"@ && (file == "tool_call"@ || file == "llm"@ || file == "spawn"@ || file == "http_request"@) ==> exists|names: Seq<
            Seq<char>,
        >|
            #[trigger] hook_names_are(fs.proc_state().hooks, file, names) && out == Ok::<Seq<u8>, VfsErrorView>(
                encode_utf8(join_with(names, '\n')),
            ),
        dir != "agent"@ && dir != "session"@ && dir != "tools"@ && dir != "hooks"@ && dir != "budget"@ && dir != "capabilities"@ && dir
            != "mailbox"@ ==> out == Err::<Seq<u8>, VfsErrorView>(VfsErrorView::NotFound(normalized(path))),
        dir == "budget"@ || dir == "capabilities"@ || dir == "agent"@ || dir == "session"@ || dir == "hooks"@ || dir == "tools"@
            ==> exists|v: Option<Seq<char>>| #[trigger]
            proc_gives(fs.proc_state(), dir, file, v) && (v matches Some(text) ==> out == Ok::<Seq<u8>, VfsErrorView>(
                encode_utf8(text),
            )) && (v is None ==> out is Err && out->Err_0 is NotFound),
{
    lemma_proc_names();
    if dir != "mailbox"@ {
        lemma_proc_path(dir, file);
        let p = normalized(path);
        assert(proc_reads(fs.proc_state(), p, out));
        if dir == "agent"@ || dir == "budget"@ || dir == "capabilities"@ || dir == "tools"@ || dir == "session"@ || dir == "hooks"@ {
            let v = choose|v: Option<Seq<char>>| #[trigger]
                proc_gives(fs.proc_state(), dir, file, v) && out == crate::vfs::synthetic::found(p, v);
            assert(proc_gives(fs.proc_state(), dir, file, v));
            if dir == "tools"@ {
                assert(tool_json_is(fs.proc_state().tools, file, v));
                match v {
                    Some(text) => {
                        assert(tool_json_is(fs.proc_state().tools, file, Some(text)));
                    },
                    None => {},
                }
            }
            if dir == "session"@ && file == "uptime_ms"@ {
                let n = choose|n: nat| v == Some(#[trigger] decimal(n));
                assert(out == Ok::<Seq<u8>, VfsErrorView>(encode_utf8(decimal(n))));
            }
        }
    }
}

/// The directories of `/proc` and the files of `agent` and `session` have different names.
#[verifier::spinoff_prover]
#[verifier::rlimit(60)]
pub proof fn lemma_proc_names()
    ensures
        "agent"@.len() == 5 && "agent"@[0] == 'a',
        "hooks"@.len() == 5 && "hooks"@[0] == 'h',
        "tools"@.len() == 5 && "tools"@[0] == 't',
        "budget"@.len() == 6,
        "session"@.len() == 7 && "session"@[0] == 's',
        "mailbox"@.len() == 7 && "mailbox"@[0] == 'm',
        "capabilities"@.len() == 12,
        "id"@.len() == 2,
        "name"@.len() == 4 && "name"@[0] == 'n',
        "turn"@.len() == 4 && "turn"@[0] == 't',
        "model"@.len() == 5,
        "parent_id"@.len() == 9 && "parent_id"@[0] == 'p',
        "uptime_ms"@.len() == 9 && "uptime_ms"@[0] == 'u',
        "journal_entries"@.len() == 15,
{
    reveal_strlit("agent");
    reveal_strlit("hooks");
    reveal_strlit("tools");
    reveal_strlit("budget");
    reveal_strlit("session");
    reveal_strlit("mailbox");
    reveal_strlit("capabilities");
    reveal_strlit("id");
    reveal_strlit("name");
    reveal_strlit("turn");
    reveal_strlit("model");
    reveal_strlit("parent_id");
    reveal_strlit("uptime_ms");
    reveal_strlit("journal_entries");
}

/// One of the directories of `/proc` that hold values.
pub open spec fn is_value_dir(dir: Seq<char>) -> bool {
    dir == "agent"@ || dir == "budget"@ || dir == "capabilities"@ || dir == "tools"@ || dir == "session"@ || dir == "hooks"@
}

/// `/proc` and its directories are directories, and can be listed but not read. What stands in
/// them is a file as long as what is read of it, or is not there.
#[verifier::spinoff_prover]
#[verifier::rlimit(60)]
pub proof fn proc_is_described_as_it_is_read<V: VirtualFs, T: ToolLister, H: HookLister>(
    fs: ProcFs<V, T, H>,
    path: Seq<char>,
    dir: Seq<char>,
    file: Seq<char>,
    metadata: Result<FsMetadata, VfsErrorView>,
    bytes: Result<Seq<u8>, VfsErrorView>,
    names: Result<Seq<Seq<char>>, VfsErrorView>,
    there: bool,
)
    requires
        is_one_name(dir),
        is_some_file(file),
        dir != "mailbox"@,
    ensures
        normalized(path) == "/proc"@ || (normalized(path) == "/proc/"@ + dir && is_value_dir(dir)) ==> {
            &&& fs.describes(path, metadata) ==> metadata is Ok && metadata->Ok_0.is_dir && !metadata->Ok_0.is_file
            &&& fs.reads(path, bytes) ==> bytes is Err && bytes->Err_0 is NotAFile
            &&& fs.has(path, there) ==> there
            &&& fs.lists(path, names) ==> names is Ok
        },
        normalized(path) == "/proc/"@ + dir + "/"@ + file && fs.describes(path, metadata) ==> {
            ||| metadata is Err && metadata->Err_0 is NotFound
            ||| metadata is Ok && metadata->Ok_0.is_file && !metadata->Ok_0.is_dir && exists|data: Seq<u8>|
                #[trigger] fs.reads(path, Ok(data)) && metadata->Ok_0.size == data.len() as u64
        },
        normalized(path) == "/proc/"@ + dir && !is_value_dir(dir) ==> {
            &&& fs.describes(path, metadata) ==> metadata is Err && metadata->Err_0 is NotFound
            &&& fs.reads(path, bytes) ==> bytes is Err && bytes->Err_0 is NotFound
            &&& fs.has(path, there) ==> !there
            &&& fs.lists(path, names) ==> names is Err && names->Err_0 is NotFound
        },
{
    lemma_proc_names();
    lemma_proc_path(dir, file);
    let p = normalized(path);
    reveal_strlit("/proc");
    reveal_strlit("/proc/");
    reveal_strlit("/proc/mailbox");
    reveal_strlit("/");
    assert(trim_slashes("/proc"@) == "/proc"@);
    assert("/proc"@.len() == 5 && "/proc/mailbox"@.len() == 13);
    assert("/proc"@ != "/proc/mailbox"@);
    if p == "/proc/"@ + dir + "/"@ + file && fs.describes(path, metadata) {
        assert(dir + "/"@ + file != "mailbox"@ && !is_value_dir(dir + "/"@ + file)) by {
            reveal_strlit("mailbox");
            reveal_strlit("agent");
            reveal_strlit("hooks");
            reveal_strlit("tools");
            reveal_strlit("budget");
            reveal_strlit("session");
            reveal_strlit("capabilities");
            let n = dir.len() as int;
            assert((dir + "/"@ + file)[n] == '/');
        }
        assert(trim_slashes(p) == p);
        let bytes = choose|bytes: Result<Seq<u8>, VfsErrorView>| #[trigger]
            proc_reads(fs.proc_state(), p, bytes) && metadata == crate::vfs::synthetic::sized(bytes);
        match bytes {
            Ok(data) => {
                assert(fs.reads(path, Ok(data)));
            },
            Err(e) => {},
        }
    }
    if p == "/proc/"@ + dir {
        assert(trim_slashes(p) == p);
        assert(p.len() > 6);
    }
}

/// The tools are listed in order, each as often as the lister names it.
#[verifier::spinoff_prover]
#[verifier::rlimit(60)]
pub proof fn the_tools_are_listed<V: VirtualFs, T: ToolLister, H: HookLister>(
    fs: ProcFs<V, T, H>,
    path: Seq<char>,
    out: Result<Seq<Seq<char>>, VfsErrorView>,
)
    requires
        normalized(path) == "/proc/"@ + "tools"@,
        fs.lists(path, out),
    ensures
        out is Ok,
        exists|names: Seq<Seq<char>>| #[trigger]
            tool_names_are(fs.proc_state().tools, names) && out->Ok_0.to_multiset() == names.to_multiset(),
        forall|i: int, j: int|
            0 <= i < j < out->Ok_0.len() ==> !crate::text::before(#[trigger] out->Ok_0[j], #[trigger] out->Ok_0[i]),
{
    lemma_proc_names();
    reveal_strlit("tools");
    lemma_proc_path("tools"@, "tools"@);
    let names = choose|names: Seq<Seq<char>>| #[trigger]
        tool_names_are(fs.proc_state().tools, names) && crate::vfs::synthetic::is_sorted_copy(names, out);
    assert(tool_names_are(fs.proc_state().tools, names));
}

/// The kind of state that a path is about: the first name behind `/proc`, `proc` for the directory
/// itself, and nothing for the mailbox and all other paths.
#[verifier::spinoff_prover]
#[verifier::rlimit(60)]
pub proof fn paths_are_about_a_kind_of_state(path: &str, dir: Seq<char>, file: Seq<char>, r: Option<String>)
    requires
        call_ensures(proc_category, (path,), r),
        is_one_name(dir),
        is_some_file(file),
        dir != "mailbox"@,
    ensures
        normalized(path@) == "/proc"@ ==> r is Some && r->0@ == "proc"@,
        normalized(path@) == "/proc/"@ + dir || normalized(path@) == "/proc/"@ + dir + "/"@ + file ==> r is Some && r->0@
            == dir,
        !at_or_below(normalized(path@), "/proc"@) || at_or_below(normalized(path@), "/proc/mailbox"@) ==> r is None,
{
    lemma_proc_path(dir, file);
    reveal_strlit("/proc");
    reveal_strlit("/proc/mailbox");
    reveal_strlit("/");
    assert("/proc"@ + "/"@ =~= "/proc"@.push('/'));
    assert("/proc/mailbox"@ + "/"@ =~= "/proc/mailbox"@.push('/'));
    assert(trim_slashes("/proc"@) == "/proc"@);
    assert("/proc"@.len() == 5 && "/proc/mailbox"@.len() == 13);
}

} // verus!
