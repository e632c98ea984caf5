//! Laws of the layers over durable stores: what they ask of their store, and what they make of
//! its answers.
use crate::path::{trim_slashes, under};
use crate::text::before_slash;
use crate::text_laws::{lemma_first_position, texts_are_cut_at_the_first};
use crate::types::artifact::{entry_paths, ArtifactEntryView, ArtifactErrorView, ArtifactStore};
use crate::types::grants::{at_or_below, in_memory, some_scope_above};
use crate::types::memory::{in_scope, is_memory_path, parsed_memory_path, MemoryCapability, MemoryCapabilityView, MemoryPath, MemoryVersion, TenantId};
use crate::types::vfs::{FsMetadata, VfsError, VfsErrorView, VfsEvent, VfsEventView, VirtualFs};
use crate::vfs::listing::{has_path_under, is_listing_of, name_within, shows};
use crate::vfs::mailboxfs::{artifact_name, in_mailbox, MailboxFs};
use crate::vfs::memory_store_fs::{forward_memory_event, read_gate, read_gate_of, write_gate, write_gate_of, MemoryErrorView, MemoryEvent, MemoryStore, MemoryStoreFs, RecentWriteView};
use vstd::prelude::*;

verus! {

broadcast use vstd::seq_lib::group_seq_properties;

// ---- Listings ----------------------------------------------------------------

/// The path is the entry `name` of the directory `prefix`, or lies under it.
pub open spec fn goes_through(path: Seq<char>, prefix: Seq<char>, name: Seq<char>) -> bool {
    path == prefix + name || (prefix + name + "/"@).is_prefix_of(path)
}

/// An entry shows up in a directory under the one name without a slash that its path goes
/// through.
pub proof fn entries_show_up_by_their_first_name(path: Seq<char>, prefix: Seq<char>, name: Seq<char>)
    ensures
        name_within(path, prefix) == Some(name) <==> name.len() > 0 && !name.contains('/') && goes_through(
            path,
            prefix,
            name,
        ),
{
    reveal_strlit("/");
    assert("/"@ =~= seq!['/']);
    let n = prefix.len() as int;
    if name_within(path, prefix) == Some(name) {
        lemma_shown_goes_through(path, prefix, name);
    }
    if name.len() > 0 && !name.contains('/') && goes_through(path, prefix, name) {
        assert(prefix =~= path.subrange(0, n)) by {
            if path != prefix + name {
                assert forall|k: int| 0 <= k < n implies prefix[k] == path[k] by {
                    assert((prefix + name + "/"@)[k] == path.subrange(0, (prefix + name + "/"@).len() as int)[k]);
                }
            }
        }
        if path == prefix + name {
            assert(path.skip(n) =~= name);
            texts_are_cut_at_the_first(name, '/', Seq::empty());
        } else {
            let m = (prefix + name + "/"@).len() as int;
            let tail = path.skip(m);
            assert(path.skip(n) =~= name + seq!['/'] + tail) by {
                assert forall|k: int| 0 <= k < path.len() - n implies path.skip(n)[k] == (name + seq!['/'] + tail)[k] by {
                    if n + k < m {
                        assert((prefix + name + "/"@)[n + k] == path.subrange(0, m)[n + k]);
                    }
                }
            }
            texts_are_cut_at_the_first(name, '/', tail);
        }
    }
}

proof fn lemma_shown_goes_through(path: Seq<char>, prefix: Seq<char>, name: Seq<char>)
    requires
        name_within(path, prefix) == Some(name),
    ensures
        name.len() > 0,
        !name.contains('/'),
        goes_through(path, prefix, name),
{
    reveal_strlit("/");
    let n = prefix.len() as int;
    let rest = path.skip(n);
    lemma_cut(rest);
    assert(path =~= prefix + rest);
    if name != rest {
        let m = (prefix + name + "/"@).len() as int;
        assert(prefix + name + "/"@ =~= path.subrange(0, m)) by {
            assert forall|k: int| 0 <= k < m implies (prefix + name + "/"@)[k] == path[k] by {
                if n <= k < n + name.len() {
                    assert(name[k - n] == rest.take(name.len() as int)[k - n]);
                }
            }
        }
    }
}

/// What stands before the first slash, and how the text goes on.
proof fn lemma_cut(s: Seq<char>)
    ensures
        ({
            let head = before_slash(s);
            &&& !head.contains('/')
            &&& head.is_prefix_of(s)
            &&& head != s ==> s.len() > head.len() && s[head.len() as int] == '/' && s.take(head.len() as int) == head
        }),
{
    let head = before_slash(s);
    lemma_first_position(s, '/');
    let n = crate::text::first_at(s, '/') as int;
    assert(head =~= s.take(n));
    assert forall|k: int| 0 <= k < head.len() implies head[k] != '/' by {
        assert(s[k] != '/');
    }
    if n == s.len() {
        assert(head =~= s);
    }
}

/// A listing has the names that the paths go through, each once.
pub proof fn listings_go_by_the_paths(paths: Seq<Seq<char>>, prefix: Seq<char>, names: Seq<Seq<char>>, name: Seq<char>)
    requires
        is_listing_of(paths, prefix, names),
    ensures
        names.contains(name) <==> name.len() > 0 && !name.contains('/') && exists|i: int|
            0 <= i < paths.len() && goes_through(#[trigger] paths[i], prefix, name),
        names.no_duplicates(),
{
    assert forall|i: int| 0 <= i < paths.len() implies (name_within(#[trigger] paths[i], prefix) == Some(name) <==> name.len() > 0
        && !name.contains('/') && goes_through(paths[i], prefix, name)) by {
        entries_show_up_by_their_first_name(paths[i], prefix, name);
    }
    assert(names.contains(name) <==> shows(paths, prefix, name));
    assert forall|i: int, j: int| 0 <= i < names.len() && 0 <= j < names.len() && i != j implies names[i] != names[j] by {
        crate::text::lemma_before_total(names[i], names[j]);
        crate::text::lemma_before_total(names[j], names[i]);
    }
}

// ---- Memory ------------------------------------------------------------------

proof fn lemma_scopes(path: Seq<char>, scopes: Seq<Seq<char>>)
    ensures
        in_scope(path, scopes) <==> some_scope_above(scopes, path),
{
    assert forall|i: int| 0 <= i < scopes.len() implies under(path, #[trigger] scopes[i]) == at_or_below(path, scopes[i]) by {
        lemma_at_or_below(path, scopes[i]);
    }
    if in_scope(path, scopes) {
        let i = choose|i: int| 0 <= i < scopes.len() && under(path, #[trigger] scopes[i]);
        assert(at_or_below(path, scopes[i]));
    }
    if some_scope_above(scopes, path) {
        let i = choose|i: int| 0 <= i < scopes.len() && at_or_below(path, #[trigger] scopes[i]);
        assert(under(path, scopes[i]));
    }
}

proof fn lemma_at_or_below(path: Seq<char>, top: Seq<char>)
    ensures
        at_or_below(path, top) <==> under(path, top),
{
    reveal_strlit("/");
    assert(top + "/"@ =~= top.push('/'));
}

/// A path is let through in its canonical form where the memory is enabled and a scope for reading
/// or for writing is at it or above it; nothing under `/mnt` is let through for writing.
pub proof fn gates_go_by_the_scopes(cap: MemoryCapabilityView, what: Seq<char>, path: Seq<char>)
    ensures
        read_gate_of(cap, what, path) is Ok <==> cap.enabled && (parsed_memory_path(path) matches Ok(p) && some_scope_above(
            cap.search_scopes,
            p,
        )),
        read_gate_of(cap, what, path) matches Ok(p) ==> parsed_memory_path(path) matches Ok(q) && p == q,
        read_gate_of(cap, what, path) matches Err(e) ==> e is PermissionDenied,
        write_gate_of(cap, what, path) is Ok <==> cap.enabled && (parsed_memory_path(path) matches Ok(p) && !at_or_below(
            p,
            "/mnt"@,
        ) && some_scope_above(cap.write_scopes, p)),
        write_gate_of(cap, what, path) matches Ok(p) ==> parsed_memory_path(path) matches Ok(q) && p == q,
        write_gate_of(cap, what, path) matches Err(e) ==> e is PermissionDenied,
{
    if let Ok(p) = parsed_memory_path(path) {
        lemma_scopes(p, cap.search_scopes);
        lemma_scopes(p, cap.write_scopes);
        lemma_at_or_below(p, "/mnt"@);
    }
}

/// The gates as they are called.
pub proof fn gates_give_the_canonical_path(
    cap: MemoryCapability,
    what: &str,
    path: &str,
    r: Result<MemoryPath, VfsError>,
)
    ensures
        call_ensures(read_gate, (&cap, what, path), r) ==> (r is Ok <==> read_gate_of(cap@, what@, path@) is Ok),
        call_ensures(write_gate, (&cap, what, path), r) ==> (r is Ok <==> write_gate_of(cap@, what@, path@) is Ok),
        call_ensures(read_gate, (&cap, what, path), r) || call_ensures(write_gate, (&cap, what, path), r) ==> (r matches Ok(p)
            ==> parsed_memory_path(path@) matches Ok(q) && p@ == q),
{
}

proof fn lemma_in_memory(path: Seq<char>)
    ensures
        is_memory_path(path) <==> in_memory(path),
{
    lemma_at_or_below(path, "/var/memory"@);
    lemma_at_or_below(path, "/mnt"@);
}

/// A memory path that may be read shows what the store has under the tenant and the canonical
/// path: an entry is a file of its length, what is missing is missing unless entries stand under
/// it, and what the store cannot tell is an error.
pub proof fn readable_memory_shows_the_store<V: VirtualFs, S: MemoryStore>(
    fs: MemoryStoreFs<V, S>,
    path: Seq<char>,
    p: Seq<char>,
    got: Result<(Seq<u8>, MemoryVersion), MemoryErrorView>,
    known: Result<bool, MemoryErrorView>,
    listed: Result<Seq<Seq<char>>, MemoryErrorView>,
    bytes: Result<Seq<u8>, VfsErrorView>,
    there: bool,
    names: Result<Seq<Seq<char>>, VfsErrorView>,
    metadata: Result<FsMetadata, VfsErrorView>,
)
    requires
        in_memory(path),
        parsed_memory_path(path) == Ok::<Seq<char>, crate::types::memory::MemoryPathError>(p),
        fs.grants().enabled,
        some_scope_above(fs.grants().search_scopes, p),
        forall|g: Result<(Seq<u8>, MemoryVersion), MemoryErrorView>| #[trigger] fs.memory().gets(fs.owner(), p, g) ==> g == got,
        forall|k: Result<bool, MemoryErrorView>| #[trigger] fs.memory().knows(fs.owner(), p, k) ==> k == known,
        forall|l: Result<Seq<Seq<char>>, MemoryErrorView>| #[trigger] fs.memory().lists(fs.owner(), p, l) ==> l == listed,
        fs.reads(path, bytes),
        fs.has(path, there),
        fs.lists(path, names),
        fs.describes(path, metadata),
    ensures
        bytes == match got {
            Ok(entry) => Ok::<Seq<u8>, VfsErrorView>(entry.0),
            Err(MemoryErrorView::NotFound { path: missing, message: _ }) => Err(VfsErrorView::NotFound(missing)),
            Err(MemoryErrorView::Other { message }) => Err(VfsErrorView::Io(message)),
        },
        there <==> known == Ok::<bool, MemoryErrorView>(true),
        listed matches Ok(paths) ==> names is Ok && is_listing_of(paths, p + "/"@, names->Ok_0),
        listed is Err ==> names is Err && names->Err_0 is Io,
        match got {
            Ok(entry) => metadata is Ok && metadata->Ok_0.is_file && !metadata->Ok_0.is_dir && (entry.0.len() <= u64::MAX
                ==> metadata->Ok_0.size == entry.0.len()),
            Err(MemoryErrorView::NotFound { path: _, message: _ }) => match listed {
                Ok(paths) => if paths.len() > 0 {
                    metadata is Ok && metadata->Ok_0.is_dir && !metadata->Ok_0.is_file && metadata->Ok_0.size == 0
                } else {
                    metadata == Err::<FsMetadata, VfsErrorView>(VfsErrorView::NotFound(path))
                },
                Err(_) => metadata is Err && metadata->Err_0 is Io,
            },
            Err(MemoryErrorView::Other { message }) => metadata == Err::<FsMetadata, VfsErrorView>(VfsErrorView::Io(message)),
        },
{
    lemma_in_memory(path);
    gates_go_by_the_scopes(fs.grants(), "read"@, path);
    gates_go_by_the_scopes(fs.grants(), "list"@, path);
    gates_go_by_the_scopes(fs.grants(), "metadata"@, path);
    reveal_strlit("/");
    assert(!"/"@.is_suffix_of(p)) by {
        crate::types::memory_laws::canonical_paths_end_in_a_name(path);
        if "/"@.is_suffix_of(p) {
            assert(p.last() == p.subrange(p.len() - 1, p.len() as int)[0]);
        }
    }
}

/// A memory path that may be written is written to the store under the tenant and the canonical
/// path, and nowhere else. Making a directory there changes nothing, and removing deletes the
/// entry.
pub proof fn writable_memory_changes_the_store<V: VirtualFs, S: MemoryStore>(
    fs: MemoryStoreFs<V, S>,
    path: Seq<char>,
    p: Seq<char>,
    data: Seq<u8>,
    after: MemoryStoreFs<V, S>,
    out: Result<(), VfsErrorView>,
)
    requires
        in_memory(path),
        parsed_memory_path(path) == Ok::<Seq<char>, crate::types::memory::MemoryPathError>(p),
        fs.grants().enabled,
        !at_or_below(p, "/mnt"@),
        some_scope_above(fs.grants().write_scopes, p),
    ensures
        fs.writes(path, data, after, out) ==> exists|stored: Result<MemoryVersion, MemoryErrorView>| #[trigger]
            fs.memory().puts(fs.owner(), p, data, after.memory(), stored) && (out is Ok <==> stored is Ok) && (fs.recent() matches Some(
                writes,
            ) ==> after.recent() == Some(
                match stored {
                    Ok(version) => writes.push(RecentWriteView { path: p, version, data }),
                    Err(_) => writes,
                },
            )),
        fs.removes(path, after, out) ==> exists|deleted: Result<MemoryVersion, MemoryErrorView>| #[trigger]
            fs.memory().deletes(fs.owner(), p, after.memory(), deleted) && (out is Ok <==> deleted is Ok) && (deleted matches Err(
                MemoryErrorView::NotFound { path: missing, message: _ },
            ) ==> out == Err::<(), VfsErrorView>(VfsErrorView::NotFound(missing))),
        fs.makes_dir(path, after, out) ==> out is Ok && after.memory() == fs.memory() && after.recent() == fs.recent(),
        fs.writes(path, data, after, out) || fs.removes(path, after, out) || fs.makes_dir(path, after, out) ==> after.inner_fs()
            == fs.inner_fs() && after.owner() == fs.owner() && after.grants() == fs.grants(),
        fs.writes(path, data, after, out) && out is Err ==> out->Err_0 is Io,
{
    lemma_in_memory(path);
    gates_go_by_the_scopes(fs.grants(), "write"@, path);
    gates_go_by_the_scopes(fs.grants(), "remove"@, path);
    gates_go_by_the_scopes(fs.grants(), "mkdir"@, path);
    if fs.writes(path, data, after, out) {
        let stored = choose|stored: Result<MemoryVersion, MemoryErrorView>| #[trigger]
            fs.memory().puts(fs.owner(), p, data, after.memory(), stored) && match stored {
                Ok(version) => out == Ok::<(), VfsErrorView>(()) && after.recent() == fs.recorded(p, version, data),
                Err(e) => out == Err::<(), VfsErrorView>(
                    VfsErrorView::Io(crate::vfs::memory_store_fs::memory_message(e)),
                ) && after.recent() == fs.recent(),
            };
        assert(fs.memory().puts(fs.owner(), p, data, after.memory(), stored));
    }
}

/// Snapshots hold the filesystem inside and leave the memory alone.
pub proof fn snapshots_leave_the_memory_alone<V: VirtualFs, S: MemoryStore>(
    fs: MemoryStoreFs<V, S>,
    saved: Result<Seq<u8>, VfsErrorView>,
    data: Seq<u8>,
    after: MemoryStoreFs<V, S>,
    out: Result<(), VfsErrorView>,
)
    ensures
        fs.saves(saved) <==> fs.inner_fs().saves(saved),
        fs.restores(data, after, out) ==> fs.inner_fs().restores(data, after.inner_fs(), out) && after.memory() == fs.memory()
            && after.recent() == fs.recent() && after.grants() == fs.grants() && after.owner() == fs.owner(),
{
}

/// Every change of the tenant's own memory is forwarded with its path and length, and no other.
pub proof fn own_changes_are_forwarded(bound: TenantId, event: MemoryEvent, r: Option<VfsEvent>)
    requires
        call_ensures(forward_memory_event, (&bound, event), r),
    ensures
        match event {
            MemoryEvent::Put { tenant, path, bytes_len } => if tenant@ == bound@ {
                r is Some && r->0@ == (VfsEventView::Written { tenant: bound@, path: path@, len: bytes_len })
            } else {
                r is None
            },
            MemoryEvent::Delete { tenant, path } => if tenant@ == bound@ {
                r is Some && r->0@ == (VfsEventView::Removed { tenant: bound@, path: path@ })
            } else {
                r is None
            },
        },
{
}

// ---- The mailbox -------------------------------------------------------------

/// The mailbox is `/proc/mailbox` and what goes on behind it with a slash. What follows that
/// slash names the artifact, and slashes at the end say nothing.
pub proof fn mailbox_paths_name_artifacts(path: Seq<char>, name: Seq<char>)
    requires
        name.len() > 0,
        name.last() != '/',
    ensures
        in_mailbox("/proc/mailbox/"@ + name),
        artifact_name("/proc/mailbox/"@ + name) == Some(name),
        in_mailbox("/proc/mailbox"@),
        artifact_name("/proc/mailbox"@) is None,
        in_mailbox(path + "/"@) == in_mailbox(path),
        artifact_name(path + "/"@) == artifact_name(path),
        in_mailbox(path) ==> "/proc/mailbox"@.is_prefix_of(path),
        in_mailbox(path) && path.len() > 13 ==> path[13] == '/',
{
    reveal_strlit("/proc/mailbox/");
    reveal_strlit("/proc/mailbox");
    reveal_strlit("/");
    let base = "/proc/mailbox"@;
    let whole = "/proc/mailbox/"@ + name;
    assert(base.push('/') =~= "/proc/mailbox/"@);
    assert(whole.last() == name.last());
    assert(trim_slashes(whole) == whole);
    assert(base.push('/') =~= whole.subrange(0, 14));
    assert(whole.skip(14) =~= name);
    assert(trim_slashes(base) == base);
    assert((path + "/"@).drop_last() =~= path);
    assert(trim_slashes(path + "/"@) == trim_slashes(path));
    if in_mailbox(path) {
        crate::text_laws::trimming_takes_slashes_only(path);
        let t = trim_slashes(path);
        assert(t =~= path.subrange(0, t.len() as int));
        if t != base {
            assert(base.push('/') =~= t.subrange(0, 14));
            assert forall|k: int| 0 <= k < 13 implies base[k] == path[k] by {
                assert(base.push('/')[k] == t.subrange(0, 14)[k]);
            }
            assert(t.subrange(0, 14)[13] == '/');
        }
        assert(base =~= path.subrange(0, 13));
    }
}

/// A mailbox path shows what the store has of the tenant and the task under the name: an artifact
/// is a file of its length, a name under which artifacts stand is a directory, and anything else
/// is missing.
pub proof fn the_mailbox_shows_the_store<V: VirtualFs, S: ArtifactStore>(
    fs: MailboxFs<V, S>,
    path: Seq<char>,
    name: Seq<char>,
    got: Result<Seq<u8>, ArtifactErrorView>,
    listed: Result<Seq<ArtifactEntryView>, ArtifactErrorView>,
    bytes: Result<Seq<u8>, VfsErrorView>,
    there: bool,
    names: Result<Seq<Seq<char>>, VfsErrorView>,
    metadata: Result<FsMetadata, VfsErrorView>,
)
    requires
        path == "/proc/mailbox/"@ + name,
        name.len() > 0,
        name.last() != '/',
        forall|g: Result<Seq<u8>, ArtifactErrorView>| #[trigger] fs.artifacts().gets(fs.owner(), fs.task(), name, g) ==> g == got,
        forall|l: Result<Seq<ArtifactEntryView>, ArtifactErrorView>| #[trigger]
            fs.artifacts().lists(fs.owner(), fs.task(), l) ==> l == listed,
        fs.reads(path, bytes),
        fs.has(path, there),
        fs.lists(path, names),
        fs.describes(path, metadata),
    ensures
        bytes == match got {
            Ok(data) => Ok::<Seq<u8>, VfsErrorView>(data),
            Err(_) => Err(VfsErrorView::NotFound(path)),
        },
        there <==> metadata is Ok,
        listed matches Ok(entries) ==> names is Ok && is_listing_of(entry_paths(entries), name + "/"@, names->Ok_0),
        listed is Err ==> names is Err && names->Err_0 is Io,
        got matches Ok(data) ==> metadata is Ok && metadata->Ok_0.is_file && !metadata->Ok_0.is_dir && (data.len()
            <= u64::MAX ==> metadata->Ok_0.size == data.len()),
        got is Err ==> (metadata is Ok <==> (listed matches Ok(entries) && exists|i: int|
            0 <= i < entries.len() && (name + "/"@).is_prefix_of((#[trigger] entries[i]).path))),
        got is Err && metadata is Ok ==> metadata->Ok_0.is_dir && !metadata->Ok_0.is_file && metadata->Ok_0.size == 0,
        metadata is Err ==> metadata == Err::<FsMetadata, VfsErrorView>(VfsErrorView::NotFound(path)),
{
    mailbox_paths_name_artifacts(path, name);
    reveal_strlit("/");
    assert("/"@ =~= seq!['/']);
    if let Ok(entries) = listed {
        let paths = entry_paths(entries);
        if has_path_under(paths, name) {
            let i = choose|i: int| 0 <= i < paths.len() && (name + seq!['/']).is_prefix_of(#[trigger] paths[i]);
            assert((name + "/"@).is_prefix_of(entries[i].path));
        }
        if exists|i: int| 0 <= i < entries.len() && (name + "/"@).is_prefix_of((#[trigger] entries[i]).path) {
            let i = choose|i: int| 0 <= i < entries.len() && (name + "/"@).is_prefix_of((#[trigger] entries[i]).path);
            assert((name + seq!['/']).is_prefix_of(paths[i]));
        }
    }
}

/// The mailbox itself is a directory that lists every artifact of the task by its first name, and
/// can neither be read nor written.
pub proof fn the_mailbox_itself_is_a_directory<V: VirtualFs, S: ArtifactStore>(
    fs: MailboxFs<V, S>,
    data: Seq<u8>,
    after: MailboxFs<V, S>,
    out: Result<(), VfsErrorView>,
    listed: Result<Seq<ArtifactEntryView>, ArtifactErrorView>,
    bytes: Result<Seq<u8>, VfsErrorView>,
    there: bool,
    names: Result<Seq<Seq<char>>, VfsErrorView>,
    metadata: Result<FsMetadata, VfsErrorView>,
)
    requires
        forall|l: Result<Seq<ArtifactEntryView>, ArtifactErrorView>| #[trigger]
            fs.artifacts().lists(fs.owner(), fs.task(), l) ==> l == listed,
        fs.reads("/proc/mailbox"@, bytes),
        fs.has("/proc/mailbox"@, there),
        fs.lists("/proc/mailbox"@, names),
        fs.describes("/proc/mailbox"@, metadata),
        fs.writes("/proc/mailbox"@, data, after, out),
    ensures
        there,
        metadata is Ok && metadata->Ok_0.is_dir && !metadata->Ok_0.is_file,
        bytes is Err && bytes->Err_0 is NotAFile,
        out is Err && out->Err_0 is NotAFile && after.artifacts() == fs.artifacts(),
        listed matches Ok(entries) ==> names is Ok && is_listing_of(entry_paths(entries), Seq::empty(), names->Ok_0),
{
    reveal_strlit(".");
    mailbox_paths_name_artifacts(Seq::empty(), "."@);
}

/// An artifact is put into the store under the task, the tenant and its name, and directories of
/// the mailbox need no making.
pub proof fn artifacts_are_kept_by_task_and_tenant<V: VirtualFs, S: ArtifactStore>(
    fs: MailboxFs<V, S>,
    name: Seq<char>,
    data: Seq<u8>,
    after: MailboxFs<V, S>,
    out: Result<(), VfsErrorView>,
)
    requires
        name.len() > 0,
        name.last() != '/',
    ensures
        fs.writes("/proc/mailbox/"@ + name, data, after, out) ==> exists|stored: Result<(), ArtifactErrorView>| #[trigger]
            fs.artifacts().puts(fs.task(), fs.owner(), name, data, after.artifacts(), stored) && (out is Ok <==> stored is Ok),
        fs.writes("/proc/mailbox/"@ + name, data, after, out) && out is Err ==> out->Err_0 is Io,
        fs.writes("/proc/mailbox/"@ + name, data, after, out) ==> after.task() == fs.task() && after.owner() == fs.owner(),
        fs.writes("/proc/mailbox/"@ + name, data, after, out) && out is Ok && data.len() <= u64::MAX ==> (fs.notices() matches Some(
            before,
        ) ==> after.notices() is Some && after.notices()->0.len() == before.len() + 1 && after.notices()->0.last().size
            == data.len() && after.notices()->0.last().path == "/proc/mailbox/"@ + name && after.notices()->0.last().tenant
            == fs.owner()),
        fs.makes_dir("/proc/mailbox/"@ + name, after, out) ==> out is Ok && after.artifacts() == fs.artifacts()
            && after.inner_fs() == fs.inner_fs(),
{
    mailbox_paths_name_artifacts(Seq::empty(), name);
}

/// Snapshots hold the filesystem inside and leave the artifacts alone.
pub proof fn snapshots_leave_the_artifacts_alone<V: VirtualFs, S: ArtifactStore>(
    fs: MailboxFs<V, S>,
    saved: Result<Seq<u8>, VfsErrorView>,
    data: Seq<u8>,
    after: MailboxFs<V, S>,
    out: Result<(), VfsErrorView>,
)
    ensures
        fs.saves(saved) <==> fs.inner_fs().saves(saved),
        fs.restores(data, after, out) ==> fs.inner_fs().restores(data, after.inner_fs(), out) && after.artifacts()
            == fs.artifacts() && after.notices() == fs.notices(),
{
}

} // verus!
