//! Laws of what the filesystems deny and why, of which paths each layer answers for, and of what is
//! in their snapshots.
use crate::json::{parsed_bytes, printed, Json, JsonView};
use crate::path::normalize_is_idempotent;
use crate::path::{normalized, trim_slashes, under};
use crate::path_laws::paths_begin_at_the_root;
use crate::text::ascending;
use crate::text_laws::trimming_takes_slashes_only;
use crate::types::artifact::{ArtifactErrorView, ArtifactStore};
use crate::types::grants::at_or_below;
use crate::types::memory::{parsed_memory_path, MemoryCapabilityView};
use crate::types::vfs::{FsMetadata, VfsErrorView, VirtualFs};
use crate::vfs::agreement_laws::{from_root, whiteouts_hide_what_is_under_them};
use crate::vfs::layer_laws::is_some_file;
use crate::vfs::mailboxfs::{in_mailbox, MailboxFs};
use crate::vfs::memory_fs::{items_json, root, MemoryFs, Node};
use crate::vfs::memory_store_fs::{read_gate_of, write_gate_of};
use crate::vfs::overlay::{bytes_in, texts_in, OverlayFs};
use crate::vfs::proc_laws::{lemma_proc_names, lemma_proc_path};
use crate::vfs::procfs::{budget_value, capabilities_value, is_mailbox_path, is_proc_path, HookLister, ProcFs, ToolLister};
use crate::vfs::readonly_path_guard::ReadOnlyPathGuard;
use crate::vfs::servicefs::{is_service_path, IntegrationLister, ServiceFs};
use vstd::prelude::*;
use vstd::utf8::encode_utf8;

verus! {

broadcast use vstd::seq_lib::group_seq_properties;

proof fn lemma_below(path: Seq<char>, top: Seq<char>)
    ensures
        at_or_below(path, top) <==> under(path, top),
{
    reveal_strlit("/");
    assert(top + "/"@ =~= top.push('/'));
}

// ---- Which paths -------------------------------------------------------------

/// Slashes at the end apart, a path is one of the mailbox or of the services where it is at their
/// directory or below it; a path of `/proc` likewise, by its normal form.
pub proof fn layers_answer_for_their_directory(path: Seq<char>, bare: Seq<char>)
    requires
        bare == path || (bare.is_prefix_of(path) && forall|i: int| bare.len() <= i < path.len() ==> #[trigger] path[i] == '/'),
        bare.len() > 0,
        bare.last() != '/',
    ensures
        in_mailbox(path) <==> at_or_below(bare, "/proc/mailbox"@),
        is_service_path(path) <==> at_or_below(bare, "/svc"@),
        is_proc_path(path) <==> at_or_below(path, "/proc"@),
        is_mailbox_path(path) <==> at_or_below(path, "/proc/mailbox"@),
{
    trimming_takes_slashes_only(path);
    let t = trim_slashes(path);
    assert(t == bare) by {
        assert(t =~= path.subrange(0, t.len() as int));
        assert(bare =~= path.subrange(0, bare.len() as int));
        if t.len() < bare.len() {
            assert(path[bare.len() - 1] == '/');
            assert(path.subrange(0, bare.len() as int).last() == path[bare.len() - 1]);
        } else if t.len() > bare.len() {
            assert(path[t.len() - 1] == '/');
            assert(path.subrange(0, t.len() as int).last() == path[t.len() - 1]);
        }
    }
    lemma_below(bare, "/proc/mailbox"@);
    lemma_below(bare, "/svc"@);
    lemma_below(path, "/proc"@);
    lemma_below(path, "/proc/mailbox"@);
}

// ---- The memory --------------------------------------------------------------

/// In memory a file is read as its bytes, a directory is no file, and what is not there is missing;
/// the errors name the normal form of the path.
pub proof fn memory_says_why_it_cannot_read(fs: MemoryFs, path: Seq<char>, bytes: Result<Seq<u8>, VfsErrorView>, metadata: Result<
    FsMetadata,
    VfsErrorView,
>)
    requires
        fs.reads(path, bytes),
        fs.describes(path, metadata),
    ensures
        ({
            let p = normalized(path);
            if !fs.nodes().contains_key(p) {
                &&& bytes == Err::<Seq<u8>, VfsErrorView>(VfsErrorView::NotFound(p))
                &&& metadata == Err::<FsMetadata, VfsErrorView>(VfsErrorView::NotFound(p))
            } else {
                match fs.nodes()[p] {
                    Node::File(data) => bytes == Ok::<Seq<u8>, VfsErrorView>(data) && metadata is Ok && metadata->Ok_0.is_file
                        && !metadata->Ok_0.is_dir && (data.len() <= u64::MAX ==> metadata->Ok_0.size == data.len()),
                    Node::Dir => bytes == Err::<Seq<u8>, VfsErrorView>(VfsErrorView::NotAFile(p)) && metadata is Ok
                        && metadata->Ok_0.is_dir && !metadata->Ok_0.is_file && metadata->Ok_0.size == 0,
                }
            }
        }),
{
}

/// In memory the root is no file and cannot be removed, a file cannot be made a directory, and what is
/// not there cannot be removed.
pub proof fn memory_says_why_it_cannot_change(
    fs: MemoryFs,
    path: Seq<char>,
    data: Seq<u8>,
    after: MemoryFs,
    out: Result<(), VfsErrorView>,
)
    ensures
        ({
            let p = normalized(path);
            &&& fs.writes(path, data, after, out) && out is Err ==> p == root() && out->Err_0 == VfsErrorView::NotAFile(p)
            &&& fs.writes(path, data, after, out) && out is Ok ==> after.nodes().contains_key(p) && after.nodes()[p] == Node::File(data)
            &&& fs.makes_dir(path, after, out) && out is Err ==> fs.nodes()[p] is File && out->Err_0 == VfsErrorView::NotAFile(p)
            &&& fs.removes(path, after, out) && out is Err ==> (if p == root() {
                out->Err_0 == VfsErrorView::Io("cannot remove root"@)
            } else {
                out->Err_0 == VfsErrorView::NotFound(p)
            })
            &&& fs.removes(path, after, out) && out is Ok ==> forall|k: Seq<char>| #[trigger]
                after.nodes().contains_key(k) <==> fs.nodes().contains_key(k) && k != p && !(p.push('/')).is_prefix_of(k)
        }),
{
}

/// A snapshot of a memory lists every entry once, in the order of the paths: a file with its
/// contents, a directory without.
pub proof fn memory_snapshots_list_the_entries(fs: MemoryFs, out: Result<Seq<u8>, VfsErrorView>)
    requires
        fs.saves(out),
    ensures
        exists|items: Seq<(Seq<char>, bool, Seq<u8>)>|
            out == Ok::<Seq<u8>, VfsErrorView>(#[trigger] items_json(items)) && (forall|i: int, j: int|
                0 <= i < j < items.len() ==> crate::text::before((#[trigger] items[i]).0, (#[trigger] items[j]).0)) && (forall|i: int|
                0 <= i < items.len() ==> {
                    let item = #[trigger] items[i];
                    fs.nodes().contains_key(item.0) && match fs.nodes()[item.0] {
                        Node::File(data) => item.1 && item.2 == data,
                        Node::Dir => !item.1 && item.2.len() == 0,
                    }
                }) && (forall|k: Seq<char>| #[trigger]
                fs.nodes().contains_key(k) ==> exists|i: int| 0 <= i < items.len() && (#[trigger] items[i]).0 == k),
{
    let items = choose|items: Seq<(Seq<char>, bool, Seq<u8>)>|
        out == Ok::<Seq<u8>, VfsErrorView>(#[trigger] items_json(items)) && crate::vfs::memory_fs::is_listing(fs.nodes(), items);
    let paths = crate::vfs::memory_fs::item_paths(items);
    assert forall|i: int, j: int| 0 <= i < j < items.len() implies crate::text::before((#[trigger] items[i]).0, (#[trigger] items[j]).0) by {
        assert(paths[i] == items[i].0 && paths[j] == items[j].0);
    }
    assert forall|k: Seq<char>| #[trigger] fs.nodes().contains_key(k) implies exists|i: int|
        0 <= i < items.len() && (#[trigger] items[i]).0 == k by {
        let i = choose|i: int| 0 <= i < items.len() && (#[trigger] items[i]).0 == k;
        assert(items[i].0 == k);
    }
}

// ---- The overlay -------------------------------------------------------------

/// A snapshot of an overlay is an object with the bytes of the snapshot of its upper layer, the
/// hidden paths in ascending order, and the shadowed paths where there are any.
pub proof fn overlay_snapshots_hold_the_upper_layer<L: VirtualFs, U: VirtualFs>(
    fs: OverlayFs<L, U>,
    upper: Seq<u8>,
    out: Result<Seq<u8>, VfsErrorView>,
)
    requires
        forall|u: Result<Seq<u8>, VfsErrorView>| #[trigger]
            fs.upper_layer().saves(u) ==> u == Ok::<Seq<u8>, VfsErrorView>(upper),
        fs.saves(out),
    ensures
        exists|m: Map<Seq<char>, JsonView>, hidden: Seq<Seq<char>>, shadows: Seq<Seq<char>>|
            #![trigger is_overlay_object(m, upper, hidden, shadows)]
            {
                &&& out == Ok::<Seq<u8>, VfsErrorView>(encode_utf8(printed(JsonView::Object(m))))
                &&& is_overlay_object(m, upper, hidden, shadows)
                &&& ascending(hidden) && ascending(shadows)
                &&& forall|p: Seq<char>| #[trigger] hidden.contains(p) <==> fs.hidden().contains(p)
                &&& forall|p: Seq<char>| #[trigger] shadows.contains(p) <==> fs.shadowed().contains(p)
            },
{
    reveal_strlit("upper");
    reveal_strlit("whiteouts");
    reveal_strlit("shadows");
    assert("upper"@.len() == 5 && "whiteouts"@.len() == 9 && "shadows"@.len() == 7);
    let bytes = out->Ok_0;
    assert(crate::vfs::overlay::is_some_snapshot(upper, fs.hidden(), fs.shadowed(), bytes));
    let (json, hidden, shadows) = choose|json: Json, names: Seq<Seq<char>>, shadows: Seq<Seq<char>>| #[trigger]
        crate::vfs::overlay::is_snapshot(upper, fs.hidden(), fs.shadowed(), json, names, shadows, bytes);
    let m = json@->Object_0;
    assert(is_overlay_object(m, upper, hidden, shadows)) by {
        if shadows.len() == 0 {
            assert(m.dom() =~= set!["upper"@, "whiteouts"@]);
        } else {
            assert(m.dom() =~= set!["upper"@, "whiteouts"@, "shadows"@]);
        }
    }
}

/// The members of the snapshot of an overlay.
pub open spec fn is_overlay_object(
    m: Map<Seq<char>, JsonView>,
    upper: Seq<u8>,
    hidden: Seq<Seq<char>>,
    shadows: Seq<Seq<char>>,
) -> bool {
    &&& m.dom() == if shadows.len() == 0 {
        set!["upper"@, "whiteouts"@]
    } else {
        set!["upper"@, "whiteouts"@, "shadows"@]
    }
    &&& are_numbers(m["upper"@], upper)
    &&& are_texts(m["whiteouts"@], hidden)
    &&& shadows.len() > 0 ==> are_texts(m["shadows"@], shadows)
}

/// The list of these numbers.
pub open spec fn are_numbers(json: JsonView, bytes: Seq<u8>) -> bool {
    json matches JsonView::Array(items) && items.len() == bytes.len() && forall|i: int|
        0 <= i < bytes.len() ==> #[trigger] items[i] == JsonView::Unsigned(bytes[i] as u64)
}

/// The list of these texts.
pub open spec fn are_texts(json: JsonView, texts: Seq<Seq<char>>) -> bool {
    json matches JsonView::Array(items) && items.len() == texts.len() && forall|i: int|
        0 <= i < texts.len() ==> #[trigger] items[i] == JsonView::Text(texts[i])
}

proof fn lemma_bytes_in(items: Seq<JsonView>, bytes: Seq<u8>)
    requires
        are_numbers(JsonView::Array(items), bytes),
    ensures
        bytes_in(items) == Some(bytes),
    decreases items.len(),
{
    if items.len() > 0 {
        let n = items.len() - 1;
        assert(items[n] == JsonView::Unsigned(bytes[n] as u64));
        assert forall|i: int| 0 <= i < n implies #[trigger] items.drop_last()[i] == JsonView::Unsigned(bytes.drop_last()[i] as u64) by {
            assert(items[i] == JsonView::Unsigned(bytes[i] as u64));
        }
        lemma_bytes_in(items.drop_last(), bytes.drop_last());
        assert(bytes.drop_last().push(bytes[n]) =~= bytes);
    } else {
        assert(bytes =~= Seq::empty());
    }
}

proof fn lemma_texts_in(items: Seq<JsonView>, texts: Seq<Seq<char>>)
    requires
        are_texts(JsonView::Array(items), texts),
    ensures
        texts_in(items) == Some(texts),
    decreases items.len(),
{
    if items.len() > 0 {
        let n = items.len() - 1;
        assert(items[n] == JsonView::Text(texts[n]));
        assert forall|i: int| 0 <= i < n implies #[trigger] items.drop_last()[i] == JsonView::Text(texts.drop_last()[i]) by {
            assert(items[i] == JsonView::Text(texts[i]));
        }
        lemma_texts_in(items.drop_last(), texts.drop_last());
        assert(texts.drop_last().push(texts[n]) =~= texts);
    } else {
        assert(texts =~= Seq::empty());
    }
}

/// Restoring such an object hands the bytes to the upper layer and takes over the hidden and the
/// shadowed paths; the lower layer stays as it is.
pub proof fn overlays_are_restored_from_the_object<L: VirtualFs, U: VirtualFs>(
    fs: OverlayFs<L, U>,
    data: Seq<u8>,
    m: Map<Seq<char>, JsonView>,
    upper: Seq<u8>,
    hidden: Seq<Seq<char>>,
    shadows: Seq<Seq<char>>,
    after: OverlayFs<L, U>,
    out: Result<(), VfsErrorView>,
    p: Seq<char>,
)
    requires
        parsed_bytes(data) == Ok::<JsonView, Seq<char>>(JsonView::Object(m)),
        is_overlay_object(m, upper, hidden, shadows),
        fs.restores(data, after, out),
    ensures
        fs.upper_layer().restores(upper, after.upper_layer(), out),
        after.lower_layer() == fs.lower_layer(),
        out is Ok ==> (after.hidden().contains(p) <==> hidden.contains(p)) && (after.shadowed().contains(p) <==> shadows.contains(p)),
        out is Err ==> after.hidden() == fs.hidden() && after.shadowed() == fs.shadowed(),
{
    reveal_strlit("upper");
    reveal_strlit("whiteouts");
    reveal_strlit("shadows");
    assert("upper"@.len() == 5 && "whiteouts"@.len() == 9 && "shadows"@.len() == 7);
    assert(m.dom().contains("upper"@) && m.dom().contains("whiteouts"@));
    assert(m.contains_key("shadows"@) <==> shadows.len() > 0) by {
        assert(m.dom().contains("shadows"@) <==> shadows.len() > 0);
    }
    lemma_bytes_in(m["upper"@]->Array_0, upper);
    lemma_texts_in(m["whiteouts"@]->Array_0, hidden);
    if shadows.len() > 0 {
        lemma_texts_in(m["shadows"@]->Array_0, shadows);
    } else {
        assert(shadows =~= Seq::empty());
    }
}

/// A path of the set is at this path or above it.
pub open spec fn lies_under_some(set: Set<Seq<char>>, p: Seq<char>) -> bool {
    exists|q: Seq<char>| #[trigger] set.contains(q) && (q == "/"@ || q == p || (q + "/"@).is_prefix_of(p))
}

/// An overlay shows what its upper layer has, and else what its lower layer has, unless that is
/// shadowed; what is hidden is missing. Reading, looking and describing agree on it.
pub proof fn overlays_show_the_first_layer(
    fs: OverlayFs<MemoryFs, MemoryFs>,
    path: Seq<char>,
    bytes: Result<Seq<u8>, VfsErrorView>,
    there: bool,
    metadata: Result<FsMetadata, VfsErrorView>,
)
    requires
        forall|q: Seq<char>| #[trigger] fs.hidden().contains(q) ==> from_root(q),
        forall|q: Seq<char>| #[trigger] fs.shadowed().contains(q) ==> from_root(q),
        fs.reads(path, bytes),
        fs.has(path, there),
        fs.describes(path, metadata),
    ensures
        ({
            let p = normalized(path);
            let (upper, lower) = (fs.upper_layer().nodes(), fs.lower_layer().nodes());
            let shown = if lies_under_some(fs.hidden(), p) {
                None
            } else if upper.contains_key(p) {
                Some(upper[p])
            } else if lies_under_some(fs.shadowed(), p) || !lower.contains_key(p) {
                None
            } else {
                Some(lower[p])
            };
            match shown {
                None => {
                    &&& bytes == Err::<Seq<u8>, VfsErrorView>(VfsErrorView::NotFound(p))
                    &&& metadata == Err::<FsMetadata, VfsErrorView>(VfsErrorView::NotFound(p))
                    &&& !there
                },
                Some(Node::File(data)) => {
                    &&& bytes == Ok::<Seq<u8>, VfsErrorView>(data)
                    &&& metadata is Ok && metadata->Ok_0.is_file && !metadata->Ok_0.is_dir
                    &&& data.len() <= u64::MAX ==> metadata->Ok_0.size == data.len()
                    &&& there
                },
                Some(Node::Dir) => {
                    &&& bytes == Err::<Seq<u8>, VfsErrorView>(VfsErrorView::NotAFile(p))
                    &&& metadata is Ok && metadata->Ok_0.is_dir && !metadata->Ok_0.is_file && metadata->Ok_0.size == 0
                    &&& there
                },
            }
        }),
{
    let p = normalized(path);
    paths_begin_at_the_root(path);
    normalize_is_idempotent(path);
    whiteouts_hide_what_is_under_them(fs.hidden(), p);
    whiteouts_hide_what_is_under_them(fs.shadowed(), p);
}

/// The mailbox under `/proc` is listed as the filesystem inside lists it, as empty where it is not
/// there.
pub proof fn missing_mailboxes_are_listed_as_empty<V: VirtualFs, T: ToolLister, H: HookLister>(
    fs: ProcFs<V, T, H>,
    path: Seq<char>,
    inside: Result<Seq<Seq<char>>, VfsErrorView>,
    out: Result<Seq<Seq<char>>, VfsErrorView>,
)
    requires
        at_or_below(normalized(path), "/proc/mailbox"@),
        forall|r: Result<Seq<Seq<char>>, VfsErrorView>| #[trigger] fs.inner_fs().lists(normalized(path), r) ==> r == inside,
        fs.lists(path, out),
    ensures
        inside is Err && inside->Err_0 is NotFound ==> out is Ok && out->Ok_0.len() == 0,
        !(inside is Err && inside->Err_0 is NotFound) ==> out == inside,
{
    lemma_below(normalized(path), "/proc/mailbox"@);
    lemma_below(normalized(path), "/proc"@);
}

proof fn lemma_state_names()
    ensures
        crate::vfs::layer_laws::is_one_name("budget"@),
        crate::vfs::layer_laws::is_one_name("capabilities"@),
        "budget"@ != "mailbox"@,
        "capabilities"@ != "mailbox"@,
{
    reveal_strlit("budget");
    reveal_strlit("capabilities");
    reveal_strlit("mailbox");
    assert("mailbox"@.len() == 7 && "budget"@.len() == 6 && "capabilities"@.len() == 12);
    assert(forall|i: int| 0 <= i < 6 ==> "budget"@[i] != '/');
    assert(forall|i: int| 0 <= i < 12 ==> "capabilities"@[i] != '/');
}

/// The files of the budget and the capabilities show the values of the budget and the token.
#[verifier::spinoff_prover]
#[verifier::rlimit(80)]
pub proof fn budget_and_capability_files_show_their_values<V: VirtualFs, T: ToolLister, H: HookLister>(
    fs: ProcFs<V, T, H>,
    path: Seq<char>,
    file: &str,
    r: Option<String>,
    out: Result<Seq<u8>, VfsErrorView>,
)
    requires
        is_some_file(file@),
        fs.reads(path, out),
        (normalized(path) == "/proc/"@ + "budget"@ + "/"@ + file@ && call_ensures(budget_value, (&fs.proc_state().budget, file), r)) || (
        normalized(path) == "/proc/"@ + "capabilities"@ + "/"@ + file@ && call_ensures(
            capabilities_value,
            (&fs.proc_state().capabilities, file),
            r,
        )),
    ensures
        r matches Some(text) ==> out == Ok::<Seq<u8>, VfsErrorView>(encode_utf8(text@)),
        r is None ==> out == Err::<Seq<u8>, VfsErrorView>(VfsErrorView::NotFound(normalized(path))),
{
    lemma_proc_names();
    let dir = if normalized(path) == "/proc/"@ + "budget"@ + "/"@ + file@ && call_ensures(
        budget_value,
        (&fs.proc_state().budget, file),
        r,
    ) {
        "budget"@
    } else {
        "capabilities"@
    };
    lemma_state_names();
    lemma_proc_path(dir, file@);
    let v = choose|v: Option<Seq<char>>| #[trigger]
        crate::vfs::procfs::proc_gives(fs.proc_state(), dir, file@, v) && out == crate::vfs::synthetic::found(normalized(path), v);
    assert(crate::vfs::procfs::proc_gives(fs.proc_state(), dir, file@, v));
}

// ---- The mailbox -------------------------------------------------------------

/// An artifact is mirrored: after a write that succeeded over a memory it can be read there too.
pub proof fn artifacts_are_mirrored<S: ArtifactStore>(
    fs: MailboxFs<MemoryFs, S>,
    name: Seq<char>,
    data: Seq<u8>,
    after: MailboxFs<MemoryFs, S>,
    out: Result<(), VfsErrorView>,
    read: Result<Seq<u8>, VfsErrorView>,
)
    requires
        name.len() > 0,
        name.last() != '/',
        normalized("/proc/mailbox/"@ + name) != root(),
        fs.writes("/proc/mailbox/"@ + name, data, after, out),
        out is Ok,
        after.inner_fs().reads("/proc/mailbox/"@ + name, read),
    ensures
        read == Ok::<Seq<u8>, VfsErrorView>(data),
{
    crate::vfs::store_laws::mailbox_paths_name_artifacts(Seq::empty(), name);
}

/// A mailbox says why it takes nothing: an artifact cannot be removed, and what the store says
/// against a write is told as it is.
pub proof fn the_mailbox_says_why<V: VirtualFs, S: ArtifactStore>(
    fs: MailboxFs<V, S>,
    path: Seq<char>,
    name: Seq<char>,
    data: Seq<u8>,
    after: MailboxFs<V, S>,
    out: Result<(), VfsErrorView>,
)
    requires
        in_mailbox(path),
        name.len() > 0,
        name.last() != '/',
    ensures
        fs.removes(path, after, out) ==> out == Err::<(), VfsErrorView>(
            VfsErrorView::PermissionDenied(path + ": mailbox artifacts are immutable"@),
        ),
        fs.writes("/proc/mailbox/"@ + name, data, after, out) ==> exists|stored: Result<(), ArtifactErrorView>| #[trigger]
            fs.artifacts().puts(fs.task(), fs.owner(), name, data, after.artifacts(), stored) && match stored {
                Ok(_) => out is Ok,
                Err(e) => out == Err::<(), VfsErrorView>(
                    VfsErrorView::Io(
                        match e {
                            ArtifactErrorView::NotFound(s) => "artifact not found: "@ + s,
                            ArtifactErrorView::InvalidPath(s) => "invalid artifact path: "@ + s,
                            ArtifactErrorView::Io(s) => "io error: "@ + s,
                        },
                    ),
                ),
            },
{
    crate::vfs::store_laws::mailbox_paths_name_artifacts(path, name);
}

// ---- Denials -----------------------------------------------------------------

/// A guard says which directory is read-only, and which path was asked for.
pub proof fn guards_say_what_is_locked<V: VirtualFs>(
    inner: V,
    top: &str,
    fs: ReadOnlyPathGuard<V>,
    path: Seq<char>,
    data: Seq<u8>,
    after: ReadOnlyPathGuard<V>,
    out: Result<(), VfsErrorView>,
)
    requires
        call_ensures(ReadOnlyPathGuard::<V>::new, (inner, top), fs),
        top@.len() > 0,
        top@.last() != '/',
        at_or_below(normalized(path), top@),
        fs.writes(path, data, after, out) || fs.makes_dir(path, after, out) || fs.removes(path, after, out),
    ensures
        out == Err::<(), VfsErrorView>(VfsErrorView::PermissionDenied("path is read-only ("@ + top@ + "): "@ + path)),
{
    reveal_strlit("/");
    crate::vfs::layer_laws::guards_lock_what_they_were_made_for(inner, top, top@, fs, path, data, after, out);
    let locked = crate::vfs::readonly_path_guard::with_slash(top@);
    assert(!"/"@.is_suffix_of(top@)) by {
        if "/"@.is_suffix_of(top@) {
            assert(top@.subrange(top@.len() - 1, top@.len() as int)[0] == '/');
        }
    }
    assert(locked.drop_last() =~= top@);
    assert(trim_slashes(top@) == top@);
    assert(trim_slashes(locked) == top@);
    lemma_below(normalized(path), top@);
}

/// Nothing under `/svc`, and nothing under `/proc` but the mailbox, can change, and the error says
/// which path is read-only.
pub proof fn made_up_directories_say_they_are_read_only<V: VirtualFs, I: IntegrationLister, T: ToolLister, H: HookLister>(
    svc: ServiceFs<V, I>,
    svc_after: ServiceFs<V, I>,
    fs: ProcFs<V, T, H>,
    after: ProcFs<V, T, H>,
    path: Seq<char>,
    data: Seq<u8>,
    out: Result<(), VfsErrorView>,
)
    ensures
        is_service_path(path) && (svc.writes(path, data, svc_after, out) || svc.makes_dir(path, svc_after, out) || svc.removes(
            path,
            svc_after,
            out,
        )) ==> out == Err::<(), VfsErrorView>(VfsErrorView::PermissionDenied(path + " is read-only"@)),
        is_proc_path(normalized(path)) && !is_mailbox_path(normalized(path)) && (fs.writes(path, data, after, out) || fs.makes_dir(
            path,
            after,
            out,
        ) || fs.removes(path, after, out)) ==> out == Err::<(), VfsErrorView>(
            VfsErrorView::PermissionDenied(normalized(path) + " is read-only"@),
        ),
{
}

/// A path of the memory that is not let through is denied with the operation, the scopes that do
/// not hold it, and the path as it was asked for.
pub proof fn memory_denials_say_why(cap: MemoryCapabilityView, what: Seq<char>, path: Seq<char>, p: Seq<char>)
    requires
        parsed_memory_path(path) == Ok::<Seq<char>, crate::types::memory::MemoryPathError>(p),
    ensures
        read_gate_of(cap, what, path) matches Err(e) ==> e == VfsErrorView::PermissionDenied(
            what + " outside memory search_scopes: "@ + path,
        ),
        write_gate_of(cap, what, path) matches Err(e) ==> e == VfsErrorView::PermissionDenied(
            if at_or_below(p, "/mnt"@) {
                "/mnt is admin-ingested only: "@ + path
            } else {
                what + " outside memory write_scopes: "@ + path
            },
        ),
{
    lemma_below(p, "/mnt"@);
}

} // verus!
