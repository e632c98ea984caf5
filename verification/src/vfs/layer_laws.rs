//! Laws of the layers that guard, announce and make up files.
use crate::path::{normalized, trim_slashes, under};
use crate::text_laws::texts_are_cut_at_the_first;
use crate::types::grants::at_or_below;
use crate::types::vfs::{deliver, path_matches_prefix, watched, Delivery, FsMetadata, Received, VfsErrorView, VfsEvent, VfsEventView, VirtualFs};
use crate::vfs::notifying::NotifyingFsLayer;
use crate::vfs::readonly_path_guard::{is_locked_by, with_slash, ReadOnlyPathGuard};
use crate::vfs::servicefs::{is_service_path, metadata_is, names_are, readme_is, service_path, skills_are, svc_integration, IntegrationLister, ServiceFs, ServicePath};
use vstd::prelude::*;
use vstd::utf8::encode_utf8;

verus! {

broadcast use vstd::seq_lib::group_seq_properties;

// ---- The guard ---------------------------------------------------------------

proof fn lemma_at_or_below(path: Seq<char>, top: Seq<char>)
    ensures
        at_or_below(path, top) <==> under(path, top),
{
    reveal_strlit("/");
    assert(top + "/"@ =~= top.push('/'));
}

/// A guard made for `top`, with a slash at its end or without, denies every change at or below it,
/// by the normal form of the path, and hands every other change on.
pub proof fn guards_lock_what_they_were_made_for<V: VirtualFs>(
    inner: V,
    prefix: &str,
    top: Seq<char>,
    fs: ReadOnlyPathGuard<V>,
    path: Seq<char>,
    data: Seq<u8>,
    after: ReadOnlyPathGuard<V>,
    out: Result<(), VfsErrorView>,
)
    requires
        call_ensures(ReadOnlyPathGuard::<V>::new, (inner, prefix), fs),
        top.len() > 0,
        top.last() != '/',
        prefix@ == top || prefix@ == top + "/"@,
    ensures
        at_or_below(normalized(path), top) && (fs.writes(path, data, after, out) || fs.makes_dir(path, after, out) || fs.removes(
            path,
            after,
            out,
        )) ==> out is Err && out->Err_0 is PermissionDenied && after.inner_fs() == inner,
        !at_or_below(normalized(path), top) && fs.writes(path, data, after, out) ==> inner.writes(path, data, after.inner_fs(), out),
        !at_or_below(normalized(path), top) && fs.makes_dir(path, after, out) ==> inner.makes_dir(path, after.inner_fs(), out),
        !at_or_below(normalized(path), top) && fs.removes(path, after, out) ==> inner.removes(path, after.inner_fs(), out),
        fs.restores(data, after, out) ==> inner.restores(data, after.inner_fs(), out),
{
    reveal_strlit("/");
    let locked = with_slash(prefix@);
    assert(locked =~= top + "/"@) by {
        if prefix@ == top {
            assert(!"/"@.is_suffix_of(prefix@)) by {
                if "/"@.is_suffix_of(prefix@) {
                    assert(prefix@.subrange(prefix@.len() - 1, prefix@.len() as int)[0] == '/');
                }
            }
        } else {
            assert("/"@ =~= prefix@.subrange(prefix@.len() - 1, prefix@.len() as int));
        }
    }
    assert(locked.drop_last() =~= top);
    assert(trim_slashes(top) == top);
    assert(trim_slashes(locked) == top);
    assert(is_locked_by(fs.prefix(), path) == at_or_below(normalized(path), top));
}

// ---- Announcing --------------------------------------------------------------

/// The event of a write says the tenant, the path and the number of bytes, and the event of a
/// removal the tenant and the path.
pub proof fn events_say_what_changed<V: VirtualFs>(
    fs: NotifyingFsLayer<V>,
    path: Seq<char>,
    data: Seq<u8>,
    after: NotifyingFsLayer<V>,
    out: Result<(), VfsErrorView>,
)
    ensures
        fs.writes(path, data, after, out) && out is Ok && data.len() <= u64::MAX ==> after.pending().len() > 0 && (
        after.pending().last() matches VfsEventView::Written { tenant, path: told, len } && tenant == fs.owner() && told == path
            && len == data.len()),
        fs.removes(path, after, out) && out is Ok ==> after.pending().len() > 0 && after.pending().last() == (
        VfsEventView::Removed { tenant: fs.owner(), path }),
        fs.writes(path, data, after, out) || fs.removes(path, after, out) || fs.makes_dir(path, after, out) || fs.restores(
            data,
            after,
            out,
        ) ==> after.owner() == fs.owner() && after.ring() == fs.ring(),
{
}

/// A watcher of `top`, with a slash at its end or without, sees what is at or below it; a watcher
/// of nothing, or of the root, sees everything.
pub proof fn watchers_see_what_is_below_their_prefix(path: Seq<char>, top: Seq<char>)
    requires
        top.len() > 0,
        top.last() != '/',
    ensures
        watched(path, top) <==> at_or_below(path, top),
        watched(path, top + "/"@) <==> at_or_below(path, top),
        watched(path, Seq::empty()),
        watched(path, "/"@),
{
    reveal_strlit("/");
    lemma_at_or_below(path, top);
    assert(trim_slashes(top) == top);
    assert((top + "/"@).drop_last() =~= top);
    assert(trim_slashes(top + "/"@) == top);
    assert("/"@ =~= (top + "/"@).subrange(top.len() as int, top.len() as int + 1));
    assert(!"/"@.is_suffix_of(top)) by {
        if "/"@.is_suffix_of(top) {
            assert(top.subrange(top.len() - 1, top.len() as int)[0] == '/');
        }
    }
    assert("/"@.drop_last() =~= Seq::<char>::empty());
    assert(trim_slashes("/"@) == trim_slashes("/"@.drop_last()));
}

/// A watcher is handed the events at or below its prefix, told of the events that it missed
/// whatever its prefix, and ends when nobody publishes any more.
pub proof fn watchers_are_handed_their_events(received: Received, prefix: &str, r: Delivery, path: &str, b: bool)
    requires
        call_ensures(deliver, (received, prefix), r),
    ensures
        call_ensures(path_matches_prefix, (path, prefix), b) ==> (b <==> watched(path@, prefix@)),
        received is Closed <==> r is End,
        received matches Received::Lagged(n) ==> r is Deliver && r->Deliver_0@ == (VfsEventView::Skipped { count: n }),
        received matches Received::Event(event) ==> match event {
            VfsEvent::Written { tenant: _, path, len: _ } => if watched(path@, prefix@) {
                r == Delivery::Deliver(event)
            } else {
                r is Ignore
            },
            VfsEvent::Removed { tenant: _, path } => if watched(path@, prefix@) {
                r == Delivery::Deliver(event)
            } else {
                r is Ignore
            },
            VfsEvent::Skipped { count: _ } => r == Delivery::Deliver(event),
        },
{
}

// ---- Services ----------------------------------------------------------------

/// A name without a slash.
pub open spec fn is_one_name(name: Seq<char>) -> bool {
    name.len() > 0 && !name.contains('/')
}

/// Some path that does not end in a slash.
pub open spec fn is_some_file(file: Seq<char>) -> bool {
    file.len() > 0 && file[file.len() - 1] != '/'
}

/// What the paths under `/svc` name: the directory itself, an integration, and what stands in it.
pub proof fn service_paths_name_integrations(name: Seq<char>, file: Seq<char>)
    requires
        is_one_name(name),
        is_some_file(file),
    ensures
        is_service_path("/svc"@),
        service_path("/svc"@) is Root,
        is_service_path("/svc/"@ + name),
        service_path("/svc/"@ + name) == ServicePath::Integration(name),
        is_service_path("/svc/"@ + name + "/"@ + file),
        service_path("/svc/"@ + name + "/"@ + file) == (ServicePath::Entry { name, file }),
{
    reveal_strlit("/svc");
    reveal_strlit("/svc/");
    reveal_strlit("/");
    let base = "/svc"@;
    assert(base.push('/') =~= "/svc/"@);
    assert(trim_slashes(base) == base);
    let a = "/svc/"@ + name;
    assert(name.contains(name.last()));
    assert(a.last() == name.last());
    assert(trim_slashes(a) == a);
    assert(base.push('/') =~= a.subrange(0, 5));
    assert(a.skip(5) =~= name);
    let b = a + "/"@ + file;
    assert(b.last() == file.last());
    assert(trim_slashes(b) == b);
    assert(base.push('/') =~= b.subrange(0, 5));
    assert(b.skip(5) =~= name + seq!['/'] + file);
    texts_are_cut_at_the_first(name, '/', file);
}

/// The integration that a path is about.
pub proof fn paths_are_about_integrations(path: &str, name: Seq<char>, file: Seq<char>, r: Option<String>)
    requires
        call_ensures(svc_integration, (path,), r),
        is_one_name(name),
        is_some_file(file),
    ensures
        path@ == "/svc"@ ==> r is Some && r->0@ == "svc"@,
        path@ == "/svc/"@ + name || path@ == "/svc/"@ + name + "/"@ + file ==> r is Some && r->0@ == name,
        !"/svc"@.is_prefix_of(path@) ==> r is None,
{
    service_paths_name_integrations(name, file);
    reveal_strlit("/svc");
    if is_service_path(path@) {
        let t = trim_slashes(path@);
        crate::text_laws::trimming_takes_slashes_only(path@);
        assert("/svc"@ =~= path@.subrange(0, 4)) by {
            assert forall|k: int| 0 <= k < 4 implies "/svc"@[k] == path@[k] by {
                assert(t[k] == path@.subrange(0, t.len() as int)[k]);
                if t != "/svc"@ {
                    assert("/svc"@.push('/')[k] == t.subrange(0, 5)[k]);
                }
            }
        }
    }
}

/// The files of an integration are its README and its metadata, as the lister tells them; there
/// are no others, and directories are no files.
pub proof fn integrations_are_read_from_the_lister<V: VirtualFs, I: IntegrationLister>(
    fs: ServiceFs<V, I>,
    name: Seq<char>,
    file: Seq<char>,
    readme: Option<Seq<char>>,
    config: Option<Seq<char>>,
    out: Result<Seq<u8>, VfsErrorView>,
)
    requires
        is_one_name(name),
        is_some_file(file),
        forall|r: Option<Seq<char>>| #[trigger] readme_is(fs.lister(), name, r) ==> r == readme,
        forall|r: Option<Seq<char>>| #[trigger] metadata_is(fs.lister(), name, r) ==> r == config,
    ensures
        fs.reads("/svc"@, out) ==> out is Err && out->Err_0 is NotAFile,
        fs.reads("/svc/"@ + name, out) ==> out is Err && out->Err_0 is NotAFile,
        fs.reads("/svc/"@ + name + "/"@ + file, out) ==> out == (if file == "README.md"@ && readme is Some {
            Ok::<Seq<u8>, VfsErrorView>(encode_utf8(readme->0))
        } else if file == "config.json"@ && config is Some {
            Ok(encode_utf8(config->0))
        } else {
            Err(VfsErrorView::NotFound("/svc/"@ + name + "/"@ + file))
        }),
{
    service_paths_name_integrations(name, file);
    reveal_strlit("README.md");
    reveal_strlit("config.json");
    assert("README.md"@.len() == 9 && "config.json"@.len() == 11);
}

/// `/svc` lists the integrations in order, an integration its three entries, and `skills` its
/// skills; nothing can be listed of an integration that the lister does not have.
pub proof fn integrations_are_listed_from_the_lister<V: VirtualFs, I: IntegrationLister>(
    fs: ServiceFs<V, I>,
    name: Seq<char>,
    config: Option<Seq<char>>,
    names: Seq<Seq<char>>,
    skills: Seq<Seq<char>>,
    out: Result<Seq<Seq<char>>, VfsErrorView>,
)
    requires
        is_one_name(name),
        forall|r: Option<Seq<char>>| #[trigger] metadata_is(fs.lister(), name, r) ==> r == config,
        forall|r: Seq<Seq<char>>| #[trigger] names_are(fs.lister(), r) ==> r == names,
        forall|r: Seq<Seq<char>>| #[trigger] skills_are(fs.lister(), name, r) ==> r == skills,
    ensures
        fs.lists("/svc"@, out) ==> out is Ok && out->Ok_0.to_multiset() == names.to_multiset() && forall|i: int, j: int|
            0 <= i < j < out->Ok_0.len() ==> !crate::text::before(#[trigger] out->Ok_0[j], #[trigger] out->Ok_0[i]),
        fs.lists("/svc/"@ + name, out) ==> out == (if config is Some {
            Ok::<Seq<Seq<char>>, VfsErrorView>(seq!["README.md"@, "config.json"@, "skills"@])
        } else {
            Err(VfsErrorView::NotFound("/svc/"@ + name))
        }),
        fs.lists("/svc/"@ + name + "/"@ + "skills"@, out) ==> out == (if config is Some {
            Ok::<Seq<Seq<char>>, VfsErrorView>(skills)
        } else {
            Err(VfsErrorView::NotFound("/svc/"@ + name + "/"@ + "skills"@))
        }),
{
    reveal_strlit("skills");
    service_paths_name_integrations(name, "skills"@);
}

/// An integration is there where the lister has its metadata: then it is a directory, its skills
/// are, and nothing else stands in it but its two files.
pub proof fn integrations_are_described_from_the_lister<V: VirtualFs, I: IntegrationLister>(
    fs: ServiceFs<V, I>,
    name: Seq<char>,
    file: Seq<char>,
    config: Option<Seq<char>>,
    out: Result<FsMetadata, VfsErrorView>,
    there: bool,
)
    requires
        is_one_name(name),
        is_some_file(file),
        forall|r: Option<Seq<char>>| #[trigger] metadata_is(fs.lister(), name, r) ==> r == config,
    ensures
        fs.describes("/svc"@, out) ==> out is Ok && out->Ok_0.is_dir,
        fs.has("/svc"@, there) ==> there,
        fs.describes("/svc/"@ + name, out) ==> (out is Ok <==> config is Some) && (out is Ok ==> out->Ok_0.is_dir && !out->Ok_0.is_file),
        fs.has("/svc/"@ + name, there) ==> (there <==> config is Some),
        fs.describes("/svc/"@ + name + "/"@ + "skills"@, out) ==> (out is Ok <==> config is Some) && (out is Ok
            ==> out->Ok_0.is_dir && !out->Ok_0.is_file),
        fs.describes("/svc/"@ + name + "/"@ + "config.json"@, out) ==> (out is Ok <==> config is Some) && (out is Ok
            ==> out->Ok_0.is_file && !out->Ok_0.is_dir && out->Ok_0.size == encode_utf8(config->0).len() as u64),
        file != "README.md"@ && file != "config.json"@ && file != "skills"@ && fs.describes("/svc/"@ + name + "/"@ + file, out)
            ==> out is Err && out->Err_0 is NotFound,
        config is None && fs.describes("/svc/"@ + name + "/"@ + file, out) ==> out is Err && out->Err_0 is NotFound,
{
    reveal_strlit("skills");
    reveal_strlit("README.md");
    reveal_strlit("config.json");
    assert("skills"@.len() == 6 && "README.md"@.len() == 9 && "config.json"@.len() == 11);
    service_paths_name_integrations(name, "skills"@);
    service_paths_name_integrations(name, "config.json"@);
    service_paths_name_integrations(name, file);
}

} // verus!
