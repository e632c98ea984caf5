//! Laws of the overlay filesystem.
use crate::json::{parse_depth, plain, printed, Json};
use crate::path::{all_names, components, is_name, lemma_components, lemma_components_of_rooted, lemma_rooted_under, lemma_split_rooted, lemma_split_under, normalize_is_idempotent, normalized, rooted, under};
use crate::text::{ascending, join_with, split_at_char};
use crate::types::vfs::{FsMetadata, VfsErrorView, VirtualFs};
use crate::vfs::memory_fs::{child, root, with_dirs, MemoryFs, Node};
use crate::vfs::memory_laws::{has_parents, is_tree_of, restore_gives_back_the_snapshot};
use crate::vfs::overlay::{at_or_above, buried, hides, is_snapshot, is_some_snapshot, lemma_overlay_json, revealed, saved_with, OverlayFs};
use vstd::prelude::*;
use vstd::utf8::encode_utf8;

verus! {

broadcast use vstd::seq_lib::group_seq_properties;

/// No operation changes the lower layer.
pub proof fn lower_layer_never_changes<L: VirtualFs, U: VirtualFs>(
    fs: OverlayFs<L, U>,
    path: Seq<char>,
    data: Seq<u8>,
    after: OverlayFs<L, U>,
    out: Result<(), VfsErrorView>,
)
    requires
        fs.writes(path, data, after, out) || fs.makes_dir(path, after, out) || fs.removes(path, after, out)
            || fs.restores(data, after, out),
    ensures
        after.lower_layer() == fs.lower_layer(),
{
}

/// What the upper layer has shadows what the lower layer has.
pub proof fn upper_shadows_lower<L: VirtualFs, U: VirtualFs>(
    fs: OverlayFs<L, U>,
    path: Seq<char>,
    data: Seq<u8>,
    out: Result<Seq<u8>, VfsErrorView>,
)
    requires
        !hides(fs.hidden(), normalized(path)),
        forall|u: Result<Seq<u8>, VfsErrorView>| #[trigger]
            fs.upper_layer().reads(normalized(path), u) ==> u == Ok::<Seq<u8>, VfsErrorView>(data),
        fs.reads(path, out),
    ensures
        out == Ok::<Seq<u8>, VfsErrorView>(data),
{
}

/// What the upper layer does not have is read from the lower one, where it was not removed.
pub proof fn lower_shows_through<L: VirtualFs, U: VirtualFs>(
    fs: OverlayFs<L, U>,
    path: Seq<char>,
    out: Result<Seq<u8>, VfsErrorView>,
)
    requires
        !fs.covers_lower(normalized(path)),
        forall|u: Result<Seq<u8>, VfsErrorView>| #[trigger]
            fs.upper_layer().reads(normalized(path), u) ==> u is Err && u->Err_0 is NotFound,
        fs.reads(path, out),
    ensures
        fs.lower_layer().reads(normalized(path), out),
{
}

/// A path that was written or created is not hidden.
proof fn lemma_revealed(hidden: Set<Seq<char>>, p: Seq<char>)
    ensures
        !hides(revealed(hidden, p), p),
{
}

/// Over an upper layer in memory, a successful write is what a read gives, also of a
/// path that had been removed.
pub proof fn read_gives_back_the_overlay_write<L: VirtualFs>(
    fs: OverlayFs<L, MemoryFs>,
    path: Seq<char>,
    data: Seq<u8>,
    after: OverlayFs<L, MemoryFs>,
    out: Result<Seq<u8>, VfsErrorView>,
)
    requires
        fs.writes(path, data, after, Ok(())),
        after.reads(path, out),
    ensures
        out == Ok::<Seq<u8>, VfsErrorView>(data),
{
    let p = normalized(path);
    lemma_revealed(fs.hidden(), p);
    normalize_is_idempotent(path);
}

/// A path under one that is hidden is hidden.
proof fn lemma_hidden_below(hidden: Set<Seq<char>>, p: Seq<char>, q: Seq<char>)
    requires
        hidden.contains(p),
        p.len() > 0,
        p[0] == '/',
        under(q, p),
    ensures
        hides(hidden, q),
{
    if q != p {
        assert(q.take(p.len() as int) =~= p);
        assert(q[p.len() as int] == '/') by {
            assert(q.subrange(0, p.push('/').len() as int)[p.len() as int] == '/');
        }
        assert(at_or_above(p, q));
    }
}

/// What was removed is gone, with all under it, whatever the lower layer has.
pub proof fn removed_is_gone<L: VirtualFs, U: VirtualFs>(
    fs: OverlayFs<L, U>,
    path: Seq<char>,
    after: OverlayFs<L, U>,
    below: Seq<char>,
    bytes: Result<Seq<u8>, VfsErrorView>,
    names: Result<Seq<Seq<char>>, VfsErrorView>,
    metadata: Result<FsMetadata, VfsErrorView>,
    present: bool,
)
    requires
        fs.removes(path, after, Ok(())),
        under(normalized(below), normalized(path)),
        after.reads(below, bytes),
        after.lists(below, names),
        after.describes(below, metadata),
        after.has(below, present),
    ensures
        bytes == Err::<Seq<u8>, VfsErrorView>(VfsErrorView::NotFound(normalized(below))),
        names == Err::<Seq<Seq<char>>, VfsErrorView>(VfsErrorView::NotFound(normalized(below))),
        metadata == Err::<FsMetadata, VfsErrorView>(VfsErrorView::NotFound(normalized(below))),
        !present,
{
    let p = normalized(path);
    assert(p[0] == '/');
    lemma_hidden_below(after.hidden(), p, normalized(below));
}

/// What was removed from the lower layer stays removed: once it does not show at a path, no
/// write, no new directory and no removal makes it show there again.
pub proof fn removed_stays_removed<L: VirtualFs, U: VirtualFs>(
    fs: OverlayFs<L, U>,
    path: Seq<char>,
    data: Seq<u8>,
    after: OverlayFs<L, U>,
    out: Result<(), VfsErrorView>,
    gone: Seq<char>,
)
    requires
        fs.covers_lower(gone),
        fs.writes(path, data, after, out) || fs.makes_dir(path, after, out) || fs.removes(path, after, out),
    ensures
        after.covers_lower(gone),
{
    let p = normalized(path);
    if hides(fs.hidden(), gone) {
        let q = choose|q: Seq<char>| #[trigger] fs.hidden().contains(q) && at_or_above(q, gone);
        if !after.hidden().contains(q) {
            assert(buried(fs.hidden(), p).contains(q));
            assert(after.shadowed().contains(q));
        }
    } else {
        let q = choose|q: Seq<char>| #[trigger] fs.shadowed().contains(q) && at_or_above(q, gone);
        assert(after.shadowed().contains(q));
    }
}

/// Over an upper layer in memory, writing a file next to what was removed does not bring that
/// back: it is not there before the next write to it.
pub proof fn writing_beside_brings_nothing_back<L: VirtualFs>(
    fs: OverlayFs<L, MemoryFs>,
    path: Seq<char>,
    data: Seq<u8>,
    after: OverlayFs<L, MemoryFs>,
    out: Result<(), VfsErrorView>,
    gone: Seq<char>,
    bytes: Result<Seq<u8>, VfsErrorView>,
    present: bool,
)
    requires
        fs.covers_lower(normalized(gone)),
        fs.writes(path, data, after, out),
        !after.upper_layer().nodes().contains_key(normalized(gone)),
        after.reads(gone, bytes),
        after.has(gone, present),
    ensures
        bytes == Err::<Seq<u8>, VfsErrorView>(VfsErrorView::NotFound(normalized(gone))),
        !present,
{
    removed_stays_removed(fs, path, data, after, out, normalized(gone));
    normalize_is_idempotent(gone);
}

/// Nothing that the upper layer has stands at or under a path that was removed, but the root.
pub open spec fn upper_is_shown<L: VirtualFs>(fs: OverlayFs<L, MemoryFs>) -> bool {
    forall|w: Seq<char>, k: Seq<char>|
        #![trigger fs.hidden().contains(w), fs.upper_layer().nodes().contains_key(k)]
        fs.hidden().contains(w) && w != root() && fs.upper_layer().nodes().contains_key(k) ==> !at_or_above(w, k)
}

/// `q` is `p` or one of the paths above it, so what is at or above `q` is at or above `p`.
proof fn lemma_above_of_above(w: Seq<char>, names: Seq<Seq<char>>, i: int)
    requires
        0 < i <= names.len(),
        all_names(names),
        at_or_above(w, rooted(names.take(i))),
    ensures
        at_or_above(w, rooted(names)),
{
    let q = rooted(names.take(i));
    let p = rooted(names);
    lemma_rooted_under(names, i);
    if q != p {
        assert(q.push('/') =~= p.subrange(0, q.len() as int + 1));
        assert(p.take(q.len() as int) =~= q);
        assert(p[q.len() as int] == '/') by {
            assert(p.subrange(0, q.len() as int + 1)[q.len() as int] == '/');
        }
        if w != q && w != root() {
            assert(w =~= p.take(w.len() as int));
            assert(p[w.len() as int] == q[w.len() as int]);
        }
        assert(p[0] == '/');
    }
}

/// Every operation keeps what the upper layer has shown.
pub proof fn the_upper_layer_stays_shown<L: VirtualFs>(
    fs: OverlayFs<L, MemoryFs>,
    path: Seq<char>,
    data: Seq<u8>,
    after: OverlayFs<L, MemoryFs>,
    out: Result<(), VfsErrorView>,
)
    requires
        is_tree_of(fs.upper_layer().nodes()),
        upper_is_shown(fs),
        fs.writes(path, data, after, out) || fs.makes_dir(path, after, out) || fs.removes(path, after, out),
    ensures
        upper_is_shown(after),
{
    let p = normalized(path);
    let nodes = fs.upper_layer().nodes();
    let new = after.upper_layer().nodes();
    normalize_is_idempotent(path);
    lemma_components(path);
    let names = components(p);
    assert forall|w: Seq<char>, k: Seq<char>|
        #![trigger after.hidden().contains(w), after.upper_layer().nodes().contains_key(k)]
        after.hidden().contains(w) && w != root() && new.contains_key(k) implies !at_or_above(w, k) by {
        if fs.removes(path, after, out) && !(fs.writes(path, data, after, out) || fs.makes_dir(path, after, out)) {
            lemma_removed_upper(fs, path, after, out, w, k);
        } else {
            assert(fs.hidden().contains(w) && !at_or_above(w, p));
            if !nodes.contains_key(k) {
                lemma_new_entries(nodes, names, names.len() - 1);
                if k != p {
                    let i = choose|i: int| #![trigger names.take(i)] 0 < i <= names.len() - 1 && k == rooted(names.take(i));
                    if at_or_above(w, k) {
                        lemma_above_of_above(w, names, i);
                    }
                }
            }
        }
    }
}

proof fn lemma_removed_upper<L: VirtualFs>(
    fs: OverlayFs<L, MemoryFs>,
    path: Seq<char>,
    after: OverlayFs<L, MemoryFs>,
    out: Result<(), VfsErrorView>,
    w: Seq<char>,
    k: Seq<char>,
)
    requires
        is_tree_of(fs.upper_layer().nodes()),
        upper_is_shown(fs),
        fs.removes(path, after, out),
        after.hidden().contains(w),
        w != root(),
        after.upper_layer().nodes().contains_key(k),
    ensures
        !at_or_above(w, k),
{
    let p = normalized(path);
    normalize_is_idempotent(path);
    let nodes = fs.upper_layer().nodes();
    assert(nodes.contains_key(k));
    if !fs.hidden().contains(w) && at_or_above(p, k) {
        assert(w == p);
        assert(under(k, p)) by {
            if k != p {
                assert(p.push('/') =~= k.subrange(0, p.len() as int + 1));
            }
        }
        lemma_above_is_there(nodes, path, k);
    }
}

/// A tree that has something under a path has the path.
proof fn lemma_above_is_there(nodes: Map<Seq<char>, Node>, path: Seq<char>, k: Seq<char>)
    requires
        is_tree_of(nodes),
        nodes.contains_key(k),
        under(k, normalized(path)),
    ensures
        nodes.contains_key(normalized(path)),
{
    let p = normalized(path);
    let e = seq![Seq::<char>::empty()];
    let above = components(path);
    let names = components(k);
    lemma_components(path);
    lemma_components(k);
    assert(has_parents(nodes, k));
    if k != p && above.len() > 0 {
        lemma_split_under(k, p);
        lemma_split_rooted(above);
        lemma_split_rooted(names);
        let lead = e + above;
        assert(split_at_char(k, '/') == e + names);
        assert(lead == (e + names).subrange(0, lead.len() as int));
        assert(above.len() <= names.len());
        assert(above =~= names.take(above.len() as int)) by {
            assert forall|i: int| 0 <= i < above.len() implies above[i] == names[i] by {
                assert(lead[i + 1] == (e + names)[i + 1]);
            }
        }
        if above.len() == names.len() {
            assert(above =~= names);
        } else {
            assert(nodes.contains_key(rooted(names.take(above.len() as int))));
        }
    } else if above.len() == 0 {
        assert(p =~= root());
    }
}

/// What making the directories along `names` adds.
proof fn lemma_new_entries(nodes: Map<Seq<char>, Node>, names: Seq<Seq<char>>, n: int)
    requires
        n <= names.len(),
    ensures
        forall|k: Seq<char>| #[trigger]
            with_dirs(nodes, names, n).contains_key(k) && !nodes.contains_key(k) ==> exists|i: int|
                #![trigger names.take(i)]
                0 < i <= n && k == rooted(names.take(i)),
    decreases n,
{
    if n > 0 {
        lemma_new_entries(nodes, names, n - 1);
        let less = with_dirs(nodes, names, n - 1);
        let m = with_dirs(nodes, names, n);
        assert forall|k: Seq<char>| #[trigger] m.contains_key(k) && !nodes.contains_key(k) implies exists|i: int|
            #![trigger names.take(i)]
            0 < i <= n && k == rooted(names.take(i)) by {
            if less.contains_key(k) {
                let i = choose|i: int| #![trigger names.take(i)] 0 < i <= n - 1 && k == rooted(names.take(i));
                assert(k == rooted(names.take(i)));
            } else {
                assert(k == rooted(names.take(n)));
            }
        }
    }
}

/// No file has anything under it in `nodes`, at the path `p`.
pub open spec fn no_file_above(nodes: Map<Seq<char>, Node>, p: Seq<char>) -> bool {
    nodes.contains_key(p) && nodes[p] is File ==> forall|name: Seq<char>| !nodes.contains_key(#[trigger] child(p, name))
}

/// An entry of a tree has the directory that it stands in.
proof fn lemma_parent_is_there(nodes: Map<Seq<char>, Node>, path: Seq<char>, name: Seq<char>)
    requires
        is_tree_of(nodes),
        is_name(name),
        nodes.contains_key(child(normalized(path), name)),
    ensures
        nodes.contains_key(normalized(path)),
{
    let p = normalized(path);
    let q = child(p, name);
    let names = components(path);
    lemma_components(path);
    assert(has_parents(nodes, q));
    lemma_child_is_plain(path, name);
    if names.len() > 0 {
        assert(components(q).take(names.len() as int) =~= names);
        assert(nodes.contains_key(rooted(components(q).take(names.len() as int))));
    } else {
        assert(p =~= root());
    }
}

/// Over layers in memory, a listing holds exactly the names whose entries exist.
///
/// Left out are directories that are a file in a layer which has something under it.
pub proof fn listings_hold_what_exists(
    fs: OverlayFs<MemoryFs, MemoryFs>,
    path: Seq<char>,
    names: Seq<Seq<char>>,
    name: Seq<char>,
    present: bool,
)
    requires
        is_tree_of(fs.lower_layer().nodes()),
        is_tree_of(fs.upper_layer().nodes()),
        upper_is_shown(fs),
        no_file_above(fs.lower_layer().nodes(), normalized(path)),
        no_file_above(fs.upper_layer().nodes(), normalized(path)),
        fs.lists(path, Ok(names)),
        is_name(name),
        fs.has(child(normalized(path), name), present),
    ensures
        names.contains(name) <==> present,
        ascending(names),
{
    let p = normalized(path);
    let q = child(p, name);
    let upper = fs.upper_layer().nodes();
    let lower = fs.lower_layer().nodes();
    normalize_is_idempotent(path);
    lemma_child_is_plain(path, name);
    if upper.contains_key(q) {
        lemma_parent_is_there(upper, path, name);
    }
    if lower.contains_key(q) {
        lemma_parent_is_there(lower, path, name);
    }
    lemma_shadow_reaches_down(fs.hidden(), p, name);
    lemma_shadow_reaches_down(fs.shadowed(), p, name);
    assert(!hides(fs.hidden(), p));
    if upper.contains_key(q) && hides(fs.hidden(), q) {
        let w = choose|w: Seq<char>| #[trigger] fs.hidden().contains(w) && at_or_above(w, q);
        assert(at_or_above(root(), p));
        assert(w != root());
        assert(false);
    }
}

/// A path that is hidden is hidden with all its entries.
proof fn lemma_shadow_reaches_down(hidden: Set<Seq<char>>, p: Seq<char>, name: Seq<char>)
    requires
        p.len() > 0,
        p[0] == '/',
    ensures
        hides(hidden, p) ==> hides(hidden, child(p, name)),
{
    if hides(hidden, p) {
        let w = choose|w: Seq<char>| #[trigger] hidden.contains(w) && at_or_above(w, p);
        let q = child(p, name);
        assert(q[0] == '/');
        assert(at_or_above(w, q)) by {
            if w != root() {
                assert(p != root());
                assert(q.take(w.len() as int) =~= p.take(w.len() as int));
                assert(w =~= q.take(w.len() as int));
                assert(q[w.len() as int] == '/');
            }
        }
    }
}

/// The path of an entry of a plain path is plain.
proof fn lemma_child_is_plain(path: Seq<char>, name: Seq<char>)
    requires
        is_name(name),
    ensures
        normalized(child(normalized(path), name)) == child(normalized(path), name),
        components(child(normalized(path), name)) == components(path).push(name),
{
    let p = normalized(path);
    let q = child(p, name);
    let names = components(path);
    lemma_components(path);
    let all = names.push(name);
    assert(all.drop_last() =~= names);
    assert(rooted(all) =~= q) by {
        if names.len() == 0 {
            assert(p =~= root());
            assert(join_with(all, '/') =~= name);
        } else {
            assert(p != root()) by {
                lemma_components_of_rooted(names);
                lemma_components_of_rooted(Seq::empty());
                assert(rooted(Seq::<Seq<char>>::empty()) =~= root());
            }
        }
    }
    assert forall|i: int| 0 <= i < all.len() implies is_name(#[trigger] all[i]) by {
        if i < names.len() {
            assert(all[i] == names[i]);
        }
    }
    lemma_components_of_rooted(all);
}

/// A snapshot that is restored brings the hidden paths back as they were, and hands
/// the upper layer the snapshot that the upper layer gave.
pub proof fn restore_gives_back_the_hidden_paths<L: VirtualFs, U: VirtualFs>(
    saved: OverlayFs<L, U>,
    data: Seq<u8>,
    target: OverlayFs<L, U>,
    after: OverlayFs<L, U>,
    out: Result<(), VfsErrorView>,
)
    requires
        saved.saves(Ok(data)),
        target.restores(data, after, out),
    ensures
        exists|upper: Seq<u8>|
            {
                &&& #[trigger] saved.upper_layer().saves(Ok(upper))
                &&& target.upper_layer().restores(upper, after.upper_layer(), out)
            },
        out is Ok ==> after.hidden() == saved.hidden() && after.shadowed() == saved.shadowed(),
{
    let u = choose|u: Result<Seq<u8>, VfsErrorView>| #[trigger]
        saved.upper_layer().saves(u) && saved_with(u, saved.hidden(), saved.shadowed(), Ok(data));
    let upper = u->Ok_0;
    assert(is_some_snapshot(upper, saved.hidden(), saved.shadowed(), data));
    let (json, names, shadows) = choose|json: Json, names: Seq<Seq<char>>, shadows: Seq<Seq<char>>| #[trigger]
        is_snapshot(upper, saved.hidden(), saved.shadowed(), json, names, shadows, data);
    lemma_overlay_json(upper, names, shadows);
    assert(plain(json@, parse_depth()) && data == encode_utf8(printed(json@)));
    assert(saved.upper_layer().saves(Ok(upper)));
    assert(target.upper_layer().restores(upper, after.upper_layer(), out));
    assert(names.to_set() =~= saved.hidden());
    assert(shadows.to_set() =~= saved.shadowed());
}

/// Over upper layers in memory, a snapshot that is restored brings the upper layer and
/// the hidden paths back as they were.
pub proof fn overlay_restore_gives_back_the_snapshot<L: VirtualFs>(
    saved: OverlayFs<L, MemoryFs>,
    data: Seq<u8>,
    target: OverlayFs<L, MemoryFs>,
    after: OverlayFs<L, MemoryFs>,
    out: Result<(), VfsErrorView>,
)
    requires
        saved.saves(Ok(data)),
        target.restores(data, after, out),
    ensures
        out is Ok,
        after.hidden() == saved.hidden(),
        after.shadowed() == saved.shadowed(),
        after.upper_layer().nodes() == saved.upper_layer().nodes(),
{
    restore_gives_back_the_hidden_paths(saved, data, target, after, out);
    let upper = choose|upper: Seq<u8>|
        {
            &&& #[trigger] saved.upper_layer().saves(Ok(upper))
            &&& target.upper_layer().restores(upper, after.upper_layer(), out)
        };
    restore_gives_back_the_snapshot(saved.upper_layer(), upper, target.upper_layer(), after.upper_layer(), out);
}

} // verus!
