//! Laws of slash-separated paths: how each segment moves the path on.
use crate::path::{components, is_under, lemma_components, lemma_components_of_rooted, normalize, normalized, rooted, walk};
use crate::text::split_at_char;
use crate::text_laws::{cutting_goes_by_the_separator, joining_puts_separators_between};
use crate::types::capability::plain_path;
use vstd::prelude::*;

verus! {

broadcast use vstd::seq_lib::group_seq_properties;

/// The components of a path and one more segment are those of the path, moved on by the segment.
pub proof fn lemma_next(path: Seq<char>, segment: Seq<char>)
    requires
        !segment.contains('/'),
    ensures
        components(path + "/"@ + segment) == (if segment.len() == 0 || segment == "."@ {
            components(path)
        } else if segment == ".."@ {
            if components(path).len() > 0 {
                components(path).drop_last()
            } else {
                components(path)
            }
        } else {
            components(path).push(segment)
        }),
{
    reveal_strlit("/");
    reveal_strlit(".");
    reveal_strlit("..");
    assert("/"@ =~= seq!['/']);
    assert("."@ =~= seq!['.']);
    assert(".."@ =~= seq!['.', '.']);
    cutting_goes_by_the_separator(path, '/', segment);
    cutting_goes_by_the_separator(segment, '/', Seq::empty());
    let pieces = split_at_char(path, '/') + seq![segment];
    assert(split_at_char(path + "/"@ + segment, '/') == pieces);
    assert(pieces.drop_last() =~= split_at_char(path, '/'));
}

/// Every path begins at the root: the empty path is the root, and a first slash changes nothing.
pub proof fn paths_begin_at_the_root(path: Seq<char>)
    ensures
        normalized(Seq::empty()) == "/"@,
        normalized("/"@ + path) == normalized(path),
        normalized(path)[0] == '/',
{
    reveal_strlit("/");
    let e = Seq::<char>::empty();
    assert("/"@ =~= seq!['/']);
    assert(split_at_char(e, '/') =~= seq![e]);
    assert(seq![e].drop_last() =~= Seq::<Seq<char>>::empty());
    reveal_with_fuel(walk, 2);
    assert(components(e) =~= Seq::<Seq<char>>::empty());
    cutting_goes_by_the_separator(e, '/', path);
    assert(e + seq!['/'] + path =~= "/"@ + path);
    lemma_walk_from_empty(split_at_char(path, '/'));
}

proof fn lemma_walk_from_empty(pieces: Seq<Seq<char>>)
    ensures
        walk(Seq::empty(), seq![Seq::<char>::empty()] + pieces) == walk(Seq::empty(), pieces),
    decreases pieces.len(),
{
    let e = seq![Seq::<char>::empty()];
    if pieces.len() == 0 {
        assert(e + pieces =~= e);
        assert(e.drop_last() =~= Seq::<Seq<char>>::empty());
        reveal_with_fuel(walk, 2);
    } else {
        assert((e + pieces).drop_last() =~= e + pieces.drop_last());
        lemma_walk_from_empty(pieces.drop_last());
    }
}

/// An empty segment and a dot stay where the path is, a name goes down to the entry of that name,
/// and two dots go back up, or stay at the root.
pub proof fn each_segment_moves_the_path_on(path: Seq<char>, segment: Seq<char>)
    requires
        !segment.contains('/'),
    ensures
        normalized(path + "/"@) == normalized(path),
        normalized(path + "/."@) == normalized(path),
        segment.len() > 0 && segment != "."@ && segment != ".."@ ==> normalized(path + "/"@ + segment) == (if normalized(
            path,
        ) == "/"@ {
            "/"@ + segment
        } else {
            normalized(path) + "/"@ + segment
        }),
        segment.len() > 0 && segment != "."@ && segment != ".."@ ==> normalized(path + "/"@ + segment + "/.."@)
            == normalized(path),
        normalized(path) == "/"@ ==> normalized(path + "/.."@) == "/"@,
{
    reveal_strlit("/");
    reveal_strlit(".");
    reveal_strlit("..");
    reveal_strlit("/.");
    reveal_strlit("/..");
    let e = Seq::<char>::empty();
    assert("/"@ =~= seq!['/']);
    lemma_next(path, e);
    assert(path + "/"@ + e =~= path + "/"@);
    lemma_next(path, "."@);
    assert(path + "/"@ + "."@ =~= path + "/."@);
    assert(forall|i: int| 0 <= i < 2 ==> ".."@[i] != '/');
    lemma_next(path, ".."@);
    assert(path + "/"@ + ".."@ =~= path + "/.."@);
    lemma_components(path);
    let names = components(path);
    if normalized(path) == "/"@ {
        lemma_components_of_rooted(names);
        lemma_components_of_rooted(Seq::empty());
        assert(rooted(Seq::<Seq<char>>::empty()) =~= "/"@);
        assert(names.len() == 0);
    }
    if segment.len() > 0 && segment != "."@ && segment != ".."@ {
        lemma_next(path, segment);
        let down = path + "/"@ + segment;
        lemma_next(down, ".."@);
        assert(down + "/"@ + ".."@ =~= down + "/.."@);
        assert(names.push(segment).drop_last() =~= names);
        joining_puts_separators_between(names, segment, '/');
        if names.len() == 0 {
            assert(names.push(segment) =~= seq![segment]);
            assert(normalized(path) =~= "/"@);
        } else {
            assert(normalized(path) != "/"@) by {
                lemma_components_of_rooted(names);
                lemma_components_of_rooted(Seq::empty());
                assert(rooted(Seq::<Seq<char>>::empty()) =~= "/"@);
            }
            assert(rooted(names.push(segment)) =~= normalized(path) + "/"@ + segment);
        }
    }
}

/// A relative path is made plain as if it stood at the root, without the slash in front.
pub proof fn relative_paths_are_made_plain_alike(path: Seq<char>)
    requires
        path.len() == 0 || path[0] != '/',
    ensures
        "/"@ + plain_path(path) == plain_path("/"@ + path),
        plain_path("/"@ + path) == normalized(path),
{
    reveal_strlit("/");
    paths_begin_at_the_root(path);
    assert("/"@ =~= seq!['/']);
    assert(("/"@ + path)[0] == '/');
}

/// What `normalize` gives, and when a path is under another one.
pub proof fn the_operations_on_paths(path: &str, prefix: &str, r: String, b: bool)
    ensures
        call_ensures(normalize, (path,), r) ==> r@ == normalized(path@),
        call_ensures(is_under, (path, prefix), b) ==> (b <==> path@ == prefix@ || (prefix@ + "/"@).is_prefix_of(path@)),
{
    reveal_strlit("/");
    assert(prefix@ + "/"@ =~= prefix@.push('/'));
}

} // verus!
