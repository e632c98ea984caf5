//! Directories that stores do not keep: what their entries' paths make visible.
use crate::text::{ascending, before_slash, concat, split_once, starts_with, strip_prefix, texts, Named};
use crate::text_map::TextMap;
use vstd::prelude::*;
use vstd::string::*;

verus! {

broadcast use vstd::seq_lib::group_seq_properties;

/// The name under which an entry shows up in the directory `prefix`: the first
/// component of what follows the prefix.
pub open spec fn name_within(path: Seq<char>, prefix: Seq<char>) -> Option<Seq<char>> {
    if prefix.is_prefix_of(path) && before_slash(path.skip(prefix.len() as int)).len() > 0 {
        Some(before_slash(path.skip(prefix.len() as int)))
    } else {
        None
    }
}

/// Some entry shows up as `name` in the directory `prefix`.
pub open spec fn shows(paths: Seq<Seq<char>>, prefix: Seq<char>, name: Seq<char>) -> bool {
    exists|i: int| 0 <= i < paths.len() && name_within(#[trigger] paths[i], prefix) == Some(name)
}

/// The names that show up in the directory `prefix`, in ascending order and each once.
pub open spec fn is_listing_of(
    paths: Seq<Seq<char>>,
    prefix: Seq<char>,
    names: Seq<Seq<char>>,
) -> bool {
    &&& ascending(names)
    &&& forall|name: Seq<char>| #[trigger] names.contains(name) <==> shows(paths, prefix, name)
}

/// Some entry lies under the directory `tail`.
pub open spec fn has_path_under(paths: Seq<Seq<char>>, tail: Seq<char>) -> bool {
    exists|i: int| 0 <= i < paths.len() && (tail + seq!['/']).is_prefix_of(#[trigger] paths[i])
}

/// The names that show up in the directory `prefix`.
pub fn names_within<T: Named>(entries: &Vec<T>, prefix: &str) -> (r: Vec<String>)
    ensures
        is_listing_of(texts(entries@), prefix@, texts(r@)),
{
    let ghost all = texts(entries@);
    let mut found: TextMap<()> = TextMap::new();
    let mut i: usize = 0;
    while i < entries.len()
        invariant
            i <= entries@.len(),
            all == texts(entries@),
            found.wf(),
            forall|name: Seq<char>| #[trigger]
                found.map().contains_key(name) <==> exists|k: int|
                    0 <= k < i && name_within(#[trigger] all[k], prefix@) == Some(name),
        decreases entries@.len() - i,
    {
        let ghost was = found.map();
        let ghost path = all[i as int];
        match strip_prefix(entries[i].as_text(), prefix) {
            Some(relative) => {
                let (top, _) = split_once(relative);
                if top.as_str().unicode_len() > 0 {
                    found.insert(top, ());
                }
            },
            None => {},
        }
        i = i + 1;
        assert forall|name: Seq<char>| #[trigger] found.map().contains_key(name) implies exists|k: int|
            0 <= k < i && name_within(#[trigger] all[k], prefix@) == Some(name) by {
            if was.contains_key(name) {
                let k = choose|k: int|
                    0 <= k < i - 1 && name_within(#[trigger] all[k], prefix@) == Some(name);
                assert(0 <= k < i && name_within(all[k], prefix@) == Some(name));
            } else {
                assert(name_within(all[i - 1], prefix@) == Some(name));
            }
        }
        assert forall|name: Seq<char>|
            (exists|k: int| 0 <= k < i && name_within(#[trigger] all[k], prefix@) == Some(name)) implies
            #[trigger] found.map().contains_key(name) by {
            let k = choose|k: int| 0 <= k < i && name_within(#[trigger] all[k], prefix@) == Some(name);
            if k < i - 1 {
                assert(was.contains_key(name));
            }
        }
    }
    proof {
        found.lemma_positions();
        assert forall|name: Seq<char>| #[trigger] found.keys().contains(name) <==> shows(all, prefix@, name) by {
            assert(found.keys().contains(name) <==> found.map().contains_key(name));
        }
    }
    found.all_keys()
}

/// Whether some entry lies under the directory `tail`.
pub fn any_under<T: Named>(entries: &Vec<T>, tail: &str) -> (r: bool)
    ensures
        r == has_path_under(texts(entries@), tail@),
{
    let ghost all = texts(entries@);
    let prefix = concat(tail, "/");
    proof {
        reveal_strlit("/");
        assert("/"@ =~= seq!['/']);
    }
    let mut i: usize = 0;
    while i < entries.len()
        invariant
            i <= entries@.len(),
            all == texts(entries@),
            prefix@ == tail@ + seq!['/'],
            forall|k: int| 0 <= k < i ==> !prefix@.is_prefix_of(#[trigger] all[k]),
        decreases entries@.len() - i,
    {
        if starts_with(entries[i].as_text(), prefix.as_str()) {
            assert(prefix@.is_prefix_of(all[i as int]));
            return true;
        }
        assert(!prefix@.is_prefix_of(all[i as int]));
        i = i + 1;
    }
    false
}

} // verus!
