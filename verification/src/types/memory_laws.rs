//! Laws of which texts are memory paths and tenant ids, said of the texts themselves.
use crate::path::{components, normalized, trim_slashes, walk};
use crate::path_laws::lemma_next;
use crate::text::{split_at_char, utf8_len};
use crate::text_laws::trimming_takes_slashes_only;
use crate::types::grants::at_or_below;
use crate::types::memory::{first_control, is_control, memory_names, parsed_memory_path, segment_error, MemoryPath, MemoryPathError, TenantId, TenantIdError};
use vstd::prelude::*;

verus! {

broadcast use vstd::seq_lib::group_seq_properties;

/// The segments of a path behind its first slash, without the slashes at its end.
pub open spec fn segments(path: Seq<char>) -> Seq<Seq<char>> {
    split_at_char(trim_slashes(path), '/').skip(1)
}

/// A segment that may stand in a memory path.
pub open spec fn is_memory_segment(segment: Seq<char>) -> bool {
    segment.len() > 0 && segment != ".."@ && utf8_len(segment) <= 255
}

/// A text is a memory path exactly where it has at most 1024 bytes, no control character, lies in
/// `/var/memory` or `/mnt`, and has no segment that is empty, is `..`, or has more than 255
/// bytes. Its canonical form is its normal form.
pub proof fn memory_paths_are_plain_texts_in_the_memory(s: Seq<char>)
    ensures
        parsed_memory_path(s) is Ok <==> {
            &&& s.len() > 0
            &&& utf8_len(s) <= 1024
            &&& forall|i: int| 0 <= i < s.len() ==> '\u{20}' <= #[trigger] s[i] && s[i] != '\u{7f}'
            &&& at_or_below(s, "/var/memory"@) || at_or_below(s, "/mnt"@)
            &&& forall|i: int| 0 <= i < segments(s).len() ==> is_memory_segment(#[trigger] segments(s)[i])
        },
        parsed_memory_path(s) matches Ok(p) ==> p == normalized(s),
{
    reveal_strlit("/");
    reveal_strlit("/var/memory");
    reveal_strlit("/mnt");
    assert("/var/memory"@ + "/"@ =~= "/var/memory"@.push('/'));
    assert("/mnt"@ + "/"@ =~= "/mnt"@.push('/'));
    lemma_controls(s);
    lemma_segments(segments(s));
    if s.contains('\0') {
        let i = choose|i: int| 0 <= i < s.len() && s[i] == '\0';
        assert(!('\u{20}' <= s[i]));
    }
    if forall|i: int| 0 <= i < s.len() ==> '\u{20}' <= #[trigger] s[i] && s[i] != '\u{7f}' {
        assert(first_control(s) is None);
    }
    if parsed_memory_path(s) is Ok {
        assert(s[0] == '/') by {
            if s != "/var/memory"@ && s != "/mnt"@ {
                assert(s.subrange(0, 5)[0] == '/' || s.subrange(0, 12)[0] == '/');
            }
        }
        lemma_trim_components(s);
        let t = trim_slashes(s);
        trimming_takes_slashes_only(s);
        assert(t.len() > 0) by {
            if t.len() == 0 {
                assert(s[1] == '/');
                assert(s[1] == 'v' || s[1] == 'm') by {
                    if s != "/var/memory"@ && s != "/mnt"@ {
                        assert(s.subrange(0, 5)[1] == 'm' || s.subrange(0, 12)[1] == 'v');
                    }
                }
            }
        }
        assert(t[0] == s.subrange(0, t.len() as int)[0]);
        lemma_first_piece(t);
        let pieces = split_at_char(t, '/');
        assert(pieces =~= seq![Seq::<char>::empty()] + pieces.skip(1));
        lemma_walk_skips(pieces.skip(1));
        assert(components(s) == memory_names(segments(s))->Ok_0);
    }
}

proof fn lemma_controls(s: Seq<char>)
    ensures
        first_control(s) is None <==> forall|i: int| 0 <= i < s.len() ==> '\u{20}' <= #[trigger] s[i] && s[i] != '\u{7f}',
        first_control(s) matches Some(c) ==> exists|i: int|
            0 <= i < s.len() && #[trigger] s[i] == c && is_control(c) && forall|j: int| 0 <= j < i ==> !is_control(#[trigger] s[j]),
    decreases s.len(),
{
    if s.len() > 0 {
        let init = s.drop_last();
        lemma_controls(init);
        assert forall|i: int| 0 <= i < init.len() implies init[i] == #[trigger] s[i] by {}
        assert(s[s.len() - 1] == s.last());
        if first_control(init) is Some {
            let c = first_control(init)->0;
            let i = choose|i: int|
                0 <= i < init.len() && #[trigger] init[i] == c && is_control(c) && forall|j: int| 0 <= j < i ==> !is_control(#[trigger] init[j]);
            assert(s[i] == c);
            assert forall|j: int| 0 <= j < i implies !is_control(#[trigger] s[j]) by {
                assert(!is_control(init[j]));
            }
        } else {
            assert forall|j: int| 0 <= j < init.len() implies !is_control(#[trigger] s[j]) by {
                assert('\u{20}' <= init[j] && init[j] != '\u{7f}');
            }
        }
    }
}

proof fn lemma_segments(all: Seq<Seq<char>>)
    ensures
        memory_names(all) is Ok <==> forall|i: int| 0 <= i < all.len() ==> is_memory_segment(#[trigger] all[i]),
        memory_names(all) matches Ok(names) ==> walk(Seq::empty(), all) == names,
    decreases all.len(),
{
    reveal_strlit(".");
    reveal_strlit("..");
    assert("."@ =~= seq!['.']);
    assert(".."@ =~= seq!['.', '.']);
    if all.len() > 0 {
        let init = all.drop_last();
        lemma_segments(init);
        assert forall|i: int| 0 <= i < init.len() implies init[i] == #[trigger] all[i] by {}
        assert(all[all.len() - 1] == all.last());
        if all.last() == "."@ {
            lemma_dot_is_short();
        }
        assert(segment_error(all.last()) is None <==> is_memory_segment(all.last()));
        if forall|i: int| 0 <= i < init.len() ==> is_memory_segment(#[trigger] init[i]) {
            if is_memory_segment(all.last()) {
                assert forall|i: int| 0 <= i < all.len() implies is_memory_segment(#[trigger] all[i]) by {
                    if i < init.len() {
                        assert(is_memory_segment(init[i]));
                    }
                }
            }
        } else {
            let i = choose|i: int| 0 <= i < init.len() && !is_memory_segment(#[trigger] init[i]);
            assert(!is_memory_segment(all[i]));
        }
    }
}

proof fn lemma_dot_is_short()
    ensures
        utf8_len("."@) <= 255,
{
    reveal_strlit(".");
    assert("."@ =~= seq!['.']);
    reveal_with_fuel(vstd::utf8::encode_utf8, 2);
    assert(seq!['.'].drop_first() =~= Seq::<char>::empty());
}

proof fn lemma_trim_components(s: Seq<char>)
    ensures
        components(trim_slashes(s)) == components(s),
    decreases s.len(),
{
    reveal_strlit("/");
    if s.len() > 0 && s.last() == '/' {
        let init = s.drop_last();
        lemma_trim_components(init);
        lemma_next(init, Seq::empty());
        assert(init + "/"@ + Seq::<char>::empty() =~= s);
    }
}

proof fn lemma_first_piece(t: Seq<char>)
    requires
        t.len() > 0,
        t[0] == '/',
    ensures
        split_at_char(t, '/').len() > 1,
        split_at_char(t, '/')[0].len() == 0,
{
    crate::text_laws::cutting_goes_by_the_separator(Seq::empty(), '/', t.skip(1));
    crate::text::lemma_split_pieces(t.skip(1), '/');
    assert(Seq::<char>::empty() + seq!['/'] + t.skip(1) =~= t);
}

proof fn lemma_walk_skips(rest: Seq<Seq<char>>)
    ensures
        walk(Seq::empty(), seq![Seq::<char>::empty()] + rest) == walk(Seq::empty(), rest),
    decreases rest.len(),
{
    let e = seq![Seq::<char>::empty()];
    if rest.len() == 0 {
        assert(e + rest =~= e);
        assert(e.drop_last() =~= Seq::<Seq<char>>::empty());
        reveal_with_fuel(walk, 2);
    } else {
        assert((e + rest).drop_last() =~= e + rest.drop_last());
        lemma_walk_skips(rest.drop_last());
    }
}

/// A canonical memory path does not end in a slash.
pub proof fn canonical_paths_end_in_a_name(s: Seq<char>)
    requires
        parsed_memory_path(s) is Ok,
    ensures
        parsed_memory_path(s)->Ok_0.len() > 1,
        parsed_memory_path(s)->Ok_0.last() != '/',
{
    crate::types::memory::memory_paths_stay_inside(s);
    memory_paths_are_plain_texts_in_the_memory(s);
    let p = parsed_memory_path(s)->Ok_0;
    reveal_strlit("/var/memory");
    reveal_strlit("/mnt");
    let names = components(s);
    crate::path::lemma_components(s);
    assert(p.len() > 1);
    if names.len() == 0 {
        assert(p =~= seq!['/']);
    }
    let last = names.last();
    assert(crate::path::is_name(names[names.len() - 1]));
    crate::text_laws::joining_puts_separators_between(names.drop_last(), last, '/');
    assert(names.drop_last().push(last) =~= names);
    if names.len() == 1 {
        assert(names =~= seq![last]);
    }
    assert(p.last() == last.last());
    assert(last.contains(last.last()));
}

/// Which complaint comes of which text: the first rule that is broken is named, in the order of
/// emptiness, length, null bytes, other control characters, the place, and the segments.
pub proof fn memory_path_complaints_name_the_first_fault(s: &str, r: Result<MemoryPath, MemoryPathError>)
    requires
        call_ensures(MemoryPath::parse, (s,), r),
    ensures
        s@.len() == 0 <==> r == Err::<MemoryPath, MemoryPathError>(MemoryPathError::Empty),
        s@.len() > 0 && utf8_len(s@) > 1024 <==> (r matches Err(MemoryPathError::PathTooLong(_))),
        r matches Err(MemoryPathError::PathTooLong(n)) ==> n == utf8_len(s@) as usize,
        utf8_len(s@) <= 1024 && s@.contains('\0') ==> r == Err::<MemoryPath, MemoryPathError>(MemoryPathError::NullByte),
        r matches Err(MemoryPathError::NullByte) ==> s@.contains('\0'),
        r matches Err(MemoryPathError::ControlChar(c)) ==> exists|i: int|
            0 <= i < s@.len() && #[trigger] s@[i] as u32 == c && (s@[i] < '\u{20}' || s@[i] == '\u{7f}'),
        r matches Err(MemoryPathError::InvalidPrefix) ==> !at_or_below(s@, "/var/memory"@) && !at_or_below(s@, "/mnt"@),
        r matches Err(MemoryPathError::EmptySegment) ==> exists|i: int| 0 <= i < segments(s@).len() && (#[trigger] segments(s@)[i]).len() == 0,
        r matches Err(MemoryPathError::ParentSegment) ==> segments(s@).contains(".."@),
        r matches Err(MemoryPathError::SegmentTooLong(n)) ==> exists|i: int|
            0 <= i < segments(s@).len() && utf8_len(#[trigger] segments(s@)[i]) as usize == n && utf8_len(segments(s@)[i]) > 255,
        r matches Ok(p) ==> p@ == normalized(s@),
{
    reveal_strlit("/");
    assert("/var/memory"@ + "/"@ =~= "/var/memory"@.push('/'));
    assert("/mnt"@ + "/"@ =~= "/mnt"@.push('/'));
    memory_paths_are_plain_texts_in_the_memory(s@);
    lemma_controls(s@);
    lemma_segment_fault(segments(s@));
    if s@.contains('\0') {
        assert(s@.len() > 0);
    }
}

proof fn lemma_segment_fault(all: Seq<Seq<char>>)
    ensures
        memory_names(all) matches Err(e) ==> exists|i: int| 0 <= i < all.len() && segment_error(#[trigger] all[i]) == Some(e),
        memory_names(all) matches Err(MemoryPathError::EmptySegment) ==> exists|i: int| 0 <= i < all.len() && (#[trigger] all[i]).len() == 0,
        memory_names(all) matches Err(MemoryPathError::ParentSegment) ==> all.contains(".."@),
        memory_names(all) matches Err(MemoryPathError::SegmentTooLong(n)) ==> exists|i: int|
            0 <= i < all.len() && utf8_len(#[trigger] all[i]) as usize == n && utf8_len(all[i]) > 255,
        memory_names(all) matches Err(e) ==> e is EmptySegment || e is ParentSegment || e is SegmentTooLong,
    decreases all.len(),
{
    reveal_strlit("..");
    assert(".."@ =~= seq!['.', '.']);
    if all.len() > 0 {
        let init = all.drop_last();
        lemma_segment_fault(init);
        assert(all[all.len() - 1] == all.last());
        if let Err(e) = memory_names(init) {
            let i = choose|i: int| 0 <= i < init.len() && segment_error(#[trigger] init[i]) == Some(e);
            assert(all[i] == init[i]);
            assert(segment_error(all[i]) == Some(e));
        }
    }
}

/// A text is a tenant id exactly where it has one to 64 bytes, each of them a lowercase letter, a
/// digit, a dash or an underscore, and the first one of the former two.
pub proof fn tenant_ids_are_short_plain_words(s: &str, r: Result<TenantId, TenantIdError>)
    requires
        call_ensures(TenantId::parse, (s,), r),
    ensures
        r is Ok <==> {
            &&& 0 < s@.len()
            &&& utf8_len(s@) <= 64
            &&& ('a' <= s@[0] <= 'z') || ('0' <= s@[0] <= '9')
            &&& forall|i: int|
                0 <= i < s@.len() ==> ('a' <= #[trigger] s@[i] <= 'z') || ('0' <= s@[i] <= '9') || s@[i] == '_' || s@[i] == '-'
        },
        r matches Ok(id) ==> id@ == s@,
        r matches Err(TenantIdError::TooLong(n)) ==> n == utf8_len(s@),
        r matches Err(TenantIdError::InvalidChar(c)) ==> s@.contains(c),
{
    if r is Ok {
        assert forall|i: int| 0 <= i < s@.len() implies ('a' <= #[trigger] s@[i] <= 'z') || ('0' <= s@[i] <= '9') || s@[i] == '_' || s@[i] == '-' by {}
    }
}

} // verus!
