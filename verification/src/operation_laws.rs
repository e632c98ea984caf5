//! Laws of the small operations on texts, JSON and costs, said of their arguments and results.
use crate::coding::{default_field, has_only, list_from_json, list_to_json, optional_field, optional_to_json, put_some, required_field, Coded};
use crate::json::{member_views, Json, JsonView};
use crate::path::{resolve_relative, walk, without_leading_slashes, without_trailing_slashes};
use crate::record::{as_record, record_map};
use crate::text::{before, blank, byte_len, chars_of, concat, concat3, copy, copy_all, ends_with, has_char, hex_number, is_before, number, sort, split, split_at_char, split_first, split_once, starts_with, string_of, strip_prefix, strip_suffix, texts, wide_number, Named};
use crate::text_laws::{cutting_goes_by_the_separator, decimals_are_worth_their_number, hexadecimals_are_worth_their_number, joining_puts_separators_between, texts_are_cut_at_the_first, trimming_takes_slashes_only, worth};
use crate::types::budget::{a_check_passes_where_every_limit_holds, BudgetExhausted, Cost, ResourceBudget};
use crate::types::capability::CapabilityToken;
use crate::types::journal::timestamp_of;
use crate::types::memory::MemoryCapability;
use crate::types::message::TokenUsage;
use vstd::arithmetic::power::pow;
use vstd::prelude::*;
use vstd::utf8::encode_utf8;

verus! {

broadcast use vstd::seq_lib::group_seq_properties;

// ---- Texts -------------------------------------------------------------------

/// Texts are copied, put together and taken apart character by character.
pub proof fn texts_are_put_together(a: &str, b: &str, c: &str, v: Vec<char>, from: usize, to: usize, r: String, n: usize, all: Vec<char>)
    ensures
        call_ensures(copy, (a,), r) ==> r@ == a@,
        call_ensures(concat, (a, b), r) ==> r@ == a@ + b@,
        call_ensures(concat3, (a, b, c), r) ==> r@ == a@ + b@ + c@,
        call_ensures(chars_of, (a,), all) ==> all@ == a@,
        from <= to <= v@.len() && call_ensures(string_of, (&v, from, to), r) ==> r@ == v@.subrange(from as int, to as int),
        call_ensures(byte_len, (a,), n) ==> n == encode_utf8(a@).len(),
{
}

/// A text starts with another where it is that text and a rest, and likewise at its end; what is
/// taken off is the rest.
pub proof fn ends_of_texts(s: &str, p: &str, rest: Seq<char>, c: char, r: bool, cut: Option<&str>)
    ensures
        call_ensures(starts_with, (s, p), r) && s@ == p@ + rest ==> r,
        call_ensures(starts_with, (s, p), r) && r ==> s@.len() >= p@.len() && s@ == p@ + s@.skip(p@.len() as int),
        call_ensures(ends_with, (s, p), r) && s@ == rest + p@ ==> r,
        call_ensures(ends_with, (s, p), r) && r ==> s@.len() >= p@.len() && s@ == s@.take(s@.len() - p@.len()) + p@,
        call_ensures(has_char, (s, c), r) ==> (r <==> exists|i: int| 0 <= i < s@.len() && #[trigger] s@[i] == c),
        call_ensures(strip_prefix, (s, p), cut) && s@ == p@ + rest ==> (cut matches Some(t) && t@ == rest),
        call_ensures(strip_prefix, (s, p), cut) ==> (cut matches Some(t) ==> s@ == p@ + t@),
        call_ensures(strip_suffix, (s, p), cut) && s@ == rest + p@ ==> (cut matches Some(t) && t@ == rest),
        call_ensures(strip_suffix, (s, p), cut) ==> (cut matches Some(t) ==> s@ == t@ + p@),
{
    let n = p@.len() as int;
    if s@ == p@ + rest {
        assert(p@ =~= s@.subrange(0, n));
        assert(s@.skip(n) =~= rest);
    }
    if s@ == rest + p@ {
        assert(p@ =~= s@.subrange(s@.len() - n, s@.len() as int));
        assert(s@.take(s@.len() - n) =~= rest);
    }
    if p@.is_prefix_of(s@) {
        assert(s@ =~= p@ + s@.skip(n)) by {
            assert(p@ =~= s@.subrange(0, n));
        }
    }
    if p@.is_suffix_of(s@) {
        assert(s@ =~= s@.take(s@.len() - n) + p@) by {
            assert(p@ =~= s@.subrange(s@.len() - n, s@.len() as int));
        }
    }
}

/// A text is cut into pieces at every separator, and into two at the first.
pub proof fn texts_are_cut(s: &str, sep: char, head: Seq<char>, tail: Seq<char>, all: Vec<String>, two: (String, Option<String>))
    requires
        !head.contains(sep),
        s@ == head + seq![sep] + tail,
    ensures
        call_ensures(split, (s, sep), all) ==> all@.len() > 1 && all@[0]@ == head && texts(all@).skip(1) == split_at_char(tail, sep),
        call_ensures(split_first, (s, sep), two) ==> two.0@ == head && (two.1 matches Some(rest) && rest@ == tail),
        sep == '/' && call_ensures(split_once, (s,), two) ==> two.0@ == head && (two.1 matches Some(rest) && rest@ == tail),
{
    cutting_goes_by_the_separator(head, sep, tail);
    texts_are_cut_at_the_first(head, sep, tail);
    if call_ensures(split, (s, sep), all) {
        crate::text::lemma_split_pieces(tail, sep);
        assert(texts(all@) == seq![head] + split_at_char(tail, sep));
        assert(texts(all@)[0] == all@[0]@);
        assert(texts(all@).skip(1) =~= split_at_char(tail, sep));
    }
}

/// A text without the separator is not cut.
pub proof fn whole_texts_are_not_cut(s: &str, sep: char, all: Vec<String>, two: (String, Option<String>))
    requires
        !s@.contains(sep),
    ensures
        call_ensures(split, (s, sep), all) ==> all@.len() == 1 && all@[0]@ == s@,
        call_ensures(split_first, (s, sep), two) ==> two.0@ == s@ && two.1 is None,
        sep == '/' && call_ensures(split_once, (s,), two) ==> two.0@ == s@ && two.1 is None,
{
    cutting_goes_by_the_separator(s@, sep, Seq::empty());
    texts_are_cut_at_the_first(s@, sep, Seq::empty());
    if call_ensures(split, (s, sep), all) {
        assert(texts(all@).len() == all@.len());
        assert(texts(all@)[0] == all@[0]@);
    }
}

/// Sorting keeps every text as often as it was there, in ascending order; a copy of a list has the
/// same texts in the same order.
pub proof fn lists_are_sorted_and_copied(v: Vec<String>, r: Vec<String>, a: &str, b: &str, first: bool)
    ensures
        call_ensures(sort, (v,), r) ==> texts(r@).to_multiset() == texts(v@).to_multiset() && forall|i: int, j: int|
            0 <= i < j < r@.len() ==> !before((#[trigger] r@[j])@, (#[trigger] r@[i])@),
        call_ensures(copy_all::<String>, (&v,), r) ==> r@.len() == v@.len() && forall|i: int|
            0 <= i < v@.len() ==> (#[trigger] r@[i])@ == v@[i]@,
        call_ensures(is_before, (a, b), first) ==> (first <==> before(a@, b@)),
{
    if call_ensures(sort, (v,), r) {
        assert forall|i: int, j: int| 0 <= i < j < r@.len() implies !before((#[trigger] r@[j])@, (#[trigger] r@[i])@) by {
            assert(texts(r@)[j] == r@[j]@ && texts(r@)[i] == r@[i]@);
        }
    }
    if call_ensures(copy_all::<String>, (&v,), r) {
        assert(texts(r@).len() == r@.len() && texts(v@).len() == v@.len());
        assert forall|i: int| 0 <= i < v@.len() implies (#[trigger] r@[i])@ == v@[i]@ by {
            assert(texts(r@)[i] == r@[i]@ && texts(v@)[i] == v@[i]@);
        }
    }
}

/// Numbers are written in decimal digits that are worth the number.
pub proof fn numbers_are_written_in_decimal(n: u64, w: u128, r: String)
    ensures
        call_ensures(number, (n,), r) ==> worth(r@, 10) == n && r@.len() > 0 && (r@.len() > 1 ==> r@[0] != '0'),
        call_ensures(wide_number, (w,), r) ==> worth(r@, 10) == w && r@.len() > 0 && (r@.len() > 1 ==> r@[0] != '0'),
{
    decimals_are_worth_their_number(n as nat);
    decimals_are_worth_their_number(w as nat);
}

/// A text is blank where each of its characters is white space.
pub proof fn blank_texts_are_white_space(s: &str, r: bool)
    requires
        call_ensures(blank, (s,), r),
    ensures
        r <==> forall|i: int| 0 <= i < s@.len() ==> white(#[trigger] s@[i] as int),
        s@.len() == 0 ==> r,
{
    assert forall|i: int| 0 <= i < s@.len() implies white(#[trigger] s@[i] as int) == crate::text::is_space(s@[i]) by {}
    if !r {
        let i = choose|i: int| 0 <= i < s@.len() && !crate::text::is_space(#[trigger] s@[i]);
        assert(!white(s@[i] as int));
    }
}

/// The numbers of the characters that are white space.
pub open spec fn white(n: int) -> bool {
    9 <= n <= 13 || n == 32 || n == 133 || n == 160 || n == 5760 || 8192 <= n <= 8202 || n == 8232 || n == 8233 || n == 8239 || n
        == 8287 || n == 12288
}

/// Trimming takes off the slashes at one end and nothing else.
pub proof fn slashes_are_trimmed(s: &str, r: String)
    ensures
        call_ensures(without_trailing_slashes, (s,), r) ==> r@.is_prefix_of(s@) && (r@.len() > 0 ==> r@.last() != '/') && forall|i: int|
            r@.len() <= i < s@.len() ==> #[trigger] s@[i] == '/',
        call_ensures(without_leading_slashes, (s,), r) ==> r@.is_suffix_of(s@) && (r@.len() > 0 ==> r@[0] != '/') && forall|i: int|
            0 <= i < s@.len() - r@.len() ==> #[trigger] s@[i] == '/',
{
    trimming_takes_slashes_only(s@);
}

/// One more segment moves a relative path on: an empty one and a dot stay, two dots go back to where
/// the segment before was added, and a name is added behind a slash.
pub proof fn segments_move_a_relative_path_on(
    base: &str,
    rel: &str,
    more: &str,
    segment: Seq<char>,
    back: &str,
    r: String,
    s: String,
    t: String,
)
    requires
        !segment.contains('/'),
        more@ == rel@ + "/"@ + segment,
        back@ == more@ + "/.."@,
        call_ensures(resolve_relative, (base, rel), r),
        call_ensures(resolve_relative, (base, more), s),
        call_ensures(resolve_relative, (base, back), t),
    ensures
        segment.len() == 0 || segment == "."@ ==> s@ == r@,
        segment.len() > 0 && segment != "."@ && segment != ".."@ ==> s@ == r@ + "/"@ + segment || s@ == segment && r@.len() == 0,
        segment.len() > 0 && segment != "."@ && segment != ".."@ ==> t@ == r@,
{
    reveal_strlit("/");
    reveal_strlit(".");
    reveal_strlit("..");
    reveal_strlit("/..");
    assert("/"@ =~= seq!['/']);
    assert("."@ =~= seq!['.']);
    assert(".."@ =~= seq!['.', '.']);
    let start = if base@.len() == 0 {
        Seq::empty()
    } else {
        split_at_char(base@, '/')
    };
    let pieces = split_at_char(rel@, '/');
    cutting_goes_by_the_separator(rel@, '/', segment);
    cutting_goes_by_the_separator(segment, '/', Seq::empty());
    let next = pieces + seq![segment];
    assert(split_at_char(more@, '/') == next);
    assert(next.drop_last() =~= pieces);
    cutting_goes_by_the_separator(more@, '/', ".."@);
    assert(!".."@.contains('/')) by {
        assert(forall|i: int| 0 <= i < 2 ==> ".."@[i] != '/');
    }
    cutting_goes_by_the_separator(".."@, '/', Seq::empty());
    assert(back@ =~= more@ + seq!['/'] + ".."@);
    let last = next + seq![".."@];
    assert(split_at_char(back@, '/') == last);
    assert(last.drop_last() =~= next);
    let at = walk(start, pieces);
    if segment.len() > 0 && segment != "."@ && segment != ".."@ {
        assert(walk(start, next) == at.push(segment));
        assert(at.push(segment).drop_last() =~= at);
        joining_puts_separators_between(at, segment, '/');
        if at.len() == 0 {
            assert(at.push(segment) =~= seq![segment]);
        }
    }
}

// ---- JSON --------------------------------------------------------------------

/// A value is what it is asked for, and nothing else.
pub proof fn values_are_what_they_are(json: Json, t: Option<&str>, b: Option<bool>, n: Option<u64>, i: Option<i64>, r: bool)
    ensures
        call_ensures(Json::as_str, (&json,), t) ==> (t matches Some(s) ==> json@ == JsonView::Text(s@)) && (t is None ==> !(json@
            is Text)),
        call_ensures(Json::as_bool, (&json,), b) ==> (b matches Some(v) ==> json@ == JsonView::Bool(v)) && (b is None ==> !(json@
            is Bool)),
        call_ensures(Json::as_u64, (&json,), n) ==> (n matches Some(v) ==> json@ == JsonView::Unsigned(v)) && (n is None ==> !(json@
            is Unsigned)),
        call_ensures(Json::as_i64, (&json,), i) ==> match json@ {
            JsonView::Unsigned(v) => if v <= i64::MAX { i is Some && i->0 == v } else { i is None },
            JsonView::Negative(v) => i == Some(v),
            _ => i is None,
        },
        call_ensures(Json::is_object, (&json,), r) ==> (r <==> json@ is Object),
        call_ensures(Json::is_null, (&json,), r) ==> (r <==> json@ is Null),
{
}

/// A member is found by its name, in objects only, and is what it is asked for.
pub proof fn members_are_found_by_name(
    json: Json,
    key: &str,
    found: Option<&Json>,
    t: Option<String>,
    maybe: Option<Option<String>>,
    n: Option<u64>,
    b: Option<bool>,
)
    ensures
        call_ensures(Json::get, (&json, key), found) ==> match json@ {
            JsonView::Object(m) => if m.contains_key(key@) { found is Some && found->0@ == m[key@] } else { found is None },
            _ => found is None,
        },
        call_ensures(Json::text_field, (&json, key), t) ==> match json@ {
            JsonView::Object(m) => if m.contains_key(key@) && m[key@] is Text {
                t is Some && JsonView::Text(t->0@) == m[key@]
            } else {
                t is None
            },
            _ => t is None,
        },
        call_ensures(Json::u64_field, (&json, key), n) ==> match json@ {
            JsonView::Object(m) => if m.contains_key(key@) && m[key@] is Unsigned {
                n is Some && JsonView::Unsigned(n->0) == m[key@]
            } else {
                n is None
            },
            _ => n is None,
        },
        call_ensures(Json::bool_field, (&json, key), b) ==> match json@ {
            JsonView::Object(m) => if m.contains_key(key@) && m[key@] is Bool {
                b is Some && JsonView::Bool(b->0) == m[key@]
            } else {
                b is None
            },
            _ => b is None,
        },
        call_ensures(Json::maybe_text_field, (&json, key), maybe) && json@ is Object ==> {
            let m = json@->Object_0;
            if !m.contains_key(key@) || m[key@] is Null {
                maybe is Some && maybe->0 is None
            } else if m[key@] is Text {
                maybe is Some && maybe->0 is Some && JsonView::Text(maybe->0->0@) == m[key@]
            } else {
                maybe is None
            }
        },
{
}

/// Adding a member sets it and leaves every other one.
pub proof fn members_are_added(members: &mut Vec<(String, Json)>, key: &str, value: Json, other: Seq<char>)
    requires
        call_ensures(crate::json::put, (members, key, value), ()),
    ensures
        member_views(final(members)@).contains_key(key@),
        member_views(final(members)@)[key@] == value@,
        other != key@ ==> member_views(final(members)@).contains_key(other) == member_views(old(members)@).contains_key(other),
        other != key@ && member_views(old(members)@).contains_key(other) ==> member_views(final(members)@)[other]
            == member_views(old(members)@)[other],
{
}

// ---- Coding ------------------------------------------------------------------

/// A list is written item by item, and is read where every item is, in the same order.
pub proof fn lists_are_coded_item_by_item<T: Coded>(items: Vec<T>, json: Json, r: Json, read: Option<Vec<T>>)
    ensures
        call_ensures(list_to_json::<T>, (&items,), r) ==> (r@ matches JsonView::Array(all) && all.len() == items@.len() && forall|
            i: int,
        |
            0 <= i < items@.len() ==> #[trigger] all[i] == T::enc(items@[i]@)),
        call_ensures(list_from_json::<T>, (&json,), read) ==> (read matches Some(values) ==> (json@ matches JsonView::Array(all)
            && all.len() == values@.len() && forall|i: int|
            0 <= i < all.len() ==> T::dec(#[trigger] all[i]) == Some(values@[i]@))),
        call_ensures(list_from_json::<T>, (&json,), read) && read is None ==> !(json@ is Array) || exists|i: int|
            0 <= i < json@->Array_0.len() && T::dec(#[trigger] json@->Array_0[i]) is None,
{
    if call_ensures(list_to_json::<T>, (&items,), r) {
        let all = r@->Array_0;
        assert forall|i: int| 0 <= i < items@.len() implies #[trigger] all[i] == T::enc(items@[i]@) by {
            assert(crate::coding::views(items@)[i] == items@[i]@);
        }
    }
    if call_ensures(list_from_json::<T>, (&json,), read) {
        if let Some(values) = read {
            let all = json@->Array_0;
            assert(crate::coding::views(values@).len() == values@.len());
            assert forall|i: int| 0 <= i < all.len() implies T::dec(#[trigger] all[i]) == Some(values@[i]@) by {
                assert(crate::coding::views(values@)[i] == values@[i]@);
            }
        }
    }
}

/// A required member must be there, an optional one may be missing or null, and one with a default
/// may be missing.
pub proof fn members_are_read_as_they_must_be<T: Coded>(
    json: Json,
    m: Map<Seq<char>, JsonView>,
    key: &str,
    other: T,
    one: Option<T>,
    maybe: Option<Option<T>>,
    defaulted: Option<T>,
)
    requires
        json@ == JsonView::Object(m),
    ensures
        call_ensures(required_field::<T>, (&json, key), one) ==> (if m.contains_key(key@) {
            match one {
                Some(v) => T::dec(m[key@]) == Some(v@),
                None => T::dec(m[key@]) is None,
            }
        } else {
            one is None
        }),
        call_ensures(optional_field::<T>, (&json, key), maybe) ==> (if m.contains_key(key@) && !(m[key@] is Null) {
            match maybe {
                Some(v) => v is Some && T::dec(m[key@]) == Some(v->0@),
                None => T::dec(m[key@]) is None,
            }
        } else {
            maybe is Some && maybe->0 is None
        }),
        call_ensures(default_field::<T>, (&json, key, other), defaulted) ==> (if m.contains_key(key@) {
            match defaulted {
                Some(v) => T::dec(m[key@]) == Some(v@),
                None => T::dec(m[key@]) is None,
            }
        } else {
            defaulted is Some && defaulted->0@ == other@
        }),
{
}

/// A value that is there is written as it is, and one that is not as null, or not at all where the
/// member is left out.
pub proof fn missing_values_are_null_or_left_out<T: Coded>(
    v: Option<T>,
    r: Json,
    members: &mut Vec<(String, Json)>,
    key: &str,
)
    ensures
        call_ensures(optional_to_json::<T>, (&v,), r) ==> r@ == match v {
            Some(x) => T::enc(x@),
            None => JsonView::Null,
        },
        call_ensures(put_some::<T>, (members, key, &v), ()) ==> member_views(final(members)@) == match v {
            Some(x) => member_views(old(members)@).insert(key@, T::enc(x@)),
            None => member_views(old(members)@),
        },
{
}

/// An object has only the names of a list where it has no other member.
pub proof fn foreign_members_are_seen(json: Json, keys: Vec<String>, key: Seq<char>, r: bool)
    requires
        json@ is Object,
        call_ensures(has_only, (&json, &keys), r),
    ensures
        r && json@->Object_0.contains_key(key) ==> exists|i: int| 0 <= i < keys@.len() && (#[trigger] keys@[i])@ == key,
        !r ==> exists|k: Seq<char>| #[trigger]
            json@->Object_0.contains_key(k) && forall|i: int| 0 <= i < keys@.len() ==> (#[trigger] keys@[i])@ != k,
{
    let names = texts(keys@);
    if r && json@->Object_0.contains_key(key) {
        let i = choose|i: int| 0 <= i < names.len() && names[i] == key;
        assert(keys@[i]@ == key);
    }
    if !r {
        let k = choose|k: Seq<char>| #[trigger] json@->Object_0.contains_key(k) && !names.contains(k);
        assert forall|i: int| 0 <= i < keys@.len() implies (#[trigger] keys@[i])@ != k by {
            assert(names[i] == keys@[i]@);
        }
    }
}

/// A list stands for a record with one member for each of its items, named in their order, where it
/// has neither too few nor too many; everything else stands for itself.
pub proof fn lists_stand_for_records(json: Json, names: Vec<String>, least: usize, r: Option<Json>, i: int)
    requires
        call_ensures(as_record, (&json, &names, least), r),
        texts(names@).no_duplicates(),
    ensures
        ({
            let out = if r is Some {
                r->0@
            } else {
                json@
            };
            if json@ is Array && least <= json@->Array_0.len() <= names@.len() {
                &&& out is Object
                &&& 0 <= i < json@->Array_0.len() ==> out->Object_0.contains_key(names@[i]@) && out->Object_0[names@[i]@]
                    == json@->Array_0[i]
                &&& json@->Array_0.len() <= i < names@.len() ==> !out->Object_0.contains_key(names@[i]@)
            } else {
                out == json@
            }
        }),
{
    if json@ is Array {
        let items = json@->Array_0;
        if least <= items.len() <= names@.len() {
            lemma_record(texts(names@), items, i);
            assert(0 <= i < names@.len() ==> texts(names@)[i] == names@[i]@);
        }
    }
}

proof fn lemma_record(names: Seq<Seq<char>>, items: Seq<JsonView>, i: int)
    requires
        items.len() <= names.len(),
        names.no_duplicates(),
    ensures
        0 <= i < items.len() ==> record_map(names, items).contains_key(names[i]) && record_map(names, items)[names[i]] == items[i],
        items.len() <= i < names.len() ==> !record_map(names, items).contains_key(names[i]),
    decreases items.len(),
{
    if items.len() > 0 {
        lemma_record(names, items.drop_last(), i);
    }
}

// ---- Costs and budgets -------------------------------------------------------

/// A cost is its units at so many places, where both fit, and compares by what it is worth.
pub proof fn costs_are_units_at_places(num: i128, scale: u32, c: Option<Cost>, a: Cost, b: Cost, n: i128, p: u32, r: bool)
    ensures
        call_ensures(Cost::from_parts, (num, scale), c) ==> (c is Some <==> -79228162514264337593543950335 <= num
            <= 79228162514264337593543950335 && scale <= 28) && (c is Some ==> c->0.units() == num && c->0.places() == scale),
        call_ensures(Cost::coefficient, (&a,), n) ==> n == a.units(),
        call_ensures(Cost::scale, (&a,), p) ==> p == a.places(),
        call_ensures(Cost::is_zero, (&a,), r) ==> (r <==> a.units() == 0),
        call_ensures(Cost::at_least, (&a, &b), r) ==> (r <==> a.units() * pow(10, b.places()) >= b.units() * pow(10, a.places())),
{
    crate::types::budget::lemma_ten_to(a.places());
    crate::types::budget::lemma_ten_to(b.places());
}

/// A check passes exactly where every resource has no limit, or less of it is used than its limit.
pub proof fn checks_pass_below_every_limit(b: ResourceBudget, r: Result<(), BudgetExhausted>)
    requires
        call_ensures(ResourceBudget::check_budget, (&b,), r),
    ensures
        r is Ok <==> {
            &&& b.max_tokens == 0 || b.used_tokens < b.max_tokens
            &&& b.max_turns == 0 || b.used_turns < b.max_turns
            &&& b.max_sub_agents == 0 || b.used_sub_agents < b.max_sub_agents
            &&& b.max_vfs_bytes == 0 || b.used_vfs_bytes < b.max_vfs_bytes
            &&& b.max_fuel == 0 || b.used_fuel < b.max_fuel
            &&& b.max_cost.units() == 0 || b.used_cost.units() * pow(10, b.max_cost.places()) < b.max_cost.units()
                * pow(10, b.used_cost.places())
        },
{
    a_check_passes_where_every_limit_holds(b);
}

/// A new budget has its limits and has used nothing of them.
pub proof fn new_budgets_have_used_nothing(tokens: u64, turns: u32, cost: Cost, agents: u32, b: ResourceBudget, r: Result<(), BudgetExhausted>)
    requires
        call_ensures(ResourceBudget::new, (tokens, turns, cost, agents), b),
    ensures
        b.max_tokens == tokens && b.max_turns == turns && b.max_cost == cost && b.max_sub_agents == agents,
        b.max_vfs_bytes == 0 && b.max_fuel == 0,
        b.used_tokens == 0 && b.used_turns == 0 && b.used_sub_agents == 0 && b.used_vfs_bytes == 0 && b.used_fuel == 0,
        b.used_cost.units() == 0,
        cost.units() >= 0 && call_ensures(ResourceBudget::check_budget, (&b,), r) ==> r is Ok,
{
    a_check_passes_where_every_limit_holds(b);
    if cost.units() > 0 {
        vstd::arithmetic::power::lemma_pow_positive(10, b.used_cost.places());
        assert(b.used_cost.units() * pow(10, b.max_cost.places()) == 0) by (nonlinear_arith)
            requires
                b.used_cost.units() == 0,
        ;
        assert(b.max_cost.units() * pow(10, b.used_cost.places()) > 0) by (nonlinear_arith)
            requires
                b.max_cost.units() > 0,
                pow(10, b.used_cost.places()) > 0,
        ;
    }
}

/// Without anything said, a token grants nothing, the memory is closed, and no tokens were used.
pub proof fn nothing_said_grants_nothing(t: CapabilityToken, m: MemoryCapability, u: TokenUsage)
    ensures
        call_ensures(CapabilityToken::default, (), t) ==> !t.shell && !t.javascript && !t.python && !t.memory.enabled && t@.network.len()
            == 0 && t@.mcp_tools.len() == 0 && t@.paths_read.len() == 0 && t@.paths_write.len() == 0 && t@.spawn_types.len() == 0,
        call_ensures(MemoryCapability::default, (), m) ==> !m.enabled && m.search_scopes@.len() == 0 && m.write_scopes@.len() == 0,
        call_ensures(TokenUsage::default, (), u) ==> u.input_tokens == 0 && u.output_tokens == 0 && u.cache_read_input_tokens == 0
            && u.cache_write_input_tokens == 0,
{
}

/// A moment is counted in milliseconds since the epoch, and one before it counts as the epoch.
pub proof fn moments_are_counted_from_the_epoch(ms: u128, r: u64)
    ensures
        call_ensures(timestamp_of, (Some(ms),), r) && ms <= u64::MAX ==> r == ms,
        call_ensures(timestamp_of, (None::<u128>,), r) ==> r == 0,
{
}

/// A number in hexadecimal is worth the number and has at least the given digits.
pub proof fn numbers_are_written_in_hexadecimal(n: u32, width: u8, r: String)
    requires
        call_ensures(hex_number, (n, width), r),
    ensures
        worth(r@, 16) == n,
        r@.len() >= width,
{
    hexadecimals_are_worth_their_number(n as nat, width as nat);
}

/// The limits that are documented.
pub proof fn limits_are_as_documented()
    ensures
        crate::types::JOURNAL_SCHEMA_VERSION == 3,
        crate::types::MEMORY_SNIPPET_CHARS == 320,
        crate::types::HIT_ID_TTL_SECONDS == 300,
        crate::types::HIT_ID_CACHE_MAX == 65536,
        crate::types::RRWB_MAX_ENTRIES == 64,
        crate::types::RRWB_MAX_BYTES_PER_ENTRY == 65536,
        crate::types::RRWB_MAX_TOTAL_BYTES == 1048576,
        crate::types::TOOL_PREVIEW_MAX_CHARS == 4096,
        crate::wasm::DISCOVER_FUEL_LIMIT == 1000000,
        crate::vfs::mount::MAX_SYSTEM_PROMPT_BYTES == 1048576,
{
}

} // verus!
