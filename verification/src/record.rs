//! Records, variants and what is wrong with JSON that stands for none.
use crate::coding::{all_decode, lemma_item_views, lemma_member_names, only, Coded};
use crate::json::{item_views, member, member_views, put, Json, JsonView};
use crate::text::{before, concat, concat3, copy, holds, is_before, lemma_before_total, lemma_before_transitive, opt_text, texts};
use vstd::prelude::*;

verus! {

broadcast use vstd::seq_lib::group_seq_properties;

// ---- Records -----------------------------------------------------------------

/// The members that a list gives in the order of their names.
pub open spec fn record_map(names: Seq<Seq<char>>, items: Seq<JsonView>) -> Map<Seq<char>, JsonView>
    decreases items.len(),
{
    if items.len() == 0 {
        Map::empty()
    } else {
        record_map(names, items.drop_last()).insert(names[items.len() - 1], items.last())
    }
}

/// A record is written as an object, or as the list of its members' values. The members
/// from `least` on may be left off at the end of the list.
pub open spec fn record_of(json: JsonView, names: Seq<Seq<char>>, least: nat) -> JsonView {
    match json {
        JsonView::Array(items) => if least <= items.len() <= names.len() {
            JsonView::Object(record_map(names, items))
        } else {
            json
        },
        _ => json,
    }
}

/// The object that a list stands for, where it stands for a record.
pub fn as_record(json: &Json, names: &Vec<String>, least: usize) -> (r: Option<Json>)
    ensures
        match r {
            Some(record) => record@ == record_of(json@, texts(names@), least as nat),
            None => json@ == record_of(json@, texts(names@), least as nat),
        },
{
    match json {
        Json::Array(items) => {
            proof {
                lemma_item_views(items@);
            }
            if items.len() < least || names.len() < items.len() {
                return None;
            }
            let ghost all = item_views(items@);
            let mut m: Vec<(String, Json)> = Vec::new();
            let mut i: usize = 0;
            assert(all.take(0) =~= Seq::empty());
            assert(member_views(m@) == record_map(texts(names@), all.take(0)));
            while i < items.len()
                invariant
                    i <= items@.len() <= names@.len(),
                    all.len() == items@.len(),
                    forall|k: int| 0 <= k < items@.len() ==> #[trigger] all[k] == items@[k]@,
                    member_views(m@) == record_map(texts(names@), all.take(i as int)),
                decreases items@.len() - i,
            {
                put(&mut m, names[i].as_str(), items[i].clone());
                proof {
                    let upto = all.take(i + 1);
                    assert(upto.drop_last() =~= all.take(i as int));
                    assert(upto.last() == all[i as int]);
                    assert(texts(names@)[i as int] == names@[i as int]@);
                }
                i = i + 1;
            }
            assert(all.take(i as int) =~= all);
            Some(Json::Object(m))
        },
        _ => None,
    }
}

/// The text at the start of a list.
pub open spec fn leading_text(json: JsonView) -> Option<Seq<char>> {
    match json {
        JsonView::Array(items) => if items.len() > 0 {
            match items[0] {
                JsonView::Text(t) => Some(t),
                _ => None,
            }
        } else {
            None
        },
        _ => None,
    }
}

/// Reads the text at the start of a list.
pub fn list_tag(json: &Json) -> (r: Option<&String>)
    ensures
        match r {
            Some(t) => leading_text(json@) == Some(t@),
            None => leading_text(json@) is None,
        },
{
    match json {
        Json::Array(items) => {
            proof {
                lemma_item_views(items@);
            }
            if items.len() == 0 {
                return None;
            }
            assert(item_views(items@)[0] == items@[0]@);
            match &items[0] {
                Json::Text(t) => Some(t),
                _ => None,
            }
        },
        _ => None,
    }
}

/// The names of a record's members, and how many of them a list must give.
pub open spec fn shape_view(shape: Option<(Vec<String>, usize)>) -> Option<(Seq<Seq<char>>, nat)> {
    match shape {
        Some(s) => Some((texts(s.0@), s.1 as nat)),
        None => None,
    }
}

/// The record of a variant, with its tag as the first item where it is a list.
pub open spec fn variant_of(json: JsonView, shape: Option<(Seq<Seq<char>>, nat)>) -> JsonView {
    match shape {
        Some(s) => record_of(json, s.0, s.1),
        None => json,
    }
}

/// The object that a list stands for, where it stands for a variant.
pub fn as_variant(json: &Json, shape: &Option<(Vec<String>, usize)>) -> (r: Option<Json>)
    ensures
        match r {
            Some(record) => record@ == variant_of(json@, shape_view(*shape)),
            None => json@ == variant_of(json@, shape_view(*shape)),
        },
{
    match shape {
        Some(s) => as_record(json, &s.0, s.1),
        None => None,
    }
}

// ---- Variants without members ------------------------------------------------

/// An object with one member, of this name.
pub open spec fn wraps(json: JsonView, name: Seq<char>) -> bool {
    &&& json is Object
    &&& json->Object_0.contains_key(name)
    &&& forall|k: Seq<char>| #[trigger] json->Object_0.contains_key(k) ==> k == name
}

/// The one member of an object, where it has one.
pub fn sole_member(json: &Json) -> (r: Option<&(String, Json)>)
    ensures
        match r {
            Some(m) => {
                &&& forall|t: Seq<char>| #[trigger] wraps(json@, t) <==> t == m.0@
                &&& json@->Object_0[m.0@] == m.1@
            },
            None => forall|t: Seq<char>| !#[trigger] wraps(json@, t),
        },
{
    match json {
        Json::Object(members) => {
            let ghost map = member_views(members@);
            assert(json@ == JsonView::Object(map));
            if members.len() == 0 {
                return None;
            }
            proof {
                lemma_member_names(members@);
            }
            let last: &(String, Json) = &members[members.len() - 1];
            assert(map.contains_key(last.0@) && map[last.0@] == last.1@);
            let mut i: usize = 0;
            while i < members.len()
                invariant
                    i <= members@.len(),
                    json@ == JsonView::Object(map),
                    map.contains_key(last.0@),
                    forall|k: int| 0 <= k < members@.len() ==> map.contains_key((#[trigger] members@[k]).0@),
                    forall|k: int| 0 <= k < i ==> (#[trigger] members@[k]).0@ == last.0@,
                decreases members@.len() - i,
            {
                if *members[i].0.as_str() != *last.0.as_str() {
                    assert(json@->Object_0.contains_key(members@[i as int].0@));
                    assert(json@->Object_0.contains_key(last.0@));
                    return None;
                }
                i = i + 1;
            }
            proof {
                assert forall|k: Seq<char>| #[trigger] json@->Object_0.contains_key(k) implies k == last.0@ by {
                    let n = choose|n: int| 0 <= n < members@.len() && (#[trigger] members@[n]).0@ == k;
                    assert(members@[n].0@ == last.0@);
                }
                assert(wraps(json@, last.0@));
                assert forall|t: Seq<char>| #[trigger] wraps(json@, t) implies t == last.0@ by {
                    assert(json@->Object_0.contains_key(last.0@));
                }
            }
            Some(last)
        },
        _ => None,
    }
}

/// The value names the variant: the name as a text, or as the one member of an object, with
/// null as its value.
pub open spec fn names_unit(json: JsonView, name: Seq<char>) -> bool {
    json == JsonView::Text(name) || wraps(json, name) && json->Object_0[name] is Null
}

/// The variant that the value names.
pub fn unit_name(json: &Json) -> (r: Option<&String>)
    ensures
        match r {
            Some(n) => forall|t: Seq<char>| #[trigger] names_unit(json@, t) <==> t == n@,
            None => forall|t: Seq<char>| !#[trigger] names_unit(json@, t),
        },
{
    match json {
        Json::Text(n) => Some(n),
        _ => match sole_member(json) {
            Some(m) => {
                assert(wraps(json@, m.0@));
                match m.1 {
                    Json::Null => Some(&m.0),
                    _ => None,
                }
            },
            None => None,
        },
    }
}

// ---- What is wrong -----------------------------------------------------------

/// The first of two faults.
pub open spec fn first(a: Option<Seq<char>>, b: Option<Seq<char>>) -> Option<Seq<char>> {
    if a is Some {
        a
    } else {
        b
    }
}

/// A fault, in words.
pub open spec fn said(fault: Option<Seq<char>>) -> Seq<char> {
    match fault {
        Some(e) => e,
        None => "unexpected JSON"@,
    }
}

/// Puts a fault into words.
pub fn tell(fault: Option<String>) -> (r: String)
    ensures
        r@ == said(opt_text(fault)),
{
    match fault {
        Some(e) => e,
        None => copy("unexpected JSON"),
    }
}

/// That a member is missing.
pub open spec fn missing(key: Seq<char>) -> Seq<char> {
    "missing field `"@ + key + "`"@
}

/// Says that a member is missing.
pub fn say_missing(key: &str) -> (r: String)
    ensures
        r@ == missing(key@),
{
    concat3("missing field `", key, "`")
}

/// What is wrong inside a member.
pub open spec fn within(key: Seq<char>, e: Seq<char>) -> Seq<char> {
    "`"@ + key + "`: "@ + e
}

/// Says what is wrong inside a member.
pub fn say_within(key: &str, e: &str) -> (r: String)
    ensures
        r@ == within(key@, e@),
{
    let head = concat3("`", key, "`: ");
    concat(head.as_str(), e)
}

/// What is wrong with a value that is no object.
pub open spec fn object_fault(json: JsonView) -> Option<Seq<char>> {
    if json is Object {
        None
    } else {
        Some("expected an object"@)
    }
}

/// Finds what is wrong with a value that is no object.
pub fn find_object_fault(json: &Json) -> (r: Option<String>)
    ensures
        opt_text(r) == object_fault(json@),
{
    match json {
        Json::Object(_) => None,
        _ => Some(copy("expected an object")),
    }
}

/// What is wrong with the value of a member.
pub open spec fn value_fault<T: Coded>(json: JsonView, key: Seq<char>) -> Option<Seq<char>> {
    if T::dec(json) is Some {
        None
    } else {
        Some(within(key, T::complaint(json)))
    }
}

/// Finds what is wrong with the value of a member.
pub fn find_value_fault<T: Coded>(json: &Json, key: &str) -> (r: Option<String>)
    ensures
        opt_text(r) == value_fault::<T>(json@, key@),
{
    match T::from_json(json) {
        Ok(_) => None,
        Err(e) => Some(say_within(key, e.as_str())),
    }
}

/// What is wrong with a member that must be there.
pub open spec fn required_fault<T: Coded>(json: JsonView, key: Seq<char>) -> Option<Seq<char>> {
    match member(json, key) {
        Some(value) => value_fault::<T>(value, key),
        None => Some(missing(key)),
    }
}

/// Finds what is wrong with a member that must be there.
pub fn find_required_fault<T: Coded>(json: &Json, key: &str) -> (r: Option<String>)
    ensures
        opt_text(r) == required_fault::<T>(json@, key@),
{
    match json.get(key) {
        Some(value) => find_value_fault::<T>(value, key),
        None => Some(say_missing(key)),
    }
}

/// What is wrong with a member that may be missing or null.
pub open spec fn optional_fault<T: Coded>(json: JsonView, key: Seq<char>) -> Option<Seq<char>> {
    match member(json, key) {
        None => None,
        Some(JsonView::Null) => None,
        Some(value) => value_fault::<T>(value, key),
    }
}

/// Finds what is wrong with a member that may be missing or null.
pub fn find_optional_fault<T: Coded>(json: &Json, key: &str) -> (r: Option<String>)
    ensures
        opt_text(r) == optional_fault::<T>(json@, key@),
{
    match json.get(key) {
        None => None,
        Some(Json::Null) => None,
        Some(value) => find_value_fault::<T>(value, key),
    }
}

/// What is wrong with a member that may be missing.
pub open spec fn default_fault<T: Coded>(json: JsonView, key: Seq<char>) -> Option<Seq<char>> {
    match member(json, key) {
        None => None,
        Some(value) => value_fault::<T>(value, key),
    }
}

/// Finds what is wrong with a member that may be missing.
pub fn find_default_fault<T: Coded>(json: &Json, key: &str) -> (r: Option<String>)
    ensures
        opt_text(r) == default_fault::<T>(json@, key@),
{
    match json.get(key) {
        None => None,
        Some(value) => find_value_fault::<T>(value, key),
    }
}

/// What is wrong with the first item that stands for no value.
pub open spec fn item_fault<T: Coded>(items: Seq<JsonView>) -> Option<Seq<char>>
    decreases items.len(),
{
    if items.len() == 0 {
        None
    } else {
        first(
            item_fault::<T>(items.drop_last()),
            if T::dec(items.last()) is Some {
                None
            } else {
                Some(T::complaint(items.last()))
            },
        )
    }
}

/// What is wrong with a list.
pub open spec fn items_fault<T: Coded>(json: JsonView, key: Seq<char>) -> Option<Seq<char>> {
    match json {
        JsonView::Array(items) => match item_fault::<T>(items) {
            Some(e) => Some(within(key, e)),
            None => None,
        },
        _ => Some(within(key, "expected a list"@)),
    }
}

/// No more is wrong with a list than with its start, where something is wrong with that.
proof fn lemma_item_fault_kept<T: Coded>(items: Seq<JsonView>, n: int)
    requires
        0 <= n <= items.len(),
        item_fault::<T>(items.take(n)) is Some,
    ensures
        item_fault::<T>(items) == item_fault::<T>(items.take(n)),
    decreases items.len(),
{
    if n == items.len() {
        assert(items.take(n) =~= items);
    } else {
        assert(items.drop_last().take(n) =~= items.take(n));
        lemma_item_fault_kept::<T>(items.drop_last(), n);
    }
}

/// Something is wrong with a list where some item stands for no value.
pub proof fn lemma_item_fault<T: Coded>(items: Seq<JsonView>)
    ensures
        item_fault::<T>(items) is None <==> all_decode::<T>(items),
    decreases items.len(),
{
    if items.len() > 0 {
        lemma_item_fault::<T>(items.drop_last());
        assert forall|i: int| 0 <= i < items.len() && all_decode::<T>(items.drop_last()) && T::dec(items.last()) is Some implies T::dec(
            #[trigger] items[i],
        ) is Some by {
            if i < items.len() - 1 {
                assert(items.drop_last()[i] == items[i]);
            }
        }
        assert(all_decode::<T>(items) ==> all_decode::<T>(items.drop_last())) by {
            assert forall|i: int| 0 <= i < items.len() - 1 && all_decode::<T>(items) implies T::dec(
                #[trigger] items.drop_last()[i],
            ) is Some by {
                assert(items[i] == items.drop_last()[i]);
            }
        }
        assert(all_decode::<T>(items) ==> T::dec(items[items.len() - 1]) is Some);
    }
}

/// Finds what is wrong with a list.
pub fn find_items_fault<T: Coded>(json: &Json, key: &str) -> (r: Option<String>)
    ensures
        opt_text(r) == items_fault::<T>(json@, key@),
{
    match json {
        Json::Array(items) => {
            proof {
                lemma_item_views(items@);
            }
            let ghost all = item_views(items@);
            let mut i: usize = 0;
            assert(all.take(0) =~= Seq::empty());
            while i < items.len()
                invariant
                    i <= items@.len(),
                    all.len() == items@.len(),
                    json@ == JsonView::Array(all),
                    forall|k: int| 0 <= k < items@.len() ==> #[trigger] all[k] == items@[k]@,
                    item_fault::<T>(all.take(i as int)) is None,
                decreases items@.len() - i,
            {
                let ghost upto = all.take(i + 1);
                proof {
                    assert(upto.drop_last() =~= all.take(i as int));
                    assert(upto.last() == all[i as int]);
                }
                match T::from_json(&items[i]) {
                    Ok(_) => {},
                    Err(e) => {
                        proof {
                            assert(item_fault::<T>(upto) == Some(e@));
                            lemma_item_fault_kept::<T>(all, i + 1);
                        }
                        return Some(say_within(key, e.as_str()));
                    },
                }
                i = i + 1;
            }
            assert(all.take(i as int) =~= all);
            None
        },
        _ => Some(say_within(key, "expected a list")),
    }
}

/// What is wrong with a list that must be there.
pub open spec fn list_fault<T: Coded>(json: JsonView, key: Seq<char>) -> Option<Seq<char>> {
    match member(json, key) {
        Some(value) => items_fault::<T>(value, key),
        None => Some(missing(key)),
    }
}

/// Finds what is wrong with a list that must be there.
pub fn find_list_fault<T: Coded>(json: &Json, key: &str) -> (r: Option<String>)
    ensures
        opt_text(r) == list_fault::<T>(json@, key@),
{
    match json.get(key) {
        Some(value) => find_items_fault::<T>(value, key),
        None => Some(say_missing(key)),
    }
}

/// What is wrong with a list that may be missing.
pub open spec fn default_list_fault<T: Coded>(json: JsonView, key: Seq<char>) -> Option<Seq<char>> {
    match member(json, key) {
        Some(value) => items_fault::<T>(value, key),
        None => None,
    }
}

/// Finds what is wrong with a list that may be missing.
pub fn find_default_list_fault<T: Coded>(json: &Json, key: &str) -> (r: Option<String>)
    ensures
        opt_text(r) == default_list_fault::<T>(json@, key@),
{
    match json.get(key) {
        Some(value) => find_items_fault::<T>(value, key),
        None => None,
    }
}

/// What is wrong with the name of a variant that there is none of.
pub open spec fn tag_fault(json: JsonView, key: Seq<char>) -> Seq<char> {
    if json is Object {
        match member(json, key) {
            None => missing(key),
            Some(JsonView::Text(t)) => "unknown variant `"@ + t + "`"@,
            Some(_) => within(key, "expected a text"@),
        }
    } else {
        "expected an object"@
    }
}

/// Finds what is wrong with the name of a variant that there is none of.
pub fn find_tag_fault(json: &Json, key: &str) -> (r: String)
    ensures
        r@ == tag_fault(json@, key@),
{
    match json {
        Json::Object(_) => match json.get(key) {
            None => say_missing(key),
            Some(Json::Text(t)) => concat3("unknown variant `", t.as_str(), "`"),
            Some(_) => say_within(key, "expected a text"),
        },
        _ => copy("expected an object"),
    }
}

// ---- Members that do not belong ----------------------------------------------

/// A member that is none of those that may be there.
pub open spec fn is_stranger(json: JsonView, keys: Seq<Seq<char>>, k: Seq<char>) -> bool {
    json->Object_0.contains_key(k) && !keys.contains(k)
}

/// The first, in the order of texts, of the members that may not be there.
pub open spec fn is_first_stranger(json: JsonView, keys: Seq<Seq<char>>, k: Seq<char>) -> bool {
    is_stranger(json, keys, k) && forall|o: Seq<char>| #[trigger] is_stranger(json, keys, o) ==> o == k || before(k, o)
}

/// The first member that may not be there.
pub open spec fn first_stranger(json: JsonView, keys: Seq<Seq<char>>) -> Seq<char> {
    choose|k: Seq<char>| is_first_stranger(json, keys, k)
}

/// What is wrong with the first member that may not be there.
pub open spec fn stranger_fault(json: JsonView, keys: Seq<Seq<char>>) -> Option<Seq<char>> {
    if only(json, keys) {
        None
    } else {
        Some("unknown field `"@ + first_stranger(json, keys) + "`"@)
    }
}

/// There is one first stranger at most.
proof fn lemma_one_first_stranger(json: JsonView, keys: Seq<Seq<char>>, a: Seq<char>, b: Seq<char>)
    requires
        is_first_stranger(json, keys, a),
        is_first_stranger(json, keys, b),
    ensures
        a == b,
{
    lemma_before_total(a, b);
}

/// Finds what is wrong with the first member that may not be there.
pub fn find_stranger_fault(json: &Json, keys: &Vec<String>) -> (r: Option<String>)
    requires
        json@ is Object,
    ensures
        opt_text(r) == stranger_fault(json@, texts(keys@)),
{
    match json {
        Json::Object(members) => {
            let ghost names = texts(keys@);
            proof {
                lemma_member_names(members@);
            }
            let mut least: Option<usize> = None;
            let mut i: usize = 0;
            while i < members.len()
                invariant
                    i <= members@.len(),
                    names == texts(keys@),
                    json@ == JsonView::Object(member_views(members@)),
                    forall|k: int|
                        0 <= k < members@.len() ==> member_views(members@).contains_key((#[trigger] members@[k]).0@),
                    match least {
                        Some(l) => l < i && is_stranger(json@, names, members@[l as int].0@) && forall|k: int|
                            0 <= k < i && is_stranger(json@, names, (#[trigger] members@[k]).0@) ==> members@[k].0@
                                == members@[l as int].0@ || before(members@[l as int].0@, members@[k].0@),
                        None => forall|k: int| 0 <= k < i ==> !is_stranger(json@, names, (#[trigger] members@[k]).0@),
                    },
                decreases members@.len() - i,
            {
                let name = members[i].0.as_str();
                assert(json@->Object_0.contains_key(name@));
                if !holds(keys, name) {
                    let smaller = match least {
                        Some(l) => is_before(name, members[l].0.as_str()),
                        None => true,
                    };
                    if smaller {
                        proof {
                            if let Some(l) = least {
                                assert forall|k: int| 0 <= k < i && is_stranger(json@, names, (#[trigger] members@[k]).0@) implies members@[k].0@
                                    == name@ || before(name@, members@[k].0@) by {
                                    if members@[k].0@ != members@[l as int].0@ {
                                        lemma_before_transitive(name@, members@[l as int].0@, members@[k].0@);
                                    }
                                }
                            }
                        }
                        least = Some(i);
                    } else {
                        proof {
                            lemma_before_total(name@, members@[least->0 as int].0@);
                        }
                    }
                }
                i = i + 1;
            }
            match least {
                Some(l) => {
                    let name = members[l].0.as_str();
                    proof {
                        assert forall|o: Seq<char>| #[trigger] is_stranger(json@, names, o) implies o == name@ || before(
                            name@,
                            o,
                        ) by {
                            let k = choose|k: int| 0 <= k < members@.len() && (#[trigger] members@[k]).0@ == o;
                            assert(members@[k].0@ == o);
                        }
                        assert(is_first_stranger(json@, names, name@));
                        let chosen = choose|k: Seq<char>| is_first_stranger(json@, names, k);
                        lemma_one_first_stranger(json@, names, name@, chosen);
                        assert(!only(json@, names));
                    }
                    Some(concat3("unknown field `", name, "`"))
                },
                None => {
                    proof {
                        assert forall|o: Seq<char>| #[trigger] json@->Object_0.contains_key(o) implies names.contains(o) by {
                            let k = choose|k: int| 0 <= k < members@.len() && (#[trigger] members@[k]).0@ == o;
                            assert(!is_stranger(json@, names, members@[k].0@));
                        }
                    }
                    None
                },
            }
        },
        _ => None,
    }
}

} // verus!
