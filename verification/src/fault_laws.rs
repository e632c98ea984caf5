//! Laws of what is said of JSON that stands for no value.
use crate::coding::Coded;
use crate::json::{Json, JsonView};
use crate::record::{find_default_fault, find_default_list_fault, find_list_fault, find_object_fault, find_optional_fault, find_required_fault, find_tag_fault, find_value_fault, item_fault, say_missing, say_within, sole_member, tell, unit_name};
use vstd::prelude::*;

verus! {

broadcast use vstd::seq_lib::group_seq_properties;

/// What is said of a missing member.
pub open spec fn told_missing(key: Seq<char>) -> Seq<char> {
    "missing field `"@ + key + "`"@
}

/// What is said of a member whose value is refused.
pub open spec fn told_inside(key: Seq<char>, e: Seq<char>) -> Seq<char> {
    "`"@ + key + "`: "@ + e
}

/// The texts of faults name the member.
pub proof fn faults_name_the_member(key: &str, e: &str, fault: Option<String>, r: String)
    ensures
        call_ensures(say_missing, (key,), r) ==> r@ == told_missing(key@),
        call_ensures(say_within, (key, e), r) ==> r@ == told_inside(key@, e@),
        call_ensures(tell, (fault,), r) ==> r@ == match fault {
            Some(e) => e@,
            None => "unexpected JSON"@,
        },
{
}

/// Only an object has members.
pub proof fn only_objects_have_members(json: Json, r: Option<String>)
    requires
        call_ensures(find_object_fault, (&json,), r),
    ensures
        r is None <==> json@ is Object,
        r matches Some(e) ==> e@ == "expected an object"@,
{
}

/// A required member is missing, refused or fine; an optional one may be missing or null, and one
/// with a default may be missing.
pub proof fn members_are_at_fault_where_they_are_refused<T: Coded>(
    json: Json,
    m: Map<Seq<char>, JsonView>,
    value: Json,
    key: &str,
    r: Option<String>,
)
    requires
        json@ == JsonView::Object(m),
    ensures
        call_ensures(find_value_fault::<T>, (&value, key), r) ==> (r is None <==> T::dec(value@) is Some) && (r matches Some(e) ==> e@
            == told_inside(key@, T::complaint(value@))),
        call_ensures(find_required_fault::<T>, (&json, key), r) ==> (r is None <==> m.contains_key(key@) && T::dec(m[key@]) is Some) && (
        r matches Some(e) ==> e@ == (if m.contains_key(key@) {
            told_inside(key@, T::complaint(m[key@]))
        } else {
            told_missing(key@)
        })),
        call_ensures(find_optional_fault::<T>, (&json, key), r) ==> (r is None <==> !m.contains_key(key@) || m[key@] is Null || T::dec(
            m[key@],
        ) is Some) && (r matches Some(e) ==> e@ == told_inside(key@, T::complaint(m[key@]))),
        call_ensures(find_default_fault::<T>, (&json, key), r) ==> (r is None <==> !m.contains_key(key@) || T::dec(m[key@]) is Some) && (
        r matches Some(e) ==> e@ == told_inside(key@, T::complaint(m[key@]))),
{
}

/// The first refused item of a list is what is said of it.
pub proof fn the_first_refused_item_is_told<T: Coded>(items: Seq<JsonView>, n: int)
    requires
        0 <= n <= items.len(),
        forall|i: int| 0 <= i < n ==> T::dec(#[trigger] items[i]) is Some,
        n < items.len() ==> T::dec(items[n]) is None,
    ensures
        n == items.len() ==> item_fault::<T>(items) is None,
        n < items.len() ==> item_fault::<T>(items) == Some(T::complaint(items[n])),
    decreases items.len(),
{
    if items.len() > 0 {
        let init = items.drop_last();
        if n == items.len() {
            assert(T::dec(items[n - 1]) is Some);
            assert forall|i: int| 0 <= i < n - 1 implies T::dec(#[trigger] init[i]) is Some by {
                assert(init[i] == items[i]);
            }
            the_first_refused_item_is_told::<T>(init, n - 1);
        } else {
            assert forall|i: int| 0 <= i < n implies T::dec(#[trigger] init[i]) is Some by {
                assert(init[i] == items[i]);
            }
            the_first_refused_item_is_told::<T>(init, n);
        }
    }
}

/// A member that is a list must be there, or may be missing where it has a default, and must be a
/// list.
pub proof fn lists_are_at_fault_where_they_are_none<T: Coded>(
    json: Json,
    m: Map<Seq<char>, JsonView>,
    key: &str,
    r: Option<String>,
)
    requires
        json@ == JsonView::Object(m),
    ensures
        call_ensures(find_list_fault::<T>, (&json, key), r) && !m.contains_key(key@) ==> (r matches Some(e) && e@ == told_missing(key@)),
        call_ensures(find_default_list_fault::<T>, (&json, key), r) && !m.contains_key(key@) ==> r is None,
        call_ensures(find_list_fault::<T>, (&json, key), r) || call_ensures(find_default_list_fault::<T>, (&json, key), r) ==> (
        m.contains_key(key@) && !(m[key@] is Array) ==> (r matches Some(e) && e@ == told_inside(key@, "expected a list"@))),
        call_ensures(find_list_fault::<T>, (&json, key), r) || call_ensures(find_default_list_fault::<T>, (&json, key), r) ==> (
        m.contains_key(key@) && m[key@] is Array ==> match item_fault::<T>(m[key@]->Array_0) {
            Some(told) => r matches Some(e) && e@ == told_inside(key@, told),
            None => r is None,
        }),
{
}

/// A tag is missing, unknown, or no text.
pub proof fn tags_are_told(json: Json, key: &str, r: String)
    requires
        call_ensures(find_tag_fault, (&json, key), r),
    ensures
        r@ == match json@ {
            JsonView::Object(m) => if !m.contains_key(key@) {
                told_missing(key@)
            } else {
                match m[key@] {
                    JsonView::Text(t) => "unknown variant `"@ + t + "`"@,
                    _ => told_inside(key@, "expected a text"@),
                }
            },
            _ => "expected an object"@,
        },
{
}

/// A variant is named by its text, or by the one member of an object, which is null where the
/// variant has no members.
pub proof fn variants_are_named(json: Json, m: Map<Seq<char>, JsonView>, name: Seq<char>, r: Option<&String>, s: Option<&(String, Json)>)
    ensures
        call_ensures(unit_name, (&json,), r) && json@ == JsonView::Text(name) ==> (r matches Some(n) && n@ == name),
        call_ensures(sole_member, (&json,), s) && json@ == JsonView::Object(m) && m.dom() == set![name] ==> (s matches Some(one)
            && one.0@ == name && one.1@ == m[name]),
        call_ensures(unit_name, (&json,), r) && json@ == JsonView::Object(m) && m.dom() == set![name] ==> (match m[name] {
            JsonView::Null => r matches Some(n) && n@ == name,
            _ => r is None,
        }),
        call_ensures(sole_member, (&json,), s) && json@ == JsonView::Object(m) && m.dom() != set![name] ==> !(s matches Some(one)
            && one.0@ == name),
        !(json@ is Object) && call_ensures(sole_member, (&json,), s) ==> s is None,
{
    if json@ == JsonView::Object(m) {
        if m.dom() == set![name] {
            assert(m.contains_key(name));
            assert forall|k: Seq<char>| #[trigger] m.contains_key(k) implies k == name by {
                assert(m.dom().contains(k));
            }
            assert(crate::record::wraps(json@, name));
            if call_ensures(unit_name, (&json,), r) {
                assert(crate::record::names_unit(json@, name) <==> m[name] is Null);
                if let Some(n) = r {
                    assert(crate::record::names_unit(json@, n@));
                }
            }
        } else if let Some(one) = s {
            if one.0@ == name && call_ensures(sole_member, (&json,), s) {
                assert(crate::record::wraps(json@, name));
                assert(m.dom() =~= set![name]);
            }
        }
    }
    if json@ == JsonView::Text(name) {
        assert(crate::record::names_unit(json@, name));
    }
    if call_ensures(sole_member, (&json,), s) && s is Some {
        let one = s->0;
        assert(crate::record::wraps(json@, one.0@));
    }
}

} // verus!
