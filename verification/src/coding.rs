//! Values that are written down as JSON and read back.
use crate::json::{bool_of, integer_of, item_views, json_view, member, member_views, put, text_of, unsigned_of, Json, JsonView};
use crate::text::{copy, holds, texts};
use vstd::prelude::*;

verus! {

broadcast use vstd::seq_lib::group_seq_properties;

/// A type whose values are written down as JSON. What was written down of a stable value
/// reads back as the same value.
pub trait Coded: Sized + View {
    /// The value reads back as it was written down.
    spec fn stable(v: Self::V) -> bool;

    /// The JSON of a value.
    spec fn enc(v: Self::V) -> JsonView;

    /// The value that a JSON value stands for, where it stands for one.
    spec fn dec(json: JsonView) -> Option<Self::V>;

    /// What was written down of a stable value reads back as the same value.
    proof fn round_trip(v: Self::V)
        requires
            Self::stable(v),
        ensures
            Self::dec(Self::enc(v)) == Some(v),
    ;

    /// Writes the value down.
    fn to_json(&self) -> (r: Json)
        ensures
            r@ == Self::enc(self@),
    ;

    /// What is wrong with JSON that stands for no value.
    spec fn complaint(json: JsonView) -> Seq<char>;

    /// Reads a value, where there is one.
    fn read(json: &Json) -> (r: Option<Self>)
        ensures
            view_of(r) == Self::dec(json@),
    ;

    /// Says what is wrong with JSON that stands for no value.
    fn complain(json: &Json) -> (r: String)
        ensures
            r@ == Self::complaint(json@),
    ;

    /// Reads a value, or says what is wrong.
    fn from_json(json: &Json) -> (r: Result<Self, String>)
        ensures
            match r {
                Ok(v) => Self::dec(json@) == Some(v@),
                Err(e) => Self::dec(json@) is None && e@ == Self::complaint(json@),
            },
    {
        match Self::read(json) {
            Some(v) => Ok(v),
            None => Err(Self::complain(json)),
        }
    }
}

/// A number that tells names apart: their length, and their first, their middle and their
/// last character.
pub open spec fn mark(name: Seq<char>) -> int {
    name.len() * 1_000_000_000 + (name[0] as int) * 1_000_000 + (name[name.len() as int / 2] as int) * 1_000
        + name[name.len() - 1] as int
}

/// What an optional value is.
pub open spec fn view_of<T: View>(r: Option<T>) -> Option<T::V> {
    match r {
        Some(x) => Some(x@),
        None => None,
    }
}

/// What the items are.
pub open spec fn views<T: View>(items: Seq<T>) -> Seq<T::V> {
    Seq::new(items.len(), |i: int| items[i]@)
}

/// The JSON of a list.
pub open spec fn enc_list<T: Coded>(items: Seq<T::V>) -> JsonView {
    JsonView::Array(Seq::new(items.len(), |i: int| T::enc(items[i])))
}

/// Every item stands for a value.
pub open spec fn all_decode<T: Coded>(items: Seq<JsonView>) -> bool {
    forall|i: int| 0 <= i < items.len() ==> T::dec(#[trigger] items[i]) is Some
}

/// The values of the items.
pub open spec fn dec_items<T: Coded>(items: Seq<JsonView>) -> Option<Seq<T::V>> {
    if all_decode::<T>(items) {
        Some(Seq::new(items.len(), |i: int| T::dec(items[i])->0))
    } else {
        None
    }
}

/// The list that a JSON value stands for, where it stands for one.
pub open spec fn dec_list<T: Coded>(json: JsonView) -> Option<Seq<T::V>> {
    match json {
        JsonView::Array(items) => dec_items::<T>(items),
        _ => None,
    }
}

/// The values of items are the values of each.
pub proof fn lemma_item_views(items: Seq<Json>)
    ensures
        item_views(items).len() == items.len(),
        forall|i: int| 0 <= i < items.len() ==> #[trigger] item_views(items)[i] == items[i]@,
    decreases items.len(),
{
    if items.len() > 0 {
        lemma_item_views(items.drop_last());
        assert(item_views(items) == item_views(items.drop_last()).push(json_view(items.last())));
        assert forall|i: int| 0 <= i < items.len() implies #[trigger] item_views(items)[i] == items[i]@ by {
            if i < items.len() - 1 {
                assert(item_views(items.drop_last())[i] == items.drop_last()[i]@);
            }
        }
    }
}

/// Every value is stable.
pub open spec fn all_stable<T: Coded>(items: Seq<T::V>) -> bool {
    forall|i: int| 0 <= i < items.len() ==> T::stable(#[trigger] items[i])
}

/// A list of stable values that was written down reads back as the same list.
pub proof fn list_round_trip<T: Coded>(items: Seq<T::V>)
    requires
        all_stable::<T>(items),
    ensures
        dec_list::<T>(enc_list::<T>(items)) == Some(items),
{
    let coded = enc_list::<T>(items)->Array_0;
    assert forall|i: int| 0 <= i < coded.len() implies T::dec(#[trigger] coded[i]) == Some(items[i]) by {
        T::round_trip(items[i]);
    }
    assert(all_decode::<T>(coded));
    assert(dec_items::<T>(coded)->0 =~= items);
}

/// Writes a list down.
pub fn list_to_json<T: Coded>(items: &Vec<T>) -> (r: Json)
    ensures
        r@ == enc_list::<T>(views(items@)),
{
    let mut out: Vec<Json> = Vec::new();
    let mut i: usize = 0;
    while i < items.len()
        invariant
            i <= items@.len(),
            out@.len() == i,
            forall|k: int| 0 <= k < i ==> (#[trigger] out@[k])@ == T::enc(items@[k]@),
        decreases items@.len() - i,
    {
        out.push(items[i].to_json());
        i = i + 1;
    }
    proof {
        lemma_item_views(out@);
        assert(item_views(out@) =~= enc_list::<T>(views(items@))->Array_0);
    }
    Json::Array(out)
}

/// Reads a list, where there is one.
pub fn list_from_json<T: Coded>(json: &Json) -> (r: Option<Vec<T>>)
    ensures
        match r {
            Some(items) => dec_list::<T>(json@) == Some(views(items@)),
            None => dec_list::<T>(json@) is None,
        },
{
    match json {
        Json::Array(items) => {
            let mut out: Vec<T> = Vec::new();
            let mut i: usize = 0;
            proof {
                lemma_item_views(items@);
            }
            let ghost all = item_views(items@);
            assert(json@ == JsonView::Array(all));
            while i < items.len()
                invariant
                    i <= items@.len(),
                    out@.len() == i,
                    all.len() == items@.len(),
                    forall|k: int| 0 <= k < items@.len() ==> #[trigger] all[k] == items@[k]@,
                    forall|k: int| 0 <= k < i ==> T::dec(#[trigger] all[k]) == Some(out@[k]@),
                    json@ == JsonView::Array(all),
                decreases items@.len() - i,
            {
                let item = T::read(&items[i]);
                match item {
                    Some(item) => {
                        out.push(item);
                    },
                    None => {
                        assert(T::dec(all[i as int]) is None);
                        assert(!all_decode::<T>(all));
                        return None;
                    },
                }
                i = i + 1;
            }
            assert(all_decode::<T>(all));
            assert(dec_items::<T>(all)->0 =~= views(out@));
            Some(out)
        },
        _ => None,
    }
}

// ---- Members -----------------------------------------------------------------

/// The value of a member that must be there.
pub open spec fn required<T: Coded>(json: Option<JsonView>) -> Option<T::V> {
    match json {
        Some(json) => T::dec(json),
        None => None,
    }
}

/// The value of a member that may be missing or null.
pub open spec fn optional<T: Coded>(json: Option<JsonView>) -> Option<Option<T::V>> {
    match json {
        None => Some(None),
        Some(JsonView::Null) => Some(None),
        Some(json) => match T::dec(json) {
            Some(v) => Some(Some(v)),
            None => None,
        },
    }
}

/// A value or null.
pub open spec fn enc_optional<T: Coded>(v: Option<T::V>) -> JsonView {
    match v {
        Some(v) => T::enc(v),
        None => JsonView::Null,
    }
}

/// A list that must be there.
pub open spec fn required_list<T: Coded>(json: Option<JsonView>) -> Option<Seq<T::V>> {
    match json {
        Some(json) => dec_list::<T>(json),
        None => None,
    }
}

/// Reads a member that must be there.
pub fn required_field<T: Coded>(json: &Json, key: &str) -> (r: Option<T>)
    ensures
        view_of(r) == required::<T>(member(json@, key@)),
{
    match json.get(key) {
        Some(value) => T::read(value),
        None => None,
    }
}

/// Reads a member that may be missing or null.
pub fn optional_field<T: Coded>(json: &Json, key: &str) -> (r: Option<Option<T>>)
    ensures
        match r {
            Some(v) => optional::<T>(member(json@, key@)) == Some(view_of(v)),
            None => optional::<T>(member(json@, key@)) is None,
        },
{
    match json.get(key) {
        None => Some(None),
        Some(Json::Null) => Some(None),
        Some(value) => match T::read(value) {
            Some(v) => Some(Some(v)),
            None => None,
        },
    }
}

/// Reads a list that must be there.
pub fn list_field<T: Coded>(json: &Json, key: &str) -> (r: Option<Vec<T>>)
    ensures
        match r {
            Some(items) => required_list::<T>(member(json@, key@)) == Some(views(items@)),
            None => required_list::<T>(member(json@, key@)) is None,
        },
{
    match json.get(key) {
        Some(value) => list_from_json(value),
        None => None,
    }
}

/// A value or null.
pub fn optional_to_json<T: Coded>(v: &Option<T>) -> (r: Json)
    ensures
        r@ == enc_optional::<T>(view_of(*v)),
{
    match v {
        Some(v) => v.to_json(),
        None => Json::Null,
    }
}

/// The value of a member that may be missing, with the value that stands in for it.
pub open spec fn defaulted<T: Coded>(json: Option<JsonView>, v: T::V) -> Option<T::V> {
    match json {
        Some(json) => T::dec(json),
        None => Some(v),
    }
}

/// Reads a member that may be missing.
pub fn default_field<T: Coded>(json: &Json, key: &str, v: T) -> (r: Option<T>)
    ensures
        view_of(r) == defaulted::<T>(member(json@, key@), v@),
{
    match json.get(key) {
        Some(value) => T::read(value),
        None => Some(v),
    }
}

/// Members, and one more where it has a value.
pub open spec fn with_some<T: Coded>(
    members: Map<Seq<char>, JsonView>,
    key: Seq<char>,
    v: Option<T::V>,
) -> Map<Seq<char>, JsonView> {
    match v {
        Some(v) => members.insert(key, T::enc(v)),
        None => members,
    }
}

/// Adds a member where it has a value.
pub fn put_some<T: Coded>(members: &mut Vec<(String, Json)>, key: &str, v: &Option<T>)
    ensures
        member_views(final(members)@) == with_some::<T>(member_views(old(members)@), key@, view_of(*v)),
{
    if let Some(v) = v {
        put(members, key, v.to_json());
    }
}

// ---- Variants ----------------------------------------------------------------

/// A member `type` that names a variant, and no others.
pub open spec fn tagged(tag: Seq<char>) -> Map<Seq<char>, JsonView> {
    Map::empty().insert("type"@, JsonView::Text(tag))
}

/// The member `type` names the variant.
pub open spec fn has_tag(json: JsonView, tag: Seq<char>) -> bool {
    member(json, "type"@) == Some(JsonView::Text(tag))
}

/// A member `kind` that names a variant, and no others.
pub open spec fn of_kind(kind: Seq<char>) -> Map<Seq<char>, JsonView> {
    Map::empty().insert("kind"@, JsonView::Text(kind))
}

/// The member `kind` names the variant.
pub open spec fn has_kind(json: JsonView, kind: Seq<char>) -> bool {
    member(json, "kind"@) == Some(JsonView::Text(kind))
}

/// An object has no members but these.
pub open spec fn only(json: JsonView, keys: Seq<Seq<char>>) -> bool {
    forall|k: Seq<char>| #[trigger] json->Object_0.contains_key(k) ==> keys.contains(k)
}

/// The members of an object are named by its entries.
pub proof fn lemma_member_names(members: Seq<(String, Json)>)
    ensures
        forall|k: Seq<char>| #[trigger]
            member_views(members).contains_key(k) ==> exists|i: int| 0 <= i < members.len() && (#[trigger] members[i]).0@ == k,
        forall|i: int| 0 <= i < members.len() ==> member_views(members).contains_key((#[trigger] members[i]).0@),
    decreases members.len(),
{
    if members.len() > 0 {
        let init = members.drop_last();
        lemma_member_names(init);
        assert forall|k: Seq<char>| #[trigger] member_views(members).contains_key(k) implies exists|i: int|
            0 <= i < members.len() && (#[trigger] members[i]).0@ == k by {
            if k == members.last().0@ {
                assert(members[members.len() - 1].0@ == k);
            } else {
                assert(member_views(init).contains_key(k));
                let i = choose|i: int| 0 <= i < init.len() && (#[trigger] init[i]).0@ == k;
                assert(members[i].0@ == k);
            }
        }
        assert forall|i: int| 0 <= i < members.len() implies member_views(members).contains_key(
            (#[trigger] members[i]).0@,
        ) by {
            if i < members.len() - 1 {
                assert(member_views(init).contains_key(init[i].0@));
            }
        }
    }
}

/// Whether an object has no members but these.
pub fn has_only(json: &Json, keys: &Vec<String>) -> (r: bool)
    requires
        json@ is Object,
    ensures
        r == only(json@, texts(keys@)),
{
    match json {
        Json::Object(members) => {
            proof {
                lemma_member_names(members@);
            }
            let mut i: usize = 0;
            while i < members.len()
                invariant
                    i <= members@.len(),
                    json@ == JsonView::Object(member_views(members@)),
                    forall|k: int|
                        0 <= k < members@.len() ==> member_views(members@).contains_key((#[trigger] members@[k]).0@),
                    forall|k: int| 0 <= k < i ==> texts(keys@).contains((#[trigger] members@[k]).0@),
                decreases members@.len() - i,
            {
                if !holds(keys, members[i].0.as_str()) {
                    assert(json@->Object_0.contains_key(members@[i as int].0@));
                    return false;
                }
                i = i + 1;
            }
            true
        },
        _ => true,
    }
}

// ---- Simple values -----------------------------------------------------------

impl Coded for String {
    open spec fn stable(v: Seq<char>) -> bool {
        true
    }

    open spec fn enc(v: Seq<char>) -> JsonView {
        JsonView::Text(v)
    }

    open spec fn dec(json: JsonView) -> Option<Seq<char>> {
        text_of(Some(json))
    }

    open spec fn complaint(json: JsonView) -> Seq<char> {
        "expected a text"@
    }

    proof fn round_trip(v: Seq<char>) {
    }

    fn to_json(&self) -> (r: Json) {
        Json::Text(self.clone())
    }

    fn read(json: &Json) -> (r: Option<Self>) {
        match json {
            Json::Text(t) => Some(t.clone()),
            _ => None,
        }
    }

    fn complain(json: &Json) -> (r: String) {
        copy("expected a text")
    }
}

impl Coded for bool {
    open spec fn stable(v: bool) -> bool {
        true
    }

    open spec fn enc(v: bool) -> JsonView {
        JsonView::Bool(v)
    }

    open spec fn dec(json: JsonView) -> Option<bool> {
        bool_of(Some(json))
    }

    open spec fn complaint(json: JsonView) -> Seq<char> {
        "expected true or false"@
    }

    proof fn round_trip(v: bool) {
    }

    fn to_json(&self) -> (r: Json) {
        Json::Bool(*self)
    }

    fn read(json: &Json) -> (r: Option<Self>) {
        json.as_bool()
    }

    fn complain(json: &Json) -> (r: String) {
        copy("expected true or false")
    }
}

impl Coded for u64 {
    open spec fn stable(v: u64) -> bool {
        true
    }

    open spec fn enc(v: u64) -> JsonView {
        JsonView::Unsigned(v)
    }

    open spec fn dec(json: JsonView) -> Option<u64> {
        unsigned_of(Some(json))
    }

    open spec fn complaint(json: JsonView) -> Seq<char> {
        "expected an unsigned integer"@
    }

    proof fn round_trip(v: u64) {
    }

    fn to_json(&self) -> (r: Json) {
        Json::Unsigned(*self)
    }

    fn read(json: &Json) -> (r: Option<Self>) {
        json.as_u64()
    }

    fn complain(json: &Json) -> (r: String) {
        copy("expected an unsigned integer")
    }
}

/// An unsigned integer that is no larger than `max`.
pub open spec fn at_most(json: JsonView, max: u64) -> Option<u64> {
    match json {
        JsonView::Unsigned(n) => if n <= max {
            Some(n)
        } else {
            None
        },
        _ => None,
    }
}

fn read_at_most(json: &Json, max: u64) -> (r: Option<u64>)
    ensures
        r == at_most(json@, max),
{
    match json {
        Json::Unsigned(n) => if *n <= max {
            Some(*n)
        } else {
            None
        },
        _ => None,
    }
}

impl Coded for u8 {
    open spec fn stable(v: u8) -> bool {
        true
    }

    open spec fn enc(v: u8) -> JsonView {
        JsonView::Unsigned(v as u64)
    }

    open spec fn dec(json: JsonView) -> Option<u8> {
        match at_most(json, 0xff) {
            Some(n) => Some(n as u8),
            None => None,
        }
    }

    open spec fn complaint(json: JsonView) -> Seq<char> {
        "expected an integer from 0 to 255"@
    }

    proof fn round_trip(v: u8) {
    }

    fn to_json(&self) -> (r: Json) {
        Json::Unsigned(*self as u64)
    }

    fn read(json: &Json) -> (r: Option<Self>) {
        match read_at_most(json, 0xff) {
            Some(n) => Some(n as u8),
            None => None,
        }
    }

    fn complain(json: &Json) -> (r: String) {
        copy("expected an integer from 0 to 255")
    }
}

impl Coded for u16 {
    open spec fn stable(v: u16) -> bool {
        true
    }

    open spec fn enc(v: u16) -> JsonView {
        JsonView::Unsigned(v as u64)
    }

    open spec fn dec(json: JsonView) -> Option<u16> {
        match at_most(json, 0xffff) {
            Some(n) => Some(n as u16),
            None => None,
        }
    }

    open spec fn complaint(json: JsonView) -> Seq<char> {
        "expected an integer from 0 to 65535"@
    }

    proof fn round_trip(v: u16) {
    }

    fn to_json(&self) -> (r: Json) {
        Json::Unsigned(*self as u64)
    }

    fn read(json: &Json) -> (r: Option<Self>) {
        match read_at_most(json, 0xffff) {
            Some(n) => Some(n as u16),
            None => None,
        }
    }

    fn complain(json: &Json) -> (r: String) {
        copy("expected an integer from 0 to 65535")
    }
}

impl Coded for u32 {
    open spec fn stable(v: u32) -> bool {
        true
    }

    open spec fn enc(v: u32) -> JsonView {
        JsonView::Unsigned(v as u64)
    }

    open spec fn dec(json: JsonView) -> Option<u32> {
        match at_most(json, 0xffff_ffff) {
            Some(n) => Some(n as u32),
            None => None,
        }
    }

    open spec fn complaint(json: JsonView) -> Seq<char> {
        "expected an integer of 32 bits without a sign"@
    }

    proof fn round_trip(v: u32) {
    }

    fn to_json(&self) -> (r: Json) {
        Json::Unsigned(*self as u64)
    }

    fn read(json: &Json) -> (r: Option<Self>) {
        match read_at_most(json, 0xffff_ffff) {
            Some(n) => Some(n as u32),
            None => None,
        }
    }

    fn complain(json: &Json) -> (r: String) {
        copy("expected an integer of 32 bits without a sign")
    }
}

impl Coded for usize {
    open spec fn stable(v: usize) -> bool {
        true
    }

    open spec fn enc(v: usize) -> JsonView {
        JsonView::Unsigned(v as u64)
    }

    open spec fn dec(json: JsonView) -> Option<usize> {
        match at_most(json, usize::MAX as u64) {
            Some(n) => Some(n as usize),
            None => None,
        }
    }

    open spec fn complaint(json: JsonView) -> Seq<char> {
        "expected an unsigned integer"@
    }

    proof fn round_trip(v: usize) {
    }

    fn to_json(&self) -> (r: Json) {
        Json::Unsigned(*self as u64)
    }

    fn read(json: &Json) -> (r: Option<Self>) {
        match read_at_most(json, usize::MAX as u64) {
            Some(n) => Some(n as usize),
            None => None,
        }
    }

    fn complain(json: &Json) -> (r: String) {
        copy("expected an unsigned integer")
    }
}

impl Coded for i32 {
    open spec fn stable(v: i32) -> bool {
        true
    }

    open spec fn enc(v: i32) -> JsonView {
        if v >= 0 {
            JsonView::Unsigned(v as u64)
        } else {
            JsonView::Negative(v as i64)
        }
    }

    open spec fn dec(json: JsonView) -> Option<i32> {
        match integer_of(Some(json)) {
            Some(n) => if i32::MIN <= n <= i32::MAX {
                Some(n as i32)
            } else {
                None
            },
            None => None,
        }
    }

    open spec fn complaint(json: JsonView) -> Seq<char> {
        "expected an integer of 32 bits"@
    }

    proof fn round_trip(v: i32) {
    }

    fn to_json(&self) -> (r: Json) {
        if *self >= 0 {
            Json::Unsigned(*self as u64)
        } else {
            Json::Negative(*self as i64)
        }
    }

    fn read(json: &Json) -> (r: Option<Self>) {
        match json.as_i64() {
            Some(n) => if -0x8000_0000 <= n && n <= 0x7fff_ffff {
                Some(n as i32)
            } else {
                None
            },
            None => None,
        }
    }

    fn complain(json: &Json) -> (r: String) {
        copy("expected an integer of 32 bits")
    }
}

/// A JSON value stands for itself.
impl Coded for Json {
    open spec fn stable(v: JsonView) -> bool {
        true
    }

    open spec fn enc(v: JsonView) -> JsonView {
        v
    }

    open spec fn dec(json: JsonView) -> Option<JsonView> {
        Some(json)
    }

    open spec fn complaint(json: JsonView) -> Seq<char> {
        "unexpected JSON"@
    }

    proof fn round_trip(v: JsonView) {
    }

    fn to_json(&self) -> (r: Json) {
        self.clone()
    }

    fn read(json: &Json) -> (r: Option<Self>) {
        Some(json.clone())
    }

    fn complain(json: &Json) -> (r: String) {
        copy("unexpected JSON")
    }
}

/// Bytes are written as the list of them.
impl Coded for Vec<u8> {
    open spec fn stable(v: Seq<u8>) -> bool {
        true
    }

    open spec fn enc(v: Seq<u8>) -> JsonView {
        enc_list::<u8>(v)
    }

    open spec fn dec(json: JsonView) -> Option<Seq<u8>> {
        dec_list::<u8>(json)
    }

    open spec fn complaint(json: JsonView) -> Seq<char> {
        "expected a list of bytes"@
    }

    proof fn round_trip(v: Seq<u8>) {
        list_round_trip::<u8>(v);
    }

    fn to_json(&self) -> (r: Json) {
        assert(views(self@) =~= self@);
        list_to_json(self)
    }

    fn read(json: &Json) -> (r: Option<Self>) {
        let r: Option<Vec<u8>> = list_from_json(json);
        proof {
            if r is Some {
                assert(views(r->0@) =~= r->0@);
            }
        }
        r
    }

    fn complain(json: &Json) -> (r: String) {
        copy("expected a list of bytes")
    }
}

} // verus!
