//! JSON values.
use crate::text::{copy, opt_text};
use vstd::prelude::*;
use vstd::string::*;
use vstd::utf8::encode_utf8;

verus! {

broadcast use vstd::seq_lib::group_seq_properties;

/// A JSON value.
///
/// A number is kept as the JSON library keeps it: an unsigned integer, a negative
/// integer, or else the text of a floating-point number. The members of an object
/// stand in the order in which they were set; of two members with one name the
/// later one counts.
#[derive(Debug)]
pub enum Json {
    Null,
    Bool(bool),
    Unsigned(u64),
    Negative(i64),
    Float(String),
    Text(String),
    Array(Vec<Json>),
    Object(Vec<(String, Json)>),
}

/// What a JSON value is.
pub enum JsonView {
    Null,
    Bool(bool),
    Unsigned(u64),
    Negative(i64),
    Float(Seq<char>),
    Text(Seq<char>),
    Array(Seq<JsonView>),
    Object(Map<Seq<char>, JsonView>),
}

/// The values of the items.
pub open spec fn item_views(items: Seq<Json>) -> Seq<JsonView>
    decreases items,
{
    if items.len() == 0 {
        Seq::empty()
    } else {
        item_views(items.drop_last()).push(json_view(items.last()))
    }
}

/// The members by name, the later ones first.
pub open spec fn member_views(members: Seq<(String, Json)>) -> Map<Seq<char>, JsonView>
    decreases members,
{
    if members.len() == 0 {
        Map::empty()
    } else {
        member_views(members.drop_last()).insert(members.last().0@, json_view(members.last().1))
    }
}

/// What the value is.
pub open spec fn json_view(json: Json) -> JsonView
    decreases json,
{
    match json {
        Json::Null => JsonView::Null,
        Json::Bool(b) => JsonView::Bool(b),
        Json::Unsigned(n) => JsonView::Unsigned(n),
        Json::Negative(n) => JsonView::Negative(n),
        Json::Float(t) => JsonView::Float(t@),
        Json::Text(t) => JsonView::Text(t@),
        Json::Array(items) => JsonView::Array(item_views(items@)),
        Json::Object(members) => JsonView::Object(member_views(members@)),
    }
}

impl View for Json {
    type V = JsonView;

    open spec fn view(&self) -> JsonView {
        json_view(*self)
    }
}

impl Clone for Json {
    fn clone(&self) -> (r: Self)
        ensures
            r@ == self@,
        decreases self,
    {
        match self {
            Json::Null => Json::Null,
            Json::Bool(b) => Json::Bool(*b),
            Json::Unsigned(n) => Json::Unsigned(*n),
            Json::Negative(n) => Json::Negative(*n),
            Json::Float(t) => Json::Float(t.clone()),
            Json::Text(t) => Json::Text(t.clone()),
            Json::Array(items) => {
                let mut out: Vec<Json> = Vec::new();
                let mut i: usize = 0;
                while i < items.len()
                    invariant
                        i <= items@.len(),
                        *self == Json::Array(*items),
                        item_views(out@) == item_views(items@.take(i as int)),
                    decreases items@.len() - i,
                {
                    proof {
                        assert(decreases_to!(*self => self->Array_0));
                        assert(decreases_to!(*items => items@));
                        assert(decreases_to!(items@ => items@[i as int]));
                    }
                    let item = items[i].clone();
                    let ghost was = out@;
                    out.push(item);
                    proof {
                        assert(out@.drop_last() =~= was);
                        assert(items@.take(i + 1).drop_last() =~= items@.take(i as int));
                    }
                    i = i + 1;
                }
                assert(items@.take(i as int) =~= items@);
                Json::Array(out)
            },
            Json::Object(members) => {
                let mut out: Vec<(String, Json)> = Vec::new();
                let mut i: usize = 0;
                while i < members.len()
                    invariant
                        i <= members@.len(),
                        *self == Json::Object(*members),
                        member_views(out@) == member_views(members@.take(i as int)),
                    decreases members@.len() - i,
                {
                    let member = &members[i];
                    proof {
                        assert(decreases_to!(*self => self->Object_0));
                        assert(decreases_to!(*members => members@));
                        assert(decreases_to!(members@ => members@[i as int]));
                        assert(decreases_to!(members@[i as int] => members@[i as int].1));
                    }
                    let value = member.1.clone();
                    let ghost was = out@;
                    out.push((member.0.clone(), value));
                    proof {
                        assert(out@.drop_last() =~= was);
                        assert(members@.take(i + 1).drop_last() =~= members@.take(i as int));
                    }
                    i = i + 1;
                }
                assert(members@.take(i as int) =~= members@);
                Json::Object(out)
            },
        }
    }
}

/// The member `key` of a value, where it is an object that has one.
pub open spec fn member(json: JsonView, key: Seq<char>) -> Option<JsonView> {
    match json {
        JsonView::Object(members) => if members.contains_key(key) {
            Some(members[key])
        } else {
            None
        },
        _ => None,
    }
}

/// The text of a value that is one.
pub open spec fn text_of(json: Option<JsonView>) -> Option<Seq<char>> {
    match json {
        Some(JsonView::Text(t)) => Some(t),
        _ => None,
    }
}

/// The integer of a value that is one.
pub open spec fn integer_of(json: Option<JsonView>) -> Option<i64> {
    match json {
        Some(JsonView::Unsigned(n)) => if n <= i64::MAX {
            Some(n as i64)
        } else {
            None
        },
        Some(JsonView::Negative(n)) => Some(n),
        _ => None,
    }
}

/// The unsigned integer of a value that is one.
pub open spec fn unsigned_of(json: Option<JsonView>) -> Option<u64> {
    match json {
        Some(JsonView::Unsigned(n)) => Some(n),
        _ => None,
    }
}

/// The truth value of a value that is one.
pub open spec fn bool_of(json: Option<JsonView>) -> Option<bool> {
    match json {
        Some(JsonView::Bool(b)) => Some(b),
        _ => None,
    }
}

/// A text that may be missing or null: `None` where there is something else.
pub open spec fn maybe_text_of(json: Option<JsonView>) -> Option<Option<Seq<char>>> {
    match json {
        None => Some(None),
        Some(JsonView::Null) => Some(None),
        Some(JsonView::Text(t)) => Some(Some(t)),
        _ => None,
    }
}

/// A text or null.
pub open spec fn nullable(text: Option<Seq<char>>) -> JsonView {
    match text {
        Some(t) => JsonView::Text(t),
        None => JsonView::Null,
    }
}

/// The members after position `n` do not matter for a name that they do not have.
proof fn lemma_members_after(members: Seq<(String, Json)>, n: int, key: Seq<char>)
    requires
        0 <= n <= members.len(),
        forall|j: int| n <= j < members.len() ==> (#[trigger] members[j]).0@ != key,
    ensures
        member_views(members).contains_key(key) == member_views(members.take(n)).contains_key(key),
        member_views(members).contains_key(key) ==> member_views(members)[key] == member_views(members.take(n))[key],
    decreases members.len(),
{
    if n == members.len() {
        assert(members.take(n) =~= members);
    } else {
        let init = members.drop_last();
        assert forall|j: int| n <= j < init.len() implies (#[trigger] init[j]).0@ != key by {
            assert(members[j].0@ != key);
        }
        lemma_members_after(init, n, key);
        assert(init.take(n) =~= members.take(n));
        assert(members[members.len() - 1].0@ != key);
    }
}

/// Sets a member of an object.
pub fn put(members: &mut Vec<(String, Json)>, key: &str, value: Json)
    ensures
        member_views(final(members)@) == member_views(old(members)@).insert(key@, value@),
{
    let ghost was = members@;
    members.push((copy(key), value));
    assert(members@.drop_last() =~= was);
}

impl Json {
    /// A text.
    pub fn text(t: &str) -> (r: Json)
        ensures
            r@ == JsonView::Text(t@),
    {
        Json::Text(copy(t))
    }

    /// A text or null.
    pub fn maybe_text(t: &Option<String>) -> (r: Json)
        ensures
            r@ == nullable(opt_text(*t)),
    {
        match t {
            Some(t) => Json::Text(t.clone()),
            None => Json::Null,
        }
    }

    /// The text of the member `key`, where there is one.
    pub fn text_field(&self, key: &str) -> (r: Option<String>)
        ensures
            opt_text(r) == text_of(member(self@, key@)),
    {
        match self.get(key) {
            Some(Json::Text(t)) => Some(t.clone()),
            _ => None,
        }
    }

    /// The text of the member `key`, which may be missing or null.
    pub fn maybe_text_field(&self, key: &str) -> (r: Option<Option<String>>)
        ensures
            match r {
                Some(t) => maybe_text_of(member(self@, key@)) == Some(opt_text(t)),
                None => maybe_text_of(member(self@, key@)) is None,
            },
    {
        match self.get(key) {
            None => Some(None),
            Some(Json::Null) => Some(None),
            Some(Json::Text(t)) => Some(Some(t.clone())),
            Some(_) => None,
        }
    }

    /// The unsigned integer of the member `key`, where there is one.
    pub fn u64_field(&self, key: &str) -> (r: Option<u64>)
        ensures
            r == unsigned_of(member(self@, key@)),
    {
        match self.get(key) {
            Some(Json::Unsigned(n)) => Some(*n),
            _ => None,
        }
    }

    /// The truth value of the member `key`, where there is one.
    pub fn bool_field(&self, key: &str) -> (r: Option<bool>)
        ensures
            r == bool_of(member(self@, key@)),
    {
        match self.get(key) {
            Some(Json::Bool(b)) => Some(*b),
            _ => None,
        }
    }

    /// An object without members.
    pub fn empty_object() -> (r: Json)
        ensures
            r@ == JsonView::Object(Map::empty()),
    {
        Json::Object(Vec::new())
    }

    /// The member `key`, where this is an object that has one.
    pub fn get(&self, key: &str) -> (r: Option<&Json>)
        ensures
            match r {
                Some(v) => member(self@, key@) == Some(v@),
                None => member(self@, key@) is None,
            },
            r is Some ==> decreases_to!(*self => *r->Some_0),
    {
        match self {
            Json::Object(members) => {
                let mut n: usize = members.len();
                while n > 0
                    invariant
                        n <= members@.len(),
                        *self == Json::Object(*members),
                        forall|j: int| n <= j < members@.len() ==> (#[trigger] members@[j]).0@ != key@,
                    decreases n,
                {
                    let entry = &members[n - 1];
                    if *entry.0.as_str() == *key {
                        proof {
                            lemma_members_after(members@, n as int, key@);
                            assert(members@.take(n as int).last() == *entry);
                            assert(decreases_to!(*self => self->Object_0));
                            assert(decreases_to!(*members => members@));
                            assert(decreases_to!(members@ => members@[n - 1]));
                            assert(decreases_to!(members@[n - 1] => members@[n - 1].1));
                        }
                        return Some(&entry.1);
                    }
                    n = n - 1;
                }
                proof {
                    lemma_members_after(members@, 0, key@);
                    assert(members@.take(0) =~= Seq::<(String, Json)>::empty());
                }
                None
            },
            _ => None,
        }
    }

    /// The text, where this is one.
    pub fn as_str(&self) -> (r: Option<&str>)
        ensures
            match r {
                Some(t) => self@ == JsonView::Text(t@),
                None => !(self@ is Text),
            },
    {
        match self {
            Json::Text(t) => Some(t.as_str()),
            _ => None,
        }
    }

    /// The truth value, where this is one.
    pub fn as_bool(&self) -> (r: Option<bool>)
        ensures
            match r {
                Some(b) => self@ == JsonView::Bool(b),
                None => !(self@ is Bool),
            },
    {
        match self {
            Json::Bool(b) => Some(*b),
            _ => None,
        }
    }

    /// The unsigned integer, where this is one.
    pub fn as_u64(&self) -> (r: Option<u64>)
        ensures
            match r {
                Some(n) => self@ == JsonView::Unsigned(n),
                None => !(self@ is Unsigned),
            },
    {
        match self {
            Json::Unsigned(n) => Some(*n),
            _ => None,
        }
    }

    /// Whether this is an object.
    pub fn is_object(&self) -> (r: bool)
        ensures
            r == (self@ is Object),
    {
        match self {
            Json::Object(_) => true,
            _ => false,
        }
    }

    /// The integer, where this is one that is not below zero or one that is.
    pub fn as_i64(&self) -> (r: Option<i64>)
        ensures
            r == integer_of(Some(self@)),
    {
        match self {
            Json::Unsigned(n) => if *n <= 0x7fff_ffff_ffff_ffff {
                Some(*n as i64)
            } else {
                None
            },
            Json::Negative(n) => Some(*n),
            _ => None,
        }
    }

    /// The compact text.
    pub fn to_string(&self) -> (r: String)
        ensures
            r@ == printed(self@),
    {
        print_json(self)
    }

    /// The value that a text spells.
    pub fn parse(text: &str) -> (r: Result<Json, String>)
        ensures
            parse_view(r) == parsed(text@),
            forall|json: Json| plain(json@, parse_depth()) && text@ == #[trigger] printed(json@) ==> gives(r, json@),
    {
        parse_json(text)
    }

    /// Whether this is null.
    pub fn is_null(&self) -> (r: bool)
        ensures
            r == (self@ is Null),
    {
        match self {
            Json::Null => true,
            _ => false,
        }
    }
}

// ---- Forms -------------------------------------------------------------------

/// A value to be printed, with the order in which its members come.
pub enum Form {
    /// A value; the members of its objects come in the order of their names.
    Value(Json),
    /// A list of forms.
    List(Vec<Form>),
    /// An object; its members come in this order.
    Record(Vec<(String, Form)>),
}

/// What a [`Form`] says, and in which order.
pub enum FormView {
    Value(JsonView),
    List(Seq<FormView>),
    Record(Seq<(Seq<char>, FormView)>),
}

/// What the items of a list say.
pub open spec fn form_views(items: Seq<Form>) -> Seq<FormView>
    decreases items,
{
    if items.len() == 0 {
        Seq::empty()
    } else {
        form_views(items.drop_last()).push(form_view(items.last()))
    }
}

/// What the members of a record say, in order.
pub open spec fn record_views(members: Seq<(String, Form)>) -> Seq<(Seq<char>, FormView)>
    decreases members,
{
    if members.len() == 0 {
        Seq::empty()
    } else {
        record_views(members.drop_last()).push((members.last().0@, form_view(members.last().1)))
    }
}

/// What the form says.
pub open spec fn form_view(form: Form) -> FormView
    decreases form,
{
    match form {
        Form::Value(json) => FormView::Value(json@),
        Form::List(items) => FormView::List(form_views(items@)),
        Form::Record(members) => FormView::Record(record_views(members@)),
    }
}

impl View for Form {
    type V = FormView;

    open spec fn view(&self) -> FormView {
        form_view(*self)
    }
}

/// The values of forms.
pub open spec fn values_in(items: Seq<FormView>) -> Seq<JsonView>
    decreases items,
{
    if items.len() == 0 {
        Seq::empty()
    } else {
        values_in(items.drop_last()).push(value_in(items.last()))
    }
}

/// The members of a record by name, the later ones first.
pub open spec fn members_in(members: Seq<(Seq<char>, FormView)>) -> Map<Seq<char>, JsonView>
    decreases members,
{
    if members.len() == 0 {
        Map::empty()
    } else {
        members_in(members.drop_last()).insert(members.last().0, value_in(members.last().1))
    }
}

/// The value that a form prints.
pub open spec fn value_in(form: FormView) -> JsonView
    decreases form,
{
    match form {
        FormView::Value(json) => json,
        FormView::List(items) => JsonView::Array(values_in(items)),
        FormView::Record(members) => JsonView::Object(members_in(members)),
    }
}

// ---- Text --------------------------------------------------------------------

/// `serde_json::Value`, carried between the parser or printer and this module.
#[verifier::external_type_specification]
#[verifier::external_body]
pub struct ExValue(serde_json::Value);

/// The compact text of a value.
pub uninterp spec fn printed(json: JsonView) -> Seq<char>;

/// The compact text of a form.
pub uninterp spec fn formed(form: FormView) -> Seq<char>;

/// The bytes of the indented text of a form, or what the printer says against it.
pub uninterp spec fn pretty(form: FormView) -> Result<Seq<u8>, Seq<char>>;

/// The value that a text spells, or what the parser says against it.
pub uninterp spec fn parsed(text: Seq<char>) -> Result<JsonView, Seq<char>>;

/// The same for the bytes of a text.
pub uninterp spec fn parsed_bytes(bytes: Seq<u8>) -> Result<JsonView, Seq<char>>;

/// What came of parsing.
pub open spec fn parse_view(r: Result<Json, String>) -> Result<JsonView, Seq<char>> {
    match r {
        Ok(json) => Ok(json@),
        Err(e) => Err(e@),
    }
}

/// What came of printing.
pub open spec fn pretty_view(r: Result<Vec<u8>, String>) -> Result<Seq<u8>, Seq<char>> {
    match r {
        Ok(bytes) => Ok(bytes@),
        Err(e) => Err(e@),
    }
}

/// `bytes` is the indented text of the form.
pub open spec fn is_pretty(form: FormView, bytes: Seq<u8>) -> bool {
    pretty(form) is Ok && pretty(form)->Ok_0 == bytes
}

/// The value that came of parsing.
pub open spec fn gives(r: Result<Json, String>, json: JsonView) -> bool {
    r is Ok && r->Ok_0@ == json
}

/// Without floating-point numbers, with every negative number below zero, and with
/// at most `depth` arrays and objects inside one another.
pub open spec fn plain(json: JsonView, depth: nat) -> bool
    decreases depth,
{
    match json {
        JsonView::Float(_) => false,
        JsonView::Negative(n) => n < 0,
        JsonView::Array(items) => depth > 0 && forall|i: int|
            0 <= i < items.len() ==> plain(#[trigger] items[i], (depth - 1) as nat),
        JsonView::Object(members) => depth > 0 && forall|k: Seq<char>|
            members.contains_key(k) ==> plain(#[trigger] members[k], (depth - 1) as nat),
        _ => true,
    }
}

/// The depth to which the parser goes; it gives up at 128.
pub open spec fn parse_depth() -> nat {
    127
}

/// A value in the form of `serde_json`, variant for variant. A floating-point number
/// is read from its text.
#[verifier::external_body]
fn value_of(json: &Json) -> (r: serde_json::Value) {
    match json {
        Json::Null => serde_json::Value::Null,
        Json::Bool(b) => serde_json::Value::Bool(*b),
        Json::Unsigned(n) => serde_json::Value::from(*n),
        Json::Negative(n) => serde_json::Value::from(*n),
        Json::Float(t) => t.parse::<serde_json::Number>().map_or(serde_json::Value::Null, serde_json::Value::Number),
        Json::Text(t) => serde_json::Value::String(t.clone()),
        Json::Array(items) => serde_json::Value::Array(items.iter().map(value_of).collect()),
        Json::Object(m) => serde_json::Value::Object(m.iter().map(|e| (e.0.clone(), value_of(&e.1))).collect()),
    }
}

/// A form as a value of `serde_json`, variant for variant. The members of a record stay in
/// their order, as `serde_json::Map` keeps the order in which they are put in;
/// `serde_json::Value::sort_all_objects` puts those of a value in the order of their names.
#[verifier::external_body]
fn value_of_form(form: &Form) -> (r: serde_json::Value) {
    match form {
        Form::Value(json) => {
            let mut value = value_of(json);
            value.sort_all_objects();
            value
        },
        Form::List(items) => serde_json::Value::Array(items.iter().map(value_of_form).collect()),
        Form::Record(m) => serde_json::Value::Object(m.iter().map(|e| (e.0.clone(), value_of_form(&e.1))).collect()),
    }
}

/// A value of `serde_json` in the form of this module, variant for variant. A
/// floating-point number becomes its text.
#[verifier::external_body]
fn json_of(value: serde_json::Value) -> (r: Json) {
    match value {
        serde_json::Value::Null => Json::Null,
        serde_json::Value::Bool(b) => Json::Bool(b),
        serde_json::Value::Number(n) => match (n.as_u64(), n.as_i64()) {
            (Some(u), _) => Json::Unsigned(u),
            (None, Some(i)) => Json::Negative(i),
            (None, None) => Json::Float(n.to_string()),
        },
        serde_json::Value::String(t) => Json::Text(t),
        serde_json::Value::Array(items) => Json::Array(items.into_iter().map(json_of).collect()),
        serde_json::Value::Object(m) => Json::Object(m.into_iter().map(|e| (e.0, json_of(e.1))).collect()),
    }
}

/// `<serde_json::Value as ToString>::to_string` of a value whose members
/// `serde_json::Value::sort_all_objects` has put in the order of their names: the compact
/// text, a function of the value alone.
#[verifier::external_body]
pub(crate) fn print_json(json: &Json) -> (r: String)
    ensures
        r@ == printed(json@),
{
    let mut value = value_of(json);
    value.sort_all_objects();
    value.to_string()
}

/// `<serde_json::Value as ToString>::to_string`: the compact text of a form, a function of
/// the form alone.
#[verifier::external_body]
pub(crate) fn print_form(form: &Form) -> (r: String)
    ensures
        r@ == formed(form@),
{
    value_of_form(form).to_string()
}

/// `serde_json::to_vec_pretty` of a form: the bytes of an indented text, or what the
/// printer says against it; a function of the form alone.
#[verifier::external_body]
pub(crate) fn print_form_pretty(form: &Form) -> (r: Result<Vec<u8>, String>)
    ensures
        pretty_view(r) == pretty(form@),
{
    serde_json::to_vec_pretty(&value_of_form(form)).map_err(|e| e.to_string())
}

/// `serde_json::from_str` into a value: the outcome is a function of the text alone,
/// and a text that was printed from a value without floating-point numbers gives that
/// value back. `serde_json::Value::sort_all_objects` puts the members in the order of their
/// names.
#[verifier::external_body]
pub(crate) fn parse_json(text: &str) -> (r: Result<Json, String>)
    ensures
        parse_view(r) == parsed(text@),
        forall|json: Json| plain(json@, parse_depth()) && text@ == #[trigger] printed(json@) ==> gives(r, json@),
{
    let mut value = serde_json::from_str::<serde_json::Value>(text).map_err(|e| e.to_string())?;
    value.sort_all_objects();
    Ok(json_of(value))
}

/// `serde_json::from_slice` into a value: as [`parse_json`], on bytes. The indented text of a
/// form gives its value back too.
#[verifier::external_body]
pub(crate) fn parse_json_bytes(bytes: &[u8]) -> (r: Result<Json, String>)
    ensures
        parse_view(r) == parsed_bytes(bytes@),
        forall|json: Json|
            plain(json@, parse_depth()) && bytes@ == encode_utf8(#[trigger] printed(json@)) ==> gives(r, json@),
        forall|form: Form|
            plain(value_in(form@), parse_depth()) && is_pretty(#[trigger] form@, bytes@) ==> gives(r, value_in(form@)),
{
    let mut value = serde_json::from_slice::<serde_json::Value>(bytes).map_err(|e| e.to_string())?;
    value.sort_all_objects();
    Ok(json_of(value))
}

/// What `serde_json` says against a value of a type that was not expected.
pub uninterp spec fn wrong_type(json: JsonView, expected: Seq<char>) -> Seq<char>;

/// `<serde_json::Error as serde::de::Error>::invalid_type`: the text of the error about a value
/// of another type than the one `expected` names, a function of the two alone. The arms name
/// the value as `serde` does.
#[verifier::external_body]
pub(crate) fn say_wrong_type(json: &Json, expected: &str) -> (r: String)
    ensures
        r@ == wrong_type(json@, expected@),
{
    let unexpected = match json {
        Json::Null => serde::de::Unexpected::Unit,
        Json::Bool(b) => serde::de::Unexpected::Bool(*b),
        Json::Unsigned(n) => serde::de::Unexpected::Unsigned(*n),
        Json::Negative(n) => serde::de::Unexpected::Signed(*n),
        Json::Float(t) => serde::de::Unexpected::Float(t.parse().unwrap_or_default()),
        Json::Text(t) => serde::de::Unexpected::Str(t),
        Json::Array(_) => serde::de::Unexpected::Seq,
        Json::Object(_) => serde::de::Unexpected::Map,
    };
    <serde_json::Error as serde::de::Error>::invalid_type(unexpected, &expected).to_string()
}

} // verus!
