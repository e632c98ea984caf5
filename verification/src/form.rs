//! Records whose members are printed in the order in which they are declared.
use crate::coding::{enc_list, views, Coded};
use crate::json::{form_views, members_in, record_views, value_in, values_in, Form, FormView, JsonView};
use crate::text::copy;
use vstd::prelude::*;

verus! {

broadcast use vstd::seq_lib::group_seq_properties;

/// A record type: its members have an order in which they are printed.
pub trait Recorded: Coded {
    /// The members of a value, in order.
    spec fn form(v: Self::V) -> FormView;

    /// The order does not change what is said.
    proof fn form_says(v: Self::V)
        ensures
            value_in(Self::form(v)) == Self::enc(v),
    ;

    /// The members of the value, in order.
    fn to_form(&self) -> (r: Form)
        ensures
            r@ == Self::form(self@),
    ;
}

/// Members, and one more at the end.
pub open spec fn then_member(
    members: Seq<(Seq<char>, FormView)>,
    key: Seq<char>,
    value: FormView,
) -> Seq<(Seq<char>, FormView)> {
    members.push((key, value))
}

/// Members, and one more at the end where it has a text.
pub open spec fn then_text(
    members: Seq<(Seq<char>, FormView)>,
    key: Seq<char>,
    text: Option<Seq<char>>,
) -> Seq<(Seq<char>, FormView)> {
    match text {
        Some(text) => then_member(members, key, FormView::Value(JsonView::Text(text))),
        None => members,
    }
}

/// A member at the end counts last.
pub proof fn lemma_then_member(members: Seq<(Seq<char>, FormView)>, key: Seq<char>, value: FormView)
    ensures
        members_in(then_member(members, key, value)) == members_in(members).insert(key, value_in(value)),
{
    assert(then_member(members, key, value).drop_last() =~= members);
}

/// Adds a member at the end.
pub fn add_member(members: &mut Vec<(String, Form)>, key: &str, value: Form)
    ensures
        record_views(final(members)@) == then_member(record_views(old(members)@), key@, value@),
{
    let ghost was = members@;
    members.push((copy(key), value));
    assert(members@.drop_last() =~= was);
}

/// The forms of a list.
pub open spec fn list_form<T: Recorded>(items: Seq<T::V>) -> FormView {
    FormView::List(Seq::new(items.len(), |i: int| T::form(items[i])))
}

/// What the items of a list say.
proof fn lemma_values_in(items: Seq<FormView>)
    ensures
        values_in(items).len() == items.len(),
        forall|i: int| 0 <= i < items.len() ==> #[trigger] values_in(items)[i] == value_in(items[i]),
    decreases items.len(),
{
    if items.len() > 0 {
        lemma_values_in(items.drop_last());
        assert forall|i: int| 0 <= i < items.len() implies #[trigger] values_in(items)[i] == value_in(items[i]) by {
            if i < items.len() - 1 {
                assert(values_in(items.drop_last())[i] == value_in(items.drop_last()[i]));
            }
        }
    }
}

/// A list of records says what its items say.
pub proof fn lemma_list_form<T: Recorded>(items: Seq<T::V>)
    ensures
        value_in(list_form::<T>(items)) == enc_list::<T>(items),
{
    let forms = list_form::<T>(items)->List_0;
    lemma_values_in(forms);
    assert forall|i: int| 0 <= i < items.len() implies #[trigger] values_in(forms)[i] == T::enc(items[i]) by {
        T::form_says(items[i]);
    }
    assert(values_in(forms) =~= enc_list::<T>(items)->Array_0);
}

/// The forms of a list.
pub fn list_to_form<T: Recorded>(items: &Vec<T>) -> (r: Form)
    ensures
        r@ == list_form::<T>(views(items@)),
{
    let mut out: Vec<Form> = Vec::new();
    let mut i: usize = 0;
    let ghost all = list_form::<T>(views(items@))->List_0;
    assert(all.take(0) =~= Seq::empty());
    while i < items.len()
        invariant
            i <= items@.len(),
            all == list_form::<T>(views(items@))->List_0,
            all.len() == items@.len(),
            form_views(out@) == all.take(i as int),
        decreases items@.len() - i,
    {
        let ghost was = out@;
        out.push(items[i].to_form());
        proof {
            assert(out@.drop_last() =~= was);
            assert(all.take(i + 1) =~= all.take(i as int).push(all[i as int]));
        }
        i = i + 1;
    }
    assert(all.take(i as int) =~= all);
    Form::List(out)
}

} // verus!
