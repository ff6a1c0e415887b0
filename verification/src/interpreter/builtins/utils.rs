//! Flattening of arguments: arrays within arrays are taken apart, so that
//! a function can be called with its arguments one by one, in an array, or
//! in arrays of arrays.

use vstd::prelude::*;
use crate::interpreter::value::{Value, ValueView, value_views};
use crate::interpreter::error::{InterpreterError, ErrorView, type_error};
use crate::interpreter::objects::string_views;

verus! {

/// The values of `items` that are no arrays, and those of the arrays among
/// them, to any depth, in the order in which they stand.
pub open spec fn flat(items: Seq<ValueView>) -> Seq<ValueView>
    decreases items,
{
    if items.len() == 0 {
        Seq::empty()
    } else {
        flat(items.drop_last()) + flat_one(items.last())
    }
}

/// The value itself where it is no array, else what its elements flatten
/// to.
pub open spec fn flat_one(v: ValueView) -> Seq<ValueView>
    decreases v,
{
    match v {
        ValueView::Array(items) => flat(items),
        _ => seq![v],
    }
}

/// Nothing that comes out of flattening is an array.
pub proof fn flat_holds_no_array(items: Seq<ValueView>)
    ensures
        forall|i: int| 0 <= i < flat(items).len() ==> !(#[trigger] flat(items)[i] is Array),
    decreases items,
{
    if items.len() > 0 {
        flat_holds_no_array(items.drop_last());
        match items.last() {
            ValueView::Array(inner) => {
                flat_holds_no_array(inner);
            },
            _ => {},
        }
        let a = flat(items.drop_last());
        let b = flat_one(items.last());
        assert(flat(items) == a + b);
        assert forall|i: int| 0 <= i < flat(items).len() implies !(#[trigger] flat(items)[i]
            is Array) by {
            if i < a.len() {
                assert(flat(items)[i] == a[i]);
            } else {
                assert(flat(items)[i] == b[i - a.len()]);
            }
        }
    }
}

/// A row without arrays flattens to itself.
pub proof fn flat_keeps_scalars(items: Seq<ValueView>)
    requires
        forall|i: int| 0 <= i < items.len() ==> !(#[trigger] items[i] is Array),
    ensures
        flat(items) == items,
    decreases items.len(),
{
    if items.len() > 0 {
        flat_keeps_scalars(items.drop_last());
        assert(items.drop_last().push(items.last()) =~= items);
        assert(flat_one(items.last()) == seq![items.last()]);
        assert(flat(items) == flat(items.drop_last()) + flat_one(items.last()));
        assert(flat(items) =~= items);
    }
}

/// Appends to `out` what `items` flatten to.
pub fn flatten_into(items: &Vec<Value>, out: &mut Vec<Value>)
    ensures
        value_views(final(out)@) == value_views(old(out)@) + flat(value_views(items@)),
    decreases items,
{
    let ghost start = value_views(out@);
    let ghost views = value_views(items@);
    let mut i: usize = 0;
    assert(views.take(0) =~= Seq::<ValueView>::empty());
    assert(start + flat(views.take(0)) =~= start);
    while i < items.len()
        invariant
            i <= items.len(),
            views == value_views(items@),
            value_views(out@) == start + flat(views.take(i as int)),
        decreases items.len() - i,
    {
        let ghost before = value_views(out@);
        let ghost next = views.take(i as int + 1);
        assert(next.drop_last() =~= views.take(i as int));
        assert(next.last() == items@[i as int]@);
        match &items[i] {
            Value::Array(inner) => {
                flatten_into(inner, out);
                assert(flat_one(next.last()) == flat(value_views(inner@)));
                assert(flat(next) == flat(next.drop_last()) + flat_one(next.last()));
                assert(value_views(out@) =~= start + flat(next));
            },
            other => {
                out.push(other.cloned());
                assert(value_views(out@) =~= before.push(other@));
                assert(flat_one(next.last()) == seq![other@]);
                assert(flat(next) == flat(next.drop_last()) + flat_one(next.last()));
                assert(value_views(out@) =~= start + flat(next));
            },
        }
        i += 1;
    }
    assert(views.take(items.len() as int) =~= views);
}

/// What `args` flatten to: depth first, in order, arrays taken apart to
/// any depth, everything else as it is.
pub fn flatten(args: &Vec<Value>) -> (r: Vec<Value>)
    ensures
        value_views(r@) == flat(value_views(args@)),
{
    let mut out: Vec<Value> = Vec::new();
    assert(value_views(out@) =~= Seq::<ValueView>::empty());
    flatten_into(args, &mut out);
    assert(Seq::<ValueView>::empty() + flat(value_views(args@)) =~= flat(value_views(args@)));
    out
}

/// The texts of a row of values that are all strings.
pub open spec fn all_strings(items: Seq<ValueView>) -> Option<Seq<Seq<char>>> {
    if forall|i: int| 0 <= i < items.len() ==> #[trigger] items[i] is String {
        Some(Seq::new(items.len(), |i: int| items[i]->String_0))
    } else {
        None
    }
}

/// The strings that the values of `items` are, or the type error with the
/// message `msg` where one of them is no string.
pub fn strings_of(items: &Vec<Value>, msg: &str) -> (r: Result<Vec<String>, InterpreterError>)
    ensures
        match r {
            Ok(texts) => all_strings(value_views(items@)) == Some(string_views(texts@)),
            Err(e) => all_strings(value_views(items@)) is None && e@ == ErrorView::TypeError(
                msg@,
            ),
        },
{
    let ghost views = value_views(items@);
    let mut out: Vec<String> = Vec::new();
    let mut i: usize = 0;
    while i < items.len()
        invariant
            i <= items.len(),
            views == value_views(items@),
            out@.len() == i,
            forall|j: int| 0 <= j < i ==> #[trigger] views[j] == ValueView::String(out@[j]@),
        decreases items.len() - i,
    {
        match &items[i] {
            Value::String(s) => {
                out.push(s.clone());
            },
            _ => {
                assert(!(views[i as int] is String));
                return Err(type_error(msg));
            },
        }
        i += 1;
    }
    assert(all_strings(views) is Some);
    assert(all_strings(views)->0 =~= string_views(out@));
    Ok(out)
}

/// The values that the strings `texts` are.
pub open spec fn string_values(texts: Seq<Seq<char>>) -> Seq<ValueView> {
    Seq::new(texts.len(), |i: int| ValueView::String(texts[i]))
}

} // verus!
