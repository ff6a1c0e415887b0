//! The methods of dicts.

use vstd::prelude::*;
use crate::assoc::{lookup, names, string_names, find_key};
use crate::interpreter::error::{InterpreterError, ErrorView, runtime_error, same_result};
use crate::interpreter::value::{Value, ValueView, value_views, pair_views};

verus! {

/// The key that a method of a dict was called with: the first argument,
/// which must be a string.
pub open spec fn key_argument(args: Seq<ValueView>, method: Seq<char>) -> Result<
    Seq<char>,
    ErrorView,
> {
    if args.len() == 0 {
        Err(ErrorView::TypeError("First argument to "@ + method + " is required"@))
    } else if !(args[0] is String) {
        Err(ErrorView::TypeError("First argument to "@ + method + " must be a string"@))
    } else {
        Ok(args[0]->String_0)
    }
}

fn take_key<'a>(args: &'a Vec<Value>, method: &str) -> (r: Result<&'a str, InterpreterError>)
    ensures
        match r {
            Ok(s) => key_argument(value_views(args@), method@) == Ok::<Seq<char>, ErrorView>(s@),
            Err(e) => key_argument(value_views(args@), method@) == Err::<Seq<char>, ErrorView>(
                e@,
            ),
        },
{
    if args.len() == 0 {
        return Err(
            InterpreterError::TypeError(
                crate::text::concat3("First argument to ", method, " is required"),
            ),
        );
    }
    match &args[0] {
        Value::String(s) => Ok(s.as_str()),
        _ => Err(
            InterpreterError::TypeError(
                crate::text::concat3("First argument to ", method, " must be a string"),
            ),
        ),
    }
}

/// What `d.get(key, fallback)` gives: the value of the key, the fallback
/// where the dict has no such key, a runtime error where there is no
/// fallback either.
pub open spec fn get_result(entries: Seq<(Seq<char>, ValueView)>, args: Seq<ValueView>) -> Result<
    ValueView,
    ErrorView,
> {
    match key_argument(args, "get"@) {
        Err(e) => Err(e),
        Ok(key) => match lookup(entries, key) {
            Some(v) => Ok(v),
            None => if args.len() > 1 {
                Ok(args[1])
            } else {
                Err(ErrorView::RuntimeError("Key not found and no fallback value provided"@))
            },
        },
    }
}

/// `d.get(key, fallback)`.
pub fn get(obj: &Vec<(String, Value)>, args: &Vec<Value>) -> (r: Result<Value, InterpreterError>)
    ensures
        same_result(r, get_result(pair_views(obj@), value_views(args@))),
{
    let key = match take_key(args, "get") {
        Ok(k) => k,
        Err(e) => return Err(e),
    };
    assert(names(pair_views(obj@)) =~= string_names(obj@));
    match find_key(obj, key) {
        Some(i) => Ok(obj[i].1.cloned()),
        None => {
            if args.len() > 1 {
                Ok(args[1].cloned())
            } else {
                Err(runtime_error("Key not found and no fallback value provided"))
            }
        },
    }
}

/// What `d.has_key(key)` gives.
pub open spec fn has_key_result(
    entries: Seq<(Seq<char>, ValueView)>,
    args: Seq<ValueView>,
) -> Result<ValueView, ErrorView> {
    match key_argument(args, "has_key"@) {
        Err(e) => Err(e),
        Ok(key) => Ok(ValueView::Boolean(crate::assoc::has_key(entries, key))),
    }
}

/// `d.has_key(key)`.
pub fn has_key(obj: &Vec<(String, Value)>, args: &Vec<Value>) -> (r: Result<
    Value,
    InterpreterError,
>)
    ensures
        same_result(r, has_key_result(pair_views(obj@), value_views(args@))),
{
    let key = match take_key(args, "has_key") {
        Ok(k) => k,
        Err(e) => return Err(e),
    };
    assert(names(pair_views(obj@)) =~= string_names(obj@));
    Ok(Value::Boolean(find_key(obj, key).is_some()))
}

/// The keys of a dict as values, in the order of its entries.
pub open spec fn key_values(entries: Seq<(Seq<char>, ValueView)>) -> Seq<ValueView> {
    Seq::new(entries.len(), |i: int| ValueView::String(entries[i].0))
}

/// The values of a dict, in the order of its entries.
pub open spec fn entry_values(entries: Seq<(Seq<char>, ValueView)>) -> Seq<ValueView> {
    Seq::new(entries.len(), |i: int| entries[i].1)
}

/// `d.keys()`.
pub fn keys(obj: &Vec<(String, Value)>) -> (r: Result<Value, InterpreterError>)
    ensures
        same_result(r, Ok(ValueView::Array(key_values(pair_views(obj@))))),
{
    let mut out: Vec<Value> = Vec::new();
    let mut i: usize = 0;
    while i < obj.len()
        invariant
            i <= obj.len(),
            out@.len() == i,
            forall|j: int| 0 <= j < i ==> (#[trigger] out@[j])@ == ValueView::String(obj@[j].0@),
        decreases obj.len() - i,
    {
        out.push(Value::String(obj[i].0.clone()));
        i += 1;
    }
    assert(value_views(out@) =~= key_values(pair_views(obj@)));
    Ok(Value::Array(out))
}

/// `d.values()`.
pub fn values(obj: &Vec<(String, Value)>) -> (r: Result<Value, InterpreterError>)
    ensures
        same_result(r, Ok(ValueView::Array(entry_values(pair_views(obj@))))),
{
    let mut out: Vec<Value> = Vec::new();
    let mut i: usize = 0;
    while i < obj.len()
        invariant
            i <= obj.len(),
            out@.len() == i,
            forall|j: int| 0 <= j < i ==> (#[trigger] out@[j])@ == obj@[j].1@,
        decreases obj.len() - i,
    {
        out.push(obj[i].1.cloned());
        i += 1;
    }
    assert(value_views(out@) =~= entry_values(pair_views(obj@)));
    Ok(Value::Array(out))
}

} // verus!
