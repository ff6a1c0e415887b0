//! The methods of arrays.

use vstd::prelude::*;
use crate::interpreter::equality::array_holds;
use crate::interpreter::error::{
    InterpreterError, ErrorView, type_error, runtime_error, same_result,
};
use crate::interpreter::objects::{Object, ObjectView, object_views};
use crate::interpreter::ops::{place, find_place};
use crate::interpreter::value::{Value, ValueView, value_views, holds_value};

verus! {

/// What `a.get(index, fallback)` gives: the element at the index, which
/// counts from the end where it is negative; the fallback where the array
/// has no such element; a runtime error where there is no fallback either.
pub open spec fn get_result(items: Seq<ValueView>, args: Seq<ValueView>) -> Result<
    ValueView,
    ErrorView,
> {
    if args.len() == 0 {
        Err(ErrorView::TypeError("First argument to get is required"@))
    } else if !(args[0] is Integer) {
        Err(ErrorView::TypeError("First argument to get must be an integer"@))
    } else {
        match place(args[0]->Integer_0 as int, items.len() as int) {
            Some(at) => Ok(items[at]),
            None => if args.len() > 1 {
                Ok(args[1])
            } else {
                Err(
                    ErrorView::RuntimeError(
                        "Index out of range and no fallback value provided"@,
                    ),
                )
            },
        }
    }
}

/// `a.get(index, fallback)`.
pub fn get(obj: &Vec<Value>, args: &Vec<Value>) -> (r: Result<Value, InterpreterError>)
    ensures
        same_result(r, get_result(value_views(obj@), value_views(args@))),
{
    if args.len() == 0 {
        return Err(type_error("First argument to get is required"));
    }
    let idx = match &args[0] {
        Value::Integer(i) => *i,
        _ => return Err(type_error("First argument to get must be an integer")),
    };
    match find_place(idx, obj.len()) {
        Some(at) => Ok(obj[at].cloned()),
        None => {
            if args.len() > 1 {
                Ok(args[1].cloned())
            } else {
                Err(runtime_error("Index out of range and no fallback value provided"))
            }
        },
    }
}

/// `a.length()`: the number of elements.
pub fn length(obj: &Vec<Value>) -> (r: Result<Value, InterpreterError>)
    ensures
        match r {
            Ok(v) => v@ == ValueView::Integer(obj@.len() as i64) && obj@.len() <= i64::MAX,
            Err(e) => obj@.len() > i64::MAX && e@ == ErrorView::TypeError(
                "Array length exceeds i64"@,
            ),
        },
{
    if obj.len() as u64 > 0x7fff_ffff_ffff_ffff {
        Err(type_error("Array length exceeds i64"))
    } else {
        Ok(Value::Integer(obj.len() as i64))
    }
}

/// What `a.contains(item)` gives.
pub open spec fn contains_result(
    items: Seq<ValueView>,
    args: Seq<ValueView>,
    objs: Seq<ObjectView>,
) -> Result<ValueView, ErrorView> {
    if args.len() == 0 {
        Err(ErrorView::TypeError("First argument to contains is required"@))
    } else {
        Ok(ValueView::Boolean(holds_value(items, args[0], objs)))
    }
}

/// `a.contains(item)`.
pub fn contains(obj: &Vec<Value>, args: &Vec<Value>, objects: &Vec<Object>) -> (r: Result<
    Value,
    InterpreterError,
>)
    ensures
        same_result(
            r,
            contains_result(value_views(obj@), value_views(args@), object_views(objects@)),
        ),
{
    if args.len() == 0 {
        return Err(type_error("First argument to contains is required"));
    }
    Ok(Value::Boolean(array_holds(obj, &args[0], objects)))
}

} // verus!
