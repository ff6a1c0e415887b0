//! `test()`.

use vstd::prelude::*;
use crate::interpreter::error::{InterpreterError, same_result};
use crate::interpreter::value::{Value, ValueView};

verus! {

/// `test(...)`: declares nothing and gives nothing.
pub fn test(args: &Vec<Value>, kwargs: &Vec<(String, Value)>) -> (r: Result<
    Value,
    InterpreterError,
>)
    ensures
        same_result(r, Ok(ValueView::Nothing)),
{
    Ok(Value::Nothing)
}

} // verus!
