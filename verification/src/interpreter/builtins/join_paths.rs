//! `join_paths()`.

use vstd::prelude::*;
use crate::interpreter::builtins::utils::{flat, flatten, all_strings, strings_of};
use crate::interpreter::error::{InterpreterError, ErrorView, same_result};
use crate::interpreter::objects::string_views;
use crate::interpreter::value::{Value, ValueView, value_views};
use crate::path::{Path, joined, slashed};

verus! {

/// The path `base` extended by the parts from the index `i` on, one after
/// the other.
pub open spec fn joined_from(base: Seq<char>, parts: Seq<Seq<char>>, i: int) -> Seq<char>
    decreases parts.len() - i,
{
    if i < 0 || i >= parts.len() {
        base
    } else {
        joined_from(joined(base, parts[i]), parts, i + 1)
    }
}

/// The path that the parts make: the first of them, backslashes read as
/// slashes, extended by the others; the empty path where there is none.
pub open spec fn joined_all(parts: Seq<Seq<char>>) -> Seq<char> {
    if parts.len() == 0 {
        Seq::empty()
    } else {
        joined_from(slashed(parts[0]), parts, 1)
    }
}

/// What `join_paths(args...)` gives.
pub open spec fn join_paths_result(args: Seq<ValueView>) -> Result<ValueView, ErrorView> {
    match all_strings(flat(args)) {
        Some(parts) => Ok(ValueView::String(joined_all(parts))),
        None => Err(ErrorView::TypeError("All arguments to join_paths must be strings"@)),
    }
}

/// `join_paths(args...)`: the arguments, flattened, joined into one path.
pub fn join_paths(args: &Vec<Value>) -> (r: Result<Value, InterpreterError>)
    ensures
        same_result(r, join_paths_result(value_views(args@))),
{
    let flat_args = flatten(args);
    let parts = match strings_of(&flat_args, "All arguments to join_paths must be strings") {
        Ok(p) => p,
        Err(e) => return Err(e),
    };
    if parts.len() == 0 {
        return Ok(Value::String(String::new()));
    }
    let ghost texts = string_views(parts@);
    let mut path = Path::from(parts[0].as_str());
    let mut i: usize = 1;
    while i < parts.len()
        invariant
            1 <= i <= parts.len(),
            texts == string_views(parts@),
            joined_all(texts) == joined_from(path@, texts, i as int),
        decreases parts.len() - i,
    {
        path = path.join(parts[i].as_str());
        i += 1;
    }
    Ok(Value::String(path.to_string()))
}

} // verus!
