//! Reading the arguments of a call: those by position and those by name.

use vstd::prelude::*;
use crate::assoc::{lookup, names, string_names, find_key};
use crate::interpreter::error::{InterpreterError, ErrorView, type_error};
use crate::interpreter::value::{Value, ValueView, pair_views};

verus! {

/// The argument with the name `name`.
pub fn kwarg<'a>(kwargs: &'a Vec<(String, Value)>, name: &str) -> (r: Option<&'a Value>)
    ensures
        match r {
            Some(v) => lookup(pair_views(kwargs@), name@) == Some(v@),
            None => lookup(pair_views(kwargs@), name@) is None,
        },
{
    assert(names(pair_views(kwargs@)) =~= string_names(kwargs@));
    match find_key(kwargs, name) {
        Some(i) => Some(&kwargs[i].1),
        None => None,
    }
}

/// The string that the argument `name` is, where it is given: the type
/// error with the message `msg` where it is of another kind.
pub open spec fn string_kwarg(
    kwargs: Seq<(Seq<char>, ValueView)>,
    name: Seq<char>,
    msg: Seq<char>,
) -> Result<Option<Seq<char>>, ErrorView> {
    match lookup(kwargs, name) {
        None => Ok(None),
        Some(ValueView::String(s)) => Ok(Some(s)),
        Some(_) => Err(ErrorView::TypeError(msg)),
    }
}

/// The boolean that the argument `name` is, where it is given.
pub open spec fn bool_kwarg(
    kwargs: Seq<(Seq<char>, ValueView)>,
    name: Seq<char>,
    msg: Seq<char>,
) -> Result<Option<bool>, ErrorView> {
    match lookup(kwargs, name) {
        None => Ok(None),
        Some(ValueView::Boolean(b)) => Ok(Some(b)),
        Some(_) => Err(ErrorView::TypeError(msg)),
    }
}

/// The number that the argument `name` is, where it is given.
pub open spec fn integer_kwarg(
    kwargs: Seq<(Seq<char>, ValueView)>,
    name: Seq<char>,
    msg: Seq<char>,
) -> Result<Option<i64>, ErrorView> {
    match lookup(kwargs, name) {
        None => Ok(None),
        Some(ValueView::Integer(i)) => Ok(Some(i)),
        Some(_) => Err(ErrorView::TypeError(msg)),
    }
}

/// Reads the argument `name`, which must be a string if it is given.
pub fn take_string_kwarg<'a>(kwargs: &'a Vec<(String, Value)>, name: &str, msg: &str) -> (r:
    Result<Option<&'a str>, InterpreterError>)
    ensures
        match r {
            Ok(Some(s)) => string_kwarg(pair_views(kwargs@), name@, msg@) == Ok::<
                Option<Seq<char>>,
                ErrorView,
            >(Some(s@)),
            Ok(None) => string_kwarg(pair_views(kwargs@), name@, msg@) == Ok::<
                Option<Seq<char>>,
                ErrorView,
            >(None),
            Err(e) => string_kwarg(pair_views(kwargs@), name@, msg@) == Err::<
                Option<Seq<char>>,
                ErrorView,
            >(e@),
        },
{
    match kwarg(kwargs, name) {
        None => Ok(None),
        Some(v) => match v {
            Value::String(s) => Ok(Some(s.as_str())),
            _ => Err(type_error(msg)),
        },
    }
}

/// Reads the argument `name`, which must be a boolean if it is given.
pub fn take_bool_kwarg(kwargs: &Vec<(String, Value)>, name: &str, msg: &str) -> (r: Result<
    Option<bool>,
    InterpreterError,
>)
    ensures
        match r {
            Ok(v) => bool_kwarg(pair_views(kwargs@), name@, msg@) == Ok::<
                Option<bool>,
                ErrorView,
            >(v),
            Err(e) => bool_kwarg(pair_views(kwargs@), name@, msg@) == Err::<
                Option<bool>,
                ErrorView,
            >(e@),
        },
{
    match kwarg(kwargs, name) {
        None => Ok(None),
        Some(v) => match v {
            Value::Boolean(b) => Ok(Some(*b)),
            _ => Err(type_error(msg)),
        },
    }
}

/// Reads the argument `name`, which must be a number if it is given.
pub fn take_integer_kwarg(kwargs: &Vec<(String, Value)>, name: &str, msg: &str) -> (r: Result<
    Option<i64>,
    InterpreterError,
>)
    ensures
        match r {
            Ok(v) => integer_kwarg(pair_views(kwargs@), name@, msg@) == Ok::<
                Option<i64>,
                ErrorView,
            >(v),
            Err(e) => integer_kwarg(pair_views(kwargs@), name@, msg@) == Err::<
                Option<i64>,
                ErrorView,
            >(e@),
        },
{
    match kwarg(kwargs, name) {
        None => Ok(None),
        Some(v) => match v {
            Value::Integer(i) => Ok(Some(*i)),
            _ => Err(type_error(msg)),
        },
    }
}

} // verus!
