//! `assert()`, `message()`, `warning()` and `error()`.

use vstd::prelude::*;
use crate::interpreter::error::{
    InterpreterError, ErrorView, type_error, runtime_error, same_result,
};
use crate::interpreter::objects::{Object, ObjectView, object_views};
use crate::interpreter::state::Interpreter;
use crate::interpreter::value::{Value, ValueView, value_views, value_texts, texts_of};
use crate::os::Os;
use crate::steps::BuildSteps;
use crate::text::{
    chars_of, string_of, extend_chars, concat, join_text, join_chars, char_rows, trim_chars,
    unquoted,
};

verus! {

/// What `assert(cond, msg)` gives: nothing where the condition holds, else
/// a runtime error with the message, which has lost the double quotes at
/// its ends.
pub open spec fn assert_result(args: Seq<ValueView>) -> Result<ValueView, ErrorView> {
    if args.len() == 0 {
        Err(ErrorView::TypeError("assert requires at least one argument"@))
    } else if !(args[0] is Boolean) {
        Err(ErrorView::TypeError("First argument to assert must be a boolean"@))
    } else if args.len() > 1 && !(args[1] is String) {
        Err(ErrorView::TypeError("Second argument to assert must be a string"@))
    } else if args[0]->Boolean_0 {
        Ok(ValueView::Nothing)
    } else if args.len() > 1 {
        Err(ErrorView::RuntimeError("Assertion failed: "@ + unquoted(args[1]->String_0)))
    } else {
        Err(ErrorView::RuntimeError("Assertion failed"@))
    }
}

/// `assert(cond, msg)`.
pub fn assert_that(args: &Vec<Value>) -> (r: Result<Value, InterpreterError>)
    ensures
        same_result(r, assert_result(value_views(args@))),
{
    if args.len() == 0 {
        return Err(type_error("assert requires at least one argument"));
    }
    let cond = match &args[0] {
        Value::Boolean(b) => *b,
        _ => return Err(type_error("First argument to assert must be a boolean")),
    };
    let msg: Option<&String> = if args.len() > 1 {
        match &args[1] {
            Value::String(s) => Some(s),
            _ => return Err(type_error("Second argument to assert must be a string")),
        }
    } else {
        None
    };
    if cond {
        return Ok(Value::Nothing);
    }
    match msg {
        Some(m) => {
            let bare = trim_chars(&chars_of(m.as_str()), true);
            Err(
                InterpreterError::RuntimeError(
                    concat("Assertion failed: ", string_of(&bare).as_str()),
                ),
            )
        },
        None => Err(runtime_error("Assertion failed")),
    }
}

/// The texts in a row, a blank behind each.
pub open spec fn spaced(texts: Seq<Seq<char>>) -> Seq<char>
    decreases texts.len(),
{
    if texts.len() == 0 {
        Seq::empty()
    } else {
        spaced(texts.drop_last()) + texts.last() + " "@
    }
}

/// The line that `message()` prints for its arguments: their texts, a
/// blank behind each.
pub open spec fn message_line(args: Seq<ValueView>, objs: Seq<ObjectView>) -> Seq<char> {
    spaced(value_texts(args, objs))
}

/// Makes the line that `message()` prints, behind `prefix`.
pub fn make_line(prefix: &str, args: &Vec<Value>, objects: &Vec<Object>) -> (r: String)
    ensures
        r@ == prefix@ + message_line(value_views(args@), object_views(objects@)),
{
    let ghost texts = value_texts(value_views(args@), object_views(objects@));
    let parts = texts_of(args, objects);
    let mut out = chars_of(prefix);
    let blank = chars_of(" ");
    let mut i: usize = 0;
    assert(texts.take(0) =~= Seq::<Seq<char>>::empty());
    assert(prefix@ + spaced(texts.take(0)) =~= prefix@);
    while i < parts.len()
        invariant
            i <= parts.len(),
            blank@ == " "@,
            char_rows(parts@) == texts,
            out@ == prefix@ + spaced(texts.take(i as int)),
        decreases parts.len() - i,
    {
        let ghost next = texts.take(i as int + 1);
        assert(next.drop_last() =~= texts.take(i as int));
        assert(next.last() == parts@[i as int]@);
        extend_chars(&mut out, &parts[i]);
        extend_chars(&mut out, &blank);
        assert(out@ =~= prefix@ + spaced(next));
        i += 1;
    }
    assert(texts.take(parts.len() as int) =~= texts);
    string_of(&out)
}

/// `message(args...)`: prints the texts of the arguments.
pub fn message<O: Os, S: BuildSteps>(args: &Vec<Value>, interp: &Interpreter<O, S>) -> (r: Result<
    Value,
    InterpreterError,
>)
    ensures
        same_result(r, Ok(ValueView::Nothing)),
{
    let line = make_line("", args, &interp.objects);
    interp.os.print(line.as_str());
    Ok(Value::Nothing)
}

/// `warning(args...)`: prints the texts of the arguments behind
/// `WARNING: `.
pub fn warning<O: Os, S: BuildSteps>(args: &Vec<Value>, interp: &Interpreter<O, S>) -> (r: Result<
    Value,
    InterpreterError,
>)
    ensures
        same_result(r, Ok(ValueView::Nothing)),
{
    let line = make_line("WARNING: ", args, &interp.objects);
    interp.os.print(line.as_str());
    Ok(Value::Nothing)
}

/// `error(args...)`: fails with the texts of the arguments, a blank
/// between each two.
pub fn error(args: &Vec<Value>, objects: &Vec<Object>) -> (r: Result<Value, InterpreterError>)
    ensures
        same_result(
            r,
            Err(
                ErrorView::RuntimeError(
                    join_text(value_texts(value_views(args@), object_views(objects@)), " "@),
                ),
            ),
        ),
{
    let parts = texts_of(args, objects);
    let msg = join_chars(&parts, &chars_of(" "));
    Err(InterpreterError::RuntimeError(string_of(&msg)))
}

} // verus!
