//! The methods of strings.

use vstd::prelude::*;
use crate::interpreter::error::{InterpreterError, ErrorView, type_error, same_result};
use crate::interpreter::objects::{Object, object_views};
use crate::interpreter::value::{
    Value, ValueView, value_views, value_texts, formatted, texts_of,
};
use crate::interpreter::builtins::utils::string_values;
use crate::text::{
    chars_of, string_of, slice_chars, split_chars, split_text, join_chars, join_text,
    trim_chars, trimmed, has_prefix, has_suffix, occurs_in, starts_with_chars, ends_with_chars,
    contains_chars, is_ascii_alnum, ascii_alnum, uppercase_text, lowercase_text, to_uppercase,
    to_lowercase,
};

verus! {

/// The first argument, which must be a string; the type error with the
/// message `msg` where there is none or it is of another kind.
pub open spec fn first_string(args: Seq<ValueView>, msg: Seq<char>) -> Result<
    Seq<char>,
    ErrorView,
> {
    if args.len() > 0 && args[0] is String {
        Ok(args[0]->String_0)
    } else {
        Err(ErrorView::TypeError(msg))
    }
}

/// Takes the first argument, which must be a string.
pub fn take_first_string<'a>(args: &'a Vec<Value>, msg: &str) -> (r: Result<
    &'a str,
    InterpreterError,
>)
    ensures
        match r {
            Ok(s) => first_string(value_views(args@), msg@) == Ok::<Seq<char>, ErrorView>(s@),
            Err(e) => first_string(value_views(args@), msg@) == Err::<Seq<char>, ErrorView>(e@),
        },
{
    if args.len() > 0 {
        match &args[0] {
            Value::String(s) => Ok(s.as_str()),
            _ => Err(type_error(msg)),
        }
    } else {
        Err(type_error(msg))
    }
}

/// The argument at `i` where it must be a number if it is there: the
/// number, `None` where there is no such argument, or the type error with
/// the message `msg`.
pub open spec fn optional_integer(args: Seq<ValueView>, i: int, msg: Seq<char>) -> Result<
    Option<i64>,
    ErrorView,
> {
    if i >= args.len() {
        Ok(None)
    } else if args[i] is Integer {
        Ok(Some(args[i]->Integer_0))
    } else {
        Err(ErrorView::TypeError(msg))
    }
}

/// Takes the argument at `i`, which must be a number if it is there.
pub fn take_optional_integer(args: &Vec<Value>, i: usize, msg: &str) -> (r: Result<
    Option<i64>,
    InterpreterError,
>)
    ensures
        match r {
            Ok(v) => optional_integer(value_views(args@), i as int, msg@) == Ok::<
                Option<i64>,
                ErrorView,
            >(v),
            Err(e) => optional_integer(value_views(args@), i as int, msg@) == Err::<
                Option<i64>,
                ErrorView,
            >(e@),
        },
{
    if i >= args.len() {
        Ok(None)
    } else {
        match &args[i] {
            Value::Integer(n) => Ok(Some(*n)),
            _ => Err(type_error(msg)),
        }
    }
}

/// `s.format(args...)`: the string with each placeholder `@i@` replaced by
/// the text of the argument `i`.
pub fn format(obj: &String, args: &Vec<Value>, objects: &Vec<Object>) -> (r: Result<
    Value,
    InterpreterError,
>)
    ensures
        same_result(
            r,
            Ok(
                ValueView::String(formatted(obj@, value_views(args@), object_views(objects@))),
            ),
        ),
{
    let it = Value::String(obj.clone());
    Ok(Value::String(it.format_string(args, objects)))
}

/// What `s.split(sep)` gives: the pieces of the string between the
/// separators, a blank where none is given.
pub open spec fn split_result(s: Seq<char>, args: Seq<ValueView>) -> Result<ValueView, ErrorView> {
    if args.len() == 0 {
        Ok(ValueView::Array(string_values(split_text(s, " "@))))
    } else if args[0] is String {
        Ok(ValueView::Array(string_values(split_text(s, args[0]->String_0))))
    } else {
        Err(ErrorView::TypeError("First argument to split must be a string"@))
    }
}

/// `s.split(sep)`.
pub fn split(obj: &String, args: &Vec<Value>) -> (r: Result<Value, InterpreterError>)
    ensures
        same_result(r, split_result(obj@, value_views(args@))),
{
    let sep: Vec<char> = if args.len() == 0 {
        chars_of(" ")
    } else {
        match &args[0] {
            Value::String(s) => chars_of(s.as_str()),
            _ => return Err(type_error("First argument to split must be a string")),
        }
    };
    let pieces = split_chars(&chars_of(obj.as_str()), &sep);
    let ghost want = split_text(obj@, sep@);
    let mut out: Vec<Value> = Vec::new();
    let mut i: usize = 0;
    while i < pieces.len()
        invariant
            i <= pieces.len(),
            pieces@.len() == want.len(),
            forall|j: int| 0 <= j < pieces@.len() ==> (#[trigger] pieces@[j])@ == want[j],
            out@.len() == i,
            forall|j: int| 0 <= j < i ==> (#[trigger] out@[j])@ == ValueView::String(want[j]),
        decreases pieces.len() - i,
    {
        out.push(Value::String(string_of(&pieces[i])));
        i += 1;
    }
    assert(value_views(out@) =~= string_values(want));
    Ok(Value::Array(out))
}

/// `s.join(args...)`: the texts of the arguments with `s` between them.
pub fn join(obj: &String, args: &Vec<Value>, objects: &Vec<Object>) -> (r: Result<
    Value,
    InterpreterError,
>)
    ensures
        same_result(
            r,
            Ok(
                ValueView::String(
                    join_text(value_texts(value_views(args@), object_views(objects@)), obj@),
                ),
            ),
        ),
{
    let parts = texts_of(args, objects);
    let joined = join_chars(&parts, &chars_of(obj.as_str()));
    Ok(Value::String(string_of(&joined)))
}

/// `s.strip()`: the string without the white space at its ends.
pub fn strip(obj: &String) -> (r: Result<Value, InterpreterError>)
    ensures
        same_result(r, Ok(ValueView::String(trimmed(obj@)))),
{
    Ok(Value::String(string_of(&trim_chars(&chars_of(obj.as_str()), false))))
}

/// What `s.startswith(prefix)` gives.
pub open spec fn startswith_result(s: Seq<char>, args: Seq<ValueView>) -> Result<
    ValueView,
    ErrorView,
> {
    match first_string(args, "First argument to startswith must be a string"@) {
        Ok(prefix) => Ok(ValueView::Boolean(has_prefix(s, prefix))),
        Err(e) => Err(e),
    }
}

/// `s.startswith(prefix)`.
pub fn startswith(obj: &String, args: &Vec<Value>) -> (r: Result<Value, InterpreterError>)
    ensures
        same_result(r, startswith_result(obj@, value_views(args@))),
{
    let prefix = match take_first_string(args, "First argument to startswith must be a string") {
        Ok(s) => s,
        Err(e) => return Err(e),
    };
    Ok(Value::Boolean(starts_with_chars(&chars_of(obj.as_str()), &chars_of(prefix))))
}

/// What `s.endswith(suffix)` gives.
pub open spec fn endswith_result(s: Seq<char>, args: Seq<ValueView>) -> Result<
    ValueView,
    ErrorView,
> {
    match first_string(args, "First argument to endswith must be a string"@) {
        Ok(suffix) => Ok(ValueView::Boolean(has_suffix(s, suffix))),
        Err(e) => Err(e),
    }
}

/// `s.endswith(suffix)`.
pub fn endswith(obj: &String, args: &Vec<Value>) -> (r: Result<Value, InterpreterError>)
    ensures
        same_result(r, endswith_result(obj@, value_views(args@))),
{
    let suffix = match take_first_string(args, "First argument to endswith must be a string") {
        Ok(s) => s,
        Err(e) => return Err(e),
    };
    Ok(Value::Boolean(ends_with_chars(&chars_of(obj.as_str()), &chars_of(suffix))))
}

/// `x` held between `lo` and `hi`.
pub open spec fn clamped(x: int, lo: int, hi: int) -> int {
    if x < lo {
        lo
    } else if x > hi {
        hi
    } else {
        x
    }
}

/// The bounds of `s.substring(start, end)` in a string of `len` characters,
/// which is not empty: a negative index counts from the last character,
/// the start is held within the string, and the end between the start and
/// the last character.
pub open spec fn substring_bounds(len: int, start: int, end: int) -> (int, int) {
    let from = clamped(
        if start < 0 {
            start + len - 1
        } else {
            start
        },
        0,
        len - 1,
    );
    let to = clamped(
        if end < 0 {
            end + len - 1
        } else {
            end
        },
        from,
        len - 1,
    );
    (from, to)
}

/// The part of `s` that `s.substring(start, end)` names; `start` is 0 and
/// `end` the length where they are not given. Of an empty string it is the
/// empty string.
pub open spec fn substring_text(s: Seq<char>, start: Option<i64>, end: Option<i64>) -> Seq<char> {
    if s.len() == 0 {
        s
    } else {
        let bounds = substring_bounds(
            s.len() as int,
            match start {
                Some(i) => i as int,
                None => 0,
            },
            match end {
                Some(i) => i as int,
                None => s.len() as int,
            },
        );
        s.subrange(bounds.0, bounds.1)
    }
}

/// What `s.substring(start, end)` gives.
pub open spec fn substring_result(s: Seq<char>, args: Seq<ValueView>) -> Result<
    ValueView,
    ErrorView,
> {
    match optional_integer(args, 0, "First argument to substring must be an integer"@) {
        Err(e) => Err(e),
        Ok(start) => match optional_integer(
            args,
            1,
            "Second argument to substring must be an integer"@,
        ) {
            Err(e) => Err(e),
            Ok(end) => Ok(ValueView::String(substring_text(s, start, end))),
        },
    }
}

/// The bounds of a substring lie within the string, the start at or before
/// the end, whatever the two indices are.
pub proof fn substring_bounds_lie_within(len: int, start: int, end: int)
    requires
        len > 0,
    ensures
        0 <= substring_bounds(len, start, end).0 <= substring_bounds(len, start, end).1 < len,
{
}

/// Holds `x` between `lo` and `hi`.
fn clamp(x: i128, lo: i128, hi: i128) -> (r: i128)
    ensures
        r == clamped(x as int, lo as int, hi as int),
{
    if x < lo {
        lo
    } else if x > hi {
        hi
    } else {
        x
    }
}

/// `s.substring(start, end)`. Any two indices name a part of the string.
pub fn substring(obj: &String, args: &Vec<Value>) -> (r: Result<Value, InterpreterError>)
    ensures
        same_result(r, substring_result(obj@, value_views(args@))),
{
    let start = match take_optional_integer(
        args,
        0,
        "First argument to substring must be an integer",
    ) {
        Ok(v) => v,
        Err(e) => return Err(e),
    };
    let end = match take_optional_integer(
        args,
        1,
        "Second argument to substring must be an integer",
    ) {
        Ok(v) => v,
        Err(e) => return Err(e),
    };
    let chars = chars_of(obj.as_str());
    if chars.len() == 0 {
        assert(obj@ =~= Seq::<char>::empty());
        return Ok(Value::String(String::new()));
    }
    let len: i128 = chars.len() as i128;
    let start: i128 = match start {
        Some(i) => i as i128,
        None => 0,
    };
    let end: i128 = match end {
        Some(i) => i as i128,
        None => len,
    };
    let from = clamp(
        if start < 0 {
            start + len - 1
        } else {
            start
        },
        0,
        len - 1,
    );
    let to = clamp(
        if end < 0 {
            end + len - 1
        } else {
            end
        },
        from,
        len - 1,
    );
    Ok(Value::String(string_of(&slice_chars(&chars, from as usize, to as usize))))
}

/// What `s.contains(part)` gives.
pub open spec fn contains_result(s: Seq<char>, args: Seq<ValueView>) -> Result<
    ValueView,
    ErrorView,
> {
    match first_string(args, "First argument to contains must be a string"@) {
        Ok(part) => Ok(ValueView::Boolean(occurs_in(s, part))),
        Err(e) => Err(e),
    }
}

/// `s.contains(part)`.
pub fn contains(obj: &String, args: &Vec<Value>) -> (r: Result<Value, InterpreterError>)
    ensures
        same_result(r, contains_result(obj@, value_views(args@))),
{
    let part = match take_first_string(args, "First argument to contains must be a string") {
        Ok(s) => s,
        Err(e) => return Err(e),
    };
    Ok(Value::Boolean(contains_chars(&chars_of(obj.as_str()), &chars_of(part))))
}

/// `s` with an underscore in the place of every character that is no ASCII
/// letter or digit.
pub open spec fn underscored(s: Seq<char>) -> Seq<char> {
    Seq::new(
        s.len(),
        |i: int|
            if is_ascii_alnum(s[i]) {
                s[i]
            } else {
                '_'
            },
    )
}

/// `s.underscorify()`.
pub fn underscorify(obj: &String) -> (r: Result<Value, InterpreterError>)
    ensures
        same_result(r, Ok(ValueView::String(underscored(obj@)))),
{
    let chars = chars_of(obj.as_str());
    let mut out: Vec<char> = Vec::new();
    let mut i: usize = 0;
    while i < chars.len()
        invariant
            i <= chars.len(),
            out@.len() == i,
            forall|j: int| 0 <= j < i ==> out@[j] == underscored(chars@)[j],
        decreases chars.len() - i,
    {
        let c = chars[i];
        out.push(if ascii_alnum(c) { c } else { '_' });
        i += 1;
    }
    assert(out@ =~= underscored(chars@));
    Ok(Value::String(string_of(&out)))
}

/// `s.to_upper()`.
pub fn to_upper(obj: &String) -> (r: Result<Value, InterpreterError>)
    ensures
        same_result(r, Ok(ValueView::String(uppercase_text(obj@)))),
{
    Ok(Value::String(to_uppercase(obj.as_str())))
}

/// `s.to_lower()`.
pub fn to_lower(obj: &String) -> (r: Result<Value, InterpreterError>)
    ensures
        same_result(r, Ok(ValueView::String(lowercase_text(obj@)))),
{
    Ok(Value::String(to_lowercase(obj.as_str())))
}

} // verus!
