//! The options of a build: `option()` declares one, `get_option()` reads
//! its value.

use vstd::prelude::*;
use crate::assoc::lookup;
use crate::interpreter::builtins::args::{
    kwarg, string_kwarg, integer_kwarg, take_string_kwarg, take_integer_kwarg,
};
use crate::interpreter::builtins::utils::{all_strings, strings_of, string_values};
use crate::interpreter::error::{InterpreterError, ErrorView, type_error, same_result};
use crate::interpreter::objects::{string_views, clone_strings};
use crate::interpreter::value::{Value, ValueView, value_views, pair_views};
use crate::interpreter::builtins::string::{first_string, take_first_string};
use crate::interpreter::state::{Interpreter, kept};
use crate::os::Os;
use crate::steps::BuildSteps;
use crate::text::{
    str_eq, concat, chars_of, string_of, slice_chars, parse_digits, parsed_number, split_chars,
    split_text,
};

verus! {

/// The kind of an option, with what limits its values.
#[derive(Debug, PartialEq)]
pub enum OptionType {
    Boolean,
    /// A number between the two given, both included.
    Integer(i64, i64),
    /// A string; one of the given, where any are given.
    String(Vec<String>),
    /// An array of strings, each one of the given, where any are given.
    Array(Vec<String>),
}

/// The kind of an option as a mathematical value.
pub enum OptionTypeView {
    Boolean,
    Integer(i64, i64),
    String(Seq<Seq<char>>),
    Array(Seq<Seq<char>>),
}

impl View for OptionType {
    type V = OptionTypeView;

    open spec fn view(&self) -> OptionTypeView {
        match self {
            OptionType::Boolean => OptionTypeView::Boolean,
            OptionType::Integer(lo, hi) => OptionTypeView::Integer(*lo, *hi),
            OptionType::String(choices) => OptionTypeView::String(string_views(choices@)),
            OptionType::Array(choices) => OptionTypeView::Array(string_views(choices@)),
        }
    }
}

/// An option: its kind, its value and what it is for.
#[derive(Debug, PartialEq)]
pub struct BuildOption {
    pub typ: OptionType,
    pub value: Value,
    pub description: String,
}

/// An option as a mathematical value.
pub struct BuildOptionView {
    pub typ: OptionTypeView,
    pub value: ValueView,
    pub description: Seq<char>,
}

impl View for BuildOption {
    type V = BuildOptionView;

    open spec fn view(&self) -> BuildOptionView {
        BuildOptionView { typ: self.typ@, value: self.value@, description: self.description@ }
    }
}

/// The choices that a declaration gives: the strings of the array
/// `choices`, none where it is not given.
pub open spec fn declared_choices(kwargs: Seq<(Seq<char>, ValueView)>) -> Result<
    Seq<Seq<char>>,
    ErrorView,
> {
    match lookup(kwargs, "choices"@) {
        None => Ok(Seq::empty()),
        Some(ValueView::Array(items)) => match all_strings(items) {
            Some(texts) => Ok(texts),
            None => Err(ErrorView::TypeError("Expected a string"@)),
        },
        Some(_) => Err(ErrorView::TypeError("Expected 'choices' keyword argument to be an array"@)),
    }
}

/// `x` held between `lo` and `hi`, where `lo` is not above `hi`.
pub open spec fn into_range(x: i64, lo: i64, hi: i64) -> i64 {
    if lo > hi {
        x
    } else if x < lo {
        lo
    } else if x > hi {
        hi
    } else {
        x
    }
}

/// The kind and the first value of an option of the type named `typ`:
/// the value given, which must be of the kind that the type asks for, or
/// the default of the type. A number is held within its limits; a string
/// without a value takes the first choice, an array without a value all of
/// them.
pub open spec fn typed_value(
    typ: Seq<char>,
    value: Option<ValueView>,
    choices: Seq<Seq<char>>,
    min: i64,
    max: i64,
) -> Result<(OptionTypeView, ValueView), ErrorView> {
    if typ == "boolean"@ {
        match value {
            None => Ok((OptionTypeView::Boolean, ValueView::Boolean(true))),
            Some(ValueView::Boolean(b)) => Ok((OptionTypeView::Boolean, ValueView::Boolean(b))),
            Some(_) => Err(ErrorView::TypeError("Expected a boolean"@)),
        }
    } else if typ == "integer"@ {
        match value {
            None => Ok(
                (OptionTypeView::Integer(min, max), ValueView::Integer(into_range(0, min, max))),
            ),
            Some(ValueView::Integer(i)) => Ok(
                (OptionTypeView::Integer(min, max), ValueView::Integer(into_range(i, min, max))),
            ),
            Some(_) => Err(ErrorView::TypeError("Expected an integer"@)),
        }
    } else if typ == "string"@ || typ == "combo"@ {
        match value {
            None => Ok(
                (
                    OptionTypeView::String(choices),
                    ValueView::String(
                        if choices.len() > 0 {
                            choices[0]
                        } else {
                            Seq::empty()
                        },
                    ),
                ),
            ),
            Some(ValueView::String(s)) => Ok(
                (OptionTypeView::String(choices), ValueView::String(s)),
            ),
            Some(_) => Err(ErrorView::TypeError("Expected a string"@)),
        }
    } else if typ == "array"@ {
        match value {
            None => Ok(
                (OptionTypeView::Array(choices), ValueView::Array(string_values(choices))),
            ),
            Some(ValueView::Array(items)) => match all_strings(items) {
                Some(texts) => Ok(
                    (OptionTypeView::Array(choices), ValueView::Array(string_values(texts))),
                ),
                None => Err(
                    ErrorView::TypeError(
                        "Expected all elements in 'value' array to be strings"@,
                    ),
                ),
            },
            Some(_) => Err(
                ErrorView::TypeError("Expected 'value' keyword argument to be an array"@),
            ),
        }
    } else {
        Err(ErrorView::TypeError("Unsupported option type: "@ + typ))
    }
}

/// What `option(name, type: ..., ...)` declares: the name and the option,
/// or the error of the first argument that is missing or of the wrong
/// kind, in the order name, `type`, `description`, `choices`, `min`,
/// `max`, `value`.
pub open spec fn declared_option(
    args: Seq<ValueView>,
    kwargs: Seq<(Seq<char>, ValueView)>,
) -> Result<(Seq<char>, BuildOptionView), ErrorView> {
    if args.len() == 0 {
        Err(ErrorView::TypeError("First argument to option must be a string"@))
    } else if !(args[0] is String) {
        Err(ErrorView::TypeError("Expected a string"@))
    } else if lookup(kwargs, "type"@) is None {
        Err(ErrorView::TypeError("Option requires a 'type' keyword argument"@))
    } else if !(lookup(kwargs, "type"@)->0 is String) {
        Err(ErrorView::TypeError("Expected a string"@))
    } else {
        match string_kwarg(
            kwargs,
            "description"@,
            "Expected 'description' keyword argument to be a string"@,
        ) {
            Err(e) => Err(e),
            Ok(description) => match declared_choices(kwargs) {
                Err(e) => Err(e),
                Ok(choices) => match integer_kwarg(
                    kwargs,
                    "min"@,
                    "Expected 'min' keyword argument to be an integer"@,
                ) {
                    Err(e) => Err(e),
                    Ok(min) => match integer_kwarg(
                        kwargs,
                        "max"@,
                        "Expected 'max' keyword argument to be an integer"@,
                    ) {
                        Err(e) => Err(e),
                        Ok(max) => match typed_value(
                            lookup(kwargs, "type"@)->0->String_0,
                            lookup(kwargs, "value"@),
                            choices,
                            match min {
                                Some(i) => i,
                                None => i64::MIN,
                            },
                            match max {
                                Some(i) => i,
                                None => i64::MAX,
                            },
                        ) {
                            Err(e) => Err(e),
                            Ok(tv) => Ok(
                                (
                                    args[0]->String_0,
                                    BuildOptionView {
                                        typ: tv.0,
                                        value: tv.1,
                                        description: match description {
                                            Some(d) => d,
                                            None => Seq::empty(),
                                        },
                                    },
                                ),
                            ),
                        },
                    },
                },
            },
        }
    }
}

/// Reads the choices of a declaration.
pub fn take_choices(kwargs: &Vec<(String, Value)>) -> (r: Result<Vec<String>, InterpreterError>)
    ensures
        match r {
            Ok(c) => declared_choices(pair_views(kwargs@)) == Ok::<Seq<Seq<char>>, ErrorView>(
                string_views(c@),
            ),
            Err(e) => declared_choices(pair_views(kwargs@)) == Err::<Seq<Seq<char>>, ErrorView>(
                e@,
            ),
        },
{
    match kwarg(kwargs, "choices") {
        None => {
            let out: Vec<String> = Vec::new();
            assert(string_views(out@) =~= Seq::<Seq<char>>::empty());
            Ok(out)
        },
        Some(v) => match v {
            Value::Array(items) => strings_of(items, "Expected a string"),
            _ => Err(type_error("Expected 'choices' keyword argument to be an array")),
        },
    }
}

/// Holds `x` between `lo` and `hi`.
pub fn hold_in_range(x: i64, lo: i64, hi: i64) -> (r: i64)
    ensures
        r == into_range(x, lo, hi),
{
    if lo > hi {
        x
    } else if x < lo {
        lo
    } else if x > hi {
        hi
    } else {
        x
    }
}

/// The strings `texts` as values.
pub fn values_of_strings(texts: &Vec<String>) -> (r: Vec<Value>)
    ensures
        value_views(r@) == string_values(string_views(texts@)),
{
    let mut out: Vec<Value> = Vec::new();
    let mut i: usize = 0;
    while i < texts.len()
        invariant
            i <= texts.len(),
            out@.len() == i,
            forall|j: int| 0 <= j < i ==> (#[trigger] out@[j])@ == ValueView::String(texts@[j]@),
        decreases texts.len() - i,
    {
        out.push(Value::String(texts[i].clone()));
        i += 1;
    }
    assert(value_views(out@) =~= string_values(string_views(texts@)));
    out
}

/// Makes the kind and the first value of an option of the type `typ`.
pub fn make_typed_value(
    typ: &str,
    value: Option<&Value>,
    choices: Vec<String>,
    min: i64,
    max: i64,
) -> (r: Result<(OptionType, Value), InterpreterError>)
    ensures
        match r {
            Ok(tv) => typed_value(
                typ@,
                match value {
                    Some(v) => Some(v@),
                    None => None,
                },
                string_views(choices@),
                min,
                max,
            ) == Ok::<(OptionTypeView, ValueView), ErrorView>((tv.0@, tv.1@)),
            Err(e) => typed_value(
                typ@,
                match value {
                    Some(v) => Some(v@),
                    None => None,
                },
                string_views(choices@),
                min,
                max,
            ) == Err::<(OptionTypeView, ValueView), ErrorView>(e@),
        },
{
    if str_eq(typ, "boolean") {
        match value {
            None => Ok((OptionType::Boolean, Value::Boolean(true))),
            Some(v) => match v {
                Value::Boolean(b) => Ok((OptionType::Boolean, Value::Boolean(*b))),
                _ => Err(type_error("Expected a boolean")),
            },
        }
    } else if str_eq(typ, "integer") {
        match value {
            None => Ok(
                (OptionType::Integer(min, max), Value::Integer(hold_in_range(0, min, max))),
            ),
            Some(v) => match v {
                Value::Integer(i) => Ok(
                    (OptionType::Integer(min, max), Value::Integer(hold_in_range(*i, min, max))),
                ),
                _ => Err(type_error("Expected an integer")),
            },
        }
    } else if str_eq(typ, "string") || str_eq(typ, "combo") {
        match value {
            None => {
                let first = if choices.len() > 0 {
                    choices[0].clone()
                } else {
                    String::new()
                };
                Ok((OptionType::String(choices), Value::String(first)))
            },
            Some(v) => match v {
                Value::String(s) => Ok((OptionType::String(choices), Value::String(s.clone()))),
                _ => Err(type_error("Expected a string")),
            },
        }
    } else if str_eq(typ, "array") {
        match value {
            None => {
                let items = values_of_strings(&choices);
                Ok((OptionType::Array(choices), Value::Array(items)))
            },
            Some(v) => match v {
                Value::Array(items) => {
                    let texts = match strings_of(
                        items,
                        "Expected all elements in 'value' array to be strings",
                    ) {
                        Ok(t) => t,
                        Err(e) => return Err(e),
                    };
                    let items = values_of_strings(&texts);
                    Ok((OptionType::Array(choices), Value::Array(items)))
                },
                _ => Err(type_error("Expected 'value' keyword argument to be an array")),
            },
        }
    } else {
        Err(InterpreterError::TypeError(concat("Unsupported option type: ", typ)))
    }
}

/// Reads the declaration of an option from the arguments of `option()`.
pub fn declare_option(args: &Vec<Value>, kwargs: &Vec<(String, Value)>) -> (r: Result<
    (String, BuildOption),
    InterpreterError,
>)
    ensures
        match r {
            Ok(d) => declared_option(value_views(args@), pair_views(kwargs@)) == Ok::<
                (Seq<char>, BuildOptionView),
                ErrorView,
            >((d.0@, d.1@)),
            Err(e) => declared_option(value_views(args@), pair_views(kwargs@)) == Err::<
                (Seq<char>, BuildOptionView),
                ErrorView,
            >(e@),
        },
{
    if args.len() == 0 {
        return Err(type_error("First argument to option must be a string"));
    }
    let name = match &args[0] {
        Value::String(s) => s.clone(),
        _ => return Err(type_error("Expected a string")),
    };
    let typ = match kwarg(kwargs, "type") {
        None => return Err(type_error("Option requires a 'type' keyword argument")),
        Some(v) => match v {
            Value::String(s) => s.as_str(),
            _ => return Err(type_error("Expected a string")),
        },
    };
    let description = match take_string_kwarg(
        kwargs,
        "description",
        "Expected 'description' keyword argument to be a string",
    ) {
        Ok(Some(d)) => String::from_str(d),
        Ok(None) => String::new(),
        Err(e) => return Err(e),
    };
    let choices = match take_choices(kwargs) {
        Ok(c) => c,
        Err(e) => return Err(e),
    };
    let min = match take_integer_kwarg(
        kwargs,
        "min",
        "Expected 'min' keyword argument to be an integer",
    ) {
        Ok(Some(i)) => i,
        Ok(None) => i64::MIN,
        Err(e) => return Err(e),
    };
    let max = match take_integer_kwarg(
        kwargs,
        "max",
        "Expected 'max' keyword argument to be an integer",
    ) {
        Ok(Some(i)) => i,
        Ok(None) => i64::MAX,
        Err(e) => return Err(e),
    };
    let (typ, value) = match make_typed_value(typ, kwarg(kwargs, "value"), choices, min, max) {
        Ok(tv) => tv,
        Err(e) => return Err(e),
    };
    Ok((name, BuildOption { typ, value, description }))
}

/// Whether `after` differs from `before` in its options alone.
pub open spec fn only_options_changed<O: Os, S: BuildSteps>(
    before: &Interpreter<O, S>,
    after: &Interpreter<O, S>,
) -> bool {
    &&& after.variables == before.variables
    &&& after.objects == before.objects
    &&& after.meson == before.meson
    &&& after.current_dir == before.current_dir
    &&& after.build_dir == before.build_dir
    &&& after.break_flag == before.break_flag
    &&& after.continue_flag == before.continue_flag
    &&& after.depth_left == before.depth_left
}

/// Whether `after` holds the options of `before` and `name` bound to an
/// option with the view `option`.
pub open spec fn declared<O: Os, S: BuildSteps>(
    before: &Interpreter<O, S>,
    after: &Interpreter<O, S>,
    name: Seq<char>,
    option: BuildOptionView,
) -> bool {
    &&& after.opts().dom() == before.opts().dom().insert(name)
    &&& after.opts()[name]@ == option
    &&& forall|k: Seq<char>|
        k != name && before.opts().contains_key(k) ==> #[trigger] after.opts()[k]
            == before.opts()[k]
}

/// What `option(name, type: ..., ...)` does: it declares the option that
/// its arguments describe, and changes nothing else.
pub open spec fn option_effect<O: Os, S: BuildSteps>(
    before: &Interpreter<O, S>,
    after: &Interpreter<O, S>,
    args: Seq<ValueView>,
    kwargs: Seq<(Seq<char>, ValueView)>,
    r: Result<Value, InterpreterError>,
) -> bool {
    &&& only_options_changed(before, after)
    &&& match declared_option(args, kwargs) {
        Ok(d) => r matches Ok(v) && v@ == ValueView::Nothing && declared(before, after, d.0, d.1),
        Err(e) => r matches Err(f) && f@ == e && after.options == before.options,
    }
}

/// What `get_option(name)` gives with the options `opts`.
pub open spec fn get_option_result(
    opts: Map<Seq<char>, BuildOption>,
    args: Seq<ValueView>,
) -> Result<ValueView, ErrorView> {
    match first_string(args, "First argument to get_option must be a string"@) {
        Err(e) => Err(e),
        Ok(name) => if opts.contains_key(name) {
            Ok(opts[name].value@)
        } else {
            Err(ErrorView::UndefinedVariable(name))
        },
    }
}

/// `option(name, type: ..., ...)`: declares the option. An option that is
/// declared again is replaced.
pub fn option<O: Os, S: BuildSteps>(
    args: &Vec<Value>,
    kwargs: &Vec<(String, Value)>,
    interp: &mut Interpreter<O, S>,
) -> (r: Result<Value, InterpreterError>)
    ensures
        kept(old(interp), final(interp)),
        option_effect(old(interp), final(interp), value_views(args@), pair_views(kwargs@), r),
{
    let (name, opt) = match declare_option(args, kwargs) {
        Ok(d) => d,
        Err(e) => return Err(e),
    };
    interp.options.insert(name, opt);
    Ok(Value::Nothing)
}

/// `get_option(name)`: the value of the option; the error that names the
/// option where none of that name is declared.
pub fn get_option<O: Os, S: BuildSteps>(args: &Vec<Value>, interp: &Interpreter<O, S>) -> (r: Result<
    Value,
    InterpreterError,
>)
    ensures
        same_result(r, get_option_result(interp.opts(), value_views(args@))),
{
    let name = match take_first_string(args, "First argument to get_option must be a string") {
        Ok(s) => s,
        Err(e) => return Err(e),
    };
    interp.get_option(name)
}

/// The number that a text writes in decimal, with a minus sign before it
/// where it is negative; `None` where the text writes no number that an
/// `i64` holds.
pub open spec fn signed_number(text: Seq<char>) -> Option<i64> {
    if text.len() > 0 && text[0] == '-' {
        match parsed_number(text.subrange(1, text.len() as int), 10, 0x8000_0000_0000_0000) {
            Some(n) => Some((-n) as i64),
            None => None,
        }
    } else {
        match parsed_number(text, 10, i64::MAX as int) {
            Some(n) => Some(n as i64),
            None => None,
        }
    }
}

/// Reads the number that a text writes.
pub fn parse_signed(text: &str) -> (r: Option<i64>)
    ensures
        r == signed_number(text@),
{
    let chars = chars_of(text);
    if chars.len() > 0 && chars[0] == '-' {
        let digits = slice_chars(&chars, 1, chars.len());
        match parse_digits(&digits, 10, 0x8000_0000_0000_0000) {
            Some(n) => Some((-(n as i128)) as i64),
            None => None,
        }
    } else {
        match parse_digits(&chars, 10, 0x7fff_ffff_ffff_ffff) {
            Some(n) => Some(n as i64),
            None => None,
        }
    }
}

/// Whether `text` is one of `choices`.
pub open spec fn among(choices: Seq<Seq<char>>, text: Seq<char>) -> bool {
    exists|i: int| 0 <= i < choices.len() && #[trigger] choices[i] == text
}

/// Tests whether `text` is one of `choices`.
pub fn is_among(choices: &Vec<String>, text: &str) -> (r: bool)
    ensures
        r == among(string_views(choices@), text@),
{
    let wanted = String::from_str(text);
    let mut i: usize = 0;
    while i < choices.len()
        invariant
            i <= choices.len(),
            wanted@ == text@,
            forall|j: int| 0 <= j < i ==> #[trigger] string_views(choices@)[j] != text@,
        decreases choices.len() - i,
    {
        if choices[i] == wanted {
            assert(string_views(choices@)[i as int] == text@);
            return true;
        }
        i += 1;
    }
    false
}

/// The value that the text `text` gives to an option of the kind `typ`:
/// `true` or `false` for a boolean; a number in decimal, held within the
/// limits, for a number; the text itself for a string, which must be one
/// of the choices where there are any; the parts between the commas for
/// an array.
pub open spec fn value_from_text(typ: OptionTypeView, text: Seq<char>) -> Result<
    ValueView,
    ErrorView,
> {
    match typ {
        OptionTypeView::Boolean => if text == "true"@ {
            Ok(ValueView::Boolean(true))
        } else if text == "false"@ {
            Ok(ValueView::Boolean(false))
        } else {
            Err(ErrorView::TypeError("Expected a boolean"@))
        },
        OptionTypeView::Integer(lo, hi) => match signed_number(text) {
            Some(n) => Ok(ValueView::Integer(into_range(n, lo, hi))),
            None => Err(ErrorView::TypeError("Expected an integer"@)),
        },
        OptionTypeView::String(choices) => if choices.len() == 0 || among(choices, text) {
            Ok(ValueView::String(text))
        } else {
            Err(ErrorView::TypeError("Expected one of the choices, found "@ + text))
        },
        OptionTypeView::Array(_) => Ok(ValueView::Array(string_values(split_text(text, ","@)))),
    }
}

/// Makes the value that a text gives to an option of the kind `typ`.
pub fn make_value_from_text(typ: &OptionType, text: &str) -> (r: Result<Value, InterpreterError>)
    ensures
        same_result(r, value_from_text(typ@, text@)),
{
    match typ {
        OptionType::Boolean => {
            if str_eq(text, "true") {
                Ok(Value::Boolean(true))
            } else if str_eq(text, "false") {
                Ok(Value::Boolean(false))
            } else {
                Err(type_error("Expected a boolean"))
            }
        },
        OptionType::Integer(lo, hi) => match parse_signed(text) {
            Some(n) => Ok(Value::Integer(hold_in_range(n, *lo, *hi))),
            None => Err(type_error("Expected an integer")),
        },
        OptionType::String(choices) => {
            if choices.len() == 0 || is_among(choices, text) {
                Ok(Value::String(String::from_str(text)))
            } else {
                Err(
                    InterpreterError::TypeError(
                        concat("Expected one of the choices, found ", text),
                    ),
                )
            }
        },
        OptionType::Array(_) => {
            let pieces = split_chars(&chars_of(text), &chars_of(","));
            let ghost want = split_text(text@, ","@);
            let mut out: Vec<Value> = Vec::new();
            let mut i: usize = 0;
            while i < pieces.len()
                invariant
                    i <= pieces.len(),
                    pieces@.len() == want.len(),
                    forall|j: int| 0 <= j < pieces@.len() ==> (#[trigger] pieces@[j])@ == want[j],
                    out@.len() == i,
                    forall|j: int|
                        0 <= j < i ==> (#[trigger] out@[j])@ == ValueView::String(want[j]),
                decreases pieces.len() - i,
            {
                out.push(Value::String(string_of(&pieces[i])));
                i += 1;
            }
            assert(value_views(out@) =~= string_values(want));
            Ok(Value::Array(out))
        },
    }
}

/// Copies the kind of an option.
pub fn clone_type(typ: &OptionType) -> (r: OptionType)
    ensures
        r@ == typ@,
{
    match typ {
        OptionType::Boolean => OptionType::Boolean,
        OptionType::Integer(lo, hi) => OptionType::Integer(*lo, *hi),
        OptionType::String(choices) => OptionType::String(clone_strings(choices)),
        OptionType::Array(choices) => OptionType::Array(clone_strings(choices)),
    }
}

/// What giving the option `name` the value that `text` writes does. An
/// option that is not declared is a runtime error, and a text that does
/// not fit the kind of the option fails as `value_from_text` tells; both
/// change nothing. Else the option has the value, and its kind and its
/// description as before; nothing but the options changes.
pub open spec fn option_set<O: Os, S: BuildSteps>(
    before: &Interpreter<O, S>,
    after: &Interpreter<O, S>,
    name: Seq<char>,
    text: Seq<char>,
    r: Result<(), InterpreterError>,
) -> bool {
    &&& only_options_changed(before, after)
    &&& if !before.opts().contains_key(name) {
        r matches Err(e) && e@ == ErrorView::RuntimeError("Unknown option: "@ + name)
            && after.options == before.options
    } else {
        match value_from_text(before.opts()[name].typ@, text) {
            Ok(v) => r is Ok && declared(
                before,
                after,
                name,
                BuildOptionView {
                    typ: before.opts()[name].typ@,
                    value: v,
                    description: before.opts()[name].description@,
                },
            ),
            Err(e) => r matches Err(f) && f@ == e && after.options == before.options,
        }
    }
}

impl<O: Os, S: BuildSteps> Interpreter<O, S> {
    /// Gives the option `name` the value that `text` writes. The option
    /// must be declared, and the text must fit its kind.
    pub fn set_option(&mut self, name: &str, text: &str) -> (r: Result<(), InterpreterError>)
        ensures
            kept(old(self), final(self)),
            option_set(old(self), final(self), name@, text@, r),
    {
        let changed = match self.options.get(name) {
            None => {
                return Err(InterpreterError::RuntimeError(concat("Unknown option: ", name)));
            },
            Some(opt) => {
                let value = match make_value_from_text(&opt.typ, text) {
                    Ok(v) => v,
                    Err(e) => return Err(e),
                };
                BuildOption {
                    typ: clone_type(&opt.typ),
                    value,
                    description: opt.description.clone(),
                }
            },
        };
        self.options.insert(String::from_str(name), changed);
        Ok(())
    }
}

} // verus!
