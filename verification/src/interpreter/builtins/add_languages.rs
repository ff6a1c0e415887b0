//! `add_languages()`.

use vstd::prelude::*;
use crate::interpreter::builtins::args::{bool_kwarg, take_bool_kwarg};
use crate::interpreter::builtins::string::{first_string, take_first_string};
use crate::interpreter::error::{
    InterpreterError, ErrorView, ErrorContext, same_result, caused,
};
use crate::interpreter::state::Interpreter;
use crate::interpreter::value::{Value, ValueView, value_views, pair_views};
use crate::os::{Os, CompilerInfo};
use crate::steps::BuildSteps;
use crate::text::concat;

verus! {

/// The language and whether it is required, as `add_languages(lang,
/// required: ...)` names them.
pub open spec fn wanted_language(
    args: Seq<ValueView>,
    kwargs: Seq<(Seq<char>, ValueView)>,
) -> Result<(Seq<char>, bool), ErrorView> {
    match first_string(args, "First argument to add_languages must be a string"@) {
        Err(e) => Err(e),
        Ok(lang) => match bool_kwarg(
            kwargs,
            "required"@,
            "'required' keyword argument must be of type bool"@,
        ) {
            Err(e) => Err(e),
            Ok(Some(b)) => Ok((lang, b)),
            Ok(None) => Ok((lang, false)),
        },
    }
}

/// What `add_languages()` gives once the system has looked for the
/// compiler: whether there is one, or a runtime error that names the
/// language where the compiler is required and there is none.
pub open spec fn language_result(
    lang: Seq<char>,
    required: bool,
    missing: Option<Seq<char>>,
) -> Result<ValueView, ErrorView> {
    match missing {
        Some(cause) => if required {
            Err(
                ErrorView::RuntimeError(caused("No compiler found for language: "@ + lang, cause)),
            )
        } else {
            Ok(ValueView::Boolean(false))
        },
        None => Ok(ValueView::Boolean(true)),
    }
}

/// Why the system has no compiler, where it has none.
pub open spec fn missing_of(found: Result<CompilerInfo, String>) -> Option<Seq<char>> {
    match found {
        Ok(_) => None,
        Err(cause) => Some(cause@),
    }
}

/// Decides what `add_languages()` gives.
pub fn language_answer(lang: &str, required: bool, found: Result<CompilerInfo, String>) -> (r:
    Result<Value, InterpreterError>)
    ensures
        same_result(r, language_result(lang@, required, missing_of(found))),
{
    if !required {
        return Ok(Value::Boolean(found.is_ok()));
    }
    match found.context_runtime(concat("No compiler found for language: ", lang).as_str()) {
        Ok(_) => Ok(Value::Boolean(true)),
        Err(e) => Err(e),
    }
}

/// What `add_languages(lang, required: ...)` returns, whatever the system
/// has: what `language_result` gives for a compiler that was found, or
/// for one that was not.
pub open spec fn add_languages_result(
    args: Seq<ValueView>,
    kwargs: Seq<(Seq<char>, ValueView)>,
    r: Result<Value, InterpreterError>,
) -> bool {
    match wanted_language(args, kwargs) {
        Err(e) => r matches Err(f) && f@ == e,
        Ok(w) => exists|missing: Option<Seq<char>>|
            same_result(r, #[trigger] language_result(w.0, w.1, missing)),
    }
}

/// `add_languages(lang, required: ...)`: whether the system has a
/// compiler for the language.
pub fn add_languages<O: Os, S: BuildSteps>(
    args: &Vec<Value>,
    kwargs: &Vec<(String, Value)>,
    interp: &Interpreter<O, S>,
) -> (r: Result<Value, InterpreterError>)
    ensures
        add_languages_result(value_views(args@), pair_views(kwargs@), r),
{
    let lang = match take_first_string(args, "First argument to add_languages must be a string") {
        Ok(s) => s,
        Err(e) => return Err(e),
    };
    let required = match take_bool_kwarg(
        kwargs,
        "required",
        "'required' keyword argument must be of type bool",
    ) {
        Ok(Some(b)) => b,
        Ok(None) => false,
        Err(e) => return Err(e),
    };
    let found = interp.os.get_compiler(lang);
    let ghost missing = missing_of(found);
    let r = language_answer(lang, required, found);
    assert(same_result(r, language_result(lang@, required, missing)));
    r
}

} // verus!
