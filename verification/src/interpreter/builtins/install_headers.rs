//! `install_headers()`.

use vstd::prelude::*;
use crate::interpreter::builtins::args::{string_kwarg, take_string_kwarg};
use crate::interpreter::builtins::files::{PathSource, resolved, files_impl};
use crate::interpreter::error::{InterpreterError, ErrorView};
use crate::interpreter::objects::path_views;
use crate::interpreter::state::Interpreter;
use crate::interpreter::value::{Value, ValueView, value_views, pair_views};
use crate::os::Os;
use crate::path::{Path, slashed};
use crate::steps::BuildSteps;

verus! {

/// What `install_headers(headers..., install_dir: ...)` tells the backend:
/// the directory, empty where none is given, and the headers, the
/// arguments flattened and resolved against the current directory.
pub open spec fn headers_plan(
    args: Seq<ValueView>,
    kwargs: Seq<(Seq<char>, ValueView)>,
    cwd: Seq<char>,
    objs: Seq<crate::interpreter::objects::ObjectView>,
) -> Result<(Seq<char>, Seq<Seq<char>>), ErrorView> {
    match resolved(args, cwd, objs, PathSource::Files) {
        None => Err(ErrorView::TypeError("Expected arguments to be strings or File objects"@)),
        Some(headers) => match string_kwarg(
            kwargs,
            "install_dir"@,
            "'install_dir' keyword argument must be of type string"@,
        ) {
            Err(e) => Err(e),
            Ok(Some(dir)) => Ok((slashed(dir), headers)),
            Ok(None) => Ok((Seq::empty(), headers)),
        },
    }
}

/// Works out what `install_headers()` tells the backend.
pub fn plan_headers<O: Os, S: BuildSteps>(
    args: &Vec<Value>,
    kwargs: &Vec<(String, Value)>,
    interp: &Interpreter<O, S>,
) -> (r: Result<(Path, Vec<Path>), InterpreterError>)
    ensures
        match r {
            Ok(p) => headers_plan(
                value_views(args@),
                pair_views(kwargs@),
                interp.current_dir@,
                interp.objs(),
            ) == Ok::<(Seq<char>, Seq<Seq<char>>), ErrorView>((p.0@, path_views(p.1@))),
            Err(e) => headers_plan(
                value_views(args@),
                pair_views(kwargs@),
                interp.current_dir@,
                interp.objs(),
            ) == Err::<(Seq<char>, Seq<Seq<char>>), ErrorView>(e@),
        },
{
    let headers = match files_impl(args, interp) {
        Ok(h) => h,
        Err(e) => return Err(e),
    };
    let dir = match take_string_kwarg(
        kwargs,
        "install_dir",
        "'install_dir' keyword argument must be of type string",
    ) {
        Ok(Some(d)) => Path::from(d),
        Ok(None) => {
            assert(slashed(""@) =~= Seq::<char>::empty()) by {
                reveal_strlit("");
            }
            Path::from("")
        },
        Err(e) => return Err(e),
    };
    Ok((dir, headers))
}

/// What `install_headers(...)` returns: nothing, or the error of its
/// arguments.
pub open spec fn install_headers_result<O: Os, S: BuildSteps>(
    interp: &Interpreter<O, S>,
    args: Seq<ValueView>,
    kwargs: Seq<(Seq<char>, ValueView)>,
    r: Result<Value, InterpreterError>,
) -> bool {
    match headers_plan(args, kwargs, interp.current_dir@, interp.objs()) {
        Ok(_) => r matches Ok(v) && v@ == ValueView::Nothing,
        Err(e) => r matches Err(f) && f@ == e,
    }
}

/// `install_headers(headers..., install_dir: ...)`: tells the backend to
/// install the headers.
pub fn install_headers<O: Os, S: BuildSteps>(
    args: &Vec<Value>,
    kwargs: &Vec<(String, Value)>,
    interp: &Interpreter<O, S>,
) -> (r: Result<Value, InterpreterError>)
    ensures
        install_headers_result(interp, value_views(args@), pair_views(kwargs@), r),
{
    let (dir, headers) = match plan_headers(args, kwargs, interp) {
        Ok(p) => p,
        Err(e) => return Err(e),
    };
    interp.steps.install_headers(&dir, &headers);
    Ok(Value::Nothing)
}

} // verus!
