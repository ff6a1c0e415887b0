//! The module `fs`.

use vstd::prelude::*;
use crate::interpreter::builtins::string::{first_string, take_first_string};
use crate::interpreter::error::{
    InterpreterError, ErrorView, ErrorContext, type_error, same_result, caused, system_failed,
};
use crate::interpreter::objects::FileSystem;
use crate::interpreter::state::Interpreter;
use crate::interpreter::value::{Value, ValueView, value_views};
use crate::os::Os;
use crate::path::{Path, slashed, with_extension};
use crate::steps::BuildSteps;

verus! {

/// The module `fs`.
pub fn filesystem() -> (r: FileSystem)
    ensures
        r == FileSystem,
{
    FileSystem
}

/// What the module asks of a path.
#[derive(Clone, Copy, Debug, PartialEq, Eq, Structural)]
pub enum PathQuestion {
    IsFile,
    IsDir,
    Exists,
}

/// The message for a question that the system could not answer.
pub open spec fn question_failure(q: PathQuestion) -> Seq<char> {
    match q {
        PathQuestion::IsFile => "Failed to check if path is a file"@,
        PathQuestion::IsDir => "Failed to check if path is a directory"@,
        PathQuestion::Exists => "Failed to check if path exists"@,
    }
}

/// What a question about a path gives once the system has answered: the
/// answer, or a runtime error with the cause where the system had none.
pub fn answer(q: PathQuestion, outcome: Result<bool, String>) -> (r: Result<
    Value,
    InterpreterError,
>)
    ensures
        same_result(
            r,
            match outcome {
                Ok(b) => Ok(ValueView::Boolean(b)),
                Err(cause) => Err(ErrorView::RuntimeError(caused(question_failure(q), cause@))),
            },
        ),
{
    let msg = match q {
        PathQuestion::IsFile => "Failed to check if path is a file",
        PathQuestion::IsDir => "Failed to check if path is a directory",
        PathQuestion::Exists => "Failed to check if path exists",
    };
    match outcome.context_runtime(msg) {
        Ok(b) => Ok(Value::Boolean(b)),
        Err(e) => Err(e),
    }
}

/// What a question about the path that the first argument names gives,
/// whatever the system answers: a type error where the argument is no
/// string; else the answer, or the runtime error of the question with the
/// cause that the system gave.
pub open spec fn path_asked(
    q: PathQuestion,
    args: Seq<ValueView>,
    r: Result<Value, InterpreterError>,
) -> bool {
    match first_string(args, "Expected a string argument"@) {
        Err(e) => r matches Err(f) && f@ == e,
        Ok(_) => match r {
            Ok(v) => v@ is Boolean,
            Err(f) => system_failed(f@, question_failure(q)),
        },
    }
}

/// What `fs.replace_suffix(path, suffix)` gives.
pub open spec fn replace_suffix_result(args: Seq<ValueView>) -> Result<ValueView, ErrorView> {
    if args.len() == 0 || !(args[0] is String) {
        Err(ErrorView::TypeError("First argument to replace_suffix must be a string"@))
    } else if args.len() < 2 || !(args[1] is String) {
        Err(ErrorView::TypeError("Second argument to replace_suffix must be a string"@))
    } else {
        Ok(
            ValueView::String(
                with_extension(slashed(args[0]->String_0), args[1]->String_0),
            ),
        )
    }
}

impl FileSystem {
    /// Asks the system about the path that the first argument names in the
    /// current directory.
    pub fn ask<O: Os, S: BuildSteps>(
        &self,
        q: PathQuestion,
        args: &Vec<Value>,
        interp: &Interpreter<O, S>,
    ) -> (r: Result<Value, InterpreterError>)
        ensures
            path_asked(q, value_views(args@), r),
    {
        let name = match take_first_string(args, "Expected a string argument") {
            Ok(s) => s,
            Err(e) => return Err(e),
        };
        let path = interp.current_dir.join(name);
        let outcome = match q {
            PathQuestion::IsFile => interp.os.is_file(&path),
            PathQuestion::IsDir => interp.os.is_dir(&path),
            PathQuestion::Exists => interp.os.path_exists(&path),
        };
        answer(q, outcome)
    }

    /// `fs.is_file(path)`.
    pub fn is_file<O: Os, S: BuildSteps>(&self, args: &Vec<Value>, interp: &Interpreter<O, S>) -> (r:
        Result<Value, InterpreterError>)
        ensures
            path_asked(PathQuestion::IsFile, value_views(args@), r),
    {
        self.ask(PathQuestion::IsFile, args, interp)
    }

    /// `fs.is_dir(path)`.
    pub fn is_dir<O: Os, S: BuildSteps>(&self, args: &Vec<Value>, interp: &Interpreter<O, S>) -> (r:
        Result<Value, InterpreterError>)
        ensures
            path_asked(PathQuestion::IsDir, value_views(args@), r),
    {
        self.ask(PathQuestion::IsDir, args, interp)
    }

    /// `fs.exists(path)`.
    pub fn path_exists<O: Os, S: BuildSteps>(
        &self,
        args: &Vec<Value>,
        interp: &Interpreter<O, S>,
    ) -> (r: Result<Value, InterpreterError>)
        ensures
            path_asked(PathQuestion::Exists, value_views(args@), r),
    {
        self.ask(PathQuestion::Exists, args, interp)
    }

    /// `fs.replace_suffix(path, suffix)`: the path with its extension
    /// replaced.
    pub fn replace_suffix(&self, args: &Vec<Value>) -> (r: Result<Value, InterpreterError>)
        ensures
            same_result(r, replace_suffix_result(value_views(args@))),
    {
        if args.len() == 0 {
            return Err(type_error("First argument to replace_suffix must be a string"));
        }
        let path = match &args[0] {
            Value::String(s) => s,
            _ => return Err(type_error("First argument to replace_suffix must be a string")),
        };
        if args.len() < 2 {
            return Err(type_error("Second argument to replace_suffix must be a string"));
        }
        let suffix = match &args[1] {
            Value::String(s) => s,
            _ => return Err(type_error("Second argument to replace_suffix must be a string")),
        };
        let changed = Path::from(path.as_str()).set_extension(suffix.as_str());
        Ok(Value::String(changed.to_string()))
    }
}

} // verus!
