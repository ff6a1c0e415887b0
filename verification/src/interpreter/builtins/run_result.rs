//! `run_command()` and the methods of what it returns.

use vstd::prelude::*;
use crate::interpreter::builtins::utils::{flat, flatten};
use crate::interpreter::error::{
    InterpreterError, ErrorView, ErrorContext, type_error, caused, system_failed,
};
use crate::interpreter::objects::{Object, RunResult, string_views};
use crate::interpreter::state::{Interpreter, kept};
use crate::interpreter::value::{Value, ValueView, value_views};
use crate::os::{Os, RunCommandOutput};
use crate::path::{Path, slashed};
use crate::steps::BuildSteps;

verus! {

impl RunResult {
    /// `r.stdout()`: what the command wrote to its standard output.
    pub fn stdout(&self) -> (r: Value)
        ensures
            r@ == ValueView::String(self.stdout@),
    {
        Value::String(self.stdout.clone())
    }

    /// `r.stderr()`: what the command wrote to its standard error.
    pub fn stderr(&self) -> (r: Value)
        ensures
            r@ == ValueView::String(self.stderr@),
    {
        Value::String(self.stderr.clone())
    }

    /// `r.returncode()`: the exit code of the command.
    pub fn returncode(&self) -> (r: Value)
        ensures
            r@ == ValueView::Integer(self.returncode),
    {
        Value::Integer(self.returncode)
    }
}

/// The command that `run_command(args...)` names: the first of the
/// arguments, once flattened, is the program, the others are its
/// arguments. All must be strings, and there must be one at least.
pub open spec fn command_line(args: Seq<ValueView>) -> Result<
    (Seq<char>, Seq<Seq<char>>),
    ErrorView,
> {
    let items = flat(args);
    if items.len() == 0 {
        Err(ErrorView::TypeError("Expected at least one argument"@))
    } else if !(items[0] is String) {
        Err(ErrorView::TypeError("Expected command to be a string"@))
    } else if exists|i: int| 1 <= i < items.len() && !(#[trigger] items[i] is String) {
        Err(ErrorView::TypeError("Expected command arguments to be strings"@))
    } else {
        Ok(
            (
                slashed(items[0]->String_0),
                Seq::new((items.len() - 1) as nat, |i: int| items[i + 1]->String_0),
            ),
        )
    }
}

/// Reads the command that `run_command()` is called with.
pub fn take_command_line(args: &Vec<Value>) -> (r: Result<(Path, Vec<String>), InterpreterError>)
    ensures
        match r {
            Ok(c) => command_line(value_views(args@)) == Ok::<
                (Seq<char>, Seq<Seq<char>>),
                ErrorView,
            >((c.0@, string_views(c.1@))),
            Err(e) => command_line(value_views(args@)) == Err::<
                (Seq<char>, Seq<Seq<char>>),
                ErrorView,
            >(e@),
        },
{
    let items = flatten(args);
    let ghost views = value_views(items@);
    if items.len() == 0 {
        return Err(type_error("Expected at least one argument"));
    }
    assert(views[0] == items@[0]@);
    let cmd = match &items[0] {
        Value::String(s) => Path::from(s.as_str()),
        _ => return Err(type_error("Expected command to be a string")),
    };
    let mut rest: Vec<String> = Vec::new();
    let mut i: usize = 1;
    while i < items.len()
        invariant
            1 <= i <= items.len(),
            views == value_views(items@),
            views == flat(value_views(args@)),
            views[0] is String,
            rest@.len() == i - 1,
            forall|j: int| 1 <= j < i ==> #[trigger] views[j] is String,
            forall|j: int| 0 <= j < i - 1 ==> (#[trigger] rest@[j])@ == views[j + 1]->String_0,
        decreases items.len() - i,
    {
        assert(views[i as int] == items@[i as int]@);
        match &items[i] {
            Value::String(s) => rest.push(s.clone()),
            _ => {
                assert(!(views[i as int] is String));
                return Err(type_error("Expected command arguments to be strings"));
            },
        }
        i += 1;
    }
    assert(string_views(rest@) =~= Seq::new(
        (views.len() - 1) as nat,
        |i: int| views[i + 1]->String_0,
    ));
    Ok((cmd, rest))
}

/// What `run_command()` returns once the command has run: the result that
/// holds what the command left, or the failure to run it with its cause.
pub fn command_result(output: Result<RunCommandOutput, String>) -> (r: Result<
    RunResult,
    InterpreterError,
>)
    ensures
        match output {
            Ok(o) => r matches Ok(res) && res.stdout@ == o.stdout@ && res.stderr@ == o.stderr@
                && res.returncode == o.returncode,
            Err(cause) => r matches Err(e) && e@ == ErrorView::RuntimeError(
                caused("Failed to run command"@, cause@),
            ),
        },
{
    match output.context_runtime("Failed to run command") {
        Ok(o) => Ok(RunResult { stdout: o.stdout, stderr: o.stderr, returncode: o.returncode }),
        Err(e) => Err(e),
    }
}

/// What `run_command(args...)` does, whatever the command does: where the
/// arguments name a command, the result of the command is added to the
/// objects and the value that stands for it returned, or the call fails
/// because the command could not be run; nothing else changes.
pub open spec fn run_command_effect<O: Os, S: BuildSteps>(
    before: &Interpreter<O, S>,
    after: &Interpreter<O, S>,
    args: Seq<ValueView>,
    r: Result<Value, InterpreterError>,
) -> bool {
    &&& after.variables == before.variables
    &&& after.options == before.options
    &&& after.meson == before.meson
    &&& after.break_flag == before.break_flag
    &&& after.continue_flag == before.continue_flag
    &&& match command_line(args) {
        Err(e) => r matches Err(f) && f@ == e && after.objects == before.objects,
        Ok(_) => match r {
            Ok(v) => v@ == ValueView::Object(before.objects@.len() as usize) && after.objs().len()
                == before.objs().len() + 1 && after.objs().drop_last() == before.objs()
                && after.objs().last() is RunResult,
            Err(f) => system_failed(f@, "Failed to run command"@) && after.objects
                == before.objects,
        },
    }
}

/// `run_command(args...)`: runs the command and returns what it left.
pub fn run_command<O: Os, S: BuildSteps>(args: &Vec<Value>, interp: &mut Interpreter<O, S>) -> (r:
    Result<Value, InterpreterError>)
    ensures
        kept(old(interp), final(interp)),
        run_command_effect(old(interp), final(interp), value_views(args@), r),
{
    let (cmd, arguments) = match take_command_line(args) {
        Ok(c) => c,
        Err(e) => return Err(e),
    };
    let output = interp.os.run_command(&cmd, &arguments);
    match command_result(output) {
        Ok(res) => {
            let v = interp.add_object(Object::RunResult(res));
            assert(interp.objs().drop_last() =~= old(interp).objs());
            Ok(v)
        },
        Err(e) => Err(e),
    }
}

} // verus!
