//! `set_variable()`, `is_variable()` and `get_variable()`.

use vstd::prelude::*;
use crate::interpreter::builtins::string::{first_string, take_first_string};
use crate::interpreter::error::{InterpreterError, ErrorView, same_result};
use crate::interpreter::state::{Interpreter, kept};
use crate::interpreter::value::{Value, ValueView, value_views};
use crate::os::Os;
use crate::steps::BuildSteps;

verus! {

/// Whether `after` holds the variables of `before` and `name` bound to a
/// value with the view `value`.
pub open spec fn bound<O: Os, S: BuildSteps>(
    before: &Interpreter<O, S>,
    after: &Interpreter<O, S>,
    name: Seq<char>,
    value: ValueView,
) -> bool {
    &&& after.vars().dom() == before.vars().dom().insert(name)
    &&& after.vars()[name]@ == value
    &&& forall|k: Seq<char>|
        k != name && before.vars().contains_key(k) ==> #[trigger] after.vars()[k]
            == before.vars()[k]
}

/// Whether `after` differs from `before` in its variables alone.
pub open spec fn only_variables_changed<O: Os, S: BuildSteps>(
    before: &Interpreter<O, S>,
    after: &Interpreter<O, S>,
) -> bool {
    &&& after.options == before.options
    &&& after.objects == before.objects
    &&& after.meson == before.meson
    &&& after.current_dir == before.current_dir
    &&& after.build_dir == before.build_dir
    &&& after.break_flag == before.break_flag
    &&& after.continue_flag == before.continue_flag
    &&& after.depth_left == before.depth_left
}

impl<O: Os, S: BuildSteps> Interpreter<O, S> {
    /// Binds the variable `name` to `value`.
    pub fn bind(&mut self, name: String, value: Value)
        ensures
            bound(old(self), final(self), name@, value@),
            final(self).vars() == old(self).vars().insert(name@, value),
            only_variables_changed(old(self), final(self)),
            kept(old(self), final(self)),
    {
        self.variables.insert(name, value);
    }
}

/// What `set_variable(name, value)` does: it binds the variable to the
/// value, or to nothing where no value is given, and changes nothing else.
pub open spec fn set_variable_effect<O: Os, S: BuildSteps>(
    before: &Interpreter<O, S>,
    after: &Interpreter<O, S>,
    args: Seq<ValueView>,
    r: Result<Value, InterpreterError>,
) -> bool {
    &&& only_variables_changed(before, after)
    &&& match first_string(args, "First argument to set_variable must be a string"@) {
        Ok(name) => r matches Ok(v) && v@ == ValueView::Nothing && bound(
            before,
            after,
            name,
            if args.len() > 1 {
                args[1]
            } else {
                ValueView::Nothing
            },
        ),
        Err(e) => r matches Err(f) && f@ == e && after.vars() == before.vars(),
    }
}

/// `set_variable(name, value)`: binds the variable.
pub fn set_variable<O: Os, S: BuildSteps>(args: &Vec<Value>, interp: &mut Interpreter<O, S>) -> (r:
    Result<Value, InterpreterError>)
    ensures
        kept(old(interp), final(interp)),
        set_variable_effect(old(interp), final(interp), value_views(args@), r),
{
    let name = match take_first_string(args, "First argument to set_variable must be a string") {
        Ok(s) => String::from_str(s),
        Err(e) => return Err(e),
    };
    let value = if args.len() > 1 {
        args[1].cloned()
    } else {
        Value::Nothing
    };
    interp.bind(name, value);
    Ok(Value::Nothing)
}

/// What `is_variable(name)` gives with the variables `vars`.
pub open spec fn is_variable_result(
    vars: Map<Seq<char>, ValueView>,
    args: Seq<ValueView>,
) -> Result<ValueView, ErrorView> {
    match first_string(args, "First argument to is_variable must be a string"@) {
        Ok(name) => Ok(ValueView::Boolean(vars.contains_key(name))),
        Err(e) => Err(e),
    }
}

/// What `get_variable(name, fallback)` gives with the variables `vars`.
pub open spec fn get_variable_result(
    vars: Map<Seq<char>, ValueView>,
    args: Seq<ValueView>,
) -> Result<ValueView, ErrorView> {
    match first_string(args, "First argument to get_variable must be a string"@) {
        Ok(name) => if vars.contains_key(name) {
            Ok(vars[name])
        } else if args.len() > 1 {
            Ok(args[1])
        } else {
            Err(ErrorView::UndefinedVariable(name))
        },
        Err(e) => Err(e),
    }
}

/// `is_variable(name)`: whether the variable is bound.
pub fn is_variable<O: Os, S: BuildSteps>(args: &Vec<Value>, interp: &Interpreter<O, S>) -> (r:
    Result<Value, InterpreterError>)
    ensures
        same_result(r, is_variable_result(interp.var_views(), value_views(args@))),
{
    let name = match take_first_string(args, "First argument to is_variable must be a string") {
        Ok(s) => s,
        Err(e) => return Err(e),
    };
    Ok(Value::Boolean(interp.variables.contains_key(name)))
}

/// `get_variable(name, fallback)`: the value of the variable, the fallback
/// where it is not bound, or the error that names the variable where there
/// is no fallback either.
pub fn get_variable<O: Os, S: BuildSteps>(args: &Vec<Value>, interp: &Interpreter<O, S>) -> (r:
    Result<Value, InterpreterError>)
    ensures
        same_result(r, get_variable_result(interp.var_views(), value_views(args@))),
{
    let name = match take_first_string(args, "First argument to get_variable must be a string") {
        Ok(s) => s,
        Err(e) => return Err(e),
    };
    match interp.variables.get(name) {
        Some(v) => Ok(v.cloned()),
        None => {
            if args.len() > 1 {
                Ok(args[1].cloned())
            } else {
                Err(InterpreterError::UndefinedVariable(String::from_str(name)))
            }
        },
    }
}

} // verus!
