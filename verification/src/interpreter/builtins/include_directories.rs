//! `include_directories()`.

use vstd::prelude::*;
use crate::interpreter::builtins::files::{PathSource, resolved, files_impl};
use crate::interpreter::error::{InterpreterError, ErrorView};
use crate::interpreter::objects::{Object, ObjectView, IncludeDirectories};
use crate::interpreter::state::{Interpreter, kept};
use crate::interpreter::value::{Value, ValueView, value_views};
use crate::os::Os;
use crate::steps::BuildSteps;

verus! {

/// What `include_directories(dirs...)` does: a set of include directories
/// is added to the objects, and the value that stands for it is returned;
/// nothing else changes.
pub open spec fn include_directories_effect<O: Os, S: BuildSteps>(
    before: &Interpreter<O, S>,
    after: &Interpreter<O, S>,
    args: Seq<ValueView>,
    r: Result<Value, InterpreterError>,
) -> bool {
    &&& after.variables == before.variables
    &&& after.options == before.options
    &&& after.meson == before.meson
    &&& after.break_flag == before.break_flag
    &&& after.continue_flag == before.continue_flag
    &&& match resolved(args, before.current_dir@, before.objs(), PathSource::Files) {
        Some(dirs) => r matches Ok(v) && v@ == ValueView::Object(before.objects@.len() as usize)
            && after.objs() == before.objs().push(ObjectView::IncludeDirectories { dirs }),
        None => r matches Err(e) && e@ == ErrorView::TypeError(
            "Expected arguments to be strings or File objects"@,
        ) && after.objects == before.objects,
    }
}

/// `include_directories(dirs...)`: a new set of include directories, the
/// arguments flattened and resolved against the current directory.
pub fn include_directories<O: Os, S: BuildSteps>(
    args: &Vec<Value>,
    interp: &mut Interpreter<O, S>,
) -> (r: Result<Value, InterpreterError>)
    ensures
        kept(old(interp), final(interp)),
        include_directories_effect(old(interp), final(interp), value_views(args@), r),
{
    let dirs = match files_impl(args, interp) {
        Ok(d) => d,
        Err(e) => return Err(e),
    };
    Ok(interp.add_object(Object::IncludeDirectories(IncludeDirectories { dirs })))
}

} // verus!
