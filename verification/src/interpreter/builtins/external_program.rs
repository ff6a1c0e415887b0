//! `find_program()` and the methods of the programs it finds.

use vstd::prelude::*;
use crate::interpreter::builtins::args::{bool_kwarg, take_bool_kwarg};
use crate::interpreter::builtins::string::{first_string, take_first_string};
use crate::interpreter::error::{InterpreterError, ErrorView};
use crate::interpreter::objects::{Object, ExternalProgram};
use crate::interpreter::state::{Interpreter, kept};
use crate::interpreter::value::{Value, ValueView, value_views, pair_views};
use crate::os::Os;
use crate::path::Path;
use crate::steps::BuildSteps;
use crate::text::concat3;

verus! {

impl ExternalProgram {
    /// `p.found()`: whether the program was found.
    pub fn found(&self) -> (r: Value)
        ensures
            r@ == ValueView::Boolean(self.full_path is Some),
    {
        Value::Boolean(self.full_path.is_some())
    }

    /// `p.full_path()`: where the program was found; nothing where it was
    /// not.
    pub fn full_path(&self) -> (r: Value)
        ensures
            r@ == match self.full_path {
                Some(p) => ValueView::String(p@),
                None => ValueView::Nothing,
            },
    {
        match &self.full_path {
            Some(p) => Value::String(p.clone()),
            None => Value::Nothing,
        }
    }
}

/// What `find_program(name, required: ...)` gives once the system has
/// searched: the program at the path that was found; where none was
/// found, a program that is not found, or a runtime error that names the
/// program where it is required.
pub open spec fn searched_program(
    name: Seq<char>,
    found: Option<Seq<char>>,
    kwargs: Seq<(Seq<char>, ValueView)>,
) -> Result<Option<Seq<char>>, ErrorView> {
    match found {
        Some(path) => Ok(Some(path)),
        None => match bool_kwarg(kwargs, "required"@, "Expected a boolean"@) {
            Err(e) => Err(e),
            Ok(Some(true)) => Err(
                ErrorView::RuntimeError("Program '"@ + name + "' not found"@),
            ),
            Ok(_) => Ok(None),
        },
    }
}

/// Where the search found the program, if it did.
pub open spec fn found_at(found: Option<Path>) -> Option<Seq<char>> {
    match found {
        Some(path) => Some(path@),
        None => None,
    }
}

/// Decides what `find_program()` gives for the outcome of the search.
pub fn program_for(name: &str, found: Option<Path>, kwargs: &Vec<(String, Value)>) -> (r: Result<
    ExternalProgram,
    InterpreterError,
>)
    ensures
        match r {
            Ok(p) => searched_program(name@, found_at(found), pair_views(kwargs@)) == Ok::<
                Option<Seq<char>>,
                ErrorView,
            >(Object::ExternalProgram(p)@->ExternalProgram_full_path),
            Err(e) => searched_program(name@, found_at(found), pair_views(kwargs@)) == Err::<
                Option<Seq<char>>,
                ErrorView,
            >(e@),
        },
{
    match found {
        Some(path) => Ok(ExternalProgram { full_path: Some(path.to_string()) }),
        None => {
            let required = match take_bool_kwarg(kwargs, "required", "Expected a boolean") {
                Ok(Some(b)) => b,
                Ok(None) => false,
                Err(e) => return Err(e),
            };
            if required {
                Err(InterpreterError::RuntimeError(concat3("Program '", name, "' not found")))
            } else {
                Ok(ExternalProgram { full_path: None })
            }
        },
    }
}

/// What `find_program(name, required: ...)` does, whatever the search
/// finds: a program is added to the objects and the value that stands for
/// it returned, or the call fails as it does for a program that was not
/// found; nothing else changes.
pub open spec fn find_program_effect<O: Os, S: BuildSteps>(
    before: &Interpreter<O, S>,
    after: &Interpreter<O, S>,
    args: Seq<ValueView>,
    kwargs: Seq<(Seq<char>, ValueView)>,
    r: Result<Value, InterpreterError>,
) -> bool {
    &&& after.variables == before.variables
    &&& after.options == before.options
    &&& after.meson == before.meson
    &&& after.break_flag == before.break_flag
    &&& after.continue_flag == before.continue_flag
    &&& match first_string(args, "Expected a string as the first argument"@) {
        Err(e) => r matches Err(f) && f@ == e && after.objects == before.objects,
        Ok(name) => match r {
            Ok(v) => v@ == ValueView::Object(before.objects@.len() as usize) && after.objs().len()
                == before.objs().len() + 1 && after.objs().drop_last() == before.objs()
                && after.objs().last() is ExternalProgram && exists|found: Option<Seq<char>>|
                #[trigger] searched_program(name, found, kwargs) == Ok::<
                    Option<Seq<char>>,
                    ErrorView,
                >(after.objs().last()->ExternalProgram_full_path),
            Err(f) => after.objects == before.objects && searched_program(name, None, kwargs)
                == Err::<Option<Seq<char>>, ErrorView>(f@),
        },
    }
}

/// `find_program(name, required: ...)`: searches for the program.
pub fn find_program<O: Os, S: BuildSteps>(
    args: &Vec<Value>,
    kwargs: &Vec<(String, Value)>,
    interp: &mut Interpreter<O, S>,
) -> (r: Result<Value, InterpreterError>)
    ensures
        kept(old(interp), final(interp)),
        find_program_effect(
            old(interp),
            final(interp),
            value_views(args@),
            pair_views(kwargs@),
            r,
        ),
{
    let name = match take_first_string(args, "Expected a string as the first argument") {
        Ok(s) => s,
        Err(e) => return Err(e),
    };
    let found = match interp.os.find_program(&Path::from(name), &interp.current_dir) {
        Ok(p) => Some(p),
        Err(_) => None,
    };
    let ghost place = found_at(found);
    match program_for(name, found, kwargs) {
        Ok(p) => {
            let ghost made = Object::ExternalProgram(p)@;
            let v = interp.add_object(Object::ExternalProgram(p));
            assert(interp.objs().drop_last() =~= old(interp).objs());
            assert(interp.objs().last() == made);
            assert(searched_program(name@, place, pair_views(kwargs@)) == Ok::<
                Option<Seq<char>>,
                ErrorView,
            >(made->ExternalProgram_full_path));
            Ok(v)
        },
        Err(e) => Err(e),
    }
}

} // verus!
