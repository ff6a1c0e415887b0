//! What calls do to the interpreter.
//!
//! `function_effect` tells what a call of each function of the language
//! does, and `method_effect` what a call of a method does: the result,
//! and how the interpreter after the call differs from the one before
//! it. Where the system decides an outcome, they tell what holds
//! whatever it answered.

use vstd::prelude::*;
use crate::interpreter::builtins::{
    add_languages, build_target, configure_file, env, external_program, files, import,
    include_directories, install_headers, option, project, run_result, variable,
};
use crate::interpreter::builtins::string::first_string;
use crate::interpreter::error::{InterpreterError, ErrorView, same_result, caused};
use crate::interpreter::methods::{string_method, array_method, dict_method, method_contract};
use crate::interpreter::objects::ObjectView;
use crate::interpreter::plain::{
    world_of, plain_value, plain_values, plain_entries, answers_plainly, plain_answer,
    no_methods, run_block, state_of, ran_as,
};
use crate::interpreter::state::{Interpreter, unchanged};
use crate::interpreter::value::{Value, ValueView};
use crate::os::Os;
use crate::parser::ast::{ExprView, StmtView};
use crate::steps::BuildSteps;

verus! {

/// The statements of the build description at `path`, once the file has
/// been read as `read` tells: a runtime error names the path where the
/// file could not be read, is no UTF-8, or does not fit the grammar.
pub open spec fn loaded(path: Seq<char>, read: Result<Seq<u8>, Seq<char>>) -> Result<
    Seq<StmtView>,
    ErrorView,
> {
    match read {
        Err(cause) => Err(ErrorView::RuntimeError(caused("Failed to read file: "@ + path, cause))),
        Ok(bytes) => if !vstd::utf8::valid_utf8(bytes) {
            Err(ErrorView::RuntimeError("File is not valid UTF-8: "@ + path))
        } else {
            match crate::parser::grammar::program(
                crate::lexer::tokens_of(vstd::utf8::decode_utf8(bytes)),
            ) {
                Some(statements) => Ok(statements),
                None => Err(ErrorView::RuntimeError("Failed to parse "@ + path)),
            }
        },
    }
}

/// Whether `after` is `before` with the object `object` added, and `r` the
/// value that stands for that object.
pub open spec fn object_added<O: Os, S: BuildSteps>(
    before: &Interpreter<O, S>,
    after: &Interpreter<O, S>,
    object: ObjectView,
    r: Result<Value, InterpreterError>,
) -> bool {
    &&& after.variables == before.variables
    &&& after.options == before.options
    &&& after.meson == before.meson
    &&& after.break_flag == before.break_flag
    &&& after.continue_flag == before.continue_flag
    &&& after.objs() == before.objs().push(object)
    &&& r matches Ok(v) && v@ == ValueView::Object(before.objects@.len() as usize)
}

/// What a call of the function `name` does: each function of the language
/// by its own effect, and a name that is no function fails and changes
/// nothing.
pub open spec fn function_effect<O: Os, S: BuildSteps>(
    name: Seq<char>,
    before: &Interpreter<O, S>,
    after: &Interpreter<O, S>,
    args: Seq<ValueView>,
    kwargs: Seq<(Seq<char>, ValueView)>,
    r: Result<Value, InterpreterError>,
) -> bool {
    if answers_plainly(name) {
        same_result(r, plain_answer(name, args, before.objs())) && unchanged(before, after)
    } else if name == "project"@ {
        project::project_effect(before, after, args, kwargs, r)
    } else if name == "option"@ {
        option::option_effect(before, after, args, kwargs, r)
    } else if name == "get_option"@ {
        same_result(r, option::get_option_result(before.opts(), args)) && unchanged(before, after)
    } else if name == "import"@ {
        match import::import_result(args) {
            Ok(_) => object_added(before, after, ObjectView::FileSystem, r),
            Err(e) => r matches Err(f) && f@ == e && unchanged(before, after),
        }
    } else if name == "run_command"@ {
        run_result::run_command_effect(before, after, args, r)
    } else if name == "set_variable"@ {
        variable::set_variable_effect(before, after, args, r)
    } else if name == "configuration_data"@ {
        object_added(before, after, ObjectView::ConfigData { data: Seq::empty() }, r)
    } else if name == "configure_file"@ {
        unchanged(before, after) && configure_file::configure_file_result(before, kwargs, r)
    } else if name == "is_variable"@ {
        same_result(r, variable::is_variable_result(before.var_views(), args)) && unchanged(
            before,
            after,
        )
    } else if name == "get_variable"@ {
        same_result(r, variable::get_variable_result(before.var_views(), args)) && unchanged(
            before,
            after,
        )
    } else if name == "include_directories"@ {
        include_directories::include_directories_effect(before, after, args, r)
    } else if name == "add_project_arguments"@ {
        project::project_arguments_effect(before, after, args, kwargs, r)
    } else if name == "add_languages"@ {
        unchanged(before, after) && add_languages::add_languages_result(args, kwargs, r)
    } else if name == "files"@ {
        files::files_effect(before, after, args, r)
    } else if name == "subdir"@ {
        subdir_effect(before, after, args, r)
    } else if name == "environment"@ {
        match env::initial_vars(args) {
            Ok(vars) => object_added(before, after, ObjectView::Env { vars }, r),
            Err(e) => r matches Err(f) && f@ == e && unchanged(before, after),
        }
    } else if name == "static_library"@ {
        build_target::target_effect(
            crate::interpreter::objects::TargetType::StaticLibrary,
            before,
            after,
            args,
            kwargs,
            r,
        )
    } else if name == "executable"@ {
        build_target::target_effect(
            crate::interpreter::objects::TargetType::Executable,
            before,
            after,
            args,
            kwargs,
            r,
        )
    } else if name == "find_program"@ {
        external_program::find_program_effect(before, after, args, kwargs, r)
    } else if name == "install_headers"@ {
        unchanged(before, after) && install_headers::install_headers_result(
            before,
            args,
            kwargs,
            r,
        )
    } else {
        r matches Err(e) && e@ == ErrorView::UndefinedFunction(name) && unchanged(before, after)
    }
}

/// The file that `subdir(name)` runs where the current directory is
/// `dir`.
pub open spec fn subdir_file(dir: Seq<char>, name: Seq<char>) -> Seq<char> {
    crate::path::joined(crate::path::joined(dir, name), "meson.build"@)
}

/// Whether a run of a build description ended as `r` and left `after`,
/// where reading and parsing its file gave `file`. A file that gave no
/// statements fails with its error and changes nothing; statements of
/// which `run_block` tells anything do what it tells.
pub open spec fn file_ran<O: Os, S: BuildSteps>(
    before: &Interpreter<O, S>,
    after: &Interpreter<O, S>,
    r: Result<(), InterpreterError>,
    file: Result<Seq<StmtView>, ErrorView>,
) -> bool {
    match file {
        Err(e) => r matches Err(f) && f@ == e && unchanged(before, after),
        Ok(statements) => ran_as(
            before,
            after,
            r,
            run_block(statements, 0, state_of(before), world_of(before)),
        ),
    }
}

/// What `subdir(name)` does. A name that is no string is a type error,
/// and a call with no depth left a runtime error; both change nothing.
/// Any other call runs the file `subdir_file` names, as `file_ran` tells
/// for some outcome of reading it, and gives nothing where that run ends
/// well.
pub open spec fn subdir_effect<O: Os, S: BuildSteps>(
    before: &Interpreter<O, S>,
    after: &Interpreter<O, S>,
    args: Seq<ValueView>,
    r: Result<Value, InterpreterError>,
) -> bool {
    match first_string(args, "First argument to subdir must be a string"@) {
        Err(e) => r matches Err(f) && f@ == e && unchanged(before, after),
        Ok(name) => if before.depth_left == 0 {
            r matches Err(f) && f@ == ErrorView::RuntimeError("subdir() is nested too deep"@)
                && unchanged(before, after)
        } else {
            exists|read: Result<Seq<u8>, Seq<char>>|
                file_ran(
                    before,
                    after,
                    match r {
                        Ok(_) => Ok(()),
                        Err(e) => Err(e),
                    },
                    #[trigger] loaded(subdir_file(before.current_dir@, name), read),
                ) && (r matches Ok(v) ==> v@ == ValueView::Nothing)
        },
    }
}

/// What a call does depends on the interpreter only by what `unchanged`
/// compares: the effect of a call upon `b` is its effect upon any `a` that
/// holds the same.
pub proof fn lemma_effect_reads_the_state<O: Os, S: BuildSteps>(
    name: Seq<char>,
    a: &Interpreter<O, S>,
    b: &Interpreter<O, S>,
    after: &Interpreter<O, S>,
    args: Seq<ValueView>,
    kwargs: Seq<(Seq<char>, ValueView)>,
    r: Result<Value, InterpreterError>,
)
    requires
        unchanged(a, b),
        function_effect(name, b, after, args, kwargs, r),
    ensures
        function_effect(name, a, after, args, kwargs, r),
{
}

/// What a call of the method `method` of the value `object` does. The
/// methods of strings, arrays and dicts change nothing and give what
/// `string_method`, `array_method` and `dict_method` tell; those of an
/// object do what `method_contract` tells; any other value has none.
pub open spec fn method_effect<O: Os, S: BuildSteps>(
    before: &Interpreter<O, S>,
    after: &Interpreter<O, S>,
    object: ValueView,
    method: Seq<char>,
    args: Seq<ValueView>,
    kwargs: Seq<(Seq<char>, ValueView)>,
    r: Result<Value, InterpreterError>,
) -> bool {
    match object {
        ValueView::String(s) => same_result(r, string_method(s, method, args, before.objs()))
            && unchanged(before, after),
        ValueView::Array(items) => same_result(
            r,
            array_method(items, method, args, before.objs()),
        ) && unchanged(before, after),
        ValueView::Dict(entries) => same_result(r, dict_method(entries, method, args))
            && unchanged(before, after),
        ValueView::Object(handle) => method_contract(
            before,
            after,
            handle,
            method,
            args,
            kwargs,
            r,
        ),
        _ => r matches Err(e) && e@ == no_methods(method) && unchanged(before, after),
    }
}

/// What the evaluation of a call does whose receiver and arguments call
/// nothing themselves: what `function_effect` tells of a function, and
/// `method_effect` of a method, called with the values of the arguments.
/// Of any other expression nothing is said here.
pub open spec fn call_effect<O: Os, S: BuildSteps>(
    e: ExprView,
    before: &Interpreter<O, S>,
    after: &Interpreter<O, S>,
    r: Result<Value, InterpreterError>,
) -> bool {
    let vars = before.var_views();
    let world = world_of(before);
    match e {
        ExprView::FunctionCall(name, args, kwargs) => match (
            plain_values(args, vars, world),
            plain_entries(kwargs, vars, world),
        ) {
            (Some(Ok(a)), Some(Ok(k))) => function_effect(name, before, after, a, k, r),
            _ => true,
        },
        ExprView::MethodCall(object, method, args, kwargs) => match (
            plain_value(*object, vars, world),
            plain_values(args, vars, world),
            plain_entries(kwargs, vars, world),
        ) {
            (Some(Ok(o)), Some(Ok(a)), Some(Ok(k))) => method_effect(
                before,
                after,
                o,
                method,
                a,
                k,
                r,
            ),
            _ => true,
        },
        _ => true,
    }
}

/// As `lemma_effect_reads_the_state`, for the call of a method.
pub proof fn lemma_method_effect_reads_the_state<O: Os, S: BuildSteps>(
    a: &Interpreter<O, S>,
    b: &Interpreter<O, S>,
    after: &Interpreter<O, S>,
    object: ValueView,
    method: Seq<char>,
    args: Seq<ValueView>,
    kwargs: Seq<(Seq<char>, ValueView)>,
    r: Result<Value, InterpreterError>,
)
    requires
        unchanged(a, b),
        method_effect(b, after, object, method, args, kwargs, r),
    ensures
        method_effect(a, after, object, method, args, kwargs, r),
{
}

/// What a statement does that is a call, or assigns one, where the
/// receiver and the arguments of the call have their values by
/// `plain_value`. The
/// call does to the interpreter what `call_effect` tells, with some
/// result; a failure ends the statement, and an assignment binds its
/// variable to the value that the call gave. Of other statements nothing
/// is said here.
pub open spec fn call_statement<O: Os, S: BuildSteps>(
    s: StmtView,
    before: &Interpreter<O, S>,
    after: &Interpreter<O, S>,
    r: Result<(), InterpreterError>,
) -> bool {
    match s {
        StmtView::Expression(e) => exists|v: Result<Value, InterpreterError>|
            #[trigger] call_effect(e, before, after, v) && match v {
                Ok(_) => r is Ok,
                Err(x) => r matches Err(y) && y@ == x@,
            },
        StmtView::Assignment(name, e) => exists|
            mid: Interpreter<O, S>,
            v: Result<Value, InterpreterError>,
        |
            #[trigger] call_effect(e, before, &mid, v) && match v {
                Ok(value) => r is Ok && variable::bound(&mid, after, name, value@)
                    && variable::only_variables_changed(&mid, after),
                Err(x) => r matches Err(y) && y@ == x@ && unchanged(&mid, after),
            },
        _ => true,
    }
}

} // verus!
