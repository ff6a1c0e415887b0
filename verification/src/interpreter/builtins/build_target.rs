//! Build targets: `executable()`, `static_library()` and the methods of
//! the targets they make.

use vstd::prelude::*;
use crate::assoc::lookup;
use crate::interpreter::builtins::args::{
    kwarg, string_kwarg, bool_kwarg, take_string_kwarg, take_bool_kwarg,
};
use crate::interpreter::builtins::files::{PathSource, resolved, resolve_paths};
use crate::interpreter::builtins::option::BuildOption;
use crate::interpreter::builtins::utils::{all_strings, strings_of};
use crate::interpreter::error::{
    InterpreterError, ErrorView, type_error, runtime_error, same_result,
};
use crate::interpreter::objects::{
    Object, ObjectView, BuildTarget, BuildTargetView, ExtractedObjects, TargetType, path_views,
    string_views, clone_paths,
};
use crate::interpreter::state::{Interpreter, kept};
use crate::interpreter::value::{Value, ValueView, value_views, pair_views};
use crate::os::Os;
use crate::path::{Path, joined, slashed};
use crate::steps::BuildSteps;
use crate::text::{concat, concat3};

verus! {

/// The directory that the option `key` names: `None` where no such option
/// is declared, a type error where its value is no string.
pub open spec fn dir_option(opts: Map<Seq<char>, BuildOption>, key: Seq<char>) -> Result<
    Option<Seq<char>>,
    ErrorView,
> {
    if !opts.contains_key(key) {
        Ok(None)
    } else {
        match opts[key].value@ {
            ValueView::String(s) => Ok(Some(s)),
            _ => Err(ErrorView::TypeError("Expected '"@ + key + "' option to be a string"@)),
        }
    }
}

/// Reads the directory that the option `key` names.
pub fn get_dir<O: Os, S: BuildSteps>(interp: &Interpreter<O, S>, key: &str) -> (r: Result<
    Option<String>,
    InterpreterError,
>)
    ensures
        match r {
            Ok(Some(s)) => dir_option(interp.opts(), key@) == Ok::<Option<Seq<char>>, ErrorView>(
                Some(s@),
            ),
            Ok(None) => dir_option(interp.opts(), key@) == Ok::<Option<Seq<char>>, ErrorView>(
                None,
            ),
            Err(e) => dir_option(interp.opts(), key@) == Err::<Option<Seq<char>>, ErrorView>(e@),
        },
{
    match interp.options.get(key) {
        None => Ok(None),
        Some(opt) => match &opt.value {
            Value::String(s) => Ok(Some(s.clone())),
            _ => Err(
                InterpreterError::TypeError(
                    concat3("Expected '", key, "' option to be a string"),
                ),
            ),
        },
    }
}

/// The arguments behind the first.
pub open spec fn tail(args: Seq<ValueView>) -> Seq<ValueView> {
    if args.len() == 0 {
        args
    } else {
        args.subrange(1, args.len() as int)
    }
}

/// Copies the arguments behind the first.
pub fn tail_of(args: &Vec<Value>) -> (r: Vec<Value>)
    ensures
        value_views(r@) == tail(value_views(args@)),
{
    let mut out: Vec<Value> = Vec::new();
    let mut i: usize = 1;
    while i < args.len()
        invariant
            1 <= i <= args.len() || args.len() == 0,
            args.len() > 0 ==> out@.len() == i - 1,
            args.len() == 0 ==> out@.len() == 0,
            forall|j: int| 0 <= j < out@.len() ==> (#[trigger] out@[j])@ == args@[j + 1]@,
        decreases args.len() - i,
    {
        out.push(args[i].cloned());
        i += 1;
    }
    assert(value_views(out@) =~= tail(value_views(args@)));
    out
}

/// The value of the argument `name`, or the empty array where it is not
/// given, as the one element of a row.
pub open spec fn listed(kwargs: Seq<(Seq<char>, ValueView)>, name: Seq<char>) -> Seq<ValueView> {
    match lookup(kwargs, name) {
        Some(v) => seq![v],
        None => seq![ValueView::Array(Seq::empty())],
    }
}

/// The flags that `c_args` gives: the strings of the array, none where it
/// is not given.
pub open spec fn declared_flags(kwargs: Seq<(Seq<char>, ValueView)>) -> Result<
    Seq<Seq<char>>,
    ErrorView,
> {
    match lookup(kwargs, "c_args"@) {
        None => Ok(Seq::empty()),
        Some(ValueView::Array(items)) => match all_strings(items) {
            Some(texts) => Ok(texts),
            None => Err(ErrorView::TypeError("Expected elements of 'c_args' to be strings"@)),
        },
        Some(_) => Err(ErrorView::TypeError("Expected 'c_args' keyword argument to be an array"@)),
    }
}

/// The option that names the directory into which a target of the kind
/// `target_type` is installed.
pub open spec fn dir_key(target_type: TargetType) -> Seq<char> {
    match target_type {
        TargetType::StaticLibrary => "libdir"@,
        TargetType::Executable => "bindir"@,
    }
}

/// Where a target is installed: the directory that `install_dir` names,
/// or that of the option for its kind.
pub open spec fn install_place(
    target_type: TargetType,
    kwargs: Seq<(Seq<char>, ValueView)>,
    opts: Map<Seq<char>, BuildOption>,
) -> Result<Seq<char>, ErrorView> {
    match string_kwarg(
        kwargs,
        "install_dir"@,
        "Expected 'install_dir' keyword argument to be a string"@,
    ) {
        Err(e) => Err(e),
        Ok(Some(dir)) => Ok(slashed(dir)),
        Ok(None) => match dir_option(opts, dir_key(target_type)) {
            Err(e) => Err(e),
            Ok(Some(dir)) => Ok(slashed(dir)),
            Ok(None) => Err(ErrorView::RuntimeError("Could not determine install directory"@)),
        },
    }
}

/// The target that `executable(name, sources..., ...)` or
/// `static_library(...)` declares. The sources are the arguments behind
/// the name, flattened and resolved against the current directory, and
/// behind them what `objects` names. The first argument that is missing or
/// of the wrong kind gives the error, in the order name, sources,
/// `objects`, `install`, `install_dir`, `include_directories`, `c_args`.
pub open spec fn planned_target(
    target_type: TargetType,
    args: Seq<ValueView>,
    kwargs: Seq<(Seq<char>, ValueView)>,
    cwd: Seq<char>,
    objs: Seq<ObjectView>,
    opts: Map<Seq<char>, BuildOption>,
) -> Result<BuildTargetView, ErrorView> {
    if args.len() == 0 || !(args[0] is String) {
        Err(ErrorView::TypeError("First argument must be a string (name)"@))
    } else {
        match resolved(tail(args), cwd, objs, PathSource::Files) {
            None => Err(
                ErrorView::TypeError("Expected arguments to be strings or File objects"@),
            ),
            Some(sources) => match resolved(
                listed(kwargs, "objects"@),
                cwd,
                objs,
                PathSource::Objects,
            ) {
                None => Err(
                    ErrorView::TypeError(
                        "Expected elements of 'objects' to be strings, File, or ExtractedObjects object"@,
                    ),
                ),
                Some(objects) => match bool_kwarg(
                    kwargs,
                    "install"@,
                    "Expected 'install' keyword argument to be a boolean"@,
                ) {
                    Err(e) => Err(e),
                    Ok(install) => match install_place(target_type, kwargs, opts) {
                        Err(e) => Err(e),
                        Ok(install_dir) => match resolved(
                            listed(kwargs, "include_directories"@),
                            cwd,
                            objs,
                            PathSource::Includes,
                        ) {
                            None => Err(
                                ErrorView::TypeError(
                                    "Expected elements of 'include_directories' to be strings or include_directories objects"@,
                                ),
                            ),
                            Some(include_dirs) => match declared_flags(kwargs) {
                                Err(e) => Err(e),
                                Ok(flags) => Ok(
                                    BuildTargetView {
                                        name: args[0]->String_0,
                                        target_type,
                                        sources: sources + objects,
                                        install: match install {
                                            Some(b) => b,
                                            None => false,
                                        },
                                        include_dirs,
                                        install_dir,
                                        flags,
                                    },
                                ),
                            },
                        },
                    },
                },
            },
        }
    }
}

/// Makes the one-element row that holds the argument `name` or the empty
/// array.
fn listed_kwarg(kwargs: &Vec<(String, Value)>, name: &str) -> (r: Vec<Value>)
    ensures
        value_views(r@) == listed(pair_views(kwargs@), name@),
{
    let mut out: Vec<Value> = Vec::new();
    match kwarg(kwargs, name) {
        Some(v) => {
            out.push(v.cloned());
            assert(value_views(out@) =~= seq![v@]);
        },
        None => {
            let empty: Vec<Value> = Vec::new();
            assert(value_views(empty@) =~= Seq::<ValueView>::empty());
            out.push(Value::Array(empty));
            assert(value_views(out@) =~= seq![ValueView::Array(Seq::empty())]);
        },
    }
    out
}

/// Reads the flags that `c_args` gives.
fn take_flags(kwargs: &Vec<(String, Value)>) -> (r: Result<Vec<String>, InterpreterError>)
    ensures
        match r {
            Ok(f) => declared_flags(pair_views(kwargs@)) == Ok::<Seq<Seq<char>>, ErrorView>(
                string_views(f@),
            ),
            Err(e) => declared_flags(pair_views(kwargs@)) == Err::<Seq<Seq<char>>, ErrorView>(e@),
        },
{
    match kwarg(kwargs, "c_args") {
        None => {
            let out: Vec<String> = Vec::new();
            assert(string_views(out@) =~= Seq::<Seq<char>>::empty());
            Ok(out)
        },
        Some(v) => match v {
            Value::Array(items) => strings_of(
                items,
                "Expected elements of 'c_args' to be strings",
            ),
            _ => Err(type_error("Expected 'c_args' keyword argument to be an array")),
        },
    }
}

/// Finds where a target is installed.
fn take_install_place<O: Os, S: BuildSteps>(
    target_type: TargetType,
    kwargs: &Vec<(String, Value)>,
    interp: &Interpreter<O, S>,
) -> (r: Result<Path, InterpreterError>)
    ensures
        match r {
            Ok(p) => install_place(target_type, pair_views(kwargs@), interp.opts()) == Ok::<
                Seq<char>,
                ErrorView,
            >(p@),
            Err(e) => install_place(target_type, pair_views(kwargs@), interp.opts()) == Err::<
                Seq<char>,
                ErrorView,
            >(e@),
        },
{
    match take_string_kwarg(
        kwargs,
        "install_dir",
        "Expected 'install_dir' keyword argument to be a string",
    ) {
        Err(e) => Err(e),
        Ok(Some(dir)) => Ok(Path::from(dir)),
        Ok(None) => {
            let key = match target_type {
                TargetType::StaticLibrary => "libdir",
                TargetType::Executable => "bindir",
            };
            match get_dir(interp, key) {
                Err(e) => Err(e),
                Ok(Some(dir)) => Ok(Path::from(dir.as_str())),
                Ok(None) => Err(runtime_error("Could not determine install directory")),
            }
        },
    }
}

/// Works out the target that the arguments declare.
pub fn plan_target<O: Os, S: BuildSteps>(
    target_type: TargetType,
    args: &Vec<Value>,
    kwargs: &Vec<(String, Value)>,
    interp: &Interpreter<O, S>,
) -> (r: Result<BuildTarget, InterpreterError>)
    ensures
        match r {
            Ok(t) => planned_target(
                target_type,
                value_views(args@),
                pair_views(kwargs@),
                interp.current_dir@,
                interp.objs(),
                interp.opts(),
            ) == Ok::<BuildTargetView, ErrorView>(t@),
            Err(e) => planned_target(
                target_type,
                value_views(args@),
                pair_views(kwargs@),
                interp.current_dir@,
                interp.objs(),
                interp.opts(),
            ) == Err::<BuildTargetView, ErrorView>(e@),
        },
{
    if args.len() == 0 {
        return Err(type_error("First argument must be a string (name)"));
    }
    let name = match &args[0] {
        Value::String(s) => s.clone(),
        _ => return Err(type_error("First argument must be a string (name)")),
    };
    let rest = tail_of(args);
    let mut sources = match resolve_paths(
        &rest,
        &interp.current_dir,
        &interp.objects,
        PathSource::Files,
    ) {
        Some(p) => p,
        None => return Err(type_error("Expected arguments to be strings or File objects")),
    };
    let objects = match resolve_paths(
        &listed_kwarg(kwargs, "objects"),
        &interp.current_dir,
        &interp.objects,
        PathSource::Objects,
    ) {
        Some(p) => p,
        None => return Err(
            type_error(
                "Expected elements of 'objects' to be strings, File, or ExtractedObjects object",
            ),
        ),
    };
    let install = match take_bool_kwarg(
        kwargs,
        "install",
        "Expected 'install' keyword argument to be a boolean",
    ) {
        Ok(Some(b)) => b,
        Ok(None) => false,
        Err(e) => return Err(e),
    };
    let install_dir = match take_install_place(target_type, kwargs, interp) {
        Ok(p) => p,
        Err(e) => return Err(e),
    };
    let include_dirs = match resolve_paths(
        &listed_kwarg(kwargs, "include_directories"),
        &interp.current_dir,
        &interp.objects,
        PathSource::Includes,
    ) {
        Some(p) => p,
        None => return Err(
            type_error(
                "Expected elements of 'include_directories' to be strings or include_directories objects",
            ),
        ),
    };
    let flags = match take_flags(kwargs) {
        Ok(f) => f,
        Err(e) => return Err(e),
    };
    let ghost first = path_views(sources@);
    let mut i: usize = 0;
    assert(path_views(objects@).take(0) =~= Seq::<Seq<char>>::empty());
    assert(first + path_views(objects@).take(0) =~= first);
    while i < objects.len()
        invariant
            i <= objects.len(),
            path_views(sources@) == first + path_views(objects@).take(i as int),
        decreases objects.len() - i,
    {
        let ghost before = path_views(sources@);
        sources.push(objects[i].cloned());
        assert(path_views(sources@) =~= before.push(objects@[i as int]@));
        assert(path_views(sources@) =~= first + path_views(objects@).take(i as int + 1));
        i += 1;
    }
    assert(path_views(objects@).take(objects.len() as int) =~= path_views(objects@));
    Ok(BuildTarget { name, target_type, sources, install, include_dirs, install_dir, flags })
}

/// The line that tells of a new target.
pub open spec fn target_line(t: BuildTargetView) -> Seq<char> {
    (match t.target_type {
        TargetType::StaticLibrary => "Created StaticLibrary: "@,
        TargetType::Executable => "Created Executable: "@,
    }) + t.name
}

/// What the declaration of a target does: the target that the arguments
/// describe is added to the objects, and the value that stands for it is
/// returned; nothing else changes. Where the arguments describe no
/// target, nothing changes at all.
pub open spec fn target_effect<O: Os, S: BuildSteps>(
    target_type: TargetType,
    before: &Interpreter<O, S>,
    after: &Interpreter<O, S>,
    args: Seq<ValueView>,
    kwargs: Seq<(Seq<char>, ValueView)>,
    r: Result<Value, InterpreterError>,
) -> bool {
    &&& after.variables == before.variables
    &&& after.options == before.options
    &&& after.meson == before.meson
    &&& after.break_flag == before.break_flag
    &&& after.continue_flag == before.continue_flag
    &&& match planned_target(
        target_type,
        args,
        kwargs,
        before.current_dir@,
        before.objs(),
        before.opts(),
    ) {
        Ok(t) => r matches Ok(v) && v@ == ValueView::Object(before.objects@.len() as usize)
            && after.objs() == before.objs().push(ObjectView::BuildTarget(t)),
        Err(e) => r matches Err(f) && f@ == e && after.objects == before.objects,
    }
}

/// Declares a target: works it out from the arguments, tells the system
/// and the backend of it, and adds it to the objects.
pub fn add_target_impl<O: Os, S: BuildSteps>(
    target_type: TargetType,
    args: &Vec<Value>,
    kwargs: &Vec<(String, Value)>,
    interp: &mut Interpreter<O, S>,
) -> (r: Result<Value, InterpreterError>)
    ensures
        kept(old(interp), final(interp)),
        target_effect(
            target_type,
            old(interp),
            final(interp),
            value_views(args@),
            pair_views(kwargs@),
            r,
        ),
{
    let target = match plan_target(target_type, args, kwargs, interp) {
        Ok(t) => t,
        Err(e) => return Err(e),
    };
    let line = concat(
        match target_type {
            TargetType::StaticLibrary => "Created StaticLibrary: ",
            TargetType::Executable => "Created Executable: ",
        },
        target.name.as_str(),
    );
    interp.os.print(line.as_str());
    match target_type {
        TargetType::StaticLibrary => interp.steps.build_static_library(&target),
        TargetType::Executable => interp.steps.build_executable(&target),
    }
    Ok(interp.add_object(Object::BuildTarget(target)))
}

/// `static_library(name, sources..., ...)`.
pub fn static_library<O: Os, S: BuildSteps>(
    args: &Vec<Value>,
    kwargs: &Vec<(String, Value)>,
    interp: &mut Interpreter<O, S>,
) -> (r: Result<Value, InterpreterError>)
    ensures
        kept(old(interp), final(interp)),
        target_effect(
            TargetType::StaticLibrary,
            old(interp),
            final(interp),
            value_views(args@),
            pair_views(kwargs@),
            r,
        ),
{
    add_target_impl(TargetType::StaticLibrary, args, kwargs, interp)
}

/// `executable(name, sources..., ...)`.
pub fn executable<O: Os, S: BuildSteps>(
    args: &Vec<Value>,
    kwargs: &Vec<(String, Value)>,
    interp: &mut Interpreter<O, S>,
) -> (r: Result<Value, InterpreterError>)
    ensures
        kept(old(interp), final(interp)),
        target_effect(
            TargetType::Executable,
            old(interp),
            final(interp),
            value_views(args@),
            pair_views(kwargs@),
            r,
        ),
{
    add_target_impl(TargetType::Executable, args, kwargs, interp)
}

/// `custom_target(...)`: declares nothing and gives nothing.
pub fn custom_target(args: &Vec<Value>, kwargs: &Vec<(String, Value)>) -> (r: Result<
    Value,
    InterpreterError,
>)
    ensures
        same_result(r, Ok(ValueView::Nothing)),
{
    Ok(Value::Nothing)
}

/// The name of the file that a target is built into: the name of a
/// program, `lib` and the name and `.a` for a static library.
pub open spec fn output_name(t: BuildTargetView) -> Seq<char> {
    match t.target_type {
        TargetType::StaticLibrary => "lib"@ + t.name + ".a"@,
        TargetType::Executable => t.name,
    }
}

impl BuildTarget {
    /// `t.extract_objects()`: the objects of the target, named by its
    /// sources.
    pub fn extract_objects(&self) -> (r: ExtractedObjects)
        ensures
            path_views(r.sources@) == path_views(self.sources@),
    {
        ExtractedObjects { sources: clone_paths(&self.sources) }
    }

    /// `t.extract_all_objects()`: the objects of the target, named by its
    /// sources.
    pub fn extract_all_objects(&self) -> (r: ExtractedObjects)
        ensures
            path_views(r.sources@) == path_views(self.sources@),
    {
        ExtractedObjects { sources: clone_paths(&self.sources) }
    }

    /// `t.full_path()`: the path of the file that the target is built
    /// into, within the directory of the build.
    pub fn full_path(&self, build_dir: &Path) -> (r: Value)
        ensures
            r@ == ValueView::String(joined(build_dir@, output_name(self@))),
    {
        let name = match self.target_type {
            TargetType::StaticLibrary => concat3("lib", self.name.as_str(), ".a"),
            TargetType::Executable => self.name.clone(),
        };
        Value::String(build_dir.join(name.as_str()).to_string())
    }
}

} // verus!
