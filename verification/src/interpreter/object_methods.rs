//! The methods of objects.

use vstd::prelude::*;
use crate::interpreter::builtins::compiler::get_compiler;
use crate::interpreter::builtins::config_data::entries_of_dict;

use crate::interpreter::builtins::version::version;
use crate::interpreter::error::{
    InterpreterError, ErrorView, type_error, runtime_error, same_result,
};
use crate::interpreter::methods::{
    unknown_method, unknown_method_error, reading_method, has_method, method_contract,
    changing_method, creating_method, project_method, merge_entries, made_by, asking_method,
};
use crate::interpreter::builtins::option::BuildOption;
use crate::interpreter::objects::{
    Object, ObjectView, object_views, kind_name, ConfigData, ConfigEntry, Env, Machine,
    Compiler, BuildTarget, ExternalProgram, RunResult, VersionNumber, FileSystem, config_views,
    text_pairs, ExtractedObjects,
};
use crate::interpreter::state::{Interpreter, Meson, kept};
use crate::interpreter::value::{Value, ValueView, value_views, pair_views};
use crate::os::Os;
use crate::steps::BuildSteps;
use crate::text::{str_eq, concat};

verus! {

/// What a method call comes to: an answer, a new object, which is then the
/// answer, or the receiver in a new state, the answer being nothing.
pub enum Effect {
    Answer(Result<Value, InterpreterError>),
    Create(Object),
    Change(Object),
}

/// What the promises of method calls speak of, besides the receiver and
/// the method: the arguments, the project and the objects.
pub struct CallView {
    pub args: Seq<ValueView>,
    pub kwargs: Seq<(Seq<char>, ValueView)>,
    pub meson: Meson,
    pub objs: Seq<ObjectView>,
    pub opts: Map<Seq<char>, BuildOption>,
}

/// Whether the effect `r` of the method `method` on the object `o` keeps
/// the promises of method calls.
pub open spec fn effect_ok(o: ObjectView, method: Seq<char>, call: CallView, r: Effect) -> bool {
    match r {
        Effect::Answer(res) => {
            &&& !has_method(o, method) ==> (res matches Err(e) && e@ == unknown_method(
                method,
                kind_name(o) + " object"@,
            ))
            &&& reading_method(o, method, call.args) matches Some(x) ==> same_result(res, x)
            &&& project_method(o, call.meson, method, call.args) matches Some(x) ==> same_result(
                res,
                x,
            )
            &&& changing_method(o, method, call.args, call.kwargs, call.objs) matches Some(x)
                ==> (x matches Err(e) && res matches Err(f) && f@ == e)
            &&& creating_method(o, method) is None
            &&& asking_method(o, method, call.args, call.kwargs, call.opts, res)
        },
        Effect::Create(made) => {
            &&& has_method(o, method)
            &&& reading_method(o, method, call.args) is None
            &&& project_method(o, call.meson, method, call.args) is None
            &&& changing_method(o, method, call.args, call.kwargs, call.objs) is None
            &&& creating_method(o, method) matches Some(x) ==> made@ == x
            &&& made_by(o, method, call.args, call.opts, made@)
        },
        Effect::Change(changed) => {
            &&& has_method(o, method)
            &&& reading_method(o, method, call.args) is None
            &&& project_method(o, call.meson, method, call.args) is None
            &&& creating_method(o, method) is None
            &&& changing_method(o, method, call.args, call.kwargs, call.objs) == Some(
                Ok::<ObjectView, ErrorView>(changed@),
            )
        },
    }
}

/// What a call with the arguments `args` and `kwargs` speaks of.
pub open spec fn call_of<O: Os, S: BuildSteps>(
    interp: &Interpreter<O, S>,
    args: Seq<ValueView>,
    kwargs: Seq<(Seq<char>, ValueView)>,
) -> CallView {
    CallView { args, kwargs, meson: interp.meson, objs: interp.objs(), opts: interp.opts() }
}

/// The error for a method that an object of the kind `kind` does not have.
fn no_method(method: &str, kind: &str) -> (r: Effect)
    ensures
        r matches Effect::Answer(Err(e)) && e@ == unknown_method(method@, kind@ + " object"@),
{
    let receiver = concat(kind, " object");
    Effect::Answer(Err(unknown_method_error(method, receiver.as_str())))
}

/// The methods of machines.
fn machine_effect<O: Os, S: BuildSteps>(
    m: &Machine,
    method: &str,
    args: &Vec<Value>,
    kwargs: &Vec<(String, Value)>,
    interp: &Interpreter<O, S>,
) -> (r: Effect)
    requires
        method@ != "to_string"@,
    ensures
        effect_ok(
            Object::Machine(*m)@,
            method@,
            call_of(interp, value_views(args@), pair_views(kwargs@)),
            r,
        ),
{
    if str_eq(method, "system") {
        Effect::Answer(Ok(m.system()))
    } else if str_eq(method, "cpu_family") {
        Effect::Answer(Ok(m.cpu_family()))
    } else if str_eq(method, "cpu") {
        Effect::Answer(Ok(m.cpu()))
    } else if str_eq(method, "endian") {
        Effect::Answer(Ok(m.endian()))
    } else {
        no_method(method, "Machine")
    }
}

/// The methods of the results of commands.
fn run_result_effect<O: Os, S: BuildSteps>(
    x: &RunResult,
    method: &str,
    args: &Vec<Value>,
    kwargs: &Vec<(String, Value)>,
    interp: &Interpreter<O, S>,
) -> (r: Effect)
    requires
        method@ != "to_string"@,
    ensures
        effect_ok(
            Object::RunResult(*x)@,
            method@,
            call_of(interp, value_views(args@), pair_views(kwargs@)),
            r,
        ),
{
    if str_eq(method, "stdout") {
        Effect::Answer(Ok(x.stdout()))
    } else if str_eq(method, "stderr") {
        Effect::Answer(Ok(x.stderr()))
    } else if str_eq(method, "returncode") {
        Effect::Answer(Ok(x.returncode()))
    } else {
        no_method(method, "RunResult")
    }
}

/// The methods of programs.
fn program_effect<O: Os, S: BuildSteps>(
    p: &ExternalProgram,
    method: &str,
    args: &Vec<Value>,
    kwargs: &Vec<(String, Value)>,
    interp: &Interpreter<O, S>,
) -> (r: Effect)
    requires
        method@ != "to_string"@,
    ensures
        effect_ok(
            Object::ExternalProgram(*p)@,
            method@,
            call_of(interp, value_views(args@), pair_views(kwargs@)),
            r,
        ),
{
    if str_eq(method, "found") {
        Effect::Answer(Ok(p.found()))
    } else if str_eq(method, "full_path") {
        Effect::Answer(Ok(p.full_path()))
    } else {
        no_method(method, "ExternalProgram")
    }
}

/// The methods of versions.
fn version_effect<O: Os, S: BuildSteps>(
    v: &VersionNumber,
    method: &str,
    args: &Vec<Value>,
    kwargs: &Vec<(String, Value)>,
    interp: &Interpreter<O, S>,
) -> (r: Effect)
    requires
        method@ != "to_string"@,
    ensures
        effect_ok(
            Object::VersionNumber(*v)@,
            method@,
            call_of(interp, value_views(args@), pair_views(kwargs@)),
            r,
        ),
{
    if str_eq(method, "version_compare") {
        Effect::Answer(v.version_compare(args))
    } else {
        no_method(method, "Version")
    }
}

/// The methods of targets.
fn target_effect<O: Os, S: BuildSteps>(
    t: &BuildTarget,
    method: &str,
    args: &Vec<Value>,
    kwargs: &Vec<(String, Value)>,
    interp: &Interpreter<O, S>,
) -> (r: Effect)
    requires
        method@ != "to_string"@,
    ensures
        effect_ok(
            Object::BuildTarget(*t)@,
            method@,
            call_of(interp, value_views(args@), pair_views(kwargs@)),
            r,
        ),
{
    if str_eq(method, "extract_objects") {
        Effect::Create(Object::ExtractedObjects(t.extract_objects()))
    } else if str_eq(method, "extract_all_objects") {
        Effect::Create(Object::ExtractedObjects(t.extract_all_objects()))
    } else if str_eq(method, "full_path") {
        Effect::Answer(Ok(t.full_path(&interp.meson.build_dir)))
    } else {
        no_method(method, "BuildTarget")
    }
}

/// The methods of the module `fs`.
fn filesystem_effect<O: Os, S: BuildSteps>(
    fs: &FileSystem,
    method: &str,
    args: &Vec<Value>,
    kwargs: &Vec<(String, Value)>,
    interp: &Interpreter<O, S>,
) -> (r: Effect)
    requires
        method@ != "to_string"@,
    ensures
        effect_ok(
            ObjectView::FileSystem,
            method@,
            call_of(interp, value_views(args@), pair_views(kwargs@)),
            r,
        ),
{
    if str_eq(method, "replace_suffix") {
        Effect::Answer(fs.replace_suffix(args))
    } else if str_eq(method, "exists") {
        Effect::Answer(fs.path_exists(args, interp))
    } else if str_eq(method, "is_file") {
        Effect::Answer(fs.is_file(args, interp))
    } else if str_eq(method, "is_dir") {
        Effect::Answer(fs.is_dir(args, interp))
    } else {
        no_method(method, "FileSystem")
    }
}

/// The methods of compilers.
fn compiler_effect<O: Os, S: BuildSteps>(
    c: &Compiler,
    method: &str,
    args: &Vec<Value>,
    kwargs: &Vec<(String, Value)>,
    interp: &Interpreter<O, S>,
) -> (r: Effect)
    requires
        method@ != "to_string"@,
    ensures
        effect_ok(
            Object::Compiler(*c)@,
            method@,
            call_of(interp, value_views(args@), pair_views(kwargs@)),
            r,
        ),
{
    if str_eq(method, "get_linker_id") {
        Effect::Answer(Ok(c.get_linker_id()))
    } else if str_eq(method, "get_id") {
        Effect::Answer(c.get_id(interp))
    } else if str_eq(method, "cmd_array") {
        Effect::Answer(Ok(c.cmd_array()))
    } else if str_eq(method, "has_argument") {
        Effect::Answer(c.has_argument(args, kwargs, interp))
    } else if str_eq(method, "get_supported_arguments") {
        Effect::Answer(c.get_supported_arguments(args, interp))
    } else if str_eq(method, "has_function") {
        Effect::Answer(c.has_function(args, kwargs, interp))
    } else if str_eq(method, "has_link_argument") {
        Effect::Answer(c.has_link_argument(args, interp))
    } else if str_eq(method, "has_multi_link_arguments") {
        Effect::Answer(c.has_multi_link_arguments(args, interp))
    } else if str_eq(method, "symbols_have_underscore_prefix") {
        Effect::Answer(c.symbols_have_underscore_prefix(interp))
    } else if str_eq(method, "compiles") {
        Effect::Answer(c.compiles(args, kwargs, interp))
    } else if str_eq(method, "links") {
        Effect::Answer(c.links(args, kwargs, interp))
    } else {
        no_method(method, "Compiler")
    }
}

/// The methods of the project.
fn meson_effect<O: Os, S: BuildSteps>(
    method: &str,
    args: &Vec<Value>,
    kwargs: &Vec<(String, Value)>,
    interp: &Interpreter<O, S>,
) -> (r: Effect)
    requires
        method@ != "to_string"@,
    ensures
        effect_ok(
            ObjectView::Meson,
            method@,
            call_of(interp, value_views(args@), pair_views(kwargs@)),
            r,
        ),
{
    if str_eq(method, "version") {
        match version("1.3.0") {
            Ok(v) => Effect::Create(Object::VersionNumber(v)),
            Err(e) => Effect::Answer(Err(e)),
        }
    } else if str_eq(method, "is_subproject") {
        Effect::Answer(Ok(Value::Boolean(false)))
    } else if str_eq(method, "get_compiler") {
        match get_compiler(args, interp) {
            Ok(c) => Effect::Create(Object::Compiler(c)),
            Err(e) => Effect::Answer(Err(e)),
        }
    } else if str_eq(method, "get_cross_property") {
        Effect::Answer(
            Ok(
                if args.len() > 1 {
                    args[1].cloned()
                } else {
                    Value::Nothing
                },
            ),
        )
    } else if str_eq(method, "project_version") {
        Effect::Answer(Ok(Value::String(interp.meson.project_version.clone())))
    } else if str_eq(method, "current_build_dir") {
        Effect::Answer(Ok(Value::String(interp.meson.build_dir.to_string())))
    } else if str_eq(method, "current_source_dir") {
        Effect::Answer(Ok(Value::String(interp.meson.source_dir.to_string())))
    } else {
        no_method(method, "Meson")
    }
}

/// The entries that `merge_from(other)` takes in: those of other
/// configuration data, or those of a dict.
fn merge_source(args: &Vec<Value>, objects: &Vec<Object>) -> (r: Result<
    Vec<ConfigEntry>,
    InterpreterError,
>)
    ensures
        match r {
            Ok(more) => merge_entries(value_views(args@), object_views(objects@)) == Ok::<
                Seq<crate::interpreter::objects::ConfigEntryView>,
                ErrorView,
            >(config_views(more@)),
            Err(e) => merge_entries(value_views(args@), object_views(objects@)) == Err::<
                Seq<crate::interpreter::objects::ConfigEntryView>,
                ErrorView,
            >(e@),
        },
{
    if args.len() == 0 {
        return Err(
            type_error(
                "merge_from requires a ConfigData object or a dict as the first argument",
            ),
        );
    }
    match &args[0] {
        Value::Object(h) => {
            if *h < objects.len() {
                match &objects[*h] {
                    Object::ConfigData(other) => Ok(other.entries()),
                    _ => Err(type_error("merge_from requires a ConfigData object or a dict")),
                }
            } else {
                Err(type_error("merge_from requires a ConfigData object or a dict"))
            }
        },
        Value::Dict(entries) => Ok(entries_of_dict(entries)),
        _ => Err(type_error("merge_from requires a ConfigData object or a dict")),
    }
}

/// The methods of configuration data.
fn config_effect<O: Os, S: BuildSteps>(
    c: &ConfigData,
    method: &str,
    args: &Vec<Value>,
    kwargs: &Vec<(String, Value)>,
    interp: &Interpreter<O, S>,
) -> (r: Effect)
    requires
        method@ != "to_string"@,
    ensures
        effect_ok(
            Object::ConfigData(*c)@,
            method@,
            call_of(interp, value_views(args@), pair_views(kwargs@)),
            r,
        ),
{
    if str_eq(method, "get") {
        Effect::Answer(c.get(args))
    } else if str_eq(method, "set") {
        let mut changed = ConfigData { data: c.entries() };
        match changed.set(args, kwargs) {
            Ok(_) => Effect::Change(Object::ConfigData(changed)),
            Err(e) => Effect::Answer(Err(e)),
        }
    } else if str_eq(method, "set10") {
        let mut changed = ConfigData { data: c.entries() };
        match changed.set10(args, kwargs) {
            Ok(_) => Effect::Change(Object::ConfigData(changed)),
            Err(e) => Effect::Answer(Err(e)),
        }
    } else if str_eq(method, "merge_from") {
        match merge_source(args, &interp.objects) {
            Ok(more) => {
                let mut changed = ConfigData { data: c.entries() };
                changed.merge(more);
                Effect::Change(Object::ConfigData(changed))
            },
            Err(e) => Effect::Answer(Err(e)),
        }
    } else {
        no_method(method, "ConfigData")
    }
}

/// Copies the variables of an environment.
fn clone_vars(vars: &Vec<(String, String)>) -> (r: Vec<(String, String)>)
    ensures
        text_pairs(r@) == text_pairs(vars@),
{
    let mut out: Vec<(String, String)> = Vec::new();
    let mut i: usize = 0;
    while i < vars.len()
        invariant
            i <= vars.len(),
            out@.len() == i,
            forall|j: int| 0 <= j < i ==> out@[j].0@ == vars@[j].0@ && out@[j].1@ == vars@[j].1@,
        decreases vars.len() - i,
    {
        out.push((vars[i].0.clone(), vars[i].1.clone()));
        i += 1;
    }
    assert(text_pairs(out@) =~= text_pairs(vars@));
    out
}

/// The methods of environments.
fn env_effect<O: Os, S: BuildSteps>(
    e: &Env,
    method: &str,
    args: &Vec<Value>,
    kwargs: &Vec<(String, Value)>,
    interp: &Interpreter<O, S>,
) -> (r: Effect)
    requires
        method@ != "to_string"@,
    ensures
        effect_ok(
            Object::Env(*e)@,
            method@,
            call_of(interp, value_views(args@), pair_views(kwargs@)),
            r,
        ),
{
    if str_eq(method, "prepend") {
        let mut changed = Env { vars: clone_vars(&e.vars) };
        match changed.prepend(args, kwargs) {
            Ok(_) => Effect::Change(Object::Env(changed)),
            Err(err) => Effect::Answer(Err(err)),
        }
    } else {
        no_method(method, "Env")
    }
}

impl<O: Os, S: BuildSteps> Interpreter<O, S> {
    /// What the method `method` of the object with the handle `handle`
    /// comes to.
    pub fn object_effect(
        &self,
        handle: usize,
        method: &str,
        args: &Vec<Value>,
        kwargs: &Vec<(String, Value)>,
    ) -> (r: Effect)
        requires
            handle < self.objects@.len(),
            method@ != "to_string"@,
        ensures
            effect_ok(
                self.objs()[handle as int],
                method@,
                call_of(self, value_views(args@), pair_views(kwargs@)),
                r,
            ),
    {
        match &self.objects[handle] {
            Object::Meson => meson_effect(method, args, kwargs, self),
            Object::Machine(m) => machine_effect(m, method, args, kwargs, self),
            Object::Compiler(c) => compiler_effect(c, method, args, kwargs, self),
            Object::BuildTarget(t) => target_effect(t, method, args, kwargs, self),
            Object::ExtractedObjects(_) => no_method(method, "ExtractedObjects"),
            Object::ConfigData(c) => config_effect(c, method, args, kwargs, self),
            Object::Env(e) => env_effect(e, method, args, kwargs, self),
            Object::ExternalProgram(p) => program_effect(p, method, args, kwargs, self),
            Object::RunResult(x) => run_result_effect(x, method, args, kwargs, self),
            Object::VersionNumber(v) => version_effect(v, method, args, kwargs, self),
            Object::File(_) => no_method(method, "File"),
            Object::IncludeDirectories(_) => no_method(method, "IncludeDirectories"),
            Object::FileSystem(fs) => filesystem_effect(fs, method, args, kwargs, self),
        }
    }

    /// Calls the method `method` of the object with the handle `handle`.
    /// Every object has the method `to_string`, which gives its text.
    pub fn call_object_method(
        &mut self,
        handle: usize,
        method: &str,
        args: &Vec<Value>,
        kwargs: &Vec<(String, Value)>,
    ) -> (r: Result<Value, InterpreterError>)
        ensures
            kept(old(self), final(self)),
            final(self).variables == old(self).variables,
            final(self).options == old(self).options,
            final(self).meson == old(self).meson,
            final(self).break_flag == old(self).break_flag,
            final(self).continue_flag == old(self).continue_flag,
            final(self).current_dir == old(self).current_dir,
            final(self).build_dir == old(self).build_dir,
            final(self).depth_left == old(self).depth_left,
            method_contract(
                old(self),
                final(self),
                handle,
                method@,
                value_views(args@),
                pair_views(kwargs@),
                r,
            ),
    {
        if handle >= self.objects.len() {
            return Err(runtime_error("No such object"));
        }
        if str_eq(method, "to_string") {
            return Ok(Value::String(self.objects[handle].to_string()));
        }
        let ghost before = self.objs();
        match self.object_effect(handle, method, args, kwargs) {
            Effect::Answer(r) => r,
            Effect::Create(o) => {
                let v = self.add_object(o);
                assert(self.objs().drop_last() =~= before);
                assert(self.objs().last() == o@);
                Ok(v)
            },
            Effect::Change(o) => {
                self.objects.set(handle, o);
                assert(self.objs() =~= before.update(handle as int, o@));
                Ok(Value::Nothing)
            },
        }
    }
}

} // verus!
