//! `project()` and `add_project_arguments()`.

use vstd::prelude::*;
use crate::assoc::{lookup, upsert, names, string_names, find_key};
use crate::interpreter::builtins::args::kwarg;
use crate::interpreter::builtins::string::{first_string, take_first_string};
use crate::interpreter::builtins::utils::{flat, flatten, all_strings, strings_of};
use crate::interpreter::error::{InterpreterError, ErrorView, type_error};
use crate::interpreter::objects::{string_views, clone_strings};
use crate::interpreter::state::{Interpreter, Meson, kept};
use crate::interpreter::value::{Value, ValueView, value_views, pair_views};
use crate::os::Os;
use crate::steps::BuildSteps;

verus! {

/// The version that `project()` declares: the string `version`, or
/// `0.0.0` where it is not given or given as nothing.
pub open spec fn declared_version(kwargs: Seq<(Seq<char>, ValueView)>) -> Result<
    Seq<char>,
    ErrorView,
> {
    match lookup(kwargs, "version"@) {
        None => Ok("0.0.0"@),
        Some(ValueView::Nothing) => Ok("0.0.0"@),
        Some(ValueView::String(s)) => Ok(s),
        Some(_) => Err(
            ErrorView::TypeError("Expected 'version' keyword argument to be a string"@),
        ),
    }
}

/// The name and the version that `project(name, version: ...)` declares.
pub open spec fn declared_project(
    args: Seq<ValueView>,
    kwargs: Seq<(Seq<char>, ValueView)>,
) -> Result<(Seq<char>, Seq<char>), ErrorView> {
    match first_string(args, "First argument to project must be a string"@) {
        Err(e) => Err(e),
        Ok(name) => match declared_version(kwargs) {
            Err(e) => Err(e),
            Ok(version) => Ok((name, version)),
        },
    }
}

/// Whether `after` differs from `before` in the project alone.
pub open spec fn only_project_changed<O: Os, S: BuildSteps>(
    before: &Interpreter<O, S>,
    after: &Interpreter<O, S>,
) -> bool {
    &&& after.variables == before.variables
    &&& after.options == before.options
    &&& after.objects == before.objects
    &&& after.current_dir == before.current_dir
    &&& after.build_dir == before.build_dir
    &&& after.break_flag == before.break_flag
    &&& after.continue_flag == before.continue_flag
    &&& after.depth_left == before.depth_left
    &&& after.meson.build_dir == before.meson.build_dir
    &&& after.meson.source_dir == before.meson.source_dir
    &&& after.meson.is_subproject == before.meson.is_subproject
}

/// What `project(name, version: ...)` does: it gives the project its name
/// and version, and changes nothing else.
pub open spec fn project_effect<O: Os, S: BuildSteps>(
    before: &Interpreter<O, S>,
    after: &Interpreter<O, S>,
    args: Seq<ValueView>,
    kwargs: Seq<(Seq<char>, ValueView)>,
    r: Result<Value, InterpreterError>,
) -> bool {
    &&& only_project_changed(before, after)
    &&& after.meson.project_args == before.meson.project_args
    &&& match declared_project(args, kwargs) {
        Ok(p) => r matches Ok(v) && v@ == ValueView::Nothing && after.meson.project_name@ == p.0
            && after.meson.project_version@ == p.1,
        Err(e) => r matches Err(f) && f@ == e && after.meson == before.meson,
    }
}

/// `project(name, version: ...)`: names the project.
pub fn project<O: Os, S: BuildSteps>(
    args: &Vec<Value>,
    kwargs: &Vec<(String, Value)>,
    interp: &mut Interpreter<O, S>,
) -> (r: Result<Value, InterpreterError>)
    ensures
        kept(old(interp), final(interp)),
        project_effect(old(interp), final(interp), value_views(args@), pair_views(kwargs@), r),
{
    let name = match take_first_string(args, "First argument to project must be a string") {
        Ok(s) => s,
        Err(e) => return Err(e),
    };
    let version = match kwarg(kwargs, "version") {
        None => String::from_str("0.0.0"),
        Some(v) => match v {
            Value::Nothing => String::from_str("0.0.0"),
            Value::String(s) => s.clone(),
            _ => return Err(type_error("Expected 'version' keyword argument to be a string")),
        },
    };
    interp.meson.project_version = version;
    interp.meson.project_name = String::from_str(name);
    Ok(Value::Nothing)
}

/// The views of the arguments of the project, by language.
pub open spec fn args_by_language(entries: Seq<(String, Vec<String>)>) -> Seq<
    (Seq<char>, Seq<Seq<char>>),
> {
    Seq::new(entries.len(), |i: int| (entries[i].0@, string_views(entries[i].1@)))
}

/// The table with `arguments` bound to each of the languages from the
/// index `i` on.
pub open spec fn bound_for(
    table: Seq<(Seq<char>, Seq<Seq<char>>)>,
    languages: Seq<Seq<char>>,
    arguments: Seq<Seq<char>>,
    i: int,
) -> Seq<(Seq<char>, Seq<Seq<char>>)>
    decreases languages.len() - i,
{
    if i < 0 || i >= languages.len() {
        table
    } else {
        bound_for(upsert(table, languages[i], arguments), languages, arguments, i + 1)
    }
}

/// The languages and the arguments that `add_project_arguments(args...,
/// language: ...)` names: both flattened, all strings.
pub open spec fn declared_arguments(
    args: Seq<ValueView>,
    kwargs: Seq<(Seq<char>, ValueView)>,
) -> Result<(Seq<Seq<char>>, Seq<Seq<char>>), ErrorView> {
    match all_strings(
        flat(
            match lookup(kwargs, "language"@) {
                Some(v) => seq![v],
                None => Seq::empty(),
            },
        ),
    ) {
        None => Err(ErrorView::TypeError("Expected a string"@)),
        Some(languages) => match all_strings(flat(args)) {
            None => Err(ErrorView::TypeError("Expected a string"@)),
            Some(arguments) => Ok((languages, arguments)),
        },
    }
}

impl Meson {
    /// Binds the arguments to the language.
    pub fn set_arguments(&mut self, language: String, arguments: Vec<String>)
        ensures
            args_by_language(final(self).project_args@) == upsert(
                args_by_language(old(self).project_args@),
                language@,
                string_views(arguments@),
            ),
            final(self).build_dir == old(self).build_dir,
            final(self).source_dir == old(self).source_dir,
            final(self).project_name == old(self).project_name,
            final(self).project_version == old(self).project_version,
            final(self).is_subproject == old(self).is_subproject,
    {
        let ghost before = args_by_language(self.project_args@);
        assert(names(before) =~= string_names(self.project_args@));
        match find_key(&self.project_args, language.as_str()) {
            Some(i) => {
                self.project_args.set(i, (language, arguments));
                assert(args_by_language(self.project_args@) =~= before.update(
                    i as int,
                    (language@, string_views(arguments@)),
                ));
            },
            None => {
                self.project_args.push((language, arguments));
                assert(args_by_language(self.project_args@) =~= before.push(
                    (language@, string_views(arguments@)),
                ));
            },
        }
    }

    /// The arguments bound to the language; none where none are bound.
    pub fn arguments_for(&self, language: &str) -> (r: Vec<String>)
        ensures
            string_views(r@) == match lookup(args_by_language(self.project_args@), language@) {
                Some(a) => a,
                None => Seq::empty(),
            },
    {
        assert(names(args_by_language(self.project_args@)) =~= string_names(self.project_args@));
        match find_key(&self.project_args, language) {
            Some(i) => clone_strings(&self.project_args[i].1),
            None => {
                let out: Vec<String> = Vec::new();
                assert(string_views(out@) =~= Seq::<Seq<char>>::empty());
                out
            },
        }
    }
}

/// What `add_project_arguments(args..., language: ...)` does: it binds
/// the arguments to each of the languages, and changes nothing else.
pub open spec fn project_arguments_effect<O: Os, S: BuildSteps>(
    before: &Interpreter<O, S>,
    after: &Interpreter<O, S>,
    args: Seq<ValueView>,
    kwargs: Seq<(Seq<char>, ValueView)>,
    r: Result<Value, InterpreterError>,
) -> bool {
    &&& only_project_changed(before, after)
    &&& after.meson.project_name == before.meson.project_name
    &&& after.meson.project_version == before.meson.project_version
    &&& match declared_arguments(args, kwargs) {
        Ok(d) => r matches Ok(v) && v@ == ValueView::Nothing && args_by_language(
            after.meson.project_args@,
        ) == bound_for(args_by_language(before.meson.project_args@), d.0, d.1, 0),
        Err(e) => r matches Err(f) && f@ == e && after.meson == before.meson,
    }
}

/// `add_project_arguments(args..., language: ...)`: the arguments are
/// those of every compilation in each of the languages.
pub fn add_project_arguments<O: Os, S: BuildSteps>(
    args: &Vec<Value>,
    kwargs: &Vec<(String, Value)>,
    interp: &mut Interpreter<O, S>,
) -> (r: Result<Value, InterpreterError>)
    ensures
        kept(old(interp), final(interp)),
        project_arguments_effect(
            old(interp),
            final(interp),
            value_views(args@),
            pair_views(kwargs@),
            r,
        ),
{
    let mut language: Vec<Value> = Vec::new();
    match kwarg(kwargs, "language") {
        Some(v) => {
            language.push(v.cloned());
            assert(value_views(language@) =~= seq![v@]);
        },
        None => {
            assert(value_views(language@) =~= Seq::<ValueView>::empty());
        },
    }
    let languages = match strings_of(&flatten(&language), "Expected a string") {
        Ok(l) => l,
        Err(e) => return Err(e),
    };
    let arguments = match strings_of(&flatten(args), "Expected a string") {
        Ok(a) => a,
        Err(e) => return Err(e),
    };
    let ghost start = args_by_language(interp.meson.project_args@);
    let ghost langs = string_views(languages@);
    let ghost argv = string_views(arguments@);
    let mut i: usize = 0;
    while i < languages.len()
        invariant
            i <= languages.len(),
            langs == string_views(languages@),
            argv == string_views(arguments@),
            kept(old(interp), interp),
            only_project_changed(old(interp), interp),
            interp.meson.project_name == old(interp).meson.project_name,
            interp.meson.project_version == old(interp).meson.project_version,
            bound_for(start, langs, argv, 0) == bound_for(
                args_by_language(interp.meson.project_args@),
                langs,
                argv,
                i as int,
            ),
        decreases languages.len() - i,
    {
        interp.meson.set_arguments(languages[i].clone(), clone_strings(&arguments));
        i += 1;
    }
    Ok(Value::Nothing)
}

} // verus!
