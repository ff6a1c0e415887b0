//! `configure_file()` and `configuration_data()`.

use vstd::prelude::*;
use vstd::utf8::{valid_utf8, decode_utf8};
use crate::assoc::lookup;
use crate::interpreter::builtins::args::{
    kwarg, string_kwarg, bool_kwarg, take_string_kwarg, take_bool_kwarg,
};
use crate::interpreter::builtins::build_target::{dir_option, get_dir};
use crate::interpreter::builtins::config_data::{
    ConfigureFile, header_text, template_text, configure_no_template, configure_with_template,
};
use crate::interpreter::builtins::option::BuildOption;
use crate::interpreter::error::{
    InterpreterError, ErrorView, ErrorContext, type_error, runtime_error, caused,
};
use crate::interpreter::objects::{
    Object, ObjectView, ConfigData, ConfigEntryView, config_views,
};
use crate::interpreter::state::Interpreter;
use crate::interpreter::value::{Value, ValueView, pair_views};
use crate::os::{Os, outcome_of};
use crate::path::{Path, joined, slashed};
use crate::steps::BuildSteps;
use crate::text::{concat, utf8_text};

verus! {

/// What `configure_file()` is to do, as its arguments tell it.
pub struct ConfigurePlan {
    /// The template, where one is given.
    pub input: Option<Path>,
    /// The name of the file to write.
    pub output: Path,
    /// The handle of the configuration data.
    pub configuration: usize,
    pub install_dir: Path,
    pub install: bool,
}

/// A plan as a mathematical value.
pub struct ConfigurePlanView {
    pub input: Option<Seq<char>>,
    pub output: Seq<char>,
    pub configuration: usize,
    pub install_dir: Seq<char>,
    pub install: bool,
}

impl View for ConfigurePlan {
    type V = ConfigurePlanView;

    open spec fn view(&self) -> ConfigurePlanView {
        ConfigurePlanView {
            input: template_of(self.input),
            output: self.output@,
            configuration: self.configuration,
            install_dir: self.install_dir@,
            install: self.install,
        }
    }
}

/// The handle of the configuration data that `configuration:` names.
pub open spec fn configuration_handle(
    kwargs: Seq<(Seq<char>, ValueView)>,
    objs: Seq<ObjectView>,
) -> Result<usize, ErrorView> {
    match lookup(kwargs, "configuration"@) {
        None => Err(
            ErrorView::TypeError(
                "configure_file requires a 'configuration' keyword argument of type ConfigData"@,
            ),
        ),
        Some(ValueView::Object(h)) => if h < objs.len() && objs[h as int] is ConfigData {
            Ok(h)
        } else {
            Err(ErrorView::TypeError("Object type mismatch, expected ConfigData"@))
        },
        Some(_) => Err(ErrorView::TypeError("Expected an object"@)),
    }
}

/// What `configure_file(output: ..., configuration: ..., input: ...,
/// install_dir: ..., install: ...)` is to do. The first argument that is
/// missing or of the wrong kind gives the error, in the order `input`,
/// `output`, `configuration`, the option `prefix`, `install_dir`,
/// `install`. The file is installed under the prefix.
pub open spec fn configure_plan(
    kwargs: Seq<(Seq<char>, ValueView)>,
    cwd: Seq<char>,
    objs: Seq<ObjectView>,
    opts: Map<Seq<char>, BuildOption>,
) -> Result<ConfigurePlanView, ErrorView> {
    match string_kwarg(
        kwargs,
        "input"@,
        "configure_file 'input' keyword argument must be a string"@,
    ) {
        Err(e) => Err(e),
        Ok(input) => match string_kwarg(
            kwargs,
            "output"@,
            "configure_file 'output' keyword argument must be a string"@,
        ) {
            Err(e) => Err(e),
            Ok(None) => Err(
                ErrorView::TypeError("configure_file requires an 'output' keyword argument"@),
            ),
            Ok(Some(output)) => match configuration_handle(kwargs, objs) {
                Err(e) => Err(e),
                Ok(handle) => match dir_option(opts, "prefix"@) {
                    Err(e) => Err(e),
                    Ok(None) => Err(
                        ErrorView::RuntimeError("Could not determine installation prefix"@),
                    ),
                    Ok(Some(prefix)) => match string_kwarg(
                        kwargs,
                        "install_dir"@,
                        "configure_file 'install_dir' keyword argument must be a string"@,
                    ) {
                        Err(e) => Err(e),
                        Ok(dir) => match bool_kwarg(
                            kwargs,
                            "install"@,
                            "configure_file 'install' keyword argument must be a bool"@,
                        ) {
                            Err(e) => Err(e),
                            Ok(install) => Ok(
                                ConfigurePlanView {
                                    input: match input {
                                        Some(i) => Some(joined(cwd, i)),
                                        None => None,
                                    },
                                    output: slashed(output),
                                    configuration: handle,
                                    install_dir: match dir {
                                        Some(d) => joined(slashed(prefix), d),
                                        None => Seq::empty(),
                                    },
                                    install: match install {
                                        Some(b) => b,
                                        None => false,
                                    },
                                },
                            ),
                        },
                    },
                },
            },
        }
    }
}

/// Works out what `configure_file()` is to do.
pub fn plan_configure<O: Os, S: BuildSteps>(
    kwargs: &Vec<(String, Value)>,
    interp: &Interpreter<O, S>,
) -> (r: Result<ConfigurePlan, InterpreterError>)
    ensures
        match r {
            Ok(p) => configure_plan(
                pair_views(kwargs@),
                interp.current_dir@,
                interp.objs(),
                interp.opts(),
            ) == Ok::<ConfigurePlanView, ErrorView>(p@),
            Err(e) => configure_plan(
                pair_views(kwargs@),
                interp.current_dir@,
                interp.objs(),
                interp.opts(),
            ) == Err::<ConfigurePlanView, ErrorView>(e@),
        },
{
    let input = match take_string_kwarg(
        kwargs,
        "input",
        "configure_file 'input' keyword argument must be a string",
    ) {
        Ok(Some(i)) => Some(interp.current_dir.join(i)),
        Ok(None) => None,
        Err(e) => return Err(e),
    };
    let output = match take_string_kwarg(
        kwargs,
        "output",
        "configure_file 'output' keyword argument must be a string",
    ) {
        Ok(Some(o)) => Path::from(o),
        Ok(None) => return Err(
            type_error("configure_file requires an 'output' keyword argument"),
        ),
        Err(e) => return Err(e),
    };
    let configuration = match kwarg(kwargs, "configuration") {
        None => return Err(
            type_error(
                "configure_file requires a 'configuration' keyword argument of type ConfigData",
            ),
        ),
        Some(v) => match v {
            Value::Object(h) => {
                if *h >= interp.objects.len() {
                    return Err(type_error("Object type mismatch, expected ConfigData"));
                }
                match &interp.objects[*h] {
                    Object::ConfigData(_) => *h,
                    _ => return Err(type_error("Object type mismatch, expected ConfigData")),
                }
            },
            _ => return Err(type_error("Expected an object")),
        },
    };
    let prefix = match get_dir(interp, "prefix") {
        Ok(Some(p)) => Path::from(p.as_str()),
        Ok(None) => return Err(runtime_error("Could not determine installation prefix")),
        Err(e) => return Err(e),
    };
    let install_dir = match take_string_kwarg(
        kwargs,
        "install_dir",
        "configure_file 'install_dir' keyword argument must be a string",
    ) {
        Ok(Some(d)) => prefix.join(d),
        Ok(None) => Path::new(),
        Err(e) => return Err(e),
    };
    let install = match take_bool_kwarg(
        kwargs,
        "install",
        "configure_file 'install' keyword argument must be a bool",
    ) {
        Ok(Some(b)) => b,
        Ok(None) => false,
        Err(e) => return Err(e),
    };
    Ok(ConfigurePlan { input, output, configuration, install_dir, install })
}

/// What the configured file holds: without a template the header that the
/// entries make; with a template, read as `read` tells, the template with
/// its placeholders replaced. A template that could not be read or is no
/// UTF-8 gives a runtime error.
pub open spec fn configured_content(
    input: Option<Seq<char>>,
    read: Result<Seq<u8>, Seq<char>>,
    entries: Seq<ConfigEntryView>,
) -> Result<Seq<char>, ErrorView> {
    match input {
        None => header_text(entries),
        Some(path) => match read {
            Err(cause) => Err(
                ErrorView::RuntimeError(caused("Failed to read input file: "@ + path, cause)),
            ),
            Ok(bytes) => if valid_utf8(bytes) {
                template_text(decode_utf8(bytes), entries)
            } else {
                Err(ErrorView::RuntimeError("Input file is not valid UTF-8"@))
            },
        },
    }
}

/// The path of the template, where there is one.
pub open spec fn template_of(input: Option<Path>) -> Option<Seq<char>> {
    match input {
        Some(p) => Some(p@),
        None => None,
    }
}

/// Makes what the configured file holds.
pub fn make_content(
    input: &Option<Path>,
    read: Result<Vec<u8>, String>,
    configuration: &ConfigData,
) -> (r: Result<String, InterpreterError>)
    ensures
        match r {
            Ok(s) => configured_content(
                template_of(*input),
                outcome_of(read),
                config_views(configuration.data@),
            ) == Ok::<Seq<char>, ErrorView>(s@),
            Err(e) => configured_content(
                template_of(*input),
                outcome_of(read),
                config_views(configuration.data@),
            ) == Err::<Seq<char>, ErrorView>(e@),
        },
{
    match input {
        None => configure_no_template(configuration),
        Some(path) => match read.context_runtime(
            concat("Failed to read input file: ", path.as_str()).as_str(),
        ) {
            Err(e) => Err(e),
            Ok(bytes) => match utf8_text(bytes) {
                Some(template) => configure_with_template(template, configuration),
                None => Err(runtime_error("Input file is not valid UTF-8")),
            },
        },
    }
}

/// Whether `r` is what `configure_file(...)` returns for a file with the
/// content `content`: nothing, or the error that stands in the place of
/// the content.
pub open spec fn configured_as(
    r: Result<Value, InterpreterError>,
    content: Result<Seq<char>, ErrorView>,
) -> bool {
    match content {
        Ok(_) => r matches Ok(v) && v@ == ValueView::Nothing,
        Err(e) => r matches Err(f) && f@ == e,
    }
}

/// What `configure_file(...)` returns: the error of its arguments, where
/// they describe no file; else nothing or the error that
/// `configured_content` tells, for the header, or for the template as
/// reading it came out.
pub open spec fn configure_file_result<O: Os, S: BuildSteps>(
    interp: &Interpreter<O, S>,
    kwargs: Seq<(Seq<char>, ValueView)>,
    r: Result<Value, InterpreterError>,
) -> bool {
    match configure_plan(kwargs, interp.current_dir@, interp.objs(), interp.opts()) {
        Err(e) => r matches Err(f) && f@ == e,
        Ok(plan) => exists|read: Result<Seq<u8>, Seq<char>>|
            configured_as(
                r,
                #[trigger] configured_content(
                    plan.input,
                    read,
                    interp.objs()[plan.configuration as int]->ConfigData_data,
                ),
            ),
    }
}

/// The file that is handed to the backend: what the plan tells, with the
/// content, in the directory of the build.
pub fn file_of(plan: ConfigurePlan, content: String, build_dir: &Path) -> (r: ConfigureFile)
    ensures
        r.build_dir@ == build_dir@,
        r.filename@ == plan@.output,
        r.content@ == content@,
        r.install_dir@ == plan@.install_dir,
        r.install == plan@.install,
{
    ConfigureFile {
        build_dir: build_dir.cloned(),
        filename: plan.output,
        content,
        install_dir: plan.install_dir,
        install: plan.install,
    }
}

/// `configure_file(...)`: makes a file from configuration data and tells
/// the backend to write it.
pub fn configure_file<O: Os, S: BuildSteps>(
    kwargs: &Vec<(String, Value)>,
    interp: &Interpreter<O, S>,
) -> (r: Result<Value, InterpreterError>)
    ensures
        configure_file_result(interp, pair_views(kwargs@), r),
{
    let plan = match plan_configure(kwargs, interp) {
        Ok(p) => p,
        Err(e) => return Err(e),
    };
    let read: Result<Vec<u8>, String> = match &plan.input {
        Some(path) => interp.os.read_file(path),
        None => Err(String::new()),
    };
    let ghost outcome = outcome_of(read);
    let ghost entries = interp.objs()[plan.configuration as int]->ConfigData_data;
    let content = match &interp.objects[plan.configuration] {
        Object::ConfigData(c) => match make_content(&plan.input, read, c) {
            Ok(s) => s,
            Err(e) => {
                assert(configured_as(
                    Err::<Value, InterpreterError>(e),
                    configured_content(plan@.input, outcome, entries),
                ));
                return Err(e);
            },
        },
        _ => return Err(type_error("Object type mismatch, expected ConfigData")),
    };
    assert(configured_as(
        Ok::<Value, InterpreterError>(Value::Nothing),
        configured_content(plan@.input, outcome, entries),
    ));
    let file = file_of(plan, content, &interp.build_dir);
    interp.steps.configure_file(&file);
    Ok(Value::Nothing)
}

/// `configuration_data()`: new configuration data without entries.
pub fn configuration_data() -> (r: ConfigData)
    ensures
        config_views(r.data@) == Seq::<ConfigEntryView>::empty(),
        r.wf(),
{
    ConfigData::new()
}

} // verus!
