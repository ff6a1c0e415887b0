use std::cell::RefCell;
use std::collections::HashMap;
use std::rc::Rc;

use picomeson::interpreter::builtins::compiler::{
    family_answer, has_argument_answer, make_compiler, plan_argument_probe, plan_compile_probe, plan_function_check,
    plan_id_probe, plan_link_check, plan_link_probe, plan_underscore_probe, prefix_answer,
};
use picomeson::interpreter::builtins::config_data::{configure_no_template, configure_with_template, ConfigureFile};
use picomeson::interpreter::builtins::option::get_option;
use picomeson::interpreter::builtins::variable::{get_variable, is_variable};
use picomeson::interpreter::builtins::version::{compare_answer, version};
use picomeson::interpreter::error::InterpreterError;
use picomeson::interpreter::eval::{load_statements, run_interpreter};
use picomeson::interpreter::objects::{BuildTarget, ConfigData, ConfigEntry, Object, TargetType};
use picomeson::interpreter::state::{machine_answer, Interpreter};
use picomeson::interpreter::value::Value;
use picomeson::os::{CompilerInfo, MachineInfo, Os, RunCommandOutput, TempDir};
use picomeson::parser::{parse_meson_file, Statement, Value as Expr};
use picomeson::path::Path;
use picomeson::steps::BuildSteps;
use picomeson::Meson;

#[derive(Clone, Default)]
struct FakeOs {
    files: Rc<RefCell<HashMap<String, Vec<u8>>>>,
    printed: Rc<RefCell<Vec<String>>>,
    commands: Rc<RefCell<Vec<(String, Vec<String>)>>>,
    rejected: Rc<RefCell<Vec<String>>>,
    temp_dirs: Rc<RefCell<usize>>,
}

impl FakeOs {
    fn with_file(self, path: &str, content: &str) -> Self {
        self.files.borrow_mut().insert(path.to_string(), content.as_bytes().to_vec());
        self
    }

    fn rejecting(self, flag: &str) -> Self {
        self.rejected.borrow_mut().push(flag.to_string());
        self
    }
}

impl Os for FakeOs {
    type TempHandle = ();

    fn print(&self, msg: &str) {
        self.printed.borrow_mut().push(msg.to_string());
    }

    fn get_env(&self, _key: &str) -> Option<String> {
        None
    }

    fn build_machine(&self) -> Result<MachineInfo, String> {
        Ok(MachineInfo { system: "linux".to_string(), cpu: "x86_64".to_string(), endian: "little".to_string() })
    }

    fn host_machine(&self) -> Result<MachineInfo, String> {
        Ok(MachineInfo { system: "baremetal".to_string(), cpu: "arm".to_string(), endian: "big".to_string() })
    }

    fn default_prefix(&self) -> Result<Path, String> {
        Ok(Path::from("/usr/local"))
    }

    fn is_file(&self, path: &Path) -> Result<bool, String> {
        Ok(self.files.borrow().contains_key(path.as_str()))
    }

    fn is_dir(&self, path: &Path) -> Result<bool, String> {
        Err(format!("cannot tell of {}", path.as_str()))
    }

    fn path_exists(&self, path: &Path) -> Result<bool, String> {
        Ok(self.files.borrow().contains_key(path.as_str()))
    }

    fn read_file(&self, path: &Path) -> Result<Vec<u8>, String> {
        match self.files.borrow().get(path.as_str()) {
            Some(bytes) => Ok(bytes.clone()),
            None => Err(format!("no file {}", path.as_str())),
        }
    }

    fn write_file(&self, path: &Path, data: &Vec<u8>) -> Result<(), String> {
        self.files.borrow_mut().insert(path.as_str().to_string(), data.clone());
        Ok(())
    }

    fn tempdir(&self) -> Result<TempDir<()>, String> {
        let mut n = self.temp_dirs.borrow_mut();
        *n += 1;
        Ok(TempDir::new(Path::from(format!("/tmp/probe{}", *n).as_str()), ()))
    }

    fn get_compiler(&self, lang: &str) -> Result<CompilerInfo, String> {
        match lang {
            "c" => Ok(CompilerInfo { bin: Path::from("cc"), flags: vec!["-pipe".to_string()] }),
            _ => Err(format!("Unsupported language: {}", lang)),
        }
    }

    fn find_program(&self, name: &Path, _pwd: &Path) -> Result<Path, String> {
        if name.as_str() == "sh" {
            Ok(Path::from("/bin/sh"))
        } else {
            Err(format!("Not found: {}", name.as_str()))
        }
    }

    fn run_command(&self, cmd: &Path, args: &Vec<String>) -> Result<RunCommandOutput, String> {
        self.commands.borrow_mut().push((cmd.as_str().to_string(), args.clone()));
        if cmd.as_str() == "missing" {
            return Err("no such program".to_string());
        }
        if cmd.as_str() != "cc" {
            return Ok(RunCommandOutput { stdout: format!("ran {}", args.join(" ")), stderr: "warn".to_string(), returncode: 3 });
        }
        let rejected = self.rejected.borrow();
        if args.iter().any(|a| rejected.contains(a)) {
            return Ok(RunCommandOutput { stdout: String::new(), stderr: "unknown argument".to_string(), returncode: 1 });
        }
        if args.iter().any(|a| a == "-E") {
            let input = args.iter().find(|a| a.contains("input.")).unwrap();
            let source = String::from_utf8(self.files.borrow().get(input).unwrap().clone()).unwrap();
            let out = args[args.iter().position(|a| a == "-o").unwrap() + 1].clone();
            let text = if source.contains("__USER_LABEL_PREFIX__") {
                "# 1 \"input.c\"\n\"MESON_DELIMITER\"_\n"
            } else {
                "# 1 \"input.c\"\n\"MESON_DELIMITER\"\ngcc\n"
            };
            self.files.borrow_mut().insert(out, text.as_bytes().to_vec());
        }
        Ok(RunCommandOutput { stdout: String::new(), stderr: String::new(), returncode: 0 })
    }
}

#[derive(Clone, Default)]
struct FakeSteps {
    configured: Rc<RefCell<Vec<(String, String, String, bool)>>>,
    headers: Rc<RefCell<Vec<(String, Vec<String>)>>>,
    targets: Rc<RefCell<Vec<(String, Vec<String>)>>>,
}

impl BuildSteps for FakeSteps {
    fn build_static_library(&self, target: &BuildTarget) {
        self.targets
            .borrow_mut()
            .push((format!("lib:{}", target.name), target.sources.iter().map(|p| p.as_str().to_string()).collect()));
    }

    fn build_executable(&self, target: &BuildTarget) {
        self.targets
            .borrow_mut()
            .push((format!("exe:{}", target.name), target.sources.iter().map(|p| p.as_str().to_string()).collect()));
    }

    fn configure_file(&self, file: &ConfigureFile) {
        self.configured.borrow_mut().push((
            file.filename.as_str().to_string(),
            file.content.clone(),
            file.install_dir.as_str().to_string(),
            file.install,
        ));
    }

    fn install_headers(&self, install_dir: &Path, headers: &Vec<Path>) {
        self.headers
            .borrow_mut()
            .push((install_dir.as_str().to_string(), headers.iter().map(|p| p.as_str().to_string()).collect()));
    }
}

type Interp = Interpreter<FakeOs, FakeSteps>;

const OPTIONS: &str = "option('prefix', type: 'string', value: '/usr/local')\noption('bindir', type: 'string', value: 'bin')\noption('libdir', type: 'string', value: 'lib')\n";

fn fresh(os: FakeOs, steps: FakeSteps) -> Interp {
    let mut interp = Interpreter::new(os, steps, Path::from("/src"), Path::from("/build")).unwrap();
    interp.interpret_string(OPTIONS).unwrap();
    interp
}

fn run(script: &str) -> (Result<(), InterpreterError>, Interp) {
    let mut interp = fresh(FakeOs::default(), FakeSteps::default());
    let r = interp.interpret_string(script);
    (r, interp)
}

fn var(interp: &Interp, name: &str) -> Value {
    get_variable(&vec![Value::String(name.to_string())], interp).unwrap()
}

fn s(text: &str) -> Value {
    Value::String(text.to_string())
}

fn type_error(msg: &str) -> InterpreterError {
    InterpreterError::TypeError(msg.to_string())
}

fn runtime_error(msg: &str) -> InterpreterError {
    InterpreterError::RuntimeError(msg.to_string())
}

#[test]
fn builtin_variables_are_bound() {
    let (r, interp) = run("a = host_machine.system()\nb = build_machine.cpu_family()\nc = target_machine.endian()\nd = host_machine.cpu()\ne = meson.to_string()\n");
    assert_eq!(r, Ok(()));
    assert_eq!(var(&interp, "a"), s("baremetal"));
    assert_eq!(var(&interp, "b"), s("x86_64"));
    assert_eq!(var(&interp, "c"), s("big"));
    assert_eq!(var(&interp, "d"), s("arm"));
    assert_eq!(var(&interp, "e"), s("Meson()"));
    assert_eq!(is_variable(&vec![s("fs")], &interp), Ok(Value::Boolean(true)));
    assert_eq!(is_variable(&vec![s("nope")], &interp), Ok(Value::Boolean(false)));
}

#[test]
fn assignments_and_expressions() {
    let (r, interp) = run("x = 1 + 2 * 3\ny = 'a' + 'b'\nz = [1] + 2\nz += [3]\nn += 5\nt = x > 6 ? 'big' : 'small'\nd = {'k': x}['k']\nu = -x\nv = not (x == 7)\nw = f'@0@'\n");
    assert_eq!(r, Ok(()));
    assert_eq!(var(&interp, "x"), Value::Integer(7));
    assert_eq!(var(&interp, "y"), s("ab"));
    assert_eq!(var(&interp, "z"), Value::Array(vec![Value::Integer(1), Value::Integer(2), Value::Integer(3)]));
    assert_eq!(var(&interp, "n"), Value::Integer(5));
    assert_eq!(var(&interp, "t"), s("big"));
    assert_eq!(var(&interp, "d"), Value::Integer(7));
    assert_eq!(var(&interp, "u"), Value::Integer(-7));
    assert_eq!(var(&interp, "v"), Value::Boolean(false));
    assert_eq!(var(&interp, "w"), s("@0@"));
}

#[test]
fn undefined_names_are_errors() {
    let (r, _) = run("x = y\n");
    assert_eq!(r, Err(InterpreterError::UndefinedVariable("y".to_string())));
    let (r, _) = run("nothing_like_this(1)\n");
    assert_eq!(r, Err(InterpreterError::UndefinedFunction("nothing_like_this".to_string())));
    let (r, _) = run("x = get_variable('y')\n");
    assert_eq!(r, Err(InterpreterError::UndefinedVariable("y".to_string())));
    let (r, interp) = run("x = get_variable('y', 3)\nset_variable('q', x)\n");
    assert_eq!(r, Ok(()));
    assert_eq!(var(&interp, "q"), Value::Integer(3));
}

#[test]
fn the_first_error_ends_the_script() {
    let (r, interp) = run("a = 1\nb = 1 / 0\nc = 3\n");
    assert_eq!(r, Err(runtime_error("Division by zero")));
    assert_eq!(var(&interp, "a"), Value::Integer(1));
    assert_eq!(is_variable(&vec![s("c")], &interp), Ok(Value::Boolean(false)));
}

#[test]
fn conditionals_take_one_branch() {
    let script = "r = []\nforeach v : [0, 1, 2, 3]\n  if v == 0\n    r += 'zero'\n  elif v == 1\n    r += 'one'\n  elif v == 2\n    r += 'two'\n  else\n    r += 'many'\n  endif\nendforeach\n";
    let (r, interp) = run(script);
    assert_eq!(r, Ok(()));
    assert_eq!(var(&interp, "r"), Value::Array(vec![s("zero"), s("one"), s("two"), s("many")]));
    let (r, interp) = run("x = 0\nif ''\n  x = 1\nendif\nif [0]\n  x += 10\nendif\n");
    assert_eq!(r, Ok(()));
    assert_eq!(var(&interp, "x"), Value::Integer(10));
}

#[test]
fn loops_with_break_and_continue() {
    let script = "sum = 0\nforeach v : [1, 2, 3, 4, 5]\n  if v == 2\n    continue\n  endif\n  if v == 4\n    break\n  endif\n  sum += v\nendforeach\nafter = v\n";
    let (r, interp) = run(script);
    assert_eq!(r, Ok(()));
    assert_eq!(var(&interp, "sum"), Value::Integer(4));
    assert_eq!(var(&interp, "after"), Value::Integer(4));
    assert!(!interp.break_flag);
    assert!(!interp.continue_flag);
    let (r, interp) = run("out = ''\nforeach c : 'h\u{e9}y'\n  out = c + out\nendforeach\n");
    assert_eq!(r, Ok(()));
    assert_eq!(var(&interp, "out"), s("y\u{e9}h"));
    let (r, _) = run("foreach c : 5\nendforeach\n");
    assert_eq!(r, Err(type_error("Cannot iterate over non-iterable")));
}

#[test]
fn nested_loops_break_the_inner_one() {
    let script = "n = 0\nforeach a : [1, 2]\n  foreach b : [1, 2, 3]\n    if b == 2\n      break\n    endif\n    n += 1\n  endforeach\nendforeach\n";
    let (r, interp) = run(script);
    assert_eq!(r, Ok(()));
    assert_eq!(var(&interp, "n"), Value::Integer(2));
}

#[test]
fn methods_of_values() {
    let (r, interp) = run("a = 'a,b'.split(',')\nb = ' x '.strip().to_upper()\nc = [1, 2].length()\nd = {'k': 1}.keys()\ne = [1, 2].contains(2)\nf = '@0@!'.format('hi')\ng = '-'.join('a', 'b')\nh = [1, 2].get(-1)\n");
    assert_eq!(r, Ok(()));
    assert_eq!(var(&interp, "a"), Value::Array(vec![s("a"), s("b")]));
    assert_eq!(var(&interp, "b"), s("X"));
    assert_eq!(var(&interp, "c"), Value::Integer(2));
    assert_eq!(var(&interp, "d"), Value::Array(vec![s("k")]));
    assert_eq!(var(&interp, "e"), Value::Boolean(true));
    assert_eq!(var(&interp, "f"), s("hi!"));
    assert_eq!(var(&interp, "g"), s("a-b"));
    assert_eq!(var(&interp, "h"), Value::Integer(2));
}

#[test]
fn unknown_methods_name_the_method_and_the_receiver() {
    let (r, _) = run("x = 'a'.nope()\n");
    assert_eq!(r, Err(runtime_error("Unknown method 'nope' for string")));
    let (r, _) = run("x = [].nope()\n");
    assert_eq!(r, Err(runtime_error("Unknown method 'nope' for array")));
    let (r, _) = run("x = {}.nope()\n");
    assert_eq!(r, Err(runtime_error("Unknown method 'nope' for dict")));
    let (r, _) = run("x = host_machine.nope()\n");
    assert_eq!(r, Err(runtime_error("Unknown method 'nope' for Machine object")));
    let (r, _) = run("x = files('a.c')[0].nope()\n");
    assert_eq!(r, Err(runtime_error("Unknown method 'nope' for File object")));
    let (r, _) = run("x = 5\ny = x.nope()\n");
    assert_eq!(r, Err(type_error("Cannot call method 'nope' on a value without methods")));
    let (r, _) = run("x = true.to_string()\n");
    assert_eq!(r, Err(type_error("Cannot call method 'to_string' on a value without methods")));
}

#[test]
fn every_object_has_to_string() {
    let (r, interp) = run("a = host_machine.to_string()\nb = files('x.c')[0].to_string()\nc = configuration_data().to_string()\nd = import('fs').to_string()\n");
    assert_eq!(r, Ok(()));
    assert_eq!(var(&interp, "a"), s("Machine(baremetal)"));
    assert_eq!(var(&interp, "b"), s("File(/src/x.c)"));
    assert_eq!(var(&interp, "c"), s("ConfigData()"));
    assert_eq!(var(&interp, "d"), s("FileSystem()"));
}

#[test]
fn assert_message_and_error() {
    let os = FakeOs::default();
    let mut interp = fresh(os.clone(), FakeSteps::default());
    assert_eq!(interp.interpret_string("assert(true, 'fine')\nmessage('a', 1, [true])\nwarning('w')\n"), Ok(()));
    assert_eq!(*os.printed.borrow(), vec!["a 1 [true] ".to_string(), "WARNING: w ".to_string()]);
    let (r, _) = run("assert(false, '\"quoted\"')\n");
    assert_eq!(r, Err(runtime_error("Assertion failed: quoted")));
    let (r, _) = run("assert(1 == 2)\n");
    assert_eq!(r, Err(runtime_error("Assertion failed")));
    let (r, _) = run("assert(1)\n");
    assert_eq!(r, Err(type_error("First argument to assert must be a boolean")));
    let (r, _) = run("assert()\n");
    assert_eq!(r, Err(type_error("assert requires at least one argument")));
    let (r, _) = run("assert(false, 5)\n");
    assert_eq!(r, Err(type_error("Second argument to assert must be a string")));
    let (r, _) = run("error('bad', 'thing', 3)\n");
    assert_eq!(r, Err(runtime_error("bad thing 3")));
}

#[test]
fn project_sets_name_and_version() {
    let (r, interp) = run("project('demo', version: '1.2.3')\nv = meson.project_version()\n");
    assert_eq!(r, Ok(()));
    assert_eq!(interp.meson.project_name, "demo");
    assert_eq!(interp.meson.project_version, "1.2.3");
    assert_eq!(var(&interp, "v"), s("1.2.3"));
    let (r, interp) = run("project('demo')\n");
    assert_eq!(r, Ok(()));
    assert_eq!(interp.meson.project_version, "0.0.0");
    let (r, _) = run("project(1)\n");
    assert_eq!(r, Err(type_error("First argument to project must be a string")));
    let (r, _) = run("project('x', version: 1)\n");
    assert_eq!(r, Err(type_error("Expected 'version' keyword argument to be a string")));
    let (r, interp) = run("add_project_arguments('-DA', ['-DB'], language: ['c', 'cpp'])\n");
    assert_eq!(r, Ok(()));
    assert_eq!(interp.meson.arguments_for("c"), vec!["-DA".to_string(), "-DB".to_string()]);
    assert_eq!(interp.meson.arguments_for("cpp"), vec!["-DA".to_string(), "-DB".to_string()]);
    assert_eq!(interp.meson.arguments_for("rust"), Vec::<String>::new());
}

#[test]
fn options_are_typed() {
    let script = "option('flag', type: 'boolean')\noption('level', type: 'integer', value: 50, min: 0, max: 10)\noption('mode', type: 'combo', choices: ['fast', 'small'])\noption('name', type: 'string', value: 'n')\noption('list', type: 'array', choices: ['a', 'b'])\na = get_option('flag')\nb = get_option('level')\nc = get_option('mode')\nd = get_option('name')\ne = get_option('list')\n";
    let (r, mut interp) = run(script);
    assert_eq!(r, Ok(()));
    assert_eq!(var(&interp, "a"), Value::Boolean(true));
    assert_eq!(var(&interp, "b"), Value::Integer(10));
    assert_eq!(var(&interp, "c"), s("fast"));
    assert_eq!(var(&interp, "d"), s("n"));
    assert_eq!(var(&interp, "e"), Value::Array(vec![s("a"), s("b")]));
    assert_eq!(interp.set_option("flag", "false"), Ok(()));
    assert_eq!(interp.set_option("level", "-3"), Ok(()));
    assert_eq!(interp.set_option("mode", "small"), Ok(()));
    assert_eq!(interp.set_option("list", "x,y"), Ok(()));
    assert_eq!(interp.get_option("flag"), Ok(Value::Boolean(false)));
    assert_eq!(interp.get_option("level"), Ok(Value::Integer(0)));
    assert_eq!(interp.get_option("mode"), Ok(s("small")));
    assert_eq!(interp.get_option("list"), Ok(Value::Array(vec![s("x"), s("y")])));
    assert_eq!(interp.set_option("flag", "maybe"), Err(type_error("Expected a boolean")));
    assert_eq!(interp.set_option("level", "ten"), Err(type_error("Expected an integer")));
    assert_eq!(interp.set_option("mode", "other"), Err(type_error("Expected one of the choices, found other")));
    assert_eq!(interp.set_option("unknown", "1"), Err(runtime_error("Unknown option: unknown")));
    assert_eq!(interp.get_option("flag"), Ok(Value::Boolean(false)));
    assert_eq!(get_option(&vec![s("unknown")], &interp), Err(InterpreterError::UndefinedVariable("unknown".to_string())));
}

#[test]
fn wrongly_typed_options_are_type_errors() {
    let (r, _) = run("option('o', type: 'boolean', value: 1)\n");
    assert_eq!(r, Err(type_error("Expected a boolean")));
    let (r, _) = run("option('o', type: 'integer', value: 'x')\n");
    assert_eq!(r, Err(type_error("Expected an integer")));
    let (r, _) = run("option('o', type: 'string', value: 1)\n");
    assert_eq!(r, Err(type_error("Expected a string")));
    let (r, _) = run("option('o', type: 'array', value: 'x')\n");
    assert_eq!(r, Err(type_error("Expected 'value' keyword argument to be an array")));
    let (r, _) = run("option('o', type: 'array', value: [1])\n");
    assert_eq!(r, Err(type_error("Expected all elements in 'value' array to be strings")));
    let (r, _) = run("option('o', type: 'feature')\n");
    assert_eq!(r, Err(type_error("Unsupported option type: feature")));
    let (r, _) = run("option('o')\n");
    assert_eq!(r, Err(type_error("Option requires a 'type' keyword argument")));
    let (r, _) = run("option()\n");
    assert_eq!(r, Err(type_error("First argument to option must be a string")));
    let (r, _) = run("x = get_option('missing')\n");
    assert_eq!(r, Err(InterpreterError::UndefinedVariable("missing".to_string())));
}

#[test]
fn executable_flattens_and_resolves_its_sources() {
    let steps = FakeSteps::default();
    let os = FakeOs::default();
    let mut interp = fresh(os.clone(), steps.clone());
    assert_eq!(interp.interpret_string("app = executable('app', 'a.c', ['b.c', 'c.c'])\np = app.full_path()\n"), Ok(()));
    let handle = match var(&interp, "app") {
        Value::Object(h) => h,
        other => panic!("no object: {:?}", other),
    };
    match &interp.objects[handle] {
        Object::BuildTarget(t) => {
            assert_eq!(t.name, "app");
            assert_eq!(t.target_type, TargetType::Executable);
            assert_eq!(t.sources, vec![Path::from("/src/a.c"), Path::from("/src/b.c"), Path::from("/src/c.c")]);
            assert_eq!(t.install_dir, Path::from("bin"));
            assert!(!t.install);
        }
        other => panic!("no target: {:?}", other),
    }
    assert_eq!(var(&interp, "p"), s("/build/app"));
    assert_eq!(
        *steps.targets.borrow(),
        vec![("exe:app".to_string(), vec!["/src/a.c".to_string(), "/src/b.c".to_string(), "/src/c.c".to_string()])]
    );
    assert_eq!(*os.printed.borrow(), vec!["Created Executable: app".to_string()]);
}

#[test]
fn targets_take_objects_and_settings() {
    let steps = FakeSteps::default();
    let mut interp = fresh(FakeOs::default(), steps.clone());
    let script = "lib = static_library('core', files('x.c'), install: true, install_dir: 'out\\\\lib', c_args: ['-O2'], include_directories: ['inc', include_directories('gen')])\nobjs = lib.extract_objects()\nexe = executable('tool', 'main.c', objects: [objs, 'extra.o'])\np = lib.full_path()\n";
    assert_eq!(interp.interpret_string(script), Ok(()));
    assert_eq!(var(&interp, "p"), s("/build/libcore.a"));
    let targets = steps.targets.borrow();
    assert_eq!(targets[0], ("lib:core".to_string(), vec!["/src/x.c".to_string()]));
    assert_eq!(
        targets[1],
        ("exe:tool".to_string(), vec!["/src/main.c".to_string(), "/src/x.c".to_string(), "/src/extra.o".to_string()])
    );
    let lib = interp.objects.iter().find_map(|o| match o {
        Object::BuildTarget(t) if t.name == "core" => Some(t),
        _ => None,
    });
    let lib = lib.unwrap();
    assert!(lib.install);
    assert_eq!(lib.install_dir, Path::from("out/lib"));
    assert_eq!(lib.flags, vec!["-O2".to_string()]);
    assert_eq!(lib.include_dirs, vec![Path::from("/src/inc"), Path::from("/src/gen")]);
}

#[test]
fn target_arguments_are_checked() {
    let (r, _) = run("executable(1)\n");
    assert_eq!(r, Err(type_error("First argument must be a string (name)")));
    let (r, _) = run("executable('a', 1)\n");
    assert_eq!(r, Err(type_error("Expected arguments to be strings or File objects")));
    let (r, _) = run("executable('a', install: 'yes')\n");
    assert_eq!(r, Err(type_error("Expected 'install' keyword argument to be a boolean")));
    let (r, _) = run("executable('a', c_args: '-O2')\n");
    assert_eq!(r, Err(type_error("Expected 'c_args' keyword argument to be an array")));
    let (r, _) = run("executable('a', objects: [host_machine])\n");
    assert_eq!(r, Err(type_error("Expected elements of 'objects' to be strings, File, or ExtractedObjects object")));
    let mut bare = Interpreter::new(FakeOs::default(), FakeSteps::default(), Path::from("/src"), Path::from("/build")).unwrap();
    assert_eq!(bare.interpret_string("executable('a')\n"), Err(runtime_error("Could not determine install directory")));
    assert_eq!(bare.interpret_string("custom_target('x')\ntest('y')\n"), Ok(()));
}

#[test]
fn configure_file_writes_a_header_sorted_by_key() {
    let steps = FakeSteps::default();
    let mut interp = fresh(FakeOs::default(), steps.clone());
    let script = "conf = configuration_data()\nconf.set('FOO', true)\nconf.set('BAR', 3, description: 'the bar')\nconf.set('BAZ', 'x')\nconf.set('OFF', false)\nconfigure_file(output: 'config.h', configuration: conf, install_dir: 'include', install: true)\n";
    assert_eq!(interp.interpret_string(script), Ok(()));
    let configured = steps.configured.borrow();
    assert_eq!(configured.len(), 1);
    assert_eq!(configured[0].0, "config.h");
    assert_eq!(
        configured[0].1,
        "#pragma once\n\n// the bar\n#define BAR 3\n\n#define BAZ x\n\n#define FOO\n\n#undef OFF\n\n"
    );
    assert_eq!(configured[0].2, "/usr/local/include");
    assert!(configured[0].3);
}

#[test]
fn configure_file_fills_a_template() {
    let steps = FakeSteps::default();
    let os = FakeOs::default().with_file("/src/in.h", "v=@VER@ on=@ON@ n=@N@\n").with_file("/src/bad.h", "@VER@ @MISSING@ @ALSO@\n");
    let mut interp = fresh(os, steps.clone());
    let script = "conf = configuration_data()\nconf.set('VER', '1.0')\nconf.set('ON', true)\nconf.set('N', 42)\nconfigure_file(input: 'in.h', output: 'out.h', configuration: conf)\n";
    assert_eq!(interp.interpret_string(script), Ok(()));
    assert_eq!(steps.configured.borrow()[0].1, "v=1.0 on=1 n=42\n");
    assert_eq!(
        interp.interpret_string("configure_file(input: 'bad.h', output: 'o', configuration: conf)\n"),
        Err(runtime_error("configure_file: The following placeholders were not replaced: MISSING, ALSO"))
    );
    assert_eq!(
        interp.interpret_string("configure_file(input: 'none.h', output: 'o', configuration: conf)\n"),
        Err(runtime_error("Failed to read input file: /src/none.h: no file /src/none.h"))
    );
    assert_eq!(
        interp.interpret_string("configure_file(configuration: conf)\n"),
        Err(type_error("configure_file requires an 'output' keyword argument"))
    );
    assert_eq!(
        interp.interpret_string("configure_file(output: 'o')\n"),
        Err(type_error("configure_file requires a 'configuration' keyword argument of type ConfigData"))
    );
    assert_eq!(
        interp.interpret_string("configure_file(output: 'o', configuration: host_machine)\n"),
        Err(type_error("Object type mismatch, expected ConfigData"))
    );
    assert_eq!(steps.configured.borrow().len(), 1);
}

#[test]
fn headers_and_templates_from_data() {
    let mut data = ConfigData::new();
    data.put(ConfigEntry { key: "B".to_string(), value: Value::Integer(2), description: String::new() });
    data.put(ConfigEntry { key: "A".to_string(), value: Value::Boolean(true), description: "first".to_string() });
    data.put(ConfigEntry { key: "B".to_string(), value: Value::Integer(3), description: String::new() });
    assert_eq!(data.data.len(), 2);
    assert_eq!(configure_no_template(&data), Ok("#pragma once\n\n// first\n#define A\n\n#define B 3\n\n".to_string()));
    assert_eq!(configure_with_template("@A@@B@ plain".to_string(), &data), Ok("13 plain".to_string()));
    assert_eq!(configure_with_template("a@b".to_string(), &data), Err(runtime_error("configure_file: The following placeholders were not replaced: b")));
    assert_eq!(configure_with_template("50@@ off".to_string(), &data), Ok("50@@ off".to_string()));
    data.put(ConfigEntry { key: "L".to_string(), value: Value::Array(vec![]), description: String::new() });
    assert_eq!(configure_no_template(&data), Err(type_error("Unsupported value type for key L")));
    assert_eq!(configure_with_template("@A@ @L@".to_string(), &data), Err(runtime_error("configure_file: The following placeholders were not replaced: L")));
}

#[test]
fn objects_are_shared_between_variables() {
    let script = "a = configuration_data()\nb = a\nb.set('K', 1)\nb.set10('T', 5)\nb.set10('Z', 0)\nx = a.get('K')\ny = a.get('T')\nz = a.get('Z')\na.merge_from({'M': 'm'})\nc = configuration_data()\nc.merge_from(a)\nw = c.get('M')\nsame = a == c\nother = a == configuration_data()\n";
    let (r, interp) = run(script);
    assert_eq!(r, Ok(()));
    assert_eq!(var(&interp, "x"), Value::Integer(1));
    assert_eq!(var(&interp, "y"), Value::Integer(1));
    assert_eq!(var(&interp, "z"), Value::Integer(0));
    assert_eq!(var(&interp, "w"), s("m"));
    assert_eq!(var(&interp, "same"), Value::Boolean(true));
    assert_eq!(var(&interp, "other"), Value::Boolean(false));
    let (r, _) = run("a = configuration_data()\nx = a.get('none')\n");
    assert_eq!(r, Err(runtime_error("Key 'none' not found in ConfigData")));
    let (r, _) = run("a = configuration_data()\na.set('k', [1])\n");
    assert_eq!(r, Err(type_error("Expected a str, int or bool as the second argument")));
    let (r, _) = run("a = configuration_data()\na.set10('k', 'x')\n");
    assert_eq!(r, Err(type_error("Expected int or bool as the second argument")));
    let (r, _) = run("a = configuration_data()\na.merge_from(3)\n");
    assert_eq!(r, Err(type_error("merge_from requires a ConfigData object or a dict")));
}

#[test]
fn subdir_restores_the_directory_even_on_error() {
    let os = FakeOs::default()
        .with_file("/src/sub/meson.build", "here = files('x.c')[0].to_string()\nerror('boom')\n")
        .with_file("/src/ok/meson.build", "inner = files('y.c')[0].to_string()\nsubdir('deeper')\n")
        .with_file("/src/ok/deeper/meson.build", "deepest = files('z.c')[0].to_string()\n");
    let mut interp = fresh(os, FakeSteps::default());
    assert_eq!(interp.interpret_string("subdir('sub')\n"), Err(runtime_error("boom")));
    assert_eq!(interp.current_dir.as_str(), "/src");
    assert_eq!(var(&interp, "here"), s("File(/src/sub/x.c)"));
    assert_eq!(interp.interpret_string("subdir('ok')\nouter = files('w.c')[0].to_string()\n"), Ok(()));
    assert_eq!(interp.current_dir.as_str(), "/src");
    assert_eq!(var(&interp, "inner"), s("File(/src/ok/y.c)"));
    assert_eq!(var(&interp, "deepest"), s("File(/src/ok/deeper/z.c)"));
    assert_eq!(var(&interp, "outer"), s("File(/src/w.c)"));
    assert_eq!(interp.interpret_string("subdir('absent')\n"), Err(runtime_error("Failed to read file: /src/absent/meson.build: no file /src/absent/meson.build")));
    assert_eq!(interp.current_dir.as_str(), "/src");
    assert_eq!(interp.interpret_string("subdir(1)\n"), Err(type_error("First argument to subdir must be a string")));
}

#[test]
fn subdir_cannot_nest_without_end() {
    let os = FakeOs::default().with_file("/src/meson.build", "subdir('.')\n").with_file("/src/./meson.build", "subdir('.')\n");
    os.files.borrow_mut().insert("/src/loop/meson.build".to_string(), b"subdir('../loop')\n".to_vec());
    let mut interp = fresh(os.clone(), FakeSteps::default());
    let mut path = "/src/loop".to_string();
    for _ in 0..70 {
        path.push_str("/../loop");
        os.files.borrow_mut().insert(format!("{}/meson.build", path), b"subdir('../loop')\n".to_vec());
    }
    assert_eq!(interp.interpret_string("subdir('loop')\n"), Err(runtime_error("subdir() is nested too deep")));
    assert_eq!(interp.current_dir.as_str(), "/src");
    assert_eq!(interp.depth_left, 64);
}

#[test]
fn compiler_probes() {
    let os = FakeOs::default().rejecting("-Wbad");
    let mut interp = fresh(os.clone(), FakeSteps::default());
    let script = "add_project_arguments('-DPROJECT', language: 'c')\ncc = meson.get_compiler('c')\na = cc.has_argument('-Wfoo')\nb = cc.has_argument('-Wbad')\nc = cc.get_supported_arguments('-Wfoo', ['-Wbad', '-Wextra'])\nd = cc.get_id()\ne = cc.symbols_have_underscore_prefix()\nf = cc.compiles('int x;', args: ['-Wbad'])\ng = cc.links('int main() { return 0; }')\nh = cc.has_function('printf')\ni = cc.has_link_argument('-Wbad')\nj = cc.has_multi_link_arguments('-a', ['-b'])\nk = cc.cmd_array()\nl = cc.get_linker_id()\n";
    assert_eq!(interp.interpret_string(script), Ok(()));
    assert_eq!(var(&interp, "a"), Value::Boolean(true));
    assert_eq!(var(&interp, "b"), Value::Boolean(false));
    assert_eq!(var(&interp, "c"), Value::Array(vec![s("-Wfoo"), s("-Wextra")]));
    assert_eq!(var(&interp, "d"), s("gcc"));
    assert_eq!(var(&interp, "e"), Value::Boolean(true));
    assert_eq!(var(&interp, "f"), Value::Boolean(false));
    assert_eq!(var(&interp, "g"), Value::Boolean(true));
    assert_eq!(var(&interp, "h"), Value::Boolean(true));
    assert_eq!(var(&interp, "i"), Value::Boolean(false));
    assert_eq!(var(&interp, "j"), Value::Boolean(true));
    assert_eq!(var(&interp, "k"), Value::Array(vec![s("cc"), s("-pipe")]));
    assert_eq!(var(&interp, "l"), s("ld.lld"));
    let commands = os.commands.borrow();
    assert_eq!(
        commands[0],
        (
            "cc".to_string(),
            vec![
                "-DPROJECT".to_string(),
                "-c".to_string(),
                "-Wfoo".to_string(),
                "-pipe".to_string(),
                "/tmp/probe1/input.c".to_string(),
                "-o".to_string(),
                "/tmp/probe1/output".to_string(),
            ]
        )
    );
    let link = commands.iter().find(|(_, args)| args.contains(&"-a".to_string())).unwrap();
    assert!(!link.1.contains(&"-c".to_string()));
    assert!(link.1.contains(&"-b".to_string()));
    assert_eq!(
        String::from_utf8(os.files.borrow().get("/tmp/probe10/input.c").unwrap().clone()).unwrap(),
        "int main() { void *p = (void*)(printf); return 0; }"
    );
}

#[test]
fn a_required_argument_that_is_rejected_is_an_error() {
    let os = FakeOs::default().rejecting("-Wfoo");
    let mut interp = fresh(os, FakeSteps::default());
    assert_eq!(
        interp.interpret_string("cc = meson.get_compiler('c')\nx = cc.has_argument('-Wfoo', required: true)\n"),
        Err(runtime_error("Compiler does not support argument: -Wfoo"))
    );
    assert_eq!(interp.interpret_string("y = cc.has_argument('-Wfoo', required: false)\n"), Ok(()));
    assert_eq!(var(&interp, "y"), Value::Boolean(false));
    assert_eq!(interp.interpret_string("z = cc.has_argument('-Wok', required: true)\n"), Ok(()));
    assert_eq!(var(&interp, "z"), Value::Boolean(true));
    assert_eq!(interp.interpret_string("cc.has_argument(1)\n"), Err(type_error("has_argument requires a string argument")));
    assert_eq!(
        interp.interpret_string("cc.has_argument('-x', required: 1)\n"),
        Err(type_error("The 'required' keyword argument must be a boolean"))
    );
    assert_eq!(
        interp.interpret_string("cc.compiles('x', args: 'no')\n"),
        Err(type_error("The 'args' keyword argument must be an array of strings"))
    );
    assert_eq!(
        interp.interpret_string("meson.get_compiler('fortran')\n"),
        Err(runtime_error("Failed to determine compiler command for language: fortran: Runtime error: Failed to get compiler for language: fortran: Unsupported language: fortran"))
    );
    assert_eq!(interp.interpret_string("ok = add_languages('c', required: true)\nno = add_languages('d')\n"), Ok(()));
    assert_eq!(var(&interp, "ok"), Value::Boolean(true));
    assert_eq!(var(&interp, "no"), Value::Boolean(false));
    assert_eq!(
        interp.interpret_string("add_languages('d', required: true)\n"),
        Err(runtime_error("No compiler found for language: d: Unsupported language: d"))
    );
}

#[test]
fn answers_of_probes() {
    assert_eq!(has_argument_answer("-Wfoo", true, true), Ok(Value::Boolean(true)));
    assert_eq!(has_argument_answer("-Wfoo", false, false), Ok(Value::Boolean(false)));
    assert_eq!(has_argument_answer("-Wfoo", true, false), Err(runtime_error("Compiler does not support argument: -Wfoo")));
    assert_eq!(family_answer("junk \"MESON_DELIMITER\" old \"MESON_DELIMITER\"\n clang \n"), Ok(s("clang")));
    assert_eq!(family_answer("\"MESON_DELIMITER\"  \n"), Err(runtime_error("Failed to detect compiler family")));
    assert_eq!(family_answer("nothing here"), Err(runtime_error("Failed to detect compiler family")));
    assert_eq!(family_answer(""), Err(runtime_error("Failed to detect compiler family")));
    assert_eq!(prefix_answer("x\n\"MESON_DELIMITER\"_\n"), Ok(Value::Boolean(true)));
    assert_eq!(prefix_answer("x\n\"MESON_DELIMITER\"\n"), Ok(Value::Boolean(false)));
    assert_eq!(prefix_answer("\"MESON_DELIMITER\"__"), Err(runtime_error("Found unexpected underscore prefix __")));
    assert_eq!(prefix_answer("none"), Err(runtime_error("Failed to find underscore prefix, none")));
}

#[test]
fn versions_are_held_against_requirements() {
    let (r, interp) = run("v = meson.version()\na = v.version_compare('>=1.0.0')\nb = v.version_compare('<1.3.0')\nc = v.version_compare('^1.2')\nt = v.to_string()\n");
    assert_eq!(r, Ok(()));
    assert_eq!(var(&interp, "a"), Value::Boolean(true));
    assert_eq!(var(&interp, "b"), Value::Boolean(false));
    assert_eq!(var(&interp, "c"), Value::Boolean(true));
    assert_eq!(var(&interp, "t"), s("Version(1.3.0)"));
    let (r, _) = run("x = meson.version().version_compare('not a requirement')\n");
    assert_eq!(r, Err(runtime_error("Invalid version requirement string 'not a requirement'")));
    let (r, _) = run("x = meson.version().version_compare(1)\n");
    assert_eq!(r, Err(type_error("Expected a string as the first argument")));
    assert_eq!(version("1.2.3-rc.1+build").unwrap().text, "1.2.3-rc.1+build");
    assert_eq!(version("1.2").unwrap_err(), runtime_error("Invalid version string '1.2'"));
    assert_eq!(version("").unwrap_err(), runtime_error("Invalid version string ''"));
    assert_eq!(compare_answer("1.0.0", ">=1", Some(Ok(true))), Ok(Value::Boolean(true)));
    assert_eq!(compare_answer("1.0.0", "??", None), Err(runtime_error("Invalid version requirement string '??'")));
    assert_eq!(compare_answer("bad", ">=1", Some(Err(()))), Err(runtime_error("Invalid version string 'bad'")));
}

#[test]
fn programs_and_commands() {
    let os = FakeOs::default();
    let mut interp = fresh(os.clone(), FakeSteps::default());
    let script = "sh = find_program('sh')\na = sh.found()\nb = sh.full_path()\nno = find_program('nope')\nc = no.found()\nd = no.full_path()\nr = run_command('tool', ['-a', ['-b']])\ne = r.stdout()\nf = r.stderr()\ng = r.returncode()\n";
    assert_eq!(interp.interpret_string(script), Ok(()));
    assert_eq!(var(&interp, "a"), Value::Boolean(true));
    assert_eq!(var(&interp, "b"), s("/bin/sh"));
    assert_eq!(var(&interp, "c"), Value::Boolean(false));
    assert_eq!(var(&interp, "d"), Value::Nothing);
    assert_eq!(var(&interp, "e"), s("ran -a -b"));
    assert_eq!(var(&interp, "f"), s("warn"));
    assert_eq!(var(&interp, "g"), Value::Integer(3));
    assert_eq!(os.commands.borrow()[0], ("tool".to_string(), vec!["-a".to_string(), "-b".to_string()]));
    assert_eq!(interp.interpret_string("find_program('nope', required: true)\n"), Err(runtime_error("Program 'nope' not found")));
    assert_eq!(interp.interpret_string("find_program(1)\n"), Err(type_error("Expected a string as the first argument")));
    assert_eq!(interp.interpret_string("run_command()\n"), Err(type_error("Expected at least one argument")));
    assert_eq!(interp.interpret_string("run_command([])\n"), Err(type_error("Expected at least one argument")));
    assert_eq!(interp.interpret_string("run_command(1)\n"), Err(type_error("Expected command to be a string")));
    assert_eq!(interp.interpret_string("run_command('a', 1)\n"), Err(type_error("Expected command arguments to be strings")));
    assert_eq!(interp.interpret_string("run_command('missing')\n"), Err(runtime_error("Failed to run command: no such program")));
}

#[test]
fn environments_prepend() {
    let (r, interp) = run("e = environment({'PATH': '/bin'})\ne.prepend('PATH', '/opt', ['/usr/bin'])\ne.prepend('NEW', 'a', 'b', separator: ';')\nf = environment()\n");
    assert_eq!(r, Ok(()));
    let env = interp.objects.iter().find_map(|o| match o {
        Object::Env(e) if !e.vars.is_empty() => Some(e),
        _ => None,
    });
    assert_eq!(
        env.unwrap().vars,
        vec![("PATH".to_string(), "/opt:/usr/bin:/bin".to_string()), ("NEW".to_string(), "a;b".to_string())]
    );
    let (r, _) = run("e = environment(1)\n");
    assert_eq!(r, Err(type_error("Expected a dict object as the first argument")));
    let (r, _) = run("e = environment({'A': 1})\n");
    assert_eq!(r, Err(type_error("Expected environment values to be strings")));
    let (r, _) = run("e = environment()\ne.prepend('A', 1)\n");
    assert_eq!(r, Err(type_error("Expected a string")));
    let (r, _) = run("e = environment()\ne.prepend('A', 'x', separator: 1)\n");
    assert_eq!(r, Err(type_error("Expected 'separator' keyword argument to be a string")));
}

#[test]
fn files_headers_and_the_fs_module() {
    let steps = FakeSteps::default();
    let os = FakeOs::default().with_file("/src/there.h", "");
    let mut interp = fresh(os, steps.clone());
    let script = "fs2 = import('fs')\na = fs.replace_suffix('dir/x.c', '.o')\nb = fs2.exists('there.h')\nc = fs.is_file('absent.h')\nhs = files('a.h', ['b.h'])\ninstall_headers(hs, 'c.h', install_dir: 'inc')\ninstall_headers('d.h')\n";
    assert_eq!(interp.interpret_string(script), Ok(()));
    assert_eq!(var(&interp, "a"), s("dir/x.o"));
    assert_eq!(var(&interp, "b"), Value::Boolean(true));
    assert_eq!(var(&interp, "c"), Value::Boolean(false));
    assert_eq!(
        *steps.headers.borrow(),
        vec![
            ("inc".to_string(), vec!["/src/a.h".to_string(), "/src/b.h".to_string(), "/src/c.h".to_string()]),
            ("".to_string(), vec!["/src/d.h".to_string()]),
        ]
    );
    assert_eq!(interp.interpret_string("fs.is_dir('x')\n"), Err(runtime_error("Failed to check if path is a directory: cannot tell of /src/x")));
    assert_eq!(interp.interpret_string("fs.exists(1)\n"), Err(type_error("Expected a string argument")));
    assert_eq!(interp.interpret_string("import('python')\n"), Err(runtime_error("No module named 'python'")));
    assert_eq!(interp.interpret_string("import(1)\n"), Err(type_error("import requires a string argument")));
    assert_eq!(interp.interpret_string("files(1)\n"), Err(type_error("Expected arguments to be strings or File objects")));
    assert_eq!(interp.interpret_string("install_headers('a.h', install_dir: 1)\n"), Err(type_error("'install_dir' keyword argument must be of type string")));
}

#[test]
fn a_build_reads_options_and_the_project() {
    let steps = FakeSteps::default();
    let os = FakeOs::default()
        .with_file("/proj/meson_options.txt", "option('fast', type: 'boolean', value: false)\n")
        .with_file("/proj/meson.build", "project('p', version: '2.0.0')\nif get_option('fast')\n  executable('quick', 'main.c', install: true)\nendif\nmessage(get_option('buildtype'), get_option('prefix'))\n");
    let mut build = Meson::new(os.clone(), steps.clone());
    build.option("fast", "false");
    build.option("fast", "true");
    build.option("buildtype", "release");
    let interp = build.build("/proj", "/proj/out").unwrap();
    assert_eq!(interp.meson.project_name, "p");
    assert_eq!(interp.current_dir.as_str(), "/proj");
    assert_eq!(interp.build_dir.as_str(), "/proj/out");
    assert_eq!(*steps.targets.borrow(), vec![("exe:quick".to_string(), vec!["/proj/main.c".to_string()])]);
    assert_eq!(os.printed.borrow().last().unwrap(), "release /usr/local ");
    let mut bad = Meson::new(os.clone(), FakeSteps::default());
    bad.option("buildtype", "odd");
    assert_eq!(bad.build("/proj", "/out").err(), Some(type_error("Expected one of the choices, found odd")));
    let missing = Meson::new(FakeOs::default(), FakeSteps::default());
    assert_eq!(missing.build("/nowhere", "/out").err(), Some(runtime_error("Failed to read file: /nowhere/meson.build: no file /nowhere/meson.build")));
}

#[test]
fn files_that_do_not_parse_are_runtime_errors() {
    let os = FakeOs::default().with_file("/src/bad/meson.build", "x = = 1\n");
    os.files.borrow_mut().insert("/src/bin/meson.build".to_string(), vec![0xff, 0xfe]);
    let mut interp = fresh(os, FakeSteps::default());
    assert_eq!(interp.interpret_string("subdir('bad')\n"), Err(runtime_error("Failed to parse /src/bad/meson.build")));
    assert_eq!(interp.interpret_string("subdir('bin')\n"), Err(runtime_error("File is not valid UTF-8: /src/bin/meson.build")));
    assert_eq!(interp.interpret_string("x = (1\n"), Err(runtime_error("Failed to parse the build description")));
}

#[test]
fn statements_are_loaded_from_what_was_read() {
    let path = Path::from("/src/meson.build");
    assert_eq!(
        load_statements(&path, Ok(b"x = 1\n".to_vec())),
        Ok(vec![Statement::Assignment("x".to_string(), Expr::Integer(1))])
    );
    assert_eq!(load_statements(&path, Ok(Vec::new())), Ok(Vec::new()));
    assert_eq!(
        load_statements(&path, Err("gone".to_string())),
        Err(runtime_error("Failed to read file: /src/meson.build: gone"))
    );
    assert_eq!(
        load_statements(&path, Ok(vec![b'x', 0xff, b'\n'])),
        Err(runtime_error("File is not valid UTF-8: /src/meson.build"))
    );
    assert_eq!(
        load_statements(&path, Ok(b"x = = 1\n".to_vec())),
        Err(runtime_error("Failed to parse /src/meson.build"))
    );
}

#[test]
fn statements_run_in_a_new_interpreter() {
    let statements = parse_meson_file("x = [1, 2]\nx += 3\ny = meson.project_version()\n").unwrap();
    let interp = run_interpreter(FakeOs::default(), FakeSteps::default(), Path::from("/proj"), &statements).unwrap();
    assert_eq!(var(&interp, "x"), Value::Array(vec![Value::Integer(1), Value::Integer(2), Value::Integer(3)]));
    assert_eq!(var(&interp, "y"), s("0.0.0"));
    assert_eq!(interp.current_dir.as_str(), "/proj");
    assert_eq!(interp.build_dir.as_str(), "/proj/build");
    assert_eq!(interp.objects.len(), 5);
    let failing = parse_meson_file("x = 1\ny = nowhere\n").unwrap();
    match run_interpreter(FakeOs::default(), FakeSteps::default(), Path::from("/proj"), &failing) {
        Err(e) => assert_eq!(e, InterpreterError::UndefinedVariable("nowhere".to_string())),
        Ok(_) => panic!("the run found a variable that nothing bound"),
    }
}

#[test]
fn subdir_descends_sixty_four_levels_and_no_more() {
    let os = FakeOs::default().with_file("/src/meson.build", "depth = get_variable('depth', 0) + 1\nsubdir('/src')\n");
    let mut interp = fresh(os, FakeSteps::default());
    let r = interp.interpret_string("subdir('/src')\n");
    assert_eq!(var(&interp, "depth"), Value::Integer(64));
    assert_eq!(r, Err(runtime_error("subdir() is nested too deep")));
    assert_eq!(interp.current_dir.as_str(), "/src");
    assert_eq!(interp.depth_left, picomeson::interpreter::state::MAX_SUBDIR_DEPTH);
}

#[test]
fn a_call_statement_changes_the_interpreter_as_its_function_tells() {
    let (r, interp) = run("c = configuration_data()\nconfiguration_data()\nd = c\n");
    assert_eq!(r, Ok(()));
    assert_eq!(interp.objects.len(), 7);
    assert_eq!(var(&interp, "c"), Value::Object(5));
    assert_eq!(var(&interp, "d"), Value::Object(5));
    let (r, interp) = run("x = 1\nx = nothing_of_the_kind(2)\n");
    assert_eq!(r, Err(InterpreterError::UndefinedFunction("nothing_of_the_kind".to_string())));
    assert_eq!(var(&interp, "x"), Value::Integer(1));
}

#[test]
fn the_parts_of_an_expression_are_evaluated_from_left_to_right() {
    let (r, interp) = run("a = [configuration_data(), files('x.c'), configuration_data()]\n");
    assert_eq!(r, Ok(()));
    assert_eq!(
        var(&interp, "a"),
        Value::Array(vec![Value::Object(5), Value::Array(vec![Value::Object(6)]), Value::Object(7)])
    );
    let (r, interp) = run("b = [configuration_data(), nothing_of_the_kind(), configuration_data()]\n");
    assert_eq!(r, Err(InterpreterError::UndefinedFunction("nothing_of_the_kind".to_string())));
    assert_eq!(interp.objects.len(), 6);
    assert_eq!(is_variable(&vec![s("b")], &interp), Ok(Value::Boolean(false)));
    let (r, interp) = run("c = configuration_data()\nd = {'k': c.set('A', 1), 'l': c.get('A')}\n");
    assert_eq!(r, Ok(()));
    assert_eq!(
        var(&interp, "d"),
        Value::Dict(vec![("k".to_string(), Value::Nothing), ("l".to_string(), Value::Integer(1))])
    );
    let (r, interp) = run("c = configuration_data()\ne = [1] + nothing_here + [c.set('A', 1)]\n");
    assert_eq!(r, Err(InterpreterError::UndefinedVariable("nothing_here".to_string())));
    assert_eq!(interp.objects[5], Object::ConfigData(ConfigData::new()));
}

#[test]
fn what_a_block_did_before_it_ended_stays_done() {
    let script = "n = 0\nforeach i : [1, 2, 3]\n  c = configuration_data()\n  if i == 2\n    break\n  endif\n  n += i\nendforeach\nafter = n\n";
    let (r, interp) = run(script);
    assert_eq!(r, Ok(()));
    assert_eq!(var(&interp, "n"), Value::Integer(1));
    assert_eq!(var(&interp, "after"), Value::Integer(1));
    assert_eq!(var(&interp, "i"), Value::Integer(2));
    assert_eq!(var(&interp, "c"), Value::Object(6));
    assert_eq!(interp.objects.len(), 7);
    assert!(!interp.break_flag);
    assert!(!interp.continue_flag);
    let script = "if false\n  a = 1\nelif configuration_data().to_string() != ''\n  a = 2\nelif nothing_here\n  a = 3\nendif\n";
    let (r, interp) = run(script);
    assert_eq!(r, Ok(()));
    assert_eq!(var(&interp, "a"), Value::Integer(2));
    assert_eq!(interp.objects.len(), 6);
}

#[test]
fn machines_are_made_of_what_the_system_describes() {
    let info = MachineInfo { system: "linux".to_string(), cpu: "riscv64".to_string(), endian: "little".to_string() };
    let machine = machine_answer(Ok(info), "no machine").unwrap();
    assert_eq!(machine.system, "linux");
    assert_eq!(machine.cpu, "riscv64");
    assert_eq!(machine.cpu_family, "riscv64");
    assert_eq!(machine.endian, "little");
    assert_eq!(machine_answer(Err("unknown".to_string()), "no machine"), Err(runtime_error("no machine: unknown")));
    let interp = fresh(FakeOs::default(), FakeSteps::default());
    let host = interp.host_machine().unwrap();
    assert_eq!((host.system.as_str(), host.cpu.as_str(), host.cpu_family.as_str(), host.endian.as_str()), ("baremetal", "arm", "arm", "big"));
    let build = interp.build_machine().unwrap();
    assert_eq!((build.system.as_str(), build.cpu.as_str(), build.cpu_family.as_str(), build.endian.as_str()), ("linux", "x86_64", "x86_64", "little"));
}

#[test]
fn each_probe_hands_on_what_its_question_needs() {
    let strings = |v: &[&str]| v.iter().map(|s| s.to_string()).collect::<Vec<String>>();
    let p = plan_id_probe();
    assert_eq!((p.args, p.extra), (strings(&["-E"]), strings(&[])));
    assert!(p.code.starts_with("\"MESON_DELIMITER\"\n#if defined(__clang__)"));
    let p = plan_underscore_probe();
    assert_eq!((p.args, p.extra), (strings(&["-E"]), strings(&[])));
    assert!(p.code.ends_with("\"MESON_DELIMITER\"__USER_LABEL_PREFIX__\n"));
    let p = plan_argument_probe("-Wfoo");
    assert_eq!((p.args, p.extra, p.code.as_str()), (strings(&["-c"]), strings(&["-Wfoo"]), ""));
    let p = plan_function_check("memcpy", strings(&["-O2"]));
    assert_eq!(
        (p.args, p.extra, p.code.as_str()),
        (strings(&[]), strings(&["-O2"]), "int main() { void *p = (void*)(memcpy); return 0; }")
    );
    let p = plan_link_probe(strings(&["-Wl,--gc-sections", "-lm"]));
    assert_eq!(
        (p.args, p.extra, p.code.as_str()),
        (strings(&[]), strings(&["-Wl,--gc-sections", "-lm"]), "int main() { return 0; }")
    );
    let p = plan_compile_probe("int x;", strings(&["-std=c99"]));
    assert_eq!((p.args, p.extra, p.code.as_str()), (strings(&["-c"]), strings(&["-std=c99"]), "int x;"));
    let p = plan_link_check("int main() {}", strings(&[]));
    assert_eq!((p.args, p.extra, p.code.as_str()), (strings(&[]), strings(&[]), "int main() {}"));
}

#[test]
fn the_probes_reach_the_compiler_as_planned() {
    let os = FakeOs::default();
    let mut interp = fresh(os.clone(), FakeSteps::default());
    let script = "cc = meson.get_compiler('c')\na = cc.has_argument('-Wfoo')\nl = cc.has_link_argument('-lm')\nf = cc.has_function('memcpy', args: ['-O2'])\n";
    assert_eq!(interp.interpret_string(script), Ok(()));
    let commands = os.commands.borrow();
    let argv: Vec<Vec<String>> = commands.iter().map(|c| c.1.clone()).collect();
    assert_eq!(argv.len(), 3);
    assert_eq!(argv[0][..3], ["-c".to_string(), "-Wfoo".to_string(), "-pipe".to_string()]);
    assert_eq!(argv[1][..2], ["-lm".to_string(), "-pipe".to_string()]);
    assert!(!argv[1].contains(&"-c".to_string()));
    assert_eq!(argv[2][..2], ["-O2".to_string(), "-pipe".to_string()]);
    let source = os.files.borrow().get(&argv[2][2]).cloned().unwrap();
    assert_eq!(source, b"int main() { void *p = (void*)(memcpy); return 0; }".to_vec());
    assert_eq!(argv[2][3], "-o");
}

#[test]
fn a_compiler_is_made_of_what_the_system_knows() {
    let info = CompilerInfo { bin: Path::from("cc"), flags: vec!["-pipe".to_string()] };
    let made = make_compiler("c", Ok(info), Ok(vec!["-O2".to_string()])).unwrap();
    assert_eq!((made.lang.as_str(), made.command.as_str()), ("c", "cc"));
    assert_eq!(made.flags, vec!["-O2".to_string(), "-pipe".to_string()]);
    let info = CompilerInfo { bin: Path::from("cc"), flags: vec![] };
    assert_eq!(
        make_compiler("c", Ok(info), Err(type_error("Expected compiler flags option to be an array"))),
        Err(runtime_error("Failed to determine compiler flags for language: c: Type error: Expected compiler flags option to be an array"))
    );
    assert_eq!(
        make_compiler("zig", Err("none here".to_string()), Ok(vec![])),
        Err(runtime_error("Failed to determine compiler command for language: zig: Runtime error: Failed to get compiler for language: zig: none here"))
    );
}
