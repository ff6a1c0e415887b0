//! The state of the interpreter: the variables, the options, the objects,
//! the project and the directory in which the script runs.

use vstd::prelude::*;
use crate::interpreter::builtins::option::BuildOption;
use crate::interpreter::error::{
    InterpreterError, ErrorView, ErrorContext, runtime_error, caused, system_failed,
};
use crate::interpreter::objects::{Object, ObjectView, object_views, Machine, FileSystem};
use crate::interpreter::tables::{VarTable, OptionTable, var_map, option_map};
use crate::interpreter::value::{Value, ValueView};
use crate::os::{Os, MachineInfo};
use crate::path::Path;
use crate::steps::BuildSteps;

verus! {

/// How deep `subdir()` may nest.
pub const MAX_SUBDIR_DEPTH: usize = 64;

/// The project: what `project()` declared, and where its sources and its
/// build are.
#[derive(Debug, PartialEq)]
pub struct Meson {
    pub build_dir: Path,
    pub source_dir: Path,
    pub project_name: String,
    pub project_version: String,
    /// For each language, the arguments that every compilation of the
    /// project gets.
    pub project_args: Vec<(String, Vec<String>)>,
    pub is_subproject: bool,
}

/// The project at `source_dir`, built in `build_dir`, before `project()`
/// has named it.
pub fn meson(source_dir: Path, build_dir: Path) -> (r: Meson)
    ensures
        r.source_dir@ == source_dir@,
        r.build_dir@ == build_dir@,
        r.project_name@ == Seq::<char>::empty(),
        r.project_version@ == "0.0.0"@,
        r.project_args@.len() == 0,
        !r.is_subproject,
{
    Meson {
        build_dir,
        source_dir,
        project_name: String::new(),
        project_version: String::from_str("0.0.0"),
        project_args: Vec::new(),
        is_subproject: false,
    }
}

/// The interpreter.
pub struct Interpreter<O: Os, S: BuildSteps> {
    pub os: O,
    pub steps: S,
    pub variables: VarTable,
    pub options: OptionTable,
    /// The objects that the script has made. A value of the kind `Object`
    /// is an index into this table; entries are added and never removed.
    pub objects: Vec<Object>,
    pub meson: Meson,
    /// The directory against which the script resolves relative paths.
    pub current_dir: Path,
    pub build_dir: Path,
    /// Set by `break` until the loop around it has ended.
    pub break_flag: bool,
    /// Set by `continue` until the loop around it goes on.
    pub continue_flag: bool,
    /// How many more levels `subdir()` may descend.
    pub depth_left: usize,
}

/// What a call leaves as it was, whatever it does: the directory of the
/// script and that of the build, the depth left for `subdir()`, and the
/// objects made so far, which keep their places.
pub open spec fn kept<O: Os, S: BuildSteps>(
    before: &Interpreter<O, S>,
    after: &Interpreter<O, S>,
) -> bool {
    &&& after.current_dir@ == before.current_dir@
    &&& after.build_dir@ == before.build_dir@
    &&& after.depth_left == before.depth_left
    &&& before.objects@.len() <= after.objects@.len()
}

/// Whether `after` is `before` but for what the system and the backend
/// hold.
pub open spec fn unchanged<O: Os, S: BuildSteps>(
    before: &Interpreter<O, S>,
    after: &Interpreter<O, S>,
) -> bool {
    &&& after.variables == before.variables
    &&& after.options == before.options
    &&& after.objects == before.objects
    &&& after.meson == before.meson
    &&& after.current_dir == before.current_dir
    &&& after.build_dir == before.build_dir
    &&& after.break_flag == before.break_flag
    &&& after.continue_flag == before.continue_flag
    &&& after.depth_left == before.depth_left
}

/// The machine that `info` describes. The family of the processor is the
/// processor itself.
pub fn machine_of(info: MachineInfo) -> (r: Machine)
    ensures
        r.system@ == info.system@,
        r.cpu@ == info.cpu@,
        r.cpu_family@ == info.cpu@,
        r.endian@ == info.endian@,
{
    Machine {
        system: info.system,
        cpu_family: info.cpu.clone(),
        cpu: info.cpu,
        endian: info.endian,
    }
}

/// Whether `r` is what the interpreter makes of the answer `outcome` of the
/// system that was asked for a machine: the machine that the answer
/// describes, or the runtime error with the message `msg` and the cause
/// that the system gave where it gave no description.
pub open spec fn machine_made(
    outcome: Result<MachineInfo, String>,
    msg: Seq<char>,
    r: Result<Machine, InterpreterError>,
) -> bool {
    match outcome {
        Ok(info) => r matches Ok(m) && m.system@ == info.system@ && m.cpu@ == info.cpu@
            && m.cpu_family@ == info.cpu@ && m.endian@ == info.endian@,
        Err(cause) => r matches Err(e) && e@ == ErrorView::RuntimeError(caused(msg, cause@)),
    }
}

/// Makes the machine of the answer of the system, or the runtime error
/// with the message `msg` and the cause.
pub fn machine_answer(outcome: Result<MachineInfo, String>, msg: &str) -> (r: Result<
    Machine,
    InterpreterError,
>)
    ensures
        machine_made(outcome, msg@, r),
{
    match outcome.context_runtime(msg) {
        Ok(info) => Ok(machine_of(info)),
        Err(e) => Err(e),
    }
}

/// Whether `e` is the failure of a system that does not describe one of
/// its machines.
pub open spec fn no_machine(e: ErrorView) -> bool {
    system_failed(e, "Failed to get host machine info"@) || system_failed(
        e,
        "Failed to get build machine info"@,
    )
}

impl<O: Os, S: BuildSteps> Interpreter<O, S> {
    /// The variables as a map from names to values.
    pub open spec fn vars(&self) -> Map<Seq<char>, Value> {
        var_map(self.variables)
    }

    /// The variables as a map from names to the views of their values.
    pub open spec fn var_views(&self) -> Map<Seq<char>, ValueView> {
        Map::new(|k: Seq<char>| self.vars().contains_key(k), |k: Seq<char>| self.vars()[k]@)
    }

    /// The options as a map from names to options.
    pub open spec fn opts(&self) -> Map<Seq<char>, BuildOption> {
        option_map(self.options)
    }

    /// The objects as mathematical values.
    pub open spec fn objs(&self) -> Seq<ObjectView> {
        object_views(self.objects@)
    }

    /// Adds `object` to the table of objects and returns the value that
    /// stands for it.
    pub fn add_object(&mut self, object: Object) -> (r: Value)
        ensures
            r@ == ValueView::Object(old(self).objects@.len() as usize),
            final(self).objects@ == old(self).objects@.push(object),
            final(self).objs() == old(self).objs().push(object@),
            final(self).variables == old(self).variables,
            final(self).options == old(self).options,
            final(self).meson == old(self).meson,
            final(self).current_dir == old(self).current_dir,
            final(self).build_dir == old(self).build_dir,
            final(self).break_flag == old(self).break_flag,
            final(self).continue_flag == old(self).continue_flag,
            final(self).depth_left == old(self).depth_left,
            kept(old(self), final(self)),
    {
        let handle = self.objects.len();
        self.objects.push(object);
        assert(self.objs() =~= old(self).objs().push(object@));
        Value::Object(handle)
    }

    /// The machine that the build runs on, as the system describes it:
    /// what `machine_made` tells for the answer of the system. So the
    /// family of its processor is the processor, and a failure is the
    /// runtime error that says that the system gave no description, with
    /// the cause that the system gave.
    pub fn build_machine(&self) -> (r: Result<Machine, InterpreterError>)
        ensures
            exists|outcome: Result<MachineInfo, String>| #[trigger]
                machine_made(outcome, "Failed to get build machine info"@, r),
            match r {
                Ok(m) => m.cpu_family@ == m.cpu@,
                Err(e) => system_failed(e@, "Failed to get build machine info"@),
            },
    {
        let outcome = self.os.build_machine();
        let ghost asked = outcome;
        let r = machine_answer(outcome, "Failed to get build machine info");
        assert(machine_made(asked, "Failed to get build machine info"@, r));
        r
    }

    /// The machine that what is built will run on, as the system describes
    /// it: what `machine_made` tells for the answer of the system.
    pub fn host_machine(&self) -> (r: Result<Machine, InterpreterError>)
        ensures
            exists|outcome: Result<MachineInfo, String>| #[trigger]
                machine_made(outcome, "Failed to get host machine info"@, r),
            match r {
                Ok(m) => m.cpu_family@ == m.cpu@,
                Err(e) => system_failed(e@, "Failed to get host machine info"@),
            },
    {
        let outcome = self.os.host_machine();
        let ghost asked = outcome;
        let r = machine_answer(outcome, "Failed to get host machine info");
        assert(machine_made(asked, "Failed to get host machine info"@, r));
        r
    }

    /// Whether the interpreter is one that has run nothing yet, for the
    /// project at `src_dir`, built in `build_dir`: it holds the project,
    /// the three machines and the module `fs` as its objects, and the
    /// variables `meson`, `host_machine`, `target_machine`, `build_machine`
    /// and `fs` that stand for them, and no option.
    pub open spec fn fresh(&self, src_dir: Seq<char>, build_dir: Seq<char>) -> bool {
        &&& self.current_dir@ == src_dir
        &&& self.build_dir@ == build_dir
        &&& self.meson.source_dir@ == src_dir
        &&& self.meson.build_dir@ == build_dir
        &&& self.meson.project_name@ == Seq::<char>::empty()
        &&& self.meson.project_version@ == "0.0.0"@
        &&& self.meson.project_args@.len() == 0
        &&& !self.meson.is_subproject
        &&& self.depth_left == MAX_SUBDIR_DEPTH
        &&& !self.break_flag
        &&& !self.continue_flag
        &&& self.opts().dom() == Set::<Seq<char>>::empty()
        &&& self.objects@.len() == 5
        &&& self.objs()[0] == ObjectView::Meson
        &&& self.objs()[1] is Machine
        &&& self.objs()[2] is Machine
        &&& self.objs()[3] is Machine
        &&& self.objs()[4] == ObjectView::FileSystem
        &&& self.vars().dom() == set![
            "meson"@,
            "host_machine"@,
            "target_machine"@,
            "build_machine"@,
            "fs"@,
        ]
        &&& self.vars()["meson"@]@ == ValueView::Object(0)
        &&& self.vars()["host_machine"@]@ == ValueView::Object(1)
        &&& self.vars()["target_machine"@]@ == ValueView::Object(2)
        &&& self.vars()["build_machine"@]@ == ValueView::Object(3)
        &&& self.vars()["fs"@]@ == ValueView::Object(4)
    }

    /// An interpreter for the project at `src_dir`, built in `build_dir`,
    /// that has run nothing yet. It fails where the system does not
    /// describe its machines.
    pub fn new(os: O, steps: S, src_dir: Path, build_dir: Path) -> (r: Result<
        Interpreter<O, S>,
        InterpreterError,
    >)
        ensures
            match r {
                Ok(it) => it.fresh(src_dir@, build_dir@),
                Err(e) => no_machine(e@),
            },
    {
        let mut it = Interpreter {
            os,
            steps,
            variables: VarTable::new(),
            options: OptionTable::new(),
            objects: Vec::new(),
            meson: meson(src_dir.cloned(), build_dir.cloned()),
            current_dir: src_dir,
            build_dir,
            break_flag: false,
            continue_flag: false,
            depth_left: MAX_SUBDIR_DEPTH,
        };
        let host = match it.host_machine() {
            Ok(m) => m,
            Err(e) => return Err(e),
        };
        let target = match it.host_machine() {
            Ok(m) => m,
            Err(e) => return Err(e),
        };
        let build = match it.build_machine() {
            Ok(m) => m,
            Err(e) => return Err(e),
        };
        let v = it.add_object(Object::Meson);
        it.variables.insert(String::from_str("meson"), v);
        let v = it.add_object(Object::Machine(host));
        it.variables.insert(String::from_str("host_machine"), v);
        let v = it.add_object(Object::Machine(target));
        it.variables.insert(String::from_str("target_machine"), v);
        let v = it.add_object(Object::Machine(build));
        it.variables.insert(String::from_str("build_machine"), v);
        let v = it.add_object(Object::FileSystem(FileSystem));
        it.variables.insert(String::from_str("fs"), v);
        proof {
            reveal_strlit("meson");
            reveal_strlit("host_machine");
            reveal_strlit("target_machine");
            reveal_strlit("build_machine");
            reveal_strlit("fs");
            assert("meson"@.len() == 5 && "host_machine"@.len() == 12 && "target_machine"@.len()
                == 14 && "build_machine"@.len() == 13 && "fs"@.len() == 2);
        }
        assert(it.vars().dom() =~= set![
            "meson"@,
            "host_machine"@,
            "target_machine"@,
            "build_machine"@,
            "fs"@,
        ]);
        Ok(it)
    }

    /// The value of the option `name`, or the error that names it where no
    /// such option is declared.
    pub fn get_option(&self, name: &str) -> (r: Result<Value, InterpreterError>)
        ensures
            match r {
                Ok(v) => self.opts().contains_key(name@) && v@ == self.opts()[name@].value@,
                Err(e) => !self.opts().contains_key(name@) && e@ == ErrorView::UndefinedVariable(
                    name@,
                ),
            },
    {
        match self.options.get(name) {
            Some(opt) => Ok(opt.value.cloned()),
            None => Err(InterpreterError::UndefinedVariable(String::from_str(name))),
        }
    }
}

} // verus!
