//! The entry point: a build with its options, run from the directory of
//! the sources.

use vstd::prelude::*;
use crate::assoc::{upsert, names, string_names, find_key};
use crate::interpreter::builtins::option::option_set;
use crate::interpreter::error::InterpreterError;
use crate::interpreter::eval::{file_runs, string_runs};
use crate::interpreter::objects::text_pairs;
use crate::interpreter::semantics::stage;
use crate::interpreter::state::{Interpreter, no_machine, unchanged};
use crate::path::{joined, slashed};
use crate::os::Os;
use crate::path::Path;
use crate::steps::BuildSteps;

verus! {

/// The options that every build has, declared in the build language. They
/// are read before the options of the project.
pub open spec fn builtin_options_text() -> Seq<char> {
    "option('buildtype', type: 'combo', choices: ['plain', 'debug', 'debugoptimized', 'release', 'minsize', 'custom'], value: 'debug', description: 'Build type to use')\noption('prefix', type: 'string', value: '/usr/local', description: 'Installation prefix')\noption('bindir', type: 'string', value: 'bin', description: 'Executable directory')\noption('libdir', type: 'string', value: 'lib', description: 'Library directory')\noption('includedir', type: 'string', value: 'include', description: 'Header file directory')\noption('datadir', type: 'string', value: 'share', description: 'Data file directory')\noption('c_args', type: 'array', value: [], description: 'C compile arguments')\noption('cpp_args', type: 'array', value: [], description: 'C++ compile arguments')\n"@
}

/// The declarations of the options that every build has.
pub fn builtin_options() -> (r: &'static str)
    ensures
        r@ == builtin_options_text(),
{
    "option('buildtype', type: 'combo', choices: ['plain', 'debug', 'debugoptimized', 'release', 'minsize', 'custom'], value: 'debug', description: 'Build type to use')\noption('prefix', type: 'string', value: '/usr/local', description: 'Installation prefix')\noption('bindir', type: 'string', value: 'bin', description: 'Executable directory')\noption('libdir', type: 'string', value: 'lib', description: 'Library directory')\noption('includedir', type: 'string', value: 'include', description: 'Header file directory')\noption('datadir', type: 'string', value: 'share', description: 'Data file directory')\noption('c_args', type: 'array', value: [], description: 'C compile arguments')\noption('cpp_args', type: 'array', value: [], description: 'C++ compile arguments')\n"
}

/// Whether the first `k` of the options were given their values, from
/// `before` to `after`, and none of them failed.
pub open spec fn options_set<O: Os, S: BuildSteps>(
    options: Seq<(Seq<char>, Seq<char>)>,
    k: int,
    before: &Interpreter<O, S>,
    after: &Interpreter<O, S>,
) -> bool
    decreases k,
{
    if k <= 0 {
        unchanged(before, after)
    } else {
        k <= options.len() && exists|at: Interpreter<O, S>|
            {
                &&& #[trigger] stage(&at, k)
                &&& options_set(options, k - 1, before, &at)
                &&& option_set(&at, after, options[k - 1].0, options[k - 1].1, Ok(()))
            }
    }
}

/// The last step of a build, from the state `before`: `meson.build` is
/// run, and the interpreter is handed back where that run ends well.
pub open spec fn described<O: Os, S: BuildSteps>(
    src: Seq<char>,
    before: &Interpreter<O, S>,
    r: Result<Interpreter<O, S>, InterpreterError>,
) -> bool {
    exists|after: Interpreter<O, S>, ran: Result<(), InterpreterError>|
        {
            &&& #[trigger] stage(&after, ran)
            &&& file_runs(joined(src, "meson.build"@), before, &after, ran)
            &&& match ran {
                Ok(_) => r matches Ok(interp) && interp == after,
                Err(e) => r matches Err(y) && y@ == e@,
            }
        }
}

/// The steps of a build behind the options files, from the state
/// `before`: the options that were set are given their values, in their
/// order, and the first that fails ends the build; then the build is
/// `described`.
pub open spec fn configured<O: Os, S: BuildSteps>(
    src: Seq<char>,
    options: Seq<(Seq<char>, Seq<char>)>,
    before: &Interpreter<O, S>,
    r: Result<Interpreter<O, S>, InterpreterError>,
) -> bool {
    ||| exists|k: int, at: Interpreter<O, S>, then: Interpreter<O, S>, e: InterpreterError|
        {
            &&& #[trigger] stage(&at, (k, then, e))
            &&& 0 <= k < options.len()
            &&& options_set(options, k, before, &at)
            &&& option_set(&at, &then, options[k].0, options[k].1, Err(e))
            &&& r matches Err(y) && y@ == e@
        }
    ||| exists|at: Interpreter<O, S>|
        {
            &&& #[trigger] stage(&at, ())
            &&& options_set(options, options.len() as int, before, &at)
            &&& described(src, &at, r)
        }
}

/// The steps of a build behind the options that every build has, from the
/// state `before`: `meson_options.txt` is run, where the system finds it,
/// and a failure of that run ends the build; then the build is
/// `configured`.
pub open spec fn opened<O: Os, S: BuildSteps>(
    src: Seq<char>,
    options: Seq<(Seq<char>, Seq<char>)>,
    before: &Interpreter<O, S>,
    r: Result<Interpreter<O, S>, InterpreterError>,
) -> bool {
    ||| configured(src, options, before, r)
    ||| exists|at: Interpreter<O, S>, ran: Result<(), InterpreterError>|
        {
            &&& #[trigger] stage(&at, ran)
            &&& file_runs(joined(src, "meson_options.txt"@), before, &at, ran)
            &&& match ran {
                Ok(_) => configured(src, options, &at, r),
                Err(e) => r matches Err(y) && y@ == e@,
            }
        }
}

/// What a build of the project at `src`, built in `bld` with the options
/// `options`, gives. It fails where the system does not describe its
/// machines. Else an interpreter that has run nothing yet runs the
/// declarations of the options that every build has, and a failure of
/// that run ends the build; then the build is `opened`.
pub open spec fn built<O: Os, S: BuildSteps>(
    src: Seq<char>,
    bld: Seq<char>,
    options: Seq<(Seq<char>, Seq<char>)>,
    r: Result<Interpreter<O, S>, InterpreterError>,
) -> bool {
    ||| r matches Err(e) && no_machine(e@)
    ||| exists|start: Interpreter<O, S>, at: Interpreter<O, S>, ran: Result<(), InterpreterError>|
        {
            &&& #[trigger] stage(&at, (start, ran))
            &&& start.fresh(src, bld)
            &&& string_runs(builtin_options_text(), &start, &at, ran)
            &&& match ran {
                Ok(_) => opened(src, options, &at, r),
                Err(e) => r matches Err(y) && y@ == e@,
            }
        }
}

/// A build: the system, the backend, and the options that were set for
/// it.
pub struct Meson<O: Os, S: BuildSteps> {
    pub os: O,
    pub steps: S,
    /// The options, each name once, in the order in which the names were
    /// first set.
    pub options: Vec<(String, String)>,
}

impl<O: Os, S: BuildSteps> Meson<O, S> {
    /// A build on the system `os` for the backend `steps`, without
    /// options.
    pub fn new(os: O, steps: S) -> (r: Self)
        ensures
            text_pairs(r.options@) == Seq::<(Seq<char>, Seq<char>)>::empty(),
    {
        let options: Vec<(String, String)> = Vec::new();
        assert(text_pairs(options@) =~= Seq::<(Seq<char>, Seq<char>)>::empty());
        Meson { os, steps, options }
    }

    /// Sets the option `name` to `value`. The value set last counts.
    pub fn option(&mut self, name: &str, value: &str)
        ensures
            text_pairs(final(self).options@) == upsert(
                text_pairs(old(self).options@),
                name@,
                value@,
            ),
    {
        let ghost before = text_pairs(self.options@);
        assert(names(before) =~= string_names(self.options@));
        match find_key(&self.options, name) {
            Some(i) => {
                self.options.set(i, (String::from_str(name), String::from_str(value)));
                assert(text_pairs(self.options@) =~= before.update(i as int, (name@, value@)));
            },
            None => {
                self.options.push((String::from_str(name), String::from_str(value)));
                assert(text_pairs(self.options@) =~= before.push((name@, value@)));
            },
        }
    }

    /// Runs the build description of the project at `src_dir`: first the
    /// options that every build has, then `meson_options.txt`, where the
    /// project has one, then the options that were set, in their order,
    /// and at last `meson.build`. The first failure ends the run and is
    /// returned; the current directory of the interpreter that is handed
    /// back is the directory of the sources, as at the start.
    #[verifier::loop_isolation(false)]
    pub fn build(self, src_dir: &str, build_dir: &str) -> (r: Result<
        Interpreter<O, S>,
        InterpreterError,
    >)
        ensures
            built(slashed(src_dir@), slashed(build_dir@), text_pairs(self.options@), r),
            r matches Ok(interp) ==> interp.current_dir@ == slashed(src_dir@)
                && interp.build_dir@ == slashed(build_dir@),
    {
        let ghost wanted = text_pairs(self.options@);
        let src = Path::from(src_dir);
        let bld = Path::from(build_dir);
        let options = self.options;
        let mut interp = match Interpreter::new(self.os, self.steps, src.cloned(), bld) {
            Ok(i) => i,
            Err(e) => return Err(e),
        };
        let ghost start = interp;
        let declared = interp.interpret_string(builtin_options());
        let ghost first = interp;
        proof {
            assert(stage(&first, (start, declared)));
        }
        match declared {
            Ok(_) => {},
            Err(e) => return Err(e),
        }
        let options_path = src.join("meson_options.txt");
        let has_options = match interp.os.path_exists(&options_path) {
            Ok(b) => b,
            Err(_) => false,
        };
        let read = if has_options {
            interp.interpret_file(&options_path)
        } else {
            Ok(())
        };
        let ghost second = interp;
        proof {
            assert(stage(&second, read));
        }
        match read {
            Ok(_) => {},
            Err(e) => return Err(e),
        }
        let mut i: usize = 0;
        while i < options.len()
            invariant
                i <= options.len(),
                wanted == text_pairs(options@),
                interp.current_dir@ == slashed(src_dir@),
                interp.build_dir@ == slashed(build_dir@),
                options_set(wanted, i as int, &second, &interp),
            decreases options.len() - i,
        {
            let ghost at = interp;
            match interp.set_option(options[i].0.as_str(), options[i].1.as_str()) {
                Ok(done) => {
                    proof {
                        assert(done == ());
                        assert(stage(&at, i as int + 1));
                    }
                },
                Err(e) => {
                    proof {
                        assert(stage(&at, (i as int, interp, e)));
                        assert(configured(
                            slashed(src_dir@),
                            wanted,
                            &second,
                            Err::<Interpreter<O, S>, InterpreterError>(e),
                        ));
                    }
                    return Err(e);
                },
            }
            i += 1;
        }
        let ghost third = interp;
        let ran = interp.interpret_file(&src.join("meson.build"));
        proof {
            assert(stage(&interp, ran));
            assert(stage(&third, ()));
        }
        match ran {
            Ok(_) => {
                let r = Ok(interp);
                assert(described(slashed(src_dir@), &third, r));
                assert(configured(slashed(src_dir@), wanted, &second, r));
                r
            },
            Err(e) => {
                let r = Err(e);
                assert(described(slashed(src_dir@), &third, r));
                assert(configured(slashed(src_dir@), wanted, &second, r));
                r
            },
        }
    }
}

} // verus!
