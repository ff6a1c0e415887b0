//! The evaluation of the syntax tree.

use vstd::prelude::*;
use crate::interpreter::builtins::{
    add_languages, build_target, configure_file, debug, env, external_program, files, import,
    include_directories, install_headers, join_paths, option, project, run_result, variable,
};
use crate::interpreter::builtins::string::{first_string, take_first_string};
use crate::interpreter::effects::{
    function_effect, method_effect, call_effect, call_statement, loaded, file_ran,
    subdir_file, subdir_effect, lemma_effect_reads_the_state,
    lemma_method_effect_reads_the_state,
};
use crate::interpreter::error::{
    InterpreterError, ErrorView, ErrorContext, type_error, runtime_error,
};
use crate::interpreter::methods::{call_string_method, call_array_method, call_dict_method};
use crate::interpreter::objects::Object;
use crate::interpreter::ops::{add_values, apply_binary_op, apply_unary_op, subscript};
use crate::interpreter::plain::{
    world_of, plain_value, plain_values, plain_entries, lemma_plain_prefix,
    lemma_plain_entries_prefix, as_expected, letters, run_stmt, run_block, run_elifs, run_loop,
    with_var, after_turn, state_of, rest_unchanged, ran_as,
};
use crate::interpreter::semantics::{
    evaluates, row_evaluated, row_evaluates, entries_evaluated, entries_evaluate, executes,
    block_ran, block_runs, elifs_passed, turn, turns_ran, lemma_row_grows, lemma_row_fails,
    lemma_entries_grow, lemma_entries_fail, lemma_function_call, lemma_method_call,
    lemma_binary, lemma_unary, lemma_subscript, lemma_ternary, lemma_assignment,
    lemma_add_assignment, lemma_expression, lemma_conditional, lemma_foreach,
    lemma_block_grows, lemma_block_ends, lemma_block_fails, lemma_elif_passed,
    lemma_else_runs, lemma_elif_runs, lemma_elif_fails, lemma_turn_ends, lemma_turn_fails,
    lemma_turns_grow, lemma_loop_breaks, lemma_loop_fails,
};
use crate::interpreter::state::{Interpreter, kept, unchanged};
use crate::interpreter::value::{Value, ValueView, value_views, pair_views};
use crate::os::{Os, outcome_of};
use crate::parser::ast::{
    Value as AstValue, Statement, ExprView, StmtView, expr_views, entry_views, stmt_views,
    branch_views,
};
use crate::parser::statements::parse_meson_file;
use crate::path::Path;
use crate::steps::BuildSteps;
use crate::text::{str_eq, concat, chars_of, string_of, utf8_text};

verus! {

/// Makes the statements of a build description from what was read of its
/// file.
pub fn load_statements(path: &Path, read: Result<Vec<u8>, String>) -> (r: Result<
    Vec<Statement>,
    InterpreterError,
>)
    ensures
        match r {
            Ok(statements) => loaded(path@, outcome_of(read)) == Ok::<Seq<StmtView>, ErrorView>(
                stmt_views(statements@),
            ),
            Err(e) => loaded(path@, outcome_of(read)) == Err::<Seq<StmtView>, ErrorView>(e@),
        },
{
    let bytes = match read.context_runtime(concat("Failed to read file: ", path.as_str()).as_str()) {
        Ok(b) => b,
        Err(e) => return Err(e),
    };
    let code = match utf8_text(bytes) {
        Some(c) => c,
        None => {
            return Err(
                InterpreterError::RuntimeError(concat("File is not valid UTF-8: ", path.as_str())),
            );
        },
    };
    match parse_meson_file(code.as_str()) {
        Ok(s) => Ok(s),
        Err(_) => Err(InterpreterError::RuntimeError(concat("Failed to parse ", path.as_str()))),
    }
}

/// Whether a run of a build description did what `block_runs` tells of
/// its statements, where reading and parsing its file gave any.
pub open spec fn file_run<O: Os, S: BuildSteps>(
    before: &Interpreter<O, S>,
    after: &Interpreter<O, S>,
    r: Result<(), InterpreterError>,
    file: Result<Seq<StmtView>, ErrorView>,
) -> bool {
    file matches Ok(statements) ==> block_runs(statements, before, after, r)
}

/// Whether a run of the build description in the file at `path` may lead
/// from `before` to `after` and end as `r`: as `file_ran` and `file_run`
/// tell, for some outcome of reading the file.
pub open spec fn file_runs<O: Os, S: BuildSteps>(
    path: Seq<char>,
    before: &Interpreter<O, S>,
    after: &Interpreter<O, S>,
    r: Result<(), InterpreterError>,
) -> bool {
    exists|read: Result<Seq<u8>, Seq<char>>|
        file_ran(before, after, r, #[trigger] loaded(path, read)) && file_run(
            before,
            after,
            r,
            loaded(path, read),
        )
}

/// Whether a run of the build description that `code` holds may lead from
/// `before` to `after` and end as `r`. A text that does not fit the
/// grammar is a runtime error and changes nothing.
pub open spec fn string_runs<O: Os, S: BuildSteps>(
    code: Seq<char>,
    before: &Interpreter<O, S>,
    after: &Interpreter<O, S>,
    r: Result<(), InterpreterError>,
) -> bool {
    match crate::parser::grammar::program(crate::lexer::tokens_of(code)) {
        None => r matches Err(e) && e@ == ErrorView::RuntimeError(
            "Failed to parse the build description"@,
        ) && unchanged(before, after),
        Some(statements) => ran_as(
            before,
            after,
            r,
            run_block(statements, 0, state_of(before), world_of(before)),
        ) && block_runs(statements, before, after, r),
    }
}

/// Whether `inner` is `before` as `subdir(name)` enters the directory:
/// the directory is the current one, and one level less is left to
/// descend.
pub open spec fn entered<O: Os, S: BuildSteps>(
    before: &Interpreter<O, S>,
    inner: &Interpreter<O, S>,
    name: Seq<char>,
) -> bool {
    &&& inner.variables == before.variables
    &&& inner.options == before.options
    &&& inner.objects == before.objects
    &&& inner.meson == before.meson
    &&& inner.build_dir == before.build_dir
    &&& inner.break_flag == before.break_flag
    &&& inner.continue_flag == before.continue_flag
    &&& inner.current_dir@ == crate::path::joined(before.current_dir@, name)
    &&& inner.depth_left + 1 == before.depth_left
}

/// Whether `after` is `ended` as `subdir()` leaves a directory for the
/// one that was current in `before`.
pub open spec fn left<O: Os, S: BuildSteps>(
    before: &Interpreter<O, S>,
    ended: &Interpreter<O, S>,
    after: &Interpreter<O, S>,
) -> bool {
    &&& after.variables == ended.variables
    &&& after.options == ended.options
    &&& after.objects == ended.objects
    &&& after.meson == ended.meson
    &&& after.build_dir == ended.build_dir
    &&& after.break_flag == ended.break_flag
    &&& after.continue_flag == ended.continue_flag
    &&& after.current_dir == before.current_dir
    &&& after.depth_left == before.depth_left
}

/// What `subdir(name)` does in the directory, where it enters it: the
/// build description of the directory is run in the interpreter that has
/// entered, as `file_ran` and `file_run` tell for some outcome of reading
/// it, and the directory is left again, whether that run failed or not.
pub open spec fn subdir_runs<O: Os, S: BuildSteps>(
    before: &Interpreter<O, S>,
    after: &Interpreter<O, S>,
    args: Seq<ValueView>,
    r: Result<Value, InterpreterError>,
) -> bool {
    match first_string(args, "First argument to subdir must be a string"@) {
        Err(_) => true,
        Ok(name) => before.depth_left > 0 ==> exists|
            read: Result<Seq<u8>, Seq<char>>,
            inner: Interpreter<O, S>,
            ended: Interpreter<O, S>,
        |
            #![trigger loaded(subdir_file(before.current_dir@, name), read), left(before, &ended, after), entered(before, &inner, name)]
            entered(before, &inner, name) && left(before, &ended, after) && file_ran(
                &inner,
                &ended,
                match r {
                    Ok(_) => Ok(()),
                    Err(e) => Err(e),
                },
                loaded(subdir_file(before.current_dir@, name), read),
            ) && file_run(
                &inner,
                &ended,
                match r {
                    Ok(_) => Ok(()),
                    Err(e) => Err(e),
                },
                loaded(subdir_file(before.current_dir@, name), read),
            ),
    }
}

impl<O: Os, S: BuildSteps> Interpreter<O, S> {
    /// Calls the method `method` of the value `object`. Strings, arrays,
    /// dicts and objects have methods; a call on any other value is a type
    /// error.
    pub fn call_method(
        &mut self,
        object: &Value,
        method: &str,
        args: &Vec<Value>,
        kwargs: &Vec<(String, Value)>,
    ) -> (r: Result<Value, InterpreterError>)
        ensures
            kept(old(self), final(self)),
            final(self).variables == old(self).variables,
            final(self).options == old(self).options,
            final(self).meson == old(self).meson,
            final(self).break_flag == old(self).break_flag,
            final(self).continue_flag == old(self).continue_flag,
            final(self).current_dir == old(self).current_dir,
            final(self).build_dir == old(self).build_dir,
            final(self).depth_left == old(self).depth_left,
            method_effect(
                old(self),
                final(self),
                object@,
                method@,
                value_views(args@),
                pair_views(kwargs@),
                r,
            ),
    {
        match object {
            Value::String(s) => call_string_method(s, method, args, &self.objects),
            Value::Array(items) => call_array_method(items, method, args, &self.objects),
            Value::Dict(entries) => call_dict_method(entries, method, args),
            Value::Object(handle) => self.call_object_method(*handle, method, args, kwargs),
            _ => {
                let mut msg = String::from_str("Cannot call method '");
                msg.append(method);
                msg.append("' on a value without methods");
                Err(InterpreterError::TypeError(msg))
            },
        }
    }

    /// Calls the function `name`. A name that is no function of the
    /// language is an error that names it.
    pub fn call_function(
        &mut self,
        name: &str,
        args: &Vec<Value>,
        kwargs: &Vec<(String, Value)>,
    ) -> (r: Result<Value, InterpreterError>)
        ensures
            kept(old(self), final(self)),
            function_effect(
                name@,
                old(self),
                final(self),
                value_views(args@),
                pair_views(kwargs@),
                r,
            ),
        decreases 5 * old(self).depth_left + 2,
    {
        if str_eq(name, "assert") {
            debug::assert_that(args)
        } else if str_eq(name, "error") {
            debug::error(args, &self.objects)
        } else if str_eq(name, "join_paths") {
            join_paths::join_paths(args)
        } else if str_eq(name, "custom_target") {
            build_target::custom_target(args, kwargs)
        } else if str_eq(name, "test") {
            crate::interpreter::builtins::test::test(args, kwargs)
        } else if str_eq(name, "message") {
            debug::message(args, self)
        } else if str_eq(name, "warning") {
            debug::warning(args, self)
        } else if str_eq(name, "project") {
            project::project(args, kwargs, self)
        } else if str_eq(name, "option") {
            option::option(args, kwargs, self)
        } else if str_eq(name, "get_option") {
            option::get_option(args, self)
        } else if str_eq(name, "import") {
            match import::import(args) {
                Ok(fs) => Ok(self.add_object(Object::FileSystem(fs))),
                Err(e) => Err(e),
            }
        } else if str_eq(name, "run_command") {
            run_result::run_command(args, self)
        } else if str_eq(name, "set_variable") {
            variable::set_variable(args, self)
        } else if str_eq(name, "configuration_data") {
            Ok(self.add_object(Object::ConfigData(configure_file::configuration_data())))
        } else if str_eq(name, "configure_file") {
            configure_file::configure_file(kwargs, self)
        } else if str_eq(name, "is_variable") {
            variable::is_variable(args, self)
        } else if str_eq(name, "get_variable") {
            variable::get_variable(args, self)
        } else if str_eq(name, "include_directories") {
            include_directories::include_directories(args, self)
        } else if str_eq(name, "add_project_arguments") {
            project::add_project_arguments(args, kwargs, self)
        } else if str_eq(name, "add_languages") {
            add_languages::add_languages(args, kwargs, self)
        } else if str_eq(name, "files") {
            files::files(args, self)
        } else if str_eq(name, "subdir") {
            self.subdir(args)
        } else if str_eq(name, "environment") {
            match env::environment(args) {
                Ok(e) => Ok(self.add_object(Object::Env(e))),
                Err(e) => Err(e),
            }
        } else if str_eq(name, "static_library") {
            build_target::static_library(args, kwargs, self)
        } else if str_eq(name, "executable") {
            build_target::executable(args, kwargs, self)
        } else if str_eq(name, "find_program") {
            external_program::find_program(args, kwargs, self)
        } else if str_eq(name, "install_headers") {
            install_headers::install_headers(args, kwargs, self)
        } else {
            Err(InterpreterError::UndefinedFunction(String::from_str(name)))
        }
    }

    /// `subdir(name)`: runs the build description of the directory `name`,
    /// with that directory as the current one. The current directory is
    /// the same after the call as before it, whether the description ran
    /// through or failed.
    pub fn subdir(&mut self, args: &Vec<Value>) -> (r: Result<Value, InterpreterError>)
        ensures
            kept(old(self), final(self)),
            subdir_effect(old(self), final(self), value_views(args@), r),
            subdir_runs(old(self), final(self), value_views(args@), r),
        decreases 5 * old(self).depth_left + 1,
    {
        let dir = match take_first_string(args, "First argument to subdir must be a string") {
            Ok(s) => s,
            Err(e) => return Err(e),
        };
        if self.depth_left == 0 {
            return Err(runtime_error("subdir() is nested too deep"));
        }
        let pwd = self.current_dir.cloned();
        let target = pwd.join(dir);
        self.depth_left = self.depth_left - 1;
        self.current_dir = target.cloned();
        let file = target.join("meson.build");
        let ghost inner = *self;
        let res = self.interpret_file(&file);
        let ghost ended = *self;
        self.current_dir = pwd;
        self.depth_left = self.depth_left + 1;
        proof {
            let read = choose|read: Result<Seq<u8>, Seq<char>>|
                file_ran(&inner, &ended, res, #[trigger] loaded(file@, read)) && file_run(
                    &inner,
                    &ended,
                    res,
                    loaded(file@, read),
                );
            assert(state_of(&inner) == state_of(old(self)));
            assert(world_of(&inner) == world_of(old(self)));
            assert(file_ran(
                old(self),
                self,
                res,
                loaded(subdir_file(old(self).current_dir@, dir@), read),
            ));
            assert(entered(old(self), &inner, dir@));
            assert(left(old(self), &ended, self));
        }
        match res {
            Ok(_) => Ok(Value::Nothing),
            Err(e) => Err(e),
        }
    }

    /// Runs the build description in the file at `path`. A file that
    /// holds statements is run as `interpret` runs them; any other fails
    /// as `loaded` tells, and changes nothing.
    pub fn interpret_file(&mut self, path: &Path) -> (r: Result<(), InterpreterError>)
        ensures
            kept(old(self), final(self)),
            file_runs(path@, old(self), final(self), r),
        decreases 5 * old(self).depth_left + 5,
    {
        let read = self.os.read_file(path);
        let ghost outcome = outcome_of(read);
        let statements = match load_statements(path, read) {
            Ok(s) => s,
            Err(e) => {
                assert(file_ran(
                    old(self),
                    self,
                    Err::<(), InterpreterError>(e),
                    loaded(path@, outcome),
                ));
                assert(file_run(
                    old(self),
                    self,
                    Err::<(), InterpreterError>(e),
                    loaded(path@, outcome),
                ));
                return Err(e);
            },
        };
        let r = self.interpret(&statements);
        assert(file_ran(old(self), self, r, loaded(path@, outcome)));
        assert(file_run(old(self), self, r, loaded(path@, outcome)));
        r
    }

    /// Runs the statements, one after the other, until one fails or a
    /// `break` or `continue` has been met, as `block_runs` tells.
    /// Statements of which `run_block` tells anything do what it tells.
    #[verifier::loop_isolation(false)]
    pub fn interpret(&mut self, statements: &Vec<Statement>) -> (r: Result<(), InterpreterError>)
        ensures
            kept(old(self), final(self)),
            ran_as(
                old(self),
                final(self),
                r,
                run_block(stmt_views(statements@), 0, state_of(old(self)), world_of(old(self))),
            ),
            block_runs(stmt_views(statements@), old(self), final(self), r),
        decreases 5 * old(self).depth_left + 4, statements, 0int,
    {
        let ghost views = stmt_views(statements@);
        let ghost world = world_of(self);
        let ghost whole = run_block(views, 0, state_of(self), world);
        let mut i: usize = 0;
        while i < statements.len()
            invariant
                i <= statements.len(),
                kept(old(self), self),
                whole is Some ==> rest_unchanged(old(self), self) && whole == run_block(
                    views,
                    i as int,
                    state_of(self),
                    world,
                ),
                block_ran(views, i as int, old(self), self),
                i > 0 ==> !self.break_flag && !self.continue_flag,
            decreases statements.len() - i,
        {
            assert(views[i as int] == statements@[i as int]@);
            let ghost at = *self;
            match self.execute_statement(&statements[i]) {
                Ok(done) => {
                    proof {
                        assert(done == ());
                        lemma_block_grows(views, i as int + 1, old(self), &at, self);
                    }
                },
                Err(e) => {
                    proof {
                        lemma_block_fails(views, i as int, old(self), &at, self, e);
                    }
                    return Err(e);
                },
            }
            if self.break_flag || self.continue_flag {
                proof {
                    lemma_block_ends(views, i as int + 1, old(self), self);
                }
                return Ok(());
            }
            i += 1;
        }
        proof {
            lemma_block_ends(views, views.len() as int, old(self), self);
        }
        Ok(())
    }

    /// Runs the statements of a block, as `interpret` does.
    pub fn execute_block(&mut self, statements: &Vec<Statement>) -> (r: Result<
        (),
        InterpreterError,
    >)
        ensures
            kept(old(self), final(self)),
            ran_as(
                old(self),
                final(self),
                r,
                run_block(stmt_views(statements@), 0, state_of(old(self)), world_of(old(self))),
            ),
            block_runs(stmt_views(statements@), old(self), final(self), r),
    {
        self.interpret(statements)
    }
}

/// The result of a row of expressions as mathematical values.
pub open spec fn row_result(r: Result<Vec<Value>, InterpreterError>) -> Result<
    Seq<ValueView>,
    ErrorView,
> {
    match r {
        Ok(values) => Ok(value_views(values@)),
        Err(e) => Err(e@),
    }
}

/// The result of a row of named expressions as mathematical values.
pub open spec fn entries_result(r: Result<Vec<(String, Value)>, InterpreterError>) -> Result<
    Seq<(Seq<char>, ValueView)>,
    ErrorView,
> {
    match r {
        Ok(pairs) => Ok(pair_views(pairs@)),
        Err(e) => Err(e@),
    }
}

impl<O: Os, S: BuildSteps> Interpreter<O, S> {
    /// Evaluates a row of expressions, from left to right, as
    /// `row_evaluates` tells.
    #[verifier::loop_isolation(false)]
    pub fn evaluate_list(&mut self, items: &Vec<AstValue>) -> (r: Result<
        Vec<Value>,
        InterpreterError,
    >)
        ensures
            kept(old(self), final(self)),
            plain_values(expr_views(items@), old(self).var_views(), world_of(old(self))) matches Some(
                res,
            ) ==> unchanged(old(self), final(self)) && match res {
                Ok(values) => r matches Ok(v) && value_views(v@) == values,
                Err(e) => r matches Err(f) && f@ == e,
            },
            row_evaluates(expr_views(items@), old(self), final(self), row_result(r)),
        decreases 5 * old(self).depth_left + 3, items, 0int,
    {
        let ghost views = expr_views(items@);
        let ghost vars = self.var_views();
        let ghost world = world_of(self);
        let ghost whole = plain_values(views, vars, world);
        let mut out: Vec<Value> = Vec::new();
        let mut i: usize = 0;
        assert(views.take(0) =~= Seq::<ExprView>::empty());
        assert(value_views(out@) =~= Seq::<ValueView>::empty());
        while i < items.len()
            invariant
                i <= items.len(),
                kept(old(self), self),
                whole is Some ==> unchanged(old(self), self) && plain_values(
                    views.take(i as int),
                    vars,
                    world,
                ) == Some(Ok::<Seq<ValueView>, ErrorView>(value_views(out@))),
                row_evaluated(views, i as int, old(self), self, value_views(out@)),
            decreases items.len() - i,
        {
            proof {
                lemma_plain_prefix(views, vars, world, i as int + 1);
                assert(views.take(i as int + 1).drop_last() =~= views.take(i as int));
                assert(views.take(i as int + 1).last() == items@[i as int]@);
            }
            let ghost before = value_views(out@);
            let ghost at = *self;
            match self.evaluate_value(&items[i]) {
                Ok(v) => {
                    let ghost value = v;
                    out.push(v);
                    assert(value_views(out@) =~= before.push(value@));
                    proof {
                        assert(value_views(out@).drop_last() =~= before);
                        lemma_row_grows(
                            views,
                            i as int + 1,
                            old(self),
                            &at,
                            self,
                            value_views(out@),
                            value,
                        );
                    }
                },
                Err(e) => {
                    proof {
                        lemma_row_fails(views, i as int, old(self), &at, self, before, e);
                    }
                    return Err(e);
                },
            }
            i += 1;
        }
        assert(views.take(items.len() as int) =~= views);
        Ok(out)
    }

    /// Evaluates a row of named expressions, from left to right, as
    /// `entries_evaluate` tells.
    #[verifier::loop_isolation(false)]
    pub fn evaluate_entries(&mut self, entries: &Vec<(String, AstValue)>) -> (r: Result<
        Vec<(String, Value)>,
        InterpreterError,
    >)
        ensures
            kept(old(self), final(self)),
            plain_entries(entry_views(entries@), old(self).var_views(), world_of(old(self))) matches Some(
                res,
            ) ==> unchanged(old(self), final(self)) && match res {
                Ok(pairs) => r matches Ok(v) && pair_views(v@) == pairs,
                Err(e) => r matches Err(f) && f@ == e,
            },
            entries_evaluate(entry_views(entries@), old(self), final(self), entries_result(r)),
        decreases 5 * old(self).depth_left + 3, entries, 0int,
    {
        let ghost views = entry_views(entries@);
        let ghost vars = self.var_views();
        let ghost world = world_of(self);
        let ghost whole = plain_entries(views, vars, world);
        let mut out: Vec<(String, Value)> = Vec::new();
        let mut i: usize = 0;
        assert(views.take(0) =~= Seq::<(Seq<char>, ExprView)>::empty());
        assert(pair_views(out@) =~= Seq::<(Seq<char>, ValueView)>::empty());
        while i < entries.len()
            invariant
                i <= entries.len(),
                kept(old(self), self),
                whole is Some ==> unchanged(old(self), self) && plain_entries(
                    views.take(i as int),
                    vars,
                    world,
                ) == Some(Ok::<Seq<(Seq<char>, ValueView)>, ErrorView>(pair_views(out@))),
                entries_evaluated(views, i as int, old(self), self, pair_views(out@)),
            decreases entries.len() - i,
        {
            proof {
                lemma_plain_entries_prefix(views, vars, world, i as int + 1);
                assert(views.take(i as int + 1).drop_last() =~= views.take(i as int));
                assert(views.take(i as int + 1).last() == (
                    entries@[i as int].0@,
                    entries@[i as int].1@,
                ));
            }
            let ghost before = pair_views(out@);
            let ghost at = *self;
            match self.evaluate_value(&entries[i].1) {
                Ok(v) => {
                    let ghost value = v;
                    out.push((entries[i].0.clone(), v));
                    assert(pair_views(out@) =~= before.push((entries@[i as int].0@, value@)));
                    proof {
                        assert(pair_views(out@).drop_last() =~= before);
                        lemma_entries_grow(
                            views,
                            i as int + 1,
                            old(self),
                            &at,
                            self,
                            pair_views(out@),
                            value,
                        );
                    }
                },
                Err(e) => {
                    proof {
                        lemma_entries_fail(views, i as int, old(self), &at, self, before, e);
                    }
                    return Err(e);
                },
            }
            i += 1;
        }
        assert(views.take(entries.len() as int) =~= views);
        Ok(out)
    }

    /// Evaluates an expression, as `evaluates` tells. An expression of
    /// which `plain_value` tells anything has that value, and its
    /// evaluation changes nothing; a call does what `call_effect` tells.
    pub fn evaluate_value(&mut self, value: &AstValue) -> (r: Result<Value, InterpreterError>)
        ensures
            kept(old(self), final(self)),
            as_expected(
                old(self),
                final(self),
                r,
                plain_value(value@, old(self).var_views(), world_of(old(self))),
            ),
            call_effect(value@, old(self), final(self), r),
            evaluates(value@, old(self), final(self), r),
        decreases 5 * old(self).depth_left + 3, value, 0int,
    {
        match value {
            AstValue::String(s) => Ok(Value::String(s.clone())),
            AstValue::FormatString(s) => Ok(Value::String(s.clone())),
            AstValue::Integer(i) => Ok(Value::Integer(*i)),
            AstValue::Boolean(b) => Ok(Value::Boolean(*b)),
            AstValue::Array(items) => {
                match self.evaluate_list(items) {
                    Ok(values) => Ok(Value::Array(values)),
                    Err(e) => Err(e),
                }
            },
            AstValue::Dict(entries) => {
                match self.evaluate_entries(entries) {
                    Ok(pairs) => Ok(Value::Dict(pairs)),
                    Err(e) => Err(e),
                }
            },
            AstValue::Identifier(name) => match self.variables.get(name.as_str()) {
                Some(v) => Ok(v.cloned()),
                None => Err(InterpreterError::UndefinedVariable(name.clone())),
            },
            AstValue::FunctionCall(name, args, kwargs) => {
                let ghost row_views = expr_views(args@);
                let ghost named_views = entry_views(kwargs@);
                let row = self.evaluate_list(args);
                let ghost first = *self;
                let ghost a = row_result(row);
                let args = match row {
                    Ok(a) => a,
                    Err(e) => {
                        proof {
                            lemma_function_call(
                                name@,
                                row_views,
                                named_views,
                                old(self),
                                &first,
                                a,
                                &first,
                                Err(e@),
                                self,
                                Err(e),
                            );
                        }
                        return Err(e);
                    },
                };
                let named = self.evaluate_entries(kwargs);
                let ghost second = *self;
                let ghost k = entries_result(named);
                let kwargs = match named {
                    Ok(k) => k,
                    Err(e) => {
                        proof {
                            lemma_function_call(
                                name@,
                                row_views,
                                named_views,
                                old(self),
                                &first,
                                a,
                                &second,
                                k,
                                self,
                                Err(e),
                            );
                        }
                        return Err(e);
                    },
                };
                let r = self.call_function(name.as_str(), &args, &kwargs);
                proof {
                    if unchanged(old(self), &second) {
                        lemma_effect_reads_the_state(
                            name@,
                            old(self),
                            &second,
                            self,
                            value_views(args@),
                            pair_views(kwargs@),
                            r,
                        );
                    }
                    lemma_function_call(
                        name@,
                        row_views,
                        named_views,
                        old(self),
                        &first,
                        a,
                        &second,
                        k,
                        self,
                        r,
                    );
                }
                r
            },
            AstValue::MethodCall(object, method, args, kwargs) => {
                let ghost row_views = expr_views(args@);
                let ghost named_views = entry_views(kwargs@);
                let target = self.evaluate_value(object);
                let ghost first = *self;
                let ghost o = target;
                let receiver = match target {
                    Ok(v) => v,
                    Err(e) => {
                        proof {
                            lemma_method_call(
                                object@,
                                method@,
                                row_views,
                                named_views,
                                old(self),
                                &first,
                                o,
                                &first,
                                Err(e@),
                                &first,
                                Err(e@),
                                self,
                                Err(e),
                            );
                        }
                        return Err(e);
                    },
                };
                let row = self.evaluate_list(args);
                let ghost second = *self;
                let ghost a = row_result(row);
                let args = match row {
                    Ok(a) => a,
                    Err(e) => {
                        proof {
                            lemma_method_call(
                                object@,
                                method@,
                                row_views,
                                named_views,
                                old(self),
                                &first,
                                o,
                                &second,
                                a,
                                &second,
                                Err(e@),
                                self,
                                Err(e),
                            );
                        }
                        return Err(e);
                    },
                };
                let named = self.evaluate_entries(kwargs);
                let ghost third = *self;
                let ghost k = entries_result(named);
                let kwargs = match named {
                    Ok(k) => k,
                    Err(e) => {
                        proof {
                            lemma_method_call(
                                object@,
                                method@,
                                row_views,
                                named_views,
                                old(self),
                                &first,
                                o,
                                &second,
                                a,
                                &third,
                                k,
                                self,
                                Err(e),
                            );
                        }
                        return Err(e);
                    },
                };
                let r = self.call_method(&receiver, method.as_str(), &args, &kwargs);
                proof {
                    if unchanged(old(self), &third) {
                        lemma_method_effect_reads_the_state(
                            old(self),
                            &third,
                            self,
                            receiver@,
                            method@,
                            value_views(args@),
                            pair_views(kwargs@),
                            r,
                        );
                    }
                    lemma_method_call(
                        object@,
                        method@,
                        row_views,
                        named_views,
                        old(self),
                        &first,
                        o,
                        &second,
                        a,
                        &third,
                        k,
                        self,
                        r,
                    );
                }
                r
            },
            AstValue::BinaryOp(left, op, right) => {
                let lhs = self.evaluate_value(left);
                let ghost first = *self;
                let ghost lres = lhs;
                let l = match lhs {
                    Ok(v) => v,
                    Err(e) => {
                        proof {
                            lemma_binary(
                                left@,
                                *op,
                                right@,
                                old(self),
                                &first,
                                lres,
                                &first,
                                lres,
                                self,
                                Err(e),
                            );
                        }
                        return Err(e);
                    },
                };
                let rhs = self.evaluate_value(right);
                let ghost second = *self;
                let ghost rres = rhs;
                let r = match rhs {
                    Ok(v) => v,
                    Err(e) => {
                        proof {
                            lemma_binary(
                                left@,
                                *op,
                                right@,
                                old(self),
                                &first,
                                lres,
                                &second,
                                rres,
                                self,
                                Err(e),
                            );
                        }
                        return Err(e);
                    },
                };
                let out = apply_binary_op(&l, *op, &r, &self.objects);
                proof {
                    lemma_binary(
                        left@,
                        *op,
                        right@,
                        old(self),
                        &first,
                        lres,
                        &second,
                        rres,
                        self,
                        out,
                    );
                }
                out
            },
            AstValue::UnaryOp(op, operand) => {
                let inner = self.evaluate_value(operand);
                let ghost first = *self;
                let ghost res = inner;
                let v = match inner {
                    Ok(v) => v,
                    Err(e) => {
                        proof {
                            lemma_unary(*op, operand@, old(self), &first, res, self, Err(e));
                        }
                        return Err(e);
                    },
                };
                let out = apply_unary_op(*op, &v);
                proof {
                    lemma_unary(*op, operand@, old(self), &first, res, self, out);
                }
                out
            },
            AstValue::Subscript(object, index) => {
                let target = self.evaluate_value(object);
                let ghost first = *self;
                let ghost ores = target;
                let o = match target {
                    Ok(v) => v,
                    Err(e) => {
                        proof {
                            lemma_subscript(
                                object@,
                                index@,
                                old(self),
                                &first,
                                ores,
                                &first,
                                ores,
                                self,
                                Err(e),
                            );
                        }
                        return Err(e);
                    },
                };
                let place = self.evaluate_value(index);
                let ghost second = *self;
                let ghost ires = place;
                let i = match place {
                    Ok(v) => v,
                    Err(e) => {
                        proof {
                            lemma_subscript(
                                object@,
                                index@,
                                old(self),
                                &first,
                                ores,
                                &second,
                                ires,
                                self,
                                Err(e),
                            );
                        }
                        return Err(e);
                    },
                };
                let out = subscript(&o, &i);
                proof {
                    lemma_subscript(
                        object@,
                        index@,
                        old(self),
                        &first,
                        ores,
                        &second,
                        ires,
                        self,
                        out,
                    );
                }
                out
            },
            AstValue::TernaryOp(cond, yes, no) => {
                let test = self.evaluate_value(cond);
                let ghost first = *self;
                let ghost cres = test;
                let c = match test {
                    Ok(v) => v,
                    Err(e) => {
                        proof {
                            lemma_ternary(
                                cond@,
                                yes@,
                                no@,
                                old(self),
                                &first,
                                cres,
                                self,
                                Err(e),
                            );
                        }
                        return Err(e);
                    },
                };
                let out = if c.coerce_bool() {
                    self.evaluate_value(yes)
                } else {
                    self.evaluate_value(no)
                };
                proof {
                    lemma_ternary(cond@, yes@, no@, old(self), &first, cres, self, out);
                }
                out
            },
        }
    }

    /// Runs the statements of a loop body for one value of the loop
    /// variable, and tells whether the loop ends. The flag of `break` is
    /// lowered again, and without it that of `continue`.
    pub fn run_iteration(&mut self, var: &String, item: Value, body: &Vec<Statement>) -> (r:
        Result<bool, InterpreterError>)
        ensures
            kept(old(self), final(self)),
            run_block(
                stmt_views(body@),
                0,
                with_var(state_of(old(self)), var@, item@),
                world_of(old(self)),
            ) matches Some(ran) ==> rest_unchanged(old(self), final(self)) && match ran.error {
                Some(e) => r matches Err(f) && f@ == e && state_of(final(self)) == ran.state,
                None => r == Ok::<bool, InterpreterError>(ran.state.break_flag) && state_of(
                    final(self),
                ) == after_turn(ran.state),
            },
            turn(var@, item@, stmt_views(body@), old(self), final(self), r),
        decreases 5 * old(self).depth_left + 4, body, 1int,
    {
        let ghost element = item@;
        self.bind(var.clone(), item);
        assert(state_of(self).vars =~= state_of(old(self)).vars.insert(var@, element));
        let ghost set = *self;
        match self.interpret(body) {
            Ok(_) => {},
            Err(e) => {
                proof {
                    lemma_turn_fails(var@, element, stmt_views(body@), old(self), &set, self, e);
                }
                return Err(e);
            },
        }
        let ghost ended = *self;
        if self.break_flag {
            self.break_flag = false;
            proof {
                lemma_turn_ends(var@, element, stmt_views(body@), old(self), &set, ended, self);
            }
            return Ok(true);
        }
        self.continue_flag = false;
        proof {
            lemma_turn_ends(var@, element, stmt_views(body@), old(self), &set, ended, self);
        }
        Ok(false)
    }

    /// Runs one statement, as `executes` tells. A statement of which
    /// `run_stmt` tells anything does what it tells; one that is a call,
    /// or assigns one, does what `call_statement` tells.
    #[verifier::loop_isolation(false)]
    pub fn execute_statement(&mut self, statement: &Statement) -> (r: Result<
        (),
        InterpreterError,
    >)
        ensures
            kept(old(self), final(self)),
            ran_as(
                old(self),
                final(self),
                r,
                run_stmt(statement@, state_of(old(self)), world_of(old(self))),
            ),
            call_statement(statement@, old(self), final(self), r),
            executes(statement@, old(self), final(self), r),
        decreases 5 * old(self).depth_left + 4, statement, 0int,
    {
        let ghost st = state_of(self);
        let ghost world = world_of(self);
        let ghost whole = run_stmt(statement@, st, world);
        match statement {
            Statement::Assignment(name, value) => {
                let res = self.evaluate_value(value);
                let ghost at = *self;
                let ghost gave = res;
                let v = match res {
                    Ok(v) => v,
                    Err(e) => {
                        assert(call_effect(value@, old(self), &at, gave));
                        proof {
                            lemma_assignment(name@, value@, old(self), &at, gave, self, Err(e));
                        }
                        return Err(e);
                    },
                };
                self.bind(name.clone(), v);
                proof {
                    if whole is Some {
                        assert(state_of(self).vars =~= st.vars.insert(name@, v@));
                    }
                    assert(call_effect(value@, old(self), &at, gave));
                    lemma_assignment(name@, value@, old(self), &at, gave, self, Ok(()));
                }
                Ok(())
            },
            Statement::AddAssignment(name, value) => {
                let res = self.evaluate_value(value);
                let ghost at = *self;
                let ghost gave = res;
                let v = match res {
                    Ok(v) => v,
                    Err(e) => {
                        proof {
                            lemma_add_assignment(
                                name@,
                                value@,
                                old(self),
                                &at,
                                gave,
                                self,
                                Err(e),
                            );
                        }
                        return Err(e);
                    },
                };
                let combined = match self.variables.get(name.as_str()) {
                    Some(existing) => match add_values(existing, &v) {
                        Ok(c) => c,
                        Err(e) => {
                            proof {
                                lemma_add_assignment(
                                    name@,
                                    value@,
                                    old(self),
                                    &at,
                                    gave,
                                    self,
                                    Err(e),
                                );
                            }
                            return Err(e);
                        },
                    },
                    None => v,
                };
                self.bind(name.clone(), combined);
                proof {
                    if whole is Some {
                        assert(state_of(self).vars =~= st.vars.insert(name@, combined@));
                    }
                    lemma_add_assignment(name@, value@, old(self), &at, gave, self, Ok(()));
                }
                Ok(())
            },
            Statement::Expression(value) => {
                let res = self.evaluate_value(value);
                assert(call_effect(value@, old(self), self, res));
                let r = match res {
                    Ok(_) => Ok(()),
                    Err(e) => Err(e),
                };
                proof {
                    lemma_expression(value@, old(self), self, res, r);
                }
                r
            },
            Statement::If(cond, then_branch, elif_branches, else_branch) => {
                let test = self.evaluate_value(cond);
                let ghost at = *self;
                let ghost gave = test;
                let c = match test {
                    Ok(v) => v,
                    Err(e) => {
                        proof {
                            lemma_conditional(statement@, old(self), &at, gave, self, Err(e));
                        }
                        return Err(e);
                    },
                };
                if c.coerce_bool() {
                    let r = self.interpret(then_branch);
                    proof {
                        lemma_conditional(statement@, old(self), &at, gave, self, r);
                    }
                    return r;
                }
                let ghost branches = branch_views(elif_branches@);
                let mut i: usize = 0;
                while i < elif_branches.len()
                    invariant
                        i <= elif_branches.len(),
                        kept(old(self), self),
                        whole is Some ==> unchanged(old(self), self) && whole == run_elifs(
                            statement@,
                            i as int,
                            st,
                            world,
                        ),
                        elifs_passed(statement@, i as int, &at, self),
                    decreases elif_branches.len() - i,
                {
                    assert(branches[i as int] == (
                        elif_branches@[i as int].0@,
                        stmt_views(elif_branches@[i as int].1@),
                    ));
                    let ghost here = *self;
                    let c = match self.evaluate_value(&elif_branches[i].0) {
                        Ok(v) => v,
                        Err(e) => {
                            proof {
                                lemma_elif_fails(
                                    statement@,
                                    i as int,
                                    &at,
                                    &here,
                                    self,
                                    e,
                                    Err(e),
                                );
                                lemma_conditional(statement@, old(self), &at, gave, self, Err(e));
                            }
                            return Err(e);
                        },
                    };
                    if c.coerce_bool() {
                        let ghost then = *self;
                        let r = self.interpret(&elif_branches[i].1);
                        proof {
                            lemma_elif_runs(statement@, i as int, &at, &here, then, c, self, r);
                            lemma_conditional(statement@, old(self), &at, gave, self, r);
                        }
                        return r;
                    }
                    proof {
                        lemma_elif_passed(statement@, i as int + 1, &at, &here, self, c);
                    }
                    i += 1;
                }
                let ghost last = *self;
                let r = match else_branch {
                    Some(body) => self.interpret(body),
                    None => Ok(()),
                };
                proof {
                    lemma_else_runs(statement@, &at, &last, self, r);
                    lemma_conditional(statement@, old(self), &at, gave, self, r);
                }
                r
            },
            Statement::Foreach(var, iterable, body) => {
                let res = self.evaluate_value(iterable);
                let ghost at = *self;
                let ghost gave = res;
                let it = match res {
                    Ok(v) => v,
                    Err(e) => {
                        proof {
                            lemma_foreach(
                                var@,
                                iterable@,
                                stmt_views(body@),
                                old(self),
                                &at,
                                gave,
                                self,
                                Err(e),
                            );
                        }
                        return Err(e);
                    },
                };
                let items: Vec<Value> = match it {
                    Value::Array(items) => items,
                    Value::String(s) => {
                        let chars = chars_of(s.as_str());
                        let mut out: Vec<Value> = Vec::new();
                        let mut k: usize = 0;
                        while k < chars.len()
                            invariant
                                k <= chars.len(),
                                out@.len() == k,
                                forall|j: int|
                                    0 <= j < k ==> (#[trigger] out@[j])@ == ValueView::String(
                                        seq![chars@[j]],
                                    ),
                            decreases chars.len() - k,
                        {
                            let mut one: Vec<char> = Vec::new();
                            one.push(chars[k]);
                            assert(one@ =~= seq![chars@[k as int]]);
                            out.push(Value::String(string_of(&one)));
                            k += 1;
                        }
                        assert(value_views(out@) =~= letters(s@));
                        out
                    },
                    _ => {
                        let r = Err(type_error("Cannot iterate over non-iterable"));
                        proof {
                            lemma_foreach(
                                var@,
                                iterable@,
                                stmt_views(body@),
                                old(self),
                                &at,
                                gave,
                                self,
                                r,
                            );
                        }
                        return r;
                    },
                };
                let ghost elements = value_views(items@);
                let ghost bodies = stmt_views(body@);
                let mut i: usize = 0;
                while i < items.len()
                    invariant
                        i <= items.len(),
                        kept(old(self), self),
                        whole is Some ==> rest_unchanged(old(self), self) && whole == run_loop(
                            var@,
                            elements,
                            bodies,
                            i as int,
                            state_of(self),
                            world,
                        ),
                        turns_ran(var@, elements, bodies, i as int, &at, self),
                    decreases items.len() - i,
                {
                    assert(elements[i as int] == items@[i as int]@);
                    let ghost here = *self;
                    match self.run_iteration(var, items[i].cloned(), body) {
                        Ok(true) => {
                            proof {
                                lemma_loop_breaks(var@, elements, bodies, i as int, &at, &here, self);
                                lemma_foreach(
                                    var@,
                                    iterable@,
                                    bodies,
                                    old(self),
                                    &at,
                                    gave,
                                    self,
                                    Ok(()),
                                );
                            }
                            return Ok(());
                        },
                        Ok(false) => {
                            proof {
                                lemma_turns_grow(
                                    var@,
                                    elements,
                                    bodies,
                                    i as int + 1,
                                    &at,
                                    &here,
                                    self,
                                );
                            }
                        },
                        Err(e) => {
                            proof {
                                lemma_loop_fails(
                                    var@,
                                    elements,
                                    bodies,
                                    i as int,
                                    &at,
                                    &here,
                                    self,
                                    e,
                                );
                                lemma_foreach(
                                    var@,
                                    iterable@,
                                    bodies,
                                    old(self),
                                    &at,
                                    gave,
                                    self,
                                    Err(e),
                                );
                            }
                            return Err(e);
                        },
                    }
                    i += 1;
                }
                proof {
                    lemma_foreach(var@, iterable@, bodies, old(self), &at, gave, self, Ok(()));
                }
                Ok(())
            },
            Statement::Break => {
                self.break_flag = true;
                Ok(())
            },
            Statement::Continue => {
                self.continue_flag = true;
                Ok(())
            },
        }
    }

    /// Runs the build description that `code` holds.
    pub fn interpret_string(&mut self, code: &str) -> (r: Result<(), InterpreterError>)
        ensures
            kept(old(self), final(self)),
            string_runs(code@, old(self), final(self), r),
    {
        let statements = match parse_meson_file(code) {
            Ok(s) => s,
            Err(_) => return Err(runtime_error("Failed to parse the build description")),
        };
        self.interpret(&statements)
    }
}

/// What a run of `statements` in a new interpreter gives, for the project
/// at `src_dir`: the failure of a system that does not describe its
/// machines, or what the run makes of some interpreter that has run
/// nothing yet, which is handed back where the run ends well.
pub open spec fn run_of<O: Os, S: BuildSteps>(
    src_dir: Seq<char>,
    statements: Seq<StmtView>,
    r: Result<Interpreter<O, S>, InterpreterError>,
) -> bool {
    ||| r matches Err(e) && crate::interpreter::state::no_machine(e@)
    ||| exists|start: Interpreter<O, S>, end: Interpreter<O, S>|
        {
            &&& start.fresh(src_dir, crate::path::joined(src_dir, "build"@))
            &&& #[trigger] kept(&start, &end)
            &&& ran_as(
                &start,
                &end,
                match r {
                    Ok(_) => Ok(()),
                    Err(e) => Err(e),
                },
                run_block(statements, 0, state_of(&start), world_of(&start)),
            )
            &&& block_runs(
                statements,
                &start,
                &end,
                match r {
                    Ok(_) => Ok(()),
                    Err(e) => Err(e),
                },
            )
            &&& r matches Ok(interp) ==> interp == end
        }
}

/// Runs the statements in a new interpreter for the project at `src_dir`,
/// which is built in its directory `build`.
pub fn run_interpreter<O: Os, S: BuildSteps>(
    os: O,
    steps: S,
    src_dir: Path,
    statements: &Vec<Statement>,
) -> (r: Result<Interpreter<O, S>, InterpreterError>)
    ensures
        run_of(src_dir@, stmt_views(statements@), r),
        r matches Ok(interp) ==> interp.current_dir@ == src_dir@ && interp.build_dir@
            == crate::path::joined(src_dir@, "build"@),
{
    let build_dir = src_dir.join("build");
    let mut interp = match Interpreter::new(os, steps, src_dir, build_dir) {
        Ok(i) => i,
        Err(e) => return Err(e),
    };
    let ghost start = interp;
    let res = interp.interpret(statements);
    proof {
        assert(ran_as(
            &start,
            &interp,
            res,
            run_block(stmt_views(statements@), 0, state_of(&start), world_of(&start)),
        ));
    }
    match res {
        Ok(_) => Ok(interp),
        Err(e) => Err(e),
    }
}

} // verus!
