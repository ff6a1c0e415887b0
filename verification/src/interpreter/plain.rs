//! What evaluation gives where the state alone decides it.
//!
//! Most of a build description changes nothing but variables and asks the
//! system nothing: literals, operators, subscripts, the methods of
//! strings, arrays and dicts, the methods of objects that only read, and
//! the statements made of these. Of such expressions and statements the
//! meaning is a function of the state, and it is given here as one:
//! `plain_value` for expressions, `run_stmt` and `run_block` for
//! statements. They give `None` where the evaluation reaches a call that
//! may change the interpreter or whose result the system decides.

use vstd::prelude::*;
use crate::interpreter::builtins::{debug, join_paths, option, variable};
use crate::interpreter::error::{InterpreterError, ErrorView, same_result};
use crate::interpreter::methods::{string_method, array_method, dict_method};
use crate::interpreter::objects::ObjectView;
use crate::interpreter::ops::{binary_result, unary_result, subscript_result, sum_of};
use crate::interpreter::state::{Interpreter, unchanged};
use crate::interpreter::value::{Value, ValueView, truthy};
use crate::os::Os;
use crate::parser::ast::{ExprView, StmtView};
use crate::steps::BuildSteps;

verus! {

/// What the value of an expression depends on besides the variables: the
/// objects, the options and the project.
pub struct World {
    pub objs: Seq<ObjectView>,
    pub opts: Map<Seq<char>, crate::interpreter::builtins::option::BuildOption>,
    pub meson: crate::interpreter::state::Meson,
}

/// The world of an interpreter.
pub open spec fn world_of<O: Os, S: BuildSteps>(interp: &Interpreter<O, S>) -> World {
    World { objs: interp.objs(), opts: interp.opts(), meson: interp.meson }
}

/// The value of an expression whose evaluation changes nothing in the
/// interpreter and does not depend on what the system answers, with the
/// variables `vars` in the world `world`; `None` for an expression that
/// reaches a call of another kind before it fails. The parts of an
/// expression are evaluated from left to right, and the first failure is
/// that of the whole.
pub open spec fn plain_value(e: ExprView, vars: Map<Seq<char>, ValueView>, world: World) -> Option<
    Result<ValueView, ErrorView>,
>
    decreases e,
{
    match e {
        ExprView::String(s) => Some(Ok(ValueView::String(s))),
        ExprView::FormatString(s) => Some(Ok(ValueView::String(s))),
        ExprView::Integer(i) => Some(Ok(ValueView::Integer(i))),
        ExprView::Boolean(b) => Some(Ok(ValueView::Boolean(b))),
        ExprView::Identifier(name) => Some(
            if vars.contains_key(name) {
                Ok(vars[name])
            } else {
                Err(ErrorView::UndefinedVariable(name))
            },
        ),
        ExprView::Array(items) => match plain_values(items, vars, world) {
            None => None,
            Some(Err(err)) => Some(Err(err)),
            Some(Ok(values)) => Some(Ok(ValueView::Array(values))),
        },
        ExprView::Dict(entries) => match plain_entries(entries, vars, world) {
            None => None,
            Some(Err(err)) => Some(Err(err)),
            Some(Ok(pairs)) => Some(Ok(ValueView::Dict(pairs))),
        },
        ExprView::BinaryOp(left, op, right) => match plain_value(*left, vars, world) {
            None => None,
            Some(Err(err)) => Some(Err(err)),
            Some(Ok(l)) => match plain_value(*right, vars, world) {
                None => None,
                Some(Err(err)) => Some(Err(err)),
                Some(Ok(r)) => Some(binary_result(l, op, r, world.objs)),
            },
        },
        ExprView::UnaryOp(op, operand) => match plain_value(*operand, vars, world) {
            None => None,
            Some(Err(err)) => Some(Err(err)),
            Some(Ok(v)) => Some(unary_result(op, v)),
        },
        ExprView::Subscript(object, index) => match plain_value(*object, vars, world) {
            None => None,
            Some(Err(err)) => Some(Err(err)),
            Some(Ok(o)) => match plain_value(*index, vars, world) {
                None => None,
                Some(Err(err)) => Some(Err(err)),
                Some(Ok(i)) => Some(subscript_result(o, i)),
            },
        },
        ExprView::TernaryOp(cond, yes, no) => match plain_value(*cond, vars, world) {
            None => None,
            Some(Err(err)) => Some(Err(err)),
            Some(Ok(c)) => if truthy(c) {
                plain_value(*yes, vars, world)
            } else {
                plain_value(*no, vars, world)
            },
        },
        ExprView::FunctionCall(name, args, kwargs) => match plain_values(args, vars, world) {
            None => None,
            Some(Err(err)) => Some(Err(err)),
            Some(Ok(a)) => match plain_entries(kwargs, vars, world) {
                None => None,
                Some(Err(err)) => Some(Err(err)),
                Some(Ok(k)) => plain_call(name, a, k, vars, world),
            },
        },
        ExprView::MethodCall(object, method, args, kwargs) => match plain_value(
            *object,
            vars,
            world,
        ) {
            None => None,
            Some(Err(err)) => Some(Err(err)),
            Some(Ok(o)) => match plain_values(args, vars, world) {
                None => None,
                Some(Err(err)) => Some(Err(err)),
                Some(Ok(a)) => match plain_entries(kwargs, vars, world) {
                    None => None,
                    Some(Err(err)) => Some(Err(err)),
                    Some(Ok(k)) => plain_method(o, method, a, k, world),
                },
            },
        },
    }
}

/// What a call of the function `name` gives where the arguments and what
/// the interpreter holds decide it and the call changes nothing; `None`
/// for the other functions. A name that is no function fails.
pub open spec fn plain_call(
    name: Seq<char>,
    args: Seq<ValueView>,
    kwargs: Seq<(Seq<char>, ValueView)>,
    vars: Map<Seq<char>, ValueView>,
    world: World,
) -> Option<Result<ValueView, ErrorView>> {
    if answers_plainly(name) {
        Some(plain_answer(name, args, world.objs))
    } else if name == "project"@ || name == "option"@ {
        None
    } else if name == "get_option"@ {
        Some(option::get_option_result(world.opts, args))
    } else if name == "import"@ || name == "run_command"@ || name == "set_variable"@ || name
        == "configuration_data"@ || name == "configure_file"@ {
        None
    } else if name == "is_variable"@ {
        Some(variable::is_variable_result(vars, args))
    } else if name == "get_variable"@ {
        Some(variable::get_variable_result(vars, args))
    } else if is_function(name) {
        None
    } else {
        Some(Err(ErrorView::UndefinedFunction(name)))
    }
}

/// What a call of the method `method` of the value `receiver` gives where
/// it only reads; `None` for a method that asks the system, changes its
/// receiver or makes an object.
pub open spec fn plain_method(
    receiver: ValueView,
    method: Seq<char>,
    args: Seq<ValueView>,
    kwargs: Seq<(Seq<char>, ValueView)>,
    world: World,
) -> Option<Result<ValueView, ErrorView>> {
    match receiver {
        ValueView::String(s) => Some(string_method(s, method, args, world.objs)),
        ValueView::Array(items) => Some(array_method(items, method, args, world.objs)),
        ValueView::Dict(entries) => Some(dict_method(entries, method, args)),
        ValueView::Object(handle) => if handle >= world.objs.len() {
            Some(Err(ErrorView::RuntimeError("No such object"@)))
        } else {
            let o = world.objs[handle as int];
            if !crate::interpreter::methods::has_method(o, method) {
                Some(
                    Err(
                        crate::interpreter::methods::unknown_method(
                            method,
                            crate::interpreter::objects::kind_name(o) + " object"@,
                        ),
                    ),
                )
            } else {
                match crate::interpreter::methods::reading_method(o, method, args) {
                    Some(res) => Some(res),
                    None => crate::interpreter::methods::project_method(
                        o,
                        world.meson,
                        method,
                        args,
                    ),
                }
            }
        },
        _ => Some(Err(no_methods(method))),
    }
}

/// The values of a row of expressions, where every one of them has a
/// value by `plain_value`.
pub open spec fn plain_values(items: Seq<ExprView>, vars: Map<Seq<char>, ValueView>, world: World) -> Option<
    Result<Seq<ValueView>, ErrorView>,
>
    decreases items,
{
    if items.len() == 0 {
        Some(Ok(Seq::empty()))
    } else {
        match plain_values(items.drop_last(), vars, world) {
            None => None,
            Some(Err(err)) => Some(Err(err)),
            Some(Ok(values)) => match plain_value(items.last(), vars, world) {
                None => None,
                Some(Err(err)) => Some(Err(err)),
                Some(Ok(v)) => Some(Ok(values.push(v))),
            },
        }
    }
}

/// The values of a row of named expressions, each under its name, where
/// every one of them has a value by `plain_value`.
pub open spec fn plain_entries(
    entries: Seq<(Seq<char>, ExprView)>,
    vars: Map<Seq<char>, ValueView>,
    world: World,
) -> Option<Result<Seq<(Seq<char>, ValueView)>, ErrorView>>
    decreases entries,
{
    if entries.len() == 0 {
        Some(Ok(Seq::empty()))
    } else {
        match plain_entries(entries.drop_last(), vars, world) {
            None => None,
            Some(Err(err)) => Some(Err(err)),
            Some(Ok(pairs)) => match plain_value(entries.last().1, vars, world) {
                None => None,
                Some(Err(err)) => Some(Err(err)),
                Some(Ok(v)) => Some(Ok(pairs.push((entries.last().0, v)))),
            },
        }
    }
}

/// Whether the function `name` leaves a result that its arguments alone
/// decide, and changes nothing.
pub open spec fn answers_plainly(name: Seq<char>) -> bool {
    name == "assert"@ || name == "error"@ || name == "join_paths"@ || name == "custom_target"@
        || name == "test"@ || name == "message"@ || name == "warning"@
}

/// What the functions give that `answers_plainly` names.
pub open spec fn plain_answer(
    name: Seq<char>,
    args: Seq<ValueView>,
    objs: Seq<ObjectView>,
) -> Result<ValueView, ErrorView> {
    if name == "assert"@ {
        debug::assert_result(args)
    } else if name == "error"@ {
        Err(
            ErrorView::RuntimeError(
                crate::text::join_text(crate::interpreter::value::value_texts(args, objs), " "@),
            ),
        )
    } else if name == "join_paths"@ {
        join_paths::join_paths_result(args)
    } else {
        Ok(ValueView::Nothing)
    }
}

/// Whether the language has a function of the name `name`.
pub open spec fn is_function(name: Seq<char>) -> bool {
    answers_plainly(name) || name == "project"@ || name == "option"@ || name == "get_option"@
        || name == "import"@ || name == "run_command"@ || name == "set_variable"@ || name
        == "configuration_data"@ || name == "configure_file"@ || name == "is_variable"@ || name
        == "get_variable"@ || name == "include_directories"@ || name == "add_project_arguments"@
        || name == "add_languages"@ || name == "files"@ || name == "subdir"@ || name
        == "environment"@ || name == "static_library"@ || name == "executable"@ || name
        == "find_program"@ || name == "install_headers"@
}

/// Where the values of a row of expressions are plain, so are those of
/// every row that begins it, and a failure among them is that of the whole.
pub proof fn lemma_plain_prefix(
    items: Seq<ExprView>,
    vars: Map<Seq<char>, ValueView>,
    world: World,
    k: int,
)
    requires
        0 <= k <= items.len(),
    ensures
        match plain_values(items.take(k), vars, world) {
            None => plain_values(items, vars, world) is None,
            Some(Err(e)) => plain_values(items, vars, world) == Some(
                Err::<Seq<ValueView>, ErrorView>(e),
            ),
            Some(Ok(_)) => true,
        },
    decreases items.len() - k,
{
    if k < items.len() {
        lemma_plain_prefix(items, vars, world, k + 1);
        assert(items.take(k + 1).drop_last() =~= items.take(k));
    } else {
        assert(items.take(k) =~= items);
    }
}

/// The same for rows of named expressions.
pub proof fn lemma_plain_entries_prefix(
    entries: Seq<(Seq<char>, ExprView)>,
    vars: Map<Seq<char>, ValueView>,
    world: World,
    k: int,
)
    requires
        0 <= k <= entries.len(),
    ensures
        match plain_entries(entries.take(k), vars, world) {
            None => plain_entries(entries, vars, world) is None,
            Some(Err(e)) => plain_entries(entries, vars, world) == Some(
                Err::<Seq<(Seq<char>, ValueView)>, ErrorView>(e),
            ),
            Some(Ok(_)) => true,
        },
    decreases entries.len() - k,
{
    if k < entries.len() {
        lemma_plain_entries_prefix(entries, vars, world, k + 1);
        assert(entries.take(k + 1).drop_last() =~= entries.take(k));
    } else {
        assert(entries.take(k) =~= entries);
    }
}

/// Whether the result `r` of an evaluation and the state `after` it are
/// what `expected` tells, where it tells anything: the result is the one
/// expected, and nothing has changed.
pub open spec fn as_expected<O: Os, S: BuildSteps>(
    before: &Interpreter<O, S>,
    after: &Interpreter<O, S>,
    r: Result<Value, InterpreterError>,
    expected: Option<Result<ValueView, ErrorView>>,
) -> bool {
    expected matches Some(res) ==> same_result(r, res) && unchanged(before, after)
}

/// The error for a method call on a value that has no methods.
pub open spec fn no_methods(method: Seq<char>) -> ErrorView {
    ErrorView::TypeError("Cannot call method '"@ + method + "' on a value without methods"@)
}

/// What statements change whose expressions have their values by
/// `plain_value`: the variables and the two flags of `break` and
/// `continue`.
pub struct PlainState {
    pub vars: Map<Seq<char>, ValueView>,
    pub break_flag: bool,
    pub continue_flag: bool,
}

/// How a run ended: the state it left, and the failure that ended it, if
/// one did.
pub struct Ran {
    pub state: PlainState,
    pub error: Option<ErrorView>,
}

/// The run that ended well in the state `state`.
pub open spec fn done(state: PlainState) -> Option<Ran> {
    Some(Ran { state, error: None })
}

/// The run that failed with `error` in the state `state`.
pub open spec fn failed(state: PlainState, error: ErrorView) -> Option<Ran> {
    Some(Ran { state, error: Some(error) })
}

/// The state with `name` bound to `value`.
pub open spec fn with_var(st: PlainState, name: Seq<char>, value: ValueView) -> PlainState {
    PlainState { vars: st.vars.insert(name, value), ..st }
}

/// The characters of a string, each as a string of its own.
pub open spec fn letters(s: Seq<char>) -> Seq<ValueView> {
    Seq::new(s.len(), |i: int| ValueView::String(seq![s[i]]))
}

/// What one statement does from the state `st`, where nothing in it calls
/// a function or a method; `None` where something does. An assignment
/// binds the variable, `+=` binds it to the sum of what it held and the
/// value, or to the value where it held nothing. A conditional runs the
/// first branch whose condition counts as true, or else the `else`
/// branch. A loop binds its variable to each element of an array, or to
/// each character of a string, and runs its body; the variable stays
/// bound afterwards. `break` and `continue` raise their flags.
pub open spec fn run_stmt(s: StmtView, st: PlainState, world: World) -> Option<Ran>
    decreases s, 3int, 0int,
{
    match s {
        StmtView::Assignment(name, e) => match plain_value(e, st.vars, world) {
            None => None,
            Some(Err(err)) => failed(st, err),
            Some(Ok(v)) => done(with_var(st, name, v)),
        },
        StmtView::AddAssignment(name, e) => match plain_value(e, st.vars, world) {
            None => None,
            Some(Err(err)) => failed(st, err),
            Some(Ok(v)) => if st.vars.contains_key(name) {
                match sum_of(st.vars[name], v) {
                    Ok(sum) => done(with_var(st, name, sum)),
                    Err(err) => failed(st, err),
                }
            } else {
                done(with_var(st, name, v))
            },
        },
        StmtView::Expression(e) => match plain_value(e, st.vars, world) {
            None => None,
            Some(Err(err)) => failed(st, err),
            Some(Ok(_)) => done(st),
        },
        StmtView::If(cond, then_branch, elif_branches, else_branch) => match plain_value(
            cond,
            st.vars,
            world,
        ) {
            None => None,
            Some(Err(err)) => failed(st, err),
            Some(Ok(c)) => if truthy(c) {
                run_block(then_branch, 0, st, world)
            } else {
                run_elifs(s, 0, st, world)
            },
        },
        StmtView::Foreach(var, iterable, body) => match plain_value(iterable, st.vars, world) {
            None => None,
            Some(Err(err)) => failed(st, err),
            Some(Ok(ValueView::Array(items))) => run_loop(var, items, body, 0, st, world),
            Some(Ok(ValueView::String(text))) => run_loop(var, letters(text), body, 0, st, world),
            Some(Ok(_)) => failed(st, ErrorView::TypeError("Cannot iterate over non-iterable"@)),
        },
        StmtView::Break => done(PlainState { break_flag: true, ..st }),
        StmtView::Continue => done(PlainState { continue_flag: true, ..st }),
    }
}

/// What the statements from the index `i` on do, one after the other: the
/// run ends with the first failure, and behind the first statement that
/// leaves a flag raised.
pub open spec fn run_block(stmts: Seq<StmtView>, i: int, st: PlainState, world: World) -> Option<
    Ran,
>
    decreases stmts, 1int, stmts.len() - i,
{
    if i < 0 || i >= stmts.len() {
        done(st)
    } else {
        match run_stmt(stmts[i], st, world) {
            None => None,
            Some(ran) => if ran.error is Some || ran.state.break_flag || ran.state.continue_flag {
                Some(ran)
            } else {
                run_block(stmts, i + 1, ran.state, world)
            },
        }
    }
}

/// What the `elif` branches of the conditional `s` do from the index `i`
/// on, and its `else` branch where none of their conditions counts as
/// true.
pub open spec fn run_elifs(s: StmtView, i: int, st: PlainState, world: World) -> Option<
    Ran,
>
    decreases s, 2int, (if s is If { s->If_2.len() - i } else { 0 }),
{
    match s {
        StmtView::If(_, _, elifs, otherwise) => if i < 0 || i >= elifs.len() {
            match otherwise {
                Some(body) => run_block(body, 0, st, world),
                None => done(st),
            }
        } else {
            match plain_value(elifs[i].0, st.vars, world) {
                None => None,
                Some(Err(err)) => failed(st, err),
                Some(Ok(c)) => if truthy(c) {
                    run_block(elifs[i].1, 0, st, world)
                } else {
                    run_elifs(s, i + 1, st, world)
                },
            }
        },
        _ => done(st),
    }
}

/// What one turn of a loop leaves of the state: a raised flag of `break`
/// is lowered, and without it that of `continue`.
pub open spec fn after_turn(st: PlainState) -> PlainState {
    if st.break_flag {
        PlainState { break_flag: false, ..st }
    } else {
        PlainState { continue_flag: false, ..st }
    }
}

/// What a loop does for the elements from the index `i` on: each turn
/// binds the variable and runs the body; a failure ends the loop, and so
/// does `break`.
pub open spec fn run_loop(
    var: Seq<char>,
    items: Seq<ValueView>,
    body: Seq<StmtView>,
    i: int,
    st: PlainState,
    world: World,
) -> Option<Ran>
    decreases body, 2int, items.len() - i,
{
    if i < 0 || i >= items.len() {
        done(st)
    } else {
        match run_block(body, 0, with_var(st, var, items[i]), world) {
            None => None,
            Some(ran) => if ran.error is Some {
                Some(ran)
            } else if ran.state.break_flag {
                done(after_turn(ran.state))
            } else {
                run_loop(var, items, body, i + 1, after_turn(ran.state), world)
            },
        }
    }
}

/// The state of an interpreter, as far as statements without calls can
/// change it.
pub open spec fn state_of<O: Os, S: BuildSteps>(interp: &Interpreter<O, S>) -> PlainState {
    PlainState {
        vars: interp.var_views(),
        break_flag: interp.break_flag,
        continue_flag: interp.continue_flag,
    }
}

/// Whether `after` differs from `before` in nothing but the variables and
/// the two flags.
pub open spec fn rest_unchanged<O: Os, S: BuildSteps>(
    before: &Interpreter<O, S>,
    after: &Interpreter<O, S>,
) -> bool {
    &&& after.options == before.options
    &&& after.objects == before.objects
    &&& after.meson == before.meson
    &&& after.current_dir == before.current_dir
    &&& after.build_dir == before.build_dir
    &&& after.depth_left == before.depth_left
}

/// Whether the result `r` of a run and the state `after` it are what `ran`
/// tells, where it tells anything.
pub open spec fn ran_as<O: Os, S: BuildSteps>(
    before: &Interpreter<O, S>,
    after: &Interpreter<O, S>,
    r: Result<(), InterpreterError>,
    ran: Option<Ran>,
) -> bool {
    ran matches Some(x) ==> rest_unchanged(before, after) && state_of(after) == x.state && match x.error {
        Some(e) => r matches Err(f) && f@ == e,
        None => r is Ok,
    }
}

} // verus!
