//! What evaluation does, as relations between the interpreter before and
//! after it.
//!
//! A call may change the interpreter, and what it gives may depend on what
//! the system answers. So the meaning of an expression or a statement is
//! no function of the state: it is a relation between the state before,
//! the state after and the result. The relations follow the syntax. The
//! parts of an expression are evaluated from left to right, each in the
//! state that the one before it left; the first failure ends the
//! evaluation and leaves the state as it then is. What a call itself does
//! is told by `function_effect` and `method_effect`; whatever it does, it
//! leaves the current directory as it was.

use vstd::prelude::*;
use crate::interpreter::builtins::variable::{bound, only_variables_changed};
use crate::interpreter::effects::{function_effect, method_effect};
use crate::interpreter::error::{InterpreterError, ErrorView, same_result};
use crate::interpreter::ops::{binary_result, unary_result, subscript_result, sum_of};
use crate::interpreter::plain::letters;
use crate::interpreter::state::{Interpreter, kept, unchanged};
use crate::interpreter::value::{Value, ValueView, truthy};
use crate::os::Os;
use crate::parser::ast::{ExprView, StmtView};
use crate::steps::BuildSteps;

verus! {

/// A stage of an evaluation: the state `at` that it left, and what it
/// gave. This holds of every state and every result; it serves to name
/// the two where a relation says that there are such.
pub open spec fn stage<O: Os, S: BuildSteps, T>(at: &Interpreter<O, S>, gave: T) -> bool {
    true
}

/// Whether an evaluation failed with the error `x` in the state `at`,
/// which is the state that it left.
pub open spec fn fails<O: Os, S: BuildSteps, T>(
    at: &Interpreter<O, S>,
    after: &Interpreter<O, S>,
    r: Result<T, InterpreterError>,
    x: ErrorView,
) -> bool {
    unchanged(at, after) && (r matches Err(y) && y@ == x)
}

/// Whether the evaluation of the expression `e` in the state `before` may
/// leave the state `after` and give `r`.
pub open spec fn evaluates<O: Os, S: BuildSteps>(
    e: ExprView,
    before: &Interpreter<O, S>,
    after: &Interpreter<O, S>,
    r: Result<Value, InterpreterError>,
) -> bool
    decreases e, 0int, 0int,
{
    match e {
        ExprView::String(s) => unchanged(before, after) && same_result(
            r,
            Ok(ValueView::String(s)),
        ),
        ExprView::FormatString(s) => unchanged(before, after) && same_result(
            r,
            Ok(ValueView::String(s)),
        ),
        ExprView::Integer(i) => unchanged(before, after) && same_result(
            r,
            Ok(ValueView::Integer(i)),
        ),
        ExprView::Boolean(b) => unchanged(before, after) && same_result(
            r,
            Ok(ValueView::Boolean(b)),
        ),
        ExprView::Identifier(name) => unchanged(before, after) && same_result(
            r,
            if before.var_views().contains_key(name) {
                Ok(before.var_views()[name])
            } else {
                Err(ErrorView::UndefinedVariable(name))
            },
        ),
        ExprView::Array(items) => match r {
            Ok(v) => v@ matches ValueView::Array(values) && row_evaluates(
                items,
                before,
                after,
                Ok(values),
            ),
            Err(x) => row_evaluates(items, before, after, Err(x@)),
        },
        ExprView::Dict(entries) => match r {
            Ok(v) => v@ matches ValueView::Dict(pairs) && entries_evaluate(
                entries,
                before,
                after,
                Ok(pairs),
            ),
            Err(x) => entries_evaluate(entries, before, after, Err(x@)),
        },
        ExprView::FunctionCall(name, args, kwargs) => exists|
            first: Interpreter<O, S>,
            a: Result<Seq<ValueView>, ErrorView>,
        |
            #[trigger] stage(&first, a) && row_evaluates(args, before, &first, a) && match a {
                Err(x) => fails(&first, after, r, x),
                Ok(values) => exists|
                    second: Interpreter<O, S>,
                    k: Result<Seq<(Seq<char>, ValueView)>, ErrorView>,
                |
                    #[trigger] stage(&second, k)
                        && entries_evaluate(kwargs, &first, &second, k)
                        && match k {
                        Err(x) => fails(&second, after, r, x),
                        Ok(pairs) => kept(&second, after) && function_effect(
                            name,
                            &second,
                            after,
                            values,
                            pairs,
                            r,
                        ),
                    },
            },
        ExprView::MethodCall(object, method, args, kwargs) => exists|
            first: Interpreter<O, S>,
            o: Result<Value, InterpreterError>,
        |
            #[trigger] stage(&first, o) && evaluates(*object, before, &first, o) && match o {
                Err(x) => fails(&first, after, r, x@),
                Ok(receiver) => exists|
                    second: Interpreter<O, S>,
                    a: Result<Seq<ValueView>, ErrorView>,
                |
                    #[trigger] stage(&second, a)
                        && row_evaluates(args, &first, &second, a)
                        && match a {
                        Err(x) => fails(&second, after, r, x),
                        Ok(values) => exists|
                            third: Interpreter<O, S>,
                            k: Result<Seq<(Seq<char>, ValueView)>, ErrorView>,
                        |
                            #[trigger] stage(&third, k)
                                && entries_evaluate(kwargs, &second, &third, k)
                                && match k {
                                Err(x) => fails(&third, after, r, x),
                                Ok(pairs) => kept(&third, after) && method_effect(
                                    &third,
                                    after,
                                    receiver@,
                                    method,
                                    values,
                                    pairs,
                                    r,
                                ),
                            },
                    },
            },
        ExprView::BinaryOp(left, op, right) => exists|
            first: Interpreter<O, S>,
            l: Result<Value, InterpreterError>,
        |
            #[trigger] stage(&first, l) && evaluates(*left, before, &first, l) && match l {
                Err(x) => fails(&first, after, r, x@),
                Ok(a) => exists|second: Interpreter<O, S>, rhs: Result<Value, InterpreterError>|
                    #[trigger] stage(&second, rhs)
                        && evaluates(*right, &first, &second, rhs)
                        && match rhs {
                        Err(x) => fails(&second, after, r, x@),
                        Ok(b) => unchanged(&second, after) && same_result(
                            r,
                            binary_result(a@, op, b@, second.objs()),
                        ),
                    },
            },
        ExprView::UnaryOp(op, operand) => exists|
            first: Interpreter<O, S>,
            v: Result<Value, InterpreterError>,
        |
            #[trigger] stage(&first, v) && evaluates(*operand, before, &first, v) && match v {
                Err(x) => fails(&first, after, r, x@),
                Ok(a) => unchanged(&first, after) && same_result(r, unary_result(op, a@)),
            },
        ExprView::Subscript(object, index) => exists|
            first: Interpreter<O, S>,
            o: Result<Value, InterpreterError>,
        |
            #[trigger] stage(&first, o) && evaluates(*object, before, &first, o) && match o {
                Err(x) => fails(&first, after, r, x@),
                Ok(a) => exists|second: Interpreter<O, S>, i: Result<Value, InterpreterError>|
                    #[trigger] stage(&second, i)
                        && evaluates(*index, &first, &second, i)
                        && match i {
                        Err(x) => fails(&second, after, r, x@),
                        Ok(b) => unchanged(&second, after) && same_result(
                            r,
                            subscript_result(a@, b@),
                        ),
                    },
            },
        ExprView::TernaryOp(cond, yes, no) => exists|
            first: Interpreter<O, S>,
            c: Result<Value, InterpreterError>,
        |
            #[trigger] stage(&first, c) && evaluates(*cond, before, &first, c) && match c {
                Err(x) => fails(&first, after, r, x@),
                Ok(v) => if truthy(v@) {
                    evaluates(*yes, &first, after, r)
                } else {
                    evaluates(*no, &first, after, r)
                },
            },
    }
}

/// Whether the evaluation of the first `k` expressions of a row, none of
/// which failed, may lead from `before` to `after` and give `values`.
pub open spec fn row_evaluated<O: Os, S: BuildSteps>(
    items: Seq<ExprView>,
    k: int,
    before: &Interpreter<O, S>,
    after: &Interpreter<O, S>,
    values: Seq<ValueView>,
) -> bool
    decreases items, 1int, k,
{
    if k <= 0 {
        unchanged(before, after) && values.len() == 0
    } else {
        k <= items.len() && values.len() == k && exists|at: Interpreter<O, S>, v: Value|
            {
                &&& #[trigger] stage(&at, v)
                &&& row_evaluated(items, k - 1, before, &at, values.drop_last())
                &&& evaluates(items[k - 1], &at, after, Ok(v))
                &&& v@ == values[k - 1]
            }
    }
}

/// Whether the evaluation of a row of expressions may lead from `before`
/// to `after` and give `r`: the values of all, or the failure of the
/// first that fails.
pub open spec fn row_evaluates<O: Os, S: BuildSteps>(
    items: Seq<ExprView>,
    before: &Interpreter<O, S>,
    after: &Interpreter<O, S>,
    r: Result<Seq<ValueView>, ErrorView>,
) -> bool
    decreases items, 2int, 0int,
{
    match r {
        Ok(values) => row_evaluated(items, items.len() as int, before, after, values),
        Err(x) => exists|
            k: int,
            at: Interpreter<O, S>,
            values: Seq<ValueView>,
            e: InterpreterError,
        |
            {
                &&& #[trigger] stage(&at, (k, values, e))
                &&& 0 <= k < items.len()
                &&& row_evaluated(items, k, before, &at, values)
                &&& evaluates(items[k], &at, after, Err(e))
                &&& e@ == x
            },
    }
}

/// As `row_evaluated`, for named expressions: each value stands under
/// the name of its expression.
pub open spec fn entries_evaluated<O: Os, S: BuildSteps>(
    entries: Seq<(Seq<char>, ExprView)>,
    k: int,
    before: &Interpreter<O, S>,
    after: &Interpreter<O, S>,
    pairs: Seq<(Seq<char>, ValueView)>,
) -> bool
    decreases entries, 1int, k,
{
    if k <= 0 {
        unchanged(before, after) && pairs.len() == 0
    } else {
        k <= entries.len() && pairs.len() == k && exists|at: Interpreter<O, S>, v: Value|
            {
                &&& #[trigger] stage(&at, v)
                &&& entries_evaluated(entries, k - 1, before, &at, pairs.drop_last())
                &&& evaluates(entries[k - 1].1, &at, after, Ok(v))
                &&& pairs[k - 1] == (entries[k - 1].0, v@)
            }
    }
}

/// As `row_evaluates`, for named expressions.
pub open spec fn entries_evaluate<O: Os, S: BuildSteps>(
    entries: Seq<(Seq<char>, ExprView)>,
    before: &Interpreter<O, S>,
    after: &Interpreter<O, S>,
    r: Result<Seq<(Seq<char>, ValueView)>, ErrorView>,
) -> bool
    decreases entries, 2int, 0int,
{
    match r {
        Ok(pairs) => entries_evaluated(entries, entries.len() as int, before, after, pairs),
        Err(x) => exists|
            k: int,
            at: Interpreter<O, S>,
            pairs: Seq<(Seq<char>, ValueView)>,
            e: InterpreterError,
        |
            {
                &&& #[trigger] stage(&at, (k, pairs, e))
                &&& 0 <= k < entries.len()
                &&& entries_evaluated(entries, k, before, &at, pairs)
                &&& evaluates(entries[k].1, &at, after, Err(e))
                &&& e@ == x
            },
    }
}

/// One more expression of a row has been evaluated.
pub proof fn lemma_row_grows<O: Os, S: BuildSteps>(
    items: Seq<ExprView>,
    k: int,
    before: &Interpreter<O, S>,
    at: &Interpreter<O, S>,
    after: &Interpreter<O, S>,
    values: Seq<ValueView>,
    v: Value,
)
    requires
        0 < k <= items.len(),
        values.len() == k,
        row_evaluated(items, k - 1, before, at, values.drop_last()),
        evaluates(items[k - 1], at, after, Ok(v)),
        v@ == values[k - 1],
    ensures
        row_evaluated(items, k, before, after, values),
{
    assert(stage(at, v));
}

/// An expression of a row has failed.
pub proof fn lemma_row_fails<O: Os, S: BuildSteps>(
    items: Seq<ExprView>,
    k: int,
    before: &Interpreter<O, S>,
    at: &Interpreter<O, S>,
    after: &Interpreter<O, S>,
    values: Seq<ValueView>,
    e: InterpreterError,
)
    requires
        0 <= k < items.len(),
        row_evaluated(items, k, before, at, values),
        evaluates(items[k], at, after, Err(e)),
    ensures
        row_evaluates(items, before, after, Err(e@)),
{
    assert(stage(at, (k, values, e)));
}

/// One more of a row of named expressions has been evaluated.
pub proof fn lemma_entries_grow<O: Os, S: BuildSteps>(
    entries: Seq<(Seq<char>, ExprView)>,
    k: int,
    before: &Interpreter<O, S>,
    at: &Interpreter<O, S>,
    after: &Interpreter<O, S>,
    pairs: Seq<(Seq<char>, ValueView)>,
    v: Value,
)
    requires
        0 < k <= entries.len(),
        pairs.len() == k,
        entries_evaluated(entries, k - 1, before, at, pairs.drop_last()),
        evaluates(entries[k - 1].1, at, after, Ok(v)),
        pairs[k - 1] == (entries[k - 1].0, v@),
    ensures
        entries_evaluated(entries, k, before, after, pairs),
{
    assert(stage(at, v));
}

/// One of a row of named expressions has failed.
pub proof fn lemma_entries_fail<O: Os, S: BuildSteps>(
    entries: Seq<(Seq<char>, ExprView)>,
    k: int,
    before: &Interpreter<O, S>,
    at: &Interpreter<O, S>,
    after: &Interpreter<O, S>,
    pairs: Seq<(Seq<char>, ValueView)>,
    e: InterpreterError,
)
    requires
        0 <= k < entries.len(),
        entries_evaluated(entries, k, before, at, pairs),
        evaluates(entries[k].1, at, after, Err(e)),
    ensures
        entries_evaluate(entries, before, after, Err(e@)),
{
    assert(stage(at, (k, pairs, e)));
}

/// The evaluation of a function call, stage by stage: the arguments left
/// `first` and gave `a`, the named arguments left `second` and gave `k`,
/// and the call did the rest.
pub proof fn lemma_function_call<O: Os, S: BuildSteps>(
    name: Seq<char>,
    args: Seq<ExprView>,
    kwargs: Seq<(Seq<char>, ExprView)>,
    before: &Interpreter<O, S>,
    first: &Interpreter<O, S>,
    a: Result<Seq<ValueView>, ErrorView>,
    second: &Interpreter<O, S>,
    k: Result<Seq<(Seq<char>, ValueView)>, ErrorView>,
    after: &Interpreter<O, S>,
    r: Result<Value, InterpreterError>,
)
    requires
        row_evaluates(args, before, first, a),
        match a {
            Err(x) => fails(first, after, r, x),
            Ok(values) => entries_evaluate(kwargs, first, second, k) && match k {
                Err(x) => fails(second, after, r, x),
                Ok(pairs) => kept(second, after) && function_effect(
                    name,
                    second,
                    after,
                    values,
                    pairs,
                    r,
                ),
            },
        },
    ensures
        evaluates(ExprView::FunctionCall(name, args, kwargs), before, after, r),
{
    assert(stage(first, a));
    assert(stage(second, k));
}

/// The evaluation of a method call, stage by stage: the receiver, the
/// arguments, the named arguments, and the call.
pub proof fn lemma_method_call<O: Os, S: BuildSteps>(
    object: ExprView,
    method: Seq<char>,
    args: Seq<ExprView>,
    kwargs: Seq<(Seq<char>, ExprView)>,
    before: &Interpreter<O, S>,
    first: &Interpreter<O, S>,
    o: Result<Value, InterpreterError>,
    second: &Interpreter<O, S>,
    a: Result<Seq<ValueView>, ErrorView>,
    third: &Interpreter<O, S>,
    k: Result<Seq<(Seq<char>, ValueView)>, ErrorView>,
    after: &Interpreter<O, S>,
    r: Result<Value, InterpreterError>,
)
    requires
        evaluates(object, before, first, o),
        match o {
            Err(x) => fails(first, after, r, x@),
            Ok(receiver) => row_evaluates(args, first, second, a) && match a {
                Err(x) => fails(second, after, r, x),
                Ok(values) => entries_evaluate(kwargs, second, third, k) && match k {
                    Err(x) => fails(third, after, r, x),
                    Ok(pairs) => kept(third, after) && method_effect(
                        third,
                        after,
                        receiver@,
                        method,
                        values,
                        pairs,
                        r,
                    ),
                },
            },
        },
    ensures
        evaluates(
            ExprView::MethodCall(Box::new(object), method, args, kwargs),
            before,
            after,
            r,
        ),
{
    assert(stage(first, o));
    assert(stage(second, a));
    assert(stage(third, k));
}

/// The evaluation of an expression with two operands, stage by stage.
pub proof fn lemma_binary<O: Os, S: BuildSteps>(
    left: ExprView,
    op: crate::parser::ast::BinaryOperator,
    right: ExprView,
    before: &Interpreter<O, S>,
    first: &Interpreter<O, S>,
    l: Result<Value, InterpreterError>,
    second: &Interpreter<O, S>,
    rhs: Result<Value, InterpreterError>,
    after: &Interpreter<O, S>,
    r: Result<Value, InterpreterError>,
)
    requires
        evaluates(left, before, first, l),
        match l {
            Err(x) => fails(first, after, r, x@),
            Ok(a) => evaluates(right, first, second, rhs) && match rhs {
                Err(x) => fails(second, after, r, x@),
                Ok(b) => unchanged(second, after) && same_result(
                    r,
                    binary_result(a@, op, b@, second.objs()),
                ),
            },
        },
    ensures
        evaluates(ExprView::BinaryOp(Box::new(left), op, Box::new(right)), before, after, r),
{
    assert(stage(first, l));
    assert(stage(second, rhs));
}

/// The evaluation of an expression with one operand.
pub proof fn lemma_unary<O: Os, S: BuildSteps>(
    op: crate::parser::ast::UnaryOperator,
    operand: ExprView,
    before: &Interpreter<O, S>,
    first: &Interpreter<O, S>,
    v: Result<Value, InterpreterError>,
    after: &Interpreter<O, S>,
    r: Result<Value, InterpreterError>,
)
    requires
        evaluates(operand, before, first, v),
        match v {
            Err(x) => fails(first, after, r, x@),
            Ok(a) => unchanged(first, after) && same_result(r, unary_result(op, a@)),
        },
    ensures
        evaluates(ExprView::UnaryOp(op, Box::new(operand)), before, after, r),
{
    assert(stage(first, v));
}

/// The evaluation of a subscript, stage by stage.
pub proof fn lemma_subscript<O: Os, S: BuildSteps>(
    object: ExprView,
    index: ExprView,
    before: &Interpreter<O, S>,
    first: &Interpreter<O, S>,
    o: Result<Value, InterpreterError>,
    second: &Interpreter<O, S>,
    i: Result<Value, InterpreterError>,
    after: &Interpreter<O, S>,
    r: Result<Value, InterpreterError>,
)
    requires
        evaluates(object, before, first, o),
        match o {
            Err(x) => fails(first, after, r, x@),
            Ok(a) => evaluates(index, first, second, i) && match i {
                Err(x) => fails(second, after, r, x@),
                Ok(b) => unchanged(second, after) && same_result(r, subscript_result(a@, b@)),
            },
        },
    ensures
        evaluates(ExprView::Subscript(Box::new(object), Box::new(index)), before, after, r),
{
    assert(stage(first, o));
    assert(stage(second, i));
}

/// The evaluation of a choice between two expressions.
pub proof fn lemma_ternary<O: Os, S: BuildSteps>(
    cond: ExprView,
    yes: ExprView,
    no: ExprView,
    before: &Interpreter<O, S>,
    first: &Interpreter<O, S>,
    c: Result<Value, InterpreterError>,
    after: &Interpreter<O, S>,
    r: Result<Value, InterpreterError>,
)
    requires
        evaluates(cond, before, first, c),
        match c {
            Err(x) => fails(first, after, r, x@),
            Ok(v) => if truthy(v@) {
                evaluates(yes, first, after, r)
            } else {
                evaluates(no, first, after, r)
            },
        },
    ensures
        evaluates(
            ExprView::TernaryOp(Box::new(cond), Box::new(yes), Box::new(no)),
            before,
            after,
            r,
        ),
{
    assert(stage(first, c));
}

/// Whether `after` is `before` with the flags of `break` and `continue` as
/// given.
pub open spec fn flagged<O: Os, S: BuildSteps>(
    before: &Interpreter<O, S>,
    after: &Interpreter<O, S>,
    break_flag: bool,
    continue_flag: bool,
) -> bool {
    &&& after.variables == before.variables
    &&& after.options == before.options
    &&& after.objects == before.objects
    &&& after.meson == before.meson
    &&& after.current_dir == before.current_dir
    &&& after.build_dir == before.build_dir
    &&& after.depth_left == before.depth_left
    &&& after.break_flag == break_flag
    &&& after.continue_flag == continue_flag
}

/// Whether the variable `name` is bound to `value` in `after`, which is
/// `at` in everything else.
pub open spec fn assigned<O: Os, S: BuildSteps>(
    at: &Interpreter<O, S>,
    after: &Interpreter<O, S>,
    name: Seq<char>,
    value: ValueView,
) -> bool {
    bound(at, after, name, value) && only_variables_changed(at, after)
}

/// Whether the statement `s`, run in the state `before`, may leave the
/// state `after` and end as `r`.
pub open spec fn executes<O: Os, S: BuildSteps>(
    s: StmtView,
    before: &Interpreter<O, S>,
    after: &Interpreter<O, S>,
    r: Result<(), InterpreterError>,
) -> bool
    decreases s, 3int, 0int,
{
    match s {
        StmtView::Assignment(name, e) => exists|
            at: Interpreter<O, S>,
            v: Result<Value, InterpreterError>,
        |
            #[trigger] stage(&at, v) && evaluates(e, before, &at, v) && match v {
                Err(x) => fails(&at, after, r, x@),
                Ok(value) => r is Ok && assigned(&at, after, name, value@),
            },
        StmtView::AddAssignment(name, e) => exists|
            at: Interpreter<O, S>,
            v: Result<Value, InterpreterError>,
        |
            #[trigger] stage(&at, v) && evaluates(e, before, &at, v) && match v {
                Err(x) => fails(&at, after, r, x@),
                Ok(value) => if at.var_views().contains_key(name) {
                    match sum_of(at.var_views()[name], value@) {
                        Ok(sum) => r is Ok && assigned(&at, after, name, sum),
                        Err(x) => fails(&at, after, r, x),
                    }
                } else {
                    r is Ok && assigned(&at, after, name, value@)
                },
            },
        StmtView::Expression(e) => exists|v: Result<Value, InterpreterError>|
            #[trigger] stage(after, v) && evaluates(e, before, after, v) && match v {
                Err(x) => r matches Err(y) && y@ == x@,
                Ok(_) => r is Ok,
            },
        StmtView::If(cond, then_branch, _, _) => exists|
            at: Interpreter<O, S>,
            c: Result<Value, InterpreterError>,
        |
            #[trigger] stage(&at, c) && evaluates(cond, before, &at, c) && match c {
                Err(x) => fails(&at, after, r, x@),
                Ok(v) => if truthy(v@) {
                    block_runs(then_branch, &at, after, r)
                } else {
                    branches_run(s, &at, after, r)
                },
            },
        StmtView::Foreach(var, iterable, body) => exists|
            at: Interpreter<O, S>,
            it: Result<Value, InterpreterError>,
        |
            #[trigger] stage(&at, it) && evaluates(iterable, before, &at, it) && match it {
                Err(x) => fails(&at, after, r, x@),
                Ok(v) => match v@ {
                    ValueView::Array(items) => loop_runs(var, items, body, &at, after, r),
                    ValueView::String(text) => loop_runs(var, letters(text), body, &at, after, r),
                    _ => fails(
                        &at,
                        after,
                        r,
                        ErrorView::TypeError("Cannot iterate over non-iterable"@),
                    ),
                },
            },
        StmtView::Break => r is Ok && flagged(before, after, true, before.continue_flag),
        StmtView::Continue => r is Ok && flagged(before, after, before.break_flag, true),
    }
}

/// Whether the first `k` statements of a block may lead from `before` to
/// `after`: none of them failed, and none but the last left a flag
/// raised.
pub open spec fn block_ran<O: Os, S: BuildSteps>(
    stmts: Seq<StmtView>,
    k: int,
    before: &Interpreter<O, S>,
    after: &Interpreter<O, S>,
) -> bool
    decreases stmts, 1int, k,
{
    if k <= 0 {
        unchanged(before, after)
    } else {
        k <= stmts.len() && exists|at: Interpreter<O, S>|
            {
                &&& #[trigger] stage(&at, k)
                &&& block_ran(stmts, k - 1, before, &at)
                &&& k > 1 ==> !at.break_flag && !at.continue_flag
                &&& executes(stmts[k - 1], &at, after, Ok(()))
            }
    }
}

/// Whether a block, run in the state `before`, may leave the state
/// `after` and end as `r`. The statements run one after the other. The
/// first failure ends the block, and so does the first statement that
/// leaves the flag of `break` or of `continue` raised.
pub open spec fn block_runs<O: Os, S: BuildSteps>(
    stmts: Seq<StmtView>,
    before: &Interpreter<O, S>,
    after: &Interpreter<O, S>,
    r: Result<(), InterpreterError>,
) -> bool
    decreases stmts, 2int, 0int,
{
    match r {
        Ok(_) => exists|k: int|
            {
                &&& #[trigger] stage(after, k)
                &&& 0 <= k <= stmts.len()
                &&& block_ran(stmts, k, before, after)
                &&& k < stmts.len() ==> k > 0 && (after.break_flag || after.continue_flag)
            },
        Err(e) => exists|k: int, at: Interpreter<O, S>|
            {
                &&& #[trigger] stage(&at, k)
                &&& 0 <= k < stmts.len()
                &&& block_ran(stmts, k, before, &at)
                &&& k > 0 ==> !at.break_flag && !at.continue_flag
                &&& executes(stmts[k], &at, after, Err(e))
            },
    }
}

/// Whether the conditions of the first `k` `elif` branches of the
/// conditional `s` were evaluated from `before` to `after`, and none of
/// them counted as true.
pub open spec fn elifs_passed<O: Os, S: BuildSteps>(
    s: StmtView,
    k: int,
    before: &Interpreter<O, S>,
    after: &Interpreter<O, S>,
) -> bool
    decreases s, 1int, k,
{
    match s {
        StmtView::If(_, _, elifs, _) => if k <= 0 {
            unchanged(before, after)
        } else {
            k <= elifs.len() && exists|at: Interpreter<O, S>, c: Value|
                {
                    &&& #[trigger] stage(&at, c)
                    &&& elifs_passed(s, k - 1, before, &at)
                    &&& evaluates(elifs[k - 1].0, &at, after, Ok(c))
                    &&& !truthy(c@)
                }
        },
        _ => false,
    }
}

/// Whether the `elif` and `else` branches of the conditional `s`, run in
/// the state `before`, may leave the state `after` and end as `r`. The
/// conditions are evaluated in their order; the first that counts as true
/// has its branch run, and where none does the `else` branch is run, if
/// there is one.
pub open spec fn branches_run<O: Os, S: BuildSteps>(
    s: StmtView,
    before: &Interpreter<O, S>,
    after: &Interpreter<O, S>,
    r: Result<(), InterpreterError>,
) -> bool
    decreases s, 2int, 0int,
{
    match s {
        StmtView::If(_, _, elifs, otherwise) => {
            ||| exists|at: Interpreter<O, S>|
                {
                    &&& #[trigger] stage(&at, ())
                    &&& elifs_passed(s, elifs.len() as int, before, &at)
                    &&& match otherwise {
                        Some(body) => block_runs(body, &at, after, r),
                        None => unchanged(&at, after) && r is Ok,
                    }
                }
            ||| exists|k: int, at: Interpreter<O, S>, then: Interpreter<O, S>, c: Value|
                {
                    &&& #[trigger] stage(&at, (k, then, c))
                    &&& 0 <= k < elifs.len()
                    &&& elifs_passed(s, k, before, &at)
                    &&& evaluates(elifs[k].0, &at, &then, Ok(c))
                    &&& truthy(c@)
                    &&& block_runs(elifs[k].1, &then, after, r)
                }
            ||| exists|k: int, at: Interpreter<O, S>, e: InterpreterError|
                {
                    &&& #[trigger] stage(&at, (k, e))
                    &&& 0 <= k < elifs.len()
                    &&& elifs_passed(s, k, before, &at)
                    &&& evaluates(elifs[k].0, &at, after, Err(e))
                    &&& r matches Err(y) && y@ == e@
                }
        },
        _ => false,
    }
}

/// Whether `after` is what a turn of a loop leaves of the state `ended`
/// in which its body ended: a raised flag of `break` is lowered, and
/// without it that of `continue`.
pub open spec fn lowered<O: Os, S: BuildSteps>(
    ended: &Interpreter<O, S>,
    after: &Interpreter<O, S>,
) -> bool {
    if ended.break_flag {
        flagged(ended, after, false, ended.continue_flag)
    } else {
        flagged(ended, after, false, false)
    }
}

/// Whether one turn of a loop, for the element `item`, may lead from
/// `before` to `after` and end as `r`: the variable is bound to the
/// element and the body is run; the turn tells whether the body ended
/// with `break`.
pub open spec fn turn<O: Os, S: BuildSteps>(
    var: Seq<char>,
    item: ValueView,
    body: Seq<StmtView>,
    before: &Interpreter<O, S>,
    after: &Interpreter<O, S>,
    r: Result<bool, InterpreterError>,
) -> bool
    decreases body, 3int, 0int,
{
    match r {
        Err(e) => exists|set: Interpreter<O, S>|
            {
                &&& #[trigger] stage(&set, ())
                &&& assigned(before, &set, var, item)
                &&& block_runs(body, &set, after, Err(e))
            },
        Ok(broke) => exists|set: Interpreter<O, S>, ended: Interpreter<O, S>|
            {
                &&& #[trigger] stage(&set, ended)
                &&& assigned(before, &set, var, item)
                &&& block_runs(body, &set, &ended, Ok(()))
                &&& broke == ended.break_flag
                &&& lowered(&ended, after)
            },
    }
}

/// Whether the first `k` turns of a loop may lead from `before` to
/// `after`, none of them ending with a failure or with `break`.
pub open spec fn turns_ran<O: Os, S: BuildSteps>(
    var: Seq<char>,
    items: Seq<ValueView>,
    body: Seq<StmtView>,
    k: int,
    before: &Interpreter<O, S>,
    after: &Interpreter<O, S>,
) -> bool
    decreases body, 4int, k,
{
    if k <= 0 {
        unchanged(before, after)
    } else {
        k <= items.len() && exists|at: Interpreter<O, S>|
            {
                &&& #[trigger] stage(&at, k)
                &&& turns_ran(var, items, body, k - 1, before, &at)
                &&& turn(var, items[k - 1], body, &at, after, Ok(false))
            }
    }
}

/// Whether a loop over the elements `items`, run in the state `before`,
/// may leave the state `after` and end as `r`. The turns run in the order
/// of the elements; the first failure ends the loop, and so does the
/// first turn that ends with `break`.
pub open spec fn loop_runs<O: Os, S: BuildSteps>(
    var: Seq<char>,
    items: Seq<ValueView>,
    body: Seq<StmtView>,
    before: &Interpreter<O, S>,
    after: &Interpreter<O, S>,
    r: Result<(), InterpreterError>,
) -> bool
    decreases body, 5int, 0int,
{
    match r {
        Ok(_) => {
            ||| turns_ran(var, items, body, items.len() as int, before, after)
            ||| exists|k: int, at: Interpreter<O, S>|
                {
                    &&& #[trigger] stage(&at, k)
                    &&& 0 <= k < items.len()
                    &&& turns_ran(var, items, body, k, before, &at)
                    &&& turn(var, items[k], body, &at, after, Ok(true))
                }
        },
        Err(e) => exists|k: int, at: Interpreter<O, S>|
            {
                &&& #[trigger] stage(&at, k)
                &&& 0 <= k < items.len()
                &&& turns_ran(var, items, body, k, before, &at)
                &&& turn(var, items[k], body, &at, after, Err(e))
            },
    }
}

/// What an assignment does, stage by stage: the expression left `at` and
/// gave `v`, and the variable was bound.
pub proof fn lemma_assignment<O: Os, S: BuildSteps>(
    name: Seq<char>,
    e: ExprView,
    before: &Interpreter<O, S>,
    at: &Interpreter<O, S>,
    v: Result<Value, InterpreterError>,
    after: &Interpreter<O, S>,
    r: Result<(), InterpreterError>,
)
    requires
        evaluates(e, before, at, v),
        match v {
            Err(x) => fails(at, after, r, x@),
            Ok(value) => r is Ok && assigned(at, after, name, value@),
        },
    ensures
        executes(StmtView::Assignment(name, e), before, after, r),
{
    assert(stage(at, v));
}

/// What `+=` does, stage by stage.
pub proof fn lemma_add_assignment<O: Os, S: BuildSteps>(
    name: Seq<char>,
    e: ExprView,
    before: &Interpreter<O, S>,
    at: &Interpreter<O, S>,
    v: Result<Value, InterpreterError>,
    after: &Interpreter<O, S>,
    r: Result<(), InterpreterError>,
)
    requires
        evaluates(e, before, at, v),
        match v {
            Err(x) => fails(at, after, r, x@),
            Ok(value) => if at.var_views().contains_key(name) {
                match sum_of(at.var_views()[name], value@) {
                    Ok(sum) => r is Ok && assigned(at, after, name, sum),
                    Err(x) => fails(at, after, r, x),
                }
            } else {
                r is Ok && assigned(at, after, name, value@)
            },
        },
    ensures
        executes(StmtView::AddAssignment(name, e), before, after, r),
{
    assert(stage(at, v));
}

/// What a statement does that is an expression.
pub proof fn lemma_expression<O: Os, S: BuildSteps>(
    e: ExprView,
    before: &Interpreter<O, S>,
    after: &Interpreter<O, S>,
    v: Result<Value, InterpreterError>,
    r: Result<(), InterpreterError>,
)
    requires
        evaluates(e, before, after, v),
        match v {
            Err(x) => r matches Err(y) && y@ == x@,
            Ok(_) => r is Ok,
        },
    ensures
        executes(StmtView::Expression(e), before, after, r),
{
    assert(stage(after, v));
}

/// What a conditional does, stage by stage: the condition left `at` and
/// gave `c`, and a branch was run from there.
pub proof fn lemma_conditional<O: Os, S: BuildSteps>(
    s: StmtView,
    before: &Interpreter<O, S>,
    at: &Interpreter<O, S>,
    c: Result<Value, InterpreterError>,
    after: &Interpreter<O, S>,
    r: Result<(), InterpreterError>,
)
    requires
        s is If,
        evaluates(s->If_0, before, at, c),
        match c {
            Err(x) => fails(at, after, r, x@),
            Ok(v) => if truthy(v@) {
                block_runs(s->If_1, at, after, r)
            } else {
                branches_run(s, at, after, r)
            },
        },
    ensures
        executes(s, before, after, r),
{
    assert(stage(at, c));
}

/// What a loop statement does, stage by stage: the expression left `at`
/// and gave what is looped over.
pub proof fn lemma_foreach<O: Os, S: BuildSteps>(
    var: Seq<char>,
    iterable: ExprView,
    body: Seq<StmtView>,
    before: &Interpreter<O, S>,
    at: &Interpreter<O, S>,
    it: Result<Value, InterpreterError>,
    after: &Interpreter<O, S>,
    r: Result<(), InterpreterError>,
)
    requires
        evaluates(iterable, before, at, it),
        match it {
            Err(x) => fails(at, after, r, x@),
            Ok(v) => match v@ {
                ValueView::Array(items) => loop_runs(var, items, body, at, after, r),
                ValueView::String(text) => loop_runs(var, letters(text), body, at, after, r),
                _ => fails(at, after, r, ErrorView::TypeError("Cannot iterate over non-iterable"@)),
            },
        },
    ensures
        executes(StmtView::Foreach(var, iterable, body), before, after, r),
{
    assert(stage(at, it));
}

/// One more statement of a block has run.
pub proof fn lemma_block_grows<O: Os, S: BuildSteps>(
    stmts: Seq<StmtView>,
    k: int,
    before: &Interpreter<O, S>,
    at: &Interpreter<O, S>,
    after: &Interpreter<O, S>,
)
    requires
        0 < k <= stmts.len(),
        block_ran(stmts, k - 1, before, at),
        k > 1 ==> !at.break_flag && !at.continue_flag,
        executes(stmts[k - 1], at, after, Ok(())),
    ensures
        block_ran(stmts, k, before, after),
{
    assert(stage(at, k));
}

/// A block has ended behind its `k`th statement.
pub proof fn lemma_block_ends<O: Os, S: BuildSteps>(
    stmts: Seq<StmtView>,
    k: int,
    before: &Interpreter<O, S>,
    after: &Interpreter<O, S>,
)
    requires
        0 <= k <= stmts.len(),
        block_ran(stmts, k, before, after),
        k < stmts.len() ==> k > 0 && (after.break_flag || after.continue_flag),
    ensures
        block_runs(stmts, before, after, Ok(())),
{
    assert(stage(after, k));
}

/// A statement of a block has failed.
pub proof fn lemma_block_fails<O: Os, S: BuildSteps>(
    stmts: Seq<StmtView>,
    k: int,
    before: &Interpreter<O, S>,
    at: &Interpreter<O, S>,
    after: &Interpreter<O, S>,
    e: InterpreterError,
)
    requires
        0 <= k < stmts.len(),
        block_ran(stmts, k, before, at),
        k > 0 ==> !at.break_flag && !at.continue_flag,
        executes(stmts[k], at, after, Err(e)),
    ensures
        block_runs(stmts, before, after, Err(e)),
{
    assert(stage(at, k));
}

/// One more condition of the `elif` branches did not count as true.
pub proof fn lemma_elif_passed<O: Os, S: BuildSteps>(
    s: StmtView,
    k: int,
    before: &Interpreter<O, S>,
    at: &Interpreter<O, S>,
    after: &Interpreter<O, S>,
    c: Value,
)
    requires
        s is If,
        0 < k <= s->If_2.len(),
        elifs_passed(s, k - 1, before, at),
        evaluates(s->If_2[k - 1].0, at, after, Ok(c)),
        !truthy(c@),
    ensures
        elifs_passed(s, k, before, after),
{
    assert(stage(at, c));
}

/// No condition counted as true, and the `else` branch was run, if there
/// is one.
pub proof fn lemma_else_runs<O: Os, S: BuildSteps>(
    s: StmtView,
    before: &Interpreter<O, S>,
    at: &Interpreter<O, S>,
    after: &Interpreter<O, S>,
    r: Result<(), InterpreterError>,
)
    requires
        s is If,
        elifs_passed(s, s->If_2.len() as int, before, at),
        match s->If_3 {
            Some(body) => block_runs(body, at, after, r),
            None => unchanged(at, after) && r is Ok,
        },
    ensures
        branches_run(s, before, after, r),
{
    assert(stage(at, ()));
}

/// The condition of an `elif` branch counted as true, and the branch was
/// run.
pub proof fn lemma_elif_runs<O: Os, S: BuildSteps>(
    s: StmtView,
    k: int,
    before: &Interpreter<O, S>,
    at: &Interpreter<O, S>,
    then: Interpreter<O, S>,
    c: Value,
    after: &Interpreter<O, S>,
    r: Result<(), InterpreterError>,
)
    requires
        s is If,
        0 <= k < s->If_2.len(),
        elifs_passed(s, k, before, at),
        evaluates(s->If_2[k].0, at, &then, Ok(c)),
        truthy(c@),
        block_runs(s->If_2[k].1, &then, after, r),
    ensures
        branches_run(s, before, after, r),
{
    assert(stage(at, (k, then, c)));
}

/// The condition of an `elif` branch failed.
pub proof fn lemma_elif_fails<O: Os, S: BuildSteps>(
    s: StmtView,
    k: int,
    before: &Interpreter<O, S>,
    at: &Interpreter<O, S>,
    after: &Interpreter<O, S>,
    e: InterpreterError,
    r: Result<(), InterpreterError>,
)
    requires
        s is If,
        0 <= k < s->If_2.len(),
        elifs_passed(s, k, before, at),
        evaluates(s->If_2[k].0, at, after, Err(e)),
        r matches Err(y) && y@ == e@,
    ensures
        branches_run(s, before, after, r),
{
    assert(stage(at, (k, e)));
}

/// A turn of a loop has ended without a failure.
pub proof fn lemma_turn_ends<O: Os, S: BuildSteps>(
    var: Seq<char>,
    item: ValueView,
    body: Seq<StmtView>,
    before: &Interpreter<O, S>,
    set: &Interpreter<O, S>,
    ended: Interpreter<O, S>,
    after: &Interpreter<O, S>,
)
    requires
        assigned(before, set, var, item),
        block_runs(body, set, &ended, Ok(())),
        lowered(&ended, after),
    ensures
        turn(var, item, body, before, after, Ok(ended.break_flag)),
{
    assert(stage(set, ended));
}

/// A turn of a loop has failed.
pub proof fn lemma_turn_fails<O: Os, S: BuildSteps>(
    var: Seq<char>,
    item: ValueView,
    body: Seq<StmtView>,
    before: &Interpreter<O, S>,
    set: &Interpreter<O, S>,
    after: &Interpreter<O, S>,
    e: InterpreterError,
)
    requires
        assigned(before, set, var, item),
        block_runs(body, set, after, Err(e)),
    ensures
        turn(var, item, body, before, after, Err(e)),
{
    assert(stage(set, ()));
}

/// One more turn of a loop has run.
pub proof fn lemma_turns_grow<O: Os, S: BuildSteps>(
    var: Seq<char>,
    items: Seq<ValueView>,
    body: Seq<StmtView>,
    k: int,
    before: &Interpreter<O, S>,
    at: &Interpreter<O, S>,
    after: &Interpreter<O, S>,
)
    requires
        0 < k <= items.len(),
        turns_ran(var, items, body, k - 1, before, at),
        turn(var, items[k - 1], body, at, after, Ok(false)),
    ensures
        turns_ran(var, items, body, k, before, after),
{
    assert(stage(at, k));
}

/// A loop has ended with `break` in its turn `k`.
pub proof fn lemma_loop_breaks<O: Os, S: BuildSteps>(
    var: Seq<char>,
    items: Seq<ValueView>,
    body: Seq<StmtView>,
    k: int,
    before: &Interpreter<O, S>,
    at: &Interpreter<O, S>,
    after: &Interpreter<O, S>,
)
    requires
        0 <= k < items.len(),
        turns_ran(var, items, body, k, before, at),
        turn(var, items[k], body, at, after, Ok(true)),
    ensures
        loop_runs(var, items, body, before, after, Ok(())),
{
    assert(stage(at, k));
}

/// A loop has failed in its turn `k`.
pub proof fn lemma_loop_fails<O: Os, S: BuildSteps>(
    var: Seq<char>,
    items: Seq<ValueView>,
    body: Seq<StmtView>,
    k: int,
    before: &Interpreter<O, S>,
    at: &Interpreter<O, S>,
    after: &Interpreter<O, S>,
    e: InterpreterError,
)
    requires
        0 <= k < items.len(),
        turns_ran(var, items, body, k, before, at),
        turn(var, items[k], body, at, after, Err(e)),
    ensures
        loop_runs(var, items, body, before, after, Err(e)),
{
    assert(stage(at, k));
}

/// A loop over at least one element that ends well leaves the flag of
/// `break` lowered, and the flag of `continue` too where no turn ended
/// with `break`.
pub proof fn a_loop_lowers_its_flags<O: Os, S: BuildSteps>(
    var: Seq<char>,
    items: Seq<ValueView>,
    body: Seq<StmtView>,
    before: &Interpreter<O, S>,
    after: &Interpreter<O, S>,
)
    requires
        items.len() > 0,
        loop_runs(var, items, body, before, after, Ok(())),
    ensures
        !after.break_flag,
        turns_ran(var, items, body, items.len() as int, before, after) ==> !after.continue_flag,
{
    reveal_with_fuel(turns_ran, 2);
    reveal_with_fuel(turn, 2);
}

} // verus!
