//! The operators of the language on values.

use vstd::prelude::*;
use crate::assoc::{lookup, has_key, names, string_names, find_key};
use crate::interpreter::equality::{values_equal, array_holds};
use crate::interpreter::error::{
    InterpreterError, ErrorView, type_error, runtime_error, same_result,
};
use crate::interpreter::objects::{Object, ObjectView, object_views};
use crate::interpreter::value::{
    Value, ValueView, value_views, pair_views, value_eq, holds_value, truthy, clone_values,
};
use crate::parser::ast::{BinaryOperator, UnaryOperator};
use crate::path::{Path, joined, slashed};
use crate::text::{
    chars_of, string_of, extend_chars, concat, concat3, occurs_in, contains_chars, text_less,
    str_less, int_text, i64_to_chars,
};

verus! {

/// The number that stands for `x` in 64 bits, two's complement: the one
/// between `-2^63` and `2^63 - 1` that differs from `x` by a multiple of
/// `2^64`.
pub open spec fn wrap64(x: int) -> i64 {
    let m = x % 0x1_0000_0000_0000_0000;
    if m > i64::MAX {
        (m - 0x1_0000_0000_0000_0000) as i64
    } else {
        m as i64
    }
}

/// The quotient of `x` by `d`, rounded toward zero.
pub open spec fn trunc_div(x: int, d: int) -> int {
    if x >= 0 && d > 0 {
        x / d
    } else if x < 0 && d < 0 {
        (-x) / (-d)
    } else if x < 0 {
        -((-x) / d)
    } else {
        -(x / (-d))
    }
}

/// The remainder of `x` by `d` that goes with `trunc_div`: it has the sign
/// of `x`.
pub open spec fn trunc_rem(x: int, d: int) -> int {
    x - d * trunc_div(x, d)
}

/// `a + b` in 64 bits.
pub fn add_i64(a: i64, b: i64) -> (r: i64)
    ensures
        r == wrap64(a + b),
{
    a.wrapping_add(b)
}

/// `a - b` in 64 bits.
pub fn sub_i64(a: i64, b: i64) -> (r: i64)
    ensures
        r == wrap64(a - b),
{
    a.wrapping_sub(b)
}

/// `a * b` in 64 bits.
pub fn mul_i64(a: i64, b: i64) -> (r: i64)
    ensures
        r == wrap64(a * b),
{
    a.wrapping_mul(b)
}

/// `a / b` in 64 bits, rounded toward zero.
pub fn div_i64(a: i64, b: i64) -> (r: i64)
    requires
        b != 0,
    ensures
        r == wrap64(trunc_div(a as int, b as int)),
{
    match a.checked_div(b) {
        Some(q) => q,
        None => a,
    }
}

/// The remainder of `a` by `b` in 64 bits, with the sign of `a`.
pub fn rem_i64(a: i64, b: i64) -> (r: i64)
    requires
        b != 0,
    ensures
        r == wrap64(trunc_rem(a as int, b as int)),
{
    match a.checked_rem(b) {
        Some(q) => {
            proof {
                lemma_trunc_rem(a as int, b as int);
            }
            q
        },
        None => 0,
    }
}

/// The remainder by cases of the signs of the two numbers.
pub proof fn lemma_trunc_rem(x: int, d: int)
    requires
        d != 0,
    ensures
        trunc_rem(x, d) == if x >= 0 && d > 0 {
            x % d
        } else if x < 0 && d < 0 {
            -((-x) % (-d))
        } else if x < 0 {
            -((-x) % d)
        } else {
            x % (-d)
        },
{
    if x >= 0 && d > 0 {
        assert(x == d * (x / d) + x % d) by (nonlinear_arith)
            requires
                d != 0,
        ;
    } else if x < 0 && d < 0 {
        let y = -x;
        let e = -d;
        assert(y == e * (y / e) + y % e) by (nonlinear_arith)
            requires
                e != 0,
        ;
        assert(d * (y / e) == -(e * (y / e))) by (nonlinear_arith)
            requires
                d == -e,
        ;
    } else if x < 0 {
        let y = -x;
        assert(y == d * (y / d) + y % d) by (nonlinear_arith)
            requires
                d != 0,
        ;
        assert(d * (-(y / d)) == -(d * (y / d))) by (nonlinear_arith);
    } else {
        let e = -d;
        assert(x == e * (x / e) + x % e) by (nonlinear_arith)
            requires
                e != 0,
        ;
        assert(d * (-(x / e)) == e * (x / e)) by (nonlinear_arith)
            requires
                d == -e,
        ;
    }
}

/// `-a` in 64 bits.
pub fn neg_i64(a: i64) -> (r: i64)
    ensures
        r == wrap64(-(a as int)),
{
    0i64.wrapping_sub(a)
}

/// `s` in a row `n` times; nothing where `n` is not positive.
pub open spec fn repeat_text(s: Seq<char>, n: int) -> Seq<char>
    decreases n,
{
    if n <= 0 {
        Seq::empty()
    } else {
        repeat_text(s, n - 1) + s
    }
}

/// Repeats `s` `n` times.
pub fn repeat_string(s: &str, n: i64) -> (r: String)
    ensures
        r@ == repeat_text(s@, n as int),
{
    let piece = chars_of(s);
    let mut out: Vec<char> = Vec::new();
    let mut i: i64 = 0;
    while i < n
        invariant
            0 <= i,
            i <= n || n < 0,
            n < 0 ==> i == 0,
            piece@ == s@,
            out@ == repeat_text(s@, i as int),
        decreases n - i,
    {
        extend_chars(&mut out, &piece);
        i += 1;
    }
    string_of(&out)
}

/// The sum of two values: of numbers, their sum in 64 bits; of strings and
/// of arrays, the two in a row; of an array and another value, the array
/// with the value behind it.
pub open spec fn sum_of(left: ValueView, right: ValueView) -> Result<ValueView, ErrorView> {
    match (left, right) {
        (ValueView::Integer(a), ValueView::Integer(b)) => Ok(ValueView::Integer(wrap64(a + b))),
        (ValueView::String(a), ValueView::String(b)) => Ok(ValueView::String(a + b)),
        (ValueView::Array(a), ValueView::Array(b)) => Ok(ValueView::Array(a + b)),
        (ValueView::Array(a), _) => Ok(ValueView::Array(a.push(right))),
        _ => Err(ErrorView::TypeError("Cannot add incompatible types"@)),
    }
}

/// Whether `left` is in `right`: an element of the array, a part of the
/// string, a key of the dict. It is in nothing else.
pub open spec fn member_of(left: ValueView, right: ValueView, objs: Seq<ObjectView>) -> bool {
    match right {
        ValueView::Array(items) => holds_value(items, left, objs),
        ValueView::String(s) => left matches ValueView::String(needle) && occurs_in(s, needle),
        ValueView::Dict(entries) => left matches ValueView::String(key) && has_key(entries, key),
        _ => false,
    }
}

/// What an order comparison of two values gives, `less` telling how two
/// numbers and `text` how two strings compare.
pub open spec fn ordered(
    left: ValueView,
    right: ValueView,
    op: BinaryOperator,
) -> Result<ValueView, ErrorView> {
    match (left, right) {
        (ValueView::Integer(a), ValueView::Integer(b)) => Ok(
            ValueView::Boolean(
                match op {
                    BinaryOperator::Lt => a < b,
                    BinaryOperator::Le => a <= b,
                    BinaryOperator::Gt => a > b,
                    _ => a >= b,
                },
            ),
        ),
        (ValueView::String(a), ValueView::String(b)) => Ok(
            ValueView::Boolean(
                match op {
                    BinaryOperator::Lt => text_less(a, b),
                    BinaryOperator::Le => !text_less(b, a),
                    BinaryOperator::Gt => text_less(b, a),
                    _ => !text_less(a, b),
                },
            ),
        ),
        _ => Err(ErrorView::TypeError("Cannot compare incompatible types"@)),
    }
}

/// What a binary operator gives on two values.
pub open spec fn binary_result(
    left: ValueView,
    op: BinaryOperator,
    right: ValueView,
    objs: Seq<ObjectView>,
) -> Result<ValueView, ErrorView> {
    match op {
        BinaryOperator::Add => sum_of(left, right),
        BinaryOperator::Sub => match (left, right) {
            (ValueView::Integer(a), ValueView::Integer(b)) => Ok(
                ValueView::Integer(wrap64(a - b)),
            ),
            _ => Err(ErrorView::TypeError("Cannot subtract non-integers"@)),
        },
        BinaryOperator::Mul => match (left, right) {
            (ValueView::Integer(a), ValueView::Integer(b)) => Ok(
                ValueView::Integer(wrap64(a * b)),
            ),
            (ValueView::String(s), ValueView::Integer(n)) => Ok(
                ValueView::String(repeat_text(s, n as int)),
            ),
            (ValueView::Integer(n), ValueView::String(s)) => Ok(
                ValueView::String(repeat_text(s, n as int)),
            ),
            _ => Err(ErrorView::TypeError("Invalid operands for multiplication"@)),
        },
        BinaryOperator::Div => match (left, right) {
            (ValueView::Integer(a), ValueView::Integer(b)) => if b == 0 {
                Err(ErrorView::RuntimeError("Division by zero"@))
            } else {
                Ok(ValueView::Integer(wrap64(trunc_div(a as int, b as int))))
            },
            (ValueView::String(a), ValueView::String(b)) => Ok(
                ValueView::String(joined(slashed(a), b)),
            ),
            _ => Err(ErrorView::TypeError("Invalid operands for division"@)),
        },
        BinaryOperator::Mod => match (left, right) {
            (ValueView::Integer(a), ValueView::Integer(b)) => if b == 0 {
                Err(ErrorView::RuntimeError("Modulo by zero"@))
            } else {
                Ok(ValueView::Integer(wrap64(trunc_rem(a as int, b as int))))
            },
            _ => Err(ErrorView::TypeError("Cannot modulo non-integers"@)),
        },
        BinaryOperator::Eq => Ok(ValueView::Boolean(value_eq(left, right, objs))),
        BinaryOperator::Ne => Ok(ValueView::Boolean(!value_eq(left, right, objs))),
        BinaryOperator::Lt => ordered(left, right, op),
        BinaryOperator::Le => ordered(left, right, op),
        BinaryOperator::Gt => ordered(left, right, op),
        BinaryOperator::Ge => ordered(left, right, op),
        BinaryOperator::And => Ok(ValueView::Boolean(truthy(left) && truthy(right))),
        BinaryOperator::Or => Ok(ValueView::Boolean(truthy(left) || truthy(right))),
        BinaryOperator::In => Ok(ValueView::Boolean(member_of(left, right, objs))),
        BinaryOperator::NotIn => Ok(ValueView::Boolean(!member_of(left, right, objs))),
    }
}

/// What a unary operator gives on a value.
pub open spec fn unary_result(op: UnaryOperator, v: ValueView) -> Result<ValueView, ErrorView> {
    match op {
        UnaryOperator::Not => Ok(ValueView::Boolean(!truthy(v))),
        UnaryOperator::Minus => match v {
            ValueView::Integer(i) => Ok(ValueView::Integer(wrap64(-(i as int)))),
            _ => Err(ErrorView::TypeError("Cannot negate non-integer"@)),
        },
    }
}

/// The place that the index `i` names in a row of `len` things: `i` itself,
/// or `len + i` where `i` is negative; `None` where that is no place of
/// the row.
pub open spec fn place(i: int, len: int) -> Option<int> {
    let at = if i < 0 {
        len + i
    } else {
        i
    };
    if 0 <= at < len {
        Some(at)
    } else {
        None
    }
}

/// What the subscript `object[index]` gives.
pub open spec fn subscript_result(object: ValueView, index: ValueView) -> Result<
    ValueView,
    ErrorView,
> {
    match object {
        ValueView::Array(items) => match index {
            ValueView::Integer(i) => match place(i as int, items.len() as int) {
                Some(at) => Ok(items[at]),
                None => Err(
                    ErrorView::RuntimeError("Index "@ + int_text(i as int) + " out of bounds"@),
                ),
            },
            _ => Err(ErrorView::TypeError("Array index must be integer"@)),
        },
        ValueView::Dict(entries) => match index {
            ValueView::String(key) => match lookup(entries, key) {
                Some(v) => Ok(v),
                None => Err(ErrorView::RuntimeError("Key '"@ + key + "' not found"@)),
            },
            _ => Err(ErrorView::TypeError("Dictionary key must be string"@)),
        },
        ValueView::String(s) => match index {
            ValueView::Integer(i) => match place(i as int, s.len() as int) {
                Some(at) => Ok(ValueView::String(seq![s[at]])),
                None => Err(
                    ErrorView::RuntimeError(
                        "String index "@ + int_text(i as int) + " out of bounds"@,
                    ),
                ),
            },
            _ => Err(ErrorView::TypeError("String index must be integer"@)),
        },
        _ => Err(ErrorView::TypeError("Cannot subscript this type"@)),
    }
}

/// Finds the place that the index `i` names in a row of `len` things.
pub fn find_place(i: i64, len: usize) -> (r: Option<usize>)
    ensures
        match r {
            Some(at) => place(i as int, len as int) == Some(at as int),
            None => place(i as int, len as int) is None,
        },
{
    if i < 0 {
        let back: u64 = (-(i as i128)) as u64;
        if back <= len as u64 {
            let at: usize = len - back as usize;
            if at < len {
                Some(at)
            } else {
                None
            }
        } else {
            None
        }
    } else if (i as u64) < len as u64 {
        Some(i as usize)
    } else {
        None
    }
}

/// The message of a failure that names `what` between `before` and
/// `after`.
pub fn naming_error(before: &str, what: &str, after: &str) -> (r: InterpreterError)
    ensures
        r@ == ErrorView::RuntimeError(before@ + what@ + after@),
{
    InterpreterError::RuntimeError(concat3(before, what, after))
}

/// Adds two values.
pub fn add_values(left: &Value, right: &Value) -> (r: Result<Value, InterpreterError>)
    ensures
        same_result(r, sum_of(left@, right@)),
{
    match left {
        Value::Integer(a) => match right {
            Value::Integer(b) => Ok(Value::Integer(add_i64(*a, *b))),
            _ => Err(type_error("Cannot add incompatible types")),
        },
        Value::String(a) => match right {
            Value::String(b) => Ok(Value::String(concat(a.as_str(), b.as_str()))),
            _ => Err(type_error("Cannot add incompatible types")),
        },
        Value::Array(a) => match right {
            Value::Array(b) => {
                let mut out = clone_values(a);
                let ghost first = value_views(out@);
                let mut i: usize = 0;
                while i < b.len()
                    invariant
                        i <= b.len(),
                        first == value_views(a@),
                        value_views(out@) == first + value_views(b@).take(i as int),
                    decreases b.len() - i,
                {
                    let ghost before = value_views(out@);
                    let item = b[i].cloned();
                    out.push(item);
                    assert(value_views(out@) =~= before.push(b@[i as int]@));
                    assert(first + value_views(b@).take(i as int + 1) =~= (first + value_views(
                        b@,
                    ).take(i as int)).push(b@[i as int]@));
                    i += 1;
                }
                assert(value_views(b@).take(b.len() as int) =~= value_views(b@));
                Ok(Value::Array(out))
            },
            other => {
                let mut out = clone_values(a);
                let ghost before = value_views(out@);
                let item = other.cloned();
                out.push(item);
                assert(value_views(out@) =~= before.push(right@));
                Ok(Value::Array(out))
            },
        },
        _ => Err(type_error("Cannot add incompatible types")),
    }
}

/// Compares two values by the order operator `op`.
pub fn compare_values(left: &Value, right: &Value, op: BinaryOperator) -> (r: Result<
    Value,
    InterpreterError,
>)
    requires
        op == BinaryOperator::Lt || op == BinaryOperator::Le || op == BinaryOperator::Gt || op
            == BinaryOperator::Ge,
    ensures
        same_result(r, ordered(left@, right@, op)),
{
    match (left, right) {
        (Value::Integer(a), Value::Integer(b)) => Ok(
            Value::Boolean(
                match op {
                    BinaryOperator::Lt => *a < *b,
                    BinaryOperator::Le => *a <= *b,
                    BinaryOperator::Gt => *a > *b,
                    _ => *a >= *b,
                },
            ),
        ),
        (Value::String(a), Value::String(b)) => Ok(
            Value::Boolean(
                match op {
                    BinaryOperator::Lt => str_less(a.as_str(), b.as_str()),
                    BinaryOperator::Le => !str_less(b.as_str(), a.as_str()),
                    BinaryOperator::Gt => str_less(b.as_str(), a.as_str()),
                    _ => !str_less(a.as_str(), b.as_str()),
                },
            ),
        ),
        _ => Err(type_error("Cannot compare incompatible types")),
    }
}

/// Tests whether `left` is in `right`.
pub fn is_member(left: &Value, right: &Value, objects: &Vec<Object>) -> (r: bool)
    ensures
        r == member_of(left@, right@, object_views(objects@)),
{
    match right {
        Value::Array(items) => array_holds(items, left, objects),
        Value::String(s) => match left {
            Value::String(needle) => contains_chars(
                &chars_of(s.as_str()),
                &chars_of(needle.as_str()),
            ),
            _ => false,
        },
        Value::Dict(entries) => match left {
            Value::String(key) => {
                assert(names(pair_views(entries@)) =~= string_names(entries@));
                find_key(entries, key.as_str()).is_some()
            },
            _ => false,
        },
        _ => false,
    }
}

/// Applies a binary operator to two values.
pub fn apply_binary_op(left: &Value, op: BinaryOperator, right: &Value, objects: &Vec<Object>) -> (r:
    Result<Value, InterpreterError>)
    ensures
        same_result(r, binary_result(left@, op, right@, object_views(objects@))),
{
    match op {
        BinaryOperator::Add => add_values(left, right),
        BinaryOperator::Sub => match (left, right) {
            (Value::Integer(a), Value::Integer(b)) => Ok(Value::Integer(sub_i64(*a, *b))),
            _ => Err(type_error("Cannot subtract non-integers")),
        },
        BinaryOperator::Mul => match (left, right) {
            (Value::Integer(a), Value::Integer(b)) => Ok(Value::Integer(mul_i64(*a, *b))),
            (Value::String(s), Value::Integer(n)) => Ok(
                Value::String(repeat_string(s.as_str(), *n)),
            ),
            (Value::Integer(n), Value::String(s)) => Ok(
                Value::String(repeat_string(s.as_str(), *n)),
            ),
            _ => Err(type_error("Invalid operands for multiplication")),
        },
        BinaryOperator::Div => match (left, right) {
            (Value::Integer(a), Value::Integer(b)) => {
                if *b == 0 {
                    Err(runtime_error("Division by zero"))
                } else {
                    Ok(Value::Integer(div_i64(*a, *b)))
                }
            },
            (Value::String(a), Value::String(b)) => {
                let path = Path::from(a.as_str()).join(b.as_str());
                Ok(Value::String(path.to_string()))
            },
            _ => Err(type_error("Invalid operands for division")),
        },
        BinaryOperator::Mod => match (left, right) {
            (Value::Integer(a), Value::Integer(b)) => {
                if *b == 0 {
                    Err(runtime_error("Modulo by zero"))
                } else {
                    Ok(Value::Integer(rem_i64(*a, *b)))
                }
            },
            _ => Err(type_error("Cannot modulo non-integers")),
        },
        BinaryOperator::Eq => Ok(Value::Boolean(values_equal(left, right, objects))),
        BinaryOperator::Ne => Ok(Value::Boolean(!values_equal(left, right, objects))),
        BinaryOperator::Lt => compare_values(left, right, op),
        BinaryOperator::Le => compare_values(left, right, op),
        BinaryOperator::Gt => compare_values(left, right, op),
        BinaryOperator::Ge => compare_values(left, right, op),
        BinaryOperator::And => Ok(Value::Boolean(left.coerce_bool() && right.coerce_bool())),
        BinaryOperator::Or => Ok(Value::Boolean(left.coerce_bool() || right.coerce_bool())),
        BinaryOperator::In => Ok(Value::Boolean(is_member(left, right, objects))),
        BinaryOperator::NotIn => Ok(Value::Boolean(!is_member(left, right, objects))),
    }
}

/// Applies a unary operator to a value.
pub fn apply_unary_op(op: UnaryOperator, value: &Value) -> (r: Result<Value, InterpreterError>)
    ensures
        same_result(r, unary_result(op, value@)),
{
    match op {
        UnaryOperator::Not => Ok(Value::Boolean(!value.coerce_bool())),
        UnaryOperator::Minus => match value {
            Value::Integer(i) => Ok(Value::Integer(neg_i64(*i))),
            _ => Err(type_error("Cannot negate non-integer")),
        },
    }
}

/// Takes the element, entry or character of `object` that `index` names.
pub fn subscript(object: &Value, index: &Value) -> (r: Result<Value, InterpreterError>)
    ensures
        same_result(r, subscript_result(object@, index@)),
{
    match object {
        Value::Array(items) => match index {
            Value::Integer(i) => match find_place(*i, items.len()) {
                Some(at) => Ok(items[at].cloned()),
                None => Err(
                    naming_error("Index ", string_of(&i64_to_chars(*i)).as_str(), " out of bounds"),
                ),
            },
            _ => Err(type_error("Array index must be integer")),
        },
        Value::Dict(entries) => match index {
            Value::String(key) => {
                assert(names(pair_views(entries@)) =~= string_names(entries@));
                match find_key(entries, key.as_str()) {
                    Some(k) => Ok(entries[k].1.cloned()),
                    None => Err(naming_error("Key '", key.as_str(), "' not found")),
                }
            },
            _ => Err(type_error("Dictionary key must be string")),
        },
        Value::String(s) => match index {
            Value::Integer(i) => {
                let chars = chars_of(s.as_str());
                match find_place(*i, chars.len()) {
                    Some(at) => {
                        let mut one: Vec<char> = Vec::new();
                        one.push(chars[at]);
                        assert(one@ =~= seq![s@[at as int]]);
                        Ok(Value::String(string_of(&one)))
                    },
                    None => Err(
                        naming_error(
                            "String index ",
                            string_of(&i64_to_chars(*i)).as_str(),
                            " out of bounds",
                        ),
                    ),
                }
            },
            _ => Err(type_error("String index must be integer")),
        },
        _ => Err(type_error("Cannot subscript this type")),
    }
}

/// Sums and differences, products and remainders of numbers are those of
/// 64-bit arithmetic in two's complement: the result is the one number of
/// 64 bits that differs from the exact result by a multiple of `2^64`.
pub proof fn integer_arithmetic_is_twos_complement(a: i64, op: BinaryOperator, b: i64, objs: Seq<ObjectView>)
    requires
        op == BinaryOperator::Add || op == BinaryOperator::Sub || op == BinaryOperator::Mul || (op
            == BinaryOperator::Mod && b != 0),
    ensures
        binary_result(ValueView::Integer(a), op, ValueView::Integer(b), objs) matches Ok(
            ValueView::Integer(r),
        ) && (r - exact_result(a as int, op, b as int)) % 0x1_0000_0000_0000_0000 == 0,
{
    lemma_wrap64(exact_result(a as int, op, b as int));
}

/// What an arithmetic operator gives on the integers.
pub open spec fn exact_result(a: int, op: BinaryOperator, b: int) -> int {
    match op {
        BinaryOperator::Add => a + b,
        BinaryOperator::Sub => a - b,
        BinaryOperator::Mul => a * b,
        BinaryOperator::Div => trunc_div(a, b),
        _ => trunc_rem(a, b),
    }
}

/// `wrap64(x)` differs from `x` by a multiple of `2^64`, and is `x` where
/// `x` fits in 64 bits.
pub proof fn lemma_wrap64(x: int)
    ensures
        (wrap64(x) - x) % 0x1_0000_0000_0000_0000 == 0,
        i64::MIN <= x <= i64::MAX ==> wrap64(x) == x,
{
    let m = x % 0x1_0000_0000_0000_0000;
    assert(x == 0x1_0000_0000_0000_0000 * (x / 0x1_0000_0000_0000_0000) + m);
}

/// Division and remainder of a number by zero fail with a runtime error.
pub proof fn division_by_zero_fails(a: i64, objs: Seq<ObjectView>)
    ensures
        binary_result(
            ValueView::Integer(a),
            BinaryOperator::Div,
            ValueView::Integer(0),
            objs,
        ) == Err::<ValueView, ErrorView>(ErrorView::RuntimeError("Division by zero"@)),
        binary_result(
            ValueView::Integer(a),
            BinaryOperator::Mod,
            ValueView::Integer(0),
            objs,
        ) == Err::<ValueView, ErrorView>(ErrorView::RuntimeError("Modulo by zero"@)),
{
}

} // verus!
