use picomeson::interpreter::builtins::utils::flatten;
use picomeson::interpreter::builtins::{array, dict, join_paths, string};
use picomeson::interpreter::equality::values_equal;
use picomeson::interpreter::error::InterpreterError;
use picomeson::interpreter::objects::{File, Machine, Object};
use picomeson::interpreter::ops::{add_values, apply_binary_op, apply_unary_op, subscript};
use picomeson::interpreter::value::Value;
use picomeson::parser::{BinaryOperator, UnaryOperator};
use picomeson::path::Path;

fn s(text: &str) -> Value {
    Value::String(text.to_string())
}

fn num(i: i64) -> Value {
    Value::Integer(i)
}

fn arr(items: Vec<Value>) -> Value {
    Value::Array(items)
}

fn binop(l: Value, op: BinaryOperator, r: Value) -> Result<Value, InterpreterError> {
    apply_binary_op(&l, op, &r, &Vec::new())
}

fn type_error(msg: &str) -> InterpreterError {
    InterpreterError::TypeError(msg.to_string())
}

fn runtime_error(msg: &str) -> InterpreterError {
    InterpreterError::RuntimeError(msg.to_string())
}

#[test]
fn test_flatten() {
    let input = vec![
        Value::Integer(1),
        Value::Array(vec![
            Value::Array(vec![]),
            Value::Integer(2),
            Value::Array(vec![Value::Integer(3), Value::Integer(4)]),
            Value::Array(vec![]),
        ]),
        Value::Array(vec![]),
        Value::Integer(5),
    ];
    let expected = vec![
        Value::Integer(1),
        Value::Integer(2),
        Value::Integer(3),
        Value::Integer(4),
        Value::Integer(5),
    ];
    let flattened = flatten(&input);
    assert_eq!(flattened, expected);
}

#[test]
fn flatten_leaves_scalars_untouched() {
    let input = vec![s("a"), Value::Boolean(true), Value::Nothing, Value::Dict(vec![("k".to_string(), arr(vec![num(1)]))])];
    assert_eq!(flatten(&input), vec![s("a"), Value::Boolean(true), Value::Nothing, Value::Dict(vec![("k".to_string(), arr(vec![num(1)]))])]);
    assert_eq!(flatten(&vec![]), vec![]);
    assert_eq!(flatten(&vec![arr(vec![arr(vec![arr(vec![])])])]), vec![]);
}

#[test]
fn integer_arithmetic_wraps_in_64_bits() {
    assert_eq!(binop(num(2), BinaryOperator::Add, num(3)), Ok(num(5)));
    assert_eq!(binop(num(i64::MAX), BinaryOperator::Add, num(1)), Ok(num(i64::MIN)));
    assert_eq!(binop(num(i64::MIN), BinaryOperator::Sub, num(1)), Ok(num(i64::MAX)));
    assert_eq!(binop(num(i64::MAX), BinaryOperator::Mul, num(2)), Ok(num(-2)));
    assert_eq!(binop(num(-7), BinaryOperator::Mod, num(3)), Ok(num(-1)));
    assert_eq!(binop(num(7), BinaryOperator::Mod, num(-3)), Ok(num(1)));
    assert_eq!(binop(num(i64::MIN), BinaryOperator::Mod, num(-1)), Ok(num(0)));
    assert_eq!(binop(num(-7), BinaryOperator::Div, num(2)), Ok(num(-3)));
    assert_eq!(binop(num(7), BinaryOperator::Div, num(-2)), Ok(num(-3)));
    assert_eq!(binop(num(i64::MIN), BinaryOperator::Div, num(-1)), Ok(num(i64::MIN)));
    assert_eq!(apply_unary_op(UnaryOperator::Minus, &num(i64::MIN)), Ok(num(i64::MIN)));
    assert_eq!(apply_unary_op(UnaryOperator::Minus, &num(5)), Ok(num(-5)));
}

#[test]
fn division_by_zero_is_a_runtime_error() {
    assert_eq!(binop(num(1), BinaryOperator::Div, num(0)), Err(runtime_error("Division by zero")));
    assert_eq!(binop(num(1), BinaryOperator::Mod, num(0)), Err(runtime_error("Modulo by zero")));
    assert_eq!(binop(num(0), BinaryOperator::Div, num(0)), Err(runtime_error("Division by zero")));
}

#[test]
fn addition_of_strings_and_arrays() {
    assert_eq!(binop(s("ab"), BinaryOperator::Add, s("cd")), Ok(s("abcd")));
    assert_eq!(binop(arr(vec![num(1)]), BinaryOperator::Add, arr(vec![num(2), num(3)])), Ok(arr(vec![num(1), num(2), num(3)])));
    assert_eq!(binop(arr(vec![num(1)]), BinaryOperator::Add, s("x")), Ok(arr(vec![num(1), s("x")])));
    assert_eq!(add_values(&num(1), &s("x")), Err(type_error("Cannot add incompatible types")));
    assert_eq!(add_values(&s("x"), &num(1)), Err(type_error("Cannot add incompatible types")));
    assert_eq!(binop(Value::Boolean(true), BinaryOperator::Add, Value::Boolean(true)), Err(type_error("Cannot add incompatible types")));
}

#[test]
fn other_arithmetic_needs_integers() {
    assert_eq!(binop(s("a"), BinaryOperator::Sub, num(1)), Err(type_error("Cannot subtract non-integers")));
    assert_eq!(binop(s("a"), BinaryOperator::Mod, num(1)), Err(type_error("Cannot modulo non-integers")));
    assert_eq!(binop(arr(vec![]), BinaryOperator::Mul, num(1)), Err(type_error("Invalid operands for multiplication")));
    assert_eq!(binop(num(1), BinaryOperator::Div, s("a")), Err(type_error("Invalid operands for division")));
    assert_eq!(apply_unary_op(UnaryOperator::Minus, &s("a")), Err(type_error("Cannot negate non-integer")));
}

#[test]
fn string_repetition_in_either_order() {
    assert_eq!(binop(s("ab"), BinaryOperator::Mul, num(3)), Ok(s("ababab")));
    assert_eq!(binop(num(2), BinaryOperator::Mul, s("x")), Ok(s("xx")));
    assert_eq!(binop(s("ab"), BinaryOperator::Mul, num(0)), Ok(s("")));
    assert_eq!(binop(s("ab"), BinaryOperator::Mul, num(-1)), Ok(s("")));
}

#[test]
fn slash_joins_paths() {
    assert_eq!(binop(s("a"), BinaryOperator::Div, s("b")), Ok(s("a/b")));
    assert_eq!(binop(s("a/"), BinaryOperator::Div, s("b")), Ok(s("a/b")));
    assert_eq!(binop(s("a"), BinaryOperator::Div, s("/b")), Ok(s("/b")));
    assert_eq!(binop(s(""), BinaryOperator::Div, s("b")), Ok(s("b")));
    assert_eq!(binop(s("a\\c"), BinaryOperator::Div, s("b")), Ok(s("a/c/b")));
}

#[test]
fn comparisons() {
    assert_eq!(binop(num(1), BinaryOperator::Lt, num(2)), Ok(Value::Boolean(true)));
    assert_eq!(binop(num(2), BinaryOperator::Le, num(2)), Ok(Value::Boolean(true)));
    assert_eq!(binop(num(1), BinaryOperator::Gt, num(2)), Ok(Value::Boolean(false)));
    assert_eq!(binop(num(1), BinaryOperator::Ge, num(2)), Ok(Value::Boolean(false)));
    assert_eq!(binop(s("abc"), BinaryOperator::Lt, s("abd")), Ok(Value::Boolean(true)));
    assert_eq!(binop(s("ab"), BinaryOperator::Lt, s("abc")), Ok(Value::Boolean(true)));
    assert_eq!(binop(s("b"), BinaryOperator::Gt, s("abc")), Ok(Value::Boolean(true)));
    assert_eq!(binop(s("a"), BinaryOperator::Le, s("a")), Ok(Value::Boolean(true)));
    assert_eq!(binop(s("a"), BinaryOperator::Ge, s("b")), Ok(Value::Boolean(false)));
    assert_eq!(binop(s("a"), BinaryOperator::Lt, num(1)), Err(type_error("Cannot compare incompatible types")));
}

#[test]
fn equality_with_coercion_to_text() {
    let none: Vec<Object> = Vec::new();
    assert!(values_equal(&s("5"), &num(5), &none));
    assert!(values_equal(&num(5), &s("5"), &none));
    assert!(values_equal(&s("true"), &Value::Boolean(true), &none));
    assert!(values_equal(&s("[1, a]"), &arr(vec![num(1), s("a")]), &none));
    assert!(values_equal(&s("none"), &Value::Nothing, &none));
    assert!(!values_equal(&num(1), &Value::Boolean(true), &none));
    assert!(!values_equal(&num(0), &Value::Nothing, &none));
    assert!(values_equal(&arr(vec![num(1), s("2")]), &arr(vec![num(1), num(2)]), &none));
    assert!(!values_equal(&arr(vec![num(1)]), &arr(vec![num(1), num(2)]), &none));
    assert_eq!(binop(num(1), BinaryOperator::Eq, num(1)), Ok(Value::Boolean(true)));
    assert_eq!(binop(num(1), BinaryOperator::Ne, num(1)), Ok(Value::Boolean(false)));
}

#[test]
fn dicts_are_equal_in_any_order() {
    let none: Vec<Object> = Vec::new();
    let a = Value::Dict(vec![("x".to_string(), num(1)), ("y".to_string(), num(2))]);
    let b = Value::Dict(vec![("y".to_string(), num(2)), ("x".to_string(), num(1))]);
    let c = Value::Dict(vec![("y".to_string(), num(2)), ("x".to_string(), num(3))]);
    assert!(values_equal(&a, &b, &none));
    assert!(!values_equal(&a, &c, &none));
}

#[test]
fn objects_are_equal_where_they_hold_the_same() {
    let objects = vec![
        Object::File(File::from_path("a.c")),
        Object::File(File::from_path("a.c")),
        Object::File(File::from_path("b.c")),
        Object::Machine(Machine { system: "linux".to_string(), cpu_family: "x".to_string(), cpu: "x".to_string(), endian: "little".to_string() }),
    ];
    assert!(values_equal(&Value::Object(0), &Value::Object(1), &objects));
    assert!(!values_equal(&Value::Object(0), &Value::Object(2), &objects));
    assert!(!values_equal(&Value::Object(0), &Value::Object(3), &objects));
    assert!(values_equal(&Value::Object(9), &Value::Object(9), &objects));
    assert!(!values_equal(&Value::Object(9), &Value::Object(8), &objects));
    assert!(values_equal(&s("File(a.c)"), &Value::Object(0), &objects));
    assert_eq!(Value::Object(3).coerce_string(&objects), "Machine(linux)");
    assert_eq!(Value::Object(7).coerce_string(&objects), "Object");
}

#[test]
fn membership() {
    assert_eq!(binop(s("abc"), BinaryOperator::In, arr(vec![s("abc"), s("def")])), Ok(Value::Boolean(true)));
    assert_eq!(binop(s("ab"), BinaryOperator::In, s("abcdef")), Ok(Value::Boolean(true)));
    assert_eq!(binop(num(5), BinaryOperator::In, Value::Dict(vec![("5".to_string(), num(1))])), Ok(Value::Boolean(false)));
    assert_eq!(binop(s("5"), BinaryOperator::In, Value::Dict(vec![("5".to_string(), num(1))])), Ok(Value::Boolean(true)));
    assert_eq!(binop(s("x"), BinaryOperator::In, num(3)), Ok(Value::Boolean(false)));
    assert_eq!(binop(s("x"), BinaryOperator::NotIn, num(3)), Ok(Value::Boolean(true)));
    assert_eq!(binop(s("zz"), BinaryOperator::NotIn, s("abc")), Ok(Value::Boolean(true)));
    assert_eq!(binop(num(1), BinaryOperator::In, s("1")), Ok(Value::Boolean(false)));
    assert_eq!(binop(s(""), BinaryOperator::In, s("abc")), Ok(Value::Boolean(true)));
    assert_eq!(binop(s("abc"), BinaryOperator::In, s("ab")), Ok(Value::Boolean(false)));
}

#[test]
fn logic_coerces_to_boolean() {
    assert_eq!(binop(num(1), BinaryOperator::And, s("x")), Ok(Value::Boolean(true)));
    assert_eq!(binop(num(0), BinaryOperator::Or, s("")), Ok(Value::Boolean(false)));
    assert_eq!(binop(Value::Nothing, BinaryOperator::Or, arr(vec![num(0)])), Ok(Value::Boolean(true)));
    assert_eq!(apply_unary_op(UnaryOperator::Not, &Value::Dict(vec![])), Ok(Value::Boolean(true)));
    assert_eq!(apply_unary_op(UnaryOperator::Not, &Value::Object(0)), Ok(Value::Boolean(false)));
    assert!(Value::Boolean(true).coerce_bool());
    assert!(!Value::Nothing.coerce_bool());
}

#[test]
fn text_of_values() {
    let none: Vec<Object> = Vec::new();
    assert_eq!(num(-42).coerce_string(&none), "-42");
    assert_eq!(num(0).coerce_string(&none), "0");
    assert_eq!(num(i64::MIN).coerce_string(&none), "-9223372036854775808");
    assert_eq!(num(i64::MAX).coerce_string(&none), "9223372036854775807");
    assert_eq!(Value::Boolean(false).coerce_string(&none), "false");
    assert_eq!(arr(vec![s("a"), num(1), arr(vec![])]).coerce_string(&none), "[a, 1, []]");
    assert_eq!(Value::Dict(vec![("k".to_string(), s("v")), ("n".to_string(), num(2))]).coerce_string(&none), "{k: v, n: 2}");
    assert_eq!(Value::Nothing.coerce_string(&none), "none");
    assert_eq!(s("@0@-@1@-@0@").format_string(&vec![s("a"), num(7)], &none), "a-7-a");
    assert_eq!(s("@1@").format_string(&vec![s("@0@")], &none), "@1@");
}

#[test]
fn kind_checks() {
    assert_eq!(Value::Boolean(true).as_bool(), Ok(true));
    assert_eq!(num(1).as_bool(), Err(type_error("Expected a boolean")));
    assert_eq!(s("x").as_string(), Ok("x"));
    assert_eq!(num(1).as_string(), Err(type_error("Expected a string")));
    assert_eq!(num(1).as_integer(), Ok(1));
    assert_eq!(s("x").as_integer(), Err(type_error("Expected an integer")));
    assert!(arr(vec![]).as_array().is_ok());
    assert!(s("x").as_array().is_err());
    assert!(Value::Dict(vec![]).as_dict().is_ok());
    assert!(s("x").as_dict().is_err());
    assert_eq!(arr(vec![num(1), s("x")]).cloned(), arr(vec![num(1), s("x")]));
}

#[test]
fn subscripts() {
    let a = arr(vec![num(10), num(20), num(30)]);
    assert_eq!(subscript(&a, &num(0)), Ok(num(10)));
    assert_eq!(subscript(&a, &num(-1)), Ok(num(30)));
    assert_eq!(subscript(&a, &num(-3)), Ok(num(10)));
    assert_eq!(subscript(&a, &num(3)), Err(runtime_error("Index 3 out of bounds")));
    assert_eq!(subscript(&a, &num(-4)), Err(runtime_error("Index -4 out of bounds")));
    assert_eq!(subscript(&a, &s("x")), Err(type_error("Array index must be integer")));
    let d = Value::Dict(vec![("k".to_string(), num(1))]);
    assert_eq!(subscript(&d, &s("k")), Ok(num(1)));
    assert_eq!(subscript(&d, &s("z")), Err(runtime_error("Key 'z' not found")));
    assert_eq!(subscript(&d, &num(0)), Err(type_error("Dictionary key must be string")));
    assert_eq!(subscript(&s("h\u{e9}llo"), &num(1)), Ok(s("\u{e9}")));
    assert_eq!(subscript(&s("hello"), &num(-1)), Ok(s("o")));
    assert_eq!(subscript(&s("hello"), &num(5)), Err(runtime_error("String index 5 out of bounds")));
    assert_eq!(subscript(&s("hello"), &s("x")), Err(type_error("String index must be integer")));
    assert_eq!(subscript(&num(1), &num(0)), Err(type_error("Cannot subscript this type")));
}

#[test]
fn substring_is_total() {
    let h = "hello".to_string();
    assert_eq!(string::substring(&h, &vec![]), Ok(s("hell")));
    assert_eq!(string::substring(&h, &vec![num(1), num(3)]), Ok(s("el")));
    assert_eq!(string::substring(&h, &vec![num(3), num(1)]), Ok(s("")));
    assert_eq!(string::substring(&h, &vec![num(-100), num(100)]), Ok(s("hell")));
    assert_eq!(string::substring(&h, &vec![num(100), num(-100)]), Ok(s("")));
    assert_eq!(string::substring(&h, &vec![num(-2)]), Ok(s("ll")));
    assert_eq!(string::substring(&h, &vec![num(0), num(-2)]), Ok(s("he")));
    assert_eq!(string::substring(&h, &vec![num(i64::MIN), num(i64::MAX)]), Ok(s("hell")));
    assert_eq!(string::substring(&h, &vec![num(i64::MAX), num(i64::MIN)]), Ok(s("")));
    assert_eq!(string::substring(&String::new(), &vec![num(3), num(9)]), Ok(s("")));
    assert_eq!(string::substring(&String::new(), &vec![]), Ok(s("")));
    assert_eq!(string::substring(&h, &vec![s("x")]), Err(type_error("First argument to substring must be an integer")));
    assert_eq!(string::substring(&h, &vec![num(0), s("x")]), Err(type_error("Second argument to substring must be an integer")));
}

#[test]
fn string_methods() {
    let none: Vec<Object> = Vec::new();
    assert_eq!(string::split(&"a b  c".to_string(), &vec![]), Ok(arr(vec![s("a"), s("b"), s(""), s("c")])));
    assert_eq!(string::split(&"a--b".to_string(), &vec![s("--")]), Ok(arr(vec![s("a"), s("b")])));
    assert_eq!(string::split(&"ab".to_string(), &vec![s("")]), Ok(arr(vec![s(""), s("a"), s("b"), s("")])));
    assert_eq!(string::split(&"ab".to_string(), &vec![num(1)]), Err(type_error("First argument to split must be a string")));
    assert_eq!(string::join(&", ".to_string(), &vec![s("a"), num(1), Value::Boolean(true)], &none), Ok(s("a, 1, true")));
    assert_eq!(string::join(&",".to_string(), &vec![], &none), Ok(s("")));
    assert_eq!(string::strip(&"  x y \n".to_string()), Ok(s("x y")));
    assert_eq!(string::startswith(&"hello".to_string(), &vec![s("he")]), Ok(Value::Boolean(true)));
    assert_eq!(string::startswith(&"hello".to_string(), &vec![s("lo")]), Ok(Value::Boolean(false)));
    assert_eq!(string::startswith(&"hello".to_string(), &vec![]), Err(type_error("First argument to startswith must be a string")));
    assert_eq!(string::endswith(&"hello".to_string(), &vec![s("lo")]), Ok(Value::Boolean(true)));
    assert_eq!(string::endswith(&"hello".to_string(), &vec![num(1)]), Err(type_error("First argument to endswith must be a string")));
    assert_eq!(string::contains(&"hello".to_string(), &vec![s("ell")]), Ok(Value::Boolean(true)));
    assert_eq!(string::contains(&"hello".to_string(), &vec![s("z")]), Ok(Value::Boolean(false)));
    assert_eq!(string::underscorify(&"a-b.c d\u{e9}9".to_string()), Ok(s("a_b_c_d_9")));
    assert_eq!(string::to_upper(&"aBc".to_string()), Ok(s("ABC")));
    assert_eq!(string::to_lower(&"aBc".to_string()), Ok(s("abc")));
    assert_eq!(string::format(&"@0@=@1@".to_string(), &vec![s("k"), num(2)], &none), Ok(s("k=2")));
}

#[test]
fn array_methods() {
    let none: Vec<Object> = Vec::new();
    let a = vec![num(1), s("two")];
    assert_eq!(array::get(&a, &vec![num(1)]), Ok(s("two")));
    assert_eq!(array::get(&a, &vec![num(-2)]), Ok(num(1)));
    assert_eq!(array::get(&a, &vec![num(5), s("fallback")]), Ok(s("fallback")));
    assert_eq!(array::get(&a, &vec![num(5)]), Err(runtime_error("Index out of range and no fallback value provided")));
    assert_eq!(array::get(&a, &vec![]), Err(type_error("First argument to get is required")));
    assert_eq!(array::get(&a, &vec![s("x")]), Err(type_error("First argument to get must be an integer")));
    assert_eq!(array::length(&a), Ok(num(2)));
    assert_eq!(array::contains(&a, &vec![s("two")], &none), Ok(Value::Boolean(true)));
    assert_eq!(array::contains(&a, &vec![s("1")], &none), Ok(Value::Boolean(true)));
    assert_eq!(array::contains(&a, &vec![num(3)], &none), Ok(Value::Boolean(false)));
    assert_eq!(array::contains(&a, &vec![], &none), Err(type_error("First argument to contains is required")));
}

#[test]
fn dict_methods() {
    let d = vec![("a".to_string(), num(1)), ("b".to_string(), s("x"))];
    assert_eq!(dict::get(&d, &vec![s("a")]), Ok(num(1)));
    assert_eq!(dict::get(&d, &vec![s("z"), num(9)]), Ok(num(9)));
    assert_eq!(dict::get(&d, &vec![s("z")]), Err(runtime_error("Key not found and no fallback value provided")));
    assert_eq!(dict::get(&d, &vec![]), Err(type_error("First argument to get is required")));
    assert_eq!(dict::get(&d, &vec![num(1)]), Err(type_error("First argument to get must be a string")));
    assert_eq!(dict::has_key(&d, &vec![s("b")]), Ok(Value::Boolean(true)));
    assert_eq!(dict::has_key(&d, &vec![s("c")]), Ok(Value::Boolean(false)));
    assert_eq!(dict::has_key(&d, &vec![num(1)]), Err(type_error("First argument to has_key must be a string")));
    assert_eq!(dict::keys(&d), Ok(arr(vec![s("a"), s("b")])));
    assert_eq!(dict::values(&d), Ok(arr(vec![num(1), s("x")])));
}

#[test]
fn join_paths_flattens_its_arguments() {
    assert_eq!(join_paths::join_paths(&vec![s("a"), arr(vec![s("b"), arr(vec![s("c")])])]), Ok(s("a/b/c")));
    assert_eq!(join_paths::join_paths(&vec![s("a"), s("/b"), s("c")]), Ok(s("/b/c")));
    assert_eq!(join_paths::join_paths(&vec![]), Ok(s("")));
    assert_eq!(join_paths::join_paths(&vec![s("a"), num(1)]), Err(type_error("All arguments to join_paths must be strings")));
}

#[test]
fn paths() {
    assert_eq!(Path::new().as_str(), "");
    assert_eq!(Path::from("a\\b\\c").as_str(), "a/b/c");
    assert_eq!(Path::from("a/b").join("c").as_str(), "a/b/c");
    assert_eq!(Path::from("a/b///").join("c").as_str(), "a/b/c");
    assert_eq!(Path::from("a/b").join("/c").as_str(), "/c");
    assert_eq!(Path::new().join("c").as_str(), "c");
    assert_eq!(Path::from("dir/file.c").set_extension("o").as_str(), "dir/file.o");
    assert_eq!(Path::from("dir/file.c").set_extension(".o").as_str(), "dir/file.o");
    assert_eq!(Path::from("dir.d/file").set_extension("o").as_str(), "dir.d/file.o");
    assert_eq!(Path::from("a.tar.gz").set_extension("xz").as_str(), "a.tar.xz");
    assert_eq!(Path::from("file").set_extension("").as_str(), "file.");
    assert_eq!(Path::from("x").to_string(), "x");
    assert_eq!(File::from_path("a\\b.c").path.as_str(), "a/b.c");
}

#[test]
fn errors_have_text() {
    assert_eq!(InterpreterError::UndefinedVariable("x".to_string()).to_string(), "Undefined variable: x");
    assert_eq!(InterpreterError::UndefinedFunction("f".to_string()).to_string(), "Undefined function: f");
    assert_eq!(type_error("m").to_string(), "Type error: m");
    assert_eq!(runtime_error("m").to_string(), "Runtime error: m");
}
