use picomeson::lexer::{tokenize, TokenKind};
use picomeson::parser::statements::parse_meson_file;
use picomeson::parser::{BinaryOperator, ParseError, Statement, UnaryOperator, Value};

fn kinds(input: &str) -> Vec<TokenKind> {
    tokenize(input).iter().map(|t| t.kind).collect()
}

fn ident(name: &str) -> Value {
    Value::Identifier(name.to_string())
}

fn binary(l: Value, op: BinaryOperator, r: Value) -> Value {
    Value::BinaryOp(Box::new(l), op, Box::new(r))
}

#[test]
fn test_dict_with_comments() {
    let input = r#"
cpu_family_aliases = {
    # aarch64
    'arm64' : 'aarch64',
    # cris
    'crisv32' : 'cris',
}
"#;
    let result = parse_meson_file(input);
    assert!(result.is_ok());
}

#[test]
fn test_format_string() {
    let input = r#"
_defsym = '-Wl,--defsym=@0@=@1@main'.format(start, global_prefix)
"#;
    let result = parse_meson_file(input);
    assert!(result.is_ok());
}

#[test]
fn test_multiline_string() {
    let input = r#"
message = '''
Unsupported architecture: "@0@"

    Read the Supported Architectures section in README.md
    to learn how to add a new architecture.
'''
"#;
    let result = parse_meson_file(input);
    assert!(result.is_ok());
}

#[test]
fn tokens_end_with_eof() {
    assert_eq!(kinds(""), vec![TokenKind::Eof]);
    assert_eq!(kinds("   \t"), vec![TokenKind::Eof]);
    assert_eq!(
        kinds("a = 1"),
        vec![TokenKind::Identifier, TokenKind::Assign, TokenKind::Integer, TokenKind::Eof]
    );
}

#[test]
fn newlines_collapse_and_comments_end_the_line() {
    assert_eq!(
        kinds("a\n\n\nb"),
        vec![TokenKind::Identifier, TokenKind::Newline, TokenKind::Identifier, TokenKind::Eof]
    );
    assert_eq!(
        kinds("a # note\nb"),
        vec![TokenKind::Identifier, TokenKind::Newline, TokenKind::Identifier, TokenKind::Eof]
    );
}

#[test]
fn unknown_characters_are_skipped() {
    assert_eq!(kinds("a ! $ b"), vec![TokenKind::Identifier, TokenKind::Identifier, TokenKind::Eof]);
    assert_eq!(kinds("a != b"), vec![TokenKind::Identifier, TokenKind::Ne, TokenKind::Identifier, TokenKind::Eof]);
}

#[test]
fn keywords_and_operators() {
    assert_eq!(
        kinds("if elif else endif foreach endforeach break continue and or not in true false"),
        vec![
            TokenKind::If,
            TokenKind::Elif,
            TokenKind::Else,
            TokenKind::Endif,
            TokenKind::Foreach,
            TokenKind::Endforeach,
            TokenKind::Break,
            TokenKind::Continue,
            TokenKind::And,
            TokenKind::Or,
            TokenKind::Not,
            TokenKind::In,
            TokenKind::True,
            TokenKind::False,
            TokenKind::Eof,
        ]
    );
    assert_eq!(
        kinds("+ += - * / % == = < <= > >= ? : ( ) [ ] { } , ."),
        vec![
            TokenKind::Plus,
            TokenKind::AddAssign,
            TokenKind::Minus,
            TokenKind::Star,
            TokenKind::Slash,
            TokenKind::Percent,
            TokenKind::Eq,
            TokenKind::Assign,
            TokenKind::Lt,
            TokenKind::Le,
            TokenKind::Gt,
            TokenKind::Ge,
            TokenKind::Question,
            TokenKind::Colon,
            TokenKind::LeftParen,
            TokenKind::RightParen,
            TokenKind::LeftBracket,
            TokenKind::RightBracket,
            TokenKind::LeftBrace,
            TokenKind::RightBrace,
            TokenKind::Comma,
            TokenKind::Dot,
            TokenKind::Eof,
        ]
    );
}

#[test]
fn number_literals() {
    let numbers: Vec<i64> = tokenize("0 42 0x1F 0o17 0b101 1_000 0xff_ff 9223372036854775807 9223372036854775808 0x")
        .iter()
        .filter(|t| t.kind == TokenKind::Integer)
        .map(|t| t.number)
        .collect();
    assert_eq!(numbers, vec![0, 42, 31, 15, 5, 1000, 65535, i64::MAX, 0, 0]);
}

#[test]
fn string_literals_and_escapes() {
    let texts: Vec<String> = tokenize(r#"'a\nb' "q\t" 'x\x41y' 'é' '\U0001F600' '\101' 'it\'s' '\q' '\0' r'a\nb' f'@0@'"#)
        .iter()
        .filter(|t| t.kind == TokenKind::String || t.kind == TokenKind::FormatString)
        .map(|t| t.text.clone())
        .collect();
    assert_eq!(
        texts,
        vec![
            "a\nb".to_string(),
            "q\t".to_string(),
            "xAy".to_string(),
            "\u{e9}".to_string(),
            "\u{1F600}".to_string(),
            "A".to_string(),
            "it's".to_string(),
            "q".to_string(),
            "\0".to_string(),
            "a\\nb".to_string(),
            "@0@".to_string(),
        ]
    );
    let toks = tokenize("f'x'");
    assert_eq!(toks[0].kind, TokenKind::FormatString);
}

#[test]
fn multiline_strings() {
    let toks = tokenize("'''a\n'b''\nc'''");
    assert_eq!(toks[0].kind, TokenKind::String);
    assert_eq!(toks[0].text, "a\n'b''\nc");
    let toks = tokenize("'''one \\\n   two'''");
    assert_eq!(toks[0].text, "one two");
    let toks = tokenize("'''open''");
    assert_eq!(toks[0].text, "open''");
}

#[test]
fn precedence_of_operators() {
    let stmts = parse_meson_file("x = 1 + 2 * 3\n").unwrap();
    assert_eq!(
        stmts,
        vec![Statement::Assignment(
            "x".to_string(),
            binary(
                Value::Integer(1),
                BinaryOperator::Add,
                binary(Value::Integer(2), BinaryOperator::Mul, Value::Integer(3))
            )
        )]
    );
    let stmts = parse_meson_file("a or b and c == d\n").unwrap();
    assert_eq!(
        stmts,
        vec![Statement::Expression(binary(
            ident("a"),
            BinaryOperator::Or,
            binary(ident("b"), BinaryOperator::And, binary(ident("c"), BinaryOperator::Eq, ident("d")))
        ))]
    );
    let stmts = parse_meson_file("1 - 2 - 3\n").unwrap();
    assert_eq!(
        stmts,
        vec![Statement::Expression(binary(
            binary(Value::Integer(1), BinaryOperator::Sub, Value::Integer(2)),
            BinaryOperator::Sub,
            Value::Integer(3)
        ))]
    );
}

#[test]
fn unary_ternary_and_membership() {
    let stmts = parse_meson_file("not a ? -1 : b not in c\n").unwrap();
    assert_eq!(
        stmts,
        vec![Statement::Expression(Value::TernaryOp(
            Box::new(Value::UnaryOp(UnaryOperator::Not, Box::new(ident("a")))),
            Box::new(Value::UnaryOp(UnaryOperator::Minus, Box::new(Value::Integer(1)))),
            Box::new(binary(ident("b"), BinaryOperator::NotIn, ident("c"))),
        ))]
    );
    let stmts = parse_meson_file("'a' in b\n").unwrap();
    assert_eq!(
        stmts,
        vec![Statement::Expression(binary(Value::String("a".to_string()), BinaryOperator::In, ident("b")))]
    );
}

#[test]
fn calls_methods_and_subscripts() {
    let stmts = parse_meson_file("f(1, 'two', key: three,)\n").unwrap();
    assert_eq!(
        stmts,
        vec![Statement::Expression(Value::FunctionCall(
            "f".to_string(),
            vec![Value::Integer(1), Value::String("two".to_string())],
            vec![("key".to_string(), ident("three"))],
        ))]
    );
    let stmts = parse_meson_file("a.b(c)[0].d()\n").unwrap();
    assert_eq!(
        stmts,
        vec![Statement::Expression(Value::MethodCall(
            Box::new(Value::Subscript(
                Box::new(Value::MethodCall(Box::new(ident("a")), "b".to_string(), vec![ident("c")], vec![])),
                Box::new(Value::Integer(0)),
            )),
            "d".to_string(),
            vec![],
            vec![],
        ))]
    );
}

#[test]
fn positional_after_named_argument_is_an_error() {
    assert_eq!(parse_meson_file("f(a: 1, 2)\n"), Err(ParseError::UnexpectedToken));
    assert_eq!(parse_meson_file("f(a: 1, b)\n"), Err(ParseError::UnexpectedToken));
    assert!(parse_meson_file("f(1, a: 2, b: 3)\n").is_ok());
}

#[test]
fn array_and_dict_literals_with_trailing_commas() {
    let stmts = parse_meson_file("x = [1, 2,]\ny = {'a': 1, b: 2, 'a': 3,}\n").unwrap();
    assert_eq!(
        stmts,
        vec![
            Statement::Assignment("x".to_string(), Value::Array(vec![Value::Integer(1), Value::Integer(2)])),
            Statement::Assignment(
                "y".to_string(),
                Value::Dict(vec![("a".to_string(), Value::Integer(3)), ("b".to_string(), Value::Integer(2))])
            ),
        ]
    );
}

#[test]
fn statements_and_blocks() {
    let input = "if a\n  x = 1\nelif b\n  x += 2\nelse\n  f()\nendif\nforeach v : items\n  if v\n    break\n  endif\n  continue\nendforeach\n";
    let stmts = parse_meson_file(input).unwrap();
    assert_eq!(
        stmts,
        vec![
            Statement::If(
                ident("a"),
                vec![Statement::Assignment("x".to_string(), Value::Integer(1))],
                vec![(ident("b"), vec![Statement::AddAssignment("x".to_string(), Value::Integer(2))])],
                Some(vec![Statement::Expression(Value::FunctionCall("f".to_string(), vec![], vec![]))]),
            ),
            Statement::Foreach(
                "v".to_string(),
                ident("items"),
                vec![Statement::If(ident("v"), vec![Statement::Break], vec![], None), Statement::Continue],
            ),
        ]
    );
}

#[test]
fn structural_violations_are_errors() {
    assert_eq!(parse_meson_file("x = \n"), Err(ParseError::UnexpectedToken));
    assert_eq!(parse_meson_file("if a\n x = 1\n"), Err(ParseError::UnexpectedToken));
    assert_eq!(parse_meson_file("foreach : a\nendforeach\n"), Err(ParseError::UnexpectedToken));
    assert_eq!(parse_meson_file("x = 1 y = 2\n"), Err(ParseError::UnexpectedToken));
    assert_eq!(parse_meson_file("(1 + 2\n"), Err(ParseError::UnexpectedToken));
    assert_eq!(parse_meson_file("1()\n"), Err(ParseError::UnexpectedToken));
    assert_eq!(parse_meson_file("a.1\n"), Err(ParseError::UnexpectedToken));
    assert_eq!(ParseError::UnexpectedToken.to_string(), "Unexpected token");
}

#[test]
fn only_a_bare_name_is_assigned() {
    assert_eq!(parse_meson_file("a[0] = 1\n"), Err(ParseError::UnexpectedToken));
    let stmts = parse_meson_file("").unwrap();
    assert_eq!(stmts, vec![]);
}
