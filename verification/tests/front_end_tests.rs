use picomeson::interpreter::error::{ErrorContext, InterpreterError};
use picomeson::lexer::{in_class, CharClass, Lexer, Token, TokenKind};
use picomeson::machine_file::{MachineFile, MachineFileParser, MachineValue};
use picomeson::parser::grammar::BlockEnd;
use picomeson::parser::{ParseError, Parser, Statement, Value};
use picomeson::text;

#[test]
fn the_lexer_reads_character_by_character() {
    let mut lexer = Lexer::new("ab c");
    assert_eq!(lexer.peek_char(), Some('a'));
    assert_eq!(lexer.peek_ahead(1), Some('b'));
    assert_eq!(lexer.peek_ahead(4), None);
    assert_eq!(lexer.next_char(), Some('a'));
    assert_eq!(lexer.read_identifier(), "b");
    lexer.skip_whitespace();
    assert_eq!(lexer.next_char(), Some('c'));
    assert_eq!(lexer.next_char(), None);
    assert_eq!(lexer.peek_char(), None);
}

#[test]
fn the_lexer_reads_its_pieces() {
    let mut lexer = Lexer::new("# note\n0x_ff rest");
    lexer.skip_comment();
    assert_eq!(lexer.read_number(), 255);
    lexer.skip_whitespace();
    assert_eq!(lexer.take_run(CharClass::Word, 2), vec!['r', 'e']);
    let mut lexer = Lexer::new("a\\tb' tail");
    assert_eq!(lexer.read_string('\''), "a\tb");
    assert_eq!(lexer.peek_char(), Some(' '));
    let mut lexer = Lexer::new("\"x\" y");
    assert_eq!(lexer.read_format_string(), "x");
    let mut lexer = Lexer::new("a'b''' c");
    assert_eq!(lexer.read_multiline_string('\''), "a'b");
    let mut lexer = Lexer::new("a\\n' c");
    assert_eq!(lexer.read_raw_string('\''), "a\\n");
    let mut lexer = Lexer::new("unterminated");
    assert_eq!(lexer.read_string('"'), "unterminated");
    let mut lexer = Lexer::new("+= x");
    assert_eq!(lexer.scan().map(|t| t.kind), Some(TokenKind::AddAssign));
    assert_eq!(lexer.tokenize().last().map(|t| t.kind), Some(TokenKind::Eof));
}

#[test]
fn escapes_by_number() {
    let mut lexer = Lexer::new("\\x4a\\x\\u00e9\\ud800\\U0001F600\\777\\8\\1012'");
    assert_eq!(lexer.read_string('\''), "Jx\u{e9}u\u{1F600}78A2");
}

#[test]
fn the_parser_looks_past_line_breaks() {
    let mut parser = Parser::new("\n\n a \n = 1\n");
    assert_eq!(parser.peek_with_newline().kind, TokenKind::Newline);
    assert_eq!(parser.peek().kind, TokenKind::Identifier);
    assert!(!parser.is_at_end());
    let first = parser.advance();
    assert_eq!(first, Token { kind: TokenKind::Identifier, text: "a".to_string(), number: 0 });
    assert!(parser.expect_newline().is_ok());
    assert!(!parser.match_token(TokenKind::Plus));
    assert!(parser.match_token(TokenKind::Assign));
    assert_eq!(parser.match_tokens(&vec![TokenKind::String, TokenKind::Integer]).map(|t| t.number), Some(1));
    assert_eq!(parser.expect(TokenKind::Comma), Err(ParseError::UnexpectedToken));
    assert!(parser.expect_newline_or_eof().is_ok());
    assert!(parser.is_at_end());
    assert_eq!(parser.advance().kind, TokenKind::Eof);
    assert_eq!(parser.advance().kind, TokenKind::Eof);
    parser.skip_newline();
    assert!(parser.is_at_end());
}

#[test]
fn the_parser_reads_rule_by_rule() {
    let mut parser = Parser::new("1 + 2, [3], {k: 4}) rest");
    assert!(parser.binary_level(1).is_ok());
    assert!(parser.match_token(TokenKind::Comma));
    assert_eq!(parser.primary(), Ok(Value::Array(vec![Value::Integer(3)])));
    assert!(parser.match_token(TokenKind::Comma));
    assert_eq!(parser.unary(), Ok(Value::Dict(vec![("k".to_string(), Value::Integer(4))])));
    assert!(parser.match_token(TokenKind::RightParen));
    assert_eq!(parser.statement(), Ok(Statement::Expression(Value::Identifier("rest".to_string()))));
    let mut parser = Parser::new("x = 1\nendif\n");
    assert_eq!(parser.block(BlockEnd::LastBranch), Ok(vec![Statement::Assignment("x".to_string(), Value::Integer(1))]));
    assert_eq!(parser.peek().kind, TokenKind::Endif);
    let mut parser = Parser::new("a, b: c");
    assert_eq!(
        parser.arguments(),
        Ok((vec![Value::Identifier("a".to_string())], vec![("b".to_string(), Value::Identifier("c".to_string()))]))
    );
    assert_eq!(Parser::new("x = 1\n").parse(), Ok(vec![Statement::Assignment("x".to_string(), Value::Integer(1))]));
}

#[test]
fn errors_get_their_context() {
    let missing: Option<i64> = None;
    assert_eq!(Some(3).context_type("needed"), Ok(3));
    assert_eq!(missing.context_type("needed"), Err(InterpreterError::TypeError("needed".to_string())));
    assert_eq!(missing.context_runtime("needed"), Err(InterpreterError::RuntimeError("needed".to_string())));
    assert_eq!(missing.context_undef_variable("x"), Err(InterpreterError::UndefinedVariable("x".to_string())));
    let failed: Result<i64, String> = Err("disk full".to_string());
    let fine: Result<i64, String> = Ok(1);
    assert_eq!(fine.context_runtime("writing"), Ok(1));
    assert_eq!(failed.clone().context_runtime("writing"), Err(InterpreterError::RuntimeError("writing: disk full".to_string())));
    assert_eq!(failed.clone().context_type("writing"), Err(InterpreterError::TypeError("writing: disk full".to_string())));
    assert_eq!(failed.context_undef_variable("x"), Err(InterpreterError::UndefinedVariable("x: disk full".to_string())));
}

#[test]
fn machine_files_line_by_line() {
    let mut parser = MachineFileParser::new("  [s]  \n a = [\n 1,\n 2]\n\nnot a pair\nb = a\n");
    assert_eq!(parser.lines.len(), 8);
    assert_eq!(parser.lines[0], vec!['[', 's', ']']);
    let file = parser.parse().unwrap();
    assert_eq!(parser.sections.len(), 2);
    assert_eq!(parser.sections[0].section, "s");
    assert_eq!(parser.sections[0].key, "a");
    assert_eq!(file.get("s", "b"), Some(&MachineValue::Array(vec![MachineValue::Integer(1), MachineValue::Integer(2)])));
    let mut file = MachineFile::new();
    file.set("x", "k", MachineValue::Boolean(true));
    file.set("x", "k", MachineValue::Boolean(false));
    file.set("y", "k", MachineValue::Integer(1));
    assert_eq!(file.sections.len(), 2);
    assert_eq!(file.get("x", "k"), Some(&MachineValue::Boolean(false)));
    assert_eq!(file.evaluate_value("y", &Value::Identifier("k".to_string())), Ok(MachineValue::Integer(1)));
    assert_eq!(file.evaluate_value("x", &Value::Identifier("z".to_string())), Err(ParseError::UnexpectedToken));
    assert_eq!(MachineValue::from_value(&Value::Array(vec![Value::String("a".to_string())])), Ok(MachineValue::Array(vec![MachineValue::String("a".to_string())])));
    assert_eq!(MachineValue::from_value(&Value::Identifier("a".to_string())), Err(ParseError::UnexpectedToken));
    assert_eq!(MachineValue::Array(vec![MachineValue::Integer(1)]).to_value(), Value::Array(vec![Value::Integer(1)]));
}

#[test]
fn text_helpers() {
    let chars = |s: &str| text::chars_of(s);
    assert_eq!(text::string_of(&chars("h\u{e9}")), "h\u{e9}");
    assert!(text::str_eq("a", "a"));
    assert!(!text::str_eq("a", "b"));
    assert_eq!(text::concat("a", "b"), "ab");
    assert_eq!(text::concat3("a", "b", "c"), "abc");
    assert_eq!(text::find_from(&chars("abcabc"), &chars("bc"), 2), Some(4));
    assert_eq!(text::find_from(&chars("abcabc"), &chars("bc"), 5), None);
    assert_eq!(text::find_from(&chars("abc"), &chars(""), 3), Some(3));
    assert_eq!(text::string_of(&text::replace_chars(&chars("aXbXXc"), &chars("X"), &chars("--"))), "a--b----c");
    assert_eq!(text::string_of(&text::replace_chars(&chars("aaa"), &chars("aa"), &chars("a"))), "aa");
    assert_eq!(text::string_of(&text::replace_chars(&chars("abc"), &chars(""), &chars("-"))), "abc");
    assert_eq!(text::split_chars(&chars("a,b,,"), &chars(",")).len(), 4);
    assert_eq!(text::string_of(&text::join_chars(&vec![chars("a"), chars(""), chars("b")], &chars("+"))), "a++b");
    assert_eq!(text::string_of(&text::trim_chars(&chars("\"\"x\"y\""), true)), "x\"y");
    assert_eq!(text::string_of(&text::trim_chars(&chars(" \t\u{a0}x \n"), false)), "x");
    assert_eq!(text::string_of(&text::trim_chars(&chars("   "), false)), "");
    assert_eq!(text::parse_digits(&chars("ff"), 16, 255), Some(255));
    assert_eq!(text::parse_digits(&chars("100"), 16, 255), None);
    assert_eq!(text::parse_digits(&chars("12a"), 10, 1000), None);
    assert_eq!(text::parse_digits(&chars(""), 10, 1000), None);
    assert_eq!(text::parse_digits(&chars("18446744073709551615"), 10, u64::MAX), Some(u64::MAX));
    assert_eq!(text::parse_digits(&chars("18446744073709551616"), 10, u64::MAX), None);
    assert_eq!(text::string_of(&text::u64_to_chars(0)), "0");
    assert_eq!(text::string_of(&text::u64_to_chars(u64::MAX)), "18446744073709551615");
    assert_eq!(text::string_of(&text::i64_to_chars(-105)), "-105");
    assert!(text::str_less("Z", "a"));
    assert!(text::str_less("", "a"));
    assert!(!text::str_less("a", ""));
    assert!(!text::str_less("a", "a"));
    assert!(text::str_less("z", "\u{e9}"));
}

#[test]
fn the_characters_of_a_word() {
    for c in ['a', 'z', 'A', 'Z', '0', '9', '_', '\u{e9}', '\u{4e2d}'] {
        assert!(in_class(CharClass::Word, c), "{c:?}");
    }
    for c in [' ', '\n', '\t', '-', '.', '(', '@', '[', '`', '{', '\u{7f}', '\u{0}'] {
        assert!(!in_class(CharClass::Word, c), "{c:?}");
    }
    let kinds: Vec<TokenKind> = Lexer::new("ab cd\nef").tokenize().iter().map(|t| t.kind).collect();
    assert_eq!(
        kinds,
        vec![TokenKind::Identifier, TokenKind::Identifier, TokenKind::Newline, TokenKind::Identifier, TokenKind::Eof]
    );
}
