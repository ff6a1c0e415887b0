//! The lexer: from the text of a build description to its tokens.

use vstd::prelude::*;
use crate::text::{
    chars_of, string_of, str_eq, slice_chars, parse_digits, parsed_number, is_dec_digit,
    is_hex_digit, is_oct_digit, is_ascii_letter, is_ascii_alnum, unicode_alphanumeric,
    is_alphanumeric,
    dec_digit, hex_digit, oct_digit,
};

verus! {

/// What a token is, apart from the text or number it carries.
#[derive(Clone, Copy, Debug, PartialEq, Eq, Structural)]
pub enum TokenKind {
    String,
    FormatString,
    Integer,
    True,
    False,
    Identifier,
    If,
    Elif,
    Else,
    Endif,
    Foreach,
    Endforeach,
    Break,
    Continue,
    And,
    Or,
    Not,
    In,
    Plus,
    Minus,
    Star,
    Slash,
    Percent,
    Eq,
    Ne,
    Lt,
    Le,
    Gt,
    Ge,
    Assign,
    AddAssign,
    Question,
    Colon,
    LeftParen,
    RightParen,
    LeftBracket,
    RightBracket,
    LeftBrace,
    RightBrace,
    Comma,
    Dot,
    Newline,
    Eof,
}

/// A token. `text` is the content of a string or format string literal, or
/// the name of an identifier, and empty for every other kind; `number` is
/// the value of an integer literal, and zero for every other kind.
#[derive(Clone, Debug, PartialEq, Eq)]
pub struct Token {
    pub kind: TokenKind,
    pub text: String,
    pub number: i64,
}

/// A token as a mathematical value.
pub struct TokenView {
    pub kind: TokenKind,
    pub text: Seq<char>,
    pub number: i64,
}

impl View for Token {
    type V = TokenView;

    open spec fn view(&self) -> TokenView {
        TokenView { kind: self.kind, text: self.text@, number: self.number }
    }
}

/// The views of a row of tokens.
pub open spec fn token_views(tokens: Seq<Token>) -> Seq<TokenView> {
    Seq::new(tokens.len(), |i: int| tokens[i]@)
}

/// The token of the kind `kind` that carries nothing.
pub open spec fn plain(kind: TokenKind) -> TokenView {
    TokenView { kind, text: Seq::empty(), number: 0 }
}

/// The token of the kind `kind` that carries `text`.
pub open spec fn worded(kind: TokenKind, text: Seq<char>) -> TokenView {
    TokenView { kind, text, number: 0 }
}

/// The integer literal of the value `number`.
pub open spec fn numeral(number: i64) -> TokenView {
    TokenView { kind: TokenKind::Integer, text: Seq::empty(), number }
}

impl Token {
    /// The token of the kind `kind` that carries nothing.
    pub fn plain(kind: TokenKind) -> (r: Token)
        ensures
            r@ == plain(kind),
    {
        Token { kind, text: String::new(), number: 0 }
    }

    /// The token of the kind `kind` that carries `text`.
    pub fn worded(kind: TokenKind, text: String) -> (r: Token)
        ensures
            r@ == worded(kind, text@),
    {
        Token { kind, text, number: 0 }
    }

    /// The integer literal of the value `number`.
    pub fn numeral(number: i64) -> (r: Token)
        ensures
            r@ == numeral(number),
    {
        Token { kind: TokenKind::Integer, text: String::new(), number }
    }

    /// A copy of the token.
    pub fn cloned(&self) -> (r: Token)
        ensures
            r@ == self@,
    {
        Token { kind: self.kind, text: self.text.clone(), number: self.number }
    }
}

/// The sets of characters that the lexer reads in runs.
#[derive(Clone, Copy, Debug, PartialEq, Eq, Structural)]
pub enum CharClass {
    /// Space, tab and carriage return.
    Blank,
    /// Space and tab.
    SpaceTab,
    /// The line feed.
    LineFeed,
    /// Everything but the line feed.
    NotLineFeed,
    /// Letters and numbers of Unicode, and the underscore.
    Word,
    /// Hexadecimal digits.
    Hex,
    /// Octal digits.
    Oct,
    /// Decimal digits and the underscore.
    DecSep,
    /// Hexadecimal digits and the underscore.
    HexSep,
    /// Octal digits and the underscore.
    OctSep,
    /// `0`, `1` and the underscore.
    BinSep,
}

/// Whether `c` belongs to `class`.
pub open spec fn class_has(class: CharClass, c: char) -> bool {
    match class {
        CharClass::Blank => c == ' ' || c == '\t' || c == '\r',
        CharClass::SpaceTab => c == ' ' || c == '\t',
        CharClass::LineFeed => c == '\n',
        CharClass::NotLineFeed => c != '\n',
        CharClass::Word => unicode_alphanumeric(c) || c == '_',
        CharClass::Hex => is_hex_digit(c),
        CharClass::Oct => is_oct_digit(c),
        CharClass::DecSep => is_dec_digit(c) || c == '_',
        CharClass::HexSep => is_hex_digit(c) || c == '_',
        CharClass::OctSep => is_oct_digit(c) || c == '_',
        CharClass::BinSep => c == '0' || c == '1' || c == '_',
    }
}

/// Tests whether `c` belongs to `class`. Of the characters of ASCII the
/// letters, the digits and `_` are those of a word.
pub fn in_class(class: CharClass, c: char) -> (r: bool)
    ensures
        r == class_has(class, c),
        class == CharClass::Word && c <= '\x7f' ==> r == (is_ascii_alnum(c) || c == '_'),
{
    match class {
        CharClass::Blank => c == ' ' || c == '\t' || c == '\r',
        CharClass::SpaceTab => c == ' ' || c == '\t',
        CharClass::LineFeed => c == '\n',
        CharClass::NotLineFeed => c != '\n',
        CharClass::Word => is_alphanumeric(c) || c == '_',
        CharClass::Hex => hex_digit(c),
        CharClass::Oct => oct_digit(c),
        CharClass::DecSep => dec_digit(c) || c == '_',
        CharClass::HexSep => hex_digit(c) || c == '_',
        CharClass::OctSep => oct_digit(c) || c == '_',
        CharClass::BinSep => c == '0' || c == '1' || c == '_',
    }
}

/// Where the run of characters of `class` that begins at `pos` ends, if it
/// may be at most `max` characters long.
pub open spec fn run_end(s: Seq<char>, class: CharClass, pos: int, max: int) -> int
    decreases max,
{
    if max > 0 && 0 <= pos < s.len() && class_has(class, s[pos]) {
        run_end(s, class, pos + 1, max - 1)
    } else {
        pos
    }
}

/// A run ends at or behind its start, within the text, and no more than
/// `max` characters on.
pub proof fn lemma_run_end(s: Seq<char>, class: CharClass, pos: int, max: int)
    requires
        0 <= pos <= s.len(),
    ensures
        pos <= run_end(s, class, pos, max) <= s.len(),
        max >= 0 ==> run_end(s, class, pos, max) <= pos + max,
    decreases max,
{
    if max > 0 && 0 <= pos < s.len() && class_has(class, s[pos]) {
        lemma_run_end(s, class, pos + 1, max - 1);
    }
}

/// `s` without its underscores.
pub open spec fn without_underscores(s: Seq<char>) -> Seq<char>
    decreases s.len(),
{
    if s.len() == 0 {
        s
    } else if s.last() == '_' {
        without_underscores(s.drop_last())
    } else {
        without_underscores(s.drop_last()).push(s.last())
    }
}

/// Copies `v` without its underscores.
pub fn strip_underscores(v: &Vec<char>) -> (r: Vec<char>)
    ensures
        r@ == without_underscores(v@),
{
    let mut out: Vec<char> = Vec::new();
    let mut i: usize = 0;
    assert(v@.take(0) =~= Seq::<char>::empty());
    while i < v.len()
        invariant
            i <= v.len(),
            out@ == without_underscores(v@.take(i as int)),
        decreases v.len() - i,
    {
        assert(v@.take(i as int + 1).drop_last() =~= v@.take(i as int));
        if v[i] != '_' {
            out.push(v[i]);
        }
        i += 1;
    }
    assert(v@.take(v.len() as int) =~= v@);
    out
}

/// The lexer: the text and how far it has been read.
pub struct Lexer {
    pub chars: Vec<char>,
    pub pos: usize,
}

impl Lexer {
    /// The position lies within the text.
    pub open spec fn wf(&self) -> bool {
        self.pos <= self.chars.len()
    }

    /// A lexer at the start of `input`.
    pub fn new(input: &str) -> (r: Lexer)
        ensures
            r.chars@ == input@,
            r.pos == 0,
            r.wf(),
    {
        Lexer { chars: chars_of(input), pos: 0 }
    }

    /// The next character, which stays unread.
    pub fn peek_char(&self) -> (r: Option<char>)
        requires
            self.wf(),
        ensures
            r == if self.pos < self.chars.len() {
                Some(self.chars@[self.pos as int])
            } else {
                None
            },
    {
        if self.pos < self.chars.len() {
            Some(self.chars[self.pos])
        } else {
            None
        }
    }

    /// The character `n` places behind the next one, which stays unread.
    pub fn peek_ahead(&self, n: usize) -> (r: Option<char>)
        requires
            self.wf(),
        ensures
            r == if self.pos + n < self.chars.len() {
                Some(self.chars@[self.pos + n])
            } else {
                None
            },
    {
        if n < self.chars.len() - self.pos {
            Some(self.chars[self.pos + n])
        } else {
            None
        }
    }

    /// Reads the next character.
    pub fn next_char(&mut self) -> (r: Option<char>)
        requires
            old(self).wf(),
        ensures
            final(self).wf(),
            final(self).chars == old(self).chars,
            old(self).pos < old(self).chars.len() ==> r == Some(
                old(self).chars@[old(self).pos as int],
            ) && final(self).pos == old(self).pos + 1,
            old(self).pos >= old(self).chars.len() ==> r is None && final(self).pos == old(self).pos,
    {
        if self.pos < self.chars.len() {
            let c = self.chars[self.pos];
            self.pos += 1;
            Some(c)
        } else {
            None
        }
    }

    /// Reads the run of at most `max` characters of `class` that begins at
    /// the position, and returns it.
    pub fn take_run(&mut self, class: CharClass, max: usize) -> (r: Vec<char>)
        requires
            old(self).wf(),
        ensures
            final(self).wf(),
            final(self).chars == old(self).chars,
            final(self).pos == run_end(old(self).chars@, class, old(self).pos as int, max as int),
            old(self).pos <= final(self).pos,
            r@ == old(self).chars@.subrange(old(self).pos as int, final(self).pos as int),
    {
        let start = self.pos;
        let mut left = max;
        while left > 0 && self.pos < self.chars.len() && in_class(class, self.chars[self.pos])
            invariant
                self.wf(),
                self.chars == old(self).chars,
                start == old(self).pos,
                start <= self.pos,
                run_end(self.chars@, class, start as int, max as int) == run_end(
                    self.chars@,
                    class,
                    self.pos as int,
                    left as int,
                ),
            decreases left,
        {
            self.pos += 1;
            left -= 1;
        }
        slice_chars(&self.chars, start, self.pos)
    }

    /// Skips spaces, tabs and carriage returns.
    pub fn skip_whitespace(&mut self)
        requires
            old(self).wf(),
        ensures
            final(self).wf(),
            final(self).chars == old(self).chars,
            final(self).pos == run_end(
                old(self).chars@,
                CharClass::Blank,
                old(self).pos as int,
                old(self).chars.len() as int,
            ),
    {
        let n = self.chars.len();
        let _ = self.take_run(CharClass::Blank, n);
    }

    /// Skips a comment, where one begins at the position: the `#`, the rest
    /// of the line, and the line feed that ends it.
    pub fn skip_comment(&mut self)
        requires
            old(self).wf(),
        ensures
            final(self).wf(),
            final(self).chars == old(self).chars,
            final(self).pos == comment_end(old(self).chars@, old(self).pos as int),
    {
        if self.peek_char() == Some('#') {
            self.next_char();
            let n = self.chars.len();
            let _ = self.take_run(CharClass::NotLineFeed, n);
            self.next_char();
        }
    }

    /// Reads the identifier or keyword that begins at the position.
    pub fn read_identifier(&mut self) -> (r: String)
        requires
            old(self).wf(),
        ensures
            final(self).wf(),
            final(self).chars == old(self).chars,
            final(self).pos == word_end(old(self).chars@, old(self).pos as int),
            old(self).pos <= final(self).pos,
            r@ == old(self).chars@.subrange(old(self).pos as int, final(self).pos as int),
    {
        let n = self.chars.len();
        let run = self.take_run(CharClass::Word, n);
        string_of(&run)
    }
}

/// Where the comment that begins at `pos` ends: behind the line feed that
/// closes it, or at the end of the text. Where no `#` stands at `pos`, at
/// `pos`.
pub open spec fn comment_end(s: Seq<char>, pos: int) -> int {
    if 0 <= pos < s.len() && s[pos] == '#' {
        let stop = run_end(s, CharClass::NotLineFeed, pos + 1, s.len() as int);
        if stop < s.len() {
            stop + 1
        } else {
            stop
        }
    } else {
        pos
    }
}

/// Where the word that begins at `pos` ends.
pub open spec fn word_end(s: Seq<char>, pos: int) -> int {
    run_end(s, CharClass::Word, pos, s.len() as int)
}

/// The value of a number literal whose digits, in base `radix`, are
/// `digits`: the number they write, or zero where they are none or write
/// more than an `i64` holds.
pub open spec fn number_value(digits: Seq<char>, radix: int) -> i64 {
    match parsed_number(digits, radix, i64::MAX as int) {
        Some(n) => n as i64,
        None => 0,
    }
}

/// The character at index `i` of `s`, if there is one.
pub open spec fn char_at(s: Seq<char>, i: int) -> Option<char> {
    if 0 <= i < s.len() {
        Some(s[i])
    } else {
        None
    }
}

/// The base that the letter behind a leading zero announces.
pub open spec fn prefix_radix(c: Option<char>) -> Option<CharClass> {
    if c == Some('x') || c == Some('X') {
        Some(CharClass::HexSep)
    } else if c == Some('o') || c == Some('O') {
        Some(CharClass::OctSep)
    } else if c == Some('b') || c == Some('B') {
        Some(CharClass::BinSep)
    } else {
        None
    }
}

/// The base in which the digits of `class` count.
pub open spec fn class_radix(class: CharClass) -> int {
    match class {
        CharClass::HexSep => 16,
        CharClass::OctSep => 8,
        CharClass::BinSep => 2,
        _ => 10,
    }
}

/// The number literal that begins at `pos`: its value and where it ends.
/// `0x`, `0o` and `0b` (in either case) announce a base; underscores
/// between the digits do not count.
pub open spec fn number_at(s: Seq<char>, pos: int) -> (i64, int) {
    if char_at(s, pos) == Some('0') && prefix_radix(char_at(s, pos + 1)) is Some {
        let class = prefix_radix(char_at(s, pos + 1))->0;
        let end = run_end(s, class, pos + 2, s.len() as int);
        (number_value(without_underscores(s.subrange(pos + 2, end)), class_radix(class)), end)
    } else {
        let end = run_end(s, CharClass::DecSep, pos, s.len() as int);
        (number_value(without_underscores(s.subrange(pos, end)), 10), end)
    }
}

/// The character with the code `code`, where there is one.
pub open spec fn code_char(code: int) -> Option<char> {
    if 0 <= code <= 0xD7FF || 0xE000 <= code <= 0x10FFFF {
        Some(code as char)
    } else {
        None
    }
}

/// `char::from_u32` of std: the character with the given code, or `None`
/// where the code is a surrogate or lies above `0x10FFFF`.
#[verifier::external_body]
fn char_from_u32(code: u32) -> (r: Option<char>)
    ensures
        r == code_char(code as int),
{
    char::from_u32(code)
}

/// The escape by number whose letter stands at `p`: up to `max` hexadecimal
/// digits follow. It gives the character of that code, or the letter
/// itself where no digit follows or no character has the code. The digits
/// are read either way.
pub open spec fn hex_escape(s: Seq<char>, p: int, max: int) -> (char, int) {
    let end = run_end(s, CharClass::Hex, p + 1, max);
    match parsed_number(s.subrange(p + 1, end), 16, 0xFFFF_FFFF) {
        Some(n) => match code_char(n) {
            Some(c) => (c, end),
            None => (s[p], end),
        },
        None => (s[p], end),
    }
}

/// The escape by octal number whose first digit stands at `p`: up to two
/// octal digits follow. It gives the character of that code, or the first
/// digit itself where the digits write no number up to 255.
pub open spec fn octal_escape(s: Seq<char>, p: int) -> (char, int) {
    let end = run_end(s, CharClass::Oct, p + 1, 2);
    match parsed_number(s.subrange(p, end), 8, 255) {
        Some(n) => match code_char(n) {
            Some(c) => (c, end),
            None => (s[p], end),
        },
        None => (s[p], end),
    }
}

/// The escape whose letter, the character behind the backslash, stands at
/// `p`: the character it stands for and where the escape ends.
pub open spec fn escape_at(s: Seq<char>, p: int) -> (char, int) {
    let ch = s[p];
    if ch == 'n' {
        ('\n', p + 1)
    } else if ch == 'r' {
        ('\r', p + 1)
    } else if ch == 't' {
        ('\t', p + 1)
    } else if ch == '\\' {
        ('\\', p + 1)
    } else if ch == '\'' {
        ('\'', p + 1)
    } else if ch == '"' {
        ('"', p + 1)
    } else if ch == '0' {
        ('\0', p + 1)
    } else if ch == 'a' {
        ('\x07', p + 1)
    } else if ch == 'b' {
        ('\x08', p + 1)
    } else if ch == 'f' {
        ('\x0C', p + 1)
    } else if ch == 'v' {
        ('\x0B', p + 1)
    } else if ch == 'x' {
        hex_escape(s, p, 2)
    } else if ch == 'u' {
        hex_escape(s, p, 4)
    } else if ch == 'U' {
        hex_escape(s, p, 8)
    } else if is_dec_digit(ch) {
        octal_escape(s, p)
    } else {
        (ch, p + 1)
    }
}

/// The string literal whose content begins at `pos`, behind the opening
/// quote: the text it stands for and where the literal ends. The text
/// ends at the first `quote` that no backslash escapes, or with the input.
pub open spec fn string_body(s: Seq<char>, pos: int, quote: char) -> (Seq<char>, int)
    decreases s.len() - pos,
{
    if pos < 0 || pos >= s.len() {
        (Seq::empty(), pos)
    } else if s[pos] == '\\' {
        if pos + 1 >= s.len() {
            (Seq::empty(), pos + 1)
        } else {
            let e = escape_at(s, pos + 1);
            if pos + 1 < e.1 <= s.len() {
                let rest = string_body(s, e.1, quote);
                (seq![e.0] + rest.0, rest.1)
            } else {
                (Seq::empty(), pos)
            }
        }
    } else if s[pos] == quote {
        (Seq::empty(), pos + 1)
    } else {
        let rest = string_body(s, pos + 1, quote);
        (seq![s[pos]] + rest.0, rest.1)
    }
}

/// `n` times the character `quote`.
pub open spec fn repeated(quote: char, n: int) -> Seq<char> {
    Seq::new(n as nat, |i: int| quote)
}

/// The multi-line string literal whose content begins at `pos`, behind the
/// three opening quotes, when `pending` quotes in a row have just been
/// read: the text it stands for and where the literal ends. Three quotes
/// in a row end it; a backslash before a line feed takes the line feed
/// away, with the spaces and tabs that begin the next line.
pub open spec fn multiline_body(s: Seq<char>, pos: int, quote: char, pending: int) -> (
    Seq<char>,
    int,
)
    decreases s.len() - pos,
{
    if pos < 0 || pos >= s.len() {
        (repeated(quote, if pending < 2 { pending } else { 2 }), pos)
    } else if s[pos] == quote {
        if pending >= 2 {
            (Seq::empty(), pos + 1)
        } else {
            multiline_body(s, pos + 1, quote, pending + 1)
        }
    } else if s[pos] == '\\' && char_at(s, pos + 1) == Some('\n') {
        let next = run_end(s, CharClass::SpaceTab, pos + 2, s.len() as int);
        if pos + 2 <= next <= s.len() {
            let rest = multiline_body(s, next, quote, 0);
            (repeated(quote, pending) + rest.0, rest.1)
        } else {
            (Seq::empty(), pos)
        }
    } else {
        let rest = multiline_body(s, pos + 1, quote, 0);
        (repeated(quote, pending) + seq![s[pos]] + rest.0, rest.1)
    }
}

/// The first index from `pos` on at which `c` stands, or the length of `s`.
pub open spec fn index_of_from(s: Seq<char>, c: char, pos: int) -> int
    decreases s.len() - pos,
{
    if 0 <= pos < s.len() && s[pos] != c {
        index_of_from(s, c, pos + 1)
    } else {
        pos
    }
}

/// The raw string literal whose content begins at `pos`, behind the
/// opening quote: the text up to the next `quote`, and where the literal
/// ends.
pub open spec fn raw_body(s: Seq<char>, pos: int, quote: char) -> (Seq<char>, int) {
    let stop = index_of_from(s, quote, pos);
    (s.subrange(pos, stop), if stop < s.len() { stop + 1 } else { stop })
}

impl Lexer {
    /// Reads the number literal that begins at the position.
    pub fn read_number(&mut self) -> (r: i64)
        requires
            old(self).wf(),
        ensures
            final(self).wf(),
            final(self).chars == old(self).chars,
            old(self).pos <= final(self).pos,
            (r, final(self).pos as int) == number_at(old(self).chars@, old(self).pos as int),
    {
        let n = self.chars.len();
        let mut radix: u32 = 10;
        let mut class = CharClass::DecSep;
        if self.peek_char() == Some('0') {
            let c = self.peek_ahead(1);
            if c == Some('x') || c == Some('X') {
                radix = 16;
                class = CharClass::HexSep;
            } else if c == Some('o') || c == Some('O') {
                radix = 8;
                class = CharClass::OctSep;
            } else if c == Some('b') || c == Some('B') {
                radix = 2;
                class = CharClass::BinSep;
            }
            if radix != 10 {
                self.pos += 2;
            }
        }
        let run = self.take_run(class, n);
        let digits = strip_underscores(&run);
        match parse_digits(&digits, radix, 0x7fff_ffff_ffff_ffff) {
            Some(v) => v as i64,
            None => 0,
        }
    }

    /// Reads the escape whose letter stands at the position.
    fn read_escape(&mut self) -> (r: char)
        requires
            old(self).wf(),
            old(self).pos < old(self).chars.len(),
        ensures
            final(self).wf(),
            final(self).chars == old(self).chars,
            old(self).pos < final(self).pos,
            (r, final(self).pos as int) == escape_at(old(self).chars@, old(self).pos as int),
    {
        let start = self.pos;
        let ch = self.chars[self.pos];
        self.pos += 1;
        if ch == 'n' {
            '\n'
        } else if ch == 'r' {
            '\r'
        } else if ch == 't' {
            '\t'
        } else if ch == '\\' {
            '\\'
        } else if ch == '\'' {
            '\''
        } else if ch == '"' {
            '"'
        } else if ch == '0' {
            '\0'
        } else if ch == 'a' {
            '\x07'
        } else if ch == 'b' {
            '\x08'
        } else if ch == 'f' {
            '\x0C'
        } else if ch == 'v' {
            '\x0B'
        } else if ch == 'x' || ch == 'u' || ch == 'U' {
            let max: usize = if ch == 'x' {
                2
            } else if ch == 'u' {
                4
            } else {
                8
            };
            let run = self.take_run(CharClass::Hex, max);
            match parse_digits(&run, 16, 0xFFFF_FFFF) {
                Some(n) => match char_from_u32(n as u32) {
                    Some(c) => c,
                    None => ch,
                },
                None => ch,
            }
        } else if dec_digit(ch) {
            let _ = self.take_run(CharClass::Oct, 2);
            let digits = slice_chars(&self.chars, start, self.pos);
            match parse_digits(&digits, 8, 255) {
                Some(n) => match char_from_u32(n as u32) {
                    Some(c) => c,
                    None => ch,
                },
                None => ch,
            }
        } else {
            ch
        }
    }

    /// Reads the string literal whose content begins at the position, up to
    /// and with the closing `quote`.
    pub fn read_string(&mut self, quote: char) -> (r: String)
        requires
            old(self).wf(),
        ensures
            final(self).wf(),
            final(self).chars == old(self).chars,
            old(self).pos <= final(self).pos,
            (r@, final(self).pos as int) == string_body(
                old(self).chars@,
                old(self).pos as int,
                quote,
            ),
    {
        let mut out: Vec<char> = Vec::new();
        let ghost s = self.chars@;
        let ghost start = self.pos as int;
        loop
            invariant
                self.wf(),
                self.chars == old(self).chars,
                s == self.chars@,
                start == old(self).pos,
                start <= self.pos,
                string_body(s, start, quote) == (
                    out@ + string_body(s, self.pos as int, quote).0,
                    string_body(s, self.pos as int, quote).1,
                ),
            decreases self.chars.len() - self.pos,
        {
            let ghost here = self.pos as int;
            let ghost before = out@;
            match self.next_char() {
                None => {
                    assert(before + Seq::<char>::empty() =~= before);
                    return string_of(&out);
                },
                Some(ch) => {
                    if ch == '\\' {
                        if self.pos >= self.chars.len() {
                            assert(before + Seq::<char>::empty() =~= before);
                            return string_of(&out);
                        }
                        let c = self.read_escape();
                        out.push(c);
                        assert(before + (seq![c] + string_body(s, self.pos as int, quote).0)
                            =~= out@ + string_body(s, self.pos as int, quote).0);
                    } else if ch == quote {
                        assert(before + Seq::<char>::empty() =~= before);
                        return string_of(&out);
                    } else {
                        out.push(ch);
                        assert(before + (seq![ch] + string_body(s, self.pos as int, quote).0)
                            =~= out@ + string_body(s, self.pos as int, quote).0);
                    }
                },
            }
        }
    }

    /// Reads the format string literal whose opening quote stands at the
    /// position.
    pub fn read_format_string(&mut self) -> (r: String)
        requires
            old(self).wf(),
            old(self).pos < old(self).chars.len(),
        ensures
            final(self).wf(),
            final(self).chars == old(self).chars,
            old(self).pos < final(self).pos,
            (r@, final(self).pos as int) == string_body(
                old(self).chars@,
                old(self).pos + 1,
                old(self).chars@[old(self).pos as int],
            ),
    {
        let quote = self.chars[self.pos];
        self.pos += 1;
        self.read_string(quote)
    }

    /// Reads the multi-line string literal whose content begins at the
    /// position, up to and with the three closing quotes.
    pub fn read_multiline_string(&mut self, quote: char) -> (r: String)
        requires
            old(self).wf(),
        ensures
            final(self).wf(),
            final(self).chars == old(self).chars,
            old(self).pos <= final(self).pos,
            (r@, final(self).pos as int) == multiline_body(
                old(self).chars@,
                old(self).pos as int,
                quote,
                0,
            ),
    {
        let mut out: Vec<char> = Vec::new();
        let mut pending: usize = 0;
        let ghost s = self.chars@;
        let ghost start = self.pos as int;
        loop
            invariant
                self.wf(),
                self.chars == old(self).chars,
                s == self.chars@,
                start == old(self).pos,
                start <= self.pos,
                pending <= 2,
                multiline_body(s, start, quote, 0) == (
                    out@ + multiline_body(s, self.pos as int, quote, pending as int).0,
                    multiline_body(s, self.pos as int, quote, pending as int).1,
                ),
            decreases self.chars.len() - self.pos,
        {
            let ghost before = out@;
            let ghost held = pending as int;
            match self.next_char() {
                None => {
                    let mut k: usize = 0;
                    while k < pending
                        invariant
                            k <= pending,
                            out@ == before + repeated(quote, k as int),
                        decreases pending - k,
                    {
                        out.push(quote);
                        assert(out@ =~= before + repeated(quote, k as int + 1));
                        k += 1;
                    }
                    return string_of(&out);
                },
                Some(ch) => {
                    if ch == quote {
                        if pending == 2 {
                            assert(before + Seq::<char>::empty() =~= before);
                            return string_of(&out);
                        }
                        pending += 1;
                    } else {
                        let mut k: usize = 0;
                        while k < pending
                            invariant
                                k <= pending,
                                out@ == before + repeated(quote, k as int),
                            decreases pending - k,
                        {
                            out.push(quote);
                            assert(out@ =~= before + repeated(quote, k as int + 1));
                            k += 1;
                        }
                        pending = 0;
                        if ch == '\\' && self.peek_char() == Some('\n') {
                            self.next_char();
                            let n = self.chars.len();
                            let _ = self.take_run(CharClass::SpaceTab, n);
                            assert(before + (repeated(quote, held) + multiline_body(
                                s,
                                self.pos as int,
                                quote,
                                0,
                            ).0) =~= out@ + multiline_body(s, self.pos as int, quote, 0).0);
                        } else {
                            out.push(ch);
                            assert(before + (repeated(quote, held) + seq![ch] + multiline_body(
                                s,
                                self.pos as int,
                                quote,
                                0,
                            ).0) =~= out@ + multiline_body(s, self.pos as int, quote, 0).0);
                        }
                    }
                },
            }
        }
    }

    /// Reads the raw string literal whose content begins at the position,
    /// up to and with the closing `quote`.
    pub fn read_raw_string(&mut self, quote: char) -> (r: String)
        requires
            old(self).wf(),
        ensures
            final(self).wf(),
            final(self).chars == old(self).chars,
            old(self).pos <= final(self).pos,
            (r@, final(self).pos as int) == raw_body(old(self).chars@, old(self).pos as int, quote),
    {
        let start = self.pos;
        while self.pos < self.chars.len() && self.chars[self.pos] != quote
            invariant
                self.wf(),
                self.chars == old(self).chars,
                start == old(self).pos,
                start <= self.pos,
                index_of_from(self.chars@, quote, start as int) == index_of_from(
                    self.chars@,
                    quote,
                    self.pos as int,
                ),
            decreases self.chars.len() - self.pos,
        {
            self.pos += 1;
        }
        let body = slice_chars(&self.chars, start, self.pos);
        self.next_char();
        string_of(&body)
    }
}

/// The token that the word `w` is: a keyword, or an identifier.
pub open spec fn word_token(w: Seq<char>) -> TokenView {
    if w == "true"@ {
        plain(TokenKind::True)
    } else if w == "false"@ {
        plain(TokenKind::False)
    } else if w == "if"@ {
        plain(TokenKind::If)
    } else if w == "elif"@ {
        plain(TokenKind::Elif)
    } else if w == "else"@ {
        plain(TokenKind::Else)
    } else if w == "endif"@ {
        plain(TokenKind::Endif)
    } else if w == "foreach"@ {
        plain(TokenKind::Foreach)
    } else if w == "endforeach"@ {
        plain(TokenKind::Endforeach)
    } else if w == "break"@ {
        plain(TokenKind::Break)
    } else if w == "continue"@ {
        plain(TokenKind::Continue)
    } else if w == "and"@ {
        plain(TokenKind::And)
    } else if w == "or"@ {
        plain(TokenKind::Or)
    } else if w == "not"@ {
        plain(TokenKind::Not)
    } else if w == "in"@ {
        plain(TokenKind::In)
    } else {
        worded(TokenKind::Identifier, w)
    }
}

/// Makes the token that the word `w` is.
pub fn make_word_token(w: String) -> (r: Token)
    ensures
        r@ == word_token(w@),
{
    let t = w.as_str();
    if str_eq(t, "true") {
        Token::plain(TokenKind::True)
    } else if str_eq(t, "false") {
        Token::plain(TokenKind::False)
    } else if str_eq(t, "if") {
        Token::plain(TokenKind::If)
    } else if str_eq(t, "elif") {
        Token::plain(TokenKind::Elif)
    } else if str_eq(t, "else") {
        Token::plain(TokenKind::Else)
    } else if str_eq(t, "endif") {
        Token::plain(TokenKind::Endif)
    } else if str_eq(t, "foreach") {
        Token::plain(TokenKind::Foreach)
    } else if str_eq(t, "endforeach") {
        Token::plain(TokenKind::Endforeach)
    } else if str_eq(t, "break") {
        Token::plain(TokenKind::Break)
    } else if str_eq(t, "continue") {
        Token::plain(TokenKind::Continue)
    } else if str_eq(t, "and") {
        Token::plain(TokenKind::And)
    } else if str_eq(t, "or") {
        Token::plain(TokenKind::Or)
    } else if str_eq(t, "not") {
        Token::plain(TokenKind::Not)
    } else if str_eq(t, "in") {
        Token::plain(TokenKind::In)
    } else {
        Token::worded(TokenKind::Identifier, w)
    }
}

/// Whether `c` is a quote of either kind.
pub open spec fn is_quote(c: Option<char>) -> bool {
    c == Some('\'') || c == Some('"')
}

/// The token of one character that `c` writes, for those that have one.
pub open spec fn single_token(c: char) -> Option<TokenKind> {
    if c == '-' {
        Some(TokenKind::Minus)
    } else if c == '*' {
        Some(TokenKind::Star)
    } else if c == '/' {
        Some(TokenKind::Slash)
    } else if c == '%' {
        Some(TokenKind::Percent)
    } else if c == '?' {
        Some(TokenKind::Question)
    } else if c == ':' {
        Some(TokenKind::Colon)
    } else if c == '(' {
        Some(TokenKind::LeftParen)
    } else if c == ')' {
        Some(TokenKind::RightParen)
    } else if c == '[' {
        Some(TokenKind::LeftBracket)
    } else if c == ']' {
        Some(TokenKind::RightBracket)
    } else if c == '{' {
        Some(TokenKind::LeftBrace)
    } else if c == '}' {
        Some(TokenKind::RightBrace)
    } else if c == ',' {
        Some(TokenKind::Comma)
    } else if c == '.' {
        Some(TokenKind::Dot)
    } else {
        None
    }
}

/// The operator that `c` begins: what it is when `=` follows, and what it
/// is alone, for the four characters that can take a `=`.
pub open spec fn paired_token(c: char) -> Option<(TokenKind, Option<TokenKind>)> {
    if c == '+' {
        Some((TokenKind::AddAssign, Some(TokenKind::Plus)))
    } else if c == '=' {
        Some((TokenKind::Eq, Some(TokenKind::Assign)))
    } else if c == '!' {
        Some((TokenKind::Ne, None))
    } else if c == '<' {
        Some((TokenKind::Le, Some(TokenKind::Lt)))
    } else if c == '>' {
        Some((TokenKind::Ge, Some(TokenKind::Gt)))
    } else {
        None
    }
}

/// What begins at `p`, where a character that is not blank stands: the
/// token, if the characters make one, and where it ends. A line feed and
/// those that follow it make one `Newline`; so does a comment. An `!`
/// without `=` and any character that begins nothing are passed over.
pub open spec fn scan_token(s: Seq<char>, p: int) -> (Option<TokenView>, int) {
    let c = s[p];
    let len = s.len() as int;
    if c == '\n' {
        (Some(plain(TokenKind::Newline)), run_end(s, CharClass::LineFeed, p + 1, len))
    } else if c == '#' {
        (Some(plain(TokenKind::Newline)), comment_end(s, p))
    } else if c == '\'' || c == '"' {
        if char_at(s, p + 1) == Some(c) && char_at(s, p + 2) == Some(c) {
            let b = multiline_body(s, p + 3, c, 0);
            (Some(worded(TokenKind::String, b.0)), b.1)
        } else {
            let b = string_body(s, p + 1, c);
            (Some(worded(TokenKind::String, b.0)), b.1)
        }
    } else if c == 'f' && is_quote(char_at(s, p + 1)) {
        let b = string_body(s, p + 2, s[p + 1]);
        (Some(worded(TokenKind::FormatString, b.0)), b.1)
    } else if c == 'r' && is_quote(char_at(s, p + 1)) {
        let b = raw_body(s, p + 2, s[p + 1]);
        (Some(worded(TokenKind::String, b.0)), b.1)
    } else if is_dec_digit(c) {
        let n = number_at(s, p);
        (Some(numeral(n.0)), n.1)
    } else if is_ascii_letter(c) || c == '_' {
        let end = word_end(s, p + 1);
        (Some(word_token(s.subrange(p, end))), end)
    } else if paired_token(c) is Some {
        let pair = paired_token(c)->0;
        if char_at(s, p + 1) == Some('=') {
            (Some(plain(pair.0)), p + 2)
        } else {
            (
                match pair.1 {
                    Some(kind) => Some(plain(kind)),
                    None => None,
                },
                p + 1,
            )
        }
    } else {
        (
            match single_token(c) {
                Some(kind) => Some(plain(kind)),
                None => None,
            },
            p + 1,
        )
    }
}

/// The tokens of `s` from `pos` on. The last of them is `Eof`.
pub open spec fn lex(s: Seq<char>, pos: int) -> Seq<TokenView>
    decreases s.len() - pos,
{
    let p = run_end(s, CharClass::Blank, pos, s.len() as int);
    if p < pos || p < 0 || p >= s.len() {
        seq![plain(TokenKind::Eof)]
    } else {
        let step = scan_token(s, p);
        if p < step.1 <= s.len() {
            (match step.0 {
                Some(t) => seq![t],
                None => Seq::empty(),
            }) + lex(s, step.1)
        } else {
            seq![plain(TokenKind::Eof)]
        }
    }
}

/// The tokens of a text.
pub open spec fn tokens_of(s: Seq<char>) -> Seq<TokenView> {
    lex(s, 0)
}

/// A token always ends behind its start and within the text.
pub proof fn lemma_scan_advances(s: Seq<char>, p: int)
    requires
        0 <= p < s.len(),
    ensures
        p < scan_token(s, p).1 <= s.len(),
{
    let c = s[p];
    let len = s.len() as int;
    if c == '\n' {
        lemma_run_end(s, CharClass::LineFeed, p + 1, len);
    } else if c == '#' {
        lemma_run_end(s, CharClass::NotLineFeed, p + 1, len);
    } else if c == '\'' || c == '"' {
        if char_at(s, p + 1) == Some(c) && char_at(s, p + 2) == Some(c) {
            lemma_multiline_body(s, p + 3, c, 0);
        } else {
            lemma_string_body(s, p + 1, c);
        }
    } else if c == 'f' && is_quote(char_at(s, p + 1)) {
        lemma_string_body(s, p + 2, s[p + 1]);
    } else if c == 'r' && is_quote(char_at(s, p + 1)) {
        lemma_index_of_from(s, s[p + 1], p + 2);
    } else if is_dec_digit(c) {
        if char_at(s, p) == Some('0') && prefix_radix(char_at(s, p + 1)) is Some {
            lemma_run_end(s, prefix_radix(char_at(s, p + 1))->0, p + 2, len);
        } else {
            lemma_run_end(s, CharClass::DecSep, p + 1, len - 1);
        }
    } else if is_ascii_letter(c) || c == '_' {
        lemma_run_end(s, CharClass::Word, p + 1, len);
    } else {
    }
}

/// An escape ends behind its letter and within the text.
pub proof fn lemma_escape_at(s: Seq<char>, p: int)
    requires
        0 <= p < s.len(),
    ensures
        p < escape_at(s, p).1 <= s.len(),
{
    lemma_run_end(s, CharClass::Hex, p + 1, 2);
    lemma_run_end(s, CharClass::Hex, p + 1, 4);
    lemma_run_end(s, CharClass::Hex, p + 1, 8);
    lemma_run_end(s, CharClass::Oct, p + 1, 2);
}

/// A string literal ends at or behind the start of its content and within
/// the text.
pub proof fn lemma_string_body(s: Seq<char>, pos: int, quote: char)
    requires
        0 <= pos <= s.len(),
    ensures
        pos <= string_body(s, pos, quote).1 <= s.len(),
    decreases s.len() - pos,
{
    if pos >= s.len() {
    } else if s[pos] == '\\' {
        if pos + 1 < s.len() {
            lemma_escape_at(s, pos + 1);
            lemma_string_body(s, escape_at(s, pos + 1).1, quote);
        }
    } else if s[pos] == quote {
    } else {
        lemma_string_body(s, pos + 1, quote);
    }
}

/// A multi-line string literal ends at or behind the start of its content
/// and within the text.
pub proof fn lemma_multiline_body(s: Seq<char>, pos: int, quote: char, pending: int)
    requires
        0 <= pos <= s.len(),
    ensures
        pos <= multiline_body(s, pos, quote, pending).1 <= s.len(),
    decreases s.len() - pos,
{
    if pos >= s.len() {
    } else if s[pos] == quote {
        if pending < 2 {
            lemma_multiline_body(s, pos + 1, quote, pending + 1);
        }
    } else if s[pos] == '\\' && char_at(s, pos + 1) == Some('\n') {
        lemma_run_end(s, CharClass::SpaceTab, pos + 2, s.len() as int);
        lemma_multiline_body(
            s,
            run_end(s, CharClass::SpaceTab, pos + 2, s.len() as int),
            quote,
            0,
        );
    } else {
        lemma_multiline_body(s, pos + 1, quote, 0);
    }
}

/// The search for a character ends at or behind its start and within the
/// text.
pub proof fn lemma_index_of_from(s: Seq<char>, c: char, pos: int)
    requires
        0 <= pos <= s.len(),
    ensures
        pos <= index_of_from(s, c, pos) <= s.len(),
    decreases s.len() - pos,
{
    if 0 <= pos < s.len() && s[pos] != c {
        lemma_index_of_from(s, c, pos + 1);
    }
}

/// No token that begins in the text is `Eof`.
pub proof fn lemma_scan_is_no_eof(s: Seq<char>, p: int)
    requires
        0 <= p < s.len(),
    ensures
        scan_token(s, p).0 matches Some(t) ==> t.kind != TokenKind::Eof,
{
}

/// The tokens of a text end with `Eof`, and hold no other `Eof`.
pub proof fn lemma_lex_ends_with_eof(s: Seq<char>, pos: int)
    requires
        0 <= pos <= s.len(),
    ensures
        lex(s, pos).len() > 0,
        lex(s, pos).last().kind == TokenKind::Eof,
        forall|i: int| 0 <= i < lex(s, pos).len() - 1 ==> (#[trigger] lex(s, pos)[i]).kind
            != TokenKind::Eof,
    decreases s.len() - pos,
{
    let p = run_end(s, CharClass::Blank, pos, s.len() as int);
    lemma_run_end(s, CharClass::Blank, pos, s.len() as int);
    if p >= s.len() {
    } else {
        lemma_scan_advances(s, p);
        lemma_scan_is_no_eof(s, p);
        let step = scan_token(s, p);
        lemma_lex_ends_with_eof(s, step.1);
        let first = match step.0 {
            Some(t) => seq![t],
            None => Seq::empty(),
        };
        let rest = lex(s, step.1);
        assert(lex(s, pos) == first + rest);
        assert forall|i: int| 0 <= i < lex(s, pos).len() - 1 implies (#[trigger] lex(s, pos)[i]).kind
            != TokenKind::Eof by {
            if i < first.len() {
                assert(lex(s, pos)[i] == first[i]);
            } else {
                assert(lex(s, pos)[i] == rest[i - first.len()]);
            }
        }
    }
}

impl Lexer {
    /// Reads the token that begins at the position, where a character that
    /// is not blank stands.
    pub fn scan(&mut self) -> (r: Option<Token>)
        requires
            old(self).wf(),
            old(self).pos < old(self).chars.len(),
        ensures
            final(self).wf(),
            final(self).chars == old(self).chars,
            old(self).pos < final(self).pos,
            final(self).pos == scan_token(old(self).chars@, old(self).pos as int).1,
            match r {
                Some(t) => scan_token(old(self).chars@, old(self).pos as int).0 == Some(t@),
                None => scan_token(old(self).chars@, old(self).pos as int).0 is None,
            },
    {
        let ghost s = self.chars@;
        let ghost p = self.pos as int;
        proof {
            lemma_scan_advances(s, p);
        }
        let n = self.chars.len();
        let start = self.pos;
        let c = self.chars[self.pos];
        let c1 = self.peek_ahead(1);
        if c == '\n' {
            self.pos += 1;
            let _ = self.take_run(CharClass::LineFeed, n);
            Some(Token::plain(TokenKind::Newline))
        } else if c == '#' {
            self.skip_comment();
            Some(Token::plain(TokenKind::Newline))
        } else if c == '\'' || c == '"' {
            if c1 == Some(c) && self.peek_ahead(2) == Some(c) {
                self.pos += 3;
                let text = self.read_multiline_string(c);
                Some(Token::worded(TokenKind::String, text))
            } else {
                self.pos += 1;
                let text = self.read_string(c);
                Some(Token::worded(TokenKind::String, text))
            }
        } else if c == 'f' && (c1 == Some('\'') || c1 == Some('"')) {
            self.pos += 1;
            let text = self.read_format_string();
            Some(Token::worded(TokenKind::FormatString, text))
        } else if c == 'r' && (c1 == Some('\'') || c1 == Some('"')) {
            let quote = self.chars[self.pos + 1];
            self.pos += 2;
            let text = self.read_raw_string(quote);
            Some(Token::worded(TokenKind::String, text))
        } else if dec_digit(c) {
            let v = self.read_number();
            Some(Token::numeral(v))
        } else if crate::text::ascii_letter(c) || c == '_' {
            self.pos += 1;
            let _ = self.read_identifier();
            let word = slice_chars(&self.chars, start, self.pos);
            Some(make_word_token(string_of(&word)))
        } else if c == '+' || c == '=' || c == '!' || c == '<' || c == '>' {
            self.pos += 1;
            if c1 == Some('=') {
                self.pos += 1;
                let kind = if c == '+' {
                    TokenKind::AddAssign
                } else if c == '=' {
                    TokenKind::Eq
                } else if c == '!' {
                    TokenKind::Ne
                } else if c == '<' {
                    TokenKind::Le
                } else {
                    TokenKind::Ge
                };
                Some(Token::plain(kind))
            } else if c == '+' {
                Some(Token::plain(TokenKind::Plus))
            } else if c == '=' {
                Some(Token::plain(TokenKind::Assign))
            } else if c == '<' {
                Some(Token::plain(TokenKind::Lt))
            } else if c == '>' {
                Some(Token::plain(TokenKind::Gt))
            } else {
                None
            }
        } else {
            self.pos += 1;
            if c == '-' {
                Some(Token::plain(TokenKind::Minus))
            } else if c == '*' {
                Some(Token::plain(TokenKind::Star))
            } else if c == '/' {
                Some(Token::plain(TokenKind::Slash))
            } else if c == '%' {
                Some(Token::plain(TokenKind::Percent))
            } else if c == '?' {
                Some(Token::plain(TokenKind::Question))
            } else if c == ':' {
                Some(Token::plain(TokenKind::Colon))
            } else if c == '(' {
                Some(Token::plain(TokenKind::LeftParen))
            } else if c == ')' {
                Some(Token::plain(TokenKind::RightParen))
            } else if c == '[' {
                Some(Token::plain(TokenKind::LeftBracket))
            } else if c == ']' {
                Some(Token::plain(TokenKind::RightBracket))
            } else if c == '{' {
                Some(Token::plain(TokenKind::LeftBrace))
            } else if c == '}' {
                Some(Token::plain(TokenKind::RightBrace))
            } else if c == ',' {
                Some(Token::plain(TokenKind::Comma))
            } else if c == '.' {
                Some(Token::plain(TokenKind::Dot))
            } else {
                None
            }
        }
    }

    /// Reads the rest of the text into tokens. The last token is `Eof`.
    pub fn tokenize(&mut self) -> (r: Vec<Token>)
        requires
            old(self).wf(),
        ensures
            final(self).wf(),
            final(self).chars == old(self).chars,
            token_views(r@) == lex(old(self).chars@, old(self).pos as int),
            r@.len() > 0,
            r@.last().kind == TokenKind::Eof,
    {
        let mut tokens: Vec<Token> = Vec::new();
        let ghost s = self.chars@;
        let ghost start = self.pos as int;
        proof {
            lemma_lex_ends_with_eof(s, start);
        }
        loop
            invariant
                self.wf(),
                self.chars == old(self).chars,
                s == self.chars@,
                start == old(self).pos,
                token_views(tokens@) + lex(s, self.pos as int) == lex(s, start),
            decreases self.chars.len() - self.pos,
        {
            let ghost before = token_views(tokens@);
            let ghost here = self.pos as int;
            self.skip_whitespace();
            proof {
                lemma_run_end(s, CharClass::Blank, here, s.len() as int);
            }
            if self.pos >= self.chars.len() {
                tokens.push(Token::plain(TokenKind::Eof));
                assert(token_views(tokens@) =~= before + seq![plain(TokenKind::Eof)]);
                assert(token_views(tokens@).last() == tokens@.last()@);
                return tokens;
            }
            match self.scan() {
                Some(t) => {
                    tokens.push(t);
                    assert(token_views(tokens@) =~= before + seq![t@]);
                    assert(token_views(tokens@) + lex(s, self.pos as int) =~= before + (seq![t@]
                        + lex(s, self.pos as int)));
                },
                None => {
                    assert(Seq::<TokenView>::empty() + lex(s, self.pos as int) =~= lex(
                        s,
                        self.pos as int,
                    ));
                },
            }
        }
    }
}

/// The tokens of `input`.
pub fn tokenize(input: &str) -> (r: Vec<Token>)
    ensures
        token_views(r@) == tokens_of(input@),
        r@.len() > 0,
        r@.last().kind == TokenKind::Eof,
{
    let mut lexer = Lexer::new(input);
    lexer.tokenize()
}

} // verus!
