//! The parser: from tokens to the syntax tree.

pub mod ast;
pub mod error;
pub mod grammar;
pub mod descent;
pub mod statements;

pub use ast::{BinaryOperator, UnaryOperator, Value, Statement, ExprView, StmtView};
pub use error::ParseError;
pub use statements::parse_meson_file;

use vstd::prelude::*;
use crate::assoc::{find_key, upsert, names, string_names};
use crate::lexer::{Token, TokenKind, TokenView, token_views, tokens_of, tokenize};
use ast::{expr_views, entry_views, stmt_views};
use grammar::{Parsed, found, skip_newlines, peek_raw, peek, after, end_of_line, level_operator};

verus! {

/// The parser: the tokens and how far they have been read.
pub struct Parser {
    pub tokens: Vec<Token>,
    pub pos: usize,
}

/// Binds `key` to `value` in a row of named expressions.
pub fn bind_entry(entries: &mut Vec<(String, Value)>, key: String, value: Value)
    ensures
        entry_views(final(entries)@) == upsert(entry_views(old(entries)@), key@, value@),
{
    let ghost before = entry_views(entries@);
    assert(names(before) =~= string_names(entries@));
    match find_key(entries, key.as_str()) {
        Some(i) => {
            entries.set(i, (key, value));
            assert(entry_views(entries@) =~= before.update(i as int, (key@, value@)));
        },
        None => {
            entries.push((key, value));
            assert(entry_views(entries@) =~= before.push((key@, value@)));
        },
    }
}

/// The operator that the token `kind` writes at the level `level`.
pub fn operator_at(level: u8, kind: TokenKind) -> (r: Option<BinaryOperator>)
    ensures
        r == level_operator(level as nat, kind),
{
    if level == 0 {
        match kind {
            TokenKind::Star => Some(BinaryOperator::Mul),
            TokenKind::Slash => Some(BinaryOperator::Div),
            TokenKind::Percent => Some(BinaryOperator::Mod),
            _ => None,
        }
    } else if level == 1 {
        match kind {
            TokenKind::Plus => Some(BinaryOperator::Add),
            TokenKind::Minus => Some(BinaryOperator::Sub),
            _ => None,
        }
    } else if level == 2 {
        match kind {
            TokenKind::Lt => Some(BinaryOperator::Lt),
            TokenKind::Le => Some(BinaryOperator::Le),
            TokenKind::Gt => Some(BinaryOperator::Gt),
            TokenKind::Ge => Some(BinaryOperator::Ge),
            _ => None,
        }
    } else if level == 3 {
        match kind {
            TokenKind::Eq => Some(BinaryOperator::Eq),
            TokenKind::Ne => Some(BinaryOperator::Ne),
            _ => None,
        }
    } else if level == 5 {
        match kind {
            TokenKind::And => Some(BinaryOperator::And),
            _ => None,
        }
    } else if level == 6 {
        match kind {
            TokenKind::Or => Some(BinaryOperator::Or),
            _ => None,
        }
    } else {
        None
    }
}

/// Whether what the parser returned for an expression is what the rule
/// `rule` gives, the parser having stopped at `end`.
pub open spec fn expr_agrees(
    r: Result<Value, ParseError>,
    rule: Option<Parsed<ExprView>>,
    lo: int,
    end: int,
    len: int,
) -> bool {
    match r {
        Ok(e) => rule == found(e@, end) && lo <= end <= len,
        Err(_) => rule is None,
    }
}

/// The same for a row of expressions.
pub open spec fn exprs_agree(
    r: Result<Vec<Value>, ParseError>,
    rule: Option<Parsed<Seq<ExprView>>>,
    lo: int,
    end: int,
    len: int,
) -> bool {
    match r {
        Ok(items) => rule == found(expr_views(items@), end) && lo <= end <= len,
        Err(_) => rule is None,
    }
}

/// The same for a row of named expressions.
pub open spec fn entries_agree(
    r: Result<Vec<(String, Value)>, ParseError>,
    rule: Option<Parsed<Seq<(Seq<char>, ExprView)>>>,
    lo: int,
    end: int,
    len: int,
) -> bool {
    match r {
        Ok(entries) => rule == found(entry_views(entries@), end) && lo <= end <= len,
        Err(_) => rule is None,
    }
}

/// The same for the arguments of a call.
pub open spec fn arguments_agree(
    r: Result<(Vec<Value>, Vec<(String, Value)>), ParseError>,
    rule: Option<Parsed<(Seq<ExprView>, Seq<(Seq<char>, ExprView)>)>>,
    lo: int,
    end: int,
    len: int,
) -> bool {
    match r {
        Ok(a) => rule == found((expr_views(a.0@), entry_views(a.1@)), end) && lo <= end <= len,
        Err(_) => rule is None,
    }
}

/// The same for a statement.
pub open spec fn stmt_agrees(
    r: Result<Statement, ParseError>,
    rule: Option<Parsed<StmtView>>,
    lo: int,
    end: int,
    len: int,
) -> bool {
    match r {
        Ok(s) => rule == found(s@, end) && lo <= end <= len,
        Err(_) => rule is None,
    }
}

/// The same for a row of statements.
pub open spec fn stmts_agree(
    r: Result<Vec<Statement>, ParseError>,
    rule: Option<Parsed<Seq<StmtView>>>,
    lo: int,
    end: int,
    len: int,
) -> bool {
    match r {
        Ok(items) => rule == found(stmt_views(items@), end) && lo <= end <= len,
        Err(_) => rule is None,
    }
}

impl Parser {
    /// The position lies within the tokens.
    pub open spec fn wf(&self) -> bool {
        self.pos <= self.tokens.len()
    }

    /// The tokens as mathematical values.
    pub open spec fn toks(&self) -> Seq<TokenView> {
        token_views(self.tokens@)
    }

    /// A parser at the start of the tokens of `input`.
    pub fn new(input: &str) -> (r: Parser)
        ensures
            r.wf(),
            r.pos == 0,
            r.toks() == tokens_of(input@),
    {
        Parser { tokens: tokenize(input), pos: 0 }
    }

    /// The index of the first token at or behind the position that is no
    /// `Newline`.
    fn skipped(&self) -> (r: usize)
        requires
            self.wf(),
        ensures
            r == skip_newlines(self.toks(), self.pos as int),
            self.pos <= r <= self.tokens.len(),
    {
        let mut i: usize = self.pos;
        while i < self.tokens.len() && self.tokens[i].kind == TokenKind::Newline
            invariant
                self.pos <= i <= self.tokens.len(),
                skip_newlines(self.toks(), self.pos as int) == skip_newlines(self.toks(), i as int),
            decreases self.tokens.len() - i,
        {
            i += 1;
        }
        i
    }

    /// The token at the position, be it a `Newline` or not.
    pub fn peek_with_newline(&self) -> (r: Token)
        requires
            self.wf(),
        ensures
            r@ == peek_raw(self.toks(), self.pos as int),
    {
        if self.pos < self.tokens.len() {
            self.tokens[self.pos].cloned()
        } else {
            Token::plain(TokenKind::Eof)
        }
    }

    /// The next token that is no `Newline`. It stays unread.
    pub fn peek(&self) -> (r: Token)
        requires
            self.wf(),
        ensures
            r@ == peek(self.toks(), self.pos as int),
    {
        let i = self.skipped();
        if i < self.tokens.len() {
            self.tokens[i].cloned()
        } else {
            Token::plain(TokenKind::Eof)
        }
    }

    /// The kind of the next token that is no `Newline`.
    pub fn peek_kind(&self) -> (r: TokenKind)
        requires
            self.wf(),
        ensures
            r == peek(self.toks(), self.pos as int).kind,
    {
        let i = self.skipped();
        if i < self.tokens.len() {
            self.tokens[i].kind
        } else {
            TokenKind::Eof
        }
    }

    /// Passes over the `Newline` tokens at the position.
    pub fn skip_newline(&mut self)
        requires
            old(self).wf(),
        ensures
            final(self).wf(),
            final(self).tokens == old(self).tokens,
            final(self).pos == skip_newlines(old(self).toks(), old(self).pos as int),
    {
        self.pos = self.skipped();
    }

    /// Reads the next token that is no `Newline`. `Eof` is never passed.
    pub fn advance(&mut self) -> (r: Token)
        requires
            old(self).wf(),
        ensures
            final(self).wf(),
            final(self).tokens == old(self).tokens,
            r@ == peek(old(self).toks(), old(self).pos as int),
            final(self).pos == after(old(self).toks(), old(self).pos as int),
            old(self).pos <= final(self).pos,
            r.kind != TokenKind::Eof ==> old(self).pos < final(self).pos,
    {
        let token = self.peek();
        self.pos = self.skipped();
        if token.kind != TokenKind::Eof {
            self.pos += 1;
        }
        token
    }

    /// Reads the next token if it is of the kind `kind`, and tells whether
    /// it was.
    pub fn match_token(&mut self, kind: TokenKind) -> (r: bool)
        requires
            old(self).wf(),
        ensures
            final(self).wf(),
            final(self).tokens == old(self).tokens,
            r == (peek(old(self).toks(), old(self).pos as int).kind == kind),
            r ==> final(self).pos == after(old(self).toks(), old(self).pos as int),
            !r ==> final(self).pos == old(self).pos,
            old(self).pos <= final(self).pos,
            r && kind != TokenKind::Eof ==> old(self).pos < final(self).pos,
    {
        if self.peek_kind() == kind {
            let _ = self.advance();
            true
        } else {
            false
        }
    }

    /// Reads the next token if its kind is among `kinds`, and returns it.
    pub fn match_tokens(&mut self, kinds: &Vec<TokenKind>) -> (r: Option<Token>)
        requires
            old(self).wf(),
        ensures
            final(self).wf(),
            final(self).tokens == old(self).tokens,
            r is Some == kinds@.contains(peek(old(self).toks(), old(self).pos as int).kind),
            match r {
                Some(token) => token@ == peek(old(self).toks(), old(self).pos as int)
                    && final(self).pos == after(old(self).toks(), old(self).pos as int),
                None => final(self).pos == old(self).pos,
            },
    {
        let kind = self.peek_kind();
        let mut i: usize = 0;
        while i < kinds.len()
            invariant
                i <= kinds.len(),
                *self == *old(self),
                self.wf(),
                kind == peek(self.toks(), self.pos as int).kind,
                forall|j: int| 0 <= j < i ==> kinds@[j] != kind,
            decreases kinds.len() - i,
        {
            if kinds[i] == kind {
                return Some(self.advance());
            }
            i += 1;
        }
        None
    }

    /// Reads the next token, which must be of the kind `kind`.
    pub fn expect(&mut self, kind: TokenKind) -> (r: Result<(), ParseError>)
        requires
            old(self).wf(),
        ensures
            final(self).wf(),
            final(self).tokens == old(self).tokens,
            r is Ok == (peek(old(self).toks(), old(self).pos as int).kind == kind),
            r is Ok ==> final(self).pos == after(old(self).toks(), old(self).pos as int),
            old(self).pos <= final(self).pos,
            r is Ok && kind != TokenKind::Eof ==> old(self).pos < final(self).pos,
    {
        if self.match_token(kind) {
            Ok(())
        } else {
            Err(ParseError::UnexpectedToken)
        }
    }

    /// Reads the end of a line: the `Newline` tokens at the position. The
    /// end of the input counts as one.
    pub fn expect_newline(&mut self) -> (r: Result<(), ParseError>)
        requires
            old(self).wf(),
        ensures
            final(self).wf(),
            final(self).tokens == old(self).tokens,
            match r {
                Ok(_) => end_of_line(old(self).toks(), old(self).pos as int) == Some(
                    final(self).pos as int,
                ),
                Err(_) => end_of_line(old(self).toks(), old(self).pos as int) is None,
            },
            old(self).pos <= final(self).pos,
    {
        let kind = if self.pos < self.tokens.len() {
            self.tokens[self.pos].kind
        } else {
            TokenKind::Eof
        };
        if kind == TokenKind::Newline || kind == TokenKind::Eof {
            self.skip_newline();
            Ok(())
        } else {
            Err(ParseError::UnexpectedToken)
        }
    }

    /// Reads the end of a statement: a line end, or the end of the input.
    pub fn expect_newline_or_eof(&mut self) -> (r: Result<(), ParseError>)
        requires
            old(self).wf(),
        ensures
            final(self).wf(),
            final(self).tokens == old(self).tokens,
            match r {
                Ok(_) => end_of_line(old(self).toks(), old(self).pos as int) == Some(
                    final(self).pos as int,
                ),
                Err(_) => end_of_line(old(self).toks(), old(self).pos as int) is None,
            },
            old(self).pos <= final(self).pos,
    {
        self.expect_newline()
    }

    /// Whether nothing but line ends is left.
    pub fn is_at_end(&self) -> (r: bool)
        requires
            self.wf(),
        ensures
            r == (peek(self.toks(), self.pos as int).kind == TokenKind::Eof),
    {
        self.peek_kind() == TokenKind::Eof
    }
}

} // verus!
