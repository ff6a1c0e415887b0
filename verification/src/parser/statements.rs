//! The rules for statements as methods of the parser.

use vstd::prelude::*;
use crate::lexer::{TokenKind, tokens_of};
use crate::parser::{Parser, ParseError, stmt_agrees, stmts_agree};
use crate::parser::ast::{
    Value, Statement, ExprView, StmtView, stmt_views, branch_views,
};
use crate::parser::grammar::{
    found, expression, BlockEnd, ends_block, block, statement, simple_statement, guarded_block,
    elif_branches, else_branch, if_statement, foreach_statement, program,
};

verus! {

/// Tests whether the token `kind` ends a row of statements of the kind
/// `end`.
pub fn closes_block(end: BlockEnd, kind: TokenKind) -> (r: bool)
    ensures
        r == ends_block(end, kind),
{
    match end {
        BlockEnd::File => kind == TokenKind::Eof,
        BlockEnd::Branch => kind == TokenKind::Elif || kind == TokenKind::Else || kind
            == TokenKind::Endif,
        BlockEnd::LastBranch => kind == TokenKind::Endif,
        BlockEnd::Loop => kind == TokenKind::Endforeach,
    }
}

impl Parser {
    /// Reads statements up to the token that ends the block, which stays
    /// unread.
    #[verifier::loop_isolation(false)]
    pub fn block(&mut self, end: BlockEnd) -> (r: Result<Vec<Statement>, ParseError>)
        requires
            old(self).wf(),
        ensures
            final(self).wf(),
            final(self).tokens == old(self).tokens,
            stmts_agree(
                r,
                block(old(self).toks(), old(self).pos as int, end, Seq::empty()),
                old(self).pos as int,
                final(self).pos as int,
                old(self).tokens.len() as int,
            ),
        decreases old(self).tokens.len() - old(self).pos, 24int,
    {
        let ghost t = self.toks();
        let ghost start = self.pos as int;
        let mut statements: Vec<Statement> = Vec::new();
        assert(stmt_views(statements@) =~= Seq::<StmtView>::empty());
        loop
            invariant
                self.wf(),
                self.tokens == old(self).tokens,
                old(self).pos <= self.pos,
                block(t, start, end, Seq::empty()) == block(
                    t,
                    self.pos as int,
                    end,
                    stmt_views(statements@),
                ),
            decreases self.tokens.len() - self.pos,
        {
            if closes_block(end, self.peek_kind()) {
                return Ok(statements);
            }
            let ghost before = stmt_views(statements@);
            let s = match self.statement() {
                Ok(s) => s,
                Err(e) => return Err(e),
            };
            statements.push(s);
            assert(stmt_views(statements@) =~= before.push(s@));
        }
    }

    /// Reads one statement.
    pub fn statement(&mut self) -> (r: Result<Statement, ParseError>)
        requires
            old(self).wf(),
        ensures
            final(self).wf(),
            final(self).tokens == old(self).tokens,
            stmt_agrees(
                r,
                statement(old(self).toks(), old(self).pos as int),
                old(self).pos as int + 1,
                final(self).pos as int,
                old(self).tokens.len() as int,
            ),
        decreases old(self).tokens.len() - old(self).pos, 23int,
    {
        let kind = self.peek_kind();
        if kind == TokenKind::If {
            self.if_statement()
        } else if kind == TokenKind::Foreach {
            self.foreach_statement()
        } else if kind == TokenKind::Break || kind == TokenKind::Continue {
            let _ = self.advance();
            match self.expect_newline_or_eof() {
                Ok(_) => {},
                Err(e) => return Err(e),
            }
            if kind == TokenKind::Break {
                Ok(Statement::Break)
            } else {
                Ok(Statement::Continue)
            }
        } else {
            let e = match self.expression() {
                Ok(e) => e,
                Err(e) => return Err(e),
            };
            self.simple_statement(e)
        }
    }

    /// Reads what follows the expression `e` at the start of a statement.
    pub fn simple_statement(&mut self, e: Value) -> (r: Result<Statement, ParseError>)
        requires
            old(self).wf(),
        ensures
            final(self).wf(),
            final(self).tokens == old(self).tokens,
            stmt_agrees(
                r,
                simple_statement(old(self).toks(), old(self).pos as int, e@),
                old(self).pos as int,
                final(self).pos as int,
                old(self).tokens.len() as int,
            ),
        decreases old(self).tokens.len() - old(self).pos, 1int,
    {
        let kind = self.peek_kind();
        match e {
            Value::Identifier(name) => {
                if kind == TokenKind::Assign || kind == TokenKind::AddAssign {
                    let _ = self.advance();
                    let value = match self.expression() {
                        Ok(v) => v,
                        Err(e) => return Err(e),
                    };
                    match self.expect_newline_or_eof() {
                        Ok(_) => {},
                        Err(e) => return Err(e),
                    }
                    if kind == TokenKind::Assign {
                        Ok(Statement::Assignment(name, value))
                    } else {
                        Ok(Statement::AddAssignment(name, value))
                    }
                } else {
                    match self.expect_newline_or_eof() {
                        Ok(_) => {},
                        Err(e) => return Err(e),
                    }
                    Ok(Statement::Expression(Value::Identifier(name)))
                }
            },
            other => {
                match self.expect_newline_or_eof() {
                    Ok(_) => {},
                    Err(e) => return Err(e),
                }
                Ok(Statement::Expression(other))
            },
        }
    }

    /// Reads a condition, the end of its line, and the statements of its
    /// branch.
    pub fn guarded_block(&mut self) -> (r: Result<(Value, Vec<Statement>), ParseError>)
        requires
            old(self).wf(),
        ensures
            final(self).wf(),
            final(self).tokens == old(self).tokens,
            match r {
                Ok(b) => guarded_block(old(self).toks(), old(self).pos as int) == found(
                    (b.0@, stmt_views(b.1@)),
                    final(self).pos as int,
                ) && old(self).pos <= final(self).pos <= old(self).tokens.len(),
                Err(_) => guarded_block(old(self).toks(), old(self).pos as int) is None,
            },
        decreases old(self).tokens.len() - old(self).pos, 25int,
    {
        let cond = match self.expression() {
            Ok(e) => e,
            Err(e) => return Err(e),
        };
        match self.expect_newline() {
            Ok(_) => {},
            Err(e) => return Err(e),
        }
        let body = match self.block(BlockEnd::Branch) {
            Ok(b) => b,
            Err(e) => return Err(e),
        };
        Ok((cond, body))
    }

    /// Reads a conditional, from `if` to `endif`.
    #[verifier::loop_isolation(false)]
    pub fn if_statement(&mut self) -> (r: Result<Statement, ParseError>)
        requires
            old(self).wf(),
        ensures
            final(self).wf(),
            final(self).tokens == old(self).tokens,
            stmt_agrees(
                r,
                if_statement(old(self).toks(), old(self).pos as int),
                old(self).pos as int + 1,
                final(self).pos as int,
                old(self).tokens.len() as int,
            ),
        decreases old(self).tokens.len() - old(self).pos, 22int,
    {
        let ghost t = self.toks();
        match self.expect(TokenKind::If) {
            Ok(_) => {},
            Err(e) => return Err(e),
        }
        let (cond, then_branch) = match self.guarded_block() {
            Ok(b) => b,
            Err(e) => return Err(e),
        };
        let ghost branches_at = self.pos as int;
        let mut elifs: Vec<(Value, Vec<Statement>)> = Vec::new();
        assert(branch_views(elifs@) =~= Seq::<(ExprView, Seq<StmtView>)>::empty());
        while self.match_token(TokenKind::Elif)
            invariant
                self.wf(),
                self.tokens == old(self).tokens,
                old(self).pos < self.pos,
                elif_branches(t, branches_at, Seq::empty()) == elif_branches(
                    t,
                    self.pos as int,
                    branch_views(elifs@),
                ),
            decreases self.tokens.len() - self.pos,
        {
            let ghost before = branch_views(elifs@);
            let branch = match self.guarded_block() {
                Ok(b) => b,
                Err(e) => return Err(e),
            };
            let ghost bv = (branch.0@, stmt_views(branch.1@));
            elifs.push(branch);
            assert(branch_views(elifs@) =~= before.push(bv));
        }
        let last = match self.else_branch() {
            Ok(b) => b,
            Err(e) => return Err(e),
        };
        match self.expect(TokenKind::Endif) {
            Ok(_) => {},
            Err(e) => return Err(e),
        }
        Ok(Statement::If(cond, then_branch, elifs, last))
    }

    /// Reads the `else` branch, if one stands at the position.
    pub fn else_branch(&mut self) -> (r: Result<Option<Vec<Statement>>, ParseError>)
        requires
            old(self).wf(),
        ensures
            final(self).wf(),
            final(self).tokens == old(self).tokens,
            match r {
                Ok(b) => else_branch(old(self).toks(), old(self).pos as int) == found(
                    match b {
                        Some(body) => Some(stmt_views(body@)),
                        None => None,
                    },
                    final(self).pos as int,
                ) && old(self).pos <= final(self).pos <= old(self).tokens.len(),
                Err(_) => else_branch(old(self).toks(), old(self).pos as int) is None,
            },
        decreases old(self).tokens.len() - old(self).pos, 1int,
    {
        if !self.match_token(TokenKind::Else) {
            return Ok(None);
        }
        match self.expect_newline() {
            Ok(_) => {},
            Err(e) => return Err(e),
        }
        let body = match self.block(BlockEnd::LastBranch) {
            Ok(b) => b,
            Err(e) => return Err(e),
        };
        Ok(Some(body))
    }

    /// Reads a loop, from `foreach` to `endforeach`.
    pub fn foreach_statement(&mut self) -> (r: Result<Statement, ParseError>)
        requires
            old(self).wf(),
        ensures
            final(self).wf(),
            final(self).tokens == old(self).tokens,
            stmt_agrees(
                r,
                foreach_statement(old(self).toks(), old(self).pos as int),
                old(self).pos as int + 1,
                final(self).pos as int,
                old(self).tokens.len() as int,
            ),
        decreases old(self).tokens.len() - old(self).pos, 22int,
    {
        match self.expect(TokenKind::Foreach) {
            Ok(_) => {},
            Err(e) => return Err(e),
        }
        let name = self.advance();
        if name.kind != TokenKind::Identifier {
            return Err(ParseError::UnexpectedToken);
        }
        match self.expect(TokenKind::Colon) {
            Ok(_) => {},
            Err(e) => return Err(e),
        }
        let iterable = match self.expression() {
            Ok(e) => e,
            Err(e) => return Err(e),
        };
        match self.expect_newline() {
            Ok(_) => {},
            Err(e) => return Err(e),
        }
        let body = match self.block(BlockEnd::Loop) {
            Ok(b) => b,
            Err(e) => return Err(e),
        };
        match self.expect(TokenKind::Endforeach) {
            Ok(_) => {},
            Err(e) => return Err(e),
        }
        Ok(Statement::Foreach(name.text, iterable, body))
    }

    /// Reads the statements of the whole input.
    pub fn parse(&mut self) -> (r: Result<Vec<Statement>, ParseError>)
        requires
            old(self).wf(),
        ensures
            final(self).wf(),
            final(self).tokens == old(self).tokens,
            stmts_agree(
                r,
                block(old(self).toks(), old(self).pos as int, BlockEnd::File, Seq::empty()),
                old(self).pos as int,
                final(self).pos as int,
                old(self).tokens.len() as int,
            ),
    {
        self.block(BlockEnd::File)
    }
}

/// The statements that the text `input` holds, or the error where it does
/// not fit the grammar.
pub fn parse_meson_file(content: &str) -> (r: Result<Vec<Statement>, ParseError>)
    ensures
        match r {
            Ok(statements) => program(tokens_of(content@)) == Some(stmt_views(statements@)),
            Err(_) => program(tokens_of(content@)) is None,
        },
{
    let mut parser = Parser::new(content);
    parser.parse()
}

} // verus!
