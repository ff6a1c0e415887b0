//! The rules of the grammar as methods of the parser, by recursive
//! descent. Each method reads what its rule describes and returns the
//! tree, or fails where the tokens fit no rule.

use vstd::prelude::*;
use crate::lexer::TokenKind;
use crate::parser::{
    Parser, ParseError, bind_entry, operator_at, expr_agrees, exprs_agree, entries_agree,
    arguments_agree,
};
use crate::parser::ast::{BinaryOperator, UnaryOperator, Value, ExprView, expr_views, entry_views};
use crate::parser::grammar::{
    peek, expression, operand, binary_level, membership_tail, binary_tail, unary, postfix,
    postfix_tail, call_of, primary, group_rest, array_rest, dict_rest, array_elements,
    array_items, dict_elements, dict_items, arguments, argument_items,
};

verus! {

/// The call of `callee` with the arguments given. Only a name and a method
/// access can be called.
pub fn make_call(callee: Value, args: Vec<Value>, kwargs: Vec<(String, Value)>) -> (r: Result<
    Value,
    ParseError,
>)
    ensures
        match r {
            Ok(e) => call_of(callee@, expr_views(args@), entry_views(kwargs@)) == Some(e@),
            Err(_) => call_of(callee@, expr_views(args@), entry_views(kwargs@)) is None,
        },
{
    match callee {
        Value::Identifier(name) => Ok(Value::FunctionCall(name, args, kwargs)),
        Value::MethodCall(object, method, _, _) => Ok(
            Value::MethodCall(object, method, args, kwargs),
        ),
        Value::String(_) => Err(ParseError::UnexpectedToken),
        Value::FormatString(_) => Err(ParseError::UnexpectedToken),
        Value::Integer(_) => Err(ParseError::UnexpectedToken),
        Value::Boolean(_) => Err(ParseError::UnexpectedToken),
        Value::Array(_) => Err(ParseError::UnexpectedToken),
        Value::Dict(_) => Err(ParseError::UnexpectedToken),
        Value::FunctionCall(_, _, _) => Err(ParseError::UnexpectedToken),
        Value::BinaryOp(_, _, _) => Err(ParseError::UnexpectedToken),
        Value::UnaryOp(_, _) => Err(ParseError::UnexpectedToken),
        Value::Subscript(_, _) => Err(ParseError::UnexpectedToken),
        Value::TernaryOp(_, _, _) => Err(ParseError::UnexpectedToken),
    }
}

impl Parser {
    /// Reads an expression.
    pub fn expression(&mut self) -> (r: Result<Value, ParseError>)
        requires
            old(self).wf(),
        ensures
            final(self).wf(),
            final(self).tokens == old(self).tokens,
            expr_agrees(
                r,
                expression(old(self).toks(), old(self).pos as int),
                old(self).pos as int + 1,
                final(self).pos as int,
                old(self).tokens.len() as int,
            ),
        decreases old(self).tokens.len() - old(self).pos, 20int,
    {
        let cond = match self.binary_level(6) {
            Ok(e) => e,
            Err(e) => return Err(e),
        };
        if !self.match_token(TokenKind::Question) {
            return Ok(cond);
        }
        let yes = match self.expression() {
            Ok(e) => e,
            Err(e) => return Err(e),
        };
        if !self.match_token(TokenKind::Colon) {
            return Err(ParseError::UnexpectedToken);
        }
        let no = match self.expression() {
            Ok(e) => e,
            Err(e) => return Err(e),
        };
        Ok(Value::TernaryOp(Box::new(cond), Box::new(yes), Box::new(no)))
    }

    /// Reads one operand of the operators of the level `level`.
    pub fn operand(&mut self, level: u8) -> (r: Result<Value, ParseError>)
        requires
            old(self).wf(),
            level <= 6,
        ensures
            final(self).wf(),
            final(self).tokens == old(self).tokens,
            expr_agrees(
                r,
                operand(old(self).toks(), old(self).pos as int, level as nat),
                old(self).pos as int + 1,
                final(self).pos as int,
                old(self).tokens.len() as int,
            ),
        decreases old(self).tokens.len() - old(self).pos, 6 + 2 * level,
    {
        if level == 0 {
            self.unary()
        } else {
            self.binary_level(level - 1)
        }
    }

    /// Reads the operations of the precedence level `level` and of those
    /// above it: 6 for `or`, 5 for `and`, 4 for membership, 3 for
    /// equality, 2 for the comparisons, 1 for `+ -`, 0 for `* / %`.
    #[verifier::loop_isolation(false)]
    pub fn binary_level(&mut self, level: u8) -> (r: Result<Value, ParseError>)
        requires
            old(self).wf(),
            level <= 6,
        ensures
            final(self).wf(),
            final(self).tokens == old(self).tokens,
            expr_agrees(
                r,
                binary_level(old(self).toks(), old(self).pos as int, level as nat),
                old(self).pos as int + 1,
                final(self).pos as int,
                old(self).tokens.len() as int,
            ),
        decreases old(self).tokens.len() - old(self).pos, 7 + 2 * level,
    {
        let ghost t = self.toks();
        let first = match self.operand(level) {
            Ok(e) => e,
            Err(e) => return Err(e),
        };
        if level == 4 {
            return self.membership_tail(first);
        }
        let ghost first_end = self.pos as int;
        let ghost first_view = first@;
        let mut left = first;
        loop
            invariant
                self.wf(),
                self.tokens == old(self).tokens,
                old(self).pos < self.pos,
                binary_tail(t, first_end, level as nat, first_view) == binary_tail(
                    t,
                    self.pos as int,
                    level as nat,
                    left@,
                ),
            decreases self.tokens.len() - self.pos,
        {
            match operator_at(level, self.peek_kind()) {
                None => {
                    return Ok(left);
                },
                Some(op) => {
                    let _ = self.advance();
                    let right = match self.operand(level) {
                        Ok(e) => e,
                        Err(e) => return Err(e),
                    };
                    left = Value::BinaryOp(Box::new(left), op, Box::new(right));
                },
            }
        }
    }

    /// Reads what follows the left operand of a membership test.
    pub fn membership_tail(&mut self, left: Value) -> (r: Result<Value, ParseError>)
        requires
            old(self).wf(),
        ensures
            final(self).wf(),
            final(self).tokens == old(self).tokens,
            expr_agrees(
                r,
                membership_tail(old(self).toks(), old(self).pos as int, left@),
                old(self).pos as int,
                final(self).pos as int,
                old(self).tokens.len() as int,
            ),
        decreases old(self).tokens.len() - old(self).pos, 0int,
    {
        if self.match_token(TokenKind::In) {
            let right = match self.operand(4) {
                Ok(e) => e,
                Err(e) => return Err(e),
            };
            Ok(Value::BinaryOp(Box::new(left), BinaryOperator::In, Box::new(right)))
        } else if self.match_token(TokenKind::Not) {
            if self.match_token(TokenKind::In) {
                let right = match self.operand(4) {
                    Ok(e) => e,
                    Err(e) => return Err(e),
                };
                Ok(Value::BinaryOp(Box::new(left), BinaryOperator::NotIn, Box::new(right)))
            } else {
                Ok(left)
            }
        } else {
            Ok(left)
        }
    }

    /// Reads the operations with `not` and with the minus sign, and what
    /// binds tighter.
    pub fn unary(&mut self) -> (r: Result<Value, ParseError>)
        requires
            old(self).wf(),
        ensures
            final(self).wf(),
            final(self).tokens == old(self).tokens,
            expr_agrees(
                r,
                unary(old(self).toks(), old(self).pos as int),
                old(self).pos as int + 1,
                final(self).pos as int,
                old(self).tokens.len() as int,
            ),
        decreases old(self).tokens.len() - old(self).pos, 5int,
    {
        let kind = self.peek_kind();
        if kind == TokenKind::Not || kind == TokenKind::Minus {
            let _ = self.advance();
            let inner = match self.unary() {
                Ok(e) => e,
                Err(e) => return Err(e),
            };
            let op = if kind == TokenKind::Not {
                UnaryOperator::Not
            } else {
                UnaryOperator::Minus
            };
            Ok(Value::UnaryOp(op, Box::new(inner)))
        } else {
            self.postfix()
        }
    }

    /// Reads a primary expression with the calls, subscripts and method
    /// accesses that follow it.
    pub fn postfix(&mut self) -> (r: Result<Value, ParseError>)
        requires
            old(self).wf(),
        ensures
            final(self).wf(),
            final(self).tokens == old(self).tokens,
            expr_agrees(
                r,
                postfix(old(self).toks(), old(self).pos as int),
                old(self).pos as int + 1,
                final(self).pos as int,
                old(self).tokens.len() as int,
            ),
        decreases old(self).tokens.len() - old(self).pos, 4int,
    {
        let ghost t = self.toks();
        let first = match self.primary() {
            Ok(e) => e,
            Err(e) => return Err(e),
        };
        let ghost first_end = self.pos as int;
        let ghost first_view = first@;
        let mut expr = first;
        loop
            invariant
                self.wf(),
                self.tokens == old(self).tokens,
                old(self).wf(),
                t == old(self).toks(),
                old(self).pos < self.pos,
                first_end <= self.pos,
                old(self).pos < first_end <= self.tokens.len(),
                postfix(t, old(self).pos as int) == postfix_tail(t, first_end, first_view),
                postfix_tail(t, first_end, first_view) == postfix_tail(t, self.pos as int, expr@),
            decreases self.tokens.len() - self.pos,
        {
            let kind = self.peek_kind();
            if kind == TokenKind::LeftParen {
                expr = match self.call_suffix(expr) {
                    Ok(e) => e,
                    Err(e) => return Err(e),
                };
            } else if kind == TokenKind::LeftBracket {
                expr = match self.index_suffix(expr) {
                    Ok(e) => e,
                    Err(e) => return Err(e),
                };
            } else if kind == TokenKind::Dot {
                expr = match self.method_suffix(expr) {
                    Ok(e) => e,
                    Err(e) => return Err(e),
                };
            } else {
                return Ok(expr);
            }
        }
    }

    /// Reads the arguments in parentheses that follow `callee`, and makes
    /// the call.
    pub fn call_suffix(&mut self, callee: Value) -> (r: Result<Value, ParseError>)
        requires
            old(self).wf(),
            peek(old(self).toks(), old(self).pos as int).kind == TokenKind::LeftParen,
        ensures
            final(self).wf(),
            final(self).tokens == old(self).tokens,
            match r {
                Ok(e) => old(self).pos < final(self).pos && postfix_tail(
                    old(self).toks(),
                    old(self).pos as int,
                    callee@,
                ) == postfix_tail(old(self).toks(), final(self).pos as int, e@),
                Err(_) => postfix_tail(old(self).toks(), old(self).pos as int, callee@) is None,
            },
        decreases old(self).tokens.len() - old(self).pos, 2int,
    {
        let _ = self.advance();
        let (args, kwargs) = match self.arguments() {
            Ok(a) => a,
            Err(e) => return Err(e),
        };
        if !self.match_token(TokenKind::RightParen) {
            return Err(ParseError::UnexpectedToken);
        }
        make_call(callee, args, kwargs)
    }

    /// Reads the subscript in brackets that follows `object`.
    pub fn index_suffix(&mut self, object: Value) -> (r: Result<Value, ParseError>)
        requires
            old(self).wf(),
            peek(old(self).toks(), old(self).pos as int).kind == TokenKind::LeftBracket,
        ensures
            final(self).wf(),
            final(self).tokens == old(self).tokens,
            match r {
                Ok(e) => old(self).pos < final(self).pos && postfix_tail(
                    old(self).toks(),
                    old(self).pos as int,
                    object@,
                ) == postfix_tail(old(self).toks(), final(self).pos as int, e@),
                Err(_) => postfix_tail(old(self).toks(), old(self).pos as int, object@) is None,
            },
        decreases old(self).tokens.len() - old(self).pos, 2int,
    {
        let _ = self.advance();
        let index = match self.expression() {
            Ok(e) => e,
            Err(e) => return Err(e),
        };
        if !self.match_token(TokenKind::RightBracket) {
            return Err(ParseError::UnexpectedToken);
        }
        Ok(Value::Subscript(Box::new(object), Box::new(index)))
    }

    /// Reads the dot and the method name that follow `object`.
    pub fn method_suffix(&mut self, object: Value) -> (r: Result<Value, ParseError>)
        requires
            old(self).wf(),
            peek(old(self).toks(), old(self).pos as int).kind == TokenKind::Dot,
        ensures
            final(self).wf(),
            final(self).tokens == old(self).tokens,
            match r {
                Ok(e) => old(self).pos < final(self).pos && postfix_tail(
                    old(self).toks(),
                    old(self).pos as int,
                    object@,
                ) == postfix_tail(old(self).toks(), final(self).pos as int, e@),
                Err(_) => postfix_tail(old(self).toks(), old(self).pos as int, object@) is None,
            },
    {
        let _ = self.advance();
        let name = self.advance();
        if name.kind != TokenKind::Identifier {
            return Err(ParseError::UnexpectedToken);
        }
        let args: Vec<Value> = Vec::new();
        let kwargs: Vec<(String, Value)> = Vec::new();
        assert(expr_views(args@) =~= Seq::<ExprView>::empty());
        assert(entry_views(kwargs@) =~= Seq::<(Seq<char>, ExprView)>::empty());
        Ok(Value::MethodCall(Box::new(object), name.text, args, kwargs))
    }

    /// Reads a literal, a name, an expression in parentheses, an array or
    /// a dict.
    pub fn primary(&mut self) -> (r: Result<Value, ParseError>)
        requires
            old(self).wf(),
        ensures
            final(self).wf(),
            final(self).tokens == old(self).tokens,
            expr_agrees(
                r,
                primary(old(self).toks(), old(self).pos as int),
                old(self).pos as int + 1,
                final(self).pos as int,
                old(self).tokens.len() as int,
            ),
        decreases old(self).tokens.len() - old(self).pos, 3int,
    {
        let token = self.advance();
        match token.kind {
            TokenKind::String => Ok(Value::String(token.text)),
            TokenKind::FormatString => Ok(Value::FormatString(token.text)),
            TokenKind::Integer => Ok(Value::Integer(token.number)),
            TokenKind::True => Ok(Value::Boolean(true)),
            TokenKind::False => Ok(Value::Boolean(false)),
            TokenKind::Identifier => Ok(Value::Identifier(token.text)),
            TokenKind::LeftParen => self.group_rest(),
            TokenKind::LeftBracket => self.array_rest(),
            TokenKind::LeftBrace => self.dict_rest(),
            _ => Err(ParseError::UnexpectedToken),
        }
    }

    /// Reads an expression in parentheses, from behind the opening
    /// parenthesis on.
    pub fn group_rest(&mut self) -> (r: Result<Value, ParseError>)
        requires
            old(self).wf(),
        ensures
            final(self).wf(),
            final(self).tokens == old(self).tokens,
            expr_agrees(
                r,
                group_rest(old(self).toks(), old(self).pos as int),
                old(self).pos as int + 1,
                final(self).pos as int,
                old(self).tokens.len() as int,
            ),
        decreases old(self).tokens.len() - old(self).pos, 23int,
    {
        let inner = match self.expression() {
            Ok(e) => e,
            Err(e) => return Err(e),
        };
        if !self.match_token(TokenKind::RightParen) {
            return Err(ParseError::UnexpectedToken);
        }
        Ok(inner)
    }

    /// Reads an array literal, from behind the opening bracket on.
    pub fn array_rest(&mut self) -> (r: Result<Value, ParseError>)
        requires
            old(self).wf(),
        ensures
            final(self).wf(),
            final(self).tokens == old(self).tokens,
            expr_agrees(
                r,
                array_rest(old(self).toks(), old(self).pos as int),
                old(self).pos as int + 1,
                final(self).pos as int,
                old(self).tokens.len() as int,
            ),
        decreases old(self).tokens.len() - old(self).pos, 23int,
    {
        let items = match self.array_elements() {
            Ok(e) => e,
            Err(e) => return Err(e),
        };
        if !self.match_token(TokenKind::RightBracket) {
            return Err(ParseError::UnexpectedToken);
        }
        Ok(Value::Array(items))
    }

    /// Reads a dict literal, from behind the opening brace on.
    pub fn dict_rest(&mut self) -> (r: Result<Value, ParseError>)
        requires
            old(self).wf(),
        ensures
            final(self).wf(),
            final(self).tokens == old(self).tokens,
            expr_agrees(
                r,
                dict_rest(old(self).toks(), old(self).pos as int),
                old(self).pos as int + 1,
                final(self).pos as int,
                old(self).tokens.len() as int,
            ),
        decreases old(self).tokens.len() - old(self).pos, 23int,
    {
        let entries = match self.dict_elements() {
            Ok(e) => e,
            Err(e) => return Err(e),
        };
        if !self.match_token(TokenKind::RightBrace) {
            return Err(ParseError::UnexpectedToken);
        }
        Ok(Value::Dict(entries))
    }

    /// Reads the elements of an array literal, up to the closing bracket.
    #[verifier::loop_isolation(false)]
    pub fn array_elements(&mut self) -> (r: Result<Vec<Value>, ParseError>)
        requires
            old(self).wf(),
        ensures
            final(self).wf(),
            final(self).tokens == old(self).tokens,
            exprs_agree(
                r,
                array_elements(old(self).toks(), old(self).pos as int),
                old(self).pos as int,
                final(self).pos as int,
                old(self).tokens.len() as int,
            ),
        decreases old(self).tokens.len() - old(self).pos, 22int,
    {
        let ghost t = self.toks();
        let ghost start = self.pos as int;
        let mut elements: Vec<Value> = Vec::new();
        assert(expr_views(elements@) =~= Seq::<ExprView>::empty());
        if self.peek_kind() == TokenKind::RightBracket {
            return Ok(elements);
        }
        loop
            invariant
                self.wf(),
                self.tokens == old(self).tokens,
                old(self).pos <= self.pos,
                array_items(t, start, Seq::empty()) == array_items(
                    t,
                    self.pos as int,
                    expr_views(elements@),
                ),
            decreases self.tokens.len() - self.pos,
        {
            let ghost before = expr_views(elements@);
            let item = match self.expression() {
                Ok(e) => e,
                Err(e) => return Err(e),
            };
            elements.push(item);
            assert(expr_views(elements@) =~= before.push(item@));
            if !self.match_token(TokenKind::Comma) {
                return Ok(elements);
            }
            if self.peek_kind() == TokenKind::RightBracket {
                return Ok(elements);
            }
        }
    }

    /// Reads the entries of a dict literal, up to the closing brace.
    #[verifier::loop_isolation(false)]
    pub fn dict_elements(&mut self) -> (r: Result<Vec<(String, Value)>, ParseError>)
        requires
            old(self).wf(),
        ensures
            final(self).wf(),
            final(self).tokens == old(self).tokens,
            entries_agree(
                r,
                dict_elements(old(self).toks(), old(self).pos as int),
                old(self).pos as int,
                final(self).pos as int,
                old(self).tokens.len() as int,
            ),
        decreases old(self).tokens.len() - old(self).pos, 22int,
    {
        let ghost t = self.toks();
        let ghost start = self.pos as int;
        let mut dict: Vec<(String, Value)> = Vec::new();
        assert(entry_views(dict@) =~= Seq::<(Seq<char>, ExprView)>::empty());
        if self.peek_kind() == TokenKind::RightBrace {
            return Ok(dict);
        }
        loop
            invariant
                self.wf(),
                self.tokens == old(self).tokens,
                old(self).pos <= self.pos,
                dict_items(t, start, Seq::empty()) == dict_items(
                    t,
                    self.pos as int,
                    entry_views(dict@),
                ),
            decreases self.tokens.len() - self.pos,
        {
            let key = self.advance();
            if key.kind != TokenKind::String && key.kind != TokenKind::Identifier && key.kind
                != TokenKind::FormatString {
                return Err(ParseError::UnexpectedToken);
            }
            if !self.match_token(TokenKind::Colon) {
                return Err(ParseError::UnexpectedToken);
            }
            let value = match self.expression() {
                Ok(e) => e,
                Err(e) => return Err(e),
            };
            bind_entry(&mut dict, key.text, value);
            if !self.match_token(TokenKind::Comma) {
                return Ok(dict);
            }
            if self.peek_kind() == TokenKind::RightBrace {
                return Ok(dict);
            }
        }
    }

    /// Reads the arguments of a call, up to the closing parenthesis.
    #[verifier::loop_isolation(false)]
    pub fn arguments(&mut self) -> (r: Result<(Vec<Value>, Vec<(String, Value)>), ParseError>)
        requires
            old(self).wf(),
        ensures
            final(self).wf(),
            final(self).tokens == old(self).tokens,
            arguments_agree(
                r,
                arguments(old(self).toks(), old(self).pos as int),
                old(self).pos as int,
                final(self).pos as int,
                old(self).tokens.len() as int,
            ),
        decreases old(self).tokens.len() - old(self).pos, 22int,
    {
        let ghost t = self.toks();
        let ghost start = self.pos as int;
        let mut args: Vec<Value> = Vec::new();
        let mut kwargs: Vec<(String, Value)> = Vec::new();
        let mut named = false;
        assert(expr_views(args@) =~= Seq::<ExprView>::empty());
        assert(entry_views(kwargs@) =~= Seq::<(Seq<char>, ExprView)>::empty());
        if self.peek_kind() == TokenKind::RightParen {
            return Ok((args, kwargs));
        }
        loop
            invariant
                self.wf(),
                self.tokens == old(self).tokens,
                old(self).pos <= self.pos,
                argument_items(t, start, Seq::empty(), Seq::empty(), false) == argument_items(
                    t,
                    self.pos as int,
                    expr_views(args@),
                    entry_views(kwargs@),
                    named,
                ),
            decreases self.tokens.len() - self.pos,
        {
            let ghost before = expr_views(args@);
            let first = self.peek();
            let saved = self.pos;
            let mut by_name = false;
            if first.kind == TokenKind::Identifier {
                let _ = self.advance();
                if self.match_token(TokenKind::Colon) {
                    by_name = true;
                } else {
                    self.pos = saved;
                }
            }
            if !by_name && named {
                return Err(ParseError::UnexpectedToken);
            }
            let value = match self.expression() {
                Ok(e) => e,
                Err(e) => return Err(e),
            };
            if by_name {
                bind_entry(&mut kwargs, first.text, value);
                named = true;
            } else {
                args.push(value);
                assert(expr_views(args@) =~= before.push(value@));
            }
            if !self.match_token(TokenKind::Comma) {
                return Ok((args, kwargs));
            }
            if self.peek_kind() == TokenKind::RightParen {
                return Ok((args, kwargs));
            }
        }
    }
}

} // verus!
