//! The grammar, as functions from the tokens and a position to what
//! stands there.
//!
//! Each function gives the tree that begins at `pos` and the position
//! behind it, or `None` where the tokens fit no rule. Line breaks between
//! the tokens of an expression do not count; a statement ends with a line
//! break or with the input.

use vstd::prelude::*;
use crate::lexer::{TokenKind, TokenView, plain};
use crate::parser::ast::{BinaryOperator, UnaryOperator, ExprView, StmtView};
use crate::assoc::upsert;

verus! {

/// How many `Newline` tokens stand in a row at `pos`.
pub open spec fn newline_run(t: Seq<TokenView>, pos: int) -> nat
    decreases t.len() - pos,
{
    if 0 <= pos < t.len() && t[pos].kind == TokenKind::Newline {
        1 + newline_run(t, pos + 1)
    } else {
        0
    }
}

/// The position of the first token at or behind `pos` that is no
/// `Newline`.
pub open spec fn skip_newlines(t: Seq<TokenView>, pos: int) -> int {
    pos + newline_run(t, pos)
}

/// The token at `pos`, or `Eof` behind the end.
pub open spec fn peek_raw(t: Seq<TokenView>, pos: int) -> TokenView {
    if 0 <= pos < t.len() {
        t[pos]
    } else {
        plain(TokenKind::Eof)
    }
}

/// The first token at or behind `pos` that is no `Newline`, or `Eof`
/// behind the end.
pub open spec fn peek(t: Seq<TokenView>, pos: int) -> TokenView {
    peek_raw(t, skip_newlines(t, pos))
}

/// The position behind the token that `peek` shows. `Eof` is never passed.
pub open spec fn after(t: Seq<TokenView>, pos: int) -> int {
    if peek(t, pos).kind == TokenKind::Eof {
        skip_newlines(t, pos)
    } else {
        skip_newlines(t, pos) + 1
    }
}

/// What a rule found: the tree, and the position behind it.
pub struct Parsed<T> {
    pub value: T,
    pub end: int,
}

/// The result that holds `value` and ends at `end`.
pub open spec fn found<T>(value: T, end: int) -> Option<Parsed<T>> {
    Some(Parsed { value, end })
}

/// Whether a result lies between the positions `lo` and `hi`.
pub open spec fn within<T>(r: Option<Parsed<T>>, lo: int, hi: int) -> bool {
    r matches Some(x) && lo <= x.end <= hi
}

/// The end of a line at `pos`: the position behind the line breaks, where
/// a `Newline` or `Eof` stands at `pos`.
pub open spec fn end_of_line(t: Seq<TokenView>, pos: int) -> Option<int> {
    let kind = peek_raw(t, pos).kind;
    if kind == TokenKind::Newline || kind == TokenKind::Eof {
        Some(skip_newlines(t, pos))
    } else {
        None
    }
}

/// The binary operator that the token `kind` writes at the precedence
/// level `level`: 0 for `* / %`, 1 for `+ -`, 2 for the comparisons, 3 for
/// `== !=`, 5 for `and`, 6 for `or`. Level 4, membership, has rules of its
/// own.
pub open spec fn level_operator(level: nat, kind: TokenKind) -> Option<BinaryOperator> {
    if level == 0 {
        match kind {
            TokenKind::Star => Some(BinaryOperator::Mul),
            TokenKind::Slash => Some(BinaryOperator::Div),
            TokenKind::Percent => Some(BinaryOperator::Mod),
            _ => None,
        }
    } else if level == 1 {
        match kind {
            TokenKind::Plus => Some(BinaryOperator::Add),
            TokenKind::Minus => Some(BinaryOperator::Sub),
            _ => None,
        }
    } else if level == 2 {
        match kind {
            TokenKind::Lt => Some(BinaryOperator::Lt),
            TokenKind::Le => Some(BinaryOperator::Le),
            TokenKind::Gt => Some(BinaryOperator::Gt),
            TokenKind::Ge => Some(BinaryOperator::Ge),
            _ => None,
        }
    } else if level == 3 {
        match kind {
            TokenKind::Eq => Some(BinaryOperator::Eq),
            TokenKind::Ne => Some(BinaryOperator::Ne),
            _ => None,
        }
    } else if level == 5 {
        match kind {
            TokenKind::And => Some(BinaryOperator::And),
            _ => None,
        }
    } else if level == 6 {
        match kind {
            TokenKind::Or => Some(BinaryOperator::Or),
            _ => None,
        }
    } else {
        None
    }
}

/// The binary operation of `left`, `op` and `right`.
pub open spec fn binary(left: ExprView, op: BinaryOperator, right: ExprView) -> ExprView {
    ExprView::BinaryOp(Box::new(left), op, Box::new(right))
}

/// An expression: the lowest level of precedence, the ternary operator.
pub open spec fn expression(t: Seq<TokenView>, pos: int) -> Option<Parsed<ExprView>>
    decreases t.len() - pos, 20int,
{
    let r = binary_level(t, pos, 6);
    if !within(r, pos, t.len() as int) || peek(t, r.unwrap().end).kind != TokenKind::Question {
        r
    } else {
        let yes = expression(t, after(t, r.unwrap().end));
        if !within(yes, pos, t.len() as int) || peek(t, yes.unwrap().end).kind != TokenKind::Colon {
            None
        } else {
            let no = expression(t, after(t, yes.unwrap().end));
            match no {
                Some(n) => found(ExprView::TernaryOp(Box::new(r.unwrap().value), Box::new(yes.unwrap().value), Box::new(n.value)), n.end),
                None => None,
            }
        }
    }
}

/// One operand of the operators of the level `level`.
pub open spec fn operand(t: Seq<TokenView>, pos: int, level: nat) -> Option<Parsed<ExprView>>
    decreases t.len() - pos, 6 + 2 * level,
{
    if level == 0 {
        unary(t, pos)
    } else {
        binary_level(t, pos, (level - 1) as nat)
    }
}

/// The operations of the precedence level `level`, and of those above it.
/// The operators of one level group from the left. Membership does not
/// chain: one `in` or `not in` at most.
pub open spec fn binary_level(t: Seq<TokenView>, pos: int, level: nat) -> Option<Parsed<ExprView>>
    decreases t.len() - pos, 7 + 2 * level,
{
    let first = operand(t, pos, level);
    if !within(first, pos, t.len() as int) {
        None
    } else if level == 4 {
        membership_tail(t, first.unwrap().end, first.unwrap().value)
    } else {
        binary_tail(t, first.unwrap().end, level, first.unwrap().value)
    }
}

/// What follows the left operand of a membership test. A `not` that no
/// `in` follows is passed over.
pub open spec fn membership_tail(t: Seq<TokenView>, pos: int, left: ExprView) -> Option<Parsed<ExprView>>
    decreases t.len() - pos, 0int,
{
    let kind = peek(t, pos).kind;
    if kind == TokenKind::In {
        match operand(t, after(t, pos), 4) {
            Some(right) => found(binary(left, BinaryOperator::In, right.value), right.end),
            None => None,
        }
    } else if kind == TokenKind::Not {
        let p = after(t, pos);
        if peek(t, p).kind == TokenKind::In {
            match operand(t, after(t, p), 4) {
                Some(right) => found(binary(left, BinaryOperator::NotIn, right.value), right.end),
                None => None,
            }
        } else {
            found(left, p)
        }
    } else {
        found(left, pos)
    }
}

/// What follows the operand `left` at the level `level`: more operators of
/// that level with their operands, or nothing.
pub open spec fn binary_tail(t: Seq<TokenView>, pos: int, level: nat, left: ExprView) -> Option<Parsed<ExprView>>
    decreases t.len() - pos, 0int,
{
    match level_operator(level, peek(t, pos).kind) {
        None => found(left, pos),
        Some(op) => {
            let right = operand(t, after(t, pos), level);
            if !within(right, pos + 1, t.len() as int) {
                None
            } else {
                binary_tail(t, right.unwrap().end, level, binary(left, op, right.unwrap().value))
            }
        },
    }
}

/// The operations with `not` and with the minus sign, and what binds
/// tighter.
pub open spec fn unary(t: Seq<TokenView>, pos: int) -> Option<Parsed<ExprView>>
    decreases t.len() - pos, 5int,
{
    let kind = peek(t, pos).kind;
    if kind == TokenKind::Not || kind == TokenKind::Minus {
        let op = if kind == TokenKind::Not {
            UnaryOperator::Not
        } else {
            UnaryOperator::Minus
        };
        match unary(t, after(t, pos)) {
            Some(inner) => found(ExprView::UnaryOp(op, Box::new(inner.value)), inner.end),
            None => None,
        }
    } else {
        postfix(t, pos)
    }
}

/// A primary expression with the calls, subscripts and method accesses
/// that follow it.
pub open spec fn postfix(t: Seq<TokenView>, pos: int) -> Option<Parsed<ExprView>>
    decreases t.len() - pos, 4int,
{
    let first = primary(t, pos);
    if !within(first, pos, t.len() as int) {
        None
    } else {
        postfix_tail(t, first.unwrap().end, first.unwrap().value)
    }
}

/// The call of `callee` with the arguments given: a function call where
/// `callee` is a name, a method call where it is a method access.
pub open spec fn call_of(
    callee: ExprView,
    args: Seq<ExprView>,
    kwargs: Seq<(Seq<char>, ExprView)>,
) -> Option<ExprView> {
    match callee {
        ExprView::Identifier(name) => Some(ExprView::FunctionCall(name, args, kwargs)),
        ExprView::MethodCall(object, method, _, _) => Some(
            ExprView::MethodCall(object, method, args, kwargs),
        ),
        _ => None,
    }
}

/// What follows the expression `e`: calls, subscripts and method accesses,
/// or nothing.
pub open spec fn postfix_tail(t: Seq<TokenView>, pos: int, e: ExprView) -> Option<Parsed<ExprView>>
    decreases t.len() - pos, 0int,
{
    let kind = peek(t, pos).kind;
    if kind == TokenKind::LeftParen {
        let args = arguments(t, after(t, pos));
        if !within(args, pos + 1, t.len() as int) || peek(t, args.unwrap().end).kind
            != TokenKind::RightParen {
            None
        } else {
            match call_of(e, args.unwrap().value.0, args.unwrap().value.1) {
                Some(call) => postfix_tail(t, after(t, args.unwrap().end), call),
                None => None,
            }
        }
    } else if kind == TokenKind::LeftBracket {
        let index = expression(t, after(t, pos));
        if !within(index, pos + 1, t.len() as int) || peek(t, index.unwrap().end).kind
            != TokenKind::RightBracket {
            None
        } else {
            postfix_tail(
                t,
                after(t, index.unwrap().end),
                ExprView::Subscript(Box::new(e), Box::new(index.unwrap().value)),
            )
        }
    } else if kind == TokenKind::Dot {
        let p = after(t, pos);
        let name = peek(t, p);
        if name.kind == TokenKind::Identifier {
            postfix_tail(
                t,
                after(t, p),
                ExprView::MethodCall(Box::new(e), name.text, Seq::empty(), Seq::empty()),
            )
        } else {
            None
        }
    } else {
        found(e, pos)
    }
}

/// A literal, a name, an expression in parentheses, an array or a dict.
pub open spec fn primary(t: Seq<TokenView>, pos: int) -> Option<Parsed<ExprView>>
    decreases t.len() - pos, 3int,
{
    let token = peek(t, pos);
    let next = after(t, pos);
    match token.kind {
        TokenKind::String => found(ExprView::String(token.text), next),
        TokenKind::FormatString => found(ExprView::FormatString(token.text), next),
        TokenKind::Integer => found(ExprView::Integer(token.number), next),
        TokenKind::True => found(ExprView::Boolean(true), next),
        TokenKind::False => found(ExprView::Boolean(false), next),
        TokenKind::Identifier => found(ExprView::Identifier(token.text), next),
        TokenKind::LeftParen => group_rest(t, next),
        TokenKind::LeftBracket => array_rest(t, next),
        TokenKind::LeftBrace => dict_rest(t, next),
        _ => None,
    }
}

/// An expression in parentheses, from behind the opening parenthesis on.
pub open spec fn group_rest(t: Seq<TokenView>, pos: int) -> Option<Parsed<ExprView>>
    decreases t.len() - pos, 23int,
{
    let inner = expression(t, pos);
    if !within(inner, pos, t.len() as int) || peek(t, inner.unwrap().end).kind
        != TokenKind::RightParen {
        None
    } else {
        found(inner.unwrap().value, after(t, inner.unwrap().end))
    }
}

/// An array literal, from behind the opening bracket on.
pub open spec fn array_rest(t: Seq<TokenView>, pos: int) -> Option<Parsed<ExprView>>
    decreases t.len() - pos, 23int,
{
    let items = array_elements(t, pos);
    if !within(items, pos, t.len() as int) || peek(t, items.unwrap().end).kind
        != TokenKind::RightBracket {
        None
    } else {
        found(ExprView::Array(items.unwrap().value), after(t, items.unwrap().end))
    }
}

/// A dict literal, from behind the opening brace on.
pub open spec fn dict_rest(t: Seq<TokenView>, pos: int) -> Option<Parsed<ExprView>>
    decreases t.len() - pos, 23int,
{
    let entries = dict_elements(t, pos);
    if !within(entries, pos, t.len() as int) || peek(t, entries.unwrap().end).kind
        != TokenKind::RightBrace {
        None
    } else {
        found(ExprView::Dict(entries.unwrap().value), after(t, entries.unwrap().end))
    }
}

/// The elements of an array literal, up to the closing bracket. A comma
/// may follow the last element.
pub open spec fn array_elements(t: Seq<TokenView>, pos: int) -> Option<Parsed<Seq<ExprView>>>
    decreases t.len() - pos, 22int,
{
    if peek(t, pos).kind == TokenKind::RightBracket {
        found(Seq::empty(), pos)
    } else {
        array_items(t, pos, Seq::empty())
    }
}

/// The elements of an array literal from `pos` on, behind those of `acc`.
pub open spec fn array_items(t: Seq<TokenView>, pos: int, acc: Seq<ExprView>) -> Option<Parsed<Seq<ExprView>>>
    decreases t.len() - pos, 21int,
{
    let item = expression(t, pos);
    if !within(item, pos, t.len() as int) {
        None
    } else {
        let items = acc.push(item.unwrap().value);
        let p = item.unwrap().end;
        if peek(t, p).kind != TokenKind::Comma {
            found(items, p)
        } else if peek(t, after(t, p)).kind == TokenKind::RightBracket {
            found(items, after(t, p))
        } else {
            array_items(t, after(t, p), items)
        }
    }
}

/// The entries of a dict literal, up to the closing brace. A key is a
/// string, a format string or a bare name; a key written twice keeps its
/// place and takes the later value. A comma may follow the last entry.
pub open spec fn dict_elements(t: Seq<TokenView>, pos: int) -> Option<Parsed<Seq<(Seq<char>, ExprView)>>>
    decreases t.len() - pos, 22int,
{
    if peek(t, pos).kind == TokenKind::RightBrace {
        found(Seq::empty(), pos)
    } else {
        dict_items(t, pos, Seq::empty())
    }
}

/// The entries of a dict literal from `pos` on, added to those of `acc`.
pub open spec fn dict_items(
    t: Seq<TokenView>,
    pos: int,
    acc: Seq<(Seq<char>, ExprView)>,
) -> Option<Parsed<Seq<(Seq<char>, ExprView)>>>
    decreases t.len() - pos, 21int,
{
    let key = peek(t, pos);
    if key.kind != TokenKind::String && key.kind != TokenKind::Identifier && key.kind
        != TokenKind::FormatString {
        None
    } else if peek(t, after(t, pos)).kind != TokenKind::Colon {
        None
    } else {
        let value = expression(t, after(t, after(t, pos)));
        if !within(value, pos + 2, t.len() as int) {
            None
        } else {
            let entries = upsert(acc, key.text, value.unwrap().value);
            let p = value.unwrap().end;
            if peek(t, p).kind != TokenKind::Comma {
                found(entries, p)
            } else if peek(t, after(t, p)).kind == TokenKind::RightBrace {
                found(entries, after(t, p))
            } else {
                dict_items(t, after(t, p), entries)
            }
        }
    }
}

/// The arguments of a call, up to the closing parenthesis: those by
/// position, then those by name. A comma may follow the last argument.
pub open spec fn arguments(t: Seq<TokenView>, pos: int) -> Option<Parsed<(Seq<ExprView>, Seq<(Seq<char>, ExprView)>)>>
    decreases t.len() - pos, 22int,
{
    if peek(t, pos).kind == TokenKind::RightParen {
        found((Seq::empty(), Seq::empty()), pos)
    } else {
        argument_items(t, pos, Seq::empty(), Seq::empty(), false)
    }
}

/// The arguments of a call from `pos` on, behind those of `args` and
/// `kwargs`. `named` tells that an argument by name has been read, so that
/// none by position may follow.
pub open spec fn argument_items(
    t: Seq<TokenView>,
    pos: int,
    args: Seq<ExprView>,
    kwargs: Seq<(Seq<char>, ExprView)>,
    named: bool,
) -> Option<Parsed<(Seq<ExprView>, Seq<(Seq<char>, ExprView)>)>>
    decreases t.len() - pos, 21int,
{
    let first = peek(t, pos);
    let by_name = first.kind == TokenKind::Identifier && peek(t, after(t, pos)).kind
        == TokenKind::Colon;
    if !by_name && named {
        None
    } else {
        let value = if by_name {
            expression(t, after(t, after(t, pos)))
        } else {
            expression(t, pos)
        };
        if !within(value, if by_name { pos + 2 } else { pos }, t.len() as int) {
            None
        } else {
            let args2 = if by_name {
                args
            } else {
                args.push(value.unwrap().value)
            };
            let kwargs2 = if by_name {
                upsert(kwargs, first.text, value.unwrap().value)
            } else {
                kwargs
            };
            let p = value.unwrap().end;
            if peek(t, p).kind != TokenKind::Comma {
                found((args2, kwargs2), p)
            } else if peek(t, after(t, p)).kind == TokenKind::RightParen {
                found((args2, kwargs2), after(t, p))
            } else {
                argument_items(t, after(t, p), args2, kwargs2, by_name || named)
            }
        }
    }
}

/// Where a row of statements ends.
#[derive(Clone, Copy, Debug, PartialEq, Eq, Structural)]
pub enum BlockEnd {
    /// With the input.
    File,
    /// With `elif`, `else` or `endif`.
    Branch,
    /// With `endif`.
    LastBranch,
    /// With `endforeach`.
    Loop,
}

/// Whether the token `kind` ends a row of statements of the kind `end`.
pub open spec fn ends_block(end: BlockEnd, kind: TokenKind) -> bool {
    match end {
        BlockEnd::File => kind == TokenKind::Eof,
        BlockEnd::Branch => kind == TokenKind::Elif || kind == TokenKind::Else || kind
            == TokenKind::Endif,
        BlockEnd::LastBranch => kind == TokenKind::Endif,
        BlockEnd::Loop => kind == TokenKind::Endforeach,
    }
}

/// The statements from `pos` up to the token that ends the block, which
/// stays unread, behind those of `acc`.
pub open spec fn block(t: Seq<TokenView>, pos: int, end: BlockEnd, acc: Seq<StmtView>) -> Option<Parsed<Seq<StmtView>>>
    decreases t.len() - pos, 24int,
{
    if ends_block(end, peek(t, pos).kind) {
        found(acc, pos)
    } else {
        let s = statement(t, pos);
        if !within(s, pos + 1, t.len() as int) {
            None
        } else {
            block(t, s.unwrap().end, end, acc.push(s.unwrap().value))
        }
    }
}

/// One statement.
pub open spec fn statement(t: Seq<TokenView>, pos: int) -> Option<Parsed<StmtView>>
    decreases t.len() - pos, 23int,
{
    let kind = peek(t, pos).kind;
    if kind == TokenKind::If {
        if_statement(t, pos)
    } else if kind == TokenKind::Foreach {
        foreach_statement(t, pos)
    } else if kind == TokenKind::Break || kind == TokenKind::Continue {
        match end_of_line(t, after(t, pos)) {
            Some(p) => found(if kind == TokenKind::Break {
                        StmtView::Break
                    } else {
                        StmtView::Continue
                    }, p),
            None => None,
        }
    } else {
        let e = expression(t, pos);
        if !within(e, pos, t.len() as int) {
            None
        } else {
            simple_statement(t, e.unwrap().end, e.unwrap().value)
        }
    }
}

/// The statement that begins with the expression `e`, which ends at
/// `pos`: an assignment where `e` is a name and `=` or `+=` follows, else
/// the expression by itself.
pub open spec fn simple_statement(t: Seq<TokenView>, pos: int, e: ExprView) -> Option<Parsed<StmtView>>
    decreases t.len() - pos, 0int,
{
    let kind = peek(t, pos).kind;
    if e is Identifier && (kind == TokenKind::Assign || kind == TokenKind::AddAssign) {
        let value = expression(t, after(t, pos));
        if !within(value, pos + 1, t.len() as int) {
            None
        } else {
            match end_of_line(t, value.unwrap().end) {
                Some(p) => found(if kind == TokenKind::Assign {
                            StmtView::Assignment(e->Identifier_0, value.unwrap().value)
                        } else {
                            StmtView::AddAssignment(e->Identifier_0, value.unwrap().value)
                        }, p),
                None => None,
            }
        }
    } else {
        match end_of_line(t, pos) {
            Some(p) => found(StmtView::Expression(e), p),
            None => None,
        }
    }
}

/// A condition with its line end and the statements of its branch.
pub open spec fn guarded_block(t: Seq<TokenView>, pos: int) -> Option<Parsed<(ExprView, Seq<StmtView>)>>
    decreases t.len() - pos, 25int,
{
    let cond = expression(t, pos);
    if !within(cond, pos, t.len() as int) {
        None
    } else {
        match end_of_line(t, cond.unwrap().end) {
            None => None,
            Some(p) => if !(cond.unwrap().end <= p <= t.len()) {
                None
            } else {
                match block(t, p, BlockEnd::Branch, Seq::empty()) {
                    Some(body) => found((cond.unwrap().value, body.value), body.end),
                    None => None,
                }
            },
        }
    }
}

/// The `elif` branches from `pos` on, behind those of `acc`.
pub open spec fn elif_branches(
    t: Seq<TokenView>,
    pos: int,
    acc: Seq<(ExprView, Seq<StmtView>)>,
) -> Option<Parsed<Seq<(ExprView, Seq<StmtView>)>>>
    decreases t.len() - pos, 0int,
{
    if peek(t, pos).kind != TokenKind::Elif {
        found(acc, pos)
    } else {
        let branch = guarded_block(t, after(t, pos));
        if !within(branch, pos + 1, t.len() as int) {
            None
        } else {
            elif_branches(t, branch.unwrap().end, acc.push(branch.unwrap().value))
        }
    }
}

/// The `else` branch at `pos`, if one stands there.
pub open spec fn else_branch(t: Seq<TokenView>, pos: int) -> Option<Parsed<Option<Seq<StmtView>>>>
    decreases t.len() - pos, 0int,
{
    if peek(t, pos).kind != TokenKind::Else {
        found(None, pos)
    } else {
        match end_of_line(t, after(t, pos)) {
            None => None,
            Some(p) => if !(pos < p <= t.len()) {
                None
            } else {
                match block(t, p, BlockEnd::LastBranch, Seq::empty()) {
                    Some(body) => found(Some(body.value), body.end),
                    None => None,
                }
            },
        }
    }
}

/// A conditional, from `if` to `endif`.
pub open spec fn if_statement(t: Seq<TokenView>, pos: int) -> Option<Parsed<StmtView>>
    decreases t.len() - pos, 22int,
{
    if peek(t, pos).kind != TokenKind::If {
        None
    } else {
        let first = guarded_block(t, after(t, pos));
        if !within(first, pos + 1, t.len() as int) {
            None
        } else {
            let elifs = elif_branches(t, first.unwrap().end, Seq::empty());
            if !within(elifs, pos + 1, t.len() as int) {
                None
            } else {
                let last = else_branch(t, elifs.unwrap().end);
                if !within(last, pos + 1, t.len() as int) || peek(t, last.unwrap().end).kind
                    != TokenKind::Endif {
                    None
                } else {
                    found(StmtView::If(first.unwrap().value.0, first.unwrap().value.1, elifs.unwrap().value, last.unwrap().value), after(t, last.unwrap().end))
                }
            }
        }
    }
}

/// A loop, from `foreach` to `endforeach`.
pub open spec fn foreach_statement(t: Seq<TokenView>, pos: int) -> Option<Parsed<StmtView>>
    decreases t.len() - pos, 22int,
{
    let name_at = after(t, pos);
    let name = peek(t, name_at);
    let colon_at = after(t, name_at);
    if peek(t, pos).kind != TokenKind::Foreach || name.kind != TokenKind::Identifier || peek(
        t,
        colon_at,
    ).kind != TokenKind::Colon {
        None
    } else {
        let iterable = expression(t, after(t, colon_at));
        if !within(iterable, pos + 3, t.len() as int) {
            None
        } else {
            match end_of_line(t, iterable.unwrap().end) {
                None => None,
                Some(p) => if !(pos < p <= t.len()) {
                    None
                } else {
                    let body = block(t, p, BlockEnd::Loop, Seq::empty());
                    if !within(body, pos + 1, t.len() as int) || peek(t, body.unwrap().end).kind
                        != TokenKind::Endforeach {
                        None
                    } else {
                        found(StmtView::Foreach(name.text, iterable.unwrap().value, body.unwrap().value), after(t, body.unwrap().end))
                    }
                },
            }
        }
    }
}

/// The statements of a whole input.
pub open spec fn program(t: Seq<TokenView>) -> Option<Seq<StmtView>> {
    match block(t, 0, BlockEnd::File, Seq::empty()) {
        Some(r) => Some(r.value),
        None => None,
    }
}

} // verus!
