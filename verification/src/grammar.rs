//! The grammar as a mathematical function from a row of tokens and a
//! position to a syntax tree and the position after it, or to a message.
//!
//! ```text
//! program        := statement_list
//! statement_list := statement*                (line ends skipped in between)
//! statement      := assignment | function_call | function_def | while | for | if
//!                 | 'return' expression | expression
//! assignment     := NAME '=' statement
//! expression     := equality
//! equality       := comparison (('=='|'!=') comparison)*
//! comparison     := term (('>'|'>='|'<'|'<=') term)*
//! term           := factor (('+'|'-') factor)*
//! factor         := unary (('*'|'/') unary)*
//! unary          := ('+'|'-') unary | primary
//! primary        := INT | FLOAT | STRING | BOOL | NAME | '(' expression ')'
//! ```
//!
//! The four tiers of binary operators share one definition, `tier`, indexed
//! by a level: 0 for `*` and `/` up to 3 for `==` and `!=`.
//!
//! Every successful parse moves forward within the tokens. The definitions
//! say so where one parse continues after another (`forward`), which lets
//! them be seen to end; the laws at the end of this file prove that the
//! condition holds wherever a parse gets to it.

use vstd::prelude::*;
use crate::expressions::SpecExpr;
use crate::token::{kind_text, token_text, SpecToken, TokenKind};

verus! {

/// A parsed value and the position after it, or a message.
pub type ParseOutcome<T> = Result<(T, int), Seq<char>>;

/// Whether a token of kind `kind` stands at `pos`.
pub open spec fn has_kind(ts: Seq<SpecToken>, pos: int, kind: TokenKind) -> bool {
    0 <= pos < ts.len() && ts[pos].kind == kind
}

/// Whether a parse that began at `pos` and ended at `next` moved forward
/// and stayed within the tokens.
pub open spec fn forward(ts: Seq<SpecToken>, pos: int, next: int) -> bool {
    0 <= pos < next <= ts.len()
}

/// What is wrong when a token of kind `kind` is expected at `pos`, if
/// anything: another token stands there, or none.
pub open spec fn eat_error(ts: Seq<SpecToken>, pos: int, kind: TokenKind) -> Option<Seq<char>> {
    if 0 <= pos < ts.len() {
        if ts[pos].kind == kind {
            None
        } else {
            Some("exprected token "@ + kind_text(kind) + ", find token "@ + token_text(ts[pos]))
        }
    } else {
        Some("exptect token "@ + kind_text(kind) + ", found no token"@)
    }
}

/// How many line ends stand in a row from `pos` on.
pub open spec fn new_lines(ts: Seq<SpecToken>, pos: int) -> nat
    decreases ts.len() - pos,
{
    if has_kind(ts, pos, TokenKind::NewLine) {
        1 + new_lines(ts, pos + 1)
    } else {
        0
    }
}

/// A run of line ends stays within the tokens and ends before a token that
/// is none.
pub proof fn lemma_new_lines_bound(ts: Seq<SpecToken>, pos: int)
    requires
        0 <= pos <= ts.len(),
    ensures
        pos + new_lines(ts, pos) <= ts.len(),
        !has_kind(ts, pos + new_lines(ts, pos), TokenKind::NewLine),
    decreases ts.len() - pos,
{
    if has_kind(ts, pos, TokenKind::NewLine) {
        lemma_new_lines_bound(ts, pos + 1);
    }
}

/// A name at `pos`.
pub open spec fn parse_name(ts: Seq<SpecToken>, pos: int) -> ParseOutcome<Seq<char>> {
    if has_kind(ts, pos, TokenKind::Name) {
        Ok((ts[pos].text, pos + 1))
    } else {
        Err("expected name token"@)
    }
}

/// Whether `kind` is an operator of the tier `level`.
pub open spec fn is_tier_operator(level: nat, kind: TokenKind) -> bool {
    if level == 0 {
        kind == TokenKind::Multi || kind == TokenKind::Devide
    } else if level == 1 {
        kind == TokenKind::Plus || kind == TokenKind::Minus
    } else if level == 2 {
        kind == TokenKind::More || kind == TokenKind::MoreEq || kind == TokenKind::Less || kind
            == TokenKind::LessEq
    } else {
        kind == TokenKind::Eq || kind == TokenKind::NotEq
    }
}

/// `primary`: a literal, a name, or an expression in round brackets. A line
/// end before it is passed over.
pub open spec fn primary(ts: Seq<SpecToken>, pos: int) -> ParseOutcome<SpecExpr>
    decreases ts.len() - pos, 0nat,
{
    if 0 <= pos < ts.len() {
        let t = ts[pos];
        match t.kind {
            TokenKind::IntLiteral => Ok((SpecExpr::IntLiteral { i: t.number }, pos + 1)),
            TokenKind::FloatLiteral => Ok((SpecExpr::FloatLiteral { f: t.text }, pos + 1)),
            TokenKind::StringLiteral => Ok((SpecExpr::StringLiteral { s: t.text }, pos + 1)),
            TokenKind::Name => Ok((SpecExpr::Name { name: t.text }, pos + 1)),
            TokenKind::True => Ok((SpecExpr::BoolLiteral { b: true }, pos + 1)),
            TokenKind::False => Ok((SpecExpr::BoolLiteral { b: false }, pos + 1)),
            TokenKind::OpenBracket => match tier(ts, pos + 1, 3) {
                Err(message) => Err(message),
                Ok((inner, next)) => match eat_error(ts, next, TokenKind::CloseBracket) {
                    Some(message) => Err(message),
                    None => Ok((inner, next + 1)),
                },
            },
            TokenKind::NewLine => primary(ts, pos + 1),
            _ => Err("Not valid factor "@ + token_text(t)),
        }
    } else {
        Err("no token for factor"@)
    }
}

/// `unary`: any number of signs before a primary.
pub open spec fn unary(ts: Seq<SpecToken>, pos: int) -> ParseOutcome<SpecExpr>
    decreases ts.len() - pos, 1nat,
{
    if has_kind(ts, pos, TokenKind::Plus) || has_kind(ts, pos, TokenKind::Minus) {
        match unary(ts, pos + 1) {
            Err(message) => Err(message),
            Ok((operand, next)) => Ok(
                (SpecExpr::Unary { op: ts[pos], expr: Box::new(operand) }, next),
            ),
        }
    } else {
        primary(ts, pos)
    }
}

/// What a tier's operators stand between: the next tier down, and `unary`
/// under the lowest.
pub open spec fn operand(ts: Seq<SpecToken>, pos: int, level: nat) -> ParseOutcome<SpecExpr>
    decreases ts.len() - pos, 2 + 2 * level,
{
    if level == 0 {
        unary(ts, pos)
    } else {
        tier(ts, pos, (level - 1) as nat)
    }
}

/// One tier of binary operators: an operand, then operators of the tier with
/// an operand each, grouped to the left.
pub open spec fn tier(ts: Seq<SpecToken>, pos: int, level: nat) -> ParseOutcome<SpecExpr>
    decreases ts.len() - pos, 3 + 2 * level,
{
    match operand(ts, pos, level) {
        Err(message) => Err(message),
        Ok((left, next)) => if forward(ts, pos, next) {
            tier_rest(ts, next, level, left)
        } else {
            Ok((left, next))
        },
    }
}

/// The rest of a tier after the operand `left`.
pub open spec fn tier_rest(ts: Seq<SpecToken>, pos: int, level: nat, left: SpecExpr)
    -> ParseOutcome<SpecExpr>
    decreases ts.len() - pos, 0nat,
{
    if 0 <= pos < ts.len() && is_tier_operator(level, ts[pos].kind) {
        match operand(ts, pos + 1, level) {
            Err(message) => Err(message),
            Ok((right, next)) => {
                let joined = SpecExpr::Binary {
                    op: ts[pos],
                    left: Box::new(left),
                    right: Box::new(right),
                };
                if forward(ts, pos, next) {
                    tier_rest(ts, next, level, joined)
                } else {
                    Ok((joined, next))
                }
            },
        }
    } else {
        Ok((left, pos))
    }
}

/// `expression`: the tier that binds least.
pub open spec fn expression(ts: Seq<SpecToken>, pos: int) -> ParseOutcome<SpecExpr> {
    tier(ts, pos, 3)
}

/// The parameter names of a function definition: `(`, then names and commas
/// in any arrangement, then `)`.
pub open spec fn def_args(ts: Seq<SpecToken>, pos: int) -> ParseOutcome<Seq<Seq<char>>> {
    match eat_error(ts, pos, TokenKind::OpenBracket) {
        Some(message) => Err(message),
        None => def_args_rest(ts, pos + 1, Seq::empty()),
    }
}

/// The parameter names from `pos` on, after `names`.
pub open spec fn def_args_rest(ts: Seq<SpecToken>, pos: int, names: Seq<Seq<char>>)
    -> ParseOutcome<Seq<Seq<char>>>
    decreases ts.len() - pos,
{
    if has_kind(ts, pos, TokenKind::Comma) {
        def_args_rest(ts, pos + 1, names)
    } else if has_kind(ts, pos, TokenKind::Name) {
        def_args_rest(ts, pos + 1, names.push(ts[pos].text))
    } else if 0 <= pos < ts.len() && ts[pos].kind != TokenKind::CloseBracket {
        Err("Token "@ + token_text(ts[pos]) + " not supported in function def args"@)
    } else {
        match eat_error(ts, pos, TokenKind::CloseBracket) {
            Some(message) => Err(message),
            None => Ok((names, pos + 1)),
        }
    }
}

/// `statement`. A name followed by `=` starts an assignment and a name
/// followed by `(` a call; a line end before a statement is passed over;
/// `return` is followed by an expression, which is the statement.
pub open spec fn statement(ts: Seq<SpecToken>, pos: int) -> ParseOutcome<SpecExpr>
    decreases ts.len() - pos, 5nat,
{
    if 0 <= pos < ts.len() {
        let kind = ts[pos].kind;
        if kind == TokenKind::Name && has_kind(ts, pos + 1, TokenKind::Assignment) {
            assignment_statement(ts, pos)
        } else if kind == TokenKind::Name && has_kind(ts, pos + 1, TokenKind::OpenBracket) {
            function_call_statement(ts, pos)
        } else if kind == TokenKind::Fn {
            function_def_statement(ts, pos)
        } else if kind == TokenKind::While {
            while_statement(ts, pos)
        } else if kind == TokenKind::For {
            for_statement(ts, pos)
        } else if kind == TokenKind::If {
            if_statement(ts, pos)
        } else if kind == TokenKind::NewLine {
            statement(ts, pos + 1)
        } else if kind == TokenKind::Return {
            expression(ts, pos + 1)
        } else {
            expression(ts, pos)
        }
    } else {
        Err("no token for statement"@)
    }
}

/// `NAME '=' statement`.
pub open spec fn assignment_statement(ts: Seq<SpecToken>, pos: int) -> ParseOutcome<SpecExpr>
    decreases ts.len() - pos, 4nat,
{
    if 0 <= pos < ts.len() {
        if ts[pos].kind == TokenKind::Name {
            match eat_error(ts, pos + 1, TokenKind::Assignment) {
                Some(message) => Err(message),
                None => match statement(ts, pos + 2) {
                    Err(message) => Err(message),
                    Ok((value, next)) => Ok(
                        (SpecExpr::Assignment { name: ts[pos].text, value: Box::new(value) }, next),
                    ),
                },
            }
        } else {
            Err("expected 'name' token in assignment statement"@)
        }
    } else {
        Err("no token in assignment statement"@)
    }
}

/// `NAME '(' arguments ')'`.
pub open spec fn function_call_statement(ts: Seq<SpecToken>, pos: int) -> ParseOutcome<SpecExpr>
    decreases ts.len() - pos, 4nat,
{
    match parse_name(ts, pos) {
        Err(message) => Err(message),
        Ok((name, after_name)) => match call_args(ts, after_name) {
            Err(message) => Err(message),
            Ok((args, next)) => Ok((SpecExpr::FunctionCall { name, args }, next)),
        },
    }
}

/// The arguments of a call: `(`, then statements and commas in any
/// arrangement, then `)`.
pub open spec fn call_args(ts: Seq<SpecToken>, pos: int) -> ParseOutcome<Seq<SpecExpr>>
    decreases ts.len() - pos, 3nat,
{
    match eat_error(ts, pos, TokenKind::OpenBracket) {
        Some(message) => Err(message),
        None => call_args_rest(ts, pos + 1, Seq::empty()),
    }
}

/// The arguments from `pos` on, after `args`.
pub open spec fn call_args_rest(ts: Seq<SpecToken>, pos: int, args: Seq<SpecExpr>)
    -> ParseOutcome<Seq<SpecExpr>>
    decreases ts.len() - pos, 9nat,
{
    if has_kind(ts, pos, TokenKind::Comma) {
        call_args_rest(ts, pos + 1, args)
    } else if 0 <= pos < ts.len() && ts[pos].kind != TokenKind::CloseBracket {
        match statement(ts, pos) {
            Err(message) => Err(message),
            Ok((arg, next)) => if forward(ts, pos, next) {
                call_args_rest(ts, next, args.push(arg))
            } else {
                Ok((args.push(arg), next))
            },
        }
    } else {
        match eat_error(ts, pos, TokenKind::CloseBracket) {
            Some(message) => Err(message),
            None => Ok((args, pos + 1)),
        }
    }
}

/// A block: `{`, statements with line ends around them, `}`.
pub open spec fn block(ts: Seq<SpecToken>, pos: int) -> ParseOutcome<Seq<SpecExpr>>
    decreases ts.len() - pos, 3nat,
{
    match eat_error(ts, pos, TokenKind::OpenCurlyBracket) {
        Some(message) => Err(message),
        None => {
            proof {
                lemma_new_lines_bound(ts, pos + 1);
            }
            block_rest(ts, pos + 1 + new_lines(ts, pos + 1), Seq::empty())
        },
    }
}

/// The statements of a block from `pos` on, after `statements`.
pub open spec fn block_rest(ts: Seq<SpecToken>, pos: int, statements: Seq<SpecExpr>)
    -> ParseOutcome<Seq<SpecExpr>>
    decreases ts.len() - pos, 9nat,
{
    if has_kind(ts, pos, TokenKind::CloseCurlyBraket) {
        Ok((statements, pos + 1))
    } else {
        match statement(ts, pos) {
            Err(message) => Err(message),
            Ok((found, next)) => if forward(ts, pos, next) {
                proof {
                    lemma_new_lines_bound(ts, next);
                }
                block_rest(ts, next + new_lines(ts, next), statements.push(found))
            } else {
                Ok((statements.push(found), next))
            },
        }
    }
}

/// `'fn' NAME parameters block`.
pub open spec fn function_def_statement(ts: Seq<SpecToken>, pos: int) -> ParseOutcome<SpecExpr>
    decreases ts.len() - pos, 4nat,
{
    match eat_error(ts, pos, TokenKind::Fn) {
        Some(message) => Err(message),
        None => match parse_name(ts, pos + 1) {
            Err(message) => Err(message),
            Ok((name, after_name)) => match def_args(ts, after_name) {
                Err(message) => Err(message),
                Ok((args, after_args)) => if forward(ts, pos, after_args) {
                    match block(ts, after_args) {
                        Err(message) => Err(message),
                        Ok((body, next)) => Ok((SpecExpr::FunctionDef { name, args, body }, next)),
                    }
                } else {
                    Err(Seq::empty())
                },
            },
        },
    }
}

/// `'while' expression block`.
pub open spec fn while_statement(ts: Seq<SpecToken>, pos: int) -> ParseOutcome<SpecExpr>
    decreases ts.len() - pos, 4nat,
{
    match eat_error(ts, pos, TokenKind::While) {
        Some(message) => Err(message),
        None => match expression(ts, pos + 1) {
            Err(message) => Err(message),
            Ok((condition, after_condition)) => if forward(ts, pos, after_condition) {
                match block(ts, after_condition) {
                    Err(message) => Err(message),
                    Ok((body, next)) => Ok(
                        (
                            SpecExpr::While {
                                while_expr: Box::new(condition),
                                body_exprs: body,
                            },
                            next,
                        ),
                    ),
                }
            } else {
                Err(Seq::empty())
            },
        },
    }
}

/// The head of a `for` statement up to its second bound:
/// `'for' NAME 'in' '[' expression ',' expression ']'`.
pub open spec fn for_head(ts: Seq<SpecToken>, pos: int) -> ParseOutcome<
    (Seq<char>, SpecExpr, SpecExpr),
> {
    match eat_error(ts, pos, TokenKind::For) {
        Some(message) => Err(message),
        None => match parse_name(ts, pos + 1) {
            Err(message) => Err(message),
            Ok((name, after_name)) => match eat_error(ts, after_name, TokenKind::In) {
                Some(message) => Err(message),
                None => match eat_error(ts, after_name + 1, TokenKind::OpenSquareBracket) {
                    Some(message) => Err(message),
                    None => match expression(ts, after_name + 2) {
                        Err(message) => Err(message),
                        Ok((low, after_low)) => match eat_error(ts, after_low, TokenKind::Comma) {
                            Some(message) => Err(message),
                            None => match expression(ts, after_low + 1) {
                                Err(message) => Err(message),
                                Ok((high, after_high)) => match eat_error(
                                    ts,
                                    after_high,
                                    TokenKind::CloseSquareBracket,
                                ) {
                                    Some(message) => Err(message),
                                    None => Ok(((name, low, high), after_high + 1)),
                                },
                            },
                        },
                    },
                },
            },
        },
    }
}

/// `'for' NAME 'in' '[' expression ',' expression ']' block`.
pub open spec fn for_statement(ts: Seq<SpecToken>, pos: int) -> ParseOutcome<SpecExpr>
    decreases ts.len() - pos, 4nat,
{
    match for_head(ts, pos) {
        Err(message) => Err(message),
        Ok((head, after_head)) => if forward(ts, pos, after_head) {
            match block(ts, after_head) {
                Err(message) => Err(message),
                Ok((body, next)) => Ok(
                    (
                        SpecExpr::For {
                            var_name: head.0,
                            l_bound: Box::new(head.1),
                            r_bound: Box::new(head.2),
                            body_exprs: body,
                        },
                        next,
                    ),
                ),
            }
        } else {
            Err(Seq::empty())
        },
    }
}

/// `'if' expression block ('else' block)?`.
pub open spec fn if_statement(ts: Seq<SpecToken>, pos: int) -> ParseOutcome<SpecExpr>
    decreases ts.len() - pos, 4nat,
{
    match eat_error(ts, pos, TokenKind::If) {
        Some(message) => Err(message),
        None => match expression(ts, pos + 1) {
            Err(message) => Err(message),
            Ok((condition, after_condition)) => if forward(ts, pos, after_condition) {
                match block(ts, after_condition) {
                    Err(message) => Err(message),
                    Ok((true_branch, after_true)) => if has_kind(ts, after_true, TokenKind::Else)
                        && forward(ts, pos, after_true) {
                        match block(ts, after_true + 1) {
                            Err(message) => Err(message),
                            Ok((false_branch, next)) => Ok(
                                (
                                    SpecExpr::If {
                                        if_expr: Box::new(condition),
                                        true_expression: true_branch,
                                        false_expression: false_branch,
                                    },
                                    next,
                                ),
                            ),
                        }
                    } else {
                        Ok(
                            (
                                SpecExpr::If {
                                    if_expr: Box::new(condition),
                                    true_expression: true_branch,
                                    false_expression: Seq::empty(),
                                },
                                after_true,
                            ),
                        )
                    },
                }
            } else {
                Err(Seq::empty())
            },
        },
    }
}

/// The statements from `pos` to the end of the tokens, after `statements`.
pub open spec fn statement_list(ts: Seq<SpecToken>, pos: int, statements: Seq<SpecExpr>)
    -> ParseOutcome<Seq<SpecExpr>>
    decreases ts.len() - pos, 9nat,
{
    if 0 <= pos < ts.len() {
        if ts[pos].kind == TokenKind::NewLine {
            statement_list(ts, pos + 1, statements)
        } else {
            match statement(ts, pos) {
                Err(message) => Err(message),
                Ok((found, next)) => if forward(ts, pos, next) {
                    statement_list(ts, next, statements.push(found))
                } else {
                    Ok((statements.push(found), next))
                },
            }
        }
    } else {
        Ok((statements, pos))
    }
}

/// `program`: the statements from `pos` to the end, as one statement list.
pub open spec fn program(ts: Seq<SpecToken>, pos: int) -> ParseOutcome<SpecExpr> {
    match statement_list(ts, pos, Seq::empty()) {
        Err(message) => Err(message),
        Ok((statements, next)) => Ok(
            (SpecExpr::StatementList { statement_list: statements }, next),
        ),
    }
}

/// That a successful outcome of a parse from `pos` moved forward and stayed
/// within the tokens.
pub open spec fn moves_forward<T>(ts: Seq<SpecToken>, pos: int, outcome: ParseOutcome<T>) -> bool {
    outcome matches Ok((_, next)) ==> forward(ts, pos, next)
}

/// That a successful outcome of a parse from `pos` did not move backward
/// and stayed within the tokens.
pub open spec fn stays_within<T>(ts: Seq<SpecToken>, pos: int, outcome: ParseOutcome<T>) -> bool {
    outcome matches Ok((_, next)) ==> pos <= next <= ts.len()
}

/// A primary that parses takes at least one token.
pub proof fn lemma_primary_moves_forward(ts: Seq<SpecToken>, pos: int)
    requires
        0 <= pos,
    ensures
        moves_forward(ts, pos, primary(ts, pos)),
    decreases ts.len() - pos, 0nat,
{
    if 0 <= pos < ts.len() {
        if ts[pos].kind == TokenKind::OpenBracket {
            lemma_tier_moves_forward(ts, pos + 1, 3);
        } else if ts[pos].kind == TokenKind::NewLine {
            lemma_primary_moves_forward(ts, pos + 1);
        }
    }
}

/// A unary expression that parses takes at least one token.
pub proof fn lemma_unary_moves_forward(ts: Seq<SpecToken>, pos: int)
    requires
        0 <= pos,
    ensures
        moves_forward(ts, pos, unary(ts, pos)),
    decreases ts.len() - pos, 1nat,
{
    if has_kind(ts, pos, TokenKind::Plus) || has_kind(ts, pos, TokenKind::Minus) {
        lemma_unary_moves_forward(ts, pos + 1);
    } else {
        lemma_primary_moves_forward(ts, pos);
    }
}

/// An operand that parses takes at least one token.
pub proof fn lemma_operand_moves_forward(ts: Seq<SpecToken>, pos: int, level: nat)
    requires
        0 <= pos,
    ensures
        moves_forward(ts, pos, operand(ts, pos, level)),
    decreases ts.len() - pos, 2 + 2 * level,
{
    if level == 0 {
        lemma_unary_moves_forward(ts, pos);
    } else {
        lemma_tier_moves_forward(ts, pos, (level - 1) as nat);
    }
}

/// A tier that parses takes at least one token.
pub proof fn lemma_tier_moves_forward(ts: Seq<SpecToken>, pos: int, level: nat)
    requires
        0 <= pos,
    ensures
        moves_forward(ts, pos, tier(ts, pos, level)),
    decreases ts.len() - pos, 3 + 2 * level,
{
    lemma_operand_moves_forward(ts, pos, level);
    match operand(ts, pos, level) {
        Ok((left, next)) => {
            lemma_tier_rest_stays_within(ts, next, level, left);
        },
        Err(_) => {},
    }
}

/// The rest of a tier stays within the tokens.
pub proof fn lemma_tier_rest_stays_within(
    ts: Seq<SpecToken>,
    pos: int,
    level: nat,
    left: SpecExpr,
)
    requires
        0 <= pos <= ts.len(),
    ensures
        stays_within(ts, pos, tier_rest(ts, pos, level, left)),
    decreases ts.len() - pos, 0nat,
{
    if 0 <= pos < ts.len() && is_tier_operator(level, ts[pos].kind) {
        lemma_operand_moves_forward(ts, pos + 1, level);
        match operand(ts, pos + 1, level) {
            Ok((right, next)) => {
                let joined = SpecExpr::Binary {
                    op: ts[pos],
                    left: Box::new(left),
                    right: Box::new(right),
                };
                lemma_tier_rest_stays_within(ts, next, level, joined);
            },
            Err(_) => {},
        }
    }
}

/// The parameter names of a definition, where they parse, take at least the
/// two brackets.
pub proof fn lemma_def_args_move_forward(ts: Seq<SpecToken>, pos: int)
    requires
        0 <= pos,
    ensures
        moves_forward(ts, pos, def_args(ts, pos)),
{
    if eat_error(ts, pos, TokenKind::OpenBracket) is None {
        lemma_def_args_rest_moves_forward(ts, pos + 1, Seq::empty());
    }
}

proof fn lemma_def_args_rest_moves_forward(ts: Seq<SpecToken>, pos: int, names: Seq<Seq<char>>)
    requires
        0 <= pos,
    ensures
        moves_forward(ts, pos, def_args_rest(ts, pos, names)),
    decreases ts.len() - pos,
{
    if has_kind(ts, pos, TokenKind::Comma) {
        lemma_def_args_rest_moves_forward(ts, pos + 1, names);
    } else if has_kind(ts, pos, TokenKind::Name) {
        lemma_def_args_rest_moves_forward(ts, pos + 1, names.push(ts[pos].text));
    }
}

proof fn lemma_for_head_moves_forward(ts: Seq<SpecToken>, pos: int)
    requires
        0 <= pos,
    ensures
        moves_forward(ts, pos, for_head(ts, pos)),
{
    if eat_error(ts, pos, TokenKind::For) is None {
        match parse_name(ts, pos + 1) {
            Ok((name, after_name)) => {
                lemma_tier_moves_forward(ts, after_name + 2, 3);
                match expression(ts, after_name + 2) {
                    Ok((low, after_low)) => {
                        lemma_tier_moves_forward(ts, after_low + 1, 3);
                    },
                    Err(_) => {},
                }
            },
            Err(_) => {},
        }
    }
}

/// A statement that parses takes at least one token. So the conditions
/// `forward` in the grammar hold wherever a parse gets to them.
pub proof fn lemma_statement_moves_forward(ts: Seq<SpecToken>, pos: int)
    requires
        0 <= pos,
    ensures
        moves_forward(ts, pos, statement(ts, pos)),
    decreases ts.len() - pos, 5nat,
{
    if 0 <= pos < ts.len() {
        let kind = ts[pos].kind;
        if kind == TokenKind::Name && has_kind(ts, pos + 1, TokenKind::Assignment) {
            lemma_assignment_moves_forward(ts, pos);
        } else if kind == TokenKind::Name && has_kind(ts, pos + 1, TokenKind::OpenBracket) {
            lemma_function_call_moves_forward(ts, pos);
        } else if kind == TokenKind::Fn {
            lemma_function_def_moves_forward(ts, pos);
        } else if kind == TokenKind::While {
            lemma_while_moves_forward(ts, pos);
        } else if kind == TokenKind::For {
            lemma_for_moves_forward(ts, pos);
        } else if kind == TokenKind::If {
            lemma_if_moves_forward(ts, pos);
        } else if kind == TokenKind::NewLine {
            lemma_statement_moves_forward(ts, pos + 1);
        } else if kind == TokenKind::Return {
            lemma_tier_moves_forward(ts, pos + 1, 3);
        } else {
            lemma_tier_moves_forward(ts, pos, 3);
        }
    }
}

proof fn lemma_assignment_moves_forward(ts: Seq<SpecToken>, pos: int)
    requires
        0 <= pos,
    ensures
        moves_forward(ts, pos, assignment_statement(ts, pos)),
    decreases ts.len() - pos, 4nat,
{
    if 0 <= pos < ts.len() && ts[pos].kind == TokenKind::Name && eat_error(
        ts,
        pos + 1,
        TokenKind::Assignment,
    ) is None {
        lemma_statement_moves_forward(ts, pos + 2);
    }
}

proof fn lemma_function_call_moves_forward(ts: Seq<SpecToken>, pos: int)
    requires
        0 <= pos,
    ensures
        moves_forward(ts, pos, function_call_statement(ts, pos)),
    decreases ts.len() - pos, 4nat,
{
    if has_kind(ts, pos, TokenKind::Name) {
        lemma_call_args_move_forward(ts, pos + 1);
    }
}

proof fn lemma_call_args_move_forward(ts: Seq<SpecToken>, pos: int)
    requires
        0 <= pos,
    ensures
        moves_forward(ts, pos, call_args(ts, pos)),
    decreases ts.len() - pos, 3nat,
{
    if eat_error(ts, pos, TokenKind::OpenBracket) is None {
        lemma_call_args_rest_moves_forward(ts, pos + 1, Seq::empty());
    }
}

proof fn lemma_call_args_rest_moves_forward(ts: Seq<SpecToken>, pos: int, args: Seq<SpecExpr>)
    requires
        0 <= pos,
    ensures
        moves_forward(ts, pos, call_args_rest(ts, pos, args)),
    decreases ts.len() - pos, 9nat,
{
    if has_kind(ts, pos, TokenKind::Comma) {
        lemma_call_args_rest_moves_forward(ts, pos + 1, args);
    } else if 0 <= pos < ts.len() && ts[pos].kind != TokenKind::CloseBracket {
        lemma_statement_moves_forward(ts, pos);
        match statement(ts, pos) {
            Ok((arg, next)) => {
                lemma_call_args_rest_moves_forward(ts, next, args.push(arg));
            },
            Err(_) => {},
        }
    }
}

/// A block that parses takes at least its two brackets.
pub proof fn lemma_block_moves_forward(ts: Seq<SpecToken>, pos: int)
    requires
        0 <= pos,
    ensures
        moves_forward(ts, pos, block(ts, pos)),
    decreases ts.len() - pos, 3nat,
{
    if eat_error(ts, pos, TokenKind::OpenCurlyBracket) is None {
        lemma_new_lines_bound(ts, pos + 1);
        lemma_block_rest_moves_forward(ts, pos + 1 + new_lines(ts, pos + 1), Seq::empty());
    }
}

proof fn lemma_block_rest_moves_forward(ts: Seq<SpecToken>, pos: int, statements: Seq<SpecExpr>)
    requires
        0 <= pos,
    ensures
        moves_forward(ts, pos, block_rest(ts, pos, statements)),
    decreases ts.len() - pos, 9nat,
{
    if !has_kind(ts, pos, TokenKind::CloseCurlyBraket) {
        lemma_statement_moves_forward(ts, pos);
        match statement(ts, pos) {
            Ok((found, next)) => {
                lemma_new_lines_bound(ts, next);
                lemma_block_rest_moves_forward(
                    ts,
                    next + new_lines(ts, next),
                    statements.push(found),
                );
            },
            Err(_) => {},
        }
    }
}

proof fn lemma_function_def_moves_forward(ts: Seq<SpecToken>, pos: int)
    requires
        0 <= pos,
    ensures
        moves_forward(ts, pos, function_def_statement(ts, pos)),
    decreases ts.len() - pos, 4nat,
{
    if eat_error(ts, pos, TokenKind::Fn) is None {
        match parse_name(ts, pos + 1) {
            Ok((name, after_name)) => {
                lemma_def_args_move_forward(ts, after_name);
                match def_args(ts, after_name) {
                    Ok((args, after_args)) => {
                        lemma_block_moves_forward(ts, after_args);
                    },
                    Err(_) => {},
                }
            },
            Err(_) => {},
        }
    }
}

proof fn lemma_while_moves_forward(ts: Seq<SpecToken>, pos: int)
    requires
        0 <= pos,
    ensures
        moves_forward(ts, pos, while_statement(ts, pos)),
    decreases ts.len() - pos, 4nat,
{
    if eat_error(ts, pos, TokenKind::While) is None {
        lemma_tier_moves_forward(ts, pos + 1, 3);
        match expression(ts, pos + 1) {
            Ok((condition, after_condition)) => {
                lemma_block_moves_forward(ts, after_condition);
            },
            Err(_) => {},
        }
    }
}

proof fn lemma_for_moves_forward(ts: Seq<SpecToken>, pos: int)
    requires
        0 <= pos,
    ensures
        moves_forward(ts, pos, for_statement(ts, pos)),
    decreases ts.len() - pos, 4nat,
{
    lemma_for_head_moves_forward(ts, pos);
    match for_head(ts, pos) {
        Ok((head, after_head)) => {
            lemma_block_moves_forward(ts, after_head);
        },
        Err(_) => {},
    }
}

proof fn lemma_if_moves_forward(ts: Seq<SpecToken>, pos: int)
    requires
        0 <= pos,
    ensures
        moves_forward(ts, pos, if_statement(ts, pos)),
    decreases ts.len() - pos, 4nat,
{
    if eat_error(ts, pos, TokenKind::If) is None {
        lemma_tier_moves_forward(ts, pos + 1, 3);
        match expression(ts, pos + 1) {
            Ok((condition, after_condition)) => {
                lemma_block_moves_forward(ts, after_condition);
                match block(ts, after_condition) {
                    Ok((true_branch, after_true)) => {
                        if has_kind(ts, after_true, TokenKind::Else) {
                            lemma_block_moves_forward(ts, after_true + 1);
                        }
                    },
                    Err(_) => {},
                }
            },
            Err(_) => {},
        }
    }
}

/// A program that parses has read the tokens to their end.
pub proof fn lemma_program_reads_all_tokens(ts: Seq<SpecToken>, pos: int)
    requires
        0 <= pos <= ts.len(),
    ensures
        program(ts, pos) matches Ok((_, next)) ==> next == ts.len(),
{
    lemma_statement_list_reads_all_tokens(ts, pos, Seq::empty());
}

proof fn lemma_statement_list_reads_all_tokens(
    ts: Seq<SpecToken>,
    pos: int,
    statements: Seq<SpecExpr>,
)
    requires
        0 <= pos <= ts.len(),
    ensures
        statement_list(ts, pos, statements) matches Ok((_, next)) ==> next == ts.len(),
    decreases ts.len() - pos,
{
    if 0 <= pos < ts.len() {
        if ts[pos].kind == TokenKind::NewLine {
            lemma_statement_list_reads_all_tokens(ts, pos + 1, statements);
        } else {
            lemma_statement_moves_forward(ts, pos);
            match statement(ts, pos) {
                Ok((found, next)) => {
                    lemma_statement_list_reads_all_tokens(ts, next, statements.push(found));
                },
                Err(_) => {},
            }
        }
    }
}

} // verus!
