//! The recursive-descent parser. Each method reads the tokens from the
//! parser's position on and is proved to return what the grammar of the same
//! name gives there, leaving the position right after what it read.

use vstd::prelude::*;
use vstd::string::*;
use crate::expressions::{
    lemma_list_view_push,
    lemma_names_view_push,
    list_view,
    names_view,
    AssignmentExpression,
    BinaryExpression,
    BoolLiteralExpression,
    Expression,
    FloatLiteralExpression,
    ForExpression,
    FunctionCallExpression,
    FunctionDefExpression,
    IfExpression,
    IntLiteralExpression,
    NameExpression,
    SpecExpr,
    StatementListExpression,
    StringLiteralExpression,
    UnaryExpression,
    WhileExpression,
};
use crate::grammar;
use crate::grammar::{eat_error, forward, has_kind, is_tier_operator, new_lines, ParseOutcome};
use crate::text::{join, join3, join4};
use crate::token::{kind_has_payload, kind_to_string, tokens_view, SpecToken, Token, TokenKind};

verus! {

/// A syntax tree, or a message.
pub type ParseResult = Result<Box<Expression>, String>;

/// What a parse that returned `r` and stopped at `pos` amounts to.
pub open spec fn expression_outcome(r: ParseResult, pos: int) -> ParseOutcome<SpecExpr> {
    match r {
        Ok(e) => Ok((e@, pos)),
        Err(message) => Err(message@),
    }
}

/// The same for a parse that returns a row of trees.
pub open spec fn list_outcome(r: Result<Vec<Box<Expression>>, String>, pos: int) -> ParseOutcome<
    Seq<SpecExpr>,
> {
    match r {
        Ok(list) => Ok((list_view(list@), pos)),
        Err(message) => Err(message@),
    }
}

/// The same for a parse that returns a row of names.
pub open spec fn names_outcome(r: Result<Vec<String>, String>, pos: int) -> ParseOutcome<
    Seq<Seq<char>>,
> {
    match r {
        Ok(names) => Ok((names_view(names@), pos)),
        Err(message) => Err(message@),
    }
}

/// The same for a parse that returns a name.
pub open spec fn name_outcome(r: Result<String, String>, pos: int) -> ParseOutcome<Seq<char>> {
    match r {
        Ok(name) => Ok((name@, pos)),
        Err(message) => Err(message@),
    }
}

/// A row of tokens and a position in it.
pub struct Parser {
    tokens: Vec<Token>,
    pos: usize,
}

impl Parser {
    /// The tokens that the parser reads.
    pub closed spec fn tokens(&self) -> Seq<SpecToken> {
        tokens_view(self.tokens@)
    }

    /// The index of the token that the parser reads next.
    pub closed spec fn position(&self) -> int {
        self.pos as int
    }

    /// The position is within the tokens or right after them.
    pub open spec fn wf(&self) -> bool {
        0 <= self.position() <= self.tokens().len()
    }

    /// That a method which took the parser from `before` to `after` and
    /// returned `got` did what the grammar gives as `expected`: the outcomes
    /// agree, the tokens are untouched, and a successful parse moved forward.
    pub open spec fn parses_as<T>(
        before: Parser,
        after: Parser,
        got: ParseOutcome<T>,
        expected: ParseOutcome<T>,
    ) -> bool {
        &&& after.tokens() == before.tokens()
        &&& after.wf()
        &&& got == expected
        &&& expected is Ok ==> forward(before.tokens(), before.position(), after.position())
    }

    /// A parser at the start of a copy of `tokens`.
    pub fn new(tokens: &Vec<Token>) -> (p: Parser)
        ensures
            p.tokens() == tokens_view(tokens@),
            p.position() == 0,
            p.wf(),
    {
        let mut copy: Vec<Token> = Vec::new();
        let mut i: usize = 0;
        while i < tokens.len()
            invariant
                i <= tokens.len(),
                copy@.len() == i,
                forall|j: int| 0 <= j < i ==> copy@[j]@ == tokens@[j]@,
            decreases tokens.len() - i,
        {
            copy.push(tokens[i].clone());
            i += 1;
        }
        Parser { tokens: copy, pos: 0 }
    }

    /// Parses the tokens from the position to their end as a program.
    pub fn parse(&mut self) -> (r: ParseResult)
        requires
            old(self).wf(),
        ensures
            final(self).tokens() == old(self).tokens(),
            final(self).wf(),
            expression_outcome(r, final(self).position()) == grammar::program(
                old(self).tokens(),
                old(self).position(),
            ),
    {
        self.program()
    }

    fn program(&mut self) -> (r: ParseResult)
        requires
            old(self).wf(),
        ensures
            final(self).tokens() == old(self).tokens(),
            final(self).wf(),
            expression_outcome(r, final(self).position()) == grammar::program(
                old(self).tokens(),
                old(self).position(),
            ),
    {
        self.statement_list()
    }

    fn statement_list(&mut self) -> (r: ParseResult)
        requires
            old(self).wf(),
        ensures
            final(self).tokens() == old(self).tokens(),
            final(self).wf(),
            expression_outcome(r, final(self).position()) == grammar::program(
                old(self).tokens(),
                old(self).position(),
            ),
    {
        let ghost ts = self.tokens();
        let ghost start = self.position();
        let mut statements: Vec<Box<Expression>> = Vec::new();
        assert(list_view(statements@) =~= Seq::empty());
        while self.pos < self.tokens.len()
            invariant
                self.wf(),
                self.tokens() == ts,
                ts == old(self).tokens(),
                start == old(self).position(),
                start <= self.position(),
                grammar::statement_list(ts, start, Seq::empty()) == grammar::statement_list(
                    ts,
                    self.position(),
                    list_view(statements@),
                ),
            decreases self.tokens().len() - self.position(),
        {
            if self.current_token_is(TokenKind::NewLine) {
                self.advance();
            } else {
                match self.statement() {
                    Err(message) => {
                        return Err(message);
                    },
                    Ok(found) => {
                        proof {
                            lemma_list_view_push(statements@, found);
                        }
                        statements.push(found);
                    },
                }
            }
        }
        Ok(Box::new(Expression::StatementList(StatementListExpression::new(statements))))
    }

    fn statement(&mut self) -> (r: ParseResult)
        requires
            old(self).wf(),
        ensures
            Self::parses_as(
                *old(self),
                *final(self),
                expression_outcome(r, final(self).position()),
                grammar::statement(old(self).tokens(), old(self).position()),
            ),
        decreases old(self).tokens().len() - old(self).position(), 5nat,
    {
        if self.pos >= self.tokens.len() {
            return Err(String::from_str("no token for statement"));
        }
        let kind = self.tokens[self.pos].kind();
        if kind == TokenKind::Name && self.nth_token_is(1, TokenKind::Assignment) {
            self.assignment_statement()
        } else if kind == TokenKind::Name && self.nth_token_is(1, TokenKind::OpenBracket) {
            self.function_call_statement()
        } else if kind == TokenKind::Fn {
            self.function_def_statement()
        } else if kind == TokenKind::While {
            self.while_statement()
        } else if kind == TokenKind::For {
            self.for_statement()
        } else if kind == TokenKind::If {
            self.if_statement()
        } else if kind == TokenKind::NewLine {
            self.advance();
            self.statement()
        } else if kind == TokenKind::Return {
            self.advance();
            self.expression()
        } else {
            self.expression()
        }
    }

    fn parse_statements_in_curly_braces(&mut self) -> (r: Result<Vec<Box<Expression>>, String>)
        requires
            old(self).wf(),
        ensures
            Self::parses_as(
                *old(self),
                *final(self),
                list_outcome(r, final(self).position()),
                grammar::block(old(self).tokens(), old(self).position()),
            ),
        decreases old(self).tokens().len() - old(self).position(), 3nat,
    {
        let ghost ts = self.tokens();
        let ghost start = self.position();
        let mut result: Vec<Box<Expression>> = Vec::new();
        match self.eat(TokenKind::OpenCurlyBracket) {
            Err(message) => {
                return Err(message);
            },
            Ok(()) => {},
        }
        proof {
            grammar::lemma_new_lines_bound(ts, start + 1);
        }
        self.skip_new_lines();
        assert(list_view(result@) =~= Seq::empty());
        while !self.current_token_is(TokenKind::CloseCurlyBraket)
            invariant
                self.wf(),
                self.tokens() == ts,
                ts == old(self).tokens(),
                start == old(self).position(),
                forward(ts, start, self.position()),
                grammar::block(ts, start) == grammar::block_rest(
                    ts,
                    self.position(),
                    list_view(result@),
                ),
            decreases self.tokens().len() - self.position(),
        {
            match self.statement() {
                Err(message) => {
                    return Err(message);
                },
                Ok(found) => {
                    proof {
                        lemma_list_view_push(result@, found);
                        grammar::lemma_new_lines_bound(ts, self.position());
                    }
                    result.push(found);
                },
            }
            self.skip_new_lines();
        }
        self.skip_new_lines();
        match self.eat(TokenKind::CloseCurlyBraket) {
            Err(message) => Err(message),
            Ok(()) => Ok(result),
        }
    }

    fn while_statement(&mut self) -> (r: ParseResult)
        requires
            old(self).wf(),
        ensures
            Self::parses_as(
                *old(self),
                *final(self),
                expression_outcome(r, final(self).position()),
                grammar::while_statement(old(self).tokens(), old(self).position()),
            ),
        decreases old(self).tokens().len() - old(self).position(), 4nat,
    {
        match self.eat(TokenKind::While) {
            Err(message) => {
                return Err(message);
            },
            Ok(()) => {},
        }
        let while_expr = match self.expression() {
            Err(message) => {
                return Err(message);
            },
            Ok(found) => found,
        };
        let true_exprs = match self.parse_statements_in_curly_braces() {
            Err(message) => {
                return Err(message);
            },
            Ok(found) => found,
        };
        Ok(Box::new(Expression::While(WhileExpression::new(while_expr, true_exprs))))
    }

    /// Reads the head of a `for` statement: everything before its block.
    fn for_head(&mut self) -> (r: Result<(String, Box<Expression>, Box<Expression>), String>)
        requires
            old(self).wf(),
        ensures
            final(self).tokens() == old(self).tokens(),
            final(self).wf(),
            match grammar::for_head(old(self).tokens(), old(self).position()) {
                Ok((head, next)) => r matches Ok(found) && found.0@ == head.0 && found.1@ == head.1
                    && found.2@ == head.2 && final(self).position() == next && forward(
                    old(self).tokens(),
                    old(self).position(),
                    next,
                ),
                Err(message) => r matches Err(found) && found@ == message,
            },
    {
        match self.eat(TokenKind::For) {
            Err(message) => {
                return Err(message);
            },
            Ok(()) => {},
        }
        let var_name = match self.parse_name() {
            Err(message) => {
                return Err(message);
            },
            Ok(found) => found,
        };
        match self.eat(TokenKind::In) {
            Err(message) => {
                return Err(message);
            },
            Ok(()) => {},
        }
        match self.eat(TokenKind::OpenSquareBracket) {
            Err(message) => {
                return Err(message);
            },
            Ok(()) => {},
        }
        let left_b = match self.expression() {
            Err(message) => {
                return Err(message);
            },
            Ok(found) => found,
        };
        match self.eat(TokenKind::Comma) {
            Err(message) => {
                return Err(message);
            },
            Ok(()) => {},
        }
        let right_b = match self.expression() {
            Err(message) => {
                return Err(message);
            },
            Ok(found) => found,
        };
        match self.eat(TokenKind::CloseSquareBracket) {
            Err(message) => {
                return Err(message);
            },
            Ok(()) => {},
        }
        Ok((var_name, left_b, right_b))
    }

    fn for_statement(&mut self) -> (r: ParseResult)
        requires
            old(self).wf(),
        ensures
            Self::parses_as(
                *old(self),
                *final(self),
                expression_outcome(r, final(self).position()),
                grammar::for_statement(old(self).tokens(), old(self).position()),
            ),
        decreases old(self).tokens().len() - old(self).position(), 4nat,
    {
        let (var_name, left_b, right_b) = match self.for_head() {
            Err(message) => {
                return Err(message);
            },
            Ok(found) => found,
        };
        let body = match self.parse_statements_in_curly_braces() {
            Err(message) => {
                return Err(message);
            },
            Ok(found) => found,
        };
        Ok(Box::new(Expression::For(ForExpression::new(var_name, left_b, right_b, body))))
    }

    fn if_statement(&mut self) -> (r: ParseResult)
        requires
            old(self).wf(),
        ensures
            Self::parses_as(
                *old(self),
                *final(self),
                expression_outcome(r, final(self).position()),
                grammar::if_statement(old(self).tokens(), old(self).position()),
            ),
        decreases old(self).tokens().len() - old(self).position(), 4nat,
    {
        match self.eat(TokenKind::If) {
            Err(message) => {
                return Err(message);
            },
            Ok(()) => {},
        }
        let if_expr = match self.expression() {
            Err(message) => {
                return Err(message);
            },
            Ok(found) => found,
        };
        let true_expressions = match self.parse_statements_in_curly_braces() {
            Err(message) => {
                return Err(message);
            },
            Ok(found) => found,
        };
        let mut false_expressions: Vec<Box<Expression>> = Vec::new();
        assert(list_view(false_expressions@) =~= Seq::empty());
        if self.current_token_is(TokenKind::Else) {
            match self.eat(TokenKind::Else) {
                Err(message) => {
                    return Err(message);
                },
                Ok(()) => {},
            }
            false_expressions =
            match self.parse_statements_in_curly_braces() {
                Err(message) => {
                    return Err(message);
                },
                Ok(found) => found,
            };
        }
        Ok(
            Box::new(
                Expression::If(IfExpression::new(if_expr, true_expressions, false_expressions)),
            ),
        )
    }

    fn assignment_statement(&mut self) -> (r: ParseResult)
        requires
            old(self).wf(),
        ensures
            Self::parses_as(
                *old(self),
                *final(self),
                expression_outcome(r, final(self).position()),
                grammar::assignment_statement(old(self).tokens(), old(self).position()),
            ),
        decreases old(self).tokens().len() - old(self).position(), 4nat,
    {
        if self.pos >= self.tokens.len() {
            return Err(String::from_str("no token in assignment statement"));
        }
        if self.tokens[self.pos].kind() != TokenKind::Name {
            return Err(String::from_str("expected 'name' token in assignment statement"));
        }
        let name = self.tokens[self.pos].text();
        self.advance();
        match self.eat(TokenKind::Assignment) {
            Err(message) => {
                return Err(message);
            },
            Ok(()) => {},
        }
        let value = match self.statement() {
            Err(message) => {
                return Err(message);
            },
            Ok(found) => found,
        };
        Ok(Box::new(Expression::Assignment(AssignmentExpression::new(name, value))))
    }

    fn function_call_statement(&mut self) -> (r: ParseResult)
        requires
            old(self).wf(),
        ensures
            Self::parses_as(
                *old(self),
                *final(self),
                expression_outcome(r, final(self).position()),
                grammar::function_call_statement(old(self).tokens(), old(self).position()),
            ),
        decreases old(self).tokens().len() - old(self).position(), 4nat,
    {
        let f_name = match self.parse_name() {
            Err(message) => {
                return Err(message);
            },
            Ok(found) => found,
        };
        let f_args = match self.parse_func_call_args() {
            Err(message) => {
                return Err(message);
            },
            Ok(found) => found,
        };
        Ok(Box::new(Expression::FunctionCall(FunctionCallExpression::new(f_name, f_args))))
    }

    fn function_def_statement(&mut self) -> (r: ParseResult)
        requires
            old(self).wf(),
        ensures
            Self::parses_as(
                *old(self),
                *final(self),
                expression_outcome(r, final(self).position()),
                grammar::function_def_statement(old(self).tokens(), old(self).position()),
            ),
        decreases old(self).tokens().len() - old(self).position(), 4nat,
    {
        match self.eat(TokenKind::Fn) {
            Err(message) => {
                return Err(message);
            },
            Ok(()) => {},
        }
        let f_name = match self.parse_name() {
            Err(message) => {
                return Err(message);
            },
            Ok(found) => found,
        };
        let f_args = match self.parse_func_def_args() {
            Err(message) => {
                return Err(message);
            },
            Ok(found) => found,
        };
        let f_body = match self.parse_statements_in_curly_braces() {
            Err(message) => {
                return Err(message);
            },
            Ok(found) => found,
        };
        Ok(Box::new(Expression::FunctionDef(FunctionDefExpression::new(f_name, f_args, f_body))))
    }

    fn expression(&mut self) -> (r: ParseResult)
        requires
            old(self).wf(),
        ensures
            Self::parses_as(
                *old(self),
                *final(self),
                expression_outcome(r, final(self).position()),
                grammar::expression(old(self).tokens(), old(self).position()),
            ),
        decreases old(self).tokens().len() - old(self).position(), 14nat,
    {
        self.equality()
    }

    fn equality(&mut self) -> (r: ParseResult)
        requires
            old(self).wf(),
        ensures
            Self::parses_as(
                *old(self),
                *final(self),
                expression_outcome(r, final(self).position()),
                grammar::tier(old(self).tokens(), old(self).position(), 3),
            ),
        decreases old(self).tokens().len() - old(self).position(), 13nat,
    {
        self.binary_tier(3)
    }

    fn compression(&mut self) -> (r: ParseResult)
        requires
            old(self).wf(),
        ensures
            Self::parses_as(
                *old(self),
                *final(self),
                expression_outcome(r, final(self).position()),
                grammar::tier(old(self).tokens(), old(self).position(), 2),
            ),
        decreases old(self).tokens().len() - old(self).position(), 10nat,
    {
        self.binary_tier(2)
    }

    fn term(&mut self) -> (r: ParseResult)
        requires
            old(self).wf(),
        ensures
            Self::parses_as(
                *old(self),
                *final(self),
                expression_outcome(r, final(self).position()),
                grammar::tier(old(self).tokens(), old(self).position(), 1),
            ),
        decreases old(self).tokens().len() - old(self).position(), 7nat,
    {
        self.binary_tier(1)
    }

    fn factor(&mut self) -> (r: ParseResult)
        requires
            old(self).wf(),
        ensures
            Self::parses_as(
                *old(self),
                *final(self),
                expression_outcome(r, final(self).position()),
                grammar::tier(old(self).tokens(), old(self).position(), 0),
            ),
        decreases old(self).tokens().len() - old(self).position(), 4nat,
    {
        self.binary_tier(0)
    }

    /// Reads an operand of the tier `level`.
    fn operand(&mut self, level: u8) -> (r: ParseResult)
        requires
            old(self).wf(),
            level <= 3,
        ensures
            Self::parses_as(
                *old(self),
                *final(self),
                expression_outcome(r, final(self).position()),
                grammar::operand(old(self).tokens(), old(self).position(), level as nat),
            ),
        decreases old(self).tokens().len() - old(self).position(), 2 + 3 * level,
    {
        if level == 0 {
            self.unary()
        } else if level == 1 {
            self.factor()
        } else if level == 2 {
            self.term()
        } else {
            self.compression()
        }
    }

    /// Reads one tier of binary operators.
    fn binary_tier(&mut self, level: u8) -> (r: ParseResult)
        requires
            old(self).wf(),
            level <= 3,
        ensures
            Self::parses_as(
                *old(self),
                *final(self),
                expression_outcome(r, final(self).position()),
                grammar::tier(old(self).tokens(), old(self).position(), level as nat),
            ),
        decreases old(self).tokens().len() - old(self).position(), 3 + 3 * level,
    {
        let ghost ts = self.tokens();
        let ghost start = self.position();
        let mut result = match self.operand(level) {
            Err(message) => {
                return Err(message);
            },
            Ok(found) => found,
        };
        while self.pos < self.tokens.len() && tier_operator(level, self.tokens[self.pos].kind())
            invariant
                self.wf(),
                self.tokens() == ts,
                ts == old(self).tokens(),
                start == old(self).position(),
                level <= 3,
                forward(ts, start, self.position()),
                grammar::tier(ts, start, level as nat) == grammar::tier_rest(
                    ts,
                    self.position(),
                    level as nat,
                    result@,
                ),
            decreases self.tokens().len() - self.position(),
        {
            let op = self.tokens[self.pos].clone();
            self.advance();
            let right = match self.operand(level) {
                Err(message) => {
                    return Err(message);
                },
                Ok(found) => found,
            };
            result = Box::new(Expression::Binary(BinaryExpression::new(op, result, right)));
        }
        Ok(result)
    }

    fn unary(&mut self) -> (r: ParseResult)
        requires
            old(self).wf(),
        ensures
            Self::parses_as(
                *old(self),
                *final(self),
                expression_outcome(r, final(self).position()),
                grammar::unary(old(self).tokens(), old(self).position()),
            ),
        decreases old(self).tokens().len() - old(self).position(), 1nat,
    {
        if self.current_token_is(TokenKind::Plus) || self.current_token_is(TokenKind::Minus) {
            let op = self.tokens[self.pos].clone();
            self.advance();
            match self.unary() {
                Err(message) => Err(message),
                Ok(operand) => Ok(Box::new(Expression::Unary(UnaryExpression::new(op, operand)))),
            }
        } else {
            self.primary()
        }
    }

    fn primary(&mut self) -> (r: ParseResult)
        requires
            old(self).wf(),
        ensures
            Self::parses_as(
                *old(self),
                *final(self),
                expression_outcome(r, final(self).position()),
                grammar::primary(old(self).tokens(), old(self).position()),
            ),
        decreases old(self).tokens().len() - old(self).position(), 0nat,
    {
        if self.pos >= self.tokens.len() {
            return Err(String::from_str("no token for factor"));
        }
        let kind = self.tokens[self.pos].kind();
        match kind {
            TokenKind::IntLiteral => {
                let i = self.tokens[self.pos].number();
                self.advance();
                Ok(Box::new(Expression::IntLiteral(IntLiteralExpression::new(i))))
            },
            TokenKind::FloatLiteral => {
                let f = self.tokens[self.pos].text();
                self.advance();
                Ok(Box::new(Expression::FloatLiteral(FloatLiteralExpression::new(f))))
            },
            TokenKind::StringLiteral => {
                let s = self.tokens[self.pos].text();
                self.advance();
                Ok(Box::new(Expression::StringLiteral(StringLiteralExpression::new(s))))
            },
            TokenKind::OpenBracket => {
                self.advance();
                let result = match self.expression() {
                    Err(message) => {
                        return Err(message);
                    },
                    Ok(found) => found,
                };
                match self.eat(TokenKind::CloseBracket) {
                    Err(message) => Err(message),
                    Ok(()) => Ok(result),
                }
            },
            TokenKind::Name => {
                let n = self.tokens[self.pos].text();
                self.advance();
                Ok(Box::new(Expression::Name(NameExpression::new(n))))
            },
            TokenKind::True => {
                self.advance();
                Ok(Box::new(Expression::BoolLiteral(BoolLiteralExpression::new(true))))
            },
            TokenKind::False => {
                self.advance();
                Ok(Box::new(Expression::BoolLiteral(BoolLiteralExpression::new(false))))
            },
            TokenKind::NewLine => {
                self.advance();
                self.primary()
            },
            _ => {
                let found = self.tokens[self.pos].to_string();
                Err(join("Not valid factor ", found.as_str()))
            },
        }
    }

    fn advance(&mut self)
        requires
            old(self).wf(),
            old(self).position() < old(self).tokens().len(),
        ensures
            final(self).tokens() == old(self).tokens(),
            final(self).position() == old(self).position() + 1,
            final(self).wf(),
    {
        if self.pos < self.tokens.len() {
            self.pos += 1;
        }
    }

    fn current_token_is(&self, kind: TokenKind) -> (r: bool)
        requires
            self.wf(),
        ensures
            r == has_kind(self.tokens(), self.position(), kind),
    {
        self.nth_token_is(0, kind)
    }

    fn nth_token_is(&self, n: usize, kind: TokenKind) -> (r: bool)
        requires
            self.wf(),
        ensures
            r == has_kind(self.tokens(), self.position() + n, kind),
    {
        if n < self.tokens.len() - self.pos {
            self.tokens[self.pos + n].kind() == kind
        } else {
            false
        }
    }

    /// Passes over a token of kind `kind`, or says what stands in its place.
    fn eat(&mut self, kind: TokenKind) -> (r: Result<(), String>)
        requires
            old(self).wf(),
            !kind_has_payload(kind),
        ensures
            final(self).tokens() == old(self).tokens(),
            final(self).wf(),
            match eat_error(old(self).tokens(), old(self).position(), kind) {
                None => r is Ok && final(self).position() == old(self).position() + 1,
                Some(message) => r matches Err(found) && found@ == message
                    && final(self).position() == old(self).position(),
            },
    {
        if self.pos < self.tokens.len() {
            if self.tokens[self.pos].kind() == kind {
                self.advance();
                Ok(())
            } else {
                let expected = kind_to_string(kind);
                let found = self.tokens[self.pos].to_string();
                Err(join4("exprected token ", expected.as_str(), ", find token ", found.as_str()))
            }
        } else {
            let expected = kind_to_string(kind);
            Err(join3("exptect token ", expected.as_str(), ", found no token"))
        }
    }

    fn parse_name(&mut self) -> (r: Result<String, String>)
        requires
            old(self).wf(),
        ensures
            Self::parses_as(
                *old(self),
                *final(self),
                name_outcome(r, final(self).position()),
                grammar::parse_name(old(self).tokens(), old(self).position()),
            ),
            r is Ok ==> final(self).position() == old(self).position() + 1,
    {
        if self.current_token_is(TokenKind::Name) {
            let n = self.tokens[self.pos].text();
            self.advance();
            Ok(n)
        } else {
            Err(String::from_str("expected name token"))
        }
    }

    fn parse_func_def_args(&mut self) -> (r: Result<Vec<String>, String>)
        requires
            old(self).wf(),
        ensures
            Self::parses_as(
                *old(self),
                *final(self),
                names_outcome(r, final(self).position()),
                grammar::def_args(old(self).tokens(), old(self).position()),
            ),
    {
        let ghost ts = self.tokens();
        let ghost start = self.position();
        match self.eat(TokenKind::OpenBracket) {
            Err(message) => {
                return Err(message);
            },
            Ok(()) => {},
        }
        let mut f_args: Vec<String> = Vec::new();
        assert(names_view(f_args@) =~= Seq::empty());
        while self.pos < self.tokens.len() && self.tokens[self.pos].kind()
            != TokenKind::CloseBracket
            invariant
                self.wf(),
                self.tokens() == ts,
                ts == old(self).tokens(),
                start == old(self).position(),
                forward(ts, start, self.position()),
                grammar::def_args(ts, start) == grammar::def_args_rest(
                    ts,
                    self.position(),
                    names_view(f_args@),
                ),
            decreases self.tokens().len() - self.position(),
        {
            let kind = self.tokens[self.pos].kind();
            if kind == TokenKind::Comma {
                self.advance();
            } else if kind == TokenKind::Name {
                let n = self.tokens[self.pos].text();
                proof {
                    lemma_names_view_push(f_args@, n);
                }
                f_args.push(n);
                self.advance();
            } else {
                let found = self.tokens[self.pos].to_string();
                return Err(
                    join3("Token ", found.as_str(), " not supported in function def args"),
                );
            }
        }
        match self.eat(TokenKind::CloseBracket) {
            Err(message) => Err(message),
            Ok(()) => Ok(f_args),
        }
    }

    fn parse_func_call_args(&mut self) -> (r: Result<Vec<Box<Expression>>, String>)
        requires
            old(self).wf(),
        ensures
            Self::parses_as(
                *old(self),
                *final(self),
                list_outcome(r, final(self).position()),
                grammar::call_args(old(self).tokens(), old(self).position()),
            ),
        decreases old(self).tokens().len() - old(self).position(), 3nat,
    {
        let ghost ts = self.tokens();
        let ghost start = self.position();
        match self.eat(TokenKind::OpenBracket) {
            Err(message) => {
                return Err(message);
            },
            Ok(()) => {},
        }
        let mut f_args: Vec<Box<Expression>> = Vec::new();
        assert(list_view(f_args@) =~= Seq::empty());
        while self.pos < self.tokens.len() && self.tokens[self.pos].kind()
            != TokenKind::CloseBracket
            invariant
                self.wf(),
                self.tokens() == ts,
                ts == old(self).tokens(),
                start == old(self).position(),
                forward(ts, start, self.position()),
                grammar::call_args(ts, start) == grammar::call_args_rest(
                    ts,
                    self.position(),
                    list_view(f_args@),
                ),
            decreases self.tokens().len() - self.position(),
        {
            if self.tokens[self.pos].kind() == TokenKind::Comma {
                self.advance();
            } else {
                match self.statement() {
                    Err(message) => {
                        return Err(message);
                    },
                    Ok(found) => {
                        proof {
                            lemma_list_view_push(f_args@, found);
                        }
                        f_args.push(found);
                    },
                }
            }
        }
        match self.eat(TokenKind::CloseBracket) {
            Err(message) => Err(message),
            Ok(()) => Ok(f_args),
        }
    }

    fn skip_new_lines(&mut self)
        requires
            old(self).wf(),
        ensures
            final(self).tokens() == old(self).tokens(),
            final(self).wf(),
            final(self).position() == old(self).position() + new_lines(
                old(self).tokens(),
                old(self).position(),
            ),
    {
        let ghost ts = self.tokens();
        let ghost start = self.position();
        while self.current_token_is(TokenKind::NewLine)
            invariant
                self.wf(),
                self.tokens() == ts,
                self.position() + new_lines(ts, self.position()) == start + new_lines(ts, start),
            decreases self.tokens().len() - self.position(),
        {
            self.advance();
        }
    }
}

/// Whether `kind` is an operator of the tier `level`.
fn tier_operator(level: u8, kind: TokenKind) -> (r: bool)
    ensures
        r == is_tier_operator(level as nat, kind),
{
    if level == 0 {
        kind == TokenKind::Multi || kind == TokenKind::Devide
    } else if level == 1 {
        kind == TokenKind::Plus || kind == TokenKind::Minus
    } else if level == 2 {
        kind == TokenKind::More || kind == TokenKind::MoreEq || kind == TokenKind::Less || kind
            == TokenKind::LessEq
    } else {
        kind == TokenKind::Eq || kind == TokenKind::NotEq
    }
}

/// Parsing goes by the tokens and the position alone: two parsers that agree
/// in both parse to trees of the same value, or fail with the same message.
pub proof fn lemma_parsing_again_gives_the_same_tree(first: Parser, second: Parser)
    requires
        first.tokens() == second.tokens(),
        first.position() == second.position(),
    ensures
        grammar::program(first.tokens(), first.position()) == grammar::program(
            second.tokens(),
            second.position(),
        ),
{
}

} // verus!
