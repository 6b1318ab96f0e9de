use exlang::expressions::{
    AssignmentExpression, BinaryExpression, BoolLiteralExpression, Expression,
    FloatLiteralExpression, ForExpression, FunctionCallExpression, FunctionDefExpression,
    IfExpression, IntLiteralExpression, NameExpression, StatementListExpression,
    StringLiteralExpression, UnaryExpression, WhileExpression,
};
use exlang::parser::Parser;
use exlang::token::Token;
use exlang::tokenizer::tokenize;

fn integer(i: i64) -> Box<Expression> {
    Box::new(Expression::IntLiteral(IntLiteralExpression::new(i)))
}

fn name(n: &str) -> Box<Expression> {
    Box::new(Expression::Name(NameExpression::new(String::from(n))))
}

fn boolean(b: bool) -> Box<Expression> {
    Box::new(Expression::BoolLiteral(BoolLiteralExpression::new(b)))
}

fn string(s: &str) -> Box<Expression> {
    Box::new(Expression::StringLiteral(StringLiteralExpression::new(
        String::from(s),
    )))
}

fn binary(op: Token, l: Box<Expression>, r: Box<Expression>) -> Box<Expression> {
    Box::new(Expression::Binary(BinaryExpression::new(op, l, r)))
}

fn unary(op: Token, e: Box<Expression>) -> Box<Expression> {
    Box::new(Expression::Unary(UnaryExpression::new(op, e)))
}

fn assign(n: &str, v: Box<Expression>) -> Box<Expression> {
    Box::new(Expression::Assignment(AssignmentExpression::new(
        String::from(n),
        v,
    )))
}

fn call(n: &str, args: Vec<Box<Expression>>) -> Box<Expression> {
    Box::new(Expression::FunctionCall(FunctionCallExpression::new(
        String::from(n),
        args,
    )))
}

fn program(statements: Vec<Box<Expression>>) -> Box<Expression> {
    Box::new(Expression::StatementList(StatementListExpression::new(
        statements,
    )))
}

fn parse(source: &str) -> Result<Box<Expression>, String> {
    Parser::new(&tokenize(&String::from(source))).parse()
}

fn parse_one(source: &str) -> Box<Expression> {
    match *parse(source).unwrap() {
        Expression::StatementList(mut list) => {
            assert_eq!(list.statement_list.len(), 1);
            list.statement_list.pop().unwrap()
        }
        other => panic!("{:?}", other),
    }
}

fn error(source: &str) -> String {
    parse(source).unwrap_err()
}

#[test]
fn empty_program() {
    assert_eq!(parse("").unwrap(), program(vec![]));
    assert_eq!(parse("\n\n").unwrap(), program(vec![]));
    assert_eq!(Parser::new(&vec![]).parse().unwrap(), program(vec![]));
}

#[test]
fn literals_and_names() {
    assert_eq!(parse_one("7"), integer(7));
    assert_eq!(parse_one("x"), name("x"));
    assert_eq!(parse_one("true"), boolean(true));
    assert_eq!(parse_one("false"), boolean(false));
    assert_eq!(parse_one("\"s t\""), string("s t"));
    assert_eq!(
        parse_one("2.5"),
        Box::new(Expression::FloatLiteral(FloatLiteralExpression::new(
            String::from("2.5")
        )))
    );
}

#[test]
fn multiplication_binds_tighter_than_addition() {
    assert_eq!(
        parse_one("2 + 2 * 2 * 2"),
        binary(
            Token::Plus,
            integer(2),
            binary(
                Token::Multi,
                binary(Token::Multi, integer(2), integer(2)),
                integer(2)
            )
        )
    );
    assert_eq!(
        parse_one("(2 + 2) * 2"),
        binary(
            Token::Multi,
            binary(Token::Plus, integer(2), integer(2)),
            integer(2)
        )
    );
}

#[test]
fn tiers_from_equality_down() {
    assert_eq!(
        parse_one("a == b < c + d * e"),
        binary(
            Token::Eq,
            name("a"),
            binary(
                Token::Less,
                name("b"),
                binary(
                    Token::Plus,
                    name("c"),
                    binary(Token::Multi, name("d"), name("e"))
                )
            )
        )
    );
    assert_eq!(
        parse_one("a * b + c >= d != e"),
        binary(
            Token::NotEq,
            binary(
                Token::MoreEq,
                binary(
                    Token::Plus,
                    binary(Token::Multi, name("a"), name("b")),
                    name("c")
                ),
                name("d")
            ),
            name("e")
        )
    );
}

#[test]
fn binary_operators_group_to_the_left() {
    assert_eq!(
        parse_one("1 - 2 - 3"),
        binary(
            Token::Minus,
            binary(Token::Minus, integer(1), integer(2)),
            integer(3)
        )
    );
    assert_eq!(
        parse_one("8 / 4 / 2"),
        binary(
            Token::Devide,
            binary(Token::Devide, integer(8), integer(4)),
            integer(2)
        )
    );
    assert_eq!(
        parse_one("a > b <= c"),
        binary(
            Token::LessEq,
            binary(Token::More, name("a"), name("b")),
            name("c")
        )
    );
}

#[test]
fn unary_is_a_prefix() {
    assert_eq!(parse_one("- 1"), unary(Token::Minus, integer(1)));
    assert_eq!(
        parse_one("- + - x"),
        unary(
            Token::Minus,
            unary(Token::Plus, unary(Token::Minus, name("x")))
        )
    );
    assert_eq!(
        parse_one("2 * - 3"),
        binary(Token::Multi, integer(2), unary(Token::Minus, integer(3)))
    );
}

#[test]
fn statements_of_a_program() {
    assert_eq!(
        parse("a = 1\nb = a\n").unwrap(),
        program(vec![assign("a", integer(1)), assign("b", name("a"))])
    );
    // an expression ends where no operator follows
    assert_eq!(
        parse("1 2").unwrap(),
        program(vec![integer(1), integer(2)])
    );
}

#[test]
fn assignment_takes_a_statement() {
    assert_eq!(parse_one("a = b()"), assign("a", call("b", vec![])));
    assert_eq!(parse_one("a = b = 3"), assign("a", assign("b", integer(3))));
    assert_eq!(
        parse_one("a = if (true) { 1 }"),
        assign(
            "a",
            Box::new(Expression::If(IfExpression::new(
                boolean(true),
                vec![integer(1)],
                vec![]
            )))
        )
    );
}

#[test]
fn calls() {
    assert_eq!(parse_one("f()"), call("f", vec![]));
    assert_eq!(
        parse_one("f(1, x + 2)"),
        call(
            "f",
            vec![integer(1), binary(Token::Plus, name("x"), integer(2))]
        )
    );
    assert_eq!(
        parse_one("f(g(1), a = 2)"),
        call("f", vec![call("g", vec![integer(1)]), assign("a", integer(2))])
    );
    // commas may stand anywhere between the brackets
    assert_eq!(
        parse_one("f(,1,,2,)"),
        call("f", vec![integer(1), integer(2)])
    );
    // a name is a call only right before a bracket
    assert_eq!(parse("f").unwrap(), program(vec![name("f")]));
}

#[test]
fn return_is_its_expression() {
    assert_eq!(parse_one("return 1 + 2"), binary(Token::Plus, integer(1), integer(2)));
}

#[test]
fn function_definition() {
    assert_eq!(
        parse_one("fn add(a, b) {\n return a + b\n}\n"),
        Box::new(Expression::FunctionDef(FunctionDefExpression::new(
            String::from("add"),
            vec![String::from("a"), String::from("b")],
            vec![binary(Token::Plus, name("a"), name("b"))]
        )))
    );
    assert_eq!(
        parse_one("fn f() { }"),
        Box::new(Expression::FunctionDef(FunctionDefExpression::new(
            String::from("f"),
            vec![],
            vec![]
        )))
    );
}

#[test]
fn if_while_for() {
    assert_eq!(
        parse_one("if a == 1 {\n b = 2\n} else {\n b = 3\n}"),
        Box::new(Expression::If(IfExpression::new(
            binary(Token::Eq, name("a"), integer(1)),
            vec![assign("b", integer(2))],
            vec![assign("b", integer(3))]
        )))
    );
    assert_eq!(
        parse_one("while a < 3 { a = a + 1 }"),
        Box::new(Expression::While(WhileExpression::new(
            binary(Token::Less, name("a"), integer(3)),
            vec![assign("a", binary(Token::Plus, name("a"), integer(1)))]
        )))
    );
    assert_eq!(
        parse_one("for i in [0, n + 1] {\n\n f(i)\n\n g()\n}"),
        Box::new(Expression::For(ForExpression::new(
            String::from("i"),
            integer(0),
            binary(Token::Plus, name("n"), integer(1)),
            vec![call("f", vec![name("i")]), call("g", vec![])]
        )))
    );
}

#[test]
fn line_ends_before_a_statement_or_operand_are_passed_over() {
    assert_eq!(
        parse("a = \n 1").unwrap(),
        program(vec![assign("a", integer(1))])
    );
    assert_eq!(
        parse("1 + \n 2").unwrap(),
        program(vec![binary(Token::Plus, integer(1), integer(2))])
    );
}

#[test]
fn tokens_without_a_final_line_end() {
    let tokens = vec![Token::IntLiteral(1), Token::Plus, Token::IntLiteral(2)];
    assert_eq!(
        Parser::new(&tokens).parse().unwrap(),
        program(vec![binary(Token::Plus, integer(1), integer(2))])
    );
    let tokens = vec![Token::Name(String::from("a")), Token::Less, Token::IntLiteral(2)];
    assert_eq!(
        Parser::new(&tokens).parse().unwrap(),
        program(vec![binary(Token::Less, name("a"), integer(2))])
    );
}

#[test]
fn parse_errors() {
    assert_eq!(error("1 +"), "no token for factor");
    assert_eq!(error("1 + )"), "Not valid factor CLOSE BRACE TOKEN");
    assert_eq!(error("a = b.c()"), "Not valid factor DOT TOKEN");
    assert_eq!(
        error("(1 + 2"),
        "exprected token CLOSE BRACE TOKEN, find token NEW LINE TOKEN"
    );
    assert_eq!(
        Parser::new(&vec![Token::OpenBracket, Token::IntLiteral(1)])
            .parse()
            .unwrap_err(),
        "exptect token CLOSE BRACE TOKEN, found no token"
    );
    assert_eq!(
        Parser::new(&vec![Token::Name(String::from("f")), Token::OpenBracket])
            .parse()
            .unwrap_err(),
        "exptect token CLOSE BRACE TOKEN, found no token"
    );
    assert_eq!(
        Parser::new(&vec![Token::Name(String::from("a")), Token::Assignment])
            .parse()
            .unwrap_err(),
        "no token for statement"
    );
    assert_eq!(
        error("a = \n"),
        "no token for statement"
    );
    assert_eq!(error("while true {"), "no token for statement");
    assert_eq!(
        error("while true 1"),
        "exprected token OPEN CURLY BRACE TOKEN, find token INT LITERAL TOKEN WITH VALUE: 1"
    );
    assert_eq!(error("fn 1"), "expected name token");
    assert_eq!(
        error("fn f(1) { }"),
        "Token INT LITERAL TOKEN WITH VALUE: 1 not supported in function def args"
    );
    assert_eq!(
        error("fn f { }"),
        "exprected token OPEN BRACE TOKEN, find token OPEN CURLY BRACE TOKEN"
    );
    assert_eq!(
        Parser::new(&vec![
            Token::Fn,
            Token::Name(String::from("f")),
            Token::OpenBracket,
            Token::Name(String::from("a"))
        ])
        .parse()
        .unwrap_err(),
        "exptect token CLOSE BRACE TOKEN, found no token"
    );
    assert_eq!(error("for 1"), "expected name token");
    assert_eq!(
        error("for i [0, 1] { }"),
        "exprected token IN TOKEN, find token OPEN SQUARE BRACKET TOKEN"
    );
    assert_eq!(
        error("for i in (0, 1) { }"),
        "exprected token OPEN SQUARE BRACKET TOKEN, find token OPEN BRACE TOKEN"
    );
    assert_eq!(
        error("for i in [0 1] { }"),
        "exprected token COMMA TOKEN, find token INT LITERAL TOKEN WITH VALUE: 1"
    );
    assert_eq!(
        error("for i in [0, 1 { }"),
        "exprected token CLOSE SQUARE BRACKET TOKEN, find token OPEN CURLY BRACE TOKEN"
    );
    assert_eq!(
        error("if true { } else 1"),
        "exprected token OPEN CURLY BRACE TOKEN, find token INT LITERAL TOKEN WITH VALUE: 1"
    );
    assert_eq!(error("}"), "Not valid factor CLOSE CURLY BRACE TOKEN");
}

#[test]
fn parsing_again_gives_the_same_tree() {
    let tokens = tokenize(&String::from(
        "fn f(a) {\n if a > 1 { return a * f(a - 1) } else { return 1 }\n}\nx = f(5)\n",
    ));
    let first = Parser::new(&tokens).parse().unwrap();
    let copy = tokens.clone();
    let second = Parser::new(&copy).parse().unwrap();
    assert_eq!(first, second);
    let mut parser = Parser::new(&tokens);
    let third = parser.parse().unwrap();
    assert_eq!(first, third);
    // at the end of the tokens nothing is left to parse
    assert_eq!(parser.parse().unwrap(), program(vec![]));
}

#[test]
fn a_copy_of_a_tree_equals_it() {
    let tree = parse("fn f(a, b) {\n for i in [a, b] { while i < 2 { g(i, -1.5, \"s\") } }\n}\n")
        .unwrap();
    let copy = tree.clone();
    assert_eq!(tree, copy);
}
