use exlang::token::{Token, TokenKind};
use exlang::tokenizer::{
    char_to_simple_token, classify, read_name_token, read_number_token, read_reserved_token,
    read_string_literal_token, read_token_from_char, read_token_from_string, tokenize,
    tokenize_classified, try_read_reserved_word, CharClass,
};

fn name(s: &str) -> Token {
    Token::Name(String::from(s))
}

fn float(x: f64) -> Token {
    Token::FloatLiteral(x.to_string())
}

fn chars(s: &str) -> Vec<char> {
    s.chars().collect()
}

fn lex(s: &str) -> Vec<Token> {
    tokenize(&String::from(s))
}

#[test]
fn bug_test() {
    let program = "write(\"input: \", a)".to_string();
    let tokens = tokenize(&program);
    for token in tokens.iter() {
        println!("token is {}", token.to_string());
    }
    assert!(true);
    assert_eq!(
        tokens,
        vec![
            name("write"),
            Token::OpenBracket,
            Token::StringLiteral(String::from("input: ")),
            Token::Comma,
            name("a"),
            Token::CloseBracket,
            Token::NewLine,
        ]
    );
}

#[test]
fn tokenizer_tokenizer_test() {
    let program: String = String::from("x = 10 \n\
                                        y = 20.5 \n\
                                        s = \"str\" \\
                                        x = x * ( x + y ) \\
                                        a = true \n\
                                        c = a == true\n\
                                        bu = c != false \n\
                                        boo1 = 1 >= 2 \n\
                                        boo2 = 1 > 2 \n\
                                        boo3 = 1 <= 2 \n\
                                        boo4 = 1 < 2 \n\
                                        if (boo4 == true) doSomething()\n\
                                        else doNothing()\n\
                                        while(true) tododo() \n\
                                        for i in [2, 44] topudo() \n\
                                        a = b.to_int()\n");
    let expected_tokens = vec![
        Token::Name(String::from("x")),
        Token::Assignment,
        Token::IntLiteral(10),
        Token::NewLine,

        Token::Name(String::from("y")),
        Token::Assignment,
        float(20.5),
        Token::NewLine,

        Token::Name(String::from("s")),
        Token::Assignment,
        Token::StringLiteral(String::from("str")),
        Token::NewLine,

        Token::Name(String::from("x")),
        Token::Assignment,
        Token::Name(String::from("x")),
        Token::Multi,
        Token::OpenBracket,
        Token::Name(String::from("x")),
        Token::Plus,
        Token::Name(String::from("y")),
        Token::CloseBracket,
        Token::NewLine,

        Token::Name(String::from("a")),
        Token::Assignment,
        Token::True,
        Token::NewLine,

        Token::Name(String::from("c")),
        Token::Assignment,
        Token::Name(String::from("a")),
        Token::Eq,
        Token::True,
        Token::NewLine,

        Token::Name(String::from("bu")),
        Token::Assignment,
        Token::Name(String::from("c")),
        Token::NotEq,
        Token::False,
        Token::NewLine,

        Token::Name(String::from("boo1")),
        Token::Assignment,
        Token::IntLiteral(1),
        Token::MoreEq,
        Token::IntLiteral(2),
        Token::NewLine,

        Token::Name(String::from("boo2")),
        Token::Assignment,
        Token::IntLiteral(1),
        Token::More,
        Token::IntLiteral(2),
        Token::NewLine,

        Token::Name(String::from("boo3")),
        Token::Assignment,
        Token::IntLiteral(1),
        Token::LessEq,
        Token::IntLiteral(2),
        Token::NewLine,

        Token::Name(String::from("boo4")),
        Token::Assignment,
        Token::IntLiteral(1),
        Token::Less,
        Token::IntLiteral(2),
        Token::NewLine,

        Token::If,
        Token::OpenBracket,
        Token::Name(String::from("boo4")),
        Token::Eq,
        Token::True,
        Token::CloseBracket,
        Token::Name(String::from("doSomething")),
        Token::OpenBracket,
        Token::CloseBracket,
        Token::NewLine,

        Token::Else,
        Token::Name(String::from("doNothing")),
        Token::OpenBracket,
        Token::CloseBracket,
        Token::NewLine,

        Token::While,
        Token::OpenBracket,
        Token::True,
        Token::CloseBracket,
        Token::Name(String::from("tododo")),
        Token::OpenBracket,
        Token::CloseBracket,
        Token::NewLine,

        Token::For,
        Token::Name(String::from("i")),
        Token::In,
        Token::OpenSquareBracket,
        Token::IntLiteral(2),
        Token::Comma,
        Token::IntLiteral(44),
        Token::CloseSquareBracket,
        Token::Name(String::from("topudo")),
        Token::OpenBracket,
        Token::CloseBracket,
        Token::NewLine,

        Token::Name(String::from("a")),
        Token::Assignment,
        Token::Name(String::from("b")),
        Token::Dot,
        Token::Name(String::from("to_int")),
        Token::OpenBracket,
        Token::CloseBracket,
        Token::NewLine
    ];
    let tokens = tokenize(&program);
    assert_eq!(tokens, expected_tokens);
}

#[test]
fn number_tests() {
    let program1: String = String::from("5 + 5.5 = 11 - 0.5");
    let expected_tokens1 = vec![
        Token::IntLiteral(5),
        Token::Plus,
        float(5.5),
        Token::Assignment,
        Token::IntLiteral(11),
        Token::Minus,
        float(0.5),
        Token::NewLine
    ];
    let tokens1 = tokenize(&program1);
    assert_eq!(tokens1, expected_tokens1);

    let program2 = String::from("2.pow(2)");
    let expected_tokens2 = vec![
        Token::IntLiteral(2),
        Token::Dot,
        Token::Name(String::from("pow")),
        Token::OpenBracket,
        Token::IntLiteral(2),
        Token::CloseBracket,
        Token::NewLine
    ];
    let tokens2 = tokenize(&program2);
    assert_eq!(tokens2, expected_tokens2);
}

#[test]
fn var_name_test() {
    let program: String = String::from("to_guess = read(\"Enter your number to guess:\")");
    let expected_tokens = vec![
        Token::Name(String::from("to_guess")),
        Token::Assignment,
        Token::Name(String::from("read")),
        Token::OpenBracket,
        Token::StringLiteral(String::from("Enter your number to guess:")),
        Token::CloseBracket,
        Token::NewLine,
    ];
    let tokens = tokenize(&program);
    assert_eq!(tokens, expected_tokens);
}

#[test]
fn empty_source_has_no_tokens() {
    assert_eq!(lex(""), vec![]);
}

#[test]
fn every_line_ends_in_a_line_end() {
    assert_eq!(lex("\n"), vec![Token::NewLine]);
    assert_eq!(lex("a"), vec![name("a"), Token::NewLine]);
    assert_eq!(lex("a\n"), vec![name("a"), Token::NewLine]);
    assert_eq!(lex("a\n\n"), vec![name("a"), Token::NewLine, Token::NewLine]);
    assert_eq!(
        lex("a\nb"),
        vec![name("a"), Token::NewLine, name("b"), Token::NewLine]
    );
}

#[test]
fn carriage_return_before_line_feed_is_dropped() {
    assert_eq!(
        lex("a\r\nb\r\n"),
        vec![name("a"), Token::NewLine, name("b"), Token::NewLine]
    );
    assert_eq!(lex("\r\n"), vec![Token::NewLine]);
}

#[test]
fn lines_agree_with_std() {
    for source in ["", "\n", "a", "a\n", "a\n\nb", "a\r\nb", "\r\n\r\n", "x = 1\ny = 2\n"] {
        let tokens = lex(source);
        let ends = tokens.iter().filter(|t| **t == Token::NewLine).count();
        assert_eq!(ends, source.lines().count());
    }
}

#[test]
fn keyword_needs_a_boundary() {
    assert_eq!(lex("forest"), vec![name("forest"), Token::NewLine]);
    assert_eq!(lex("for"), vec![Token::For, Token::NewLine]);
    assert_eq!(lex("for x"), vec![Token::For, name("x"), Token::NewLine]);
    assert_eq!(
        lex("if(x)"),
        vec![
            Token::If,
            Token::OpenBracket,
            name("x"),
            Token::CloseBracket,
            Token::NewLine
        ]
    );
    assert_eq!(lex("truely"), vec![name("truely"), Token::NewLine]);
    assert_eq!(lex("in["), vec![Token::In, Token::OpenSquareBracket, Token::NewLine]);
    assert_eq!(lex("fn"), vec![Token::Fn, Token::NewLine]);
    assert_eq!(lex("return x"), vec![Token::Return, name("x"), Token::NewLine]);
    assert_eq!(lex("else"), vec![Token::Else, Token::NewLine]);
    assert_eq!(lex("while "), vec![Token::While, Token::NewLine]);
    assert_eq!(lex("false)"), vec![Token::False, Token::CloseBracket, Token::NewLine]);
    // a bracket of any kind, a comma and a dot end a keyword
    assert_eq!(
        lex("else{"),
        vec![Token::Else, Token::OpenCurlyBracket, Token::NewLine]
    );
    assert_eq!(
        lex("} else{ return}"),
        vec![
            Token::CloseCurlyBraket,
            Token::Else,
            Token::OpenCurlyBracket,
            Token::Return,
            Token::CloseCurlyBraket,
            Token::NewLine
        ]
    );
    assert_eq!(
        lex("f(true, false)"),
        vec![
            name("f"),
            Token::OpenBracket,
            Token::True,
            Token::Comma,
            Token::False,
            Token::CloseBracket,
            Token::NewLine
        ]
    );
    assert_eq!(
        lex("true.x"),
        vec![Token::True, Token::Dot, name("x"), Token::NewLine]
    );
    assert_eq!(lex("if{"), vec![Token::If, Token::OpenCurlyBracket, Token::NewLine]);
    let s = chars("else{");
    assert!(try_read_reserved_word("else", &s, 0, s.len()));
    assert_eq!(read_reserved_token(&s, 0, s.len()), Some((Token::Else, 4)));
    // a letter, a digit or an underscore does not
    assert_eq!(lex("else_"), vec![name("else_"), Token::NewLine]);
    assert_eq!(lex("else1"), vec![name("else1"), Token::NewLine]);
}

#[test]
fn rules_on_an_empty_rest() {
    let s = chars("ab");
    let k = classify(&s);
    assert_eq!(read_token_from_char(&s, 2, 2), None);
    assert_eq!(read_number_token(&s, &k, 2, 2), None);
    assert_eq!(read_string_literal_token(&s, 2, 2), None);
    assert_eq!(read_reserved_token(&s, 2, 2), None);
    assert_eq!(read_name_token(&s, &k, 2, 2), None);
    assert_eq!(read_token_from_string(&s, &k, 2, 2), None);
    assert!(!try_read_reserved_word("if", &s, 2, 2));
    assert!(!try_read_reserved_word("if", &s, 0, 0));
    let none: Vec<char> = Vec::new();
    assert_eq!(read_number_token(&none, &classify(&none), 0, 0), None);
    assert!(!try_read_reserved_word("else", &none, 0, 0));
}

#[test]
fn the_classes_decide_numbers_and_names() {
    let s = chars("a1 b");
    let letter = CharClass { numeric: false, alphanumeric: true };
    let digit = CharClass { numeric: true, alphanumeric: true };
    let other = CharClass { numeric: false, alphanumeric: false };
    assert_eq!(classify(&s), vec![letter, digit, other, letter]);
    assert_eq!(
        tokenize_classified(&s, &classify(&s)),
        vec![name("a1"), name("b"), Token::NewLine]
    );
    // with other classes the same characters give other tokens
    assert_eq!(
        tokenize_classified(&s, &vec![letter, other, other, other]),
        vec![name("a"), Token::NewLine]
    );
    assert_eq!(
        tokenize_classified(&s, &vec![other, digit, other, letter]),
        vec![Token::NewLine]
    );
    assert_eq!(
        tokenize_classified(&s, &vec![digit, digit, other, letter]),
        vec![name("a1"), name("b"), Token::NewLine]
    );
    let s = chars("12");
    assert_eq!(
        tokenize_classified(&s, &vec![digit, digit]),
        vec![Token::IntLiteral(12), Token::NewLine]
    );
    assert_eq!(
        tokenize_classified(&s, &vec![digit, other]),
        vec![Token::IntLiteral(1), Token::NewLine]
    );
}

#[test]
fn comparison_operators() {
    assert_eq!(
        lex("a == b"),
        vec![name("a"), Token::Eq, name("b"), Token::NewLine]
    );
    assert_eq!(
        lex("a != b"),
        vec![name("a"), Token::NotEq, name("b"), Token::NewLine]
    );
    assert_eq!(
        lex("a >= b"),
        vec![name("a"), Token::MoreEq, name("b"), Token::NewLine]
    );
    assert_eq!(
        lex("a <= b"),
        vec![name("a"), Token::LessEq, name("b"), Token::NewLine]
    );
    assert_eq!(
        lex("a > b"),
        vec![name("a"), Token::More, name("b"), Token::NewLine]
    );
    assert_eq!(
        lex("a < b"),
        vec![name("a"), Token::Less, name("b"), Token::NewLine]
    );
    assert_eq!(
        lex("a = b"),
        vec![name("a"), Token::Assignment, name("b"), Token::NewLine]
    );
}

#[test]
fn unrecognised_character_ends_the_line() {
    assert_eq!(lex("a # b"), vec![name("a"), Token::NewLine]);
    assert_eq!(
        lex("a ? b\nc"),
        vec![name("a"), Token::NewLine, name("c"), Token::NewLine]
    );
    // an operator of two characters needs a boundary behind it
    assert_eq!(lex("a==b"), vec![name("a"), Token::NewLine]);
    // `=` at the end of a line is no token
    assert_eq!(lex("a ="), vec![name("a"), Token::NewLine]);
    assert_eq!(lex("\"open"), vec![Token::NewLine]);
}

#[test]
fn number_literals() {
    assert_eq!(lex("12"), vec![Token::IntLiteral(12), Token::NewLine]);
    assert_eq!(lex("0.25"), vec![float(0.25), Token::NewLine]);
    assert_eq!(
        lex("5."),
        vec![Token::IntLiteral(5), Token::Dot, Token::NewLine]
    );
    assert_eq!(
        lex("9223372036854775807"),
        vec![Token::IntLiteral(i64::MAX), Token::NewLine]
    );
    // too large for an integer: the digits are read as a name
    assert_eq!(
        lex("9223372036854775808"),
        vec![name("9223372036854775808"), Token::NewLine]
    );
    // too large for an integer, but a float with its dot
    assert_eq!(
        lex("99999999999999999999."),
        vec![
            Token::FloatLiteral(String::from("99999999999999999999.")),
            Token::NewLine
        ]
    );
    // two dots are no number
    assert_eq!(
        lex("1.2.3"),
        vec![
            name("1"),
            Token::Dot,
            float(2.3),
            Token::NewLine
        ]
    );
    // a sign is a token of its own
    assert_eq!(
        lex("-7"),
        vec![Token::Minus, Token::IntLiteral(7), Token::NewLine]
    );
}

#[test]
fn every_float_literal_is_a_float_to_std() {
    for source in ["0.5", "20.5", "5.25", "99999999999999999999.", "000.000", "1.0"] {
        let tokens = lex(source);
        assert_eq!(tokens.len(), 2);
        match &tokens[0] {
            Token::FloatLiteral(text) => {
                assert_eq!(text.as_str(), source);
                assert!(text.parse::<f64>().is_ok());
            }
            other => panic!("{:?}", other),
        }
    }
}

#[test]
fn number_rule_takes_a_sign() {
    let s = chars("-12 ");
    assert_eq!(
        read_number_token(&s, &classify(&s), 0, s.len()),
        Some((Token::IntLiteral(-12), 3))
    );
    let s = chars("+3.5");
    assert_eq!(
        read_number_token(&s, &classify(&s), 0, s.len()),
        Some((Token::FloatLiteral(String::from("+3.5")), 4))
    );
    let s = chars("-9223372036854775808");
    assert_eq!(
        read_number_token(&s, &classify(&s), 0, s.len()),
        Some((Token::IntLiteral(i64::MIN), 20))
    );
    let s = chars("-");
    assert_eq!(read_number_token(&s, &classify(&s), 0, s.len()), None);
    let s = chars("+.");
    assert_eq!(read_number_token(&s, &classify(&s), 0, s.len()), None);
    let s = chars("x1");
    assert_eq!(read_number_token(&s, &classify(&s), 0, s.len()), None);
    assert_eq!(
        read_number_token(&s, &classify(&s), 1, s.len()),
        Some((Token::IntLiteral(1), 2))
    );
}

#[test]
fn number_rule_agrees_with_std_on_integers() {
    for source in ["0", "007", "42", "9223372036854775807", "9223372036854775808", "+5", "-5", "-0"] {
        let s = chars(source);
        let expected = source.parse::<i64>().ok().map(|i| (Token::IntLiteral(i), s.len()));
        assert_eq!(read_number_token(&s, &classify(&s), 0, s.len()), expected);
    }
}

#[test]
fn unicode_digits_are_no_integers() {
    // an Arabic-Indic digit is numeric, but no decimal digit
    assert_eq!(lex("\u{0663}"), vec![name("\u{0663}"), Token::NewLine]);
    assert!('\u{0663}'.is_numeric());
}

#[test]
fn unicode_names() {
    assert_eq!(
        lex("gr\u{00fc}n = 1"),
        vec![
            name("gr\u{00fc}n"),
            Token::Assignment,
            Token::IntLiteral(1),
            Token::NewLine
        ]
    );
}

#[test]
fn string_rule() {
    let s = chars("\"ab\"c");
    assert_eq!(
        read_string_literal_token(&s, 0, s.len()),
        Some((Token::StringLiteral(String::from("ab")), 4))
    );
    let s = chars("\"\"");
    assert_eq!(
        read_string_literal_token(&s, 0, s.len()),
        Some((Token::StringLiteral(String::new()), 2))
    );
    let s = chars("\"ab");
    assert_eq!(read_string_literal_token(&s, 0, s.len()), None);
    let s = chars("ab\"");
    assert_eq!(read_string_literal_token(&s, 0, s.len()), None);
    // the end of the line bounds the search
    let s = chars("\"ab\"");
    assert_eq!(read_string_literal_token(&s, 0, 3), None);
}

#[test]
fn name_and_reserved_rules() {
    let s = chars("ab_1+");
    assert_eq!(read_name_token(&s, &classify(&s), 0, s.len()), Some((name("ab_1"), 4)));
    assert_eq!(read_name_token(&s, &classify(&s), 4, s.len()), None);
    let s = chars("while(");
    assert_eq!(read_reserved_token(&s, 0, s.len()), Some((Token::While, 5)));
    assert_eq!(read_token_from_string(&s, &classify(&s), 0, s.len()), Some((Token::While, 5)));
    assert!(try_read_reserved_word("while", &s, 0, s.len()));
    assert!(!try_read_reserved_word("whil", &s, 0, s.len()));
    assert!(try_read_reserved_word("while", &s, 0, 5));
    assert!(!try_read_reserved_word("while", &s, 0, 4));
    let s = chars("whiles");
    assert_eq!(read_reserved_token(&s, 0, s.len()), None);
    assert_eq!(read_token_from_string(&s, &classify(&s), 0, s.len()), Some((name("whiles"), 6)));
}

#[test]
fn char_rule() {
    assert_eq!(char_to_simple_token('.'), Some(Token::Dot));
    assert_eq!(char_to_simple_token('('), Some(Token::OpenBracket));
    assert_eq!(char_to_simple_token(')'), Some(Token::CloseBracket));
    assert_eq!(char_to_simple_token('{'), Some(Token::OpenCurlyBracket));
    assert_eq!(char_to_simple_token('}'), Some(Token::CloseCurlyBraket));
    assert_eq!(char_to_simple_token('['), Some(Token::OpenSquareBracket));
    assert_eq!(char_to_simple_token(']'), Some(Token::CloseSquareBracket));
    assert_eq!(char_to_simple_token('+'), Some(Token::Plus));
    assert_eq!(char_to_simple_token('-'), Some(Token::Minus));
    assert_eq!(char_to_simple_token('/'), Some(Token::Devide));
    assert_eq!(char_to_simple_token('*'), Some(Token::Multi));
    assert_eq!(char_to_simple_token(','), Some(Token::Comma));
    assert_eq!(char_to_simple_token('='), None);
    let s = chars("=x");
    assert_eq!(read_token_from_char(&s, 0, s.len()), Some((Token::Assignment, 1)));
    let s = chars("==");
    assert_eq!(read_token_from_char(&s, 0, s.len()), None);
    let s = chars("=");
    assert_eq!(read_token_from_char(&s, 0, s.len()), None);
    let s = chars("<1");
    assert_eq!(read_token_from_char(&s, 0, s.len()), Some((Token::Less, 1)));
    let s = chars(">1");
    assert_eq!(read_token_from_char(&s, 0, s.len()), Some((Token::More, 1)));
}

#[test]
fn token_messages() {
    assert_eq!(Token::Dot.to_string(), "DOT TOKEN");
    assert_eq!(Token::OpenBracket.to_string(), "OPEN BRACE TOKEN");
    assert_eq!(Token::CloseCurlyBraket.to_string(), "CLOSE CURLY BRACE TOKEN");
    assert_eq!(Token::NotEq.to_string(), "NOT EQ TOKEN");
    assert_eq!(Token::In.to_string(), "IN TOKEN");
    assert_eq!(name("abc").to_string(), "NAME TOKEN abc");
    assert_eq!(
        Token::StringLiteral(String::from("s")).to_string(),
        "STRING LITERAL TOKEN WITH VALUE: s"
    );
    assert_eq!(
        Token::IntLiteral(-40).to_string(),
        "INT LITERAL TOKEN WITH VALUE: -40"
    );
    assert_eq!(
        Token::IntLiteral(i64::MIN).to_string(),
        "INT LITERAL TOKEN WITH VALUE: -9223372036854775808"
    );
    assert_eq!(Token::IntLiteral(0).to_string(), "INT LITERAL TOKEN WITH VALUE: 0");
    assert_eq!(float(20.5).to_string(), "FLOAT LITERAL WITH VALUE: 20.5");
}

#[test]
fn token_kinds_and_copies() {
    assert_eq!(name("a").kind(), TokenKind::Name);
    assert_eq!(Token::IntLiteral(3).kind(), TokenKind::IntLiteral);
    assert_eq!(Token::While.kind(), TokenKind::While);
    assert_eq!(Token::simple(TokenKind::LessEq), Token::LessEq);
    assert_eq!(name("a").clone(), name("a"));
    assert_eq!(Token::Else.clone(), Token::Else);
    assert_eq!(name("a").text(), "a");
    assert_eq!(Token::IntLiteral(3).number(), 3);
    assert_eq!(Token::Else.text(), "");
}
