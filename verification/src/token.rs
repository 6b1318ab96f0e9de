//! Tokens: the lexical units that the lexer produces and the parser reads.

use vstd::prelude::*;
use vstd::string::*;
use crate::text::{decimal_text, int_to_decimal, join};

verus! {

/// One lexical unit. Literals and names carry a payload; every other token
/// is its kind alone.
#[derive(PartialEq, Debug)]
pub enum Token {
    Dot,
    Comma,
    Assignment,
    Plus,
    Minus,
    Multi,
    Devide,
    OpenBracket,
    CloseBracket,
    OpenCurlyBracket,
    CloseCurlyBraket,
    OpenSquareBracket,
    CloseSquareBracket,
    StringLiteral(String),
    Name(String),
    IntLiteral(i64),
    /// A number with a fractional part, kept as it is spelled in the source.
    FloatLiteral(String),
    Exec,
    Fn,
    Return,
    While,
    For,
    In,
    If,
    Else,
    NewLine,
    True,
    False,
    Eq,
    NotEq,
    More,
    MoreEq,
    Less,
    LessEq,
}

/// Which variant a token is, without its payload. The parser matches tokens
/// by kind only.
#[derive(Clone, Copy, PartialEq, Eq, Structural, Debug)]
pub enum TokenKind {
    Dot,
    Comma,
    Assignment,
    Plus,
    Minus,
    Multi,
    Devide,
    OpenBracket,
    CloseBracket,
    OpenCurlyBracket,
    CloseCurlyBraket,
    OpenSquareBracket,
    CloseSquareBracket,
    StringLiteral,
    Name,
    IntLiteral,
    FloatLiteral,
    Exec,
    Fn,
    Return,
    While,
    For,
    In,
    If,
    Else,
    NewLine,
    True,
    False,
    Eq,
    NotEq,
    More,
    MoreEq,
    Less,
    LessEq,
}

/// The mathematical value of a token: its kind, the text it carries (empty
/// unless it is a string literal, a float literal or a name) and the number
/// it carries (zero unless it is an integer literal).
pub struct SpecToken {
    pub kind: TokenKind,
    pub text: Seq<char>,
    pub number: i64,
}

impl SpecToken {
    /// A token without payload.
    pub open spec fn simple(kind: TokenKind) -> SpecToken {
        SpecToken { kind, text: Seq::empty(), number: 0 }
    }

    /// A token that carries text.
    pub open spec fn with_text(kind: TokenKind, text: Seq<char>) -> SpecToken {
        SpecToken { kind, text, number: 0 }
    }

    /// An integer literal.
    pub open spec fn integer(number: i64) -> SpecToken {
        SpecToken { kind: TokenKind::IntLiteral, text: Seq::empty(), number }
    }
}

/// Whether tokens of this kind carry text.
pub open spec fn kind_has_text(kind: TokenKind) -> bool {
    kind == TokenKind::StringLiteral || kind == TokenKind::Name || kind == TokenKind::FloatLiteral
}

/// Whether tokens of this kind carry text or a number.
pub open spec fn kind_has_payload(kind: TokenKind) -> bool {
    kind_has_text(kind) || kind == TokenKind::IntLiteral
}

impl Token {
    /// Which variant the token is.
    pub open spec fn spec_kind(&self) -> TokenKind {
        match self {
            Token::Dot => TokenKind::Dot,
            Token::Comma => TokenKind::Comma,
            Token::Assignment => TokenKind::Assignment,
            Token::Plus => TokenKind::Plus,
            Token::Minus => TokenKind::Minus,
            Token::Multi => TokenKind::Multi,
            Token::Devide => TokenKind::Devide,
            Token::OpenBracket => TokenKind::OpenBracket,
            Token::CloseBracket => TokenKind::CloseBracket,
            Token::OpenCurlyBracket => TokenKind::OpenCurlyBracket,
            Token::CloseCurlyBraket => TokenKind::CloseCurlyBraket,
            Token::OpenSquareBracket => TokenKind::OpenSquareBracket,
            Token::CloseSquareBracket => TokenKind::CloseSquareBracket,
            Token::StringLiteral(_) => TokenKind::StringLiteral,
            Token::Name(_) => TokenKind::Name,
            Token::IntLiteral(_) => TokenKind::IntLiteral,
            Token::FloatLiteral(_) => TokenKind::FloatLiteral,
            Token::Exec => TokenKind::Exec,
            Token::Fn => TokenKind::Fn,
            Token::Return => TokenKind::Return,
            Token::While => TokenKind::While,
            Token::For => TokenKind::For,
            Token::In => TokenKind::In,
            Token::If => TokenKind::If,
            Token::Else => TokenKind::Else,
            Token::NewLine => TokenKind::NewLine,
            Token::True => TokenKind::True,
            Token::False => TokenKind::False,
            Token::Eq => TokenKind::Eq,
            Token::NotEq => TokenKind::NotEq,
            Token::More => TokenKind::More,
            Token::MoreEq => TokenKind::MoreEq,
            Token::Less => TokenKind::Less,
            Token::LessEq => TokenKind::LessEq,
        }
    }

    /// The kind of this token.
    pub fn kind(&self) -> (k: TokenKind)
        ensures
            k == self@.kind,
    {
        match self {
            Token::Dot => TokenKind::Dot,
            Token::Comma => TokenKind::Comma,
            Token::Assignment => TokenKind::Assignment,
            Token::Plus => TokenKind::Plus,
            Token::Minus => TokenKind::Minus,
            Token::Multi => TokenKind::Multi,
            Token::Devide => TokenKind::Devide,
            Token::OpenBracket => TokenKind::OpenBracket,
            Token::CloseBracket => TokenKind::CloseBracket,
            Token::OpenCurlyBracket => TokenKind::OpenCurlyBracket,
            Token::CloseCurlyBraket => TokenKind::CloseCurlyBraket,
            Token::OpenSquareBracket => TokenKind::OpenSquareBracket,
            Token::CloseSquareBracket => TokenKind::CloseSquareBracket,
            Token::StringLiteral(_) => TokenKind::StringLiteral,
            Token::Name(_) => TokenKind::Name,
            Token::IntLiteral(_) => TokenKind::IntLiteral,
            Token::FloatLiteral(_) => TokenKind::FloatLiteral,
            Token::Exec => TokenKind::Exec,
            Token::Fn => TokenKind::Fn,
            Token::Return => TokenKind::Return,
            Token::While => TokenKind::While,
            Token::For => TokenKind::For,
            Token::In => TokenKind::In,
            Token::If => TokenKind::If,
            Token::Else => TokenKind::Else,
            Token::NewLine => TokenKind::NewLine,
            Token::True => TokenKind::True,
            Token::False => TokenKind::False,
            Token::Eq => TokenKind::Eq,
            Token::NotEq => TokenKind::NotEq,
            Token::More => TokenKind::More,
            Token::MoreEq => TokenKind::MoreEq,
            Token::Less => TokenKind::Less,
            Token::LessEq => TokenKind::LessEq,
        }
    }

    /// The token of a kind that carries no payload.
    pub fn simple(kind: TokenKind) -> (t: Token)
        requires
            !kind_has_payload(kind),
        ensures
            t@ == SpecToken::simple(kind),
    {
        match kind {
            TokenKind::Dot => Token::Dot,
            TokenKind::Comma => Token::Comma,
            TokenKind::Assignment => Token::Assignment,
            TokenKind::Plus => Token::Plus,
            TokenKind::Minus => Token::Minus,
            TokenKind::Multi => Token::Multi,
            TokenKind::Devide => Token::Devide,
            TokenKind::OpenBracket => Token::OpenBracket,
            TokenKind::CloseBracket => Token::CloseBracket,
            TokenKind::OpenCurlyBracket => Token::OpenCurlyBracket,
            TokenKind::CloseCurlyBraket => Token::CloseCurlyBraket,
            TokenKind::OpenSquareBracket => Token::OpenSquareBracket,
            TokenKind::CloseSquareBracket => Token::CloseSquareBracket,
            TokenKind::Exec => Token::Exec,
            TokenKind::Fn => Token::Fn,
            TokenKind::Return => Token::Return,
            TokenKind::While => Token::While,
            TokenKind::For => Token::For,
            TokenKind::In => Token::In,
            TokenKind::If => Token::If,
            TokenKind::Else => Token::Else,
            TokenKind::NewLine => Token::NewLine,
            TokenKind::True => Token::True,
            TokenKind::False => Token::False,
            TokenKind::Eq => Token::Eq,
            TokenKind::NotEq => Token::NotEq,
            TokenKind::More => Token::More,
            TokenKind::MoreEq => Token::MoreEq,
            TokenKind::Less => Token::Less,
            TokenKind::LessEq => Token::LessEq,
            _ => Token::Dot,
        }
    }

    /// The text this token carries; empty for a token that carries none.
    pub fn text(&self) -> (s: String)
        ensures
            s@ == self@.text,
    {
        match self {
            Token::StringLiteral(text) => text.clone(),
            Token::Name(text) => text.clone(),
            Token::FloatLiteral(text) => text.clone(),
            _ => String::new(),
        }
    }

    /// The number this token carries; zero for a token that carries none.
    pub fn number(&self) -> (n: i64)
        ensures
            n == self@.number,
    {
        match self {
            Token::IntLiteral(number) => *number,
            _ => 0,
        }
    }

    /// The message form of this token: its kind in capitals, followed by
    /// the payload where there is one.
    pub fn to_string(&self) -> (s: String)
        ensures
            s@ == token_text(self@),
    {
        match self {
            Token::StringLiteral(text) => join("STRING LITERAL TOKEN WITH VALUE: ", text.as_str()),
            Token::IntLiteral(number) => {
                let digits = int_to_decimal(*number);
                join("INT LITERAL TOKEN WITH VALUE: ", digits.as_str())
            },
            Token::FloatLiteral(text) => join("FLOAT LITERAL WITH VALUE: ", text.as_str()),
            Token::Name(text) => join("NAME TOKEN ", text.as_str()),
            _ => kind_to_string(self.kind()),
        }
    }
}

impl View for Token {
    type V = SpecToken;

    open spec fn view(&self) -> SpecToken {
        match self {
            Token::StringLiteral(text) => SpecToken::with_text(TokenKind::StringLiteral, text@),
            Token::Name(text) => SpecToken::with_text(TokenKind::Name, text@),
            Token::FloatLiteral(text) => SpecToken::with_text(TokenKind::FloatLiteral, text@),
            Token::IntLiteral(number) => SpecToken::integer(*number),
            _ => SpecToken::simple(self.spec_kind()),
        }
    }
}

impl Clone for Token {
    fn clone(&self) -> (t: Token)
        ensures
            t@ == self@,
    {
        match self {
            Token::StringLiteral(text) => Token::StringLiteral(text.clone()),
            Token::Name(text) => Token::Name(text.clone()),
            Token::FloatLiteral(text) => Token::FloatLiteral(text.clone()),
            Token::IntLiteral(number) => Token::IntLiteral(*number),
            _ => Token::simple(self.kind()),
        }
    }
}

/// The message form of a kind that carries no payload.
pub open spec fn kind_text(kind: TokenKind) -> Seq<char> {
    match kind {
        TokenKind::Dot => "DOT TOKEN"@,
        TokenKind::Comma => "COMMA TOKEN"@,
        TokenKind::Assignment => "ASSIGNMENT TOKEN"@,
        TokenKind::Plus => "PLUS TOKEN"@,
        TokenKind::Minus => "MINUS TOKEN"@,
        TokenKind::Multi => "MULTI TOKEN"@,
        TokenKind::Devide => "DEVIDE TOKEN"@,
        TokenKind::OpenBracket => "OPEN BRACE TOKEN"@,
        TokenKind::CloseBracket => "CLOSE BRACE TOKEN"@,
        TokenKind::OpenCurlyBracket => "OPEN CURLY BRACE TOKEN"@,
        TokenKind::CloseCurlyBraket => "CLOSE CURLY BRACE TOKEN"@,
        TokenKind::OpenSquareBracket => "OPEN SQUARE BRACKET TOKEN"@,
        TokenKind::CloseSquareBracket => "CLOSE SQUARE BRACKET TOKEN"@,
        TokenKind::Exec => "EXEC TOKEN"@,
        TokenKind::Fn => "FN TOKEN"@,
        TokenKind::Return => "RETURN TOKEN"@,
        TokenKind::While => "WHILE TOKEN"@,
        TokenKind::For => "FOR TOKEN"@,
        TokenKind::In => "IN TOKEN"@,
        TokenKind::If => "IF TOKEN"@,
        TokenKind::Else => "ELSE TOKEN"@,
        TokenKind::NewLine => "NEW LINE TOKEN"@,
        TokenKind::True => "TRUE TOKEN"@,
        TokenKind::False => "FALSE TOKEN"@,
        TokenKind::Eq => "EQ TOKEN"@,
        TokenKind::NotEq => "NOT EQ TOKEN"@,
        TokenKind::More => "MORE TOKEN"@,
        TokenKind::MoreEq => "MORE EQ TOKEN"@,
        TokenKind::Less => "LESS TOKEN"@,
        TokenKind::LessEq => "LESS EQ TOKEN"@,
        _ => Seq::empty(),
    }
}

/// The message form of a token.
pub open spec fn token_text(t: SpecToken) -> Seq<char> {
    match t.kind {
        TokenKind::StringLiteral => "STRING LITERAL TOKEN WITH VALUE: "@ + t.text,
        TokenKind::IntLiteral => "INT LITERAL TOKEN WITH VALUE: "@ + decimal_text(t.number as int),
        TokenKind::FloatLiteral => "FLOAT LITERAL WITH VALUE: "@ + t.text,
        TokenKind::Name => "NAME TOKEN "@ + t.text,
        _ => kind_text(t.kind),
    }
}

/// The message form of a kind that carries no payload, as a string.
pub fn kind_to_string(kind: TokenKind) -> (s: String)
    requires
        !kind_has_payload(kind),
    ensures
        s@ == kind_text(kind),
{
    match kind {
            TokenKind::Dot => String::from_str("DOT TOKEN"),
            TokenKind::Comma => String::from_str("COMMA TOKEN"),
            TokenKind::Assignment => String::from_str("ASSIGNMENT TOKEN"),
            TokenKind::Plus => String::from_str("PLUS TOKEN"),
            TokenKind::Minus => String::from_str("MINUS TOKEN"),
            TokenKind::Multi => String::from_str("MULTI TOKEN"),
            TokenKind::Devide => String::from_str("DEVIDE TOKEN"),
            TokenKind::OpenBracket => String::from_str("OPEN BRACE TOKEN"),
            TokenKind::CloseBracket => String::from_str("CLOSE BRACE TOKEN"),
            TokenKind::OpenCurlyBracket => String::from_str("OPEN CURLY BRACE TOKEN"),
            TokenKind::CloseCurlyBraket => String::from_str("CLOSE CURLY BRACE TOKEN"),
            TokenKind::OpenSquareBracket => String::from_str("OPEN SQUARE BRACKET TOKEN"),
            TokenKind::CloseSquareBracket => String::from_str("CLOSE SQUARE BRACKET TOKEN"),
            TokenKind::Exec => String::from_str("EXEC TOKEN"),
            TokenKind::Fn => String::from_str("FN TOKEN"),
            TokenKind::Return => String::from_str("RETURN TOKEN"),
            TokenKind::While => String::from_str("WHILE TOKEN"),
            TokenKind::For => String::from_str("FOR TOKEN"),
            TokenKind::In => String::from_str("IN TOKEN"),
            TokenKind::If => String::from_str("IF TOKEN"),
            TokenKind::Else => String::from_str("ELSE TOKEN"),
            TokenKind::NewLine => String::from_str("NEW LINE TOKEN"),
            TokenKind::True => String::from_str("TRUE TOKEN"),
            TokenKind::False => String::from_str("FALSE TOKEN"),
            TokenKind::Eq => String::from_str("EQ TOKEN"),
            TokenKind::NotEq => String::from_str("NOT EQ TOKEN"),
            TokenKind::More => String::from_str("MORE TOKEN"),
            TokenKind::MoreEq => String::from_str("MORE EQ TOKEN"),
            TokenKind::Less => String::from_str("LESS TOKEN"),
            TokenKind::LessEq => String::from_str("LESS EQ TOKEN"),
        _ => String::new(),
    }
}

/// The values of a row of tokens.
pub open spec fn tokens_view(tokens: Seq<Token>) -> Seq<SpecToken> {
    tokens.map_values(|t: Token| t@)
}

/// Pushing a token pushes its mathematical value.
pub proof fn lemma_tokens_view_push(tokens: Seq<Token>, t: Token)
    ensures
        tokens_view(tokens.push(t)) == tokens_view(tokens).push(t@),
{
}

} // verus!
