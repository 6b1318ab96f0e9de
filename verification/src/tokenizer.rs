//! The lexer: source text to a flat row of tokens.
//!
//! The source is read line by line and every line ends in a `NewLine` token.
//! Within a line the rules are tried in a fixed order at each position: a
//! token that one character decides, a number, a string literal, a reserved
//! word, a name. A space is skipped; any other character that starts no token
//! ends the line.
//!
//! The model works on the whole source as a sequence of characters together
//! with a position `pos` and the end `end` of the line's content. What class
//! a character is of (numeric, alphanumeric) is looked up once for the whole
//! source and handed to the rules beside the characters, so that the rules
//! themselves are stated over plain values.

use vstd::prelude::*;
use vstd::string::*;
use crate::text::{
    char_is_alphanumeric,
    char_is_numeric,
    is_digit,
    is_digit_char,
    parse_int,
    parse_int_spec,
    slice_to_string,
    to_chars,
};
use crate::token::{lemma_tokens_view_push, tokens_view, SpecToken, Token, TokenKind};

verus! {

/// What the lexer needs to know of a character beyond the character itself.
#[derive(Clone, Copy, PartialEq, Eq, Structural, Debug)]
pub struct CharClass {
    /// Whether the character is numeric.
    pub numeric: bool,
    /// Whether the character is alphanumeric.
    pub alphanumeric: bool,
}

/// The class of a character.
pub open spec fn class_of(c: char) -> CharClass {
    CharClass { numeric: char_is_numeric(c), alphanumeric: char_is_alphanumeric(c) }
}

/// The classes of the characters of a text, one for one.
pub open spec fn classes_of(s: Seq<char>) -> Seq<CharClass> {
    s.map_values(|c: char| class_of(c))
}

/// What one rule found: a token, and the position right after it.
pub struct Lexed {
    pub token: SpecToken,
    pub next: int,
}

/// The value of what an executable rule returns.
pub open spec fn lexed_view(r: Option<(Token, usize)>) -> Option<Lexed> {
    match r {
        Some((token, next)) => Some(Lexed { token: token@, next: next as int }),
        None => None,
    }
}

/// The value of a token that may be missing.
pub open spec fn token_option_view(r: Option<Token>) -> Option<SpecToken> {
    match r {
        Some(token) => Some(token@),
        None => None,
    }
}

/// How many characters of `s[from..to]` come before the first `c`, or all of
/// them if there is none.
pub open spec fn gap(s: Seq<char>, from: int, to: int, c: char) -> nat
    decreases to - from,
{
    if from < to && s[from] != c {
        1 + gap(s, from + 1, to, c)
    } else {
        0
    }
}

/// The kind of the token that the character `c` alone decides, if any.
pub open spec fn simple_token(c: char) -> Option<TokenKind> {
    if c == '.' {
        Some(TokenKind::Dot)
    } else if c == '(' {
        Some(TokenKind::OpenBracket)
    } else if c == ')' {
        Some(TokenKind::CloseBracket)
    } else if c == '{' {
        Some(TokenKind::OpenCurlyBracket)
    } else if c == '}' {
        Some(TokenKind::CloseCurlyBraket)
    } else if c == '[' {
        Some(TokenKind::OpenSquareBracket)
    } else if c == ']' {
        Some(TokenKind::CloseSquareBracket)
    } else if c == '+' {
        Some(TokenKind::Plus)
    } else if c == '-' {
        Some(TokenKind::Minus)
    } else if c == '/' {
        Some(TokenKind::Devide)
    } else if c == '*' {
        Some(TokenKind::Multi)
    } else if c == ',' {
        Some(TokenKind::Comma)
    } else {
        None
    }
}

/// The first rule: punctuation and the operators of one character. `=`,
/// `>` and `<` are such a token only when another character follows on the
/// line and it is not `=`.
pub open spec fn char_rule(s: Seq<char>, pos: int, end: int) -> Option<Lexed> {
    if pos >= end {
        None
    } else {
        char_rule_at(s, pos, end)
    }
}

/// The first rule where a character stands at `pos`.
pub open spec fn char_rule_at(s: Seq<char>, pos: int, end: int) -> Option<Lexed> {
    let c = s[pos];
    match simple_token(c) {
        Some(kind) => Some(Lexed { token: SpecToken::simple(kind), next: pos + 1 }),
        None => if (c == '=' || c == '>' || c == '<') && pos + 1 < end && s[pos + 1] != '=' {
            let kind = if c == '=' {
                TokenKind::Assignment
            } else if c == '>' {
                TokenKind::More
            } else {
                TokenKind::Less
            };
            Some(Lexed { token: SpecToken::simple(kind), next: pos + 1 })
        } else {
            None
        },
    }
}

/// How many characters from `from` on continue a number: numeric characters
/// and dots.
pub open spec fn number_run(s: Seq<char>, k: Seq<CharClass>, from: int, end: int) -> nat
    decreases end - from,
{
    if from < end && (k[from].numeric || s[from] == '.') {
        1 + number_run(s, k, from + 1, end)
    } else {
        0
    }
}

/// Whether `s[from..to]` spells a number with a fractional point: an optional
/// sign, then decimal digits around exactly one dot, at least one digit.
pub open spec fn is_decimal_float(s: Seq<char>, from: int, to: int) -> bool {
    let start = if from < to && (s[from] == '+' || s[from] == '-') {
        from + 1
    } else {
        from
    };
    let dot = from + gap(s, from, to, '.');
    &&& dot < to
    &&& to - start >= 2
    &&& forall|i: int| start <= i < to && i != dot ==> is_digit(#[trigger] s[i])
}

/// The number rule. The run starts with a sign or a numeric character and
/// goes on over numeric characters and dots. A run whose only dot is its last
/// character, with an integer before it, is that integer, and the dot is left
/// for the next token. A run with a dot is otherwise a float literal if it is
/// spelled as one; a run without a dot is an integer literal if it is one.
pub open spec fn number_rule(s: Seq<char>, k: Seq<CharClass>, pos: int, end: int) -> Option<
    Lexed,
> {
    let c = s[pos];
    if pos >= end || !(c == '-' || c == '+' || k[pos].numeric) {
        None
    } else {
        let stop = pos + 1 + number_run(s, k, pos + 1, end);
        let dot = pos + gap(s, pos, stop, '.');
        if dot < stop {
            if dot == stop - 1 && parse_int_spec(s.subrange(pos, dot)) is Some {
                Some(
                    Lexed {
                        token: SpecToken::integer(parse_int_spec(s.subrange(pos, dot))->0),
                        next: dot,
                    },
                )
            } else if is_decimal_float(s, pos, stop) {
                Some(
                    Lexed {
                        token: SpecToken::with_text(
                            TokenKind::FloatLiteral,
                            s.subrange(pos, stop),
                        ),
                        next: stop,
                    },
                )
            } else {
                None
            }
        } else {
            match parse_int_spec(s.subrange(pos, stop)) {
                Some(number) => Some(Lexed { token: SpecToken::integer(number), next: stop }),
                None => None,
            }
        }
    }
}

/// The string rule: a double quote, and the text up to the next double quote
/// on the line, taken as it stands.
pub open spec fn string_rule(s: Seq<char>, pos: int, end: int) -> Option<Lexed> {
    let close = pos + 1 + gap(s, pos + 1, end, '"');
    if pos < end && s[pos] == '"' && close < end {
        Some(
            Lexed {
                token: SpecToken::with_text(TokenKind::StringLiteral, s.subrange(pos + 1, close)),
                next: close + 1,
            },
        )
    } else {
        None
    }
}

/// A character that may follow a reserved word: a space, a bracket of any
/// of the three kinds, a comma or a dot.
pub open spec fn is_word_boundary(c: char) -> bool {
    c == ' ' || c == '(' || c == ')' || c == '[' || c == ']' || c == '{' || c == '}' || c == ','
        || c == '.'
}

/// Whether the reserved word `word` stands at `pos`: its characters, and
/// then the end of the line or a boundary character.
pub open spec fn reserved_word_at(s: Seq<char>, pos: int, end: int, word: Seq<char>) -> bool {
    &&& pos + word.len() <= end
    &&& forall|i: int| 0 <= i < word.len() ==> s[pos + i] == #[trigger] word[i]
    &&& (pos + word.len() == end || is_word_boundary(s[pos + word.len()]))
}

/// The reserved word `word` found at `pos`, as a token of kind `kind`.
pub open spec fn reserved(kind: TokenKind, pos: int, word: Seq<char>) -> Option<Lexed> {
    Some(Lexed { token: SpecToken::simple(kind), next: pos + word.len() })
}

/// The rule of the reserved words, in the order in which they are tried.
pub open spec fn reserved_rule(s: Seq<char>, pos: int, end: int) -> Option<Lexed> {
    if reserved_word_at(s, pos, end, "fn"@) {
        reserved(TokenKind::Fn, pos, "fn"@)
    } else if reserved_word_at(s, pos, end, "while"@) {
        reserved(TokenKind::While, pos, "while"@)
    } else if reserved_word_at(s, pos, end, "for"@) {
        reserved(TokenKind::For, pos, "for"@)
    } else if reserved_word_at(s, pos, end, "in"@) {
        reserved(TokenKind::In, pos, "in"@)
    } else if reserved_word_at(s, pos, end, "if"@) {
        reserved(TokenKind::If, pos, "if"@)
    } else if reserved_word_at(s, pos, end, "else"@) {
        reserved(TokenKind::Else, pos, "else"@)
    } else if reserved_word_at(s, pos, end, "return"@) {
        reserved(TokenKind::Return, pos, "return"@)
    } else if reserved_word_at(s, pos, end, "true"@) {
        reserved(TokenKind::True, pos, "true"@)
    } else if reserved_word_at(s, pos, end, "false"@) {
        reserved(TokenKind::False, pos, "false"@)
    } else if reserved_word_at(s, pos, end, "=="@) {
        reserved(TokenKind::Eq, pos, "=="@)
    } else if reserved_word_at(s, pos, end, "!="@) {
        reserved(TokenKind::NotEq, pos, "!="@)
    } else if reserved_word_at(s, pos, end, ">="@) {
        reserved(TokenKind::MoreEq, pos, ">="@)
    } else if reserved_word_at(s, pos, end, "<="@) {
        reserved(TokenKind::LessEq, pos, "<="@)
    } else {
        None
    }
}

/// How many characters from `from` on belong to a name: alphanumeric
/// characters and underscores.
pub open spec fn name_run(s: Seq<char>, k: Seq<CharClass>, from: int, end: int) -> nat
    decreases end - from,
{
    if from < end && (k[from].alphanumeric || s[from] == '_') {
        1 + name_run(s, k, from + 1, end)
    } else {
        0
    }
}

/// The name rule: the longest run of name characters, if it is not empty.
pub open spec fn name_rule(s: Seq<char>, k: Seq<CharClass>, pos: int, end: int) -> Option<Lexed> {
    let stop = pos + name_run(s, k, pos, end);
    if stop > pos {
        Some(
            Lexed {
                token: SpecToken::with_text(TokenKind::Name, s.subrange(pos, stop)),
                next: stop,
            },
        )
    } else {
        None
    }
}

/// The rules for tokens of more than one character, in their order.
pub open spec fn string_rules(s: Seq<char>, k: Seq<CharClass>, pos: int, end: int) -> Option<
    Lexed,
> {
    if number_rule(s, k, pos, end) is Some {
        number_rule(s, k, pos, end)
    } else if string_rule(s, pos, end) is Some {
        string_rule(s, pos, end)
    } else if reserved_rule(s, pos, end) is Some {
        reserved_rule(s, pos, end)
    } else {
        name_rule(s, k, pos, end)
    }
}

/// The token that starts at `pos`, if one does.
pub open spec fn next_token(s: Seq<char>, k: Seq<CharClass>, pos: int, end: int) -> Option<Lexed> {
    if char_rule(s, pos, end) is Some {
        char_rule(s, pos, end)
    } else {
        string_rules(s, k, pos, end)
    }
}

/// Every rule consumes at least one character and stays within the line.
pub proof fn lemma_next_token_advances(s: Seq<char>, k: Seq<CharClass>, pos: int, end: int)
    requires
        0 <= pos < end <= s.len(),
    ensures
        next_token(s, k, pos, end) matches Some(found) ==> pos < found.next <= end,
{
    reveal_strlit("fn");
    reveal_strlit("while");
    reveal_strlit("for");
    reveal_strlit("in");
    reveal_strlit("if");
    reveal_strlit("else");
    reveal_strlit("return");
    reveal_strlit("true");
    reveal_strlit("false");
    reveal_strlit("==");
    reveal_strlit("!=");
    reveal_strlit(">=");
    reveal_strlit("<=");
    lemma_number_run_bound(s, k, pos + 1, end);
    lemma_name_run_bound(s, k, pos, end);
    lemma_gap_bound(s, pos + 1, end, '"');
    let stop = pos + 1 + number_run(s, k, pos + 1, end);
    lemma_gap_bound(s, pos, stop, '.');
}

/// The first `c` is found within the range, and no `c` stands before it.
pub proof fn lemma_gap_bound(s: Seq<char>, from: int, to: int, c: char)
    requires
        0 <= from <= to <= s.len(),
    ensures
        from + gap(s, from, to, c) <= to,
        from + gap(s, from, to, c) < to ==> s[from + gap(s, from, to, c)] == c,
        forall|i: int| from <= i < from + gap(s, from, to, c) ==> s[i] != c,
    decreases to - from,
{
    if from < to && s[from] != c {
        lemma_gap_bound(s, from + 1, to, c);
    }
}

proof fn lemma_number_run_bound(s: Seq<char>, k: Seq<CharClass>, from: int, end: int)
    requires
        0 <= from <= end <= s.len(),
    ensures
        from + number_run(s, k, from, end) <= end,
    decreases end - from,
{
    if from < end && (k[from].numeric || s[from] == '.') {
        lemma_number_run_bound(s, k, from + 1, end);
    }
}

proof fn lemma_name_run_bound(s: Seq<char>, k: Seq<CharClass>, from: int, end: int)
    requires
        0 <= from <= end <= s.len(),
    ensures
        from + name_run(s, k, from, end) <= end,
    decreases end - from,
{
    if from < end && (k[from].alphanumeric || s[from] == '_') {
        lemma_name_run_bound(s, k, from + 1, end);
    }
}

/// The tokens of the line content `s[pos..end]`.
pub open spec fn line_tokens(s: Seq<char>, k: Seq<CharClass>, pos: int, end: int) -> Seq<
    SpecToken,
>
    decreases end - pos,
{
    if 0 <= pos < end <= s.len() {
        match next_token(s, k, pos, end) {
            Some(found) => {
                proof {
                    lemma_next_token_advances(s, k, pos, end);
                }
                seq![found.token] + line_tokens(s, k, found.next, end)
            },
            None => if s[pos] == ' ' {
                line_tokens(s, k, pos + 1, end)
            } else {
                Seq::empty()
            },
        }
    } else {
        Seq::empty()
    }
}

/// The tokens of the source from the start of a line at `pos` on. A line
/// goes up to the next line feed or the end of the source; a carriage return
/// right before the line feed is not part of its content. Nothing follows a
/// final line feed.
pub open spec fn tokens_from(s: Seq<char>, k: Seq<CharClass>, pos: int) -> Seq<SpecToken>
    decreases s.len() - pos,
{
    if 0 <= pos < s.len() {
        let stop = pos + gap(s, pos, s.len() as int, '\n');
        let end = if stop < s.len() && stop > pos && s[stop - 1] == '\r' {
            stop - 1
        } else {
            stop
        };
        let rest = if stop < s.len() {
            tokens_from(s, k, stop + 1)
        } else {
            Seq::empty()
        };
        line_tokens(s, k, pos, end).push(SpecToken::simple(TokenKind::NewLine)) + rest
    } else {
        Seq::empty()
    }
}

/// The tokens of a text whose characters are of the classes `k`.
pub open spec fn classified_tokens(s: Seq<char>, k: Seq<CharClass>) -> Seq<SpecToken> {
    tokens_from(s, k, 0)
}

/// The tokens of a source text.
pub open spec fn tokenize_spec(s: Seq<char>) -> Seq<SpecToken> {
    classified_tokens(s, classes_of(s))
}

/// Looks up the class of every character.
pub fn classify(s: &Vec<char>) -> (k: Vec<CharClass>)
    ensures
        k@ == classes_of(s@),
{
    let mut k: Vec<CharClass> = Vec::new();
    let mut i: usize = 0;
    while i < s.len()
        invariant
            i <= s@.len(),
            k@.len() == i,
            forall|j: int| 0 <= j < i ==> k@[j] == class_of(s@[j]),
        decreases s.len() - i,
    {
        let c = s[i];
        k.push(CharClass { numeric: c.is_numeric(), alphanumeric: c.is_alphanumeric() });
        i += 1;
    }
    assert(k@ =~= classes_of(s@));
    k
}

/// Finds the first `c` in `s[from..to]`; gives `to` if there is none.
pub fn find_char(s: &Vec<char>, from: usize, to: usize, c: char) -> (at: usize)
    requires
        from <= to <= s@.len(),
    ensures
        at == from + gap(s@, from as int, to as int, c),
        from <= at <= to,
{
    let mut at: usize = from;
    while at < to && s[at] != c
        invariant
            from <= at <= to <= s@.len(),
            at + gap(s@, at as int, to as int, c) == from + gap(s@, from as int, to as int, c),
        decreases to - at,
    {
        at += 1;
    }
    at
}

/// The token that the character `ch` alone decides, if any.
pub fn char_to_simple_token(ch: char) -> (r: Option<Token>)
    ensures
        token_option_view(r) == match simple_token(ch) {
            Some(kind) => Some(SpecToken::simple(kind)),
            None => None,
        },
{
    if ch == '.' {
        Some(Token::Dot)
    } else if ch == '(' {
        Some(Token::OpenBracket)
    } else if ch == ')' {
        Some(Token::CloseBracket)
    } else if ch == '{' {
        Some(Token::OpenCurlyBracket)
    } else if ch == '}' {
        Some(Token::CloseCurlyBraket)
    } else if ch == '[' {
        Some(Token::OpenSquareBracket)
    } else if ch == ']' {
        Some(Token::CloseSquareBracket)
    } else if ch == '+' {
        Some(Token::Plus)
    } else if ch == '-' {
        Some(Token::Minus)
    } else if ch == '/' {
        Some(Token::Devide)
    } else if ch == '*' {
        Some(Token::Multi)
    } else if ch == ',' {
        Some(Token::Comma)
    } else {
        None
    }
}

/// Applies the first rule at `pos`.
pub fn read_token_from_char(s: &Vec<char>, pos: usize, end: usize) -> (r: Option<(Token, usize)>)
    requires
        pos <= end <= s@.len(),
    ensures
        lexed_view(r) == char_rule(s@, pos as int, end as int),
{
    if pos >= end {
        return None;
    }
    let c = s[pos];
    match char_to_simple_token(c) {
        Some(token) => Some((token, pos + 1)),
        None => {
            if (c == '=' || c == '>' || c == '<') && pos + 1 < end && s[pos + 1] != '=' {
                let token = if c == '=' {
                    Token::Assignment
                } else if c == '>' {
                    Token::More
                } else {
                    Token::Less
                };
                Some((token, pos + 1))
            } else {
                None
            }
        },
    }
}

fn scan_number(s: &Vec<char>, k: &Vec<CharClass>, from: usize, end: usize) -> (stop: usize)
    requires
        from <= end <= s@.len(),
        k@.len() == s@.len(),
    ensures
        stop == from + number_run(s@, k@, from as int, end as int),
        from <= stop <= end,
{
    let mut stop: usize = from;
    while stop < end && (k[stop].numeric || s[stop] == '.')
        invariant
            from <= stop <= end <= s@.len(),
            k@.len() == s@.len(),
            stop + number_run(s@, k@, stop as int, end as int) == from + number_run(
                s@,
                k@,
                from as int,
                end as int,
            ),
        decreases end - stop,
    {
        stop += 1;
    }
    stop
}

fn scan_name(s: &Vec<char>, k: &Vec<CharClass>, from: usize, end: usize) -> (stop: usize)
    requires
        from <= end <= s@.len(),
        k@.len() == s@.len(),
    ensures
        stop == from + name_run(s@, k@, from as int, end as int),
        from <= stop <= end,
{
    let mut stop: usize = from;
    while stop < end && (k[stop].alphanumeric || s[stop] == '_')
        invariant
            from <= stop <= end <= s@.len(),
            k@.len() == s@.len(),
            stop + name_run(s@, k@, stop as int, end as int) == from + name_run(
                s@,
                k@,
                from as int,
                end as int,
            ),
        decreases end - stop,
    {
        stop += 1;
    }
    stop
}

/// Whether `s[from..to]`, whose first dot is at `dot`, spells a float.
#[verifier::loop_isolation(false)]
fn check_decimal_float(s: &Vec<char>, from: usize, to: usize, dot: usize) -> (r: bool)
    requires
        from <= dot < to <= s@.len(),
        dot == from + gap(s@, from as int, to as int, '.'),
    ensures
        r == is_decimal_float(s@, from as int, to as int),
{
    let start: usize = if s[from] == '+' || s[from] == '-' {
        from + 1
    } else {
        from
    };
    if to - start < 2 {
        return false;
    }
    let mut i: usize = start;
    while i < to
        invariant
            start <= i <= to <= s@.len(),
            forall|j: int| start <= j < i && j != dot ==> is_digit(#[trigger] s@[j]),
        decreases to - i,
    {
        if i != dot && !is_digit_char(s[i]) {
            return false;
        }
        i += 1;
    }
    true
}

/// Applies the number rule at `pos`, to characters of the classes `k`.
pub fn read_number_token(s: &Vec<char>, k: &Vec<CharClass>, pos: usize, end: usize) -> (r: Option<
    (Token, usize),
>)
    requires
        pos <= end <= s@.len(),
        k@.len() == s@.len(),
    ensures
        lexed_view(r) == number_rule(s@, k@, pos as int, end as int),
{
    if pos >= end {
        return None;
    }
    let c = s[pos];
    if !(c == '-' || c == '+' || k[pos].numeric) {
        return None;
    }
    let stop = scan_number(s, k, pos + 1, end);
    let dot = find_char(s, pos, stop, '.');
    if dot < stop {
        if dot == stop - 1 {
            if let Some(number) = parse_int(s, pos, dot) {
                return Some((Token::IntLiteral(number), dot));
            }
        }
        if check_decimal_float(s, pos, stop, dot) {
            let text = slice_to_string(s, pos, stop);
            return Some((Token::FloatLiteral(text), stop));
        }
        None
    } else {
        match parse_int(s, pos, stop) {
            Some(number) => Some((Token::IntLiteral(number), stop)),
            None => None,
        }
    }
}

/// Applies the string rule at `pos`.
pub fn read_string_literal_token(s: &Vec<char>, pos: usize, end: usize) -> (r: Option<
    (Token, usize),
>)
    requires
        pos <= end <= s@.len(),
    ensures
        lexed_view(r) == string_rule(s@, pos as int, end as int),
{
    if pos >= end || s[pos] != '"' {
        return None;
    }
    let close = find_char(s, pos + 1, end, '"');
    if close < end {
        let text = slice_to_string(s, pos + 1, close);
        Some((Token::StringLiteral(text), close + 1))
    } else {
        None
    }
}

/// Whether the reserved word stands at `pos`, followed by the end of the
/// line or a boundary character.
#[verifier::loop_isolation(false)]
pub fn try_read_reserved_word(reserved: &str, s: &Vec<char>, pos: usize, end: usize) -> (r: bool)
    requires
        pos <= end <= s@.len(),
    ensures
        r == reserved_word_at(s@, pos as int, end as int, reserved@),
{
    let word = to_chars(reserved);
    let n = word.len();
    if n > end - pos {
        return false;
    }
    let mut i: usize = 0;
    while i < n
        invariant
            i <= n,
            n == word@.len(),
            pos + n <= end <= s@.len(),
            forall|j: int| 0 <= j < i ==> s@[pos + j] == #[trigger] word@[j],
        decreases n - i,
    {
        if s[pos + i] != word[i] {
            return false;
        }
        i += 1;
    }
    if pos + n == end {
        return true;
    }
    let c = s[pos + n];
    c == ' ' || c == '(' || c == ')' || c == '[' || c == ']' || c == '{' || c == '}' || c == ','
        || c == '.'
}

fn read_reserved(reserved: &str, token: Token, s: &Vec<char>, pos: usize, end: usize) -> (r:
    Option<(Token, usize)>)
    requires
        pos <= end <= s@.len(),
    ensures
        reserved_word_at(s@, pos as int, end as int, reserved@) ==> r == Some(
            (token, (pos + reserved@.len()) as usize),
        ) && pos + reserved@.len() <= end,
        !reserved_word_at(s@, pos as int, end as int, reserved@) ==> r is None,
{
    if try_read_reserved_word(reserved, s, pos, end) {
        Some((token, pos + reserved.unicode_len()))
    } else {
        None
    }
}

/// Applies the rule of the reserved words at `pos`.
pub fn read_reserved_token(s: &Vec<char>, pos: usize, end: usize) -> (r: Option<(Token, usize)>)
    requires
        pos <= end <= s@.len(),
    ensures
        lexed_view(r) == reserved_rule(s@, pos as int, end as int),
{
    if let Some(found) = read_reserved("fn", Token::Fn, s, pos, end) {
        return Some(found);
    }
    if let Some(found) = read_reserved("while", Token::While, s, pos, end) {
        return Some(found);
    }
    if let Some(found) = read_reserved("for", Token::For, s, pos, end) {
        return Some(found);
    }
    if let Some(found) = read_reserved("in", Token::In, s, pos, end) {
        return Some(found);
    }
    if let Some(found) = read_reserved("if", Token::If, s, pos, end) {
        return Some(found);
    }
    if let Some(found) = read_reserved("else", Token::Else, s, pos, end) {
        return Some(found);
    }
    if let Some(found) = read_reserved("return", Token::Return, s, pos, end) {
        return Some(found);
    }
    if let Some(found) = read_reserved("true", Token::True, s, pos, end) {
        return Some(found);
    }
    if let Some(found) = read_reserved("false", Token::False, s, pos, end) {
        return Some(found);
    }
    if let Some(found) = read_reserved("==", Token::Eq, s, pos, end) {
        return Some(found);
    }
    if let Some(found) = read_reserved("!=", Token::NotEq, s, pos, end) {
        return Some(found);
    }
    if let Some(found) = read_reserved(">=", Token::MoreEq, s, pos, end) {
        return Some(found);
    }
    if let Some(found) = read_reserved("<=", Token::LessEq, s, pos, end) {
        return Some(found);
    }
    None
}

/// Applies the name rule at `pos`, to characters of the classes `k`.
pub fn read_name_token(s: &Vec<char>, k: &Vec<CharClass>, pos: usize, end: usize) -> (r: Option<
    (Token, usize),
>)
    requires
        pos <= end <= s@.len(),
        k@.len() == s@.len(),
    ensures
        lexed_view(r) == name_rule(s@, k@, pos as int, end as int),
{
    let stop = scan_name(s, k, pos, end);
    if stop > pos {
        let text = slice_to_string(s, pos, stop);
        Some((Token::Name(text), stop))
    } else {
        None
    }
}

/// Applies the rules for tokens of more than one character at `pos`, to
/// characters of the classes `k`.
pub fn read_token_from_string(s: &Vec<char>, k: &Vec<CharClass>, pos: usize, end: usize) -> (r:
    Option<(Token, usize)>)
    requires
        pos <= end <= s@.len(),
        k@.len() == s@.len(),
    ensures
        lexed_view(r) == string_rules(s@, k@, pos as int, end as int),
{
    if let Some(found) = read_number_token(s, k, pos, end) {
        return Some(found);
    }
    if let Some(found) = read_string_literal_token(s, pos, end) {
        return Some(found);
    }
    if let Some(found) = read_reserved_token(s, pos, end) {
        return Some(found);
    }
    read_name_token(s, k, pos, end)
}

/// Appends the tokens of the line content `s[pos..end]` to `result`.
fn tokenize_line(
    s: &Vec<char>,
    k: &Vec<CharClass>,
    pos: usize,
    end: usize,
    result: &mut Vec<Token>,
)
    requires
        pos <= end <= s@.len(),
        k@.len() == s@.len(),
    ensures
        tokens_view(final(result)@) == tokens_view(old(result)@) + line_tokens(
            s@,
            k@,
            pos as int,
            end as int,
        ),
{
    let mut at: usize = pos;
    while at < end
        invariant
            pos <= at <= end <= s@.len(),
            k@.len() == s@.len(),
            tokens_view(result@) + line_tokens(s@, k@, at as int, end as int) == tokens_view(
                old(result)@,
            ) + line_tokens(s@, k@, pos as int, end as int),
        decreases end - at,
    {
        proof {
            lemma_next_token_advances(s@, k@, at as int, end as int);
        }
        let found = match read_token_from_char(s, at, end) {
            Some(found) => Some(found),
            None => read_token_from_string(s, k, at, end),
        };
        match found {
            Some((token, next)) => {
                proof {
                    lemma_tokens_view_push(result@, token);
                }
                result.push(token);
                at = next;
            },
            None => {
                if s[at] == ' ' {
                    at += 1;
                } else {
                    at = end;
                }
            },
        }
    }
}

/// Turns a text into its tokens, given the class of each of its characters.
pub fn tokenize_classified(s: &Vec<char>, k: &Vec<CharClass>) -> (result: Vec<Token>)
    requires
        k@.len() == s@.len(),
    ensures
        tokens_view(result@) == classified_tokens(s@, k@),
{
    let n = s.len();
    let mut result: Vec<Token> = Vec::new();
    let mut pos: usize = 0;
    while pos < n
        invariant
            n == s@.len(),
            k@.len() == s@.len(),
            pos <= n,
            tokens_view(result@) + tokens_from(s@, k@, pos as int) == classified_tokens(s@, k@),
        decreases n - pos,
    {
        let stop = find_char(s, pos, n, '\n');
        let end = if stop < n && stop > pos && s[stop - 1] == '\r' {
            stop - 1
        } else {
            stop
        };
        tokenize_line(s, k, pos, end, &mut result);
        proof {
            lemma_tokens_view_push(result@, Token::NewLine);
        }
        result.push(Token::NewLine);
        let next = if stop < n {
            stop + 1
        } else {
            n
        };
        pos = next;
    }
    result
}

/// Turns a source text into its tokens.
pub fn tokenize(program: &String) -> (result: Vec<Token>)
    ensures
        tokens_view(result@) == tokenize_spec(program@),
{
    let s = to_chars(program.as_str());
    let k = classify(&s);
    tokenize_classified(&s, &k)
}

} // verus!
