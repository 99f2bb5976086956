use crate::text::{debug_text, decimal, decimal_string, str_debug, text_of};
use vstd::prelude::*;
use vstd::std_specs::cmp::PartialEqSpecImpl;

verus! {

/// A lexical unit of the language. Literal payloads are already decoded: an
/// integer holds its value, a string holds the text between its quotes with
/// escapes left as written.
#[derive(Debug)]
pub enum Token {
    Fn,
    Return,
    If,
    Else,
    While,
    For,
    LParen,
    RParen,
    LBrace,
    RBrace,
    LBracket,
    RBracket,
    Comma,
    Semicolon,
    Colon,
    Period,
    Arrow,
    EqEq,
    NotEq,
    LtEq,
    GtEq,
    AndAnd,
    OrOr,
    Eq,
    Lt,
    Gt,
    Plus,
    Minus,
    Star,
    Slash,
    Bang,
    Int(u64),
    Str(String),
    Ident(String),
    /// A `//` comment. The lexer consumes comments without emitting them, so
    /// this variant never occurs in its output.
    LineComment,
}

/// The mathematical value of a [`Token`]: the same alphabet, with texts as
/// sequences of characters.
pub enum TokenModel {
    Fn,
    Return,
    If,
    Else,
    While,
    For,
    LParen,
    RParen,
    LBrace,
    RBrace,
    LBracket,
    RBracket,
    Comma,
    Semicolon,
    Colon,
    Period,
    Arrow,
    EqEq,
    NotEq,
    LtEq,
    GtEq,
    AndAnd,
    OrOr,
    Eq,
    Lt,
    Gt,
    Plus,
    Minus,
    Star,
    Slash,
    Bang,
    Int(u64),
    Str(Seq<char>),
    Ident(Seq<char>),
    LineComment,
}

impl View for Token {
    type V = TokenModel;

    open spec fn view(&self) -> TokenModel {
        match *self {
            Token::Fn => TokenModel::Fn,
            Token::Return => TokenModel::Return,
            Token::If => TokenModel::If,
            Token::Else => TokenModel::Else,
            Token::While => TokenModel::While,
            Token::For => TokenModel::For,
            Token::LParen => TokenModel::LParen,
            Token::RParen => TokenModel::RParen,
            Token::LBrace => TokenModel::LBrace,
            Token::RBrace => TokenModel::RBrace,
            Token::LBracket => TokenModel::LBracket,
            Token::RBracket => TokenModel::RBracket,
            Token::Comma => TokenModel::Comma,
            Token::Semicolon => TokenModel::Semicolon,
            Token::Colon => TokenModel::Colon,
            Token::Period => TokenModel::Period,
            Token::Arrow => TokenModel::Arrow,
            Token::EqEq => TokenModel::EqEq,
            Token::NotEq => TokenModel::NotEq,
            Token::LtEq => TokenModel::LtEq,
            Token::GtEq => TokenModel::GtEq,
            Token::AndAnd => TokenModel::AndAnd,
            Token::OrOr => TokenModel::OrOr,
            Token::Eq => TokenModel::Eq,
            Token::Lt => TokenModel::Lt,
            Token::Gt => TokenModel::Gt,
            Token::Plus => TokenModel::Plus,
            Token::Minus => TokenModel::Minus,
            Token::Star => TokenModel::Star,
            Token::Slash => TokenModel::Slash,
            Token::Bang => TokenModel::Bang,
            Token::Int(v) => TokenModel::Int(v),
            Token::Str(s) => TokenModel::Str(s@),
            Token::Ident(s) => TokenModel::Ident(s@),
            Token::LineComment => TokenModel::LineComment,
        }
    }
}

impl Clone for Token {
    fn clone(&self) -> (r: Token)
        ensures
            r@ == self@,
    {
        match self {
            Token::Fn => Token::Fn,
            Token::Return => Token::Return,
            Token::If => Token::If,
            Token::Else => Token::Else,
            Token::While => Token::While,
            Token::For => Token::For,
            Token::LParen => Token::LParen,
            Token::RParen => Token::RParen,
            Token::LBrace => Token::LBrace,
            Token::RBrace => Token::RBrace,
            Token::LBracket => Token::LBracket,
            Token::RBracket => Token::RBracket,
            Token::Comma => Token::Comma,
            Token::Semicolon => Token::Semicolon,
            Token::Colon => Token::Colon,
            Token::Period => Token::Period,
            Token::Arrow => Token::Arrow,
            Token::EqEq => Token::EqEq,
            Token::NotEq => Token::NotEq,
            Token::LtEq => Token::LtEq,
            Token::GtEq => Token::GtEq,
            Token::AndAnd => Token::AndAnd,
            Token::OrOr => Token::OrOr,
            Token::Eq => Token::Eq,
            Token::Lt => Token::Lt,
            Token::Gt => Token::Gt,
            Token::Plus => Token::Plus,
            Token::Minus => Token::Minus,
            Token::Star => Token::Star,
            Token::Slash => Token::Slash,
            Token::Bang => Token::Bang,
            Token::Int(v) => Token::Int(*v),
            Token::Str(s) => Token::Str(s.clone()),
            Token::Ident(s) => Token::Ident(s.clone()),
            Token::LineComment => Token::LineComment,
        }
    }
}

impl PartialEq for Token {
    fn eq(&self, other: &Token) -> (r: bool) {
        match (self, other) {
            (Token::Fn, Token::Fn) => true,
            (Token::Return, Token::Return) => true,
            (Token::If, Token::If) => true,
            (Token::Else, Token::Else) => true,
            (Token::While, Token::While) => true,
            (Token::For, Token::For) => true,
            (Token::LParen, Token::LParen) => true,
            (Token::RParen, Token::RParen) => true,
            (Token::LBrace, Token::LBrace) => true,
            (Token::RBrace, Token::RBrace) => true,
            (Token::LBracket, Token::LBracket) => true,
            (Token::RBracket, Token::RBracket) => true,
            (Token::Comma, Token::Comma) => true,
            (Token::Semicolon, Token::Semicolon) => true,
            (Token::Colon, Token::Colon) => true,
            (Token::Period, Token::Period) => true,
            (Token::Arrow, Token::Arrow) => true,
            (Token::EqEq, Token::EqEq) => true,
            (Token::NotEq, Token::NotEq) => true,
            (Token::LtEq, Token::LtEq) => true,
            (Token::GtEq, Token::GtEq) => true,
            (Token::AndAnd, Token::AndAnd) => true,
            (Token::OrOr, Token::OrOr) => true,
            (Token::Eq, Token::Eq) => true,
            (Token::Lt, Token::Lt) => true,
            (Token::Gt, Token::Gt) => true,
            (Token::Plus, Token::Plus) => true,
            (Token::Minus, Token::Minus) => true,
            (Token::Star, Token::Star) => true,
            (Token::Slash, Token::Slash) => true,
            (Token::Bang, Token::Bang) => true,
            (Token::Int(a), Token::Int(b)) => *a == *b,
            (Token::Str(a), Token::Str(b)) => *a == *b,
            (Token::Ident(a), Token::Ident(b)) => *a == *b,
            (Token::LineComment, Token::LineComment) => true,
            _ => false,
        }
    }
}

impl PartialEqSpecImpl for Token {
    open spec fn obeys_eq_spec() -> bool {
        true
    }

    open spec fn eq_spec(&self, other: &Token) -> bool {
        self@ == other@
    }
}

/// The values of a sequence of tokens, in order.
pub open spec fn view_all(tokens: Seq<Token>) -> Seq<TokenModel> {
    tokens.map_values(|t: Token| t@)
}

/// The classes of characters that the lexical grammar builds runs from.
#[derive(Clone, Copy, Debug)]
pub enum CharClass {
    /// Blank, tab, carriage return, line feed and form feed.
    Space,
    /// The decimal digits.
    Digit,
    /// Letters, digits and the underscore: what an identifier continues with.
    Word,
    /// Everything but a line feed: what a line comment continues with.
    CommentBody,
}

pub open spec fn in_class(c: char, class: CharClass) -> bool {
    match class {
        CharClass::Space => c == ' ' || c == '\t' || c == '\r' || c == '\n' || c == '\x0c',
        CharClass::Digit => '0' <= c <= '9',
        CharClass::Word => ('a' <= c <= 'z') || ('A' <= c <= 'Z') || ('0' <= c <= '9') || c
            == '_',
        CharClass::CommentBody => c != '\n',
    }
}

/// `n` is the length of the longest prefix of `s` made of characters of `class`.
pub open spec fn is_run(s: Seq<char>, n: int, class: CharClass) -> bool {
    &&& 0 <= n <= s.len()
    &&& forall|k: int| 0 <= k < n ==> in_class(#[trigger] s[k], class)
    &&& (n < s.len() ==> !in_class(s[n], class))
}

/// The length of the longest prefix of `s` made of characters of `class`.
pub open spec fn run_len(s: Seq<char>, class: CharClass) -> int {
    choose|n: int| is_run(s, n, class)
}

/// The value of a digit character.
pub open spec fn digit_of(c: char) -> nat {
    (c as u32 - '0' as u32) as nat
}

/// The number that a sequence of digits writes in base ten.
pub open spec fn digits_value(d: Seq<char>) -> nat
    decreases d.len(),
{
    if d.len() == 0 {
        0
    } else {
        10 * digits_value(d.drop_last()) + digit_of(d.last())
    }
}

/// Scanning a string literal from index `i`, which lies after the opening
/// quote: the index just after the closing quote, if the literal closes. A
/// backslash takes the next character with it, unless that is a line feed.
pub open spec fn string_close(s: Seq<char>, i: int) -> Option<int>
    decreases s.len() - i,
{
    if i < 0 || i >= s.len() {
        None
    } else if s[i] == '"' {
        Some(i + 1)
    } else if s[i] == '\\' {
        if i + 1 < s.len() && s[i + 1] != '\n' {
            string_close(s, i + 2)
        } else {
            None
        }
    } else {
        string_close(s, i + 1)
    }
}

/// The keyword that `text` spells, or else the identifier `text`.
pub open spec fn word_token(text: Seq<char>) -> TokenModel {
    if text == "fn"@ {
        TokenModel::Fn
    } else if text == "return"@ {
        TokenModel::Return
    } else if text == "if"@ {
        TokenModel::If
    } else if text == "else"@ {
        TokenModel::Else
    } else if text == "while"@ {
        TokenModel::While
    } else if text == "for"@ {
        TokenModel::For
    } else {
        TokenModel::Ident(text)
    }
}

/// The operator or delimiter that starts with `c`, given the character `d`
/// that follows it, and the number of characters it takes. A two-character
/// operator wins over its one-character prefix.
pub open spec fn symbol(c: char, d: Option<char>) -> Option<(TokenModel, int)> {
    if c == '(' {
        Some((TokenModel::LParen, 1))
    } else if c == ')' {
        Some((TokenModel::RParen, 1))
    } else if c == '{' {
        Some((TokenModel::LBrace, 1))
    } else if c == '}' {
        Some((TokenModel::RBrace, 1))
    } else if c == '[' {
        Some((TokenModel::LBracket, 1))
    } else if c == ']' {
        Some((TokenModel::RBracket, 1))
    } else if c == ',' {
        Some((TokenModel::Comma, 1))
    } else if c == ';' {
        Some((TokenModel::Semicolon, 1))
    } else if c == ':' {
        Some((TokenModel::Colon, 1))
    } else if c == '.' {
        Some((TokenModel::Period, 1))
    } else if c == '+' {
        Some((TokenModel::Plus, 1))
    } else if c == '*' {
        Some((TokenModel::Star, 1))
    } else if c == '/' {
        Some((TokenModel::Slash, 1))
    } else if c == '-' {
        if d == Some('>') {
            Some((TokenModel::Arrow, 2))
        } else {
            Some((TokenModel::Minus, 1))
        }
    } else if c == '=' {
        if d == Some('=') {
            Some((TokenModel::EqEq, 2))
        } else {
            Some((TokenModel::Eq, 1))
        }
    } else if c == '!' {
        if d == Some('=') {
            Some((TokenModel::NotEq, 2))
        } else {
            Some((TokenModel::Bang, 1))
        }
    } else if c == '<' {
        if d == Some('=') {
            Some((TokenModel::LtEq, 2))
        } else {
            Some((TokenModel::Lt, 1))
        }
    } else if c == '>' {
        if d == Some('=') {
            Some((TokenModel::GtEq, 2))
        } else {
            Some((TokenModel::Gt, 1))
        }
    } else if c == '&' {
        if d == Some('&') {
            Some((TokenModel::AndAnd, 2))
        } else {
            None
        }
    } else if c == '|' {
        if d == Some('|') {
            Some((TokenModel::OrOr, 2))
        } else {
            None
        }
    } else {
        None
    }
}

/// What the lexer finds at the start of a text.
pub enum Lexeme {
    /// White space or a comment: consumed, nothing emitted.
    Trivia,
    /// A token.
    Emit(TokenModel),
    /// Nothing that the grammar knows.
    Invalid,
}

/// The character of `s` at index `i`, if there is one.
pub open spec fn char_at(s: Seq<char>, i: int) -> Option<char> {
    if 0 <= i < s.len() {
        Some(s[i])
    } else {
        None
    }
}

/// The lexeme at the start of the non-empty text `s`, and its length.
pub open spec fn first_lexeme(s: Seq<char>) -> (Lexeme, int)
    recommends
        s.len() > 0,
{
    let c = s[0];
    if in_class(c, CharClass::Space) {
        (Lexeme::Trivia, run_len(s, CharClass::Space))
    } else if c == '/' && char_at(s, 1) == Some('/') {
        (Lexeme::Trivia, run_len(s, CharClass::CommentBody))
    } else if in_class(c, CharClass::Digit) {
        let n = run_len(s, CharClass::Digit);
        let v = digits_value(s.take(n));
        if v <= u64::MAX {
            (Lexeme::Emit(TokenModel::Int(v as u64)), n)
        } else {
            (Lexeme::Invalid, n)
        }
    } else if in_class(c, CharClass::Word) {
        let n = run_len(s, CharClass::Word);
        (Lexeme::Emit(word_token(s.take(n))), n)
    } else if c == '"' {
        match string_close(s, 1) {
            Some(e) => (Lexeme::Emit(TokenModel::Str(s.subrange(1, e - 1))), e),
            None => (Lexeme::Invalid, 1),
        }
    } else {
        match symbol(c, char_at(s, 1)) {
            Some((t, n)) => (Lexeme::Emit(t), n),
            None => (Lexeme::Invalid, 1),
        }
    }
}

/// The tokens of `s` in order, or the index of the first character of the
/// first lexeme that the grammar does not know.
pub open spec fn scan(s: Seq<char>) -> Result<Seq<TokenModel>, nat>
    decreases s.len(),
{
    if s.len() == 0 {
        Ok(Seq::empty())
    } else {
        let (lexeme, n) = first_lexeme(s);
        if n <= 0 || n > s.len() {
            Err(0)
        } else {
            match lexeme {
                Lexeme::Invalid => Err(0),
                Lexeme::Trivia => match scan(s.skip(n)) {
                    Ok(rest) => Ok(rest),
                    Err(p) => Err((n + p) as nat),
                },
                Lexeme::Emit(t) => match scan(s.skip(n)) {
                    Ok(rest) => Ok(seq![t] + rest),
                    Err(p) => Err((n + p) as nat),
                },
            }
        }
    }
}

/// What the lexer hands on: the tokens of `s`, or nothing at all where some
/// part of `s` is no lexeme.
pub open spec fn lex_tokens(s: Seq<char>) -> Seq<TokenModel> {
    match scan(s) {
        Ok(tokens) => tokens,
        Err(_) => Seq::empty(),
    }
}

/// The characters of `s`, for access by index.
fn to_chars(s: &str) -> (v: Vec<char>)
    ensures
        v@ == s@,
{
    broadcast use vstd::string::axiom_spec_iter;

    let mut v: Vec<char> = Vec::new();
    for c in it: s.chars()
        invariant
            it.seq() == s@,
            v@ == s@.take(it.index() as int),
    {
        v.push(c);
    }
    assert(v@ == s@) by {
        assert(s@.take(s@.len() as int) =~= s@);
    }
    v
}

fn has_class(c: char, class: CharClass) -> (b: bool)
    ensures
        b == in_class(c, class),
{
    match class {
        CharClass::Space => c == ' ' || c == '\t' || c == '\r' || c == '\n' || c == '\x0c',
        CharClass::Digit => '0' <= c && c <= '9',
        CharClass::Word => ('a' <= c && c <= 'z') || ('A' <= c && c <= 'Z') || ('0' <= c && c
            <= '9') || c == '_',
        CharClass::CommentBody => c != '\n',
    }
}

/// A run is no longer and no shorter than any length that `is_run` accepts.
pub proof fn lemma_run_unique(s: Seq<char>, n: int, class: CharClass)
    requires
        is_run(s, n, class),
    ensures
        run_len(s, class) == n,
{
    let m = run_len(s, class);
    assert(is_run(s, m, class));
    if m < n {
        assert(in_class(s[m], class));
    } else if n < m {
        assert(in_class(s[n], class));
    }
}

/// The end of the run of `class` that starts at `start`.
fn run_end(chars: &Vec<char>, start: usize, class: CharClass) -> (end: usize)
    requires
        start <= chars.len(),
    ensures
        start <= end <= chars.len(),
        end - start == run_len(chars@.skip(start as int), class),
        is_run(chars@.skip(start as int), end - start, class),
{
    let mut end: usize = start;
    while end < chars.len() && has_class(chars[end], class)
        invariant
            start <= end <= chars.len(),
            forall|k: int| start <= k < end ==> in_class(#[trigger] chars@[k], class),
        decreases chars.len() - end,
    {
        end = end + 1;
    }
    proof {
        let t = chars@.skip(start as int);
        assert forall|k: int| 0 <= k < end - start implies in_class(#[trigger] t[k], class) by {
            assert(t[k] == chars@[start + k]);
        }
        assert(is_run(t, end - start, class));
        lemma_run_unique(t, end - start, class);
    }
    end
}

/// The end of the string literal whose opening quote is at `start`: the index
/// just after its closing quote, if it closes.
fn string_end(chars: &Vec<char>, start: usize) -> (r: Option<usize>)
    requires
        start < chars.len(),
    ensures
        match r {
            Some(e) => start + 2 <= e <= chars.len() && string_close(
                chars@.skip(start as int),
                1,
            ) == Some(e - start),
            None => string_close(chars@.skip(start as int), 1) is None,
        },
{
    let ghost t = chars@.skip(start as int);
    let mut j: usize = start + 1;
    while j < chars.len()
        invariant
            start < j <= chars.len(),
            t == chars@.skip(start as int),
            string_close(t, 1) == string_close(t, j - start),
        decreases chars.len() - j,
    {
        let c = chars[j];
        assert(t[j - start] == c);
        if c == '"' {
            return Some(j + 1);
        } else if c == '\\' {
            if j + 1 < chars.len() && chars[j + 1] != '\n' {
                assert(t[j - start + 1] == chars@[j + 1]);
                j = j + 2;
            } else {
                assert(j + 1 < chars.len() ==> t[j - start + 1] == chars@[j + 1]);
                return None;
            }
        } else {
            j = j + 1;
        }
    }
    None
}

/// The value of the digits from `start` up to `end`, if it fits.
fn digits_to_u64(chars: &Vec<char>, start: usize, end: usize) -> (r: Option<u64>)
    requires
        start <= end <= chars.len(),
        forall|k: int| start <= k < end ==> in_class(#[trigger] chars@[k], CharClass::Digit),
    ensures
        match r {
            Some(v) => digits_value(chars@.subrange(start as int, end as int)) == v,
            None => digits_value(chars@.subrange(start as int, end as int)) > u64::MAX,
        },
{
    let mut acc: u64 = 0;
    let mut overflow = false;
    let mut k: usize = start;
    while k < end
        invariant
            start <= k <= end <= chars.len(),
            forall|j: int| start <= j < end ==> in_class(#[trigger] chars@[j], CharClass::Digit),
            !overflow ==> digits_value(chars@.subrange(start as int, k as int)) == acc,
            overflow ==> digits_value(chars@.subrange(start as int, k as int)) > u64::MAX,
        decreases end - k,
    {
        let c = chars[k];
        assert(in_class(chars@[k as int], CharClass::Digit));
        let d: u64 = (c as u32 - '0' as u32) as u64;
        proof {
            let before = chars@.subrange(start as int, k as int);
            let after = chars@.subrange(start as int, k + 1);
            assert(after.drop_last() =~= before);
            assert(after.last() == c);
            assert(digits_value(after) == 10 * digits_value(before) + d);
        }
        if !overflow {
            match acc.checked_mul(10) {
                Some(m) => match m.checked_add(d) {
                    Some(v) => {
                        acc = v;
                    },
                    None => {
                        overflow = true;
                    },
                },
                None => {
                    overflow = true;
                },
            }
        }
        k = k + 1;
    }
    if overflow {
        None
    } else {
        Some(acc)
    }
}

/// Whether the characters from `start` up to `end` spell `word`.
fn spells(chars: &Vec<char>, start: usize, end: usize, word: &str) -> (b: bool)
    requires
        start <= end <= chars.len(),
    ensures
        b == (chars@.subrange(start as int, end as int) == word@),
{
    let n = word.unicode_len();
    if end - start != n {
        return false;
    }
    let mut i: usize = 0;
    while i < n
        invariant
            0 <= i <= n,
            n == word@.len(),
            end - start == n,
            start <= end <= chars.len(),
            forall|k: int| 0 <= k < i ==> chars@[start + k] == word@[k],
        decreases n - i,
    {
        if chars[start + i] != word.get_char(i) {
            assert(chars@.subrange(start as int, end as int)[i as int] != word@[i as int]);
            return false;
        }
        i = i + 1;
    }
    assert(chars@.subrange(start as int, end as int) =~= word@);
    true
}

/// The keyword or identifier that the characters from `start` up to `end` spell.
fn word_at(chars: &Vec<char>, start: usize, end: usize) -> (t: Token)
    requires
        start <= end <= chars.len(),
    ensures
        t@ == word_token(chars@.subrange(start as int, end as int)),
{
    if spells(chars, start, end, "fn") {
        Token::Fn
    } else if spells(chars, start, end, "return") {
        Token::Return
    } else if spells(chars, start, end, "if") {
        Token::If
    } else if spells(chars, start, end, "else") {
        Token::Else
    } else if spells(chars, start, end, "while") {
        Token::While
    } else if spells(chars, start, end, "for") {
        Token::For
    } else {
        Token::Ident(text_of(chars, start, end))
    }
}

/// The operator or delimiter that starts with `c`, where `d` follows it.
fn symbol_at(c: char, d: Option<char>) -> (r: Option<(Token, usize)>)
    ensures
        match r {
            Some((t, n)) => symbol(c, d) == Some((t@, n as int)),
            None => symbol(c, d) is None,
        },
{
    let second = |x: char| -> (b: bool)
        ensures
            b == (d == Some(x)),
        {
            match d {
                Some(y) => y == x,
                None => false,
            }
        };
    if c == '(' {
        Some((Token::LParen, 1))
    } else if c == ')' {
        Some((Token::RParen, 1))
    } else if c == '{' {
        Some((Token::LBrace, 1))
    } else if c == '}' {
        Some((Token::RBrace, 1))
    } else if c == '[' {
        Some((Token::LBracket, 1))
    } else if c == ']' {
        Some((Token::RBracket, 1))
    } else if c == ',' {
        Some((Token::Comma, 1))
    } else if c == ';' {
        Some((Token::Semicolon, 1))
    } else if c == ':' {
        Some((Token::Colon, 1))
    } else if c == '.' {
        Some((Token::Period, 1))
    } else if c == '+' {
        Some((Token::Plus, 1))
    } else if c == '*' {
        Some((Token::Star, 1))
    } else if c == '/' {
        Some((Token::Slash, 1))
    } else if c == '-' {
        if second('>') {
            Some((Token::Arrow, 2))
        } else {
            Some((Token::Minus, 1))
        }
    } else if c == '=' {
        if second('=') {
            Some((Token::EqEq, 2))
        } else {
            Some((Token::Eq, 1))
        }
    } else if c == '!' {
        if second('=') {
            Some((Token::NotEq, 2))
        } else {
            Some((Token::Bang, 1))
        }
    } else if c == '<' {
        if second('=') {
            Some((Token::LtEq, 2))
        } else {
            Some((Token::Lt, 1))
        }
    } else if c == '>' {
        if second('=') {
            Some((Token::GtEq, 2))
        } else {
            Some((Token::Gt, 1))
        }
    } else if c == '&' {
        if second('&') {
            Some((Token::AndAnd, 2))
        } else {
            None
        }
    } else if c == '|' {
        if second('|') {
            Some((Token::OrOr, 2))
        } else {
            None
        }
    } else {
        None
    }
}

/// Why a text could not be lexed.
#[derive(Debug, Clone, Copy, PartialEq, Eq)]
pub struct LexError {
    /// The index, counted in characters, at which the first lexeme starts that
    /// the grammar does not know.
    pub position: usize,
}

/// The outcome of a text whose first `at` characters gave `done` and whose
/// remainder gives `rest`.
pub open spec fn resume(
    done: Seq<TokenModel>,
    at: int,
    rest: Result<Seq<TokenModel>, nat>,
) -> Result<Seq<TokenModel>, nat> {
    match rest {
        Ok(tokens) => Ok(done + tokens),
        Err(p) => Err((at + p) as nat),
    }
}

/// The tokens of `input`, or where lexing first fails.
///
/// White space and `//` comments are consumed and emit nothing. At each place
/// the longest lexeme wins, and a keyword wins over the identifier of the same
/// spelling. An integer literal that does not fit in 64 bits, a string literal
/// that does not close, and any character that starts no lexeme make the whole
/// text fail.
pub fn tokenize(input: &str) -> (r: Result<Vec<Token>, LexError>)
    ensures
        match r {
            Ok(tokens) => scan(input@) == Ok::<Seq<TokenModel>, nat>(view_all(tokens@)),
            Err(e) => scan(input@) == Err::<Seq<TokenModel>, nat>(e.position as nat),
        },
{
    let chars = to_chars(input);
    let ghost s = input@;
    let mut out: Vec<Token> = Vec::new();
    let mut i: usize = 0;
    assert(s.skip(0) =~= s);
    assert(view_all(out@) + lex_tokens(s) =~= lex_tokens(s));
    assert(scan(s) == resume(view_all(out@), 0, scan(s.skip(0)))) by {
        match scan(s) {
            Ok(tokens) => {
                assert(view_all(out@) + tokens =~= tokens);
            },
            Err(p) => {},
        }
    }
    while i < chars.len()
        invariant
            i <= chars.len(),
            chars@ == s,
            s == input@,
            scan(s) == resume(view_all(out@), i as int, scan(s.skip(i as int))),
        decreases chars.len() - i,
    {
        let ghost t = s.skip(i as int);
        let ghost done = view_all(out@);
        let c = chars[i];
        let d: Option<char> = if i + 1 < chars.len() {
            Some(chars[i + 1])
        } else {
            None
        };
        assert(t[0] == c);
        assert(char_at(t, 1) == d) by {
            if i + 1 < chars.len() {
                assert(t[1] == chars@[i + 1]);
            }
        }
        let mut emitted: Option<Token> = None;
        let end: usize;
        if has_class(c, CharClass::Space) {
            end = run_end(&chars, i, CharClass::Space);
            assert(end > i) by {
                if end == i {
                    assert(!in_class(t[0], CharClass::Space));
                }
            }
        } else if c == '/' && d == Some('/') {
            end = run_end(&chars, i, CharClass::CommentBody);
            assert(end > i) by {
                if end == i {
                    assert(!in_class(t[0], CharClass::CommentBody));
                }
            }
        } else if has_class(c, CharClass::Digit) {
            end = run_end(&chars, i, CharClass::Digit);
            assert(end > i) by {
                if end == i {
                    assert(!in_class(t[0], CharClass::Digit));
                }
            }
            assert(t.take(end - i) =~= chars@.subrange(i as int, end as int));
            assert forall|k: int| i <= k < end implies in_class(
                #[trigger] chars@[k],
                CharClass::Digit,
            ) by {
                assert(t[k - i] == chars@[k]);
            }
            match digits_to_u64(&chars, i, end) {
                Some(v) => {
                    emitted = Some(Token::Int(v));
                },
                None => {
                    assert(first_lexeme(t).0 == Lexeme::Invalid);
                    assert(scan(t) == Err::<Seq<TokenModel>, nat>(0));
                    return Err(LexError { position: i });
                },
            }
        } else if has_class(c, CharClass::Word) {
            end = run_end(&chars, i, CharClass::Word);
            assert(end > i) by {
                if end == i {
                    assert(!in_class(t[0], CharClass::Word));
                }
            }
            assert(t.take(end - i) =~= chars@.subrange(i as int, end as int));
            emitted = Some(word_at(&chars, i, end));
        } else if c == '"' {
            match string_end(&chars, i) {
                Some(e) => {
                    end = e;
                    assert(t.subrange(1, e - i - 1) =~= chars@.subrange(i + 1, e - 1));
                    emitted = Some(Token::Str(text_of(&chars, i + 1, e - 1)));
                },
                None => {
                    assert(first_lexeme(t).0 == Lexeme::Invalid);
                    assert(scan(t) == Err::<Seq<TokenModel>, nat>(0));
                    return Err(LexError { position: i });
                },
            }
        } else {
            match symbol_at(c, d) {
                Some((token, n)) => {
                    end = i + n;
                    emitted = Some(token);
                },
                None => {
                    assert(first_lexeme(t).0 == Lexeme::Invalid);
                    assert(scan(t) == Err::<Seq<TokenModel>, nat>(0));
                    return Err(LexError { position: i });
                },
            }
        }
        proof {
            assert(t.skip(end - i) =~= s.skip(end as int));
            let next = scan(s.skip(end as int));
            match &emitted {
                Some(token) => {
                    assert(first_lexeme(t) == (Lexeme::Emit(token@), end - i));
                    assert(view_all(out@.push(*token)) =~= done + seq![token@]);
                    match next {
                        Ok(rest) => {
                            assert(done + (seq![token@] + rest) =~= (done + seq![token@]) + rest);
                        },
                        Err(p) => {},
                    }
                },
                None => {
                    assert(first_lexeme(t) == (Lexeme::Trivia, end - i));
                },
            }
        }
        match emitted {
            Some(token) => {
                out.push(token);
            },
            None => {},
        }
        i = end;
    }
    proof {
        assert(s.skip(i as int).len() == 0);
        assert(view_all(out@) + Seq::<TokenModel>::empty() =~= view_all(out@));
    }
    Ok(out)
}

/// The tokens of `input`; no token at all where some part of it cannot be
/// lexed, so that a caller sees such a text as it sees an empty one.
pub fn lex(input: &str) -> (tokens: Vec<Token>)
    ensures
        view_all(tokens@) == lex_tokens(input@),
{
    match tokenize(input) {
        Ok(tokens) => tokens,
        Err(_) => {
            let empty: Vec<Token> = Vec::new();
            assert(view_all(empty@) =~= Seq::<TokenModel>::empty());
            empty
        },
    }
}

/// The text that stands for a token in a diagnostic: the name of its kind
/// and, for a literal or an identifier, in round brackets what it holds.
pub open spec fn token_debug(t: TokenModel) -> Seq<char> {
    match t {
        TokenModel::Fn => "Fn"@,
        TokenModel::Return => "Return"@,
        TokenModel::If => "If"@,
        TokenModel::Else => "Else"@,
        TokenModel::While => "While"@,
        TokenModel::For => "For"@,
        TokenModel::LParen => "LParen"@,
        TokenModel::RParen => "RParen"@,
        TokenModel::LBrace => "LBrace"@,
        TokenModel::RBrace => "RBrace"@,
        TokenModel::LBracket => "LBracket"@,
        TokenModel::RBracket => "RBracket"@,
        TokenModel::Comma => "Comma"@,
        TokenModel::Semicolon => "Semicolon"@,
        TokenModel::Colon => "Colon"@,
        TokenModel::Period => "Period"@,
        TokenModel::Arrow => "Arrow"@,
        TokenModel::EqEq => "EqEq"@,
        TokenModel::NotEq => "NotEq"@,
        TokenModel::LtEq => "LtEq"@,
        TokenModel::GtEq => "GtEq"@,
        TokenModel::AndAnd => "AndAnd"@,
        TokenModel::OrOr => "OrOr"@,
        TokenModel::Eq => "Eq"@,
        TokenModel::Lt => "Lt"@,
        TokenModel::Gt => "Gt"@,
        TokenModel::Plus => "Plus"@,
        TokenModel::Minus => "Minus"@,
        TokenModel::Star => "Star"@,
        TokenModel::Slash => "Slash"@,
        TokenModel::Bang => "Bang"@,
        TokenModel::Int(v) => "Int("@ + decimal(v as nat) + ")"@,
        TokenModel::Str(text) => "Str("@ + str_debug(text) + ")"@,
        TokenModel::Ident(text) => "Ident("@ + str_debug(text) + ")"@,
        TokenModel::LineComment => "LineComment"@,
    }
}

impl Token {
    /// The text that stands for this token in a diagnostic.
    pub fn debug_string(&self) -> (r: String)
        ensures
            r@ == token_debug(self@),
    {
        match self {
            Token::Fn => String::from_str("Fn"),
            Token::Return => String::from_str("Return"),
            Token::If => String::from_str("If"),
            Token::Else => String::from_str("Else"),
            Token::While => String::from_str("While"),
            Token::For => String::from_str("For"),
            Token::LParen => String::from_str("LParen"),
            Token::RParen => String::from_str("RParen"),
            Token::LBrace => String::from_str("LBrace"),
            Token::RBrace => String::from_str("RBrace"),
            Token::LBracket => String::from_str("LBracket"),
            Token::RBracket => String::from_str("RBracket"),
            Token::Comma => String::from_str("Comma"),
            Token::Semicolon => String::from_str("Semicolon"),
            Token::Colon => String::from_str("Colon"),
            Token::Period => String::from_str("Period"),
            Token::Arrow => String::from_str("Arrow"),
            Token::EqEq => String::from_str("EqEq"),
            Token::NotEq => String::from_str("NotEq"),
            Token::LtEq => String::from_str("LtEq"),
            Token::GtEq => String::from_str("GtEq"),
            Token::AndAnd => String::from_str("AndAnd"),
            Token::OrOr => String::from_str("OrOr"),
            Token::Eq => String::from_str("Eq"),
            Token::Lt => String::from_str("Lt"),
            Token::Gt => String::from_str("Gt"),
            Token::Plus => String::from_str("Plus"),
            Token::Minus => String::from_str("Minus"),
            Token::Star => String::from_str("Star"),
            Token::Slash => String::from_str("Slash"),
            Token::Bang => String::from_str("Bang"),
            Token::Int(v) => {
                let digits = decimal_string(*v);
                String::from_str("Int(").concat(digits.as_str()).concat(")")
            },
            Token::Str(text) => {
                let quoted = debug_text(text.as_str());
                String::from_str("Str(").concat(quoted.as_str()).concat(")")
            },
            Token::Ident(text) => {
                let quoted = debug_text(text.as_str());
                String::from_str("Ident(").concat(quoted.as_str()).concat(")")
            },
            Token::LineComment => String::from_str("LineComment"),
        }
    }
}

} // verus!
