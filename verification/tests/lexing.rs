use xenonc::lexer::{lex, tokenize, LexError, Token};

fn ident(s: &str) -> Token {
    Token::Ident(s.to_string())
}

#[test]
fn lexes_a_whole_function() {
    let tokens = lex("fn main() -> u32 { return 0; }");
    assert_eq!(
        tokens,
        vec![
            Token::Fn,
            ident("main"),
            Token::LParen,
            Token::RParen,
            Token::Arrow,
            ident("u32"),
            Token::LBrace,
            Token::Return,
            Token::Int(0),
            Token::Semicolon,
            Token::RBrace,
        ]
    );
}

#[test]
fn keyword_prefix_stays_one_identifier() {
    assert_eq!(lex("returning"), vec![ident("returning")]);
    assert_eq!(lex("fnord"), vec![ident("fnord")]);
    assert_eq!(lex("iffy"), vec![ident("iffy")]);
    assert_eq!(lex("_for"), vec![ident("_for")]);
    assert_eq!(lex("return"), vec![Token::Return]);
}

#[test]
fn arrow_is_one_token() {
    assert_eq!(lex("->"), vec![Token::Arrow]);
    assert_eq!(lex("- >"), vec![Token::Minus, Token::Gt]);
    assert_eq!(lex("-"), vec![Token::Minus]);
}

#[test]
fn two_character_operators_win() {
    assert_eq!(
        lex("== != <= >= && || = < > ! + - * /"),
        vec![
            Token::EqEq,
            Token::NotEq,
            Token::LtEq,
            Token::GtEq,
            Token::AndAnd,
            Token::OrOr,
            Token::Eq,
            Token::Lt,
            Token::Gt,
            Token::Bang,
            Token::Plus,
            Token::Minus,
            Token::Star,
            Token::Slash,
        ]
    );
    assert_eq!(lex("==="), vec![Token::EqEq, Token::Eq]);
    assert_eq!(lex("<=>"), vec![Token::LtEq, Token::Gt]);
}

#[test]
fn delimiters() {
    assert_eq!(
        lex("( ) { } [ ] , ; : ."),
        vec![
            Token::LParen,
            Token::RParen,
            Token::LBrace,
            Token::RBrace,
            Token::LBracket,
            Token::RBracket,
            Token::Comma,
            Token::Semicolon,
            Token::Colon,
            Token::Period,
        ]
    );
}

#[test]
fn keywords() {
    assert_eq!(
        lex("fn return if else while for"),
        vec![Token::Fn, Token::Return, Token::If, Token::Else, Token::While, Token::For]
    );
}

#[test]
fn trivia_emits_nothing() {
    assert_eq!(lex(""), Vec::<Token>::new());
    assert_eq!(lex(" \t\r\n\x0c"), Vec::<Token>::new());
    assert_eq!(lex("// only a comment"), Vec::<Token>::new());
    assert_eq!(lex("a // b\nc"), vec![ident("a"), ident("c")]);
    assert_eq!(lex("a / b"), vec![ident("a"), Token::Slash, ident("b")]);
}

#[test]
fn trivia_between_tokens_changes_nothing() {
    let plain = lex("fn main() -> u32 { return 0; }");
    let spaced = lex("fn  main ( )\n->\tu32 // the type\n{\n  return 0 ; // done\n}\n");
    assert_eq!(plain, spaced);
    assert_eq!(plain.len(), 11);
}

#[test]
fn a_comment_after_a_slash_swallows_it() {
    assert_eq!(lex("a / b"), vec![ident("a"), Token::Slash, ident("b")]);
    assert_eq!(lex("a ///x\n b"), vec![ident("a"), ident("b")]);
}

#[test]
fn integers() {
    assert_eq!(lex("0 7 0042"), vec![Token::Int(0), Token::Int(7), Token::Int(42)]);
    assert_eq!(lex("18446744073709551615"), vec![Token::Int(u64::MAX)]);
    assert_eq!(lex("12ab"), vec![Token::Int(12), ident("ab")]);
}

#[test]
fn an_integer_that_does_not_fit_fails() {
    assert_eq!(tokenize("18446744073709551616"), Err(LexError { position: 0 }));
    assert_eq!(tokenize("a 99999999999999999999999 b"), Err(LexError { position: 2 }));
    assert_eq!(lex("a 99999999999999999999999 b"), Vec::<Token>::new());
}

#[test]
fn strings_keep_their_escapes() {
    assert_eq!(lex("\"abc\""), vec![Token::Str("abc".to_string())]);
    assert_eq!(lex("\"\""), vec![Token::Str(String::new())]);
    assert_eq!(lex("\"a\\n\""), vec![Token::Str("a\\n".to_string())]);
    assert_eq!(lex("\"a\\\"b\" c"), vec![Token::Str("a\\\"b".to_string()), ident("c")]);
    assert_eq!(lex("\"two\nlines\""), vec![Token::Str("two\nlines".to_string())]);
    assert_eq!(lex("\"h\u{e9}llo \u{4e16}\""), vec![Token::Str("h\u{e9}llo \u{4e16}".to_string())]);
}

#[test]
fn a_string_that_does_not_close_fails() {
    assert_eq!(tokenize("x \"abc"), Err(LexError { position: 2 }));
    assert_eq!(tokenize("\"abc\\\""), Err(LexError { position: 0 }));
    assert_eq!(tokenize("\"abc\\\n\""), Err(LexError { position: 0 }));
}

#[test]
fn an_unknown_character_fails_the_whole_text() {
    assert_eq!(tokenize("fn main @"), Err(LexError { position: 8 }));
    assert_eq!(lex("fn main @"), Vec::<Token>::new());
    assert_eq!(tokenize("a & b"), Err(LexError { position: 2 }));
    assert_eq!(tokenize("a | b"), Err(LexError { position: 2 }));
    assert_eq!(tokenize("\u{e9}"), Err(LexError { position: 0 }));
}

#[test]
fn positions_count_characters() {
    assert_eq!(tokenize("\"\u{4e16}\u{754c}\" #"), Err(LexError { position: 5 }));
}

#[test]
fn tokenize_agrees_with_lex_on_success() {
    let text = "fn f() -> i32 { return x; }";
    assert_eq!(tokenize(text), Ok(lex(text)));
}

#[test]
fn token_text_is_its_debug_form() {
    let tokens = lex("fn return if else while for ( ) { } [ ] , ; : . -> == != <= >= && || = < > + - * / ! 42 \"a\\nb\" name");
    assert_eq!(tokens.len(), 34);
    for t in &tokens {
        assert_eq!(t.debug_string(), format!("{:?}", t));
    }
    assert_eq!(Token::LineComment.debug_string(), "LineComment");
    assert_eq!(Token::Int(18446744073709551615).debug_string(), "Int(18446744073709551615)");
    assert_eq!(Token::Ident("x".to_string()).debug_string(), "Ident(\"x\")");
    assert_eq!(Token::Str("q\"t\\".to_string()).debug_string(), format!("{:?}", Token::Str("q\"t\\".to_string())));
}

#[test]
fn tokens_compare_by_kind_and_content() {
    assert_eq!(Token::Int(1), Token::Int(1));
    assert_ne!(Token::Int(1), Token::Int(2));
    assert_ne!(Token::Ident("a".to_string()), Token::Str("a".to_string()));
    assert_ne!(Token::Minus, Token::Gt);
    assert_eq!(Token::Ident("a".to_string()).clone(), Token::Ident("a".to_string()));
}

#[test]
fn no_comment_is_ever_emitted() {
    for text in ["// a\n// b", "a // b\n/ c // d", "/ / //", "x///y\nz"] {
        assert!(lex(text).iter().all(|t| *t != Token::LineComment), "{text}");
    }
    assert_eq!(lex("/ / //"), vec![Token::Slash, Token::Slash]);
}
