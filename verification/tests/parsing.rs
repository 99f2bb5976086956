use xenonc::ast::{Expr, Program};
use xenonc::lexer::{lex, Token};
use xenonc::parser::{Expected, ParseError, Parser};

fn parse(source: &str) -> Result<Program, ParseError> {
    let tokens = lex(source);
    let mut parser = Parser::new(&tokens);
    parser.parse_program()
}

fn assert_single_return(source: &str, name: &str, ty: &str, value: i64) {
    let program = parse(source).expect("the program parses");
    assert_eq!(program.functions.len(), 1);
    let f = &program.functions[0];
    assert_eq!(f.name, name);
    assert_eq!(f.return_type, ty);
    assert_eq!(f.body.len(), 1);
    match &f.body[0] {
        Expr::Return(inner) => match &**inner {
            Expr::Int(v) => assert_eq!(*v, value),
            other => panic!("not an integer: {:?}", other),
        },
        other => panic!("not a return: {:?}", other),
    }
}

#[test]
fn single_function_returning_a_literal() {
    assert_single_return("fn main() -> u32 { return 0; }", "main", "u32", 0);
    assert_single_return("fn answer() -> u32 { return 42; }", "answer", "u32", 42);
    assert_single_return("fn top() -> u32 { return 4294967295; }", "top", "u32", 4294967295);
    assert_single_return("fn _x9() -> i32 { return 007; }", "_x9", "i32", 7);
}

#[test]
fn a_literal_keeps_its_bits() {
    assert_single_return("fn f() -> u32 { return 9223372036854775807; }", "f", "u32", i64::MAX);
    assert_single_return("fn f() -> u32 { return 9223372036854775808; }", "f", "u32", i64::MIN);
    assert_single_return("fn f() -> u32 { return 18446744073709551615; }", "f", "u32", -1);
}

#[test]
fn returning_an_identifier_parses() {
    let program = parse("fn f() -> u32 { return x; }").expect("the program parses");
    match &program.functions[0].body[0] {
        Expr::Return(inner) => match &**inner {
            Expr::Ident(name) => assert_eq!(name, "x"),
            other => panic!("not an identifier: {:?}", other),
        },
        other => panic!("not a return: {:?}", other),
    }
}

#[test]
fn functions_keep_their_order() {
    let program = parse("fn a() -> u32 { return 1; } fn b() -> i32 { return 2; } fn c() -> u32 { return 3; }")
        .expect("the program parses");
    let names: Vec<&str> = program.functions.iter().map(|f| f.name.as_str()).collect();
    assert_eq!(names, vec!["a", "b", "c"]);
}

#[test]
fn no_tokens_no_functions() {
    assert_eq!(parse("").expect("the empty program parses").functions.len(), 0);
    assert_eq!(parse("  // nothing\n").expect("the empty program parses").functions.len(), 0);
}

#[test]
fn any_type_name_parses() {
    let program = parse("fn f() -> bool { return 0; }").expect("the program parses");
    assert_eq!(program.functions[0].return_type, "bool");
}

#[test]
fn missing_return_names_what_was_expected_and_found() {
    let err = parse("fn f() -> u32 { }").expect_err("the body is empty");
    assert_eq!(
        err,
        ParseError { expected: Expected::Token(Token::Return), found: Some(Token::RBrace), position: 7 }
    );
    assert_eq!(err.message(), "Expected Return, found RBrace");
}

#[test]
fn the_first_error_wins() {
    let err = parse("fn a() -> u32 { return 1; } fn b( -> u32 { } fn").expect_err("b is malformed");
    assert_eq!(
        err,
        ParseError { expected: Expected::Token(Token::RParen), found: Some(Token::Arrow), position: 14 }
    );
    assert_eq!(err.message(), "Expected RParen, found Arrow");
}

#[test]
fn end_of_input_is_reported() {
    let err = parse("fn f() -> u32 { return 1;").expect_err("the brace is missing");
    assert_eq!(err, ParseError { expected: Expected::Token(Token::RBrace), found: None, position: 10 });
    assert_eq!(err.message(), "Expected RBrace, found end of input");

    let err = parse("fn").expect_err("the name is missing");
    assert_eq!(err, ParseError { expected: Expected::Ident, found: None, position: 1 });
    assert_eq!(err.message(), "Expected Ident(_), found end of input");

    let err = parse("fn f() -> u32 { return").expect_err("the operand is missing");
    assert_eq!(err, ParseError { expected: Expected::Operand, found: None, position: 8 });
    assert_eq!(err.message(), "Expected expression, found end of input");
}

#[test]
fn a_wrong_token_is_reported_with_its_content() {
    let err = parse("fn 12() -> u32 { return 1; }").expect_err("12 is no name");
    assert_eq!(err, ParseError { expected: Expected::Ident, found: Some(Token::Int(12)), position: 1 });
    assert_eq!(err.message(), "Expected Ident(_), found Int(12)");

    let err = parse("fn f() -> u32 { return ; }").expect_err("the operand is missing");
    assert_eq!(err, ParseError { expected: Expected::Operand, found: Some(Token::Semicolon), position: 8 });
    assert_eq!(err.message(), "Expected Int(_) or Ident(_), found Semicolon");

    let err = parse("name").expect_err("a program starts with fn");
    assert_eq!(
        err,
        ParseError {
            expected: Expected::Token(Token::Fn),
            found: Some(Token::Ident("name".to_string())),
            position: 0
        }
    );
    assert_eq!(err.message(), "Expected Fn, found Ident(\"name\")");

    let err = parse("fn f() -> u32 { return \"s\"; }").expect_err("a string is no operand");
    assert_eq!(err.message(), "Expected Int(_) or Ident(_), found Str(\"s\")");
}

#[test]
fn parameters_and_second_statements_are_refused() {
    let err = parse("fn f(x) -> u32 { return 1; }").expect_err("no parameters yet");
    assert_eq!(err.message(), "Expected RParen, found Ident(\"x\")");
    let err = parse("fn f() -> u32 { return 1; return 2; }").expect_err("one statement only");
    assert_eq!(err.message(), "Expected RBrace, found Return");
    assert_eq!(err.position, 10);
}

#[test]
fn cursor_primitives() {
    let tokens = lex("fn f (");
    let mut parser = Parser::new(&tokens);
    assert_eq!(parser.peek(), Some(&Token::Fn));
    assert_eq!(parser.advance(), Some(&Token::Fn));
    assert_eq!(parser.expect_ident_string(), Ok("f".to_string()));
    assert_eq!(parser.peek(), Some(&Token::LParen));
    assert_eq!(
        parser.expect(&Token::RParen),
        Err(ParseError { expected: Expected::Token(Token::RParen), found: Some(Token::LParen), position: 2 })
    );
    assert_eq!(parser.peek(), None);
    assert_eq!(parser.advance(), None);
    assert_eq!(
        parser.expect(&Token::RParen),
        Err(ParseError { expected: Expected::Token(Token::RParen), found: None, position: 3 })
    );
}

#[test]
fn expression_text_is_its_debug_form() {
    let exprs = vec![
        Expr::Int(0),
        Expr::Int(-1),
        Expr::Int(i64::MIN),
        Expr::Int(i64::MAX),
        Expr::Ident("x\"y".to_string()),
        Expr::Return(Box::new(Expr::Int(5))),
        Expr::Return(Box::new(Expr::Return(Box::new(Expr::Ident("z".to_string()))))),
    ];
    for e in &exprs {
        assert_eq!(e.debug_string(), format!("{:?}", e));
    }
    assert_eq!(exprs[5].debug_string(), "Return(Int(5))");
}
