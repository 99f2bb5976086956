use inkwell::context::Context;
use xenonc::ast::{Expr, Function, Program};
use xenonc::codegen::{default_output_paths, CodeGen, CodegenError};
use xenonc::lexer::lex;
use xenonc::parser::Parser;

fn parse(source: &str) -> Program {
    let tokens = lex(source);
    let mut parser = Parser::new(&tokens);
    parser.parse_program().expect("the program parses")
}

fn ir_of(source: &str) -> Result<String, CodegenError> {
    let program = parse(source);
    let context = Context::create();
    let codegen = CodeGen::new(&context, "xenon_mvp");
    let module = codegen.compile_program(&program)?;
    Ok(module.print_to_string().to_string())
}

fn function(ty: &str, body: Vec<Expr>) -> Program {
    Program { functions: vec![Function { name: "f".to_string(), return_type: ty.to_string(), body }] }
}

fn error_of(program: &Program) -> CodegenError {
    let context = Context::create();
    let codegen = CodeGen::new(&context, "m");
    let result = codegen.compile_program(program).map(|_| ());
    match result {
        Ok(_) => panic!("code was generated"),
        Err(e) => e,
    }
}

#[test]
fn main_returning_zero() {
    let ir = ir_of("fn main() -> u32 { return 0; }").expect("code is generated");
    assert!(ir.contains("xenon_mvp"), "{ir}");
    assert!(ir.contains("define i32 @main()"), "{ir}");
    assert!(ir.contains("entry:"), "{ir}");
    assert!(ir.contains("ret i32 0"), "{ir}");
}

#[test]
fn constants_have_32_bits() {
    let ir = ir_of("fn a() -> i32 { return 7; } fn b() -> u32 { return 4294967295; } fn c() -> u32 { return 4294967296; }")
        .expect("code is generated");
    assert!(ir.contains("define i32 @a()"), "{ir}");
    assert!(ir.contains("ret i32 7"), "{ir}");
    assert!(ir.contains("ret i32 -1"), "{ir}");
    assert!(ir.contains("define i32 @c()"), "{ir}");
    let a = ir.find("@a()").expect("a is there");
    let b = ir.find("@b()").expect("b is there");
    let c = ir.find("@c()").expect("c is there");
    assert!(a < b && b < c, "{ir}");
    assert!(ir[c..].contains("ret i32 0"), "{ir}");
}

#[test]
fn an_empty_program_gives_an_empty_module() {
    let ir = ir_of("").expect("code is generated");
    assert!(!ir.contains("define"), "{ir}");
}

#[test]
fn unsupported_return_type_fails_in_codegen_not_in_parsing() {
    let err = ir_of("fn f() -> bool { return 0; }").expect_err("bool is not supported");
    assert_eq!(err, CodegenError::UnsupportedReturnType("bool".to_string()));
    assert_eq!(err.message(), "Unsupported return type for MVP: bool");
}

#[test]
fn an_identifier_operand_is_unknown() {
    let err = ir_of("fn f() -> u32 { return x; }").expect_err("there are no variables");
    assert_eq!(err, CodegenError::UnknownIdentifier("x".to_string()));
    assert_eq!(err.message(), "MVP: unknown identifier 'x' (no vars yet)");
}

#[test]
fn the_first_failing_function_decides() {
    let err = ir_of("fn a() -> u32 { return 1; } fn b() -> u32 { return y; } fn c() -> f64 { return 1; }")
        .expect_err("b fails");
    assert_eq!(err, CodegenError::UnknownIdentifier("y".to_string()));
    let err = ir_of("fn c() -> f64 { return z; }").expect_err("the type is looked at first");
    assert_eq!(err, CodegenError::UnsupportedReturnType("f64".to_string()));
}

#[test]
fn statement_shapes() {
    let nested = function("u32", vec![Expr::Return(Box::new(Expr::Return(Box::new(Expr::Int(1)))))]);
    assert_eq!(error_of(&nested), CodegenError::NestedReturn);
    assert_eq!(error_of(&nested).message(), "MVP: nested return not allowed");

    let bare = function("u32", vec![Expr::Int(3)]);
    assert_eq!(error_of(&bare), CodegenError::UnsupportedStatement("Int(3)".to_string()));
    assert_eq!(error_of(&bare).message(), "Unsupported statement in MVP: Int(3)");

    let name = function("i32", vec![Expr::Ident("v".to_string())]);
    assert_eq!(error_of(&name).message(), "Unsupported statement in MVP: Ident(\"v\")");

    let empty = function("u32", vec![]);
    assert_eq!(error_of(&empty), CodegenError::UnsupportedBody(0));
    assert_eq!(
        error_of(&empty).message(),
        "Unsupported function body in MVP: expected one return statement, found 0"
    );

    let two = function(
        "u32",
        vec![Expr::Return(Box::new(Expr::Int(1))), Expr::Return(Box::new(Expr::Int(2)))],
    );
    assert_eq!(error_of(&two), CodegenError::UnsupportedBody(2));
}

#[test]
fn single_functions_and_operands() {
    let context = Context::create();
    let mut codegen = CodeGen::new(&context, "m");
    let f = Function {
        name: "g".to_string(),
        return_type: "i32".to_string(),
        body: vec![Expr::Return(Box::new(Expr::Int(-2)))],
    };
    let value = codegen.compile_function(&f).expect("code is generated");
    assert_eq!(value.get_name().to_str(), Ok("g"));
    assert_eq!(value.count_params(), 0);
    let constant = codegen.codegen_expr(&Expr::Int(5)).expect("a literal is a constant");
    assert_eq!(constant.get_zero_extended_constant(), Some(5));
    assert_eq!(constant.get_type().get_bit_width(), 32);
    let negative = codegen.codegen_expr(&Expr::Int(-2)).expect("a literal is a constant");
    assert_eq!(negative.get_zero_extended_constant(), Some(4294967294));
    let wide = codegen.codegen_expr(&Expr::Int(4294967296 + 9)).expect("a literal is a constant");
    assert_eq!(wide.get_zero_extended_constant(), Some(9));
    let lowest = codegen.codegen_expr(&Expr::Int(i64::MIN)).expect("a literal is a constant");
    assert_eq!(lowest.get_zero_extended_constant(), Some(0));
    assert_eq!(
        codegen.codegen_expr(&Expr::Ident("n".to_string())),
        Err(CodegenError::UnknownIdentifier("n".to_string()))
    );
}

#[test]
fn emission_errors_have_their_texts() {
    assert_eq!(CodegenError::TargetInit("no".to_string()).message(), "initialize_native failed: no");
    assert_eq!(CodegenError::WriteIr("no".to_string()).message(), "print_to_file(.ll) failed: no");
    assert_eq!(CodegenError::TargetLookup("no".to_string()).message(), "Target::from_triple failed: no");
    assert_eq!(CodegenError::TargetMachine.message(), "create_target_machine returned None");
    assert_eq!(CodegenError::WriteObject("no".to_string()).message(), "write_to_file(.o) failed: no");
    assert_eq!(CodegenError::BuildReturn("UnsetPosition".to_string()).message(), "build_return failed: UnsetPosition");
}

#[test]
fn default_paths_lie_in_the_output_directory() {
    assert_eq!(default_output_paths("."), ("./out.o".to_string(), "./out.ll".to_string()));
    assert_eq!(default_output_paths("build"), ("build/out.o".to_string(), "build/out.ll".to_string()));
    assert_eq!(default_output_paths("build/"), ("build/out.o".to_string(), "build/out.ll".to_string()));
    assert_eq!(default_output_paths("/"), ("/out.o".to_string(), "/out.ll".to_string()));
    assert_eq!(default_output_paths(""), ("out.o".to_string(), "out.ll".to_string()));
}

#[test]
fn default_paths_agree_with_the_platform_join() {
    for dir in [".", "build", "build/", "/tmp/x", "", "a b"] {
        let (obj, ll) = default_output_paths(dir);
        assert_eq!(std::path::PathBuf::from(obj), std::path::Path::new(dir).join("out.o"));
        assert_eq!(std::path::PathBuf::from(ll), std::path::Path::new(dir).join("out.ll"));
    }
}

fn empty() -> Program {
    Program { functions: vec![] }
}

#[test]
fn a_new_module_is_empty_and_bears_its_name() {
    let context = Context::create();
    let module = CodeGen::new(&context, "xenon_mvp").compile_program(&empty()).expect("nothing to refuse");
    assert_eq!(module.get_name().to_str(), Ok("xenon_mvp"));
    assert!(module.get_first_function().is_none());
    assert_eq!(module.get_functions().count(), 0);
    assert_eq!(module.get_context(), context);
}

#[test]
fn a_module_name_ends_at_its_first_nul() {
    let context = Context::create();
    let module = CodeGen::new(&context, "ab\0cd").compile_program(&empty()).expect("nothing to refuse");
    assert_eq!(module.get_name().to_str(), Ok("ab"));
    let module = CodeGen::new(&context, "\0cd").compile_program(&empty()).expect("nothing to refuse");
    assert_eq!(module.get_name().to_str(), Ok(""));
    let module = CodeGen::new(&context, "").compile_program(&empty()).expect("nothing to refuse");
    assert_eq!(module.get_name().to_str(), Ok(""));
    let module = CodeGen::new(&context, "d\u{e9}j\u{e0}").compile_program(&empty()).expect("nothing to refuse");
    assert_eq!(module.get_name().to_str(), Ok("d\u{e9}j\u{e0}"));
}

#[test]
fn the_module_holds_one_function_for_each_of_the_program() {
    let program = parse("fn f() -> u32 { return 1; } fn g() -> i32 { return 2; } fn f() -> u32 { return 3; }");
    let context = Context::create();
    let module = CodeGen::new(&context, "m").compile_program(&program).expect("code is generated");
    assert_eq!(module.get_functions().count(), 3);
    assert_eq!(module.get_name().to_str(), Ok("m"));
}

#[test]
fn a_function_is_declared_once_its_type_is_known() {
    let context = Context::create();
    let mut codegen = CodeGen::new(&context, "m");
    let unknown = Function { name: "a".to_string(), return_type: "bool".to_string(), body: vec![] };
    assert_eq!(codegen.compile_function(&unknown), Err(CodegenError::UnsupportedReturnType("bool".to_string())));
    let shapeless = Function { name: "b".to_string(), return_type: "u32".to_string(), body: vec![] };
    assert_eq!(codegen.compile_function(&shapeless), Err(CodegenError::UnsupportedBody(0)));
    let good = Function {
        name: "c".to_string(),
        return_type: "i32".to_string(),
        body: vec![Expr::Return(Box::new(Expr::Int(1)))],
    };
    assert!(codegen.compile_function(&good).is_ok());
    let module = codegen.compile_program(&empty()).expect("nothing to refuse");
    assert_eq!(module.get_functions().count(), 2);
    assert!(module.get_function("a").is_none());
    assert!(module.get_function("b").is_some());
    assert!(module.get_function("c").is_some());
}
