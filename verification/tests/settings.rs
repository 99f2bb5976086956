use xenonc::cli;
use xenonc::config::{
    CheckConfig, CheckEmitKind, CodeModel, ColorChoice, CompileConfig, CompileEmitKind, CrateType, DebugInfo,
    Edition, ErrorFormat, LtoMode, OptLevel, PrintKind, RelocationModel, StopAfter,
};
use xenonc::driver::{handle_print_requests, host_target_triple, run, session_failure, Startup};
use xenonc::session::{load_failure, load_source_files, Session};

fn input(source: &[&str]) -> cli::InputArgs {
    cli::InputArgs {
        source: source.iter().map(|s| s.to_string()).collect(),
        crate_name: Some("demo".to_string()),
        crate_type: cli::CrateType::Staticlib,
        edition: cli::Edition::E2026,
    }
}

fn session_args(print: Vec<cli::PrintKind>) -> cli::SessionArgs {
    cli::SessionArgs {
        target: Some("x86_64-unknown-linux-gnu".to_string()),
        sysroot: Some("/opt/sys".to_string()),
        cfg: vec!["a".to_string(), "b=\"c\"".to_string()],
        features: vec!["f".to_string()],
        include_path: vec!["inc".to_string()],
        search_path: vec!["native=lib".to_string()],
        externs: vec!["dep=libdep.rlib".to_string()],
        print,
    }
}

fn diagnostics() -> cli::DiagnosticsArgs {
    cli::DiagnosticsArgs {
        error_format: cli::ErrorFormat::Json,
        color: cli::ColorChoice::Never,
        warnings_as_errors: true,
        verbose: false,
        quiet: true,
    }
}

fn compile_args(print: Vec<cli::PrintKind>) -> cli::CompileArgs {
    cli::CompileArgs {
        input: input(&["a.xe", "b.xe"]),
        session: session_args(print),
        pipeline: cli::CompilePipelineArgs { stage: cli::CompileStage::Codegen },
        output: cli::CompileOutputArgs {
            emit: vec![cli::CompileEmitKind::Ir, cli::CompileEmitKind::Obj],
            output: None,
            out_dir: Some("out".to_string()),
            dep_info: Some("deps.d".to_string()),
        },
        codegen: cli::CodegenArgs {
            opt_level: cli::OptLevel::Os,
            debuginfo: cli::DebugInfo::Limited,
            incremental: Some("inc".to_string()),
            lto: cli::LtoMode::Thin,
            code_model: cli::CodeModel::Kernel,
            relocation_model: cli::RelocationModel::DynamicNoPic,
            jobs: Some(4),
            codegen_opt: vec!["target-cpu=native".to_string()],
        },
        linker: cli::LinkerArgs {
            linker: Some("ld.lld".to_string()),
            link_arg: vec!["-s".to_string()],
            prefer_dynamic: false,
            prefer_static: true,
        },
        diagnostics: diagnostics(),
        internal: cli::InternalArgs { unstable: vec!["dump".to_string()] },
    }
}

fn check_args(print: Vec<cli::PrintKind>) -> cli::CheckArgs {
    cli::CheckArgs {
        input: input(&["a.xe"]),
        session: session_args(print),
        pipeline: cli::CheckPipelineArgs { stage: cli::CheckStage::Typeck },
        output: cli::CheckOutputArgs {
            emit: vec![cli::CheckEmitKind::Tokens, cli::CheckEmitKind::Ast],
            dep_info: None,
        },
        diagnostics: diagnostics(),
        internal: cli::InternalArgs { unstable: vec![] },
    }
}

#[test]
fn choices_carry_over() {
    assert_eq!(ErrorFormat::from(cli::ErrorFormat::Human), ErrorFormat::Human);
    assert_eq!(ErrorFormat::from(cli::ErrorFormat::Json), ErrorFormat::Json);
    assert_eq!(ColorChoice::from(cli::ColorChoice::Always), ColorChoice::Always);
    assert_eq!(StopAfter::from(cli::CompileStage::Lower), StopAfter::Lower);
    assert_eq!(StopAfter::from(cli::CompileStage::Link), StopAfter::Link);
    assert_eq!(StopAfter::from(cli::CheckStage::Parse), StopAfter::Parse);
    assert_eq!(StopAfter::from(cli::CheckStage::Mir), StopAfter::Mir);
    assert_eq!(CompileEmitKind::from(cli::CompileEmitKind::Bitcode), CompileEmitKind::Bitcode);
    assert_eq!(CheckEmitKind::from(cli::CheckEmitKind::DepInfo), CheckEmitKind::DepInfo);
    assert_eq!(PrintKind::from(cli::PrintKind::CodegenOptions), PrintKind::CodegenOptions);
    assert_eq!(CrateType::from(cli::CrateType::ProcMacro), CrateType::ProcMacro);
    assert_eq!(Edition::from(cli::Edition::E2026), Edition::E2026);
    assert_eq!(OptLevel::from(cli::OptLevel::Oz), OptLevel::Oz);
    assert_eq!(DebugInfo::from(cli::DebugInfo::Off), DebugInfo::Off);
    assert_eq!(DebugInfo::from(cli::DebugInfo::LineTablesOnly), DebugInfo::LineTablesOnly);
    assert_eq!(LtoMode::from(cli::LtoMode::Fat), LtoMode::Fat);
    assert_eq!(CodeModel::from(cli::CodeModel::Tiny), CodeModel::Tiny);
    assert_eq!(RelocationModel::from(cli::RelocationModel::Pie), RelocationModel::Pie);
}

#[test]
fn compile_settings_carry_over() {
    let args = compile_args(vec![cli::PrintKind::Sysroot]);
    let config = CompileConfig::from(&args);
    assert_eq!(config.source, vec!["a.xe".to_string(), "b.xe".to_string()]);
    assert_eq!(config.crate_name, Some("demo".to_string()));
    assert_eq!(config.crate_type, CrateType::Staticlib);
    assert_eq!(config.edition, Edition::E2026);
    assert_eq!(config.target, Some("x86_64-unknown-linux-gnu".to_string()));
    assert_eq!(config.sysroot, Some("/opt/sys".to_string()));
    assert_eq!(config.cfg, vec!["a".to_string(), "b=\"c\"".to_string()]);
    assert_eq!(config.features, vec!["f".to_string()]);
    assert_eq!(config.include_path, vec!["inc".to_string()]);
    assert_eq!(config.search_path, vec!["native=lib".to_string()]);
    assert_eq!(config.externs, vec!["dep=libdep.rlib".to_string()]);
    assert_eq!(config.print, vec![PrintKind::Sysroot]);
    assert_eq!(config.error_format, ErrorFormat::Json);
    assert_eq!(config.color, ColorChoice::Never);
    assert!(config.warnings_as_errors && !config.verbose && config.quiet);
    assert_eq!(config.unstable, vec!["dump".to_string()]);
    assert_eq!(config.stop_after, StopAfter::Codegen);
    assert_eq!(config.emit, vec![CompileEmitKind::Ir, CompileEmitKind::Obj]);
    assert_eq!(config.output, None);
    assert_eq!(config.out_dir, Some("out".to_string()));
    assert_eq!(config.dep_info, Some("deps.d".to_string()));
    assert_eq!(config.opt_level, OptLevel::Os);
    assert_eq!(config.debuginfo, DebugInfo::Limited);
    assert_eq!(config.incremental, Some("inc".to_string()));
    assert_eq!(config.lto, LtoMode::Thin);
    assert_eq!(config.code_model, CodeModel::Kernel);
    assert_eq!(config.relocation_model, RelocationModel::DynamicNoPic);
    assert_eq!(config.jobs, Some(4));
    assert_eq!(config.codegen_opt, vec!["target-cpu=native".to_string()]);
    assert_eq!(config.linker, Some("ld.lld".to_string()));
    assert_eq!(config.link_arg, vec!["-s".to_string()]);
    assert!(!config.prefer_dynamic && config.prefer_static);
}

#[test]
fn check_settings_carry_over() {
    let config = CheckConfig::from(&check_args(vec![]));
    assert_eq!(config.source, vec!["a.xe".to_string()]);
    assert_eq!(config.stop_after, StopAfter::Typeck);
    assert_eq!(config.emit, vec![CheckEmitKind::Tokens, CheckEmitKind::Ast]);
    assert_eq!(config.print, Vec::<PrintKind>::new());
    assert_eq!(config.dep_info, None);
    assert_eq!(config.error_format, ErrorFormat::Json);
    assert_eq!(config.crate_type, CrateType::Staticlib);
}

#[test]
fn a_compile_session_keeps_the_settings() {
    let config = CompileConfig::from(&compile_args(vec![]));
    let contents = vec![Ok("fn a".to_string()), Ok("fn b".to_string())];
    let session = Session::from_compile_config(config.clone(), contents).expect("every file was read");
    assert_eq!(session.source.len(), 2);
    assert_eq!(session.source[0].path, "a.xe");
    assert_eq!(session.source[0].content, "fn a");
    assert_eq!(session.source[1].path, "b.xe");
    assert_eq!(session.source[1].content, "fn b");
    assert_eq!(session.crate_name, config.crate_name);
    assert_eq!(session.stop_after, StopAfter::Codegen);
    assert_eq!(session.compile_emit, config.emit);
    assert_eq!(session.check_emit, Vec::<CheckEmitKind>::new());
    assert_eq!(session.out_dir, Some("out".to_string()));
    assert_eq!(session.opt_level, Some(OptLevel::Os));
    assert_eq!(session.debuginfo, Some(DebugInfo::Limited));
    assert_eq!(session.lto, Some(LtoMode::Thin));
    assert_eq!(session.code_model, Some(CodeModel::Kernel));
    assert_eq!(session.relocation_model, Some(RelocationModel::DynamicNoPic));
    assert_eq!(session.jobs, Some(4));
    assert_eq!(session.linker, Some("ld.lld".to_string()));
    assert_eq!(session.link_arg, vec!["-s".to_string()]);
    assert!(session.prefer_static && !session.prefer_dynamic);
    assert_eq!(session.unstable, vec!["dump".to_string()]);
}

#[test]
fn a_check_session_has_no_codegen_settings() {
    let config = CheckConfig::from(&check_args(vec![]));
    let session = Session::from_check_config(config, vec![Ok("x".to_string())]).expect("the file was read");
    assert_eq!(session.source.len(), 1);
    assert_eq!(session.check_emit, vec![CheckEmitKind::Tokens, CheckEmitKind::Ast]);
    assert_eq!(session.compile_emit, Vec::<CompileEmitKind>::new());
    assert_eq!(session.stop_after, StopAfter::Typeck);
    assert_eq!(session.output, None);
    assert_eq!(session.out_dir, None);
    assert_eq!(session.opt_level, None);
    assert_eq!(session.debuginfo, None);
    assert_eq!(session.lto, None);
    assert_eq!(session.code_model, None);
    assert_eq!(session.relocation_model, None);
    assert_eq!(session.jobs, None);
    assert_eq!(session.linker, None);
    assert!(session.codegen_opt.is_empty() && session.link_arg.is_empty());
    assert!(!session.prefer_dynamic && !session.prefer_static);
    assert_eq!(session.crate_name, Some("demo".to_string()));
}

#[test]
fn the_first_unreadable_file_is_reported() {
    let config = CompileConfig::from(&compile_args(vec![]));
    let contents = vec![Ok("fn a".to_string()), Err("No such file or directory (os error 2)".to_string())];
    let err = Session::from_compile_config(config, contents).expect_err("b.xe was not read");
    assert_eq!(err, "couldn't read \"b.xe\": No such file or directory (os error 2)");

    let paths = vec!["x y.xe".to_string(), "b.xe".to_string(), "c.xe".to_string()];
    let contents = vec![Err("first".to_string())];
    assert_eq!(load_source_files(paths.clone(), contents).err(), Some("couldn't read \"x y.xe\": first".to_string()));
    let contents = vec![Ok("1".to_string()), Err("second".to_string()), Err("third".to_string())];
    assert_eq!(load_source_files(paths, contents).err(), Some("couldn't read \"b.xe\": second".to_string()));

    let config = CheckConfig::from(&check_args(vec![]));
    let err = Session::from_check_config(config, vec![Err("denied".to_string())]).expect_err("a.xe was not read");
    assert_eq!(err, "couldn't read \"a.xe\": denied");
}

#[test]
fn a_file_without_an_outcome_counts_as_unreadable() {
    let paths = vec!["a.xe".to_string(), "b.xe".to_string()];
    assert_eq!(
        load_source_files(paths.clone(), vec![Ok("1".to_string())]).err(),
        Some("couldn't read \"b.xe\": no content was supplied".to_string())
    );
    assert_eq!(
        load_source_files(paths.clone(), vec![]).err(),
        Some("couldn't read \"a.xe\": no content was supplied".to_string())
    );
    let files = load_source_files(paths, vec![Ok("1".to_string()), Ok("2".to_string()), Ok("3".to_string())])
        .expect("both files were read");
    assert_eq!(files.len(), 2);
    assert_eq!(files[1].content, "2");
    assert_eq!(load_source_files(vec![], vec![]).expect("nothing to read").len(), 0);
}

#[test]
fn load_failure_quotes_the_path() {
    assert_eq!(load_failure("a.xe", "gone"), "couldn't read \"a.xe\": gone");
    assert_eq!(load_failure("a\"b\\c", "gone"), "couldn't read \"a\\\"b\\\\c\": gone");
}

#[test]
fn session_failure_is_exit_code_2() {
    assert_eq!(session_failure("couldn't read \"a.xe\": gone"), (2, "Error: couldn't read \"a.xe\": gone".to_string()));
}

#[test]
fn host_triples() {
    assert_eq!(host_target_triple("x86_64", "linux"), "x86_64-unknown-linux-gnu");
    assert_eq!(host_target_triple("aarch64", "macos"), "aarch64-apple-darwin");
    assert_eq!(host_target_triple("x86_64", "windows"), "x86_64-pc-windows-msvc");
    assert_eq!(host_target_triple("riscv64", "freebsd"), "riscv64-unknown-freebsd");
}

#[test]
fn print_requests() {
    assert_eq!(handle_print_requests(&vec![], Some("/s"), "h"), None);
    assert_eq!(
        handle_print_requests(&vec![cli::PrintKind::TargetList, cli::PrintKind::HostTarget], None, "x86_64-unknown-linux-gnu"),
        Some(vec!["x86_64-unknown-linux-gnu".to_string(), "x86_64-unknown-linux-gnu".to_string()])
    );
    assert_eq!(handle_print_requests(&vec![cli::PrintKind::Sysroot], Some("/opt/sys"), "h"), Some(vec!["/opt/sys".to_string()]));
    assert_eq!(handle_print_requests(&vec![cli::PrintKind::Sysroot], None, "h"), Some(vec!["<sysroot-unset>".to_string()]));
    let strings = |v: &[&str]| Some(v.iter().map(|s| s.to_string()).collect::<Vec<String>>());
    assert_eq!(
        handle_print_requests(&vec![cli::PrintKind::CodeModels], None, "h"),
        strings(&["tiny", "small", "kernel", "medium", "large"])
    );
    assert_eq!(
        handle_print_requests(&vec![cli::PrintKind::RelocationModels], None, "h"),
        strings(&["static", "pic", "pie", "dynamic-no-pic"])
    );
    assert_eq!(
        handle_print_requests(&vec![cli::PrintKind::CodegenOptions, cli::PrintKind::Sysroot], None, "h"),
        strings(&[
            "opt-level",
            "debuginfo",
            "incremental",
            "lto",
            "code-model",
            "relocation-model",
            "jobs",
            "codegen-opt",
            "<sysroot-unset>"
        ])
    );
}

#[test]
fn a_run_begins_with_print_requests() {
    let cli = cli::Cli { command: cli::Commands::Compile(compile_args(vec![cli::PrintKind::HostTarget, cli::PrintKind::Sysroot])) };
    match run(&cli, "x86_64", "linux") {
        Startup::Print(lines) => assert_eq!(lines, vec!["x86_64-unknown-linux-gnu".to_string(), "/opt/sys".to_string()]),
        other => panic!("not printing: {:?}", other),
    }
    let cli = cli::Cli { command: cli::Commands::Check(check_args(vec![cli::PrintKind::CodeModels])) };
    assert!(matches!(run(&cli, "x86_64", "linux"), Startup::Print(lines) if lines.len() == 5));
}

#[test]
fn a_run_without_print_requests_gets_its_settings() {
    let cli = cli::Cli { command: cli::Commands::Compile(compile_args(vec![])) };
    match run(&cli, "x86_64", "linux") {
        Startup::Compile(config) => {
            assert_eq!(config.stop_after, StopAfter::Codegen);
            assert_eq!(config.source.len(), 2);
        }
        other => panic!("not compiling: {:?}", other),
    }
    let cli = cli::Cli { command: cli::Commands::Check(check_args(vec![])) };
    match run(&cli, "x86_64", "linux") {
        Startup::Check(config) => assert_eq!(config.stop_after, StopAfter::Typeck),
        other => panic!("not checking: {:?}", other),
    }
}
