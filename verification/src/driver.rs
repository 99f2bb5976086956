use crate::cli::{Cli, Commands, PrintKind};
use crate::config::{check_config_of, compile_config_of, CheckConfig, CompileConfig};
use crate::link::texts;
use crate::pipeline::opt_text;
use crate::text::same_text;
use vstd::prelude::*;

verus! {

/// The target triple of a machine of the architecture `arch` under the
/// operating system `os`.
pub open spec fn host_triple(arch: Seq<char>, os: Seq<char>) -> Seq<char> {
    if os == "linux"@ {
        arch + "-unknown-linux-gnu"@
    } else if os == "macos"@ {
        arch + "-apple-darwin"@
    } else if os == "windows"@ {
        arch + "-pc-windows-msvc"@
    } else {
        arch + "-unknown-"@ + os
    }
}

/// The target triple of a machine of the architecture `arch` under the
/// operating system `os`.
pub fn host_target_triple(arch: &str, os: &str) -> (r: String)
    ensures
        r@ == host_triple(arch@, os@),
{
    if same_text(os, "linux") {
        String::from_str(arch).concat("-unknown-linux-gnu")
    } else if same_text(os, "macos") {
        String::from_str(arch).concat("-apple-darwin")
    } else if same_text(os, "windows") {
        String::from_str(arch).concat("-pc-windows-msvc")
    } else {
        String::from_str(arch).concat("-unknown-").concat(os)
    }
}

/// The lines that answer one request for compiler metadata, on the host
/// `host` and with the sysroot `sysroot`.
pub open spec fn lines_for(kind: PrintKind, sysroot: Option<Seq<char>>, host: Seq<char>) -> Seq<
    Seq<char>,
> {
    match kind {
        PrintKind::TargetList => seq![host],
        PrintKind::HostTarget => seq![host],
        PrintKind::Sysroot => match sysroot {
            Some(path) => seq![path],
            None => seq!["<sysroot-unset>"@],
        },
        PrintKind::CodeModels => seq!["tiny"@, "small"@, "kernel"@, "medium"@, "large"@],
        PrintKind::RelocationModels => seq!["static"@, "pic"@, "pie"@, "dynamic-no-pic"@],
        PrintKind::CodegenOptions => seq![
            "opt-level"@,
            "debuginfo"@,
            "incremental"@,
            "lto"@,
            "code-model"@,
            "relocation-model"@,
            "jobs"@,
            "codegen-opt"@,
        ],
    }
}

/// The lines that answer the requests from index `i` on, in their order.
pub open spec fn print_lines(
    kinds: Seq<PrintKind>,
    i: int,
    sysroot: Option<Seq<char>>,
    host: Seq<char>,
) -> Seq<Seq<char>>
    decreases kinds.len() - i,
{
    if i < 0 || i >= kinds.len() {
        Seq::empty()
    } else {
        lines_for(kinds[i], sysroot, host) + print_lines(kinds, i + 1, sysroot, host)
    }
}

/// The texts of a sequence of string slices, in order.
pub open spec fn views(strs: Seq<&str>) -> Seq<Seq<char>> {
    strs.map_values(|s: &str| s@)
}

fn push_all(lines: &mut Vec<String>, more: &[&str])
    ensures
        texts(final(lines)@) == texts(old(lines)@) + views(more@),
{
    let ghost before = texts(lines@);
    let mut i: usize = 0;
    assert(views(more@.take(0)) =~= Seq::<Seq<char>>::empty());
    assert(before + Seq::<Seq<char>>::empty() =~= before);
    while i < more.len()
        invariant
            i <= more.len(),
            texts(lines@) == before + views(more@.take(i as int)),
        decreases more.len() - i,
    {
        let ghost prev = lines@;
        let line = String::from_str(more[i]);
        assert(line@ == more@[i as int]@);
        lines.push(line);
        assert(texts(lines@) =~= texts(prev).push(more@[i as int]@));
        assert(views(more@.take(i + 1)) =~= views(more@.take(i as int)).push(more@[i as int]@));
        assert(texts(lines@) =~= before + views(more@.take(i + 1)));
        i = i + 1;
    }
    assert(more@.take(more@.len() as int) =~= more@);
}

/// Answers the requests for compiler metadata. Where there is none, nothing
/// is answered and the run goes on; otherwise the lines to print come back,
/// and the run is to end with them.
pub fn handle_print_requests(print_kinds: &Vec<PrintKind>, sysroot: Option<&str>, host: &str) -> (r:
    Option<Vec<String>>)
    ensures
        print_kinds@.len() == 0 <==> r is None,
        r is Some ==> texts(r->0@) == print_lines(
            print_kinds@,
            0,
            match sysroot {
                Some(path) => Some(path@),
                None => None,
            },
            host@,
        ),
{
    if print_kinds.len() == 0 {
        return None;
    }
    let ghost root: Option<Seq<char>> = match sysroot {
        Some(path) => Some(path@),
        None => None,
    };
    let mut lines: Vec<String> = Vec::new();
    let mut i: usize = 0;
    assert(texts(lines@) + print_lines(print_kinds@, 0, root, host@) =~= print_lines(
        print_kinds@,
        0,
        root,
        host@,
    ));
    while i < print_kinds.len()
        invariant
            i <= print_kinds.len(),
            root == match sysroot {
                Some(path) => Some(path@),
                None => None,
            },
            print_lines(print_kinds@, 0, root, host@) == texts(lines@) + print_lines(
                print_kinds@,
                i as int,
                root,
                host@,
            ),
        decreases print_kinds.len() - i,
    {
        let ghost before = texts(lines@);
        let ghost rest = print_lines(print_kinds@, i + 1, root, host@);
        let ghost added = lines_for(print_kinds@[i as int], root, host@);
        match print_kinds[i] {
            PrintKind::TargetList => {
                push_all(&mut lines, &[host]);
                assert(views([host]@) =~= added);
            },
            PrintKind::HostTarget => {
                push_all(&mut lines, &[host]);
                assert(views([host]@) =~= added);
            },
            PrintKind::Sysroot => match sysroot {
                Some(path) => {
                    push_all(&mut lines, &[path]);
                    assert(views([path]@) =~= added);
                },
                None => {
                    push_all(&mut lines, &["<sysroot-unset>"]);
                    assert(views(["<sysroot-unset>"]@) =~= added);
                },
            },
            PrintKind::CodeModels => {
                push_all(&mut lines, &["tiny", "small", "kernel", "medium", "large"]);
                assert(views(["tiny", "small", "kernel", "medium", "large"]@)
                    =~= added);
            },
            PrintKind::RelocationModels => {
                push_all(&mut lines, &["static", "pic", "pie", "dynamic-no-pic"]);
                assert(views(["static", "pic", "pie", "dynamic-no-pic"]@)
                    =~= added);
            },
            PrintKind::CodegenOptions => {
                push_all(
                    &mut lines,
                    &[
                        "opt-level",
                        "debuginfo",
                        "incremental",
                        "lto",
                        "code-model",
                        "relocation-model",
                        "jobs",
                        "codegen-opt",
                    ],
                );
                assert(views([
                    "opt-level",
                    "debuginfo",
                    "incremental",
                    "lto",
                    "code-model",
                    "relocation-model",
                    "jobs",
                    "codegen-opt",
                ]@) =~= added);
            },
        }
        assert(texts(lines@) == before + added);
        assert(before + (added + rest) =~= (before + added) + rest);
        i = i + 1;
    }
    assert(texts(lines@) + Seq::<Seq<char>>::empty() =~= texts(lines@));
    Some(lines)
}

/// How a run begins.
#[derive(Debug)]
pub enum Startup {
    /// Compiler metadata was asked for: print these lines and end with exit
    /// code 0.
    Print(Vec<String>),
    /// Read the source files of these settings, then compile.
    Compile(CompileConfig),
    /// Read the source files of these settings, then check.
    Check(CheckConfig),
}

/// How the run of the command line `cli` begins, on a machine of the
/// architecture `arch` under the operating system `os`. A request for
/// compiler metadata comes before everything else: it is answered, and
/// nothing is compiled. Otherwise the settings of the subcommand come back.
pub fn run(cli: &Cli, arch: &str, os: &str) -> (r: Startup)
    ensures
        match cli.command {
            Commands::Compile(args) => if args.session.print@.len() > 0 {
                r is Print && texts(r->Print_0@) == print_lines(
                    args.session.print@,
                    0,
                    opt_text(args.session.sysroot),
                    host_triple(arch@, os@),
                )
            } else {
                r is Compile && compile_config_of(&args, r->Compile_0)
            },
            Commands::Check(args) => if args.session.print@.len() > 0 {
                r is Print && texts(r->Print_0@) == print_lines(
                    args.session.print@,
                    0,
                    opt_text(args.session.sysroot),
                    host_triple(arch@, os@),
                )
            } else {
                r is Check && check_config_of(&args, r->Check_0)
            },
        },
{
    let host = host_target_triple(arch, os);
    match &cli.command {
        Commands::Compile(args) => {
            let sysroot: Option<&str> = match &args.session.sysroot {
                Some(path) => Some(path.as_str()),
                None => None,
            };
            match handle_print_requests(&args.session.print, sysroot, host.as_str()) {
                Some(lines) => Startup::Print(lines),
                None => Startup::Compile(CompileConfig::from(args)),
            }
        },
        Commands::Check(args) => {
            let sysroot: Option<&str> = match &args.session.sysroot {
                Some(path) => Some(path.as_str()),
                None => None,
            };
            match handle_print_requests(&args.session.print, sysroot, host.as_str()) {
                Some(lines) => Startup::Print(lines),
                None => Startup::Check(CheckConfig::from(args)),
            }
        },
    }
}

/// The text that reports that no session could be set up, for the reason
/// `why`.
pub open spec fn session_failure_text(why: Seq<char>) -> Seq<char> {
    "Error: "@ + why
}

/// How a run ends for which no session could be set up, for the reason
/// `why`: with exit code 2, which tells such a failure from a failure to
/// compile, and with the text that reports it.
pub fn session_failure(why: &str) -> (r: (i32, String))
    ensures
        r.0 == 2,
        r.1@ == session_failure_text(why@),
{
    (2, String::from_str("Error: ").concat(why))
}

} // verus!
