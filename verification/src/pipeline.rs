use crate::ast::{Program, ProgramModel};
use crate::codegen::{codegen_error_text, CodegenError, CodegenErrorModel};
use crate::config::{CompileEmitKind, StopAfter};
use crate::lexer::{lex, lex_tokens, view_all, Token, TokenModel};
use crate::link::{
    link_arguments, link_command, link_error_text, link_failure, link_result, linker_name, texts,
    LinkOutcome, LinkOutcomeModel, Platform,
};
use crate::parser::{parse_error_text, parse_tokens, Parser};
use crate::session::{files_view, Session, SourceFileModel};
use crate::text::{child_path, join_path};
use vstd::prelude::*;

verus! {

/// The place of a stage in the order in which the stages run.
pub open spec fn stage_rank(stage: StopAfter) -> nat {
    match stage {
        StopAfter::Parse => 0,
        StopAfter::Expand => 1,
        StopAfter::Resolve => 2,
        StopAfter::Typeck => 3,
        StopAfter::Borrowck => 4,
        StopAfter::Lower => 5,
        StopAfter::Hir => 6,
        StopAfter::Mir => 7,
        StopAfter::Codegen => 8,
        StopAfter::Link => 9,
    }
}

fn rank(stage: StopAfter) -> (r: u8)
    ensures
        r == stage_rank(stage),
{
    match stage {
        StopAfter::Parse => 0,
        StopAfter::Expand => 1,
        StopAfter::Resolve => 2,
        StopAfter::Typeck => 3,
        StopAfter::Borrowck => 4,
        StopAfter::Lower => 5,
        StopAfter::Hir => 6,
        StopAfter::Mir => 7,
        StopAfter::Codegen => 8,
        StopAfter::Link => 9,
    }
}

/// A run that stops after `stop_after` gets to `stage`: `stage` is
/// `stop_after` or comes before it.
pub open spec fn stage_reached(stop_after: StopAfter, stage: StopAfter) -> bool {
    stage_rank(stage) <= stage_rank(stop_after)
}

/// Whether a run that stops after `stop_after` gets to `stage`.
pub fn reaches(stop_after: StopAfter, stage: StopAfter) -> (r: bool)
    ensures
        r == stage_reached(stop_after, stage),
{
    rank(stage) <= rank(stop_after)
}

/// Whether the artifact `kind` is among those asked for.
pub fn wants(emit: &Vec<CompileEmitKind>, kind: CompileEmitKind) -> (r: bool)
    ensures
        r == emit@.contains(kind),
{
    let mut i: usize = 0;
    while i < emit.len()
        invariant
            i <= emit.len(),
            forall|k: int| 0 <= k < i ==> emit@[k] != kind,
        decreases emit.len() - i,
    {
        if emit[i] == kind {
            return true;
        }
        i = i + 1;
    }
    false
}

/// What a `compile` run does after parsing.
#[derive(Debug, Clone, Copy, PartialEq, Eq, Structural)]
pub struct CompilePlan {
    /// Code is generated.
    pub codegen: bool,
    /// The textual form of the module is written.
    pub write_ir: bool,
    /// The object file is written.
    pub write_object: bool,
    /// The object file is linked into an executable.
    pub link: bool,
}

/// What a `compile` run does that stops after `stop_after` and is asked for
/// the artifacts `emit`. A stage runs only where the run gets to it, and an
/// artifact is written only where it is asked for; the object file is
/// written also where linking needs it.
pub open spec fn compile_plan(stop_after: StopAfter, emit: Seq<CompileEmitKind>) -> CompilePlan {
    let codegen = stage_reached(stop_after, StopAfter::Codegen);
    let link = stage_reached(stop_after, StopAfter::Link) && emit.contains(CompileEmitKind::Link);
    CompilePlan {
        codegen,
        write_ir: codegen && emit.contains(CompileEmitKind::Ir),
        write_object: codegen && (emit.contains(CompileEmitKind::Obj) || link),
        link,
    }
}

/// What a `compile` run does that stops after `stop_after` and is asked for
/// the artifacts `emit`.
pub fn plan_compile(stop_after: StopAfter, emit: &Vec<CompileEmitKind>) -> (plan: CompilePlan)
    ensures
        plan == compile_plan(stop_after, emit@),
{
    let codegen = reaches(stop_after, StopAfter::Codegen);
    let link = reaches(stop_after, StopAfter::Link) && wants(emit, CompileEmitKind::Link);
    let write_ir = codegen && wants(emit, CompileEmitKind::Ir);
    let write_object = codegen && (wants(emit, CompileEmitKind::Obj) || link);
    CompilePlan { codegen, write_ir, write_object, link }
}

/// The tokens of the source files from index `i` on, one file after the
/// other. A file that cannot be lexed adds nothing.
pub open spec fn source_tokens(files: Seq<SourceFileModel>, i: int) -> Seq<TokenModel>
    decreases files.len() - i,
{
    if i < 0 || i >= files.len() {
        Seq::empty()
    } else {
        lex_tokens(files[i].content) + source_tokens(files, i + 1)
    }
}

/// The tokens of all source files of the session as one sequence, in the
/// order of the files.
pub fn collect_tokens(session: &Session) -> (tokens: Vec<Token>)
    ensures
        view_all(tokens@) == source_tokens(files_view(session.source@), 0),
{
    let ghost files = files_view(session.source@);
    let mut tokens: Vec<Token> = Vec::new();
    let mut i: usize = 0;
    assert(view_all(tokens@) + source_tokens(files, 0) =~= source_tokens(files, 0));
    while i < session.source.len()
        invariant
            i <= session.source.len(),
            files == files_view(session.source@),
            source_tokens(files, 0) == view_all(tokens@) + source_tokens(files, i as int),
        decreases session.source.len() - i,
    {
        let ghost before = view_all(tokens@);
        let mut more = lex(session.source[i].content.as_str());
        let ghost added = view_all(more@);
        assert(added == lex_tokens(files[i as int].content));
        let ghost joined = tokens@ + more@;
        tokens.append(&mut more);
        assert(tokens@ == joined);
        assert(view_all(tokens@) =~= before + added);
        assert(before + (added + source_tokens(files, i + 1)) =~= (before + added)
            + source_tokens(files, i + 1));
        i = i + 1;
    }
    assert(view_all(tokens@) + Seq::<TokenModel>::empty() =~= view_all(tokens@));
    tokens
}

/// The directory that artifacts go to: the one that the session names, or
/// else the current one.
pub open spec fn output_dir(session: Session) -> Seq<char> {
    match session.out_dir {
        Some(dir) => dir@,
        None => "."@,
    }
}

/// What has happened so far in a `compile` run.
#[derive(Debug, PartialEq)]
pub enum CompileEvent {
    /// Nothing yet.
    Start,
    /// Code generation and the writing of artifacts were carried out, with
    /// this result.
    Emitted(Result<(), CodegenError>),
    /// The linker was run, with this outcome.
    Linked(LinkOutcome),
}

/// What is to happen next in a `compile` run.
#[derive(Debug)]
pub enum CompileAction {
    /// Generate code for `program`; then write the object file and the textual
    /// form of the module, each where a path is given.
    Emit { program: Program, object: Option<String>, ir: Option<String> },
    /// Run the linker `program` with the arguments `args`.
    Link { program: String, args: Vec<String> },
    /// End the run with the exit code `code`: 0 after success, 1 after a
    /// failure, which `message` then describes. `written` lists the artifacts
    /// that the run has produced.
    Exit { code: i32, message: Option<String>, written: Vec<String> },
}

/// The mathematical value of a [`CompileEvent`].
pub enum CompileEventModel {
    Start,
    Emitted(Result<(), CodegenErrorModel>),
    Linked(LinkOutcomeModel),
}

/// The mathematical value of a [`CompileAction`].
pub enum CompileActionModel {
    Emit { program: ProgramModel, object: Option<Seq<char>>, ir: Option<Seq<char>> },
    Link { program: Seq<char>, args: Seq<Seq<char>> },
    Exit { code: i32, message: Option<Seq<char>>, written: Seq<Seq<char>> },
}

/// The text of a string that may be absent.
pub open spec fn opt_text(s: Option<String>) -> Option<Seq<char>> {
    match s {
        Some(s) => Some(s@),
        None => None,
    }
}

impl View for CompileEvent {
    type V = CompileEventModel;

    open spec fn view(&self) -> CompileEventModel {
        match self {
            CompileEvent::Start => CompileEventModel::Start,
            CompileEvent::Emitted(Ok(_)) => CompileEventModel::Emitted(Ok(())),
            CompileEvent::Emitted(Err(e)) => CompileEventModel::Emitted(Err(e@)),
            CompileEvent::Linked(outcome) => CompileEventModel::Linked(outcome@),
        }
    }
}

impl View for CompileAction {
    type V = CompileActionModel;

    open spec fn view(&self) -> CompileActionModel {
        match self {
            CompileAction::Emit { program, object, ir } => CompileActionModel::Emit {
                program: program@,
                object: opt_text(*object),
                ir: opt_text(*ir),
            },
            CompileAction::Link { program, args } => CompileActionModel::Link {
                program: program@,
                args: texts(args@),
            },
            CompileAction::Exit { code, message, written } => CompileActionModel::Exit {
                code: *code,
                message: opt_text(*message),
                written: texts(written@),
            },
        }
    }
}

/// A failure of the run: exit code 1 and what went wrong.
pub open spec fn failure(stage: Seq<char>, why: Seq<char>) -> CompileActionModel {
    CompileActionModel::Exit { code: 1, message: Some(stage + why), written: Seq::empty() }
}

/// The artifacts that a run has produced once code generation is over: the
/// textual form of the module and the object file, each where the plan has it.
pub open spec fn emitted_artifacts(plan: CompilePlan, dir: Seq<char>) -> Seq<Seq<char>> {
    (if plan.write_ir {
        seq![child_path(dir, "out.ll"@)]
    } else {
        Seq::empty()
    }) + (if plan.write_object {
        seq![child_path(dir, "out.o"@)]
    } else {
        Seq::empty()
    })
}

/// The next step of a `compile` run on `platform`, given what has happened.
///
/// At the start the tokens of all source files are parsed as one program. A
/// parse error ends the run with exit code 1, and so does later a failure of
/// code generation or of linking. A run that stops before code generation
/// ends there with exit code 0. Otherwise code is generated, the artifacts
/// of the plan are written to `out.ll` and `out.o` in the output directory,
/// and, where the plan links, the object file is linked into `out` there.
pub open spec fn compile_step(
    session: Session,
    event: CompileEventModel,
    platform: Platform,
) -> CompileActionModel {
    let plan = compile_plan(session.stop_after, session.compile_emit@);
    let dir = output_dir(session);
    match event {
        CompileEventModel::Start => match parse_tokens(
            source_tokens(files_view(session.source@), 0),
        ) {
            Err(e) => failure("Parse error: "@, parse_error_text(e)),
            Ok(program) => if plan.codegen {
                CompileActionModel::Emit {
                    program,
                    object: if plan.write_object {
                        Some(child_path(dir, "out.o"@))
                    } else {
                        None
                    },
                    ir: if plan.write_ir {
                        Some(child_path(dir, "out.ll"@))
                    } else {
                        None
                    },
                }
            } else {
                CompileActionModel::Exit { code: 0, message: None, written: Seq::empty() }
            },
        },
        CompileEventModel::Emitted(Err(e)) => failure("Codegen error: "@, codegen_error_text(e)),
        CompileEventModel::Emitted(Ok(_)) => if plan.link {
            CompileActionModel::Link {
                program: linker_name(platform),
                args: link_arguments(child_path(dir, "out.o"@), child_path(dir, "out"@)),
            }
        } else {
            CompileActionModel::Exit {
                code: 0,
                message: None,
                written: emitted_artifacts(plan, dir),
            }
        },
        CompileEventModel::Linked(outcome) => match link_failure(platform, outcome) {
            Some(e) => failure("Link error: "@, link_error_text(e)),
            None => CompileActionModel::Exit {
                code: 0,
                message: None,
                written: emitted_artifacts(plan, dir).push(child_path(dir, "out"@)),
            },
        },
    }
}

fn fail(stage: &str, why: String) -> (action: CompileAction)
    ensures
        action@ == failure(stage@, why@),
{
    let written: Vec<String> = Vec::new();
    assert(texts(written@) =~= Seq::<Seq<char>>::empty());
    CompileAction::Exit {
        code: 1,
        message: Some(String::from_str(stage).concat(why.as_str())),
        written,
    }
}

fn artifacts(plan: CompilePlan, dir: &str) -> (written: Vec<String>)
    ensures
        texts(written@) == emitted_artifacts(plan, dir@),
{
    let mut written: Vec<String> = Vec::new();
    if plan.write_ir {
        written.push(join_path(dir, "out.ll"));
    }
    if plan.write_object {
        written.push(join_path(dir, "out.o"));
    }
    assert(texts(written@) =~= emitted_artifacts(plan, dir@));
    written
}

/// The next step of a `compile` run on `platform`, given what has happened.
/// The caller carries out the step and comes back with its result as the next
/// event, until the step is to exit.
pub fn compile(session: &Session, event: &CompileEvent, platform: Platform) -> (action:
    CompileAction)
    ensures
        action@ == compile_step(*session, event@, platform),
{
    let plan = plan_compile(session.stop_after, &session.compile_emit);
    let dir: &str = match &session.out_dir {
        Some(dir) => dir.as_str(),
        None => ".",
    };
    match event {
        CompileEvent::Start => {
            let tokens = collect_tokens(session);
            let mut parser = Parser::new(tokens.as_slice());
            match parser.parse_program() {
                Err(e) => fail("Parse error: ", e.message()),
                Ok(program) => {
                    if plan.codegen {
                        let object = if plan.write_object {
                            Some(join_path(dir, "out.o"))
                        } else {
                            None
                        };
                        let ir = if plan.write_ir {
                            Some(join_path(dir, "out.ll"))
                        } else {
                            None
                        };
                        CompileAction::Emit { program, object, ir }
                    } else {
                        let written: Vec<String> = Vec::new();
                        assert(texts(written@) =~= Seq::<Seq<char>>::empty());
                        CompileAction::Exit { code: 0, message: None, written }
                    }
                },
            }
        },
        CompileEvent::Emitted(Err(e)) => fail("Codegen error: ", e.message()),
        CompileEvent::Emitted(Ok(_)) => {
            if plan.link {
                let obj = join_path(dir, "out.o");
                let exe = join_path(dir, "out");
                let command = link_command(platform, obj.as_str(), exe.as_str());
                CompileAction::Link { program: command.program, args: command.args }
            } else {
                CompileAction::Exit { code: 0, message: None, written: artifacts(plan, dir) }
            }
        },
        CompileEvent::Linked(outcome) => match link_result(platform, outcome) {
            Err(e) => fail("Link error: ", e.message()),
            Ok(_) => {
                let mut written = artifacts(plan, dir);
                let ghost before = texts(written@);
                written.push(join_path(dir, "out"));
                assert(texts(written@) =~= before.push(child_path(dir@, "out"@)));
                CompileAction::Exit { code: 0, message: None, written }
            },
        },
    }
}

/// How a `check` run ends: its exit code, and what went wrong where it is not 0.
#[derive(Debug, Clone, PartialEq)]
pub struct CheckOutcome {
    pub code: i32,
    pub message: Option<String>,
}

/// The mathematical value of a [`CheckOutcome`].
pub struct CheckOutcomeModel {
    pub code: i32,
    pub message: Option<Seq<char>>,
}

impl View for CheckOutcome {
    type V = CheckOutcomeModel;

    open spec fn view(&self) -> CheckOutcomeModel {
        CheckOutcomeModel { code: self.code, message: opt_text(self.message) }
    }
}

/// How a `check` run ends. The tokens of all source files are parsed as one
/// program: a parse error gives exit code 1. The stages after parsing do
/// nothing yet, so a run that gets through parsing ends with exit code 0
/// whichever stage it stops after.
pub open spec fn check_outcome(session: Session) -> CheckOutcomeModel {
    match parse_tokens(source_tokens(files_view(session.source@), 0)) {
        Err(e) => CheckOutcomeModel {
            code: 1,
            message: Some("Parse error: "@ + parse_error_text(e)),
        },
        Ok(_) => CheckOutcomeModel { code: 0, message: None },
    }
}

/// Runs `check` on the session: it lexes and parses, and writes nothing.
pub fn check(session: &Session) -> (outcome: CheckOutcome)
    ensures
        outcome@ == check_outcome(*session),
{
    let tokens = collect_tokens(session);
    let mut parser = Parser::new(tokens.as_slice());
    match parser.parse_program() {
        Err(e) => {
            let why = e.message();
            CheckOutcome {
                code: 1,
                message: Some(String::from_str("Parse error: ").concat(why.as_str())),
            }
        },
        Ok(_) => CheckOutcome { code: 0, message: None },
    }
}

} // verus!
