use vstd::prelude::*;

verus! {

/// The command line as a whole.
#[derive(Debug, Clone)]
pub struct Cli {
    /// The subcommand that was given.
    pub command: Commands,
}

/// The subcommands.
#[derive(Debug, Clone)]
pub enum Commands {
    /// Compile the source files and link the result.
    Compile(CompileArgs),
    /// Check the source files without generating code.
    Check(CheckArgs),
}

/// Everything that `compile` is given.
#[derive(Debug, Clone)]
pub struct CompileArgs {
    pub input: InputArgs,
    pub session: SessionArgs,
    pub pipeline: CompilePipelineArgs,
    pub output: CompileOutputArgs,
    pub codegen: CodegenArgs,
    pub linker: LinkerArgs,
    pub diagnostics: DiagnosticsArgs,
    pub internal: InternalArgs,
}

/// Everything that `check` is given.
#[derive(Debug, Clone)]
pub struct CheckArgs {
    pub input: InputArgs,
    pub session: SessionArgs,
    pub pipeline: CheckPipelineArgs,
    pub output: CheckOutputArgs,
    pub diagnostics: DiagnosticsArgs,
    pub internal: InternalArgs,
}

/// The source files and the identity of the crate.
#[derive(Debug, Clone)]
pub struct InputArgs {
    /// The paths of the source files, in order.
    pub source: Vec<String>,
    /// A name for the crate, in place of the inferred one.
    pub crate_name: Option<String>,
    pub crate_type: CrateType,
    pub edition: Edition,
}

/// Settings of the build that bear on what is compiled.
#[derive(Debug, Clone)]
pub struct SessionArgs {
    /// The target triple.
    pub target: Option<String>,
    /// The path of the sysroot.
    pub sysroot: Option<String>,
    /// Configuration predicates.
    pub cfg: Vec<String>,
    /// Named features to enable.
    pub features: Vec<String>,
    /// Paths to look for imports in.
    pub include_path: Vec<String>,
    /// Paths to look for libraries in.
    pub search_path: Vec<String>,
    /// External dependencies, each `NAME=PATH`.
    pub externs: Vec<String>,
    /// Metadata to print instead of compiling.
    pub print: Vec<PrintKind>,
}

/// How far `compile` goes.
#[derive(Debug, Clone)]
pub struct CompilePipelineArgs {
    pub stage: CompileStage,
}

/// How far `check` goes.
#[derive(Debug, Clone)]
pub struct CheckPipelineArgs {
    pub stage: CheckStage,
}

/// What `compile` writes, and where.
#[derive(Debug, Clone)]
pub struct CompileOutputArgs {
    pub emit: Vec<CompileEmitKind>,
    /// The path of the final artifact.
    pub output: Option<String>,
    /// The directory for emitted artifacts.
    pub out_dir: Option<String>,
    /// The path of the dependency file.
    pub dep_info: Option<String>,
}

/// What `check` writes, and where.
#[derive(Debug, Clone)]
pub struct CheckOutputArgs {
    pub emit: Vec<CheckEmitKind>,
    /// The path of the dependency file.
    pub dep_info: Option<String>,
}

/// Settings of code generation.
#[derive(Debug, Clone)]
pub struct CodegenArgs {
    pub opt_level: OptLevel,
    pub debuginfo: DebugInfo,
    /// The directory for incremental state.
    pub incremental: Option<String>,
    pub lto: LtoMode,
    pub code_model: CodeModel,
    pub relocation_model: RelocationModel,
    /// The number of code generation jobs.
    pub jobs: Option<usize>,
    /// Further code generation options.
    pub codegen_opt: Vec<String>,
}

/// Settings of linking.
#[derive(Debug, Clone)]
pub struct LinkerArgs {
    /// The path of the linker to run.
    pub linker: Option<String>,
    /// Further arguments for the linker.
    pub link_arg: Vec<String>,
    pub prefer_dynamic: bool,
    pub prefer_static: bool,
}

/// How diagnostics are reported.
#[derive(Debug, Clone)]
pub struct DiagnosticsArgs {
    pub error_format: ErrorFormat,
    pub color: ColorChoice,
    pub warnings_as_errors: bool,
    pub verbose: bool,
    pub quiet: bool,
}

/// Unstable settings.
#[derive(Debug, Clone)]
pub struct InternalArgs {
    /// Unstable flags, each `FLAG` or `FLAG=VALUE`.
    pub unstable: Vec<String>,
}

/// How diagnostics are written.
#[derive(Debug, Clone, Copy, PartialEq, Eq, Structural)]
pub enum ErrorFormat {
    Human,
    Json,
}

/// When diagnostics are coloured.
#[derive(Debug, Clone, Copy, PartialEq, Eq, Structural)]
pub enum ColorChoice {
    Auto,
    Always,
    Never,
}

/// The stage after which `compile` may be told to stop.
#[derive(Debug, Clone, Copy, PartialEq, Eq, Structural)]
pub enum CompileStage {
    Parse,
    Expand,
    Resolve,
    Typeck,
    Borrowck,
    Lower,
    Hir,
    Mir,
    Codegen,
    Link,
}

/// The stage after which `check` may be told to stop.
#[derive(Debug, Clone, Copy, PartialEq, Eq, Structural)]
pub enum CheckStage {
    Parse,
    Expand,
    Resolve,
    Typeck,
    Borrowck,
    Hir,
    Mir,
}

/// An artifact that `compile` may be asked for.
#[derive(Debug, Clone, Copy, PartialEq, Eq, Structural)]
pub enum CompileEmitKind {
    Ast,
    Hir,
    Mir,
    Ir,
    Bitcode,
    Asm,
    Obj,
    Metadata,
    DepInfo,
    Link,
    Tokens,
}

/// An artifact that `check` may be asked for.
#[derive(Debug, Clone, Copy, PartialEq, Eq, Structural)]
pub enum CheckEmitKind {
    Ast,
    Hir,
    Mir,
    Metadata,
    DepInfo,
    Tokens,
}

/// A piece of compiler metadata that may be printed instead of compiling.
#[derive(Debug, Clone, Copy, PartialEq, Eq, Structural)]
pub enum PrintKind {
    TargetList,
    HostTarget,
    Sysroot,
    CodeModels,
    RelocationModels,
    CodegenOptions,
}

/// The kind of artifact that a crate becomes.
#[derive(Debug, Clone, Copy, PartialEq, Eq, Structural)]
pub enum CrateType {
    Bin,
    Lib,
    Rlib,
    Dylib,
    Staticlib,
    Cdylib,
    ProcMacro,
}

/// The language edition.
#[derive(Debug, Clone, Copy, PartialEq, Eq, Structural)]
pub enum Edition {
    E2026,
}

/// The optimization level.
#[derive(Debug, Clone, Copy, PartialEq, Eq, Structural)]
pub enum OptLevel {
    O0,
    O1,
    O2,
    O3,
    Os,
    Oz,
}

/// How much debug information is generated.
#[derive(Debug, Clone, Copy, PartialEq, Eq, Structural)]
pub enum DebugInfo {
    Off,
    LineTablesOnly,
    Limited,
    Full,
}

/// The mode of link-time optimization.
#[derive(Debug, Clone, Copy, PartialEq, Eq, Structural)]
pub enum LtoMode {
    Off,
    Thin,
    Fat,
}

/// The code model.
#[derive(Debug, Clone, Copy, PartialEq, Eq, Structural)]
pub enum CodeModel {
    Tiny,
    Small,
    Kernel,
    Medium,
    Large,
}

/// The relocation model.
#[derive(Debug, Clone, Copy, PartialEq, Eq, Structural)]
pub enum RelocationModel {
    Static,
    Pic,
    Pie,
    DynamicNoPic,
}

} // verus!
