use crate::cli;
use vstd::prelude::*;
use vstd::std_specs::convert::{FromSpec, FromSpecImpl};

verus! {

/// How diagnostics are written.
#[derive(Debug, Clone, Copy, PartialEq, Eq, Structural)]
pub enum ErrorFormat {
    Human,
    Json,
}

/// When diagnostics are coloured.
#[derive(Debug, Clone, Copy, PartialEq, Eq, Structural)]
pub enum ColorChoice {
    Auto,
    Always,
    Never,
}

/// A stage of the pipeline, as the place after which a run stops; in running order.
#[derive(Debug, Clone, Copy, PartialEq, Eq, Structural)]
pub enum StopAfter {
    Parse,
    Expand,
    Resolve,
    Typeck,
    Borrowck,
    Lower,
    Hir,
    Mir,
    Codegen,
    Link,
}

/// An artifact that `compile` may be asked for.
#[derive(Debug, Clone, Copy, PartialEq, Eq, Structural)]
pub enum CompileEmitKind {
    Ast,
    Hir,
    Mir,
    Ir,
    Bitcode,
    Asm,
    Obj,
    Metadata,
    DepInfo,
    Link,
    Tokens,
}

/// An artifact that `check` may be asked for.
#[derive(Debug, Clone, Copy, PartialEq, Eq, Structural)]
pub enum CheckEmitKind {
    Ast,
    Hir,
    Mir,
    Metadata,
    DepInfo,
    Tokens,
}

/// A piece of compiler metadata that may be printed instead of compiling.
#[derive(Debug, Clone, Copy, PartialEq, Eq, Structural)]
pub enum PrintKind {
    TargetList,
    HostTarget,
    Sysroot,
    CodeModels,
    RelocationModels,
    CodegenOptions,
}

/// The kind of artifact that a crate becomes.
#[derive(Debug, Clone, Copy, PartialEq, Eq, Structural)]
pub enum CrateType {
    Bin,
    Lib,
    Rlib,
    Dylib,
    Staticlib,
    Cdylib,
    ProcMacro,
}

/// The language edition.
#[derive(Debug, Clone, Copy, PartialEq, Eq, Structural)]
pub enum Edition {
    E2026,
}

/// The optimization level.
#[derive(Debug, Clone, Copy, PartialEq, Eq, Structural)]
pub enum OptLevel {
    O0,
    O1,
    O2,
    O3,
    Os,
    Oz,
}

/// How much debug information is generated.
#[derive(Debug, Clone, Copy, PartialEq, Eq, Structural)]
pub enum DebugInfo {
    Off,
    LineTablesOnly,
    Limited,
    Full,
}

/// The mode of link-time optimization.
#[derive(Debug, Clone, Copy, PartialEq, Eq, Structural)]
pub enum LtoMode {
    Off,
    Thin,
    Fat,
}

/// The code model.
#[derive(Debug, Clone, Copy, PartialEq, Eq, Structural)]
pub enum CodeModel {
    Tiny,
    Small,
    Kernel,
    Medium,
    Large,
}

/// The relocation model.
#[derive(Debug, Clone, Copy, PartialEq, Eq, Structural)]
pub enum RelocationModel {
    Static,
    Pic,
    Pie,
    DynamicNoPic,
}

/// The settings of one `compile` run, with every choice made.
#[derive(Debug, Clone)]
pub struct CompileConfig {
    pub source: Vec<String>,
    pub crate_name: Option<String>,
    pub crate_type: CrateType,
    pub edition: Edition,
    pub target: Option<String>,
    pub sysroot: Option<String>,
    pub cfg: Vec<String>,
    pub features: Vec<String>,
    pub include_path: Vec<String>,
    pub search_path: Vec<String>,
    pub externs: Vec<String>,
    pub print: Vec<PrintKind>,
    pub error_format: ErrorFormat,
    pub color: ColorChoice,
    pub warnings_as_errors: bool,
    pub verbose: bool,
    pub quiet: bool,
    pub unstable: Vec<String>,
    pub stop_after: StopAfter,
    pub emit: Vec<CompileEmitKind>,
    pub output: Option<String>,
    pub out_dir: Option<String>,
    pub dep_info: Option<String>,
    pub opt_level: OptLevel,
    pub debuginfo: DebugInfo,
    pub incremental: Option<String>,
    pub lto: LtoMode,
    pub code_model: CodeModel,
    pub relocation_model: RelocationModel,
    pub jobs: Option<usize>,
    pub codegen_opt: Vec<String>,
    pub linker: Option<String>,
    pub link_arg: Vec<String>,
    pub prefer_dynamic: bool,
    pub prefer_static: bool,
}

/// The settings of one `check` run, with every choice made.
#[derive(Debug, Clone)]
pub struct CheckConfig {
    pub source: Vec<String>,
    pub crate_name: Option<String>,
    pub crate_type: CrateType,
    pub edition: Edition,
    pub target: Option<String>,
    pub sysroot: Option<String>,
    pub cfg: Vec<String>,
    pub features: Vec<String>,
    pub include_path: Vec<String>,
    pub search_path: Vec<String>,
    pub externs: Vec<String>,
    pub print: Vec<PrintKind>,
    pub error_format: ErrorFormat,
    pub color: ColorChoice,
    pub warnings_as_errors: bool,
    pub verbose: bool,
    pub quiet: bool,
    pub unstable: Vec<String>,
    pub stop_after: StopAfter,
    pub emit: Vec<CheckEmitKind>,
    pub dep_info: Option<String>,
}

impl From<cli::ErrorFormat> for ErrorFormat {
    fn from(value: cli::ErrorFormat) -> (r: Self) {
        match value {
            cli::ErrorFormat::Human => Self::Human,
            cli::ErrorFormat::Json => Self::Json,
        }
    }
}

impl FromSpecImpl<cli::ErrorFormat> for ErrorFormat {
    open spec fn obeys_from_spec() -> bool {
        true
    }

    open spec fn from_spec(value: cli::ErrorFormat) -> Self {
        match value {
            cli::ErrorFormat::Human => Self::Human,
            cli::ErrorFormat::Json => Self::Json,
        }
    }
}

impl From<cli::ColorChoice> for ColorChoice {
    fn from(value: cli::ColorChoice) -> (r: Self) {
        match value {
            cli::ColorChoice::Auto => Self::Auto,
            cli::ColorChoice::Always => Self::Always,
            cli::ColorChoice::Never => Self::Never,
        }
    }
}

impl FromSpecImpl<cli::ColorChoice> for ColorChoice {
    open spec fn obeys_from_spec() -> bool {
        true
    }

    open spec fn from_spec(value: cli::ColorChoice) -> Self {
        match value {
            cli::ColorChoice::Auto => Self::Auto,
            cli::ColorChoice::Always => Self::Always,
            cli::ColorChoice::Never => Self::Never,
        }
    }
}

impl From<cli::CompileStage> for StopAfter {
    fn from(value: cli::CompileStage) -> (r: Self) {
        match value {
            cli::CompileStage::Parse => Self::Parse,
            cli::CompileStage::Expand => Self::Expand,
            cli::CompileStage::Resolve => Self::Resolve,
            cli::CompileStage::Typeck => Self::Typeck,
            cli::CompileStage::Borrowck => Self::Borrowck,
            cli::CompileStage::Lower => Self::Lower,
            cli::CompileStage::Hir => Self::Hir,
            cli::CompileStage::Mir => Self::Mir,
            cli::CompileStage::Codegen => Self::Codegen,
            cli::CompileStage::Link => Self::Link,
        }
    }
}

impl FromSpecImpl<cli::CompileStage> for StopAfter {
    open spec fn obeys_from_spec() -> bool {
        true
    }

    open spec fn from_spec(value: cli::CompileStage) -> Self {
        match value {
            cli::CompileStage::Parse => Self::Parse,
            cli::CompileStage::Expand => Self::Expand,
            cli::CompileStage::Resolve => Self::Resolve,
            cli::CompileStage::Typeck => Self::Typeck,
            cli::CompileStage::Borrowck => Self::Borrowck,
            cli::CompileStage::Lower => Self::Lower,
            cli::CompileStage::Hir => Self::Hir,
            cli::CompileStage::Mir => Self::Mir,
            cli::CompileStage::Codegen => Self::Codegen,
            cli::CompileStage::Link => Self::Link,
        }
    }
}

impl From<cli::CheckStage> for StopAfter {
    fn from(value: cli::CheckStage) -> (r: Self) {
        match value {
            cli::CheckStage::Parse => Self::Parse,
            cli::CheckStage::Expand => Self::Expand,
            cli::CheckStage::Resolve => Self::Resolve,
            cli::CheckStage::Typeck => Self::Typeck,
            cli::CheckStage::Borrowck => Self::Borrowck,
            cli::CheckStage::Hir => Self::Hir,
            cli::CheckStage::Mir => Self::Mir,
        }
    }
}

impl FromSpecImpl<cli::CheckStage> for StopAfter {
    open spec fn obeys_from_spec() -> bool {
        true
    }

    open spec fn from_spec(value: cli::CheckStage) -> Self {
        match value {
            cli::CheckStage::Parse => Self::Parse,
            cli::CheckStage::Expand => Self::Expand,
            cli::CheckStage::Resolve => Self::Resolve,
            cli::CheckStage::Typeck => Self::Typeck,
            cli::CheckStage::Borrowck => Self::Borrowck,
            cli::CheckStage::Hir => Self::Hir,
            cli::CheckStage::Mir => Self::Mir,
        }
    }
}

impl From<cli::CompileEmitKind> for CompileEmitKind {
    fn from(value: cli::CompileEmitKind) -> (r: Self) {
        match value {
            cli::CompileEmitKind::Ast => Self::Ast,
            cli::CompileEmitKind::Hir => Self::Hir,
            cli::CompileEmitKind::Mir => Self::Mir,
            cli::CompileEmitKind::Ir => Self::Ir,
            cli::CompileEmitKind::Bitcode => Self::Bitcode,
            cli::CompileEmitKind::Asm => Self::Asm,
            cli::CompileEmitKind::Obj => Self::Obj,
            cli::CompileEmitKind::Metadata => Self::Metadata,
            cli::CompileEmitKind::DepInfo => Self::DepInfo,
            cli::CompileEmitKind::Link => Self::Link,
            cli::CompileEmitKind::Tokens => Self::Tokens,
        }
    }
}

impl FromSpecImpl<cli::CompileEmitKind> for CompileEmitKind {
    open spec fn obeys_from_spec() -> bool {
        true
    }

    open spec fn from_spec(value: cli::CompileEmitKind) -> Self {
        match value {
            cli::CompileEmitKind::Ast => Self::Ast,
            cli::CompileEmitKind::Hir => Self::Hir,
            cli::CompileEmitKind::Mir => Self::Mir,
            cli::CompileEmitKind::Ir => Self::Ir,
            cli::CompileEmitKind::Bitcode => Self::Bitcode,
            cli::CompileEmitKind::Asm => Self::Asm,
            cli::CompileEmitKind::Obj => Self::Obj,
            cli::CompileEmitKind::Metadata => Self::Metadata,
            cli::CompileEmitKind::DepInfo => Self::DepInfo,
            cli::CompileEmitKind::Link => Self::Link,
            cli::CompileEmitKind::Tokens => Self::Tokens,
        }
    }
}

impl From<cli::CheckEmitKind> for CheckEmitKind {
    fn from(value: cli::CheckEmitKind) -> (r: Self) {
        match value {
            cli::CheckEmitKind::Ast => Self::Ast,
            cli::CheckEmitKind::Hir => Self::Hir,
            cli::CheckEmitKind::Mir => Self::Mir,
            cli::CheckEmitKind::Metadata => Self::Metadata,
            cli::CheckEmitKind::DepInfo => Self::DepInfo,
            cli::CheckEmitKind::Tokens => Self::Tokens,
        }
    }
}

impl FromSpecImpl<cli::CheckEmitKind> for CheckEmitKind {
    open spec fn obeys_from_spec() -> bool {
        true
    }

    open spec fn from_spec(value: cli::CheckEmitKind) -> Self {
        match value {
            cli::CheckEmitKind::Ast => Self::Ast,
            cli::CheckEmitKind::Hir => Self::Hir,
            cli::CheckEmitKind::Mir => Self::Mir,
            cli::CheckEmitKind::Metadata => Self::Metadata,
            cli::CheckEmitKind::DepInfo => Self::DepInfo,
            cli::CheckEmitKind::Tokens => Self::Tokens,
        }
    }
}

impl From<cli::PrintKind> for PrintKind {
    fn from(value: cli::PrintKind) -> (r: Self) {
        match value {
            cli::PrintKind::TargetList => Self::TargetList,
            cli::PrintKind::HostTarget => Self::HostTarget,
            cli::PrintKind::Sysroot => Self::Sysroot,
            cli::PrintKind::CodeModels => Self::CodeModels,
            cli::PrintKind::RelocationModels => Self::RelocationModels,
            cli::PrintKind::CodegenOptions => Self::CodegenOptions,
        }
    }
}

impl FromSpecImpl<cli::PrintKind> for PrintKind {
    open spec fn obeys_from_spec() -> bool {
        true
    }

    open spec fn from_spec(value: cli::PrintKind) -> Self {
        match value {
            cli::PrintKind::TargetList => Self::TargetList,
            cli::PrintKind::HostTarget => Self::HostTarget,
            cli::PrintKind::Sysroot => Self::Sysroot,
            cli::PrintKind::CodeModels => Self::CodeModels,
            cli::PrintKind::RelocationModels => Self::RelocationModels,
            cli::PrintKind::CodegenOptions => Self::CodegenOptions,
        }
    }
}

impl From<cli::CrateType> for CrateType {
    fn from(value: cli::CrateType) -> (r: Self) {
        match value {
            cli::CrateType::Bin => Self::Bin,
            cli::CrateType::Lib => Self::Lib,
            cli::CrateType::Rlib => Self::Rlib,
            cli::CrateType::Dylib => Self::Dylib,
            cli::CrateType::Staticlib => Self::Staticlib,
            cli::CrateType::Cdylib => Self::Cdylib,
            cli::CrateType::ProcMacro => Self::ProcMacro,
        }
    }
}

impl FromSpecImpl<cli::CrateType> for CrateType {
    open spec fn obeys_from_spec() -> bool {
        true
    }

    open spec fn from_spec(value: cli::CrateType) -> Self {
        match value {
            cli::CrateType::Bin => Self::Bin,
            cli::CrateType::Lib => Self::Lib,
            cli::CrateType::Rlib => Self::Rlib,
            cli::CrateType::Dylib => Self::Dylib,
            cli::CrateType::Staticlib => Self::Staticlib,
            cli::CrateType::Cdylib => Self::Cdylib,
            cli::CrateType::ProcMacro => Self::ProcMacro,
        }
    }
}

impl From<cli::Edition> for Edition {
    fn from(value: cli::Edition) -> (r: Self) {
        match value {
            cli::Edition::E2026 => Self::E2026,
        }
    }
}

impl FromSpecImpl<cli::Edition> for Edition {
    open spec fn obeys_from_spec() -> bool {
        true
    }

    open spec fn from_spec(value: cli::Edition) -> Self {
        match value {
            cli::Edition::E2026 => Self::E2026,
        }
    }
}

impl From<cli::OptLevel> for OptLevel {
    fn from(value: cli::OptLevel) -> (r: Self) {
        match value {
            cli::OptLevel::O0 => Self::O0,
            cli::OptLevel::O1 => Self::O1,
            cli::OptLevel::O2 => Self::O2,
            cli::OptLevel::O3 => Self::O3,
            cli::OptLevel::Os => Self::Os,
            cli::OptLevel::Oz => Self::Oz,
        }
    }
}

impl FromSpecImpl<cli::OptLevel> for OptLevel {
    open spec fn obeys_from_spec() -> bool {
        true
    }

    open spec fn from_spec(value: cli::OptLevel) -> Self {
        match value {
            cli::OptLevel::O0 => Self::O0,
            cli::OptLevel::O1 => Self::O1,
            cli::OptLevel::O2 => Self::O2,
            cli::OptLevel::O3 => Self::O3,
            cli::OptLevel::Os => Self::Os,
            cli::OptLevel::Oz => Self::Oz,
        }
    }
}

impl From<cli::DebugInfo> for DebugInfo {
    fn from(value: cli::DebugInfo) -> (r: Self) {
        match value {
            cli::DebugInfo::Off => Self::Off,
            cli::DebugInfo::LineTablesOnly => Self::LineTablesOnly,
            cli::DebugInfo::Limited => Self::Limited,
            cli::DebugInfo::Full => Self::Full,
        }
    }
}

impl FromSpecImpl<cli::DebugInfo> for DebugInfo {
    open spec fn obeys_from_spec() -> bool {
        true
    }

    open spec fn from_spec(value: cli::DebugInfo) -> Self {
        match value {
            cli::DebugInfo::Off => Self::Off,
            cli::DebugInfo::LineTablesOnly => Self::LineTablesOnly,
            cli::DebugInfo::Limited => Self::Limited,
            cli::DebugInfo::Full => Self::Full,
        }
    }
}

impl From<cli::LtoMode> for LtoMode {
    fn from(value: cli::LtoMode) -> (r: Self) {
        match value {
            cli::LtoMode::Off => Self::Off,
            cli::LtoMode::Thin => Self::Thin,
            cli::LtoMode::Fat => Self::Fat,
        }
    }
}

impl FromSpecImpl<cli::LtoMode> for LtoMode {
    open spec fn obeys_from_spec() -> bool {
        true
    }

    open spec fn from_spec(value: cli::LtoMode) -> Self {
        match value {
            cli::LtoMode::Off => Self::Off,
            cli::LtoMode::Thin => Self::Thin,
            cli::LtoMode::Fat => Self::Fat,
        }
    }
}

impl From<cli::CodeModel> for CodeModel {
    fn from(value: cli::CodeModel) -> (r: Self) {
        match value {
            cli::CodeModel::Tiny => Self::Tiny,
            cli::CodeModel::Small => Self::Small,
            cli::CodeModel::Kernel => Self::Kernel,
            cli::CodeModel::Medium => Self::Medium,
            cli::CodeModel::Large => Self::Large,
        }
    }
}

impl FromSpecImpl<cli::CodeModel> for CodeModel {
    open spec fn obeys_from_spec() -> bool {
        true
    }

    open spec fn from_spec(value: cli::CodeModel) -> Self {
        match value {
            cli::CodeModel::Tiny => Self::Tiny,
            cli::CodeModel::Small => Self::Small,
            cli::CodeModel::Kernel => Self::Kernel,
            cli::CodeModel::Medium => Self::Medium,
            cli::CodeModel::Large => Self::Large,
        }
    }
}

impl From<cli::RelocationModel> for RelocationModel {
    fn from(value: cli::RelocationModel) -> (r: Self) {
        match value {
            cli::RelocationModel::Static => Self::Static,
            cli::RelocationModel::Pic => Self::Pic,
            cli::RelocationModel::Pie => Self::Pie,
            cli::RelocationModel::DynamicNoPic => Self::DynamicNoPic,
        }
    }
}

impl FromSpecImpl<cli::RelocationModel> for RelocationModel {
    open spec fn obeys_from_spec() -> bool {
        true
    }

    open spec fn from_spec(value: cli::RelocationModel) -> Self {
        match value {
            cli::RelocationModel::Static => Self::Static,
            cli::RelocationModel::Pic => Self::Pic,
            cli::RelocationModel::Pie => Self::Pie,
            cli::RelocationModel::DynamicNoPic => Self::DynamicNoPic,
        }
    }
}

/// The settings that the command-line values `kinds` stand for, in order.
pub open spec fn print_kinds_of(kinds: Seq<cli::PrintKind>) -> Seq<PrintKind> {
    kinds.map_values(
        |k: cli::PrintKind| <PrintKind as FromSpec<cli::PrintKind>>::from_spec(k),
    )
}

fn convert_print_kinds(kinds: &Vec<cli::PrintKind>) -> (r: Vec<PrintKind>)
    ensures
        r@ == print_kinds_of(kinds@),
{
    let mut r: Vec<PrintKind> = Vec::new();
    let mut i: usize = 0;
    while i < kinds.len()
        invariant
            i <= kinds.len(),
            r@ == print_kinds_of(kinds@.take(i as int)),
        decreases kinds.len() - i,
    {
        r.push(PrintKind::from(kinds[i]));
        assert(r@ =~= print_kinds_of(kinds@.take(i + 1)));
        i = i + 1;
    }
    assert(kinds@.take(kinds.len() as int) =~= kinds@);
    r
}

/// The settings that the command-line values `kinds` stand for, in order.
pub open spec fn compile_emit_kinds_of(kinds: Seq<cli::CompileEmitKind>) -> Seq<CompileEmitKind> {
    kinds.map_values(
        |k: cli::CompileEmitKind| <CompileEmitKind as FromSpec<cli::CompileEmitKind>>::from_spec(k),
    )
}

fn convert_compile_emit_kinds(kinds: &Vec<cli::CompileEmitKind>) -> (r: Vec<CompileEmitKind>)
    ensures
        r@ == compile_emit_kinds_of(kinds@),
{
    let mut r: Vec<CompileEmitKind> = Vec::new();
    let mut i: usize = 0;
    while i < kinds.len()
        invariant
            i <= kinds.len(),
            r@ == compile_emit_kinds_of(kinds@.take(i as int)),
        decreases kinds.len() - i,
    {
        r.push(CompileEmitKind::from(kinds[i]));
        assert(r@ =~= compile_emit_kinds_of(kinds@.take(i + 1)));
        i = i + 1;
    }
    assert(kinds@.take(kinds.len() as int) =~= kinds@);
    r
}

/// The settings that the command-line values `kinds` stand for, in order.
pub open spec fn check_emit_kinds_of(kinds: Seq<cli::CheckEmitKind>) -> Seq<CheckEmitKind> {
    kinds.map_values(
        |k: cli::CheckEmitKind| <CheckEmitKind as FromSpec<cli::CheckEmitKind>>::from_spec(k),
    )
}

fn convert_check_emit_kinds(kinds: &Vec<cli::CheckEmitKind>) -> (r: Vec<CheckEmitKind>)
    ensures
        r@ == check_emit_kinds_of(kinds@),
{
    let mut r: Vec<CheckEmitKind> = Vec::new();
    let mut i: usize = 0;
    while i < kinds.len()
        invariant
            i <= kinds.len(),
            r@ == check_emit_kinds_of(kinds@.take(i as int)),
        decreases kinds.len() - i,
    {
        r.push(CheckEmitKind::from(kinds[i]));
        assert(r@ =~= check_emit_kinds_of(kinds@.take(i + 1)));
        i = i + 1;
    }
    assert(kinds@.take(kinds.len() as int) =~= kinds@);
    r
}

fn clone_strings(v: &Vec<String>) -> (r: Vec<String>)
    ensures
        r@ == v@,
{
    let r = v.clone();
    assert(r@ =~= v@);
    r
}

/// `config` holds what the command line `args` says, value for value.
pub open spec fn compile_config_of(args: &cli::CompileArgs, config: CompileConfig) -> bool {
    &&& config.source@ == args.input.source@
    &&& config.crate_name == args.input.crate_name
    &&& config.crate_type == <CrateType as FromSpec<cli::CrateType>>::from_spec(
        args.input.crate_type,
    )
    &&& config.edition == <Edition as FromSpec<cli::Edition>>::from_spec(
        args.input.edition,
    )
    &&& config.target == args.session.target
    &&& config.sysroot == args.session.sysroot
    &&& config.cfg@ == args.session.cfg@
    &&& config.features@ == args.session.features@
    &&& config.include_path@ == args.session.include_path@
    &&& config.search_path@ == args.session.search_path@
    &&& config.externs@ == args.session.externs@
    &&& config.print@ == print_kinds_of(args.session.print@)
    &&& config.error_format == <ErrorFormat as FromSpec<cli::ErrorFormat>>::from_spec(
        args.diagnostics.error_format,
    )
    &&& config.color == <ColorChoice as FromSpec<cli::ColorChoice>>::from_spec(
        args.diagnostics.color,
    )
    &&& config.warnings_as_errors == args.diagnostics.warnings_as_errors
    &&& config.verbose == args.diagnostics.verbose
    &&& config.quiet == args.diagnostics.quiet
    &&& config.unstable@ == args.internal.unstable@
    &&& config.stop_after == <StopAfter as FromSpec<cli::CompileStage>>::from_spec(
        args.pipeline.stage,
    )
    &&& config.emit@ == compile_emit_kinds_of(args.output.emit@)
    &&& config.output == args.output.output
    &&& config.out_dir == args.output.out_dir
    &&& config.dep_info == args.output.dep_info
    &&& config.opt_level == <OptLevel as FromSpec<cli::OptLevel>>::from_spec(
        args.codegen.opt_level,
    )
    &&& config.debuginfo == <DebugInfo as FromSpec<cli::DebugInfo>>::from_spec(
        args.codegen.debuginfo,
    )
    &&& config.incremental == args.codegen.incremental
    &&& config.lto == <LtoMode as FromSpec<cli::LtoMode>>::from_spec(
        args.codegen.lto,
    )
    &&& config.code_model == <CodeModel as FromSpec<cli::CodeModel>>::from_spec(
        args.codegen.code_model,
    )
    &&& config.relocation_model == <RelocationModel as FromSpec<cli::RelocationModel>>::from_spec(
        args.codegen.relocation_model,
    )
    &&& config.jobs == args.codegen.jobs
    &&& config.codegen_opt@ == args.codegen.codegen_opt@
    &&& config.linker == args.linker.linker
    &&& config.link_arg@ == args.linker.link_arg@
    &&& config.prefer_dynamic == args.linker.prefer_dynamic
    &&& config.prefer_static == args.linker.prefer_static
}

impl From<&cli::CompileArgs> for CompileConfig {
    /// The settings that the command line `args` stands for.
    fn from(args: &cli::CompileArgs) -> (config: Self)
        ensures
            compile_config_of(args, config),
    {
        Self {
            source: clone_strings(&args.input.source),
            crate_name: args.input.crate_name.clone(),
            crate_type: CrateType::from(args.input.crate_type),
            edition: Edition::from(args.input.edition),
            target: args.session.target.clone(),
            sysroot: args.session.sysroot.clone(),
            cfg: clone_strings(&args.session.cfg),
            features: clone_strings(&args.session.features),
            include_path: clone_strings(&args.session.include_path),
            search_path: clone_strings(&args.session.search_path),
            externs: clone_strings(&args.session.externs),
            print: convert_print_kinds(&args.session.print),
            error_format: ErrorFormat::from(args.diagnostics.error_format),
            color: ColorChoice::from(args.diagnostics.color),
            warnings_as_errors: args.diagnostics.warnings_as_errors,
            verbose: args.diagnostics.verbose,
            quiet: args.diagnostics.quiet,
            unstable: clone_strings(&args.internal.unstable),
            stop_after: StopAfter::from(args.pipeline.stage),
            emit: convert_compile_emit_kinds(&args.output.emit),
            output: args.output.output.clone(),
            out_dir: args.output.out_dir.clone(),
            dep_info: args.output.dep_info.clone(),
            opt_level: OptLevel::from(args.codegen.opt_level),
            debuginfo: DebugInfo::from(args.codegen.debuginfo),
            incremental: args.codegen.incremental.clone(),
            lto: LtoMode::from(args.codegen.lto),
            code_model: CodeModel::from(args.codegen.code_model),
            relocation_model: RelocationModel::from(args.codegen.relocation_model),
            jobs: args.codegen.jobs,
            codegen_opt: clone_strings(&args.codegen.codegen_opt),
            linker: args.linker.linker.clone(),
            link_arg: clone_strings(&args.linker.link_arg),
            prefer_dynamic: args.linker.prefer_dynamic,
            prefer_static: args.linker.prefer_static,
        }
    }
}

impl FromSpecImpl<&cli::CompileArgs> for CompileConfig {
    /// The lists of the result are new ones, so `from` promises what
    /// `compile_config_of` says of its result, and not this value.
    open spec fn obeys_from_spec() -> bool {
        false
    }

    /// Some settings that hold what the command line `args` says.
    open spec fn from_spec(args: &cli::CompileArgs) -> Self {
        choose|config: CompileConfig| compile_config_of(args, config)
    }
}

/// `config` holds what the command line `args` says, value for value.
pub open spec fn check_config_of(args: &cli::CheckArgs, config: CheckConfig) -> bool {
    &&& config.source@ == args.input.source@
    &&& config.crate_name == args.input.crate_name
    &&& config.crate_type == <CrateType as FromSpec<cli::CrateType>>::from_spec(
        args.input.crate_type,
    )
    &&& config.edition == <Edition as FromSpec<cli::Edition>>::from_spec(
        args.input.edition,
    )
    &&& config.target == args.session.target
    &&& config.sysroot == args.session.sysroot
    &&& config.cfg@ == args.session.cfg@
    &&& config.features@ == args.session.features@
    &&& config.include_path@ == args.session.include_path@
    &&& config.search_path@ == args.session.search_path@
    &&& config.externs@ == args.session.externs@
    &&& config.print@ == print_kinds_of(args.session.print@)
    &&& config.error_format == <ErrorFormat as FromSpec<cli::ErrorFormat>>::from_spec(
        args.diagnostics.error_format,
    )
    &&& config.color == <ColorChoice as FromSpec<cli::ColorChoice>>::from_spec(
        args.diagnostics.color,
    )
    &&& config.warnings_as_errors == args.diagnostics.warnings_as_errors
    &&& config.verbose == args.diagnostics.verbose
    &&& config.quiet == args.diagnostics.quiet
    &&& config.unstable@ == args.internal.unstable@
    &&& config.stop_after == <StopAfter as FromSpec<cli::CheckStage>>::from_spec(
        args.pipeline.stage,
    )
    &&& config.emit@ == check_emit_kinds_of(args.output.emit@)
    &&& config.dep_info == args.output.dep_info
}

impl From<&cli::CheckArgs> for CheckConfig {
    /// The settings that the command line `args` stands for.
    fn from(args: &cli::CheckArgs) -> (config: Self)
        ensures
            check_config_of(args, config),
    {
        Self {
            source: clone_strings(&args.input.source),
            crate_name: args.input.crate_name.clone(),
            crate_type: CrateType::from(args.input.crate_type),
            edition: Edition::from(args.input.edition),
            target: args.session.target.clone(),
            sysroot: args.session.sysroot.clone(),
            cfg: clone_strings(&args.session.cfg),
            features: clone_strings(&args.session.features),
            include_path: clone_strings(&args.session.include_path),
            search_path: clone_strings(&args.session.search_path),
            externs: clone_strings(&args.session.externs),
            print: convert_print_kinds(&args.session.print),
            error_format: ErrorFormat::from(args.diagnostics.error_format),
            color: ColorChoice::from(args.diagnostics.color),
            warnings_as_errors: args.diagnostics.warnings_as_errors,
            verbose: args.diagnostics.verbose,
            quiet: args.diagnostics.quiet,
            unstable: clone_strings(&args.internal.unstable),
            stop_after: StopAfter::from(args.pipeline.stage),
            emit: convert_check_emit_kinds(&args.output.emit),
            dep_info: args.output.dep_info.clone(),
        }
    }
}

impl FromSpecImpl<&cli::CheckArgs> for CheckConfig {
    /// The lists of the result are new ones, so `from` promises what
    /// `check_config_of` says of its result, and not this value.
    open spec fn obeys_from_spec() -> bool {
        false
    }

    /// Some settings that hold what the command line `args` says.
    open spec fn from_spec(args: &cli::CheckArgs) -> Self {
        choose|config: CheckConfig| check_config_of(args, config)
    }
}

} // verus!
