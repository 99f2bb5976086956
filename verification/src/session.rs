use crate::config::{
    CheckConfig, CheckEmitKind, CodeModel, ColorChoice, CompileConfig, CompileEmitKind, CrateType,
    DebugInfo, Edition, ErrorFormat, LtoMode, OptLevel, RelocationModel, StopAfter,
};
use crate::text::{debug_text, str_debug};
use vstd::prelude::*;

verus! {

/// A source file that was read: where it lies and what it holds.
#[derive(Debug, Clone)]
pub struct SourceFile {
    pub path: String,
    pub content: String,
}

/// The mathematical value of a [`SourceFile`].
pub struct SourceFileModel {
    pub path: Seq<char>,
    pub content: Seq<char>,
}

impl View for SourceFile {
    type V = SourceFileModel;

    open spec fn view(&self) -> SourceFileModel {
        SourceFileModel { path: self.path@, content: self.content@ }
    }
}

/// The values of a sequence of source files, in order.
pub open spec fn files_view(files: Seq<SourceFile>) -> Seq<SourceFileModel> {
    files.map_values(|f: SourceFile| f@)
}

/// The settings of one run of the pipeline together with the source files
/// that it works on. It is built once and only read afterwards. The settings
/// of code generation and linking are absent from a session built for `check`.
#[derive(Debug, Clone)]
pub struct Session {
    pub source: Vec<SourceFile>,
    pub crate_name: Option<String>,
    pub crate_type: CrateType,
    pub edition: Edition,
    pub target: Option<String>,
    pub sysroot: Option<String>,
    pub cfg: Vec<String>,
    pub features: Vec<String>,
    pub include_path: Vec<String>,
    pub search_path: Vec<String>,
    pub externs: Vec<String>,
    pub error_format: ErrorFormat,
    pub color: ColorChoice,
    pub warnings_as_errors: bool,
    pub verbose: bool,
    pub quiet: bool,
    pub unstable: Vec<String>,
    pub stop_after: StopAfter,
    pub compile_emit: Vec<CompileEmitKind>,
    pub check_emit: Vec<CheckEmitKind>,
    pub output: Option<String>,
    pub out_dir: Option<String>,
    pub dep_info: Option<String>,
    pub opt_level: Option<OptLevel>,
    pub debuginfo: Option<DebugInfo>,
    pub incremental: Option<String>,
    pub lto: Option<LtoMode>,
    pub code_model: Option<CodeModel>,
    pub relocation_model: Option<RelocationModel>,
    pub jobs: Option<usize>,
    pub codegen_opt: Vec<String>,
    pub linker: Option<String>,
    pub link_arg: Vec<String>,
    pub prefer_dynamic: bool,
    pub prefer_static: bool,
}

/// What is reported when the file at `path` could not be read for `reason`.
pub open spec fn load_failure_text(path: Seq<char>, reason: Seq<char>) -> Seq<char> {
    "couldn't read "@ + str_debug(path) + ": "@ + reason
}

/// What is reported when the file at `path` could not be read for `reason`.
pub fn load_failure(path: &str, reason: &str) -> (r: String)
    ensures
        r@ == load_failure_text(path@, reason@),
{
    let quoted = debug_text(path);
    String::from_str("couldn't read ").concat(quoted.as_str()).concat(": ").concat(reason)
}

/// The reason given for a source file of which nothing is known.
pub open spec fn not_read() -> Seq<char> {
    "no content was supplied"@
}

/// The source files from index `i` on, where `contents[k]` is what came of
/// reading `paths[k]`: the text, or why there is none. The first file that
/// could not be read decides: its failure is the outcome. A file for which
/// `contents` holds nothing counts as one that could not be read.
pub open spec fn load_from(
    paths: Seq<String>,
    contents: Seq<Result<String, String>>,
    i: int,
) -> Result<Seq<SourceFileModel>, Seq<char>>
    decreases paths.len() - i,
{
    if i < 0 || i >= paths.len() {
        Ok(Seq::empty())
    } else if i >= contents.len() {
        Err(load_failure_text(paths[i]@, not_read()))
    } else {
        match contents[i] {
            Err(reason) => Err(load_failure_text(paths[i]@, reason@)),
            Ok(text) => match load_from(paths, contents, i + 1) {
                Err(message) => Err(message),
                Ok(rest) => Ok(seq![SourceFileModel { path: paths[i]@, content: text@ }] + rest),
            },
        }
    }
}

/// Pairs each path with the text that was read from it. `contents[k]` is what
/// came of reading `paths[k]`; the first failure is reported, and no file at
/// all comes back then. Reading may stop at the first failure: what lies
/// behind it in `contents` is not looked at.
pub fn load_source_files(paths: Vec<String>, contents: Vec<Result<String, String>>) -> (r: Result<
    Vec<SourceFile>,
    String,
>)
    ensures
        match load_from(paths@, contents@, 0) {
            Ok(files) => r is Ok && files_view(r->Ok_0@) == files && files.len() == paths@.len(),
            Err(message) => r is Err && r->Err_0@ == message,
        },
{
    let mut files: Vec<SourceFile> = Vec::new();
    let mut i: usize = 0;
    assert(files_view(files@) + load_from(paths@, contents@, 0)->Ok_0 =~= load_from(
        paths@,
        contents@,
        0,
    )->Ok_0);
    while i < paths.len()
        invariant
            i <= paths.len(),
            files@.len() == i,
            load_from(paths@, contents@, 0) == match load_from(paths@, contents@, i as int) {
                Ok(rest) => Ok::<Seq<SourceFileModel>, Seq<char>>(files_view(files@) + rest),
                Err(message) => Err(message),
            },
        decreases paths.len() - i,
    {
        if i >= contents.len() {
            return Err(load_failure(paths[i].as_str(), "no content was supplied"));
        }
        let ghost before = files_view(files@);
        match &contents[i] {
            Err(reason) => {
                return Err(load_failure(paths[i].as_str(), reason.as_str()));
            },
            Ok(text) => {
                let file = SourceFile { path: paths[i].clone(), content: text.clone() };
                proof {
                    assert(files_view(files@.push(file)) =~= before + seq![file@]);
                    match load_from(paths@, contents@, i + 1) {
                        Ok(rest) => {
                            assert(before + (seq![file@] + rest) =~= (before + seq![file@]) + rest);
                        },
                        Err(message) => {},
                    }
                }
                files.push(file);
            },
        }
        i = i + 1;
    }
    proof {
        assert(files_view(files@) + Seq::<SourceFileModel>::empty() =~= files_view(files@));
    }
    Ok(files)
}

/// `session` holds the settings of `config` unchanged, and `files` as its
/// source files.
pub open spec fn compile_session_of(
    config: CompileConfig,
    files: Seq<SourceFileModel>,
    session: Session,
) -> bool {
    &&& files_view(session.source@) == files
    &&& session.crate_name == config.crate_name
    &&& session.crate_type == config.crate_type
    &&& session.edition == config.edition
    &&& session.target == config.target
    &&& session.sysroot == config.sysroot
    &&& session.cfg == config.cfg
    &&& session.features == config.features
    &&& session.include_path == config.include_path
    &&& session.search_path == config.search_path
    &&& session.externs == config.externs
    &&& session.error_format == config.error_format
    &&& session.color == config.color
    &&& session.warnings_as_errors == config.warnings_as_errors
    &&& session.verbose == config.verbose
    &&& session.quiet == config.quiet
    &&& session.unstable == config.unstable
    &&& session.stop_after == config.stop_after
    &&& session.compile_emit == config.emit
    &&& session.check_emit@.len() == 0
    &&& session.output == config.output
    &&& session.out_dir == config.out_dir
    &&& session.dep_info == config.dep_info
    &&& session.opt_level == Some(config.opt_level)
    &&& session.debuginfo == Some(config.debuginfo)
    &&& session.incremental == config.incremental
    &&& session.lto == Some(config.lto)
    &&& session.code_model == Some(config.code_model)
    &&& session.relocation_model == Some(config.relocation_model)
    &&& session.jobs == config.jobs
    &&& session.codegen_opt == config.codegen_opt
    &&& session.linker == config.linker
    &&& session.link_arg == config.link_arg
    &&& session.prefer_dynamic == config.prefer_dynamic
    &&& session.prefer_static == config.prefer_static
}

/// `session` holds the settings of `config` unchanged, `files` as its source
/// files, and none of the settings of code generation and linking.
pub open spec fn check_session_of(
    config: CheckConfig,
    files: Seq<SourceFileModel>,
    session: Session,
) -> bool {
    &&& files_view(session.source@) == files
    &&& session.crate_name == config.crate_name
    &&& session.crate_type == config.crate_type
    &&& session.edition == config.edition
    &&& session.target == config.target
    &&& session.sysroot == config.sysroot
    &&& session.cfg == config.cfg
    &&& session.features == config.features
    &&& session.include_path == config.include_path
    &&& session.search_path == config.search_path
    &&& session.externs == config.externs
    &&& session.error_format == config.error_format
    &&& session.color == config.color
    &&& session.warnings_as_errors == config.warnings_as_errors
    &&& session.verbose == config.verbose
    &&& session.quiet == config.quiet
    &&& session.unstable == config.unstable
    &&& session.stop_after == config.stop_after
    &&& session.compile_emit@.len() == 0
    &&& session.check_emit == config.emit
    &&& session.output is None
    &&& session.out_dir is None
    &&& session.dep_info == config.dep_info
    &&& session.opt_level is None
    &&& session.debuginfo is None
    &&& session.incremental is None
    &&& session.lto is None
    &&& session.code_model is None
    &&& session.relocation_model is None
    &&& session.jobs is None
    &&& session.codegen_opt@.len() == 0
    &&& session.linker is None
    &&& session.link_arg@.len() == 0
    &&& !session.prefer_dynamic
    &&& !session.prefer_static
}

impl Session {
    /// The session of a `compile` run. `contents[k]` is what came of reading
    /// the source file `config.source[k]`: its text, or why there is none.
    /// Where a file could not be read, or nothing is known of it, there is no
    /// session, and the failure of the first such file is reported.
    pub fn from_compile_config(
        config: CompileConfig,
        contents: Vec<Result<String, String>>,
    ) -> (r: Result<Self, String>)
        ensures
            match load_from(config.source@, contents@, 0) {
                Ok(files) => r is Ok && compile_session_of(config, files, r->Ok_0),
                Err(message) => r is Err && r->Err_0@ == message,
            },
    {
        match load_source_files(config.source, contents) {
            Err(message) => Err(message),
            Ok(source) => Ok(
                Self {
                    source,
                    crate_name: config.crate_name,
                    crate_type: config.crate_type,
                    edition: config.edition,
                    target: config.target,
                    sysroot: config.sysroot,
                    cfg: config.cfg,
                    features: config.features,
                    include_path: config.include_path,
                    search_path: config.search_path,
                    externs: config.externs,
                    error_format: config.error_format,
                    color: config.color,
                    warnings_as_errors: config.warnings_as_errors,
                    verbose: config.verbose,
                    quiet: config.quiet,
                    unstable: config.unstable,
                    stop_after: config.stop_after,
                    compile_emit: config.emit,
                    check_emit: Vec::new(),
                    output: config.output,
                    out_dir: config.out_dir,
                    dep_info: config.dep_info,
                    opt_level: Some(config.opt_level),
                    debuginfo: Some(config.debuginfo),
                    incremental: config.incremental,
                    lto: Some(config.lto),
                    code_model: Some(config.code_model),
                    relocation_model: Some(config.relocation_model),
                    jobs: config.jobs,
                    codegen_opt: config.codegen_opt,
                    linker: config.linker,
                    link_arg: config.link_arg,
                    prefer_dynamic: config.prefer_dynamic,
                    prefer_static: config.prefer_static,
                },
            ),
        }
    }

    /// The session of a `check` run. `contents[k]` is what came of reading
    /// the source file `config.source[k]`: its text, or why there is none.
    /// Where a file could not be read, or nothing is known of it, there is no
    /// session, and the failure of the first such file is reported.
    pub fn from_check_config(
        config: CheckConfig,
        contents: Vec<Result<String, String>>,
    ) -> (r: Result<Self, String>)
        ensures
            match load_from(config.source@, contents@, 0) {
                Ok(files) => r is Ok && check_session_of(config, files, r->Ok_0),
                Err(message) => r is Err && r->Err_0@ == message,
            },
    {
        match load_source_files(config.source, contents) {
            Err(message) => Err(message),
            Ok(source) => Ok(
                Self {
                    source,
                    crate_name: config.crate_name,
                    crate_type: config.crate_type,
                    edition: config.edition,
                    target: config.target,
                    sysroot: config.sysroot,
                    cfg: config.cfg,
                    features: config.features,
                    include_path: config.include_path,
                    search_path: config.search_path,
                    externs: config.externs,
                    error_format: config.error_format,
                    color: config.color,
                    warnings_as_errors: config.warnings_as_errors,
                    verbose: config.verbose,
                    quiet: config.quiet,
                    unstable: config.unstable,
                    stop_after: config.stop_after,
                    compile_emit: Vec::new(),
                    check_emit: config.emit,
                    output: None,
                    out_dir: None,
                    dep_info: config.dep_info,
                    opt_level: None,
                    debuginfo: None,
                    incremental: None,
                    lto: None,
                    code_model: None,
                    relocation_model: None,
                    jobs: None,
                    codegen_opt: Vec::new(),
                    linker: None,
                    link_arg: Vec::new(),
                    prefer_dynamic: false,
                    prefer_static: false,
                },
            ),
        }
    }
}

} // verus!
