use vstd::prelude::*;

verus! {

/// The platform that the compiler was built for.
#[derive(Debug, Clone, Copy, PartialEq, Eq, Structural)]
pub enum Platform {
    Windows,
    Linux,
    MacOs,
}

/// The program that links on a platform: the C compiler driver `cc` on Linux
/// and macOS, `clang` on Windows.
pub open spec fn linker_name(platform: Platform) -> Seq<char> {
    match platform {
        Platform::Windows => "clang"@,
        Platform::Linux => "cc"@,
        Platform::MacOs => "cc"@,
    }
}

/// The program that links on `platform`.
pub fn linker_for(platform: Platform) -> (r: &'static str)
    ensures
        r@ == linker_name(platform),
{
    match platform {
        Platform::Windows => "clang",
        Platform::Linux => "cc",
        Platform::MacOs => "cc",
    }
}

/// A run of the linker: the program and its arguments.
#[derive(Debug, Clone, PartialEq)]
pub struct LinkCommand {
    pub program: String,
    pub args: Vec<String>,
}

/// The arguments of the linker: the object file, `-o`, the executable.
pub open spec fn link_arguments(obj: Seq<char>, out_exe: Seq<char>) -> Seq<Seq<char>> {
    seq![obj, "-o"@, out_exe]
}

/// The texts of a sequence of strings, in order.
pub open spec fn texts(strings: Seq<String>) -> Seq<Seq<char>> {
    strings.map_values(|s: String| s@)
}

/// The run of the linker that makes the executable `out_exe` of the object
/// file `obj`. It is given these two paths and nothing more.
pub fn link_command(platform: Platform, obj: &str, out_exe: &str) -> (command: LinkCommand)
    ensures
        command.program@ == linker_name(platform),
        texts(command.args@) == link_arguments(obj@, out_exe@),
{
    let mut args: Vec<String> = Vec::new();
    args.push(String::from_str(obj));
    args.push(String::from_str("-o"));
    args.push(String::from_str(out_exe));
    assert(texts(args@) =~= link_arguments(obj@, out_exe@));
    LinkCommand { program: String::from_str(linker_for(platform)), args }
}

/// What came of running the linker.
#[derive(Debug, Clone, PartialEq)]
pub enum LinkOutcome {
    /// It ran and reported success.
    Success,
    /// It ran and reported a failure; its exit status, as text.
    Failed(String),
    /// It could not be started.
    NotFound,
}

/// Why there is no executable.
#[derive(Debug, Clone, PartialEq)]
pub enum LinkError {
    /// The linker ran and failed: the program, and its exit status as text.
    Failed { linker: String, status: String },
    /// The linker could not be started: the program.
    NotFound { linker: String },
}

/// The mathematical value of a [`LinkOutcome`].
pub enum LinkOutcomeModel {
    Success,
    Failed(Seq<char>),
    NotFound,
}

/// The mathematical value of a [`LinkError`].
pub enum LinkErrorModel {
    Failed { linker: Seq<char>, status: Seq<char> },
    NotFound { linker: Seq<char> },
}

impl View for LinkOutcome {
    type V = LinkOutcomeModel;

    open spec fn view(&self) -> LinkOutcomeModel {
        match self {
            LinkOutcome::Success => LinkOutcomeModel::Success,
            LinkOutcome::Failed(status) => LinkOutcomeModel::Failed(status@),
            LinkOutcome::NotFound => LinkOutcomeModel::NotFound,
        }
    }
}

impl View for LinkError {
    type V = LinkErrorModel;

    open spec fn view(&self) -> LinkErrorModel {
        match self {
            LinkError::Failed { linker, status } => LinkErrorModel::Failed {
                linker: linker@,
                status: status@,
            },
            LinkError::NotFound { linker } => LinkErrorModel::NotFound { linker: linker@ },
        }
    }
}

/// The error that a run of the linker on `platform` ends with, if any.
pub open spec fn link_failure(platform: Platform, outcome: LinkOutcomeModel) -> Option<
    LinkErrorModel,
> {
    match outcome {
        LinkOutcomeModel::Success => None,
        LinkOutcomeModel::Failed(status) => Some(
            LinkErrorModel::Failed { linker: linker_name(platform), status },
        ),
        LinkOutcomeModel::NotFound => Some(
            LinkErrorModel::NotFound { linker: linker_name(platform) },
        ),
    }
}

/// Judges a run of the linker on `platform`: a run that reported success is
/// the only one that counts as such, and a linker that failed is told apart
/// from one that is not there.
pub fn link_result(platform: Platform, outcome: &LinkOutcome) -> (r: Result<(), LinkError>)
    ensures
        match link_failure(platform, outcome@) {
            None => r is Ok,
            Some(e) => r is Err && r->Err_0@ == e,
        },
{
    match outcome {
        LinkOutcome::Success => Ok(()),
        LinkOutcome::Failed(status) => Err(
            LinkError::Failed {
                linker: String::from_str(linker_for(platform)),
                status: status.clone(),
            },
        ),
        LinkOutcome::NotFound => Err(
            LinkError::NotFound { linker: String::from_str(linker_for(platform)) },
        ),
    }
}

/// The text of a link error.
pub open spec fn link_error_text(e: LinkErrorModel) -> Seq<char> {
    match e {
        LinkErrorModel::Failed { linker, status } => "Linker '"@ + linker
            + "' failed with status: "@ + status,
        LinkErrorModel::NotFound { linker } => "Linker '"@ + linker
            + "' not found. Please install a C toolchain (Clang/GCC)."@,
    }
}

impl LinkError {
    /// The text of this error.
    pub fn message(&self) -> (r: String)
        ensures
            r@ == link_error_text(self@),
    {
        match self {
            LinkError::Failed { linker, status } => String::from_str("Linker '").concat(
                linker.as_str(),
            ).concat("' failed with status: ").concat(status.as_str()),
            LinkError::NotFound { linker } => String::from_str("Linker '").concat(
                linker.as_str(),
            ).concat("' not found. Please install a C toolchain (Clang/GCC)."),
        }
    }
}

} // verus!
