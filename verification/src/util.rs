//! Configuration from the environment, the lifecycle of working directories,
//! and the verdict on a finished subprocess.

use crate::build::{BuildStepError, LibraryType, StepErrorView};
use crate::text::{ascii_lowercase, eq_ignore_ascii_case, to_chars};
use vstd::prelude::*;
use vstd::string::StringExecFns;

verus! {

/// Why no linkage kind came from the environment.
#[derive(Debug)]
pub enum BuildLibraryTypeError {
    NotPresent,
    InvalidValue(String),
}

/// The linkage kind that a word names, whatever the case of its letters.
pub open spec fn library_type_of_word(word: Seq<char>) -> Option<LibraryType> {
    if ascii_lowercase(word) == "static"@ {
        Some(LibraryType::Static)
    } else if ascii_lowercase(word) == "shared"@ {
        Some(LibraryType::Shared)
    } else {
        None
    }
}

/// The linkage kind that `library_type` names, whatever the case of its letters.
pub fn parse_build_library_type(library_type: &str) -> (kind: Option<LibraryType>)
    ensures
        kind == library_type_of_word(library_type@),
{
    let word = to_chars(library_type);
    let static_word = to_chars("static");
    let shared_word = to_chars("shared");
    if eq_ignore_ascii_case(&word, &static_word) {
        Some(LibraryType::Static)
    } else if eq_ignore_ascii_case(&word, &shared_word) {
        Some(LibraryType::Shared)
    } else {
        None
    }
}

/// The name of the variable that configures `key` for the build `build_name` alone.
pub open spec fn specific_variable(build_name: Seq<char>, key: Seq<char>) -> Seq<char> {
    "rbuild_"@ + build_name + "_"@ + key
}

/// The name of the variable that configures `key` for every build.
pub open spec fn general_variable(key: Seq<char>) -> Seq<char> {
    "rbuild_"@ + key
}

/// The names of the two variables that configure `key` for the build
/// `build_name`: the build's own first, then the general one.
pub fn env_var_names(build_name: &str, key: &str) -> (names: (String, String))
    ensures
        names.0@ == specific_variable(build_name@, key@),
        names.1@ == general_variable(key@),
{
    let mut specific = "rbuild_".to_owned();
    specific.append(build_name);
    specific.append("_");
    specific.append(key);
    let mut general = "rbuild_".to_owned();
    general.append(key);
    (specific, general)
}

/// The value that configures a build, given what its own variable and the
/// general variable hold: the build's own where it is set.
pub fn resolve_env_var(specific: Option<String>, general: Option<String>) -> (value: Option<String>)
    ensures
        value == if specific is Some {
            specific
        } else {
            general
        },
{
    match specific {
        Some(value) => Some(value),
        None => general,
    }
}

/// What the environment holds for one build, as its caller read it.
pub struct BuildEnvironment {
    /// The configured linkage kind, already resolved between the build's own
    /// variable and the general one.
    pub library_type: Option<String>,
    /// The configured install prefix, resolved in the same way.
    pub install_prefix: Option<String>,
    /// The output directory that the host build system designates, if any.
    pub out_dir: Option<String>,
    /// The system's directory for temporary files.
    pub temp_dir: String,
}

impl BuildEnvironment {
    /// An environment in which nothing is set.
    pub fn empty() -> (environment: Self)
        ensures
            environment.library_type is None,
            environment.install_prefix is None,
            environment.out_dir is None,
            environment.temp_dir@ == Seq::<char>::empty(),
    {
        BuildEnvironment {
            library_type: None,
            install_prefix: None,
            out_dir: None,
            temp_dir: String::new(),
        }
    }
}

/// The linkage kind that the environment asks for.
pub open spec fn env_library_type(value: Option<Seq<char>>) -> Result<LibraryType, Option<Seq<char>>> {
    match value {
        None => Err(None),
        Some(word) => match library_type_of_word(word) {
            Some(kind) => Ok(kind),
            None => Err(Some(word)),
        },
    }
}

/// The view of an optional string.
pub open spec fn opt_view(value: Option<String>) -> Option<Seq<char>> {
    match value {
        Some(text) => Some(text@),
        None => None,
    }
}

/// The linkage kind that the environment asks for: `NotPresent` where it
/// asks for none, `InvalidValue` with the word where the word names none.
pub fn build_library_type(environment: &BuildEnvironment) -> (kind: Result<
    LibraryType,
    BuildLibraryTypeError,
>)
    ensures
        match kind {
            Ok(kind) => env_library_type(opt_view(environment.library_type)) == Ok::<
                LibraryType,
                Option<Seq<char>>,
            >(kind),
            Err(BuildLibraryTypeError::NotPresent) => environment.library_type is None,
            Err(BuildLibraryTypeError::InvalidValue(word)) => env_library_type(
                opt_view(environment.library_type),
            ) == Err::<LibraryType, Option<Seq<char>>>(Some(word@)),
        },
{
    match &environment.library_type {
        None => Err(BuildLibraryTypeError::NotPresent),
        Some(word) => match parse_build_library_type(word.as_str()) {
            Some(kind) => Ok(kind),
            None => Err(BuildLibraryTypeError::InvalidValue(word.clone())),
        },
    }
}

/// The install prefix that the environment asks for: the configured one,
/// else the host's output directory.
pub open spec fn env_install_prefix(
    configured: Option<Seq<char>>,
    out_dir: Option<Seq<char>>,
) -> Option<Seq<char>> {
    if configured is Some {
        configured
    } else {
        out_dir
    }
}

/// The install prefix that the environment asks for.
pub fn install_prefix(environment: &BuildEnvironment) -> (prefix: Option<String>)
    ensures
        opt_view(prefix) == env_install_prefix(
            opt_view(environment.install_prefix),
            opt_view(environment.out_dir),
        ),
{
    match &environment.install_prefix {
        Some(prefix) => Some(prefix.clone()),
        None => match &environment.out_dir {
            Some(path) => Some(path.clone()),
            None => None,
        },
    }
}

/// `folder_name` as an entry of the directory `base`.
pub open spec fn join_path(base: Seq<char>, folder_name: Seq<char>) -> Seq<char> {
    if base.len() == 0 {
        folder_name
    } else if base.last() == '/' {
        base + folder_name
    } else {
        base + "/"@ + folder_name
    }
}

/// `folder_name` as an entry of the directory `base`.
pub fn join(base: &str, folder_name: &str) -> (path: String)
    ensures
        path@ == join_path(base@, folder_name@),
{
    let chars = to_chars(base);
    let mut path = base.to_owned();
    if chars.len() == 0 {
        assert(path@ + folder_name@ =~= folder_name@);
    } else if chars[chars.len() - 1] != '/' {
        proof {
            reveal_strlit("/");
        }
        path.append("/");
    }
    path.append(folder_name);
    path
}

/// Where a working directory named `folder_name` belongs: under the base
/// that the caller gave, else under the host's output directory, else under
/// the system's directory for temporary files.
pub open spec fn temporary_location(
    folder_name: Seq<char>,
    base_dir: Option<Seq<char>>,
    out_dir: Option<Seq<char>>,
    temp_dir: Seq<char>,
) -> Seq<char> {
    match base_dir {
        Some(base) => join_path(base, folder_name),
        None => match out_dir {
            Some(base) => join_path(base, folder_name),
            None => join_path(temp_dir, folder_name),
        },
    }
}

/// Where a working directory named `folder_name` belongs.
pub fn temporary_path_location(
    folder_name: &str,
    base_dir: Option<&String>,
    environment: &BuildEnvironment,
) -> (path: String)
    ensures
        path@ == temporary_location(
            folder_name@,
            match base_dir {
                Some(base) => Some(base@),
                None => None,
            },
            opt_view(environment.out_dir),
            environment.temp_dir@,
        ),
{
    match base_dir {
        Some(base) => join(base.as_str(), folder_name),
        None => match &environment.out_dir {
            Some(base) => join(base.as_str(), folder_name),
            None => join(environment.temp_dir.as_str(), folder_name),
        },
    }
}

/// A handle on a working directory. It counts its owners and remembers
/// whether it was released; the directory is to be deleted when the last
/// owner lets go of a handle that was never released.
#[derive(Debug)]
pub struct TemporaryPath {
    path: String,
    released: bool,
    owners: usize,
}

/// The content of a `TemporaryPath`.
pub struct TemporaryPathView {
    pub path: Seq<char>,
    pub released: bool,
    pub owners: nat,
}

impl View for TemporaryPath {
    type V = TemporaryPathView;

    closed spec fn view(&self) -> TemporaryPathView {
        TemporaryPathView { path: self.path@, released: self.released, owners: self.owners as nat }
    }
}

impl TemporaryPath {
    /// A handle on a directory that is kept: it starts out released.
    pub fn from_persistent(path: String) -> (handle: Self)
        ensures
            handle@ == (TemporaryPathView { path: path@, released: true, owners: 1 }),
    {
        TemporaryPath { path, released: true, owners: 1 }
    }

    /// A handle on a directory that was made for one build: it starts out
    /// unreleased, with one owner.
    pub fn temporary(path: String) -> (handle: Self)
        ensures
            handle@ == (TemporaryPathView { path: path@, released: false, owners: 1 }),
    {
        TemporaryPath { path, released: false, owners: 1 }
    }

    pub fn path(&self) -> (path: &String)
        ensures
            path@ == self@.path,
    {
        &self.path
    }

    pub fn is_released(&self) -> (released: bool)
        ensures
            released == self@.released,
    {
        self.released
    }

    /// Marks the directory as one to keep. Releasing twice is releasing once.
    pub fn release(&mut self)
        ensures
            final(self)@ == (TemporaryPathView { released: true, ..old(self)@ }),
    {
        self.released = true;
    }

    /// Records one more owner. Returns `false`, and records nothing, where
    /// the count of owners cannot grow.
    pub fn share(&mut self) -> (shared: bool)
        ensures
            shared == (old(self)@.owners < usize::MAX),
            final(self)@ == if shared {
                TemporaryPathView { owners: old(self)@.owners + 1, ..old(self)@ }
            } else {
                old(self)@
            },
    {
        if self.owners < usize::MAX {
            self.owners = self.owners + 1;
            true
        } else {
            false
        }
    }

    /// Records that one owner let go. Returns the directory to delete, which
    /// there is exactly when this was the last owner and the handle was never
    /// released.
    pub fn drop_owner(&mut self) -> (doomed: Option<String>)
        ensures
            final(self)@ == (TemporaryPathView {
                owners: if old(self)@.owners > 0 {
                    (old(self)@.owners - 1) as nat
                } else {
                    0
                },
                ..old(self)@
            }),
            doomed is Some <==> old(self)@.owners == 1 && !old(self)@.released,
            doomed matches Some(path) ==> path@ == old(self)@.path,
    {
        if self.owners == 0 {
            return None;
        }
        self.owners = self.owners - 1;
        if self.owners == 0 && !self.released {
            Some(self.path.clone())
        } else {
            None
        }
    }
}

/// Whether each command is reported as it runs.
pub fn verbose_commands_enabled() -> (enabled: bool)
    ensures
        enabled,
{
    true
}

/// A subprocess to run.
#[derive(Debug)]
pub struct BuildCommand {
    pub program: String,
    pub arguments: Vec<String>,
    /// The directory to run in, where it is not the caller's own.
    pub current_dir: Option<String>,
    /// The detail of the failure to report should the command fail.
    pub error_detail: String,
}

/// The content of a `BuildCommand`.
pub struct CommandView {
    pub program: Seq<char>,
    pub arguments: Seq<Seq<char>>,
    pub current_dir: Option<Seq<char>>,
    pub error_detail: Seq<char>,
}

impl View for BuildCommand {
    type V = CommandView;

    open spec fn view(&self) -> CommandView {
        CommandView {
            program: self.program@,
            arguments: crate::build::string_views(self.arguments@),
            current_dir: opt_view(self.current_dir),
            error_detail: self.error_detail@,
        }
    }
}

/// How a subprocess ended, as its caller saw it.
#[derive(Debug)]
pub enum ProcessOutcome {
    /// The subprocess could not be started; the text describes why.
    SpawnFailed(String),
    /// The subprocess ran and exited.
    Exited { success: bool, stdout: String, stderr: String },
}

/// The verdict on a subprocess: its captured output where it ran and
/// succeeded, else a failure that carries `error_detail`.
pub open spec fn command_verdict(error_detail: Seq<char>, outcome: ProcessOutcome) -> Result<
    (Seq<char>, Seq<char>),
    StepErrorView,
> {
    match outcome {
        ProcessOutcome::SpawnFailed(description) => Err(
            StepErrorView {
                detail: error_detail,
                stdout: Seq::empty(),
                stderr: crate::build::io_error_text(description@),
            },
        ),
        ProcessOutcome::Exited { success, stdout, stderr } => if success {
            Ok((stdout@, stderr@))
        } else {
            Err(StepErrorView { detail: error_detail, stdout: stdout@, stderr: stderr@ })
        },
    }
}

/// The verdict on a subprocess that was run for a build.
pub fn conclude_build_command(error_detail: &str, outcome: ProcessOutcome) -> (verdict: Result<
    (String, String),
    BuildStepError,
>)
    ensures
        match verdict {
            Ok((stdout, stderr)) => command_verdict(error_detail@, outcome) == Ok::<
                (Seq<char>, Seq<char>),
                StepErrorView,
            >((stdout@, stderr@)),
            Err(error) => command_verdict(error_detail@, outcome) == Err::<
                (Seq<char>, Seq<char>),
                StepErrorView,
            >(error@),
        },
{
    match outcome {
        ProcessOutcome::SpawnFailed(description) => Err(
            BuildStepError::new_io(error_detail, description.as_str()),
        ),
        ProcessOutcome::Exited { success, stdout, stderr } => {
            if success {
                Ok((stdout, stderr))
            } else {
                Err(BuildStepError::new(error_detail.to_owned(), stdout, stderr))
            }
        },
    }
}

} // verus!
