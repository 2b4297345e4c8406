//! A source tree that is fetched from a remote git repository: what the
//! source asks of its caller, step by step, and what it makes of the answers.

use crate::build::{io_error_text, string_views, BuildStepError, StepErrorView};
use crate::encoding::{hash_token, hash_token_text};
use crate::text::{
    contains_text, find, from_chars, last_index_of, lines_of, rfind_char, split_lines, to_chars,
};
use crate::util::{
    join, join_path, opt_view, temporary_location, temporary_path_location, BuildCommand,
    BuildEnvironment, CommandView, TemporaryPath, TemporaryPathView,
};
use std::collections::hash_map::DefaultHasher;
use std::hash::Hasher;
use vstd::prelude::*;
use vstd::std_specs::hash::DefaultHasherAdditionalSpecFns;
use vstd::string::StringExecFns;
use vstd::string::StringSliceAdditionalSpecFns;
use vstd::utf8::encode_utf8;

verus! {

/// What is known of the git binary.
#[derive(Debug, PartialEq, Eq)]
pub enum GitBinaryStatus {
    /// The binary answered; the text is its version.
    Available(String),
    NotFound,
    Outdated(String),
    Unknown(String),
}

/// What came of asking the git binary for its version.
#[derive(Debug)]
pub enum GitProbe {
    /// The binary ran and printed this.
    Ran { stdout: String },
    /// No such binary was found.
    NotFound,
    /// The binary could not be started; the text describes why.
    Failed(String),
}

/// The content of a `GitBinaryStatus`.
pub enum GitStatusView {
    Available(Seq<char>),
    NotFound,
    Outdated(Seq<char>),
    Unknown(Seq<char>),
}

/// The view of a status.
pub open spec fn status_view(status: GitBinaryStatus) -> GitStatusView {
    match status {
        GitBinaryStatus::Available(version) => GitStatusView::Available(version@),
        GitBinaryStatus::NotFound => GitStatusView::NotFound,
        GitBinaryStatus::Outdated(version) => GitStatusView::Outdated(version@),
        GitBinaryStatus::Unknown(reason) => GitStatusView::Unknown(reason@),
    }
}

/// What a probe says of the git binary: a binary that printed a first line
/// is fine, and that line is its version.
pub open spec fn status_of_probe(probe: GitProbe) -> GitStatusView {
    match probe {
        GitProbe::Ran { stdout } => if lines_of(stdout@).len() > 0 {
            GitStatusView::Available(lines_of(stdout@)[0])
        } else {
            GitStatusView::Unknown("truncated git version output"@)
        },
        GitProbe::NotFound => GitStatusView::NotFound,
        GitProbe::Failed(reason) => GitStatusView::Unknown(reason@),
    }
}

/// What a probe says of the git binary.
pub fn check_git(probe: GitProbe) -> (status: GitBinaryStatus)
    ensures
        status_view(status) == status_of_probe(probe),
{
    match probe {
        GitProbe::Ran { stdout } => {
            let text = to_chars(stdout.as_str());
            let lines = split_lines(&text);
            if lines.len() > 0 {
                let version = from_chars(&lines[0], 0, lines[0].len());
                assert(version@ == lines@[0]@);
                assert(crate::text::views(lines@)[0] == lines@[0]@);
                GitBinaryStatus::Available(version)
            } else {
                assert(crate::text::views(lines@).len() == 0);
                GitBinaryStatus::Unknown("truncated git version output".to_owned())
            }
        },
        GitProbe::NotFound => GitBinaryStatus::NotFound,
        GitProbe::Failed(reason) => GitBinaryStatus::Unknown(reason),
    }
}

/// How a status that is not fine is reported.
pub open spec fn status_text(status: GitStatusView) -> Seq<char> {
    match status {
        GitStatusView::Available(version) => "Available(\""@ + version + "\")"@,
        GitStatusView::NotFound => "NotFound"@,
        GitStatusView::Outdated(version) => "Outdated(\""@ + version + "\")"@,
        GitStatusView::Unknown(reason) => "Unknown(\""@ + reason + "\")"@,
    }
}

fn describe_status(status: &GitBinaryStatus) -> (text: String)
    ensures
        text@ == status_text(status_view(*status)),
{
    match status {
        GitBinaryStatus::Available(version) => {
            let mut text = "Available(\"".to_owned();
            text.append(version.as_str());
            text.append("\")");
            text
        },
        GitBinaryStatus::NotFound => "NotFound".to_owned(),
        GitBinaryStatus::Outdated(version) => {
            let mut text = "Outdated(\"".to_owned();
            text.append(version.as_str());
            text.append("\")");
            text
        },
        GitBinaryStatus::Unknown(reason) => {
            let mut text = "Unknown(\"".to_owned();
            text.append(reason.as_str());
            text.append("\")");
            text
        },
    }
}

/// A source that is a remote git repository.
#[derive(Debug)]
pub struct BuildSourceGit {
    repository_url: String,
    revision: Option<String>,
    checkout_submodule: bool,
    skip_revision_checkout: bool,
    checkout_folder: Option<String>,
    local_folder: Option<TemporaryPath>,
}

/// The content of a `BuildSourceGit`.
pub struct GitView {
    pub repository_url: Seq<char>,
    pub revision: Option<Seq<char>>,
    pub checkout_submodule: bool,
    pub skip_revision_checkout: bool,
    pub checkout_folder: Option<Seq<char>>,
    /// The handle on the working tree, once it is made.
    pub local_folder: Option<TemporaryPathView>,
}

impl View for BuildSourceGit {
    type V = GitView;

    closed spec fn view(&self) -> GitView {
        GitView {
            repository_url: self.repository_url@,
            revision: opt_view(self.revision),
            checkout_submodule: self.checkout_submodule,
            skip_revision_checkout: self.skip_revision_checkout,
            checkout_folder: opt_view(self.checkout_folder),
            local_folder: match self.local_folder {
                Some(folder) => Some(folder@),
                None => None,
            },
        }
    }
}

/// What a repository feeds to the hasher for the identity of a build: its
/// address, a marker, and the revision where one is set.
pub open spec fn git_identity_writes(source: GitView) -> Seq<Seq<u8>> {
    match source.revision {
        None => seq![encode_utf8(source.repository_url), seq![0u8]],
        Some(revision) => seq![encode_utf8(source.repository_url), seq![1u8], encode_utf8(revision)],
    }
}

/// What a repository feeds to the hasher for the name of its working tree:
/// its address, and the revision where one is set.
pub open spec fn git_folder_writes(source: GitView) -> Seq<Seq<u8>> {
    match source.revision {
        None => seq![encode_utf8(source.repository_url)],
        Some(revision) => seq![encode_utf8(source.repository_url), encode_utf8(revision)],
    }
}

/// The name of the project at an address: what follows the last slash.
pub open spec fn project_name(repository_url: Seq<char>) -> Seq<char> {
    match last_index_of(repository_url, '/') {
        Some(place) => repository_url.subrange(place + 1, repository_url.len() as int),
        None => repository_url,
    }
}

/// The name of the directory that holds the working tree of a repository.
pub open spec fn git_folder_name(source: GitView) -> Seq<char> {
    "git_"@ + project_name(source.repository_url) + "_"@ + hash_token_text(
        DefaultHasher::spec_finish(git_folder_writes(source)),
    )
}

/// Where the step stands: the work whose outcome it waits for.
#[derive(Copy, Clone, PartialEq, Eq, Structural, Debug)]
pub enum GitPhase {
    Create,
    Probe,
    Fetch,
    Remove,
    Recreate,
    Clone,
    Checkout,
    Done,
}

/// The state of a setup between two pieces of outside work.
#[derive(Debug)]
pub struct GitProgress {
    pub phase: GitPhase,
    /// The directory of the working tree.
    pub target: String,
}

/// The content of a `GitProgress`.
pub struct GitProgressView {
    pub phase: GitPhase,
    pub target: Seq<char>,
}

impl View for GitProgress {
    type V = GitProgressView;

    open spec fn view(&self) -> GitProgressView {
        GitProgressView { phase: self.phase, target: self.target@ }
    }
}

/// The outside work that a setup asks for next.
#[derive(Debug)]
pub enum GitAction {
    /// Create the directory and what leads to it.
    CreateDirectory(String),
    /// Report whether the path exists.
    ProbeExists(String),
    /// Remove the directory and everything in it.
    RemoveDirectory(String),
    /// Run the command and report how it ended.
    Run(BuildCommand),
    /// Nothing: the setup is over, with this outcome.
    Finish(Result<(), BuildStepError>),
}

/// The content of a `GitAction`.
pub enum GitActionView {
    CreateDirectory(Seq<char>),
    ProbeExists(Seq<char>),
    RemoveDirectory(Seq<char>),
    Run(CommandView),
    Finish(Result<(), StepErrorView>),
}

impl View for GitAction {
    type V = GitActionView;

    open spec fn view(&self) -> GitActionView {
        match self {
            GitAction::CreateDirectory(path) => GitActionView::CreateDirectory(path@),
            GitAction::ProbeExists(path) => GitActionView::ProbeExists(path@),
            GitAction::RemoveDirectory(path) => GitActionView::RemoveDirectory(path@),
            GitAction::Run(command) => GitActionView::Run(command@),
            GitAction::Finish(Ok(())) => GitActionView::Finish(Ok(())),
            GitAction::Finish(Err(error)) => GitActionView::Finish(Err(error@)),
        }
    }
}

/// The outcome of the outside work that a setup asked for.
#[derive(Debug)]
pub enum GitEvent {
    /// The directory was created or removed, or the text says why not.
    Directory(Result<(), String>),
    /// Whether the path exists.
    Exists(bool),
    /// How the command ended.
    Command(Result<(String, String), BuildStepError>),
}

/// The content of a `GitEvent`.
pub enum GitEventView {
    DirectoryDone,
    DirectoryFailed(Seq<char>),
    Exists(bool),
    CommandSucceeded,
    CommandFailed(StepErrorView),
}

impl View for GitEvent {
    type V = GitEventView;

    open spec fn view(&self) -> GitEventView {
        match self {
            GitEvent::Directory(Ok(())) => GitEventView::DirectoryDone,
            GitEvent::Directory(Err(reason)) => GitEventView::DirectoryFailed(reason@),
            GitEvent::Exists(found) => GitEventView::Exists(*found),
            GitEvent::Command(Ok(_)) => GitEventView::CommandSucceeded,
            GitEvent::Command(Err(error)) => GitEventView::CommandFailed(error@),
        }
    }
}

/// A failure with a detail and no captured output.
pub open spec fn simple_error(detail: Seq<char>) -> StepErrorView {
    StepErrorView { detail, stdout: Seq::empty(), stderr: Seq::empty() }
}

/// A failure of the operating system.
pub open spec fn io_error(detail: Seq<char>, reason: Seq<char>) -> StepErrorView {
    StepErrorView { detail, stdout: Seq::empty(), stderr: io_error_text(reason) }
}

/// The command that updates an existing working tree.
pub open spec fn fetch_command(target: Seq<char>) -> CommandView {
    CommandView {
        program: "git"@,
        arguments: seq!["fetch"@],
        current_dir: Some(target),
        error_detail: "git fetch failed"@,
    }
}

/// The command that clones the repository into the working tree.
pub open spec fn clone_command(repository_url: Seq<char>, target: Seq<char>) -> CommandView {
    CommandView {
        program: "git"@,
        arguments: seq!["clone"@, repository_url, target],
        current_dir: None,
        error_detail: "git clone failed"@,
    }
}

/// The revision that a working tree is reset to.
pub open spec fn revision_or_head(revision: Option<Seq<char>>) -> Seq<char> {
    match revision {
        Some(revision) => revision,
        None => "HEAD"@,
    }
}

/// The command that resets the working tree to a revision.
pub open spec fn reset_command(revision: Option<Seq<char>>, target: Seq<char>) -> CommandView {
    CommandView {
        program: "git"@,
        arguments: seq!["reset"@, "--hard"@, revision_or_head(revision)],
        current_dir: Some(target),
        error_detail: "git revision checkout failed"@,
    }
}

/// A step of a setup: the phase it reaches, the work it asks for, and the
/// handle on the working tree.
pub struct GitTransition {
    pub phase: GitPhase,
    pub action: GitActionView,
    pub local_folder: Option<TemporaryPathView>,
}

/// The end of a setup with a failure.
pub open spec fn git_fails(source: GitView, error: StepErrorView) -> GitTransition {
    GitTransition {
        phase: GitPhase::Done,
        action: GitActionView::Finish(Err(error)),
        local_folder: source.local_folder,
    }
}

/// What follows once the working tree holds the repository: the reset to
/// the revision, unless it is skipped.
pub open spec fn after_acquired(source: GitView, target: Seq<char>) -> GitTransition {
    if source.skip_revision_checkout {
        GitTransition {
            phase: GitPhase::Done,
            action: GitActionView::Finish(Ok(())),
            local_folder: source.local_folder,
        }
    } else {
        GitTransition {
            phase: GitPhase::Checkout,
            action: GitActionView::Run(reset_command(source.revision, target)),
            local_folder: source.local_folder,
        }
    }
}

/// The failure that answers an outcome which the setup did not ask for.
pub open spec fn git_protocol_error() -> StepErrorView {
    simple_error("the outcome does not belong to the work that was asked for"@)
}

/// How a setup begins: it fails where the source was set up before or git
/// is not fine; else it asks for the directory of the working tree.
pub open spec fn git_start(
    source: GitView,
    git: GitStatusView,
    out_dir: Option<Seq<char>>,
    temp_dir: Seq<char>,
) -> (GitProgressView, GitActionView) {
    let target = temporary_location(git_folder_name(source), source.checkout_folder, out_dir, temp_dir);
    if source.local_folder is Some {
        (
            GitProgressView { phase: GitPhase::Done, target },
            GitActionView::Finish(Err(simple_error("the source has already been initialized"@))),
        )
    } else if !(git is Available) {
        (
            GitProgressView { phase: GitPhase::Done, target },
            GitActionView::Finish(Err(simple_error("git error: "@ + status_text(git)))),
        )
    } else {
        (GitProgressView { phase: GitPhase::Create, target }, GitActionView::CreateDirectory(target))
    }
}

/// What a setup does on an outcome.
pub open spec fn git_transition(
    source: GitView,
    progress: GitProgressView,
    event: GitEventView,
) -> GitTransition {
    let target = progress.target;
    match progress.phase {
        GitPhase::Create => match event {
            GitEventView::DirectoryDone => GitTransition {
                phase: GitPhase::Probe,
                action: GitActionView::ProbeExists(join_path(target, ".git"@)),
                local_folder: Some(TemporaryPathView { path: target, released: true, owners: 1 }),
            },
            GitEventView::DirectoryFailed(reason) => git_fails(
                source,
                simple_error("failed to create git checkout directory: "@ + reason),
            ),
            _ => git_fails(source, git_protocol_error()),
        },
        GitPhase::Probe => match event {
            GitEventView::Exists(found) => if found {
                GitTransition {
                    phase: GitPhase::Fetch,
                    action: GitActionView::Run(fetch_command(target)),
                    local_folder: source.local_folder,
                }
            } else {
                GitTransition {
                    phase: GitPhase::Clone,
                    action: GitActionView::Run(clone_command(source.repository_url, target)),
                    local_folder: source.local_folder,
                }
            },
            _ => git_fails(source, git_protocol_error()),
        },
        GitPhase::Fetch => match event {
            GitEventView::CommandSucceeded => after_acquired(source, target),
            GitEventView::CommandFailed(error) => if contains_text(
                error.stderr,
                "not a git repository"@,
            ) {
                GitTransition {
                    phase: GitPhase::Remove,
                    action: GitActionView::RemoveDirectory(target),
                    local_folder: source.local_folder,
                }
            } else {
                git_fails(source, error)
            },
            _ => git_fails(source, git_protocol_error()),
        },
        GitPhase::Remove => match event {
            GitEventView::DirectoryDone => GitTransition {
                phase: GitPhase::Recreate,
                action: GitActionView::CreateDirectory(target),
                local_folder: source.local_folder,
            },
            GitEventView::DirectoryFailed(reason) => git_fails(
                source,
                io_error("failed to remove old temporary checkout directory"@, reason),
            ),
            _ => git_fails(source, git_protocol_error()),
        },
        GitPhase::Recreate => match event {
            GitEventView::DirectoryDone => GitTransition {
                phase: GitPhase::Clone,
                action: GitActionView::Run(clone_command(source.repository_url, target)),
                local_folder: source.local_folder,
            },
            GitEventView::DirectoryFailed(reason) => git_fails(
                source,
                io_error("failed to create new temporary checkout directory"@, reason),
            ),
            _ => git_fails(source, git_protocol_error()),
        },
        GitPhase::Clone => match event {
            GitEventView::CommandSucceeded => after_acquired(source, target),
            GitEventView::CommandFailed(error) => git_fails(source, error),
            _ => git_fails(source, git_protocol_error()),
        },
        GitPhase::Checkout => match event {
            GitEventView::CommandSucceeded => GitTransition {
                phase: GitPhase::Done,
                action: GitActionView::Finish(Ok(())),
                local_folder: source.local_folder,
            },
            GitEventView::CommandFailed(error) => git_fails(source, error),
            _ => git_fails(source, git_protocol_error()),
        },
        GitPhase::Done => git_fails(source, git_protocol_error()),
    }
}

/// How far a phase is from the end of the setup.
pub open spec fn git_phase_rank(phase: GitPhase) -> nat {
    match phase {
        GitPhase::Create => 7,
        GitPhase::Probe => 6,
        GitPhase::Fetch => 5,
        GitPhase::Remove => 4,
        GitPhase::Recreate => 3,
        GitPhase::Clone => 2,
        GitPhase::Checkout => 1,
        GitPhase::Done => 0,
    }
}

/// Whether the source holds the handle that belongs to the phase: from the
/// moment the directory is created until the setup ends, the released
/// handle on that directory.
pub open spec fn holds_working_tree(source: GitView, progress: GitProgressView) -> bool {
    progress.phase != GitPhase::Create && progress.phase != GitPhase::Done ==> source.local_folder
        == Some(TemporaryPathView { path: progress.target, released: true, owners: 1 })
}

/// A setup ends: every outcome brings it to a phase that is nearer to the
/// end, and it has finished exactly when it has reached the last phase.
pub proof fn law_git_setup_ends(source: GitView, progress: GitProgressView, event: GitEventView)
    ensures
        ({
            let next = git_transition(source, progress, event);
            &&& next.action is Finish <==> next.phase == GitPhase::Done
            &&& progress.phase != GitPhase::Done ==> git_phase_rank(next.phase) < git_phase_rank(
                progress.phase,
            )
        }),
{
}

/// A setup that succeeds leaves the source with the released handle on the
/// directory of the working tree, and a setup that was begun on a source
/// that was set up before fails.
pub proof fn law_git_setup_leaves_working_tree(
    source: GitView,
    progress: GitProgressView,
    event: GitEventView,
)
    requires
        holds_working_tree(source, progress),
    ensures
        ({
            let next = git_transition(source, progress, event);
            &&& holds_working_tree(
                GitView { local_folder: next.local_folder, ..source },
                GitProgressView { phase: next.phase, target: progress.target },
            )
            &&& next.action == GitActionView::Finish(Ok(())) ==> next.local_folder == Some(
                TemporaryPathView { path: progress.target, released: true, owners: 1 },
            )
        }),
{
}

/// A source that was set up before cannot be set up again.
pub proof fn law_git_second_setup_fails(
    source: GitView,
    git: GitStatusView,
    out_dir: Option<Seq<char>>,
    temp_dir: Seq<char>,
)
    requires
        source.local_folder is Some,
    ensures
        git_start(source, git, out_dir, temp_dir).1 == GitActionView::Finish(
            Err(simple_error("the source has already been initialized"@)),
        ),
        holds_working_tree(source, git_start(source, git, out_dir, temp_dir).0),
{
}

fn git_command(arguments: Vec<String>, current_dir: Option<String>, error_detail: &str) -> (command:
    BuildCommand)
    ensures
        command@ == (CommandView {
            program: "git"@,
            arguments: string_views(arguments@),
            current_dir: opt_view(current_dir),
            error_detail: error_detail@,
        }),
{
    BuildCommand {
        program: "git".to_owned(),
        arguments,
        current_dir,
        error_detail: error_detail.to_owned(),
    }
}

fn failed(error: BuildStepError) -> (end: (GitPhase, GitAction))
    ensures
        end.0 == GitPhase::Done,
        end.1@ == GitActionView::Finish(Err(error@)),
{
    (GitPhase::Done, GitAction::Finish(Err(error)))
}

fn unexpected() -> (end: (GitPhase, GitAction))
    ensures
        end.0 == GitPhase::Done,
        end.1@ == GitActionView::Finish(Err(git_protocol_error())),
{
    failed(
        BuildStepError::new_simple("the outcome does not belong to the work that was asked for"),
    )
}

impl BuildSourceGit {
    pub fn builder(repository_url: String) -> (builder: BuildSourceGitBuilder)
        ensures
            builder@ == BuildSourceGitBuilder::initial(repository_url@),
    {
        BuildSourceGitBuilder::new(repository_url)
    }

    /// The name of the directory that holds the working tree: the project's
    /// name and a token for the hash of the address and the revision.
    pub fn temporary_directory_name(&self) -> (folder: String)
        ensures
            folder@ == git_folder_name(self@),
    {
        let mut hasher = DefaultHasher::new();
        hasher.write(self.repository_url.as_str().as_bytes());
        match &self.revision {
            Some(revision) => {
                hasher.write(revision.as_str().as_bytes());
            },
            None => {},
        }
        assert(hasher@ =~= git_folder_writes(self@));
        let token = hash_token(hasher.finish());
        let address = to_chars(self.repository_url.as_str());
        let project = match rfind_char(&address, '/') {
            Some(place) => from_chars(&address, place + 1, address.len()),
            None => from_chars(&address, 0, address.len()),
        };
        assert(project@ == project_name(self@.repository_url)) by {
            assert(address@.subrange(0, address@.len() as int) == address@);
        }
        let mut folder = "git_".to_owned();
        folder.append(project.as_str());
        folder.append("_");
        folder.append(token.as_str());
        folder
    }

    pub fn name(&self) -> (name: &str)
        ensures
            name@ == "remote git repository"@,
    {
        "remote git repository"
    }

    /// Feeds the address and the revision to the hasher.
    pub fn hash(&self, target: &mut DefaultHasher)
        ensures
            final(target)@ == old(target)@ + git_identity_writes(self@),
    {
        target.write(self.repository_url.as_str().as_bytes());
        match &self.revision {
            None => {
                let marker: Vec<u8> = vec![0u8];
                target.write(marker.as_slice());
                assert(marker@ =~= seq![0u8]);
            },
            Some(revision) => {
                let marker: Vec<u8> = vec![1u8];
                target.write(marker.as_slice());
                target.write(revision.as_str().as_bytes());
                assert(marker@ =~= seq![1u8]);
            },
        }
        assert(final(target)@ =~= old(target)@ + git_identity_writes(self@));
    }

    /// Whether the working tree has its directory.
    pub fn is_initialized(&self) -> (initialized: bool)
        ensures
            initialized == (self@.local_folder is Some),
    {
        self.local_folder.is_some()
    }

    /// Begins the setup.
    pub fn begin_setup(&self, git: &GitBinaryStatus, environment: &BuildEnvironment) -> (start: (
        GitProgress,
        GitAction,
    ))
        ensures
            (start.0@, start.1@) == git_start(
                self@,
                status_view(*git),
                opt_view(environment.out_dir),
                environment.temp_dir@,
            ),
    {
        let folder = self.temporary_directory_name();
        let target = temporary_path_location(
            folder.as_str(),
            self.checkout_folder.as_ref(),
            environment,
        );
        if self.local_folder.is_some() {
            let end = failed(BuildStepError::new_simple("the source has already been initialized"));
            return (GitProgress { phase: end.0, target }, end.1);
        }
        match git {
            GitBinaryStatus::Available(_) => {
                let directory = target.clone();
                (GitProgress { phase: GitPhase::Create, target }, GitAction::CreateDirectory(directory))
            },
            _ => {
                let mut detail = "git error: ".to_owned();
                let status = describe_status(git);
                detail.append(status.as_str());
                let end = failed(BuildStepError::new_simple(detail.as_str()));
                (GitProgress { phase: end.0, target }, end.1)
            },
        }
    }

    fn make_clone_command(&self, target: &String) -> (command: BuildCommand)
        ensures
            command@ == clone_command(self@.repository_url, target@),
    {
        let mut arguments: Vec<String> = Vec::new();
        arguments.push("clone".to_owned());
        arguments.push(self.repository_url.clone());
        arguments.push(target.clone());
        assert(string_views(arguments@) =~= clone_command(self@.repository_url, target@).arguments);
        git_command(arguments, None, "git clone failed")
    }

    fn acquired(&self, target: &String) -> (next: (GitPhase, GitAction))
        ensures
            next.0 == after_acquired(self@, target@).phase,
            next.1@ == after_acquired(self@, target@).action,
    {
        if self.skip_revision_checkout {
            (GitPhase::Done, GitAction::Finish(Ok(())))
        } else {
            let revision = match &self.revision {
                Some(revision) => revision.clone(),
                None => "HEAD".to_owned(),
            };
            let mut arguments: Vec<String> = Vec::new();
            arguments.push("reset".to_owned());
            arguments.push("--hard".to_owned());
            arguments.push(revision);
            assert(string_views(arguments@) =~= reset_command(self@.revision, target@).arguments);
            (
                GitPhase::Checkout,
                GitAction::Run(
                    git_command(arguments, Some(target.clone()), "git revision checkout failed"),
                ),
            )
        }
    }

    /// What the setup does on an outcome. Nothing of the source changes but
    /// the handle on the working tree, which is made, released at once, when
    /// the directory has been created.
    pub fn advance_setup(&mut self, progress: GitProgress, event: GitEvent) -> (next: (
        GitProgress,
        GitAction,
    ))
        ensures
            ({
                let transition = git_transition(old(self)@, progress@, event@);
                &&& next.0@ == (GitProgressView { phase: transition.phase, target: progress@.target })
                &&& next.1@ == transition.action
                &&& final(self)@ == (GitView { local_folder: transition.local_folder, ..old(self)@ })
            }),
    {
        let GitProgress { phase, target } = progress;
        let (phase, action) = match phase {
            GitPhase::Create => match event {
                GitEvent::Directory(Ok(())) => {
                    let mut folder = TemporaryPath::temporary(target.clone());
                    folder.release();
                    self.local_folder = Some(folder);
                    (GitPhase::Probe, GitAction::ProbeExists(join(target.as_str(), ".git")))
                },
                GitEvent::Directory(Err(reason)) => {
                    let mut detail = "failed to create git checkout directory: ".to_owned();
                    detail.append(reason.as_str());
                    failed(BuildStepError::new_simple(detail.as_str()))
                },
                _ => unexpected(),
            },
            GitPhase::Probe => match event {
                GitEvent::Exists(found) => {
                    if found {
                        let mut arguments: Vec<String> = Vec::new();
                        arguments.push("fetch".to_owned());
                        assert(string_views(arguments@) =~= fetch_command(target@).arguments);
                        (
                            GitPhase::Fetch,
                            GitAction::Run(
                                git_command(arguments, Some(target.clone()), "git fetch failed"),
                            ),
                        )
                    } else {
                        (GitPhase::Clone, GitAction::Run(self.make_clone_command(&target)))
                    }
                },
                _ => unexpected(),
            },
            GitPhase::Fetch => match event {
                GitEvent::Command(Ok(_)) => self.acquired(&target),
                GitEvent::Command(Err(error)) => {
                    let stderr = to_chars(error.stderr());
                    let pattern = to_chars("not a git repository");
                    if find(&stderr, &pattern, 0).is_some() {
                        (GitPhase::Remove, GitAction::RemoveDirectory(target.clone()))
                    } else {
                        failed(error)
                    }
                },
                _ => unexpected(),
            },
            GitPhase::Remove => match event {
                GitEvent::Directory(Ok(())) => (
                    GitPhase::Recreate,
                    GitAction::CreateDirectory(target.clone()),
                ),
                GitEvent::Directory(Err(reason)) => failed(
                    BuildStepError::new_io(
                        "failed to remove old temporary checkout directory",
                        reason.as_str(),
                    ),
                ),
                _ => unexpected(),
            },
            GitPhase::Recreate => match event {
                GitEvent::Directory(Ok(())) => (
                    GitPhase::Clone,
                    GitAction::Run(self.make_clone_command(&target)),
                ),
                GitEvent::Directory(Err(reason)) => failed(
                    BuildStepError::new_io(
                        "failed to create new temporary checkout directory",
                        reason.as_str(),
                    ),
                ),
                _ => unexpected(),
            },
            GitPhase::Clone => match event {
                GitEvent::Command(Ok(_)) => self.acquired(&target),
                GitEvent::Command(Err(error)) => failed(error),
                _ => unexpected(),
            },
            GitPhase::Checkout => match event {
                GitEvent::Command(Ok(_)) => (GitPhase::Done, GitAction::Finish(Ok(()))),
                GitEvent::Command(Err(error)) => failed(error),
                _ => unexpected(),
            },
            GitPhase::Done => unexpected(),
        };
        (GitProgress { phase, target }, action)
    }

    /// The directory of the working tree.
    pub fn local_directory(&self) -> (path: &String)
        requires
            self@.local_folder is Some,
        ensures
            path@ == self@.local_folder->0.path,
    {
        self.local_folder.as_ref().unwrap().path()
    }

    /// Forgets the working tree, which stays on disk.
    pub fn cleanup(&mut self)
        ensures
            final(self)@ == (GitView { local_folder: None, ..old(self)@ }),
    {
        self.local_folder = None;
    }
}

/// The configuration of a `BuildSourceGit` before it is made.
#[derive(Debug)]
pub struct BuildSourceGitBuilder {
    inner: BuildSourceGit,
}

impl View for BuildSourceGitBuilder {
    type V = GitView;

    closed spec fn view(&self) -> GitView {
        self.inner@
    }
}

impl BuildSourceGitBuilder {
    /// The configuration in which only the address is set: the revision is
    /// checked out, and nothing else is asked for.
    pub open spec fn initial(repository_url: Seq<char>) -> GitView {
        GitView {
            repository_url,
            revision: None,
            checkout_submodule: false,
            skip_revision_checkout: false,
            checkout_folder: None,
            local_folder: None,
        }
    }

    pub fn new(repository_url: String) -> (builder: Self)
        ensures
            builder@ == Self::initial(repository_url@),
    {
        BuildSourceGitBuilder {
            inner: BuildSourceGit {
                repository_url,
                checkout_submodule: false,
                skip_revision_checkout: false,
                checkout_folder: None,
                local_folder: None,
                revision: None,
            },
        }
    }

    pub fn checkout_submodule(self, enabled: bool) -> (builder: Self)
        ensures
            builder@ == (GitView { checkout_submodule: enabled, ..self@ }),
    {
        let mut builder = self;
        builder.inner.checkout_submodule = enabled;
        builder
    }

    pub fn checkout_folder(self, path: Option<String>) -> (builder: Self)
        ensures
            builder@ == (GitView { checkout_folder: opt_view(path), ..self@ }),
    {
        let mut builder = self;
        builder.inner.checkout_folder = path;
        builder
    }

    pub fn revision(self, revision: Option<String>) -> (builder: Self)
        ensures
            builder@ == (GitView { revision: opt_view(revision), ..self@ }),
    {
        let mut builder = self;
        builder.inner.revision = revision;
        builder
    }

    pub fn skip_revision_checkout(self, enabled: bool) -> (builder: Self)
        ensures
            builder@ == (GitView { skip_revision_checkout: enabled, ..self@ }),
    {
        let mut builder = self;
        builder.inner.skip_revision_checkout = enabled;
        builder
    }

    pub fn build(self) -> (source: BuildSourceGit)
        ensures
            source@ == self@,
    {
        self.inner
    }
}

} // verus!
