//! The driver of the meta-build tool: its options, the commands it asks
//! for, and what it decides from their outcomes.

use crate::build::options::{
    keys_increasing, option_writes, options_view, set_option, with_option, OptionsView,
};
use crate::build::manifest::{
    candidate_targets, candidates_of, candidates_view, library_candidates, parse_install_manifest,
    parse_manifest, record_libraries, recorded, targets_of, CandidateView, EntriesView,
    LibraryCandidate,
};
use crate::build::{
    identity_hash, identity_writes, law_hash_names_directory, law_step_hash_reaches_hasher,
    working_directory_name, BuildIdentity, StepIdentityView,
};
use crate::build::{
    string_views, BuildContext, BuildResult, BuildStepError, ContextView, LibraryType, ResultView,
    StepErrorView,
};
use crate::text::{
    contains_text, find, find_from, from_chars, lines_of, slice_chars, split_lines, to_chars,
    views,
};
use crate::util::{opt_view, BuildCommand, CommandView};
use vstd::string::StringExecFns;
use std::collections::hash_map::DefaultHasher;
use std::hash::Hasher;
use vstd::prelude::*;
use vstd::std_specs::hash::DefaultHasherAdditionalSpecFns;
use vstd::string::StringSliceAdditionalSpecFns;
use vstd::utf8::encode_utf8;

verus! {

/// Answers which descriptor files to promote when the tool asks for a
/// promotion.
trait PromoteCallback {
    /// Whether the callback, asked about `argument`, may answer `files`.
    spec fn may_return(&self, argument: Seq<char>, files: Seq<Seq<char>>) -> bool;

    fn promote(&self, argument: &str) -> (files: Vec<String>)
        ensures
            self.may_return(argument@, string_views(files@)),
    ;
}

/// A function in the role of a `PromoteCallback`.
struct PromoteFn<F: Fn(&str) -> Vec<String>> {
    callback: F,
}

impl<F: Fn(&str) -> Vec<String>> PromoteFn<F> {
    #[verifier::type_invariant]
    spec fn callable(self) -> bool {
        forall|argument: &str| call_requires(self.callback, (argument,))
    }
}

impl<F: Fn(&str) -> Vec<String>> PromoteCallback for PromoteFn<F> {
    spec fn may_return(&self, argument: Seq<char>, files: Seq<Seq<char>>) -> bool {
        exists|asked: &str, answer: Vec<String>|
            asked@ == argument && string_views(answer@) == files && call_ensures(
                self.callback,
                (asked,),
                answer,
            )
    }

    fn promote(&self, argument: &str) -> (files: Vec<String>) {
        proof {
            use_type_invariant(self);
        }
        let files = (self.callback)(argument);
        assert(call_ensures(self.callback, (argument,), files));
        files
    }
}

/// A build step that configures, compiles and installs with the meta-build
/// tool.
pub struct MesonBuild {
    callback_promote: Option<Box<dyn PromoteCallback>>,
    meson_options: Vec<(String, String)>,
}

/// The content of a `MesonBuild`.
pub struct MesonView {
    pub options: OptionsView,
    pub has_callback: bool,
}

impl View for MesonBuild {
    type V = MesonView;

    closed spec fn view(&self) -> MesonView {
        MesonView {
            options: options_view(self.meson_options@),
            has_callback: self.callback_promote is Some,
        }
    }
}

impl MesonBuild {
    #[verifier::type_invariant]
    spec fn ordered(self) -> bool {
        keys_increasing(options_view(self.meson_options@))
    }

    /// Whether the promotion callback, asked about `argument`, may answer
    /// `files`.
    pub closed spec fn may_answer(&self, argument: Seq<char>, files: Seq<Seq<char>>) -> bool {
        match self.callback_promote {
            Some(callback) => callback.may_return(argument, files),
            None => false,
        }
    }

    pub fn builder() -> (builder: MesonBuildBuilder)
        ensures
            builder@ == (MesonView { options: Seq::empty(), has_callback: false }),
    {
        MesonBuildBuilder::new()
    }

    /// The options, in the dictionary order of their names.
    pub fn options(&self) -> (options: &Vec<(String, String)>)
        ensures
            options_view(options@) == self@.options,
            keys_increasing(self@.options),
    {
        proof {
            use_type_invariant(self);
        }
        &self.meson_options
    }

    /// Whether a promotion callback is set.
    pub fn has_promote_callback(&self) -> (set: bool)
        ensures
            set == self@.has_callback,
    {
        self.callback_promote.is_some()
    }

    pub fn name(&self) -> (name: &str)
        ensures
            name@ == "meson build"@,
    {
        "meson build"
    }

    /// Feeds the options to the hasher: each name, then its value.
    pub fn hash(&self, hasher: &mut DefaultHasher)
        ensures
            final(hasher)@ == old(hasher)@ + option_writes(self@.options),
    {
        let ghost options = self@.options;
        let ghost writes = option_writes(options);
        let mut i: usize = 0;
        assert(writes.take(0) =~= Seq::empty());
        while i < self.meson_options.len()
            invariant
                i <= self.meson_options.len(),
                options == self@.options,
                writes == option_writes(options),
                hasher@ == old(hasher)@ + writes.take(2 * i),
            decreases self.meson_options.len() - i,
        {
            let ghost before = hasher@;
            hasher.write(self.meson_options[i].0.as_str().as_bytes());
            hasher.write(self.meson_options[i].1.as_str().as_bytes());
            proof {
                assert(options[i as int] == (self.meson_options@[i as int].0@, self.meson_options@[i as int].1@));
                assert(writes[2 * i] == encode_utf8(options[i as int].0));
                assert(writes[2 * i + 1] == encode_utf8(options[i as int].1));
                assert(writes.take(2 * (i + 1)) =~= writes.take(2 * i).push(writes[2 * i]).push(
                    writes[2 * i + 1],
                ));
                assert(hasher@ =~= before.push(writes[2 * i]).push(writes[2 * i + 1]));
            }
            i += 1;
        }
        assert(writes.take(2 * i) =~= writes);
    }
}

/// The configuration of a `MesonBuild` before it is made.
pub struct MesonBuildBuilder {
    inner: MesonBuild,
}

impl View for MesonBuildBuilder {
    type V = MesonView;

    closed spec fn view(&self) -> MesonView {
        self.inner@
    }
}

impl MesonBuildBuilder {
    pub fn new() -> (builder: Self)
        ensures
            builder@ == (MesonView { options: Seq::empty(), has_callback: false }),
    {
        let meson_options: Vec<(String, String)> = Vec::new();
        assert(options_view(meson_options@) =~= Seq::empty());
        MesonBuildBuilder { inner: MesonBuild { callback_promote: None, meson_options } }
    }

    /// Sets the option `key` to `value`. A later value replaces an earlier
    /// one, and the order in which options are set leaves no trace.
    pub fn meson_option(self, key: &str, value: &str) -> (builder: Self)
        ensures
            builder@ == (MesonView {
                options: with_option(self@.options, key@, value@),
                ..self@
            }),
    {
        proof {
            use_type_invariant(&self.inner);
        }
        let MesonBuildBuilder { inner } = self;
        let MesonBuild { callback_promote, meson_options } = inner;
        let mut meson_options = meson_options;
        set_option(&mut meson_options, key.to_owned(), value.to_owned());
        MesonBuildBuilder { inner: MesonBuild { callback_promote, meson_options } }
    }

    /// Sets the function that is asked which descriptor files to promote.
    pub fn promote_callback<F: Fn(&str) -> Vec<String> + 'static>(self, callback: F) -> (builder:
        Self)
        requires
            forall|argument: &str| call_requires(callback, (argument,)),
        ensures
            builder@ == (MesonView { has_callback: true, ..self@ }),
    {
        proof {
            use_type_invariant(&self.inner);
        }
        let MesonBuildBuilder { inner } = self;
        let MesonBuild { callback_promote, meson_options } = inner;
        let boxed: Box<dyn PromoteCallback> = Box::new(PromoteFn { callback });
        MesonBuildBuilder { inner: MesonBuild { callback_promote: Some(boxed), meson_options } }
    }

    pub fn build(self) -> (step: MesonBuild)
        ensures
            step@ == self@,
            keys_increasing(step@.options),
    {
        proof {
            use_type_invariant(&self.inner);
        }
        self.inner
    }
}

/// What the line of the tool's output that asks for a promotion holds
/// before the files it names.
pub open spec fn promote_marker() -> Seq<char> {
    "meson wrap promote "@
}

/// The first line at or after `from` that asks for a promotion.
pub open spec fn promotion_line(lines: Seq<Seq<char>>, from: int) -> Option<Seq<char>>
    decreases lines.len() - from,
{
    if from < 0 || from >= lines.len() {
        None
    } else if contains_text(lines[from], promote_marker()) {
        Some(lines[from])
    } else {
        promotion_line(lines, from + 1)
    }
}

/// What a line that asks for a promotion names: the text between the first
/// marker and the next one, or the end of the line.
pub open spec fn argument_in(line: Seq<char>) -> Seq<char> {
    let start = find_from(line, promote_marker(), 0)->0 + promote_marker().len();
    let end = match find_from(line, promote_marker(), start) {
        Some(next) => next,
        None => line.len() as int,
    };
    line.subrange(start, end)
}

/// What the tool asks to promote, if its output asks for a promotion.
pub open spec fn promotion_argument(stdout: Seq<char>) -> Option<Seq<char>> {
    match promotion_line(lines_of(stdout), 0) {
        Some(line) => Some(argument_in(line)),
        None => None,
    }
}

/// What the tool asks to promote, if its output asks for a promotion.
pub fn find_promotion_argument(stdout: &str) -> (argument: Option<String>)
    ensures
        opt_view(argument) == promotion_argument(stdout@),
{
    let text = to_chars(stdout);
    let lines = split_lines(&text);
    let marker = to_chars("meson wrap promote ");
    let ghost all = lines_of(stdout@);
    let mut i: usize = 0;
    while i < lines.len()
        invariant
            i <= lines.len(),
            all == views(lines@),
            all == lines_of(stdout@),
            marker@ == promote_marker(),
            promotion_line(all, 0) == promotion_line(all, i as int),
        decreases lines.len() - i,
    {
        let line = &lines[i];
        assert(line@ == all[i as int]);
        match find(line, &marker, 0) {
            Some(first) => {
                let start = first + marker.len();
                let end = match find(line, &marker, start) {
                    Some(next) => next,
                    None => line.len(),
                };
                let argument = from_chars(line, start, end);
                return Some(argument);
            },
            None => {},
        }
        i += 1;
    }
    None
}

/// How often a failed setup may be answered with a round of promotions.
pub const MAX_PROMOTE_ROUNDS: usize = 16;

/// Where the step stands: the work whose outcome it waits for.
#[derive(Copy, Clone, PartialEq, Eq, Structural, Debug)]
pub enum MesonPhase {
    Setup,
    Promote,
    Compile,
    Install,
    Probe,
    Done,
}

/// The state of the step between two pieces of outside work.
#[derive(Debug)]
pub struct MesonProgress {
    phase: MesonPhase,
    rounds: usize,
    pending: Vec<String>,
    promoted: usize,
    candidates: Vec<LibraryCandidate>,
}

/// The content of a `MesonProgress`.
pub struct ProgressView {
    pub phase: MesonPhase,
    /// The rounds of promotions begun so far.
    pub rounds: nat,
    /// The files of the current round of promotions.
    pub pending: Seq<Seq<char>>,
    /// How many of them are promoted.
    pub promoted: nat,
    /// The installed libraries whose directories are being confirmed.
    pub candidates: Seq<CandidateView>,
}

/// What holds of every state that the step reaches.
pub open spec fn well_formed(progress: ProgressView) -> bool {
    &&& progress.rounds <= MAX_PROMOTE_ROUNDS
    &&& progress.phase == MesonPhase::Promote ==> progress.promoted < progress.pending.len()
}

impl View for MesonProgress {
    type V = ProgressView;

    closed spec fn view(&self) -> ProgressView {
        ProgressView {
            phase: self.phase,
            rounds: self.rounds as nat,
            pending: string_views(self.pending@),
            promoted: self.promoted as nat,
            candidates: candidates_view(self.candidates@),
        }
    }
}

impl MesonProgress {
    #[verifier::type_invariant]
    spec fn sound(self) -> bool {
        well_formed(self@)
    }

    pub fn phase(&self) -> (phase: MesonPhase)
        ensures
            phase == self@.phase,
    {
        self.phase
    }

    /// The rounds of promotions begun so far.
    pub fn rounds(&self) -> (rounds: usize)
        ensures
            rounds == self@.rounds,
    {
        self.rounds
    }
}

/// The outside work that the step asks for next.
#[derive(Debug)]
pub enum MesonAction {
    /// Run the command and report how it ended.
    Run(BuildCommand),
    /// Report of each path whether it is a directory.
    ProbeDirectories(Vec<String>),
    /// Nothing: the step is over, with this outcome.
    Finish(Result<(), BuildStepError>),
}

/// The content of a `MesonAction`.
pub enum ActionView {
    Run(CommandView),
    ProbeDirectories(Seq<Seq<char>>),
    Finish(Result<(), StepErrorView>),
}

impl View for MesonAction {
    type V = ActionView;

    open spec fn view(&self) -> ActionView {
        match self {
            MesonAction::Run(command) => ActionView::Run(command@),
            MesonAction::ProbeDirectories(paths) => ActionView::ProbeDirectories(string_views(paths@)),
            MesonAction::Finish(Ok(())) => ActionView::Finish(Ok(())),
            MesonAction::Finish(Err(error)) => ActionView::Finish(Err(error@)),
        }
    }
}

/// The outcome of the outside work that the step asked for.
#[derive(Debug)]
pub enum MesonEvent {
    /// How the command ended.
    Command(Result<(String, String), BuildStepError>),
    /// Of each path, in the order asked, whether it is a directory.
    Directories(Vec<bool>),
}

/// The content of a `MesonEvent`.
pub enum EventView {
    CommandSucceeded { stdout: Seq<char>, stderr: Seq<char> },
    CommandFailed(StepErrorView),
    Directories(Seq<bool>),
}

impl View for MesonEvent {
    type V = EventView;

    open spec fn view(&self) -> EventView {
        match self {
            MesonEvent::Command(Ok((stdout, stderr))) => EventView::CommandSucceeded {
                stdout: stdout@,
                stderr: stderr@,
            },
            MesonEvent::Command(Err(error)) => EventView::CommandFailed(error@),
            MesonEvent::Directories(flags) => EventView::Directories(flags@),
        }
    }
}

/// What the commands of the step depend on besides its options.
#[derive(Debug)]
pub struct MesonSite {
    pub install_prefix: String,
    pub library_type: LibraryType,
    pub build_path: String,
    pub source_path: String,
}

/// The content of a `MesonSite`.
pub struct SiteView {
    pub install_prefix: Seq<char>,
    pub library_type: LibraryType,
    pub build_path: Seq<char>,
    pub source_path: Seq<char>,
}

impl View for MesonSite {
    type V = SiteView;

    open spec fn view(&self) -> SiteView {
        SiteView {
            install_prefix: self.install_prefix@,
            library_type: self.library_type,
            build_path: self.build_path@,
            source_path: self.source_path@,
        }
    }
}

/// The site of a build whose source stands in `source_path`, if the build
/// has an install prefix.
pub open spec fn site_of(build: ContextView, source_path: Seq<char>) -> Option<SiteView> {
    match build.install_prefix {
        None => None,
        Some(install_prefix) => Some(
            SiteView {
                install_prefix,
                library_type: build.library_type,
                build_path: build.build_path.path,
                source_path,
            },
        ),
    }
}

impl MesonSite {
    /// The site of `build`, whose source stands in `source_path`: none where
    /// the build has no install prefix.
    pub fn new(build: &BuildContext, source_path: String) -> (site: Option<Self>)
        ensures
            match site {
                Some(site) => site_of(build@, source_path@) == Some(site@),
                None => site_of(build@, source_path@) is None,
            },
    {
        match build.install_prefix() {
            None => None,
            Some(prefix) => Some(
                MesonSite {
                    install_prefix: prefix.clone(),
                    library_type: build.library_type(),
                    build_path: build.build_path().clone(),
                    source_path,
                },
            ),
        }
    }

    /// The site of `build`, with the local directory that its source names:
    /// none where the build has no install prefix.
    pub fn of(build: &BuildContext) -> (site: Option<Self>)
        ensures
            match site {
                Some(site) => exists|source_path: Seq<char>| #[trigger]
                    site_of(build@, source_path) == Some(site@),
                None => build@.install_prefix is None,
            },
    {
        match build.install_prefix() {
            None => None,
            Some(_) => {
                let source_path = build.source().local_directory().clone();
                let site = Self::new(build, source_path);
                proof {
                    if site is Some {
                        assert(site_of(build@, source_path@) == Some(site->0@));
                    }
                }
                site
            },
        }
    }
}

/// The argument that tells the tool which linkage to build.
pub open spec fn linkage_define(kind: LibraryType) -> Seq<char> {
    match kind {
        LibraryType::Shared => "-Ddefault_library=shared"@,
        LibraryType::Static => "-Ddefault_library=static"@,
    }
}

/// The argument that hands one option to the tool.
pub open spec fn option_define(key: Seq<char>, value: Seq<char>) -> Seq<char> {
    "-D"@ + key + "="@ + value
}

/// The command that configures the build: the install prefix, the linkage,
/// each option, then the working directory and the source directory.
pub open spec fn setup_command(options: OptionsView, site: SiteView) -> CommandView {
    CommandView {
        program: "meson"@,
        arguments: seq!["setup"@, "--prefix"@, site.install_prefix, linkage_define(site.library_type)]
            + Seq::new(options.len(), |i: int| option_define(options[i].0, options[i].1)) + seq![
            site.build_path,
            site.source_path,
        ],
        current_dir: None,
        error_detail: "failed to setup build"@,
    }
}

/// The command that compiles in the working directory.
pub open spec fn compile_command(site: SiteView) -> CommandView {
    CommandView {
        program: "meson"@,
        arguments: seq!["compile"@, "-C"@, site.build_path],
        current_dir: None,
        error_detail: "failed to execute build"@,
    }
}

/// The command that installs from the working directory.
pub open spec fn install_command(site: SiteView) -> CommandView {
    CommandView {
        program: "meson"@,
        arguments: seq!["install"@, "-C"@, site.build_path],
        current_dir: None,
        error_detail: "failed to install build"@,
    }
}

/// The command that promotes one descriptor file, run in the source directory.
pub open spec fn promote_command(site: SiteView, file: Seq<char>) -> CommandView {
    CommandView {
        program: "meson"@,
        arguments: seq!["wrap"@, "promote"@, file],
        current_dir: Some(site.source_path),
        error_detail: "failed to execute promote command for "@ + file,
    }
}

/// The failure that answers an outcome which the step did not ask for.
pub open spec fn protocol_error() -> StepErrorView {
    StepErrorView {
        detail: "the outcome does not belong to the work that was asked for"@,
        stdout: Seq::empty(),
        stderr: Seq::empty(),
    }
}

/// A step of the driver: the state it reaches, the work it asks for, and
/// what it has produced.
pub struct Transition {
    pub progress: ProgressView,
    pub action: ActionView,
    pub result: ResultView,
}

/// The end of the step with a failure.
pub open spec fn fails(progress: ProgressView, error: StepErrorView, result: ResultView) -> Transition {
    Transition {
        progress: ProgressView { phase: MesonPhase::Done, ..progress },
        action: ActionView::Finish(Err(error)),
        result,
    }
}

/// Whether a failed setup may be answered with a round of promotions: the
/// tool asked for one, and the rounds are not used up.
pub open spec fn wants_recovery(progress: ProgressView, error: StepErrorView) -> bool {
    progress.rounds < MAX_PROMOTE_ROUNDS && promotion_argument(error.stdout) is Some
}

/// What the step does on an outcome. `answer` holds the files that the
/// promotion callback named, where it was asked.
pub open spec fn meson_transition(
    options: OptionsView,
    site: SiteView,
    progress: ProgressView,
    event: EventView,
    answer: Option<Seq<Seq<char>>>,
    result: ResultView,
) -> Transition {
    match progress.phase {
        MesonPhase::Setup => match event {
            EventView::CommandSucceeded { .. } => Transition {
                progress: ProgressView { phase: MesonPhase::Compile, ..progress },
                action: ActionView::Run(compile_command(site)),
                result,
            },
            EventView::CommandFailed(error) => if wants_recovery(progress, error) && answer is Some
                && answer->0.len() > 0 {
                Transition {
                    progress: ProgressView {
                        phase: MesonPhase::Promote,
                        rounds: (progress.rounds + 1) as nat,
                        pending: answer->0,
                        promoted: 0,
                        candidates: progress.candidates,
                    },
                    action: ActionView::Run(promote_command(site, answer->0[0])),
                    result,
                }
            } else {
                fails(progress, error, result)
            },
            EventView::Directories(_) => fails(progress, protocol_error(), result),
        },
        MesonPhase::Promote => match event {
            EventView::CommandSucceeded { .. } => if progress.promoted + 1 < progress.pending.len() {
                Transition {
                    progress: ProgressView { promoted: (progress.promoted + 1) as nat, ..progress },
                    action: ActionView::Run(
                        promote_command(site, progress.pending[progress.promoted as int + 1]),
                    ),
                    result,
                }
            } else {
                Transition {
                    progress: ProgressView { phase: MesonPhase::Setup, ..progress },
                    action: ActionView::Run(setup_command(options, site)),
                    result,
                }
            },
            EventView::CommandFailed(error) => fails(progress, error, result),
            EventView::Directories(_) => fails(progress, protocol_error(), result),
        },
        MesonPhase::Compile => match event {
            EventView::CommandSucceeded { .. } => Transition {
                progress: ProgressView { phase: MesonPhase::Install, ..progress },
                action: ActionView::Run(install_command(site)),
                result,
            },
            EventView::CommandFailed(error) => fails(progress, error, result),
            EventView::Directories(_) => fails(progress, protocol_error(), result),
        },
        MesonPhase::Install => match event {
            EventView::CommandSucceeded { stdout, stderr } => match parse_manifest(stdout) {
                Err(detail) => fails(progress, StepErrorView { detail, stdout, stderr }, result),
                Ok(entries) => {
                    let candidates = candidates_of(entries, entries.len() as int);
                    Transition {
                        progress: ProgressView { phase: MesonPhase::Probe, candidates, ..progress },
                        action: ActionView::ProbeDirectories(candidate_targets(candidates)),
                        result,
                    }
                },
            },
            EventView::CommandFailed(error) => fails(progress, error, result),
            EventView::Directories(_) => fails(progress, protocol_error(), result),
        },
        MesonPhase::Probe => match event {
            EventView::Directories(confirmed) => Transition {
                progress: ProgressView { phase: MesonPhase::Done, ..progress },
                action: ActionView::Finish(Ok(())),
                result: recorded(
                    result,
                    progress.candidates,
                    confirmed,
                    progress.candidates.len() as int,
                ),
            },
            _ => fails(progress, protocol_error(), result),
        },
        MesonPhase::Done => fails(progress, protocol_error(), result),
    }
}

/// The state in which the step begins: it waits for the first setup.
pub open spec fn initial_progress() -> ProgressView {
    ProgressView {
        phase: MesonPhase::Setup,
        rounds: 0,
        pending: Seq::empty(),
        promoted: 0,
        candidates: Seq::empty(),
    }
}

/// The view of the files that the promotion callback named.
pub open spec fn answer_view(answer: Option<Vec<String>>) -> Option<Seq<Seq<char>>> {
    match answer {
        Some(files) => Some(string_views(files@)),
        None => None,
    }
}

/// Whether the step asks the promotion callback on this outcome: a setup
/// failed, the tool asked for a promotion, the rounds are not used up, and a
/// callback is set.
pub open spec fn asks_callback(step: MesonView, progress: ProgressView, event: EventView) -> bool {
    &&& step.has_callback
    &&& progress.phase == MesonPhase::Setup
    &&& event matches EventView::CommandFailed(error)
    &&& wants_recovery(progress, error)
}

fn meson_command(arguments: Vec<String>, current_dir: Option<String>, error_detail: String) -> (command:
    BuildCommand)
    ensures
        command@ == (CommandView {
            program: "meson"@,
            arguments: string_views(arguments@),
            current_dir: opt_view(current_dir),
            error_detail: error_detail@,
        }),
{
    BuildCommand { program: "meson".to_owned(), arguments, current_dir, error_detail }
}

fn make_compile_command(site: &MesonSite) -> (command: BuildCommand)
    ensures
        command@ == compile_command(site@),
{
    let mut arguments: Vec<String> = Vec::new();
    arguments.push("compile".to_owned());
    arguments.push("-C".to_owned());
    arguments.push(site.build_path.clone());
    assert(string_views(arguments@) =~= compile_command(site@).arguments);
    meson_command(arguments, None, "failed to execute build".to_owned())
}

fn make_install_command(site: &MesonSite) -> (command: BuildCommand)
    ensures
        command@ == install_command(site@),
{
    let mut arguments: Vec<String> = Vec::new();
    arguments.push("install".to_owned());
    arguments.push("-C".to_owned());
    arguments.push(site.build_path.clone());
    assert(string_views(arguments@) =~= install_command(site@).arguments);
    meson_command(arguments, None, "failed to install build".to_owned())
}

fn make_promote_command(site: &MesonSite, file: &str) -> (command: BuildCommand)
    ensures
        command@ == promote_command(site@, file@),
{
    let mut arguments: Vec<String> = Vec::new();
    arguments.push("wrap".to_owned());
    arguments.push("promote".to_owned());
    arguments.push(file.to_owned());
    assert(string_views(arguments@) =~= promote_command(site@, file@).arguments);
    let mut detail = "failed to execute promote command for ".to_owned();
    detail.append(file);
    meson_command(arguments, Some(site.source_path.clone()), detail)
}

fn protocol_failure() -> (error: BuildStepError)
    ensures
        error@ == protocol_error(),
{
    BuildStepError::new_simple("the outcome does not belong to the work that was asked for")
}

impl MesonBuild {
    fn make_setup_command(&self, site: &MesonSite) -> (command: BuildCommand)
        ensures
            command@ == setup_command(self@.options, site@),
    {
        let ghost place = site@;
        let ghost options = self@.options;
        let ghost head = seq![
            "setup"@,
            "--prefix"@,
            place.install_prefix,
            linkage_define(place.library_type),
        ];
        let ghost defines = Seq::new(
            options.len(),
            |i: int| option_define(options[i].0, options[i].1),
        );
        let mut arguments: Vec<String> = Vec::new();
        arguments.push("setup".to_owned());
        arguments.push("--prefix".to_owned());
        arguments.push(site.install_prefix.clone());
        match site.library_type {
            LibraryType::Shared => arguments.push("-Ddefault_library=shared".to_owned()),
            LibraryType::Static => arguments.push("-Ddefault_library=static".to_owned()),
        }
        assert(string_views(arguments@) =~= head);
        assert(defines.take(0) =~= Seq::empty());
        let mut i: usize = 0;
        while i < self.meson_options.len()
            invariant
                i <= self.meson_options.len(),
                options == self@.options,
                defines == Seq::new(
                    options.len(),
                    |i: int| option_define(options[i].0, options[i].1),
                ),
                string_views(arguments@) == head + defines.take(i as int),
            decreases self.meson_options.len() - i,
        {
            let mut define = "-D".to_owned();
            define.append(self.meson_options[i].0.as_str());
            define.append("=");
            define.append(self.meson_options[i].1.as_str());
            proof {
                assert(options[i as int] == (
                    self.meson_options@[i as int].0@,
                    self.meson_options@[i as int].1@,
                ));
                assert(define@ == defines[i as int]);
                assert(string_views(arguments@.push(define)) =~= string_views(arguments@).push(
                    define@,
                ));
                assert(head + defines.take(i + 1) =~= (head + defines.take(i as int)).push(
                    defines[i as int],
                ));
            }
            arguments.push(define);
            i += 1;
        }
        assert(defines.take(i as int) =~= defines);
        let ghost so_far = string_views(arguments@);
        arguments.push(site.build_path.clone());
        arguments.push(site.source_path.clone());
        assert(string_views(arguments@) =~= so_far + seq![place.build_path, place.source_path]);
        meson_command(arguments, None, "failed to setup build".to_owned())
    }

    /// Begins the step: the first piece of work is the setup.
    pub fn begin(&self, site: &MesonSite) -> (start: (MesonProgress, MesonAction))
        ensures
            start.0@ == initial_progress(),
            start.1@ == ActionView::Run(setup_command(self@.options, site@)),
    {
        let command = self.make_setup_command(site);
        let progress = MesonProgress {
            phase: MesonPhase::Setup,
            rounds: 0,
            pending: Vec::new(),
            promoted: 0,
            candidates: Vec::new(),
        };
        assert(progress@.pending =~= Seq::empty());
        assert(progress@.candidates =~= Seq::empty());
        (progress, MesonAction::Run(command))
    }

    /// What the step does on an outcome, given the files that the promotion
    /// callback named where it was asked.
    pub fn advance_answered(
        &self,
        site: &MesonSite,
        progress: MesonProgress,
        event: MesonEvent,
        answer: Option<Vec<String>>,
        result: &mut BuildResult,
    ) -> (next: (MesonProgress, MesonAction))
        ensures
            well_formed(next.0@),
            ({
                let transition = meson_transition(
                    self@.options,
                    site@,
                    progress@,
                    event@,
                    answer_view(answer),
                    old(result)@,
                );
                &&& next.0@ == transition.progress
                &&& next.1@ == transition.action
                &&& final(result)@ == transition.result
            }),
    {
        proof {
            use_type_invariant(&progress);
        }
        let MesonProgress { phase, rounds, pending, promoted, candidates } = progress;
        match phase {
            MesonPhase::Setup => match event {
                MesonEvent::Command(Ok(_)) => {
                    let command = make_compile_command(site);
                    (
                        MesonProgress {
                            phase: MesonPhase::Compile,
                            rounds,
                            pending,
                            promoted,
                            candidates,
                        },
                        MesonAction::Run(command),
                    )
                },
                MesonEvent::Command(Err(error)) => {
                    let asked = rounds < MAX_PROMOTE_ROUNDS && find_promotion_argument(
                        error.stdout(),
                    ).is_some();
                    match answer {
                        Some(files) => {
                            if asked && files.len() > 0 {
                                let command = make_promote_command(site, files[0].as_str());
                                (
                                    MesonProgress {
                                        phase: MesonPhase::Promote,
                                        rounds: rounds + 1,
                                        pending: files,
                                        promoted: 0,
                                        candidates,
                                    },
                                    MesonAction::Run(command),
                                )
                            } else {
                                (
                                    MesonProgress {
                                        phase: MesonPhase::Done,
                                        rounds,
                                        pending,
                                        promoted,
                                        candidates,
                                    },
                                    MesonAction::Finish(Err(error)),
                                )
                            }
                        },
                        None => (
                            MesonProgress {
                                phase: MesonPhase::Done,
                                rounds,
                                pending,
                                promoted,
                                candidates,
                            },
                            MesonAction::Finish(Err(error)),
                        ),
                    }
                },
                MesonEvent::Directories(_) => (
                    MesonProgress { phase: MesonPhase::Done, rounds, pending, promoted, candidates },
                    MesonAction::Finish(Err(protocol_failure())),
                ),
            },
            MesonPhase::Promote => match event {
                MesonEvent::Command(Ok(_)) => {
                    assert(promoted < pending.len()) by {
                        assert(progress@.pending.len() == pending@.len());
                    }
                    if promoted + 1 < pending.len() {
                        let command = make_promote_command(site, pending[promoted + 1].as_str());
                        (
                            MesonProgress {
                                phase: MesonPhase::Promote,
                                rounds,
                                pending,
                                promoted: promoted + 1,
                                candidates,
                            },
                            MesonAction::Run(command),
                        )
                    } else {
                        let command = self.make_setup_command(site);
                        (
                            MesonProgress {
                                phase: MesonPhase::Setup,
                                rounds,
                                pending,
                                promoted,
                                candidates,
                            },
                            MesonAction::Run(command),
                        )
                    }
                },
                MesonEvent::Command(Err(error)) => (
                    MesonProgress { phase: MesonPhase::Done, rounds, pending, promoted, candidates },
                    MesonAction::Finish(Err(error)),
                ),
                MesonEvent::Directories(_) => (
                    MesonProgress { phase: MesonPhase::Done, rounds, pending, promoted, candidates },
                    MesonAction::Finish(Err(protocol_failure())),
                ),
            },
            MesonPhase::Compile => match event {
                MesonEvent::Command(Ok(_)) => {
                    let command = make_install_command(site);
                    (
                        MesonProgress {
                            phase: MesonPhase::Install,
                            rounds,
                            pending,
                            promoted,
                            candidates,
                        },
                        MesonAction::Run(command),
                    )
                },
                MesonEvent::Command(Err(error)) => (
                    MesonProgress { phase: MesonPhase::Done, rounds, pending, promoted, candidates },
                    MesonAction::Finish(Err(error)),
                ),
                MesonEvent::Directories(_) => (
                    MesonProgress { phase: MesonPhase::Done, rounds, pending, promoted, candidates },
                    MesonAction::Finish(Err(protocol_failure())),
                ),
            },
            MesonPhase::Install => match event {
                MesonEvent::Command(Ok((stdout, stderr))) => {
                    match parse_install_manifest(stdout.as_str()) {
                        Err(detail) => (
                            MesonProgress {
                                phase: MesonPhase::Done,
                                rounds,
                                pending,
                                promoted,
                                candidates,
                            },
                            MesonAction::Finish(Err(BuildStepError::new(detail, stdout, stderr))),
                        ),
                        Ok(files) => {
                            let found = library_candidates(&files);
                            let targets = targets_of(&found);
                            (
                                MesonProgress {
                                    phase: MesonPhase::Probe,
                                    rounds,
                                    pending,
                                    promoted,
                                    candidates: found,
                                },
                                MesonAction::ProbeDirectories(targets),
                            )
                        },
                    }
                },
                MesonEvent::Command(Err(error)) => (
                    MesonProgress { phase: MesonPhase::Done, rounds, pending, promoted, candidates },
                    MesonAction::Finish(Err(error)),
                ),
                MesonEvent::Directories(_) => (
                    MesonProgress { phase: MesonPhase::Done, rounds, pending, promoted, candidates },
                    MesonAction::Finish(Err(protocol_failure())),
                ),
            },
            MesonPhase::Probe => match event {
                MesonEvent::Directories(confirmed) => {
                    record_libraries(result, &candidates, &confirmed);
                    (
                        MesonProgress {
                            phase: MesonPhase::Done,
                            rounds,
                            pending,
                            promoted,
                            candidates,
                        },
                        MesonAction::Finish(Ok(())),
                    )
                },
                MesonEvent::Command(_) => (
                    MesonProgress { phase: MesonPhase::Done, rounds, pending, promoted, candidates },
                    MesonAction::Finish(Err(protocol_failure())),
                ),
            },
            MesonPhase::Done => (
                MesonProgress { phase: MesonPhase::Done, rounds, pending, promoted, candidates },
                MesonAction::Finish(Err(protocol_failure())),
            ),
        }
    }

    /// What the step does on an outcome. Where a setup failed and the tool
    /// asked for a promotion, the promotion callback is asked, with what the
    /// tool named, which files to promote; whatever it answers, the step
    /// goes on as `meson_transition` says for that answer.
    pub fn advance(
        &self,
        site: &MesonSite,
        progress: MesonProgress,
        event: MesonEvent,
        result: &mut BuildResult,
    ) -> (next: (MesonProgress, MesonAction))
        ensures
            well_formed(next.0@),
            exists|answer: Option<Seq<Seq<char>>>|
                {
                    let transition = #[trigger] meson_transition(
                        self@.options,
                        site@,
                        progress@,
                        event@,
                        answer,
                        old(result)@,
                    );
                    &&& answer is Some <==> asks_callback(self@, progress@, event@)
                    &&& answer matches Some(files) ==> self.may_answer(
                        promotion_argument(event@->CommandFailed_0.stdout)->0,
                        files,
                    )
                    &&& next.0@ == transition.progress
                    &&& next.1@ == transition.action
                    &&& final(result)@ == transition.result
                },
    {
        proof {
            use_type_invariant(&progress);
        }
        let answer = match &self.callback_promote {
            None => None,
            Some(callback) => match progress.phase {
                MesonPhase::Setup => match &event {
                    MesonEvent::Command(Err(error)) => {
                        if progress.rounds < MAX_PROMOTE_ROUNDS {
                            match find_promotion_argument(error.stdout()) {
                                Some(argument) => Some(callback.promote(argument.as_str())),
                                None => None,
                            }
                        } else {
                            None
                        }
                    },
                    _ => None,
                },
                _ => None,
            },
        };
        let ghost witness = answer_view(answer);
        let next = self.advance_answered(site, progress, event, answer, result);
        proof {
            let transition = meson_transition(
                self@.options,
                site@,
                progress@,
                event@,
                witness,
                old(result)@,
            );
            assert(witness is Some <==> asks_callback(self@, progress@, event@));
            assert(witness matches Some(files) ==> self.may_answer(
                promotion_argument(event@->CommandFailed_0.stdout)->0,
                files,
            ));
            assert(next.0@ == transition.progress);
        }
        next
    }
}

/// Options that differ in one value feed different things to the hasher.
pub proof fn law_option_value_reaches_hasher(options: OptionsView, changed: OptionsView, j: int)
    requires
        0 <= j < options.len(),
        changed.len() == options.len(),
        changed[j].1 != options[j].1,
    ensures
        option_writes(options) != option_writes(changed),
{
    vstd::utf8::encode_utf8_decode_utf8(options[j].1);
    vstd::utf8::encode_utf8_decode_utf8(changed[j].1);
    assert(option_writes(options)[2 * j + 1] == encode_utf8(options[j].1));
    assert(option_writes(changed)[2 * j + 1] == encode_utf8(changed[j].1));
}

/// Two builds that differ only in the value of one option of one step of
/// the tool have different working directories, provided that the hasher
/// gives the two builds different hashes.
pub proof fn law_option_value_separates_builds(
    first: BuildIdentity,
    second: BuildIdentity,
    k: int,
    options: OptionsView,
    changed: OptionsView,
    j: int,
)
    requires
        0 <= k < first.steps.len(),
        first.steps[k].hash == DefaultHasher::spec_finish(option_writes(options)),
        second == (BuildIdentity {
            steps: first.steps.update(
                k,
                StepIdentityView {
                    name: first.steps[k].name,
                    hash: DefaultHasher::spec_finish(option_writes(changed)),
                },
            ),
            ..first
        }),
        0 <= j < options.len(),
        changed == options.update(j, (options[j].0, changed[j].1)),
        changed[j].1 != options[j].1,
        identity_hash(first) != identity_hash(second),
    ensures
        option_writes(options) != option_writes(changed),
        identity_writes(first) != identity_writes(second),
        working_directory_name(first.name, identity_hash(first)) != working_directory_name(
            second.name,
            identity_hash(second),
        ),
{
    law_option_value_reaches_hasher(options, changed, j);
    law_hash_names_directory(first.name, identity_hash(first), identity_hash(second));
}

/// How far a phase is from the end of the step.
pub open spec fn phase_rank(phase: MesonPhase) -> nat {
    match phase {
        MesonPhase::Promote => 5,
        MesonPhase::Setup => 4,
        MesonPhase::Compile => 3,
        MesonPhase::Install => 2,
        MesonPhase::Probe => 1,
        MesonPhase::Done => 0,
    }
}

/// The work that may still lie ahead of a state: the rounds of promotions
/// that are left, the rank of the phase, and the promotions left in the round.
pub open spec fn work_left(progress: ProgressView) -> (nat, nat, nat) {
    (
        (MAX_PROMOTE_ROUNDS - progress.rounds) as nat,
        phase_rank(progress.phase),
        (progress.pending.len() - progress.promoted) as nat,
    )
}

/// Whether `a` comes before `b` when the first difference decides.
pub open spec fn lex_less(a: (nat, nat, nat), b: (nat, nat, nat)) -> bool {
    a.0 < b.0 || (a.0 == b.0 && (a.1 < b.1 || (a.1 == b.1 && a.2 < b.2)))
}

/// The step ends: on every outcome it either finishes or is left with
/// strictly less work, whatever the tool prints and whatever the promotion
/// callback answers. It has finished exactly when it has reached the last
/// phase.
pub proof fn law_meson_work_decreases(
    options: OptionsView,
    site: SiteView,
    progress: ProgressView,
    event: EventView,
    answer: Option<Seq<Seq<char>>>,
    result: ResultView,
)
    requires
        well_formed(progress),
    ensures
        ({
            let next = meson_transition(options, site, progress, event, answer, result);
            &&& well_formed(next.progress)
            &&& next.action is Finish <==> next.progress.phase == MesonPhase::Done
            &&& next.action is Finish || lex_less(work_left(next.progress), work_left(progress))
        }),
{
}

/// Whatever happens, what the step has produced only grows.
pub proof fn law_meson_result_grows(
    options: OptionsView,
    site: SiteView,
    progress: ProgressView,
    event: EventView,
    answer: Option<Seq<Seq<char>>>,
    result: ResultView,
)
    ensures
        meson_transition(options, site, progress, event, answer, result).result.extends(result),
{
    let next = meson_transition(options, site, progress, event, answer, result);
    if progress.phase == MesonPhase::Probe && event is Directories {
        crate::build::manifest::lemma_recorded_extends(
            result,
            progress.candidates,
            event->Directories_0,
            progress.candidates.len() as int,
        );
    }
}

} // verus!
