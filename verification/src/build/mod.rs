//! The build orchestrator: a source and an ordered list of steps under one
//! identity.

use crate::source::BuildSource;
use crate::util::{
    build_library_type, env_install_prefix, env_library_type, install_prefix, opt_view,
    temporary_location, temporary_path_location, BuildEnvironment, BuildLibraryTypeError,
    TemporaryPath, TemporaryPathView,
};
use std::collections::hash_map::DefaultHasher;
use std::hash::Hasher;
use vstd::prelude::*;

pub mod error;
pub mod identity;
pub mod manifest;
pub mod meson;
pub mod options;
pub mod result;

pub use error::{
    error_report, io_error_text, outcome_view, phase_verdict, report_section, tag_outcome,
    BuildError, BuildErrorView, BuildStepError, StepErrorView,
};
pub use identity::{
    build_directory_name, identities_view, identity_digest, identity_hash, identity_writes,
    law_hash_names_directory, law_identity_is_deterministic, law_step_hash_reaches_hasher,
    working_directory_name, BuildIdentity, StepIdentity, StepIdentityView,
};
pub use meson::{
    MesonAction, MesonBuild, MesonBuildBuilder, MesonEvent, MesonPhase, MesonProgress, MesonSite,
};
pub use result::{
    cargo_lines_of, library_path_text, library_text, search_kind_or_all, string_views,
    BuildLibrary, BuildLibraryPath, BuildResult, LibraryPathView, LibraryView, ResultView,
};

verus! {

/// The linkage of a produced library.
#[derive(Copy, Clone, PartialEq, Eq, Structural, Debug, Hash)]
pub enum LibraryType {
    Static,
    Shared,
}

/// The word by which the host build system knows a linkage kind.
pub open spec fn library_type_text(kind: LibraryType) -> Seq<char> {
    match kind {
        LibraryType::Shared => "dylib"@,
        LibraryType::Static => "static"@,
    }
}

impl LibraryType {
    pub fn to_string(&self) -> (text: String)
        ensures
            text@ == library_type_text(*self),
    {
        match self {
            LibraryType::Shared => "dylib".to_owned(),
            LibraryType::Static => "static".to_owned(),
        }
    }
}

/// The kind of a library search path.
#[derive(Copy, Clone, PartialEq, Eq, Structural, Debug)]
pub enum LinkSearchKind {
    Dependency,
    Crate,
    Native,
    Framework,
    All,
}

/// The word by which the host build system knows a search kind.
pub open spec fn link_search_kind_text(kind: LinkSearchKind) -> Seq<char> {
    match kind {
        LinkSearchKind::Dependency => "dependency"@,
        LinkSearchKind::Crate => "crate"@,
        LinkSearchKind::Native => "native"@,
        LinkSearchKind::Framework => "framework"@,
        LinkSearchKind::All => "all"@,
    }
}

impl LinkSearchKind {
    pub fn to_string(&self) -> (text: String)
        ensures
            text@ == link_search_kind_text(*self),
    {
        match self {
            LinkSearchKind::Dependency => "dependency".to_owned(),
            LinkSearchKind::Crate => "crate".to_owned(),
            LinkSearchKind::Native => "native".to_owned(),
            LinkSearchKind::Framework => "framework".to_owned(),
            LinkSearchKind::All => "all".to_owned(),
        }
    }
}

/// One unit of work of a build.
pub trait BuildStep {
    fn name(&self) -> &str;

    /// Feeds to `hasher` what identifies the options of the step.
    fn hash(&self, hasher: &mut DefaultHasher);

    /// Whether `execute`, called on this step for `build` with a result that
    /// holds `before`, may leave `after` in the result and end with
    /// `outcome`. A step that does not say makes no promise.
    open spec fn may_execute(
        &self,
        build: ContextView,
        before: ResultView,
        after: ResultView,
        outcome: Result<(), StepErrorView>,
    ) -> bool {
        true
    }

    /// Does the step's work for `build`, whose source has been set up, and
    /// adds what it produced to `result`.
    fn execute(&mut self, build: &BuildContext, result: &mut BuildResult) -> (outcome: Result<
        (),
        BuildStepError,
    >)
        ensures
            old(self).may_execute(build@, old(result)@, final(result)@, outcome_view(outcome)),
    ;
}

/// What a step sees of the build it works for: the build's identity, its
/// directories and its source.
pub struct BuildContext {
    name: String,
    source: Box<dyn BuildSource>,
    build_hash: u64,
    library_type: LibraryType,
    build_path: TemporaryPath,
    install_prefix: Option<String>,
}

/// The fields of a build that never change once it is made.
pub struct ContextView {
    pub name: Seq<char>,
    pub build_hash: u64,
    pub library_type: LibraryType,
    pub build_path: TemporaryPathView,
    pub install_prefix: Option<Seq<char>>,
}

impl View for BuildContext {
    type V = ContextView;

    closed spec fn view(&self) -> ContextView {
        ContextView {
            name: self.name@,
            build_hash: self.build_hash,
            library_type: self.library_type,
            build_path: self.build_path@,
            install_prefix: opt_view(self.install_prefix),
        }
    }
}

impl BuildContext {
    /// The name of the build.
    pub fn name(&self) -> (name: &str)
        ensures
            name@ == self@.name,
    {
        self.name.as_str()
    }

    /// The linkage kind to build.
    pub fn library_type(&self) -> (kind: LibraryType)
        ensures
            kind == self@.library_type,
    {
        self.library_type
    }

    /// Where the build installs into, if anywhere.
    pub fn install_prefix(&self) -> (prefix: &Option<String>)
        ensures
            opt_view(*prefix) == self@.install_prefix,
    {
        &self.install_prefix
    }

    /// The working directory.
    pub fn build_path(&self) -> (path: &String)
        ensures
            path@ == self@.build_path.path,
    {
        self.build_path.path()
    }

    /// Whether `source` is the source of this build.
    pub closed spec fn has_source(&self, source: &Box<dyn BuildSource>) -> bool {
        *source == self.source
    }

    /// The source of the build.
    pub fn source(&self) -> (source: &Box<dyn BuildSource>)
        ensures
            self.has_source(source),
    {
        &self.source
    }

    pub fn build_hash(&self) -> (hash: u64)
        ensures
            hash == self@.build_hash,
    {
        self.build_hash
    }

    /// The handle on the working directory.
    pub fn build_directory(&self) -> (handle: &TemporaryPath)
        ensures
            handle@ == self@.build_path,
    {
        &self.build_path
    }
}

/// The views of the identities of steps that are held with their identities.
pub open spec fn held_identities(steps: Seq<(StepIdentity, Box<dyn BuildStep>)>) -> Seq<
    StepIdentityView,
> {
    Seq::new(steps.len(), |i: int| steps[i].0@)
}

/// The identities of steps that are held with their identities.
fn copy_identities(steps: &Vec<(StepIdentity, Box<dyn BuildStep>)>) -> (identities: Vec<
    StepIdentity,
>)
    ensures
        identities_view(identities@) == held_identities(steps@),
{
    let mut identities: Vec<StepIdentity> = Vec::new();
    let mut i: usize = 0;
    while i < steps.len()
        invariant
            i <= steps.len(),
            identities@.len() == i,
            forall|j: int| 0 <= j < i ==> (#[trigger] identities@[j])@ == steps@[j].0@,
        decreases steps.len() - i,
    {
        identities.push(StepIdentity { name: steps[i].0.name.clone(), hash: steps[i].0.hash });
        i += 1;
    }
    assert(identities_view(identities@) =~= held_identities(steps@));
    identities
}

/// The orchestrator: a source and an ordered list of steps under one
/// identity.
pub struct Build {
    context: BuildContext,
    /// Each step with the name and the hash it had when it was added.
    steps: Vec<(StepIdentity, Box<dyn BuildStep>)>,
    source_hash: u64,
}

/// The content of a `Build`.
pub struct BuildView {
    pub context: ContextView,
    /// The hash of the source, as it was when the build was made.
    pub source_hash: u64,
    /// The name and the hash of each step, as they were when the build was made.
    pub steps: Seq<StepIdentityView>,
}

impl BuildView {
    /// What the identity of the build depends on.
    pub open spec fn identity(self) -> BuildIdentity {
        BuildIdentity {
            name: self.context.name,
            source: self.source_hash,
            install_prefix: self.context.install_prefix,
            library_type: self.context.library_type,
            steps: self.steps,
        }
    }
}

impl View for Build {
    type V = BuildView;

    closed spec fn view(&self) -> BuildView {
        BuildView {
            context: self.context@,
            source_hash: self.source_hash,
            steps: held_identities(self.steps@),
        }
    }
}

/// The name under which a failure to set up the source is reported.
pub open spec fn source_setup_name() -> Seq<char> {
    "source setup"@
}

impl Build {
    /// Create a new build builder
    pub fn builder() -> (builder: BuildBuilder)
        ensures
            builder@ == BuilderView::initial(),
    {
        BuildBuilder::new()
    }

    /// What the steps of this build see of it.
    pub fn context(&self) -> (context: &BuildContext)
        ensures
            context@ == self@.context,
    {
        &self.context
    }

    /// Get the name of the target build
    pub fn name(&self) -> (name: &str)
        ensures
            name@ == self@.context.name,
    {
        self.context.name()
    }

    /// The target library type which should be built
    pub fn library_type(&self) -> (kind: LibraryType)
        ensures
            kind == self@.context.library_type,
    {
        self.context.library_type()
    }

    /// Get the target install prefix where the library should be installed into.
    /// This might be unset.
    pub fn install_prefix(&self) -> (prefix: &Option<String>)
        ensures
            opt_view(*prefix) == self@.context.install_prefix,
    {
        self.context.install_prefix()
    }

    /// Get the temporary build path where you should build into
    pub fn build_path(&self) -> (path: &String)
        ensures
            path@ == self@.context.build_path.path,
    {
        self.context.build_path()
    }

    /// Whether `source` is the source of this build.
    pub closed spec fn has_source(&self, source: &Box<dyn BuildSource>) -> bool {
        self.context.has_source(source)
    }

    /// The source of the build.
    pub fn source(&self) -> (source: &Box<dyn BuildSource>)
        ensures
            self.has_source(source),
    {
        self.context.source()
    }

    /// The hash that identifies the build.
    pub fn build_hash(&self) -> (hash: u64)
        ensures
            hash == self@.context.build_hash,
    {
        self.context.build_hash()
    }

    /// The hash of the source, as it was when the source was set.
    pub fn source_hash(&self) -> (hash: u64)
        ensures
            hash == self@.source_hash,
    {
        self.source_hash
    }

    /// The name and the hash of each step, as they were when the step was added.
    pub fn step_identities(&self) -> (steps: Vec<StepIdentity>)
        ensures
            identities_view(steps@) == self@.steps,
    {
        copy_identities(&self.steps)
    }

    /// Records that this build lets go of its working directory. Returns the
    /// directory to delete, if the build was its last owner and the
    /// directory was made to be removed.
    pub fn finish(self) -> (doomed: Option<String>)
        ensures
            doomed is Some <==> self@.context.build_path.owners == 1
                && !self@.context.build_path.released,
            doomed matches Some(path) ==> path@ == self@.context.build_path.path,
    {
        let Build { context, steps, source_hash } = self;
        let BuildContext { name, source, build_hash, library_type, build_path, install_prefix } =
            context;
        let mut handle = build_path;
        handle.drop_owner()
    }

    /// Whether setting up the source of this build may end with `outcome`.
    pub closed spec fn source_may_set_up(&self, outcome: Result<(), StepErrorView>) -> bool {
        self.context.source.may_set_up(outcome)
    }

    /// Whether the step at `index`, run for this build on a result that
    /// holds `before`, may leave `after` in the result and end with `outcome`.
    pub closed spec fn step_may_execute(
        &self,
        index: int,
        before: ResultView,
        after: ResultView,
        outcome: Result<(), StepErrorView>,
    ) -> bool {
        0 <= index < self.steps@.len() && self.steps@[index].1.may_execute(
            self.context@,
            before,
            after,
            outcome,
        )
    }

    /// Whether `trace` follows the first steps of this build through their
    /// success: it begins with the empty result, and each of these steps, in
    /// order, may succeed on one entry and leave the next.
    pub open spec fn steps_succeeded(&self, trace: Seq<ResultView>) -> bool {
        &&& 1 <= trace.len() <= self@.steps.len() + 1
        &&& trace[0] == ResultView::empty()
        &&& forall|i: int|
            0 <= i < trace.len() - 1 ==> #[trigger] self.step_may_execute(
                i,
                trace[i],
                trace[i + 1],
                Ok(()),
            )
    }

    /// Whether this build may fail with `error` in the step that follows
    /// those of `trace`: the steps of `trace` succeeded, and the next step,
    /// run on what they left, may leave `after` and fail with the failure
    /// that `error` holds under the step's name.
    pub open spec fn fails_after(
        &self,
        trace: Seq<ResultView>,
        after: ResultView,
        error: BuildErrorView,
    ) -> bool {
        &&& self.steps_succeeded(trace)
        &&& trace.len() <= self@.steps.len()
        &&& error.step == self@.steps[trace.len() - 1].name
        &&& self.step_may_execute(trace.len() - 1, trace.last(), after, Err(error.error))
    }

    /// Whether executing this build may end with `outcome`. It succeeds
    /// where the setup of the source and then every step, each run on what
    /// the steps before it left, may succeed; the result is what the last
    /// step left. It fails with the failure of the setup under the name
    /// `source setup`, or with the failure of the first step that fails,
    /// under that step's name; no step runs after a failure.
    pub open spec fn may_end_with(&self, outcome: Result<ResultView, BuildErrorView>) -> bool {
        match outcome {
            Ok(result) => self.source_may_set_up(Ok(())) && exists|trace: Seq<ResultView>|
                #[trigger] self.steps_succeeded(trace) && trace.len() == self@.steps.len() + 1
                    && trace.last() == result,
            Err(error) => {
                ||| error.step == source_setup_name() && self.source_may_set_up(Err(error.error))
                ||| self.source_may_set_up(Ok(())) && exists|
                    trace: Seq<ResultView>,
                    after: ResultView,
                | #[trigger] self.fails_after(trace, after, error)
            },
        }
    }

    /// Execute the build and all its steps: the source is set up, then the
    /// steps run in order, each on the result that the steps before it
    /// left. The first failure ends the build and is returned under the
    /// name of the phase that failed: `source setup`, or the name that the
    /// failing step had when it was added. Nothing of the build's identity
    /// changes.
    pub fn execute(&mut self) -> (outcome: Result<BuildResult, BuildError>)
        ensures
            final(self)@ == old(self)@,
            old(self).may_end_with(
                match outcome {
                    Ok(result) => Ok(result@),
                    Err(error) => Err(error@),
                },
            ),
    {
        let setup = self.context.source.setup();
        assert(old(self).source_may_set_up(outcome_view(setup)));
        match tag_outcome("source setup", setup) {
            Err(error) => {
                return Err(error);
            },
            Ok(()) => {},
        }
        let mut result = BuildResult::new();
        let ghost mut trace: Seq<ResultView> = seq![result@];
        let count = self.steps.len();
        let mut i: usize = 0;
        while i < count
            invariant
                count == self.steps.len(),
                i <= count,
                self@ == old(self)@,
                old(self).source_may_set_up(Ok(())),
                trace.len() == i + 1,
                trace.last() == result@,
                old(self).steps_succeeded(trace),
                steps_unchanged(self.steps@, old(self).steps@, i as int),
            decreases count - i,
        {
            let ghost before = self.steps@;
            let ghost produced = result@;
            let outcome = self.steps[i].1.execute(&self.context, &mut result);
            proof {
                assert(self.steps@.len() == before.len());
                assert forall|j: int| 0 <= j < before.len() implies (#[trigger] self.steps@[j]).0
                    == before[j].0 by {}
                assert(held_identities(self.steps@) =~= held_identities(before));
                assert(old(self).step_may_execute(
                    i as int,
                    produced,
                    result@,
                    outcome_view(outcome),
                ));
                assert(same_except(self.steps@, before, i as int));
                lemma_steps_unchanged(self.steps@, before, old(self).steps@, i as int);
            }
            let verdict = tag_outcome(self.steps[i].0.name.as_str(), outcome);
            match verdict {
                Err(error) => {
                    assert(error@.step == old(self)@.steps[i as int].name);
                    assert(old(self).fails_after(trace, result@, error@));
                    return Err(error);
                },
                Ok(()) => {},
            }
            proof {
                let longer = trace.push(result@);
                assert forall|k: int| 0 <= k < longer.len() - 1 implies #[trigger] old(
                    self,
                ).step_may_execute(k, longer[k], longer[k + 1], Ok(())) by {
                    if k < trace.len() - 1 {
                        assert(old(self).step_may_execute(k, trace[k], trace[k + 1], Ok(())));
                    }
                }
                trace = longer;
            }
            i += 1;
        }
        assert(old(self).steps_succeeded(trace));
        Ok(result)
    }
}

/// Whether the steps from position `from` on are those of `original`.
spec fn steps_unchanged(
    steps: Seq<(StepIdentity, Box<dyn BuildStep>)>,
    original: Seq<(StepIdentity, Box<dyn BuildStep>)>,
    from: int,
) -> bool {
    steps.len() == original.len() && forall|j: int|
        from <= j < steps.len() ==> #[trigger] steps[j] == original[j]
}

/// Running the step at `index` leaves the later steps as they were.
proof fn lemma_steps_unchanged(
    after: Seq<(StepIdentity, Box<dyn BuildStep>)>,
    before: Seq<(StepIdentity, Box<dyn BuildStep>)>,
    original: Seq<(StepIdentity, Box<dyn BuildStep>)>,
    index: int,
)
    requires
        0 <= index,
        steps_unchanged(before, original, index),
        same_except(after, before, index),
    ensures
        steps_unchanged(after, original, index + 1),
{
}

/// Whether `after` holds the steps of `before` but for the one at `index`.
spec fn same_except(
    after: Seq<(StepIdentity, Box<dyn BuildStep>)>,
    before: Seq<(StepIdentity, Box<dyn BuildStep>)>,
    index: int,
) -> bool {
    after.len() == before.len() && forall|j: int|
        0 <= j < after.len() && j != index ==> #[trigger] after[j] == before[j]
}

/// Why a build could not be made.
#[derive(Debug)]
pub enum BuildCreateError {
    Unknown,
    MissingName,
    MissingSource,
    Missing(String),
    /// The working directory could not be created; the text describes why.
    FailedToCreateBuildDirectory(String),
    InvalidEnvLibraryType(String),
}

/// The configuration of a build before it is made.
pub struct BuildBuilder {
    name: Option<String>,
    /// The source with the hash it had when it was set.
    source: Option<(u64, Box<dyn BuildSource>)>,
    /// Each step with the name and the hash it had when it was added.
    steps: Vec<(StepIdentity, Box<dyn BuildStep>)>,
    library_type: Option<LibraryType>,
    install_prefix: Option<String>,
    build_path: Option<String>,
    remove_build_dir: bool,
    environment: BuildEnvironment,
}

/// What the environment holds for a build.
pub struct EnvironmentView {
    pub library_type: Option<Seq<char>>,
    pub install_prefix: Option<Seq<char>>,
    pub out_dir: Option<Seq<char>>,
    pub temp_dir: Seq<char>,
}

/// The content of a `BuildBuilder`.
pub struct BuilderView {
    pub name: Option<Seq<char>>,
    /// The hash of the source, where a source is set.
    pub source: Option<u64>,
    /// The name and the hash of each step.
    pub steps: Seq<StepIdentityView>,
    pub library_type: Option<LibraryType>,
    pub install_prefix: Option<Seq<char>>,
    pub build_path: Option<Seq<char>>,
    pub remove_build_dir: bool,
    pub environment: EnvironmentView,
}

/// The view of an environment.
pub open spec fn environment_view(environment: BuildEnvironment) -> EnvironmentView {
    EnvironmentView {
        library_type: opt_view(environment.library_type),
        install_prefix: opt_view(environment.install_prefix),
        out_dir: opt_view(environment.out_dir),
        temp_dir: environment.temp_dir@,
    }
}

/// Why a configuration describes no build.
pub enum BuildCreateFault {
    MissingName,
    MissingSource,
    InvalidEnvLibraryType(Seq<char>),
}

impl BuilderView {
    /// A builder in which nothing is set: the working directory is removed
    /// after the build, and the environment is empty.
    pub open spec fn initial() -> BuilderView {
        BuilderView {
            name: None,
            source: None,
            steps: Seq::empty(),
            library_type: None,
            install_prefix: None,
            build_path: None,
            remove_build_dir: true,
            environment: EnvironmentView {
                library_type: None,
                install_prefix: None,
                out_dir: None,
                temp_dir: Seq::empty(),
            },
        }
    }

    /// The install prefix of the build: the one set on the builder, else the
    /// one from the environment.
    pub open spec fn resolved_install_prefix(self) -> Option<Seq<char>> {
        if self.install_prefix is Some {
            self.install_prefix
        } else {
            env_install_prefix(self.environment.install_prefix, self.environment.out_dir)
        }
    }

    /// The linkage kind of the build: the one set on the builder, else the
    /// one from the environment, else shared. `Err` holds the environment's
    /// word where that word names no linkage kind.
    pub open spec fn resolved_library_type(self) -> Result<LibraryType, Seq<char>> {
        match self.library_type {
            Some(kind) => Ok(kind),
            None => match env_library_type(self.environment.library_type) {
                Ok(kind) => Ok(kind),
                Err(None) => Ok(LibraryType::Shared),
                Err(Some(word)) => Err(word),
            },
        }
    }

    /// Why this configuration describes no build, if it describes none: the
    /// name is missing, else the source is missing, else the environment
    /// names a linkage kind that does not exist.
    pub open spec fn fault(self) -> Option<BuildCreateFault> {
        if self.name is None {
            Some(BuildCreateFault::MissingName)
        } else if self.source is None {
            Some(BuildCreateFault::MissingSource)
        } else {
            match self.resolved_library_type() {
                Err(word) => Some(BuildCreateFault::InvalidEnvLibraryType(word)),
                Ok(_) => None,
            }
        }
    }

    /// What the identity of the build depends on.
    pub open spec fn identity(self) -> BuildIdentity {
        BuildIdentity {
            name: self.name->0,
            source: self.source->0,
            install_prefix: self.resolved_install_prefix(),
            library_type: self.resolved_library_type()->Ok_0,
            steps: self.steps,
        }
    }

    /// The build that this configuration describes: its hash is the hash of
    /// its identity, and its working directory is named after that hash.
    pub open spec fn context(self) -> ContextView {
        let hash = identity_hash(self.identity());
        ContextView {
            name: self.name->0,
            build_hash: hash,
            library_type: self.resolved_library_type()->Ok_0,
            build_path: TemporaryPathView {
                path: temporary_location(
                    working_directory_name(self.name->0, hash),
                    self.build_path,
                    self.environment.out_dir,
                    self.environment.temp_dir,
                ),
                released: !self.remove_build_dir,
                owners: 1,
            },
            install_prefix: self.resolved_install_prefix(),
        }
    }
}

/// The fault that an error reports, if it is one that a configuration can have.
pub open spec fn create_fault(error: BuildCreateError) -> Option<BuildCreateFault> {
    match error {
        BuildCreateError::MissingName => Some(BuildCreateFault::MissingName),
        BuildCreateError::MissingSource => Some(BuildCreateFault::MissingSource),
        BuildCreateError::InvalidEnvLibraryType(word) => Some(
            BuildCreateFault::InvalidEnvLibraryType(word@),
        ),
        _ => None,
    }
}

impl View for BuildBuilder {
    type V = BuilderView;

    closed spec fn view(&self) -> BuilderView {
        BuilderView {
            name: opt_view(self.name),
            source: match self.source {
                Some(held) => Some(held.0),
                None => None,
            },
            steps: held_identities(self.steps@),
            library_type: self.library_type,
            install_prefix: opt_view(self.install_prefix),
            build_path: opt_view(self.build_path),
            remove_build_dir: self.remove_build_dir,
            environment: environment_view(self.environment),
        }
    }
}

impl BuildBuilder {
    pub fn new() -> (builder: Self)
        ensures
            builder@ == BuilderView::initial(),
    {
        let builder = BuildBuilder {
            name: None,
            source: None,
            steps: Vec::new(),
            library_type: None,
            install_prefix: None,
            build_path: None,
            remove_build_dir: true,
            environment: BuildEnvironment::empty(),
        };
        assert(builder@.steps =~= Seq::empty());
        builder
    }

    /// Makes the build: resolves what was left open from the environment,
    /// derives the hash that identifies the build and, from it, the working
    /// directory. It fails exactly where the configuration has a fault, and
    /// with that fault.
    pub fn build(self) -> (outcome: Result<Box<Build>, BuildCreateError>)
        ensures
            match outcome {
                Ok(build) => self@.fault() is None && build@ == (BuildView {
                    context: self@.context(),
                    source_hash: self@.source->0,
                    steps: self@.steps,
                }),
                Err(error) => create_fault(error) is Some && self@.fault() == create_fault(error),
            },
    {
        let ghost view = self@;
        let name = match self.name {
            Some(name) => name,
            None => {
                return Err(BuildCreateError::MissingName);
            },
        };
        let (source_hash, source) = match self.source {
            Some(held) => held,
            None => {
                return Err(BuildCreateError::MissingSource);
            },
        };
        let install_prefix = match self.install_prefix {
            Some(prefix) => Some(prefix),
            None => install_prefix(&self.environment),
        };
        let library_type = match self.library_type {
            Some(kind) => kind,
            None => match build_library_type(&self.environment) {
                Ok(kind) => kind,
                Err(BuildLibraryTypeError::InvalidValue(word)) => {
                    return Err(BuildCreateError::InvalidEnvLibraryType(word));
                },
                Err(BuildLibraryTypeError::NotPresent) => LibraryType::Shared,
            },
        };
        assert(view.resolved_library_type() == Ok::<LibraryType, Seq<char>>(library_type));
        assert(opt_view(install_prefix) == view.resolved_install_prefix());
        let identities = copy_identities(&self.steps);
        let build_hash = identity_digest(
            name.as_str(),
            source_hash,
            &install_prefix,
            library_type,
            &identities,
        );
        let folder = build_directory_name(name.as_str(), build_hash);
        let location = temporary_path_location(
            folder.as_str(),
            self.build_path.as_ref(),
            &self.environment,
        );
        let mut build_path = TemporaryPath::temporary(location);
        if !self.remove_build_dir {
            build_path.release();
        }
        let build = Build {
            context: BuildContext {
                name,
                source,
                build_hash,
                library_type,
                build_path,
                install_prefix,
            },
            steps: self.steps,
            source_hash,
        };
        Ok(Box::new(build))
    }

    pub fn name(self, value: &str) -> (builder: Self)
        ensures
            builder@ == (BuilderView { name: Some(value@), ..self@ }),
    {
        let mut builder = self;
        builder.name = Some(value.to_owned());
        builder
    }

    /// Sets the source. The source is asked at once for what identifies it,
    /// and the hash of that is kept.
    pub fn source(self, source: Box<dyn BuildSource>) -> (builder: Self)
        ensures
            builder@.source is Some,
            builder@ == (BuilderView { source: builder@.source, ..self@ }),
    {
        let mut hasher = DefaultHasher::new();
        source.hash(&mut hasher);
        let held = Some((hasher.finish(), source));
        let mut builder = self;
        builder.source = held;
        builder
    }

    /// Sets the directory under which the working directory is made.
    pub fn build_path(self, path: String) -> (builder: Self)
        ensures
            builder@ == (BuilderView { build_path: Some(path@), ..self@ }),
    {
        let mut builder = self;
        builder.build_path = Some(path);
        builder
    }

    pub fn install_prefix(self, path: String) -> (builder: Self)
        ensures
            builder@ == (BuilderView { install_prefix: Some(path@), ..self@ }),
    {
        let mut builder = self;
        builder.install_prefix = Some(path);
        builder
    }

    pub fn library_type(self, ltype: LibraryType) -> (builder: Self)
        ensures
            builder@ == (BuilderView { library_type: Some(ltype), ..self@ }),
    {
        let mut builder = self;
        builder.library_type = Some(ltype);
        builder
    }

    /// Whether the working directory is removed once the build lets go of it.
    pub fn remove_build_dir(self, enabled: bool) -> (builder: Self)
        ensures
            builder@ == (BuilderView { remove_build_dir: enabled, ..self@ }),
    {
        let mut builder = self;
        builder.remove_build_dir = enabled;
        builder
    }

    /// Sets what the environment holds for this build.
    pub fn environment(self, environment: BuildEnvironment) -> (builder: Self)
        ensures
            builder@ == (BuilderView { environment: environment_view(environment), ..self@ }),
    {
        let mut builder = self;
        builder.environment = environment;
        builder
    }

    /// Adds a step after those added before. The step is asked at once for
    /// its name and for what identifies its options; the name and the hash
    /// of the rest are kept.
    pub fn add_step(self, step: Box<dyn BuildStep>) -> (builder: Self)
        ensures
            builder@.steps.len() == self@.steps.len() + 1,
            builder@ == (BuilderView {
                steps: self@.steps.push(builder@.steps.last()),
                ..self@
            }),
    {
        let mut hasher = DefaultHasher::new();
        step.hash(&mut hasher);
        let identity = StepIdentity { name: step.name().to_owned(), hash: hasher.finish() };
        let ghost added = identity@;
        let held = (identity, step);
        let ghost before = self.steps@;
        let mut builder = self;
        builder.steps.push(held);
        proof {
            assert(builder.steps@ == before.push(held));
            assert(held_identities(builder.steps@) =~= held_identities(before).push(added));
        }
        builder
    }
}


} // verus!
