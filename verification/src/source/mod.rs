//! Where the source tree of a build comes from.

use crate::build::{outcome_view, BuildStepError, StepErrorView};
use std::collections::hash_map::DefaultHasher;
use vstd::prelude::*;

pub mod download;
pub mod file;

pub use download::{
    check_git, BuildSourceGit, BuildSourceGitBuilder, GitAction, GitBinaryStatus, GitEvent,
    GitPhase, GitProbe, GitProgress,
};
pub use file::{BuildSourceDirectory, BuildSourceDirectoryError, DirectoryProbe};

verus! {

/// Why a source could not be set up.
#[derive(Debug, PartialEq, Eq)]
pub enum SourceSetupError {
    SourceDoesNotExists,
    SourceIsNotReadable,
    NoSpaceOnDisk,
    TemporaryPathNotWriteable,
    AlreadyInitialized,
    Unknown(String),
}

/// A provider of a source tree. Once `setup` has succeeded the tree stands
/// in a local directory; until then that directory must not be asked for.
pub trait BuildSource {
    /// The name of the source
    fn name(&self) -> &str;

    /// Feeds to `target` what identifies the source and its possible changes.
    fn hash(&self, target: &mut DefaultHasher);

    /// Whether `setup`, called on this source, may end with `outcome`. A
    /// source that does not say makes no promise.
    open spec fn may_set_up(&self, outcome: Result<(), StepErrorView>) -> bool {
        true
    }

    /// Populates the local directory.
    fn setup(&mut self) -> (outcome: Result<(), BuildStepError>)
        ensures
            old(self).may_set_up(outcome_view(outcome)),
    ;

    fn local_directory(&self) -> &String;

    fn cleanup(&mut self);
}

} // verus!
