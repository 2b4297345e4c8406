//! Orchestration of third-party builds: deterministic build identities, the
//! lifecycle of working directories, and the decisions of each build step,
//! stated over plain values so that a caller performs the outside work.

pub mod build;
pub mod encoding;
pub mod source;
pub mod text;
pub mod util;

pub use build::{Build, BuildCreateError, BuildError, BuildLibrary, BuildResult, BuildStep};
pub use util::{conclude_build_command, temporary_path_location, TemporaryPath};
