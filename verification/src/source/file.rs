//! A source tree that already stands in a local directory.

use crate::build::BuildStepError;
use crate::source::BuildSource;
use std::collections::hash_map::DefaultHasher;
use std::hash::Hasher;
use vstd::prelude::*;
use vstd::string::StringSliceAdditionalSpecFns;

verus! {

/// Why a directory cannot serve as a source.
#[derive(Debug, PartialEq, Eq, Structural, Copy, Clone)]
pub enum BuildSourceDirectoryError {
    TargetDoesNotExists,
    TargetIsNotADirectory,
    DirectoryNotAccessable,
}

/// What the file system says of a path.
#[derive(Debug, Copy, Clone)]
pub struct DirectoryProbe {
    pub exists: bool,
    pub is_directory: bool,
    pub readable: bool,
}

/// The first reason, if any, for which a probed path cannot serve as a source.
pub open spec fn directory_fault(probe: DirectoryProbe) -> Option<BuildSourceDirectoryError> {
    if !probe.exists {
        Some(BuildSourceDirectoryError::TargetDoesNotExists)
    } else if !probe.is_directory {
        Some(BuildSourceDirectoryError::TargetIsNotADirectory)
    } else if !probe.readable {
        Some(BuildSourceDirectoryError::DirectoryNotAccessable)
    } else {
        None
    }
}

/// A source that is a local directory. Setting it up does nothing.
#[derive(Debug)]
pub struct BuildSourceDirectory {
    path: String,
}

impl View for BuildSourceDirectory {
    type V = Seq<char>;

    closed spec fn view(&self) -> Seq<char> {
        self.path@
    }
}

impl BuildSourceDirectory {
    /// The source at `target`, provided that the probe found there a
    /// directory that can be read.
    pub fn new(target: String, probe: DirectoryProbe) -> (source: Result<
        Self,
        BuildSourceDirectoryError,
    >)
        ensures
            match source {
                Ok(source) => directory_fault(probe) is None && source@ == target@,
                Err(fault) => directory_fault(probe) == Some(fault),
            },
    {
        if !probe.exists {
            Err(BuildSourceDirectoryError::TargetDoesNotExists)
        } else if !probe.is_directory {
            Err(BuildSourceDirectoryError::TargetIsNotADirectory)
        } else if !probe.readable {
            Err(BuildSourceDirectoryError::DirectoryNotAccessable)
        } else {
            Ok(BuildSourceDirectory { path: target })
        }
    }
}

impl BuildSource for BuildSourceDirectory {
    fn name(&self) -> (name: &str)
        ensures
            name@ == "directory"@,
    {
        "directory"
    }

    /// Feeds the path to the hasher.
    fn hash(&self, target: &mut DefaultHasher)
        ensures
            final(target)@ == old(target)@.push(vstd::utf8::encode_utf8(self@)),
    {
        target.write(self.path.as_str().as_bytes());
    }

    fn setup(&mut self) -> (outcome: Result<(), BuildStepError>)
        ensures
            outcome is Ok,
            final(self)@ == old(self)@,
    {
        Ok(())
    }

    fn local_directory(&self) -> (path: &String)
        ensures
            path@ == self@,
    {
        &self.path
    }

    fn cleanup(&mut self)
        ensures
            final(self)@ == old(self)@,
    {
    }
}

} // verus!
