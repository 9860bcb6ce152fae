//! Installing the bundled language server: where it goes, and in which
//! steps.
//!
//! The steps themselves touch the disk and are carried out by the caller.
//! This module decides their order and what follows each of them. The
//! installation is best-effort: a step that failed is followed by the same
//! step as one that succeeded, so a missing server shows only when it is
//! started.

use vstd::prelude::*;
use crate::path::{join_spec, SEPARATOR};

verus! {

/// The directory that holds the installed server, relative to the working
/// directory of the extension.
pub const SERVER_DIRECTORY: &'static str = "server";

/// The file name of the installed server.
pub const SERVER_FILE_NAME: &'static str = "server.bundle.js";

/// The path of the installed server, relative to the working directory of
/// the extension.
pub const SERVER_PATH: &'static str = "server/server.bundle.js";

/// One step of the installation.
#[derive(Clone, Copy, Debug, PartialEq, Eq, Structural)]
pub enum InstallStep {
    /// Make sure that the server directory exists.
    CreateDirectory,
    /// Write the bundled server to its path, over whatever is there.
    WriteBundle,
    /// Nothing is left to do.
    Finished,
}

/// What became of a step.
#[derive(Clone, Copy, Debug, PartialEq, Eq, Structural)]
pub enum StepOutcome {
    Succeeded,
    Failed,
}

impl InstallStep {
    /// The step after this one. It is the same for every outcome.
    pub open spec fn following(self) -> InstallStep {
        match self {
            InstallStep::CreateDirectory => InstallStep::WriteBundle,
            InstallStep::WriteBundle => InstallStep::Finished,
            InstallStep::Finished => InstallStep::Finished,
        }
    }

    /// The path that this step works on, if it works on any.
    pub open spec fn spec_target(self) -> Option<Seq<char>> {
        match self {
            InstallStep::CreateDirectory => Some(SERVER_DIRECTORY@),
            InstallStep::WriteBundle => Some(SERVER_PATH@),
            InstallStep::Finished => None,
        }
    }

    /// The step that an installation starts with.
    pub fn first() -> (step: InstallStep)
        ensures
            step == InstallStep::CreateDirectory,
    {
        InstallStep::CreateDirectory
    }

    /// The step to take once this one has been tried, whatever came of it.
    pub fn next(self, outcome: StepOutcome) -> (step: InstallStep)
        ensures
            step == self.following(),
    {
        match self {
            InstallStep::CreateDirectory => InstallStep::WriteBundle,
            InstallStep::WriteBundle => InstallStep::Finished,
            InstallStep::Finished => InstallStep::Finished,
        }
    }

    /// The directory to create or the file to write in this step.
    pub fn target(self) -> (path: Option<&'static str>)
        ensures
            path is Some <==> self.spec_target() is Some,
            path matches Some(found) ==> Some(found@) == self.spec_target(),
    {
        match self {
            InstallStep::CreateDirectory => Some(SERVER_DIRECTORY),
            InstallStep::WriteBundle => Some(SERVER_PATH),
            InstallStep::Finished => None,
        }
    }
}

/// The server is installed directly in the directory that the first step
/// creates.
pub proof fn lemma_server_path_lies_in_server_directory()
    ensures
        SERVER_PATH@ == join_spec(SERVER_DIRECTORY@, SERVER_FILE_NAME@),
        SERVER_PATH@ == SERVER_DIRECTORY@ + seq![SEPARATOR] + SERVER_FILE_NAME@,
{
    reveal_strlit("server");
    reveal_strlit("server.bundle.js");
    reveal_strlit("server/server.bundle.js");
    assert(SERVER_PATH@ =~= SERVER_DIRECTORY@ + seq![SEPARATOR] + SERVER_FILE_NAME@);
}

/// An installation takes its two steps in order and then ends, whatever
/// came of either step: no failure stops it or reaches the caller, and the
/// bundle is written whether or not the directory could be created.
pub proof fn lemma_install_runs_to_the_end()
    ensures
        InstallStep::CreateDirectory.following() == InstallStep::WriteBundle,
        InstallStep::CreateDirectory.following().following() == InstallStep::Finished,
        InstallStep::Finished.following() == InstallStep::Finished,
{
}

} // verus!
