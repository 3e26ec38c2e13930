//! External commands: what is run, how a run can end, and which failure
//! that is for the stage that ran it.

use crate::text::lines;
use vstd::prelude::*;

verus! {

/// The part of an operation that an external command belongs to.
#[derive(Clone, Copy, Debug, PartialEq, Eq, Structural)]
pub enum Stage {
    Clean,
    Create,
    Build,
    InstallTest,
    RegressionTest,
}

impl Stage {
    /// The name under which failures of the stage are reported.
    pub open spec fn tag_text(self) -> Seq<char> {
        match self {
            Stage::Clean => "clean"@,
            Stage::Create => "create"@,
            Stage::Build => "build"@,
            Stage::InstallTest => "install-test"@,
            Stage::RegressionTest => "regression-test"@,
        }
    }

    /// The name under which failures of the stage are reported.
    pub fn tag(&self) -> (tag: &'static str)
        ensures
            tag@ == self.tag_text(),
    {
        match self {
            Stage::Clean => "clean",
            Stage::Create => "create",
            Stage::Build => "build",
            Stage::InstallTest => "install-test",
            Stage::RegressionTest => "regression-test",
        }
    }
}

/// A change to the file system that an operation asks for.
#[derive(Clone, Copy, Debug, PartialEq, Eq, Structural)]
pub enum FileTask {
    RemoveCacheFile,
    CreateTempDir,
    CreateCacheDir,
}

/// Why an operation failed.  Nothing is retried: the first failure ends the
/// operation, and what earlier stages left on disk stays there.
#[derive(Clone, Copy, Debug, PartialEq, Eq, Structural)]
pub enum PipelineError {
    /// The codename is not one that can be built for.
    Configuration,
    /// The cache directory is relative and does not exist.
    PathResolution,
    /// The source directory has no parent to hold the built artifacts.
    SourceDirectory,
    /// The file system refused a change.
    FileSystem(FileTask),
    /// The command of the stage could not be started.
    ProcessSpawn(Stage),
    /// The output or the exit status of the command could not be read.
    ProcessIo(Stage),
    /// The command ran and reported failure.
    NonZeroExit(Stage),
    /// A command that needs elevated privilege was not permitted to start.
    PrivilegeDenied(Stage),
    /// The reply does not answer the request that was made.
    Protocol,
}

impl PipelineError {
    /// The stage whose command failed, for a failure of a command.
    pub open spec fn stage_of(self) -> Option<Stage> {
        match self {
            PipelineError::ProcessSpawn(stage) => Some(stage),
            PipelineError::ProcessIo(stage) => Some(stage),
            PipelineError::NonZeroExit(stage) => Some(stage),
            PipelineError::PrivilegeDenied(stage) => Some(stage),
            _ => None,
        }
    }

    /// The stage whose command failed, for a failure of a command.
    pub fn stage(&self) -> (stage: Option<Stage>)
        ensures
            stage == self.stage_of(),
    {
        match self {
            PipelineError::ProcessSpawn(stage) => Some(*stage),
            PipelineError::ProcessIo(stage) => Some(*stage),
            PipelineError::NonZeroExit(stage) => Some(*stage),
            PipelineError::PrivilegeDenied(stage) => Some(*stage),
            _ => None,
        }
    }
}

/// How the run of a command ended.
#[derive(Clone, Copy, Debug, PartialEq, Eq, Structural)]
pub enum ProcessOutcome {
    /// It ran and exited with status zero.
    Success,
    /// It ran and exited with another status, or was killed.
    NonZeroExit,
    /// It could not be started.
    SpawnFailed { permission_denied: bool },
    /// It was started, but its output or its exit status could not be read.
    IoFailed,
}

/// A command to run: the program, its arguments in order, the directory
/// to run it in (the caller's own where none is given), and whether it
/// asks for elevated privilege and so may prompt for credentials.
#[derive(Clone, Debug, PartialEq, Eq)]
pub struct Invocation {
    pub program: String,
    pub args: Vec<String>,
    pub working_dir: Option<String>,
    pub elevated: bool,
}

pub struct InvocationView {
    pub program: Seq<char>,
    pub args: Seq<Seq<char>>,
    pub working_dir: Option<Seq<char>>,
    pub elevated: bool,
}

impl View for Invocation {
    type V = InvocationView;

    open spec fn view(&self) -> InvocationView {
        InvocationView {
            program: self.program@,
            args: lines(self.args@),
            working_dir: match self.working_dir {
                Some(dir) => Some(dir@),
                None => None,
            },
            elevated: self.elevated,
        }
    }
}

/// The failure that `outcome` is when the command could not even be
/// started or observed; `None` when it ran to an exit status.
pub open spec fn launch_failure(stage: Stage, elevated: bool, outcome: ProcessOutcome) -> Option<
    PipelineError,
> {
    match outcome {
        ProcessOutcome::SpawnFailed { permission_denied } => if elevated && permission_denied {
            Some(PipelineError::PrivilegeDenied(stage))
        } else {
            Some(PipelineError::ProcessSpawn(stage))
        },
        ProcessOutcome::IoFailed => Some(PipelineError::ProcessIo(stage)),
        ProcessOutcome::Success | ProcessOutcome::NonZeroExit => None,
    }
}

/// What `outcome` means for a stage that must succeed: only exit status
/// zero is success, and every failure carries the stage.
pub open spec fn process_result(stage: Stage, elevated: bool, outcome: ProcessOutcome) -> Result<
    (),
    PipelineError,
> {
    match launch_failure(stage, elevated, outcome) {
        Some(error) => Err(error),
        None => if outcome is Success {
            Ok(())
        } else {
            Err(PipelineError::NonZeroExit(stage))
        },
    }
}

/// What `outcome` means in an environment that does not look at how its
/// commands exit: the command fails only where it could not be started or
/// observed.
pub open spec fn launch_result(stage: Stage, elevated: bool, outcome: ProcessOutcome) -> Result<
    (),
    PipelineError,
> {
    match launch_failure(stage, elevated, outcome) {
        Some(error) => Err(error),
        None => Ok(()),
    }
}

fn launch_error(stage: Stage, elevated: bool, outcome: ProcessOutcome) -> (failure: Option<
    PipelineError,
>)
    ensures
        failure == launch_failure(stage, elevated, outcome),
{
    match outcome {
        ProcessOutcome::SpawnFailed { permission_denied } => {
            if elevated && permission_denied {
                Some(PipelineError::PrivilegeDenied(stage))
            } else {
                Some(PipelineError::ProcessSpawn(stage))
            }
        },
        ProcessOutcome::IoFailed => Some(PipelineError::ProcessIo(stage)),
        ProcessOutcome::Success => None,
        ProcessOutcome::NonZeroExit => None,
    }
}

/// Judges the run of a command that must succeed.
pub fn judge_process(stage: Stage, elevated: bool, outcome: ProcessOutcome) -> (result: Result<
    (),
    PipelineError,
>)
    ensures
        result == process_result(stage, elevated, outcome),
{
    match launch_error(stage, elevated, outcome) {
        Some(error) => Err(error),
        None => match outcome {
            ProcessOutcome::Success => Ok(()),
            _ => Err(PipelineError::NonZeroExit(stage)),
        },
    }
}

/// Judges the run of a command for an environment that does not look at
/// how its commands exit.
pub fn judge_launch(stage: Stage, elevated: bool, outcome: ProcessOutcome) -> (result: Result<
    (),
    PipelineError,
>)
    ensures
        result == launch_result(stage, elevated, outcome),
{
    match launch_error(stage, elevated, outcome) {
        Some(error) => Err(error),
        None => Ok(()),
    }
}

} // verus!
