//! The conversation between an operation and whoever performs it.
//!
//! An operation never acts.  It hands out a [`Request`], waits for the
//! [`Reply`], and decides from the reply what to ask next, until it asks
//! for nothing more and reports how it ended.  [`Progress`] is what it
//! remembers in between.

use crate::process::{Invocation, InvocationView, PipelineError, ProcessOutcome, Stage};
use vstd::prelude::*;

verus! {

/// What an operation asks its caller to do.
#[derive(Debug, PartialEq, Eq)]
pub enum Request {
    /// Resolve `dir` against the working directory and make it canonical.
    /// Answered by [`Reply::Located`], with no path where `dir` does not
    /// exist.
    Canonicalize { dir: String },
    /// Create a directory called `name` in the system's directory for
    /// temporary files.  Answered by [`Reply::Located`] with its path, or
    /// with no path where it could not be created.
    CreateTempDir { name: String },
    /// Look whether anything exists at `path`.  Answered by
    /// [`Reply::Present`].
    Probe { path: String },
    /// Remove the file at `path`.  Answered by [`Reply::Performed`].
    RemoveFile { path: String },
    /// Remove the directory at `path` with all it holds.  Answered by
    /// [`Reply::Performed`].
    RemoveDir { path: String },
    /// Create the directory at `path` and every missing one above it.
    /// Answered by [`Reply::Performed`].
    CreateDirAll { path: String },
    /// Run the command, hand its output on line by line, and wait for it
    /// to exit.  Answered by [`Reply::Exited`].
    Spawn { invocation: Invocation },
    /// Nothing more: the operation has ended with `result`.
    Finished { result: Result<(), PipelineError> },
}

pub enum RequestView {
    Canonicalize { dir: Seq<char> },
    CreateTempDir { name: Seq<char> },
    Probe { path: Seq<char> },
    RemoveFile { path: Seq<char> },
    RemoveDir { path: Seq<char> },
    CreateDirAll { path: Seq<char> },
    Spawn { invocation: InvocationView },
    Finished { result: Result<(), PipelineError> },
}

impl View for Request {
    type V = RequestView;

    open spec fn view(&self) -> RequestView {
        match self {
            Request::Canonicalize { dir } => RequestView::Canonicalize { dir: dir@ },
            Request::CreateTempDir { name } => RequestView::CreateTempDir { name: name@ },
            Request::Probe { path } => RequestView::Probe { path: path@ },
            Request::RemoveFile { path } => RequestView::RemoveFile { path: path@ },
            Request::RemoveDir { path } => RequestView::RemoveDir { path: path@ },
            Request::CreateDirAll { path } => RequestView::CreateDirAll { path: path@ },
            Request::Spawn { invocation } => RequestView::Spawn { invocation: invocation@ },
            Request::Finished { result } => RequestView::Finished { result: *result },
        }
    }
}

/// What the caller found or did.
#[derive(Clone, Debug, PartialEq, Eq)]
pub enum Reply {
    Located { path: Option<String> },
    Present { present: bool },
    Performed { ok: bool },
    Exited { outcome: ProcessOutcome },
}

pub enum ReplyView {
    Located { path: Option<Seq<char>> },
    Present { present: bool },
    Performed { ok: bool },
    Exited { outcome: ProcessOutcome },
}

impl View for Reply {
    type V = ReplyView;

    open spec fn view(&self) -> ReplyView {
        match self {
            Reply::Located { path } => ReplyView::Located {
                path: match path {
                    Some(p) => Some(p@),
                    None => None,
                },
            },
            Reply::Present { present } => ReplyView::Present { present: *present },
            Reply::Performed { ok } => ReplyView::Performed { ok: *ok },
            Reply::Exited { outcome } => ReplyView::Exited { outcome: *outcome },
        }
    }
}

/// Which reply an operation is waiting for, and what for.
#[derive(Clone, Copy, Debug, PartialEq, Eq, Structural)]
pub enum Phase {
    /// Cleaning: the relative cache directory is being resolved.
    CleanResolve,
    /// Cleaning: the cached chroot is being looked for.
    CleanProbe,
    /// Cleaning: the cached chroot is being removed.
    CleanRemove,
    /// Creating: the scratch directory is being made.
    CreateTemp,
    /// Creating: the relative cache directory is being resolved.
    CreateResolve,
    /// Creating: the directory of the cached chroot is being made.
    CreateCacheDir,
    /// Creating: the chroot tool is running.
    CreateChroot,
    /// Packaging: the relative cache directory is being resolved.
    BuildResolve,
    /// Packaging: the build is running.
    Build,
    /// Packaging: the install test is running.
    InstallTest,
    /// Packaging: the test image is being looked for.
    ImageProbe,
    /// Packaging: the test image is being created.
    ImageBuild,
    /// Packaging: the regression test is running.
    RegressionTest,
    /// The one command of an operation is running, in an environment
    /// that does not look at how its commands exit.
    Launch { stage: Stage, elevated: bool },
    /// The operation has ended.
    Finished,
}

/// What an operation remembers between a request and its reply.
#[derive(Clone, Debug, PartialEq, Eq)]
pub struct Progress {
    pub phase: Phase,
    /// The cache directory, with a leading `~` expanded.
    pub cache_dir: String,
    /// The cached chroot, once its directory is resolved; empty before.
    pub cache_file: String,
    /// The scratch directory, once it is made; empty before.
    pub temp_dir: String,
}

pub struct ProgressView {
    pub phase: Phase,
    pub cache_dir: Seq<char>,
    pub cache_file: Seq<char>,
    pub temp_dir: Seq<char>,
}

impl View for Progress {
    type V = ProgressView;

    open spec fn view(&self) -> ProgressView {
        ProgressView {
            phase: self.phase,
            cache_dir: self.cache_dir@,
            cache_file: self.cache_file@,
            temp_dir: self.temp_dir@,
        }
    }
}

/// One turn of an operation: where it stands, and what it asks.
#[derive(Debug, PartialEq, Eq)]
pub struct Step {
    pub progress: Progress,
    pub request: Request,
}

pub struct StepView {
    pub progress: ProgressView,
    pub request: RequestView,
}

impl View for Step {
    type V = StepView;

    open spec fn view(&self) -> StepView {
        StepView { progress: self.progress@, request: self.request@ }
    }
}

/// Where an operation stands before its first request, with the cache
/// directory expanded to `cache_dir`.  It has asked nothing yet, so there
/// is nothing to answer: its phase is that of an operation at rest.
pub open spec fn outset(cache_dir: Seq<char>) -> ProgressView {
    ProgressView {
        phase: Phase::Finished,
        cache_dir,
        cache_file: Seq::empty(),
        temp_dir: Seq::empty(),
    }
}

/// The turn that asks `request` and waits for the reply in `phase`.
pub open spec fn ask(progress: ProgressView, phase: Phase, request: RequestView) -> StepView {
    StepView { progress: ProgressView { phase, ..progress }, request }
}

/// The turn that ends the operation with `result`.
pub open spec fn finish(progress: ProgressView, result: Result<(), PipelineError>) -> StepView {
    ask(progress, Phase::Finished, RequestView::Finished { result })
}

/// The request that removes what is at `path`: a directory with all it
/// holds, or a single file.
pub open spec fn removal(path: Seq<char>, is_directory: bool) -> RequestView {
    if is_directory {
        RequestView::RemoveDir { path }
    } else {
        RequestView::RemoveFile { path }
    }
}

/// Where an operation stands before its first request.
pub fn begin(cache_dir: String) -> (progress: Progress)
    ensures
        progress@ == outset(cache_dir@),
{
    Progress { phase: Phase::Finished, cache_dir, cache_file: String::new(), temp_dir: String::new() }
}

/// Asks `request` and waits for the reply in `phase`.
pub fn ask_for(progress: Progress, phase: Phase, request: Request) -> (step: Step)
    ensures
        step@ == ask(progress@, phase, request@),
{
    Step { progress: Progress { phase, ..progress }, request }
}

/// Ends the operation with `result`.
pub fn finish_with(progress: Progress, result: Result<(), PipelineError>) -> (step: Step)
    ensures
        step@ == finish(progress@, result),
{
    ask_for(progress, Phase::Finished, Request::Finished { result })
}

/// The request that removes what is at `path`.
pub fn remove_file_or_directory(path: String, is_directory: bool) -> (request: Request)
    ensures
        request@ == removal(path@, is_directory),
{
    if is_directory {
        Request::RemoveDir { path }
    } else {
        Request::RemoveFile { path }
    }
}

} // verus!
