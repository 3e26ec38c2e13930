//! The build environment that keeps its chroot as a directory under
//! `/srv/chroot`, registered with `schroot`.  It knows one command for
//! each operation and does not look at how the command exits.

use crate::commands::mirror;
use crate::machine::{
    ask, ask_for, begin, finish, finish_with, outset, Phase, Progress, ProgressView, Reply,
    ReplyView, Request, RequestView, Step, StepView,
};
use crate::packager::BackendBuildEnv;
use crate::process::{
    judge_launch, launch_result, Invocation, InvocationView, PipelineError, Stage,
};
use crate::text::{concat2, concat3, lines, no_lines, owned, push_line};
use vstd::prelude::*;
use vstd::string::*;

verus! {

/// The release and the architecture that a chroot is made for.
#[derive(Clone, Debug, PartialEq, Eq)]
pub struct BuildConfig {
    codename: String,
    arch: String,
}

pub struct BuildConfigView {
    pub codename: Seq<char>,
    pub arch: Seq<char>,
}

impl View for BuildConfig {
    type V = BuildConfigView;

    closed spec fn view(&self) -> BuildConfigView {
        BuildConfigView { codename: self.codename@, arch: self.arch@ }
    }
}

impl BuildConfig {
    pub fn new(codename: String, arch: String) -> (config: BuildConfig)
        ensures
            config@ == (BuildConfigView { codename: codename@, arch: arch@ }),
    {
        BuildConfig { codename, arch }
    }

    pub fn codename(&self) -> (codename: &String)
        ensures
            codename@ == self@.codename,
    {
        &self.codename
    }

    pub fn arch(&self) -> (arch: &String)
        ensures
            arch@ == self@.arch,
    {
        &self.arch
    }
}

/// `<codename>-<arch>-zig`, the name of the chroot.
pub open spec fn build_name(config: BuildConfigView) -> Seq<char> {
    config.codename + "-"@ + config.arch + "-zig"@
}

/// Removes every trace of the chroot, as root.
pub open spec fn clean_invocation(config: BuildConfigView) -> InvocationView {
    InvocationView {
        program: "sudo"@,
        args: seq![
            "rm"@,
            "-rf"@,
            "/etc/sbuild/chroot/"@ + build_name(config),
            "-rf"@,
            "/etc/schroot/chroot.d/"@ + build_name(config) + "*"@,
            "-rf"@,
            "/srv/chroot/"@ + build_name(config),
        ],
        working_dir: None,
        elevated: true,
    }
}

/// Creates the chroot from the mirror, as root.
pub open spec fn create_invocation(config: BuildConfigView) -> InvocationView {
    InvocationView {
        program: "sudo"@,
        args: seq![
            "sbuild-createchroot"@,
            "--merged-usr"@,
            "--chroot-prefix"@,
            build_name(config),
            config.codename,
            "/srv/chroot/"@ + build_name(config),
            mirror(),
        ],
        working_dir: None,
        elevated: true,
    }
}

/// Builds in the chroot.
pub open spec fn build_invocation(config: BuildConfigView) -> InvocationView {
    InvocationView {
        program: "sbuild"@,
        args: seq!["-c"@, build_name(config), config.codename],
        working_dir: None,
        elevated: false,
    }
}

/// The only turn that asks for anything: run the one command of `stage`.
pub open spec fn launch(stage: Stage, invocation: InvocationView) -> StepView {
    ask(
        outset(Seq::empty()),
        Phase::Launch { stage, elevated: invocation.elevated },
        RequestView::Spawn { invocation },
    )
}

/// The turn that follows `reply`: the end, in every case.
pub open spec fn conclude(progress: ProgressView, reply: ReplyView) -> StepView {
    match (progress.phase, reply) {
        (Phase::Launch { stage, elevated }, ReplyView::Exited { outcome }) => finish(
            progress,
            launch_result(stage, elevated, outcome),
        ),
        _ => finish(progress, Err(PipelineError::Protocol)),
    }
}

/// A build environment for one release and architecture.
#[derive(Clone, Debug, PartialEq, Eq)]
pub struct SbuildZig {
    config: BuildConfig,
}

impl View for SbuildZig {
    type V = BuildConfigView;

    closed spec fn view(&self) -> BuildConfigView {
        self.config@
    }
}

fn launch_step(stage: Stage, invocation: Invocation) -> (step: Step)
    ensures
        step@ == launch(stage, invocation@),
{
    let elevated = invocation.elevated;
    ask_for(begin(String::new()), Phase::Launch { stage, elevated }, Request::Spawn { invocation })
}

impl SbuildZig {
    pub fn new(config: BuildConfig) -> (env: Self)
        ensures
            env@ == config@,
    {
        SbuildZig { config }
    }

    /// The name of the chroot.
    pub fn get_build_name(&self) -> (name: String)
        ensures
            name@ == build_name(self@),
    {
        let mut name = concat3(self.config.codename().as_str(), "-", self.config.arch().as_str());
        name.append("-zig");
        name
    }
}

impl BackendBuildEnv for SbuildZig {
    open spec fn begins_clean(&self, step: StepView) -> bool {
        step == launch(Stage::Clean, clean_invocation(self@))
    }

    open spec fn begins_create(&self, step: StepView) -> bool {
        step == launch(Stage::Create, create_invocation(self@))
    }

    open spec fn begins_build(&self, step: StepView) -> bool {
        step == launch(Stage::Build, build_invocation(self@))
    }

    open spec fn next(&self, progress: ProgressView, reply: ReplyView) -> StepView {
        conclude(progress, reply)
    }

    /// The only turn of cleaning that asks for anything: remove the
    /// chroot and what registers it.
    fn clean(&self) -> (step: Step) {
        let name = self.get_build_name();
        let mut args = no_lines();
        push_line(&mut args, owned("rm"));
        push_line(&mut args, owned("-rf"));
        push_line(&mut args, concat2("/etc/sbuild/chroot/", name.as_str()));
        push_line(&mut args, owned("-rf"));
        push_line(&mut args, concat3("/etc/schroot/chroot.d/", name.as_str(), "*"));
        push_line(&mut args, owned("-rf"));
        push_line(&mut args, concat2("/srv/chroot/", name.as_str()));
        assert(lines(args@) =~= clean_invocation(self@).args);
        launch_step(
            Stage::Clean,
            Invocation { program: owned("sudo"), args, working_dir: None, elevated: true },
        )
    }

    /// The only turn of creating that asks for anything: run the chroot
    /// tool.
    fn create(&self) -> (step: Step) {
        let name = self.get_build_name();
        let mut args = no_lines();
        push_line(&mut args, owned("sbuild-createchroot"));
        push_line(&mut args, owned("--merged-usr"));
        push_line(&mut args, owned("--chroot-prefix"));
        push_line(&mut args, name.clone());
        push_line(&mut args, self.config.codename().clone());
        push_line(&mut args, concat2("/srv/chroot/", name.as_str()));
        push_line(&mut args, owned("http://deb.debian.org/debian"));
        assert(lines(args@) =~= create_invocation(self@).args);
        launch_step(
            Stage::Create,
            Invocation { program: owned("sudo"), args, working_dir: None, elevated: true },
        )
    }

    /// The only turn of building that asks for anything: run the build.
    fn build(&self) -> (step: Step) {
        let mut args = no_lines();
        push_line(&mut args, owned("-c"));
        push_line(&mut args, self.get_build_name());
        push_line(&mut args, self.config.codename().clone());
        assert(lines(args@) =~= build_invocation(self@).args);
        launch_step(
            Stage::Build,
            Invocation { program: owned("sbuild"), args, working_dir: None, elevated: false },
        )
    }

    /// The turn that follows `reply`.
    fn advance(&self, progress: Progress, reply: Reply) -> (step: Step) {
        match progress.phase {
            Phase::Launch { stage, elevated } => match reply {
                Reply::Exited { outcome } => finish_with(
                    progress,
                    judge_launch(stage, elevated, outcome),
                ),
                _ => finish_with(progress, Err(PipelineError::Protocol)),
            },
            _ => finish_with(progress, Err(PipelineError::Protocol)),
        }
    }
}

} // verus!
