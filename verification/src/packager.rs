//! Choosing who packages for a release, and what every build environment
//! can be asked to do.

use crate::machine::{Progress, ProgressView, Reply, ReplyView, Step, StepView};
use crate::pkg_config::{PkgConfig, PkgConfigView};
use crate::process::PipelineError;
use crate::text::owned;
use vstd::prelude::*;

verus! {

/// A build environment: it can be cleaned, created, and built in.
///
/// Each of the three methods gives the first turn of its operation, and
/// `advance` gives every later one.  What the first turn can be is for
/// the environment to say; it may depend on the machine it runs on.  What
/// follows a reply depends on nothing but the state and the reply.
pub trait BackendBuildEnv {
    /// Whether `step` can be the first turn of cleaning.
    spec fn begins_clean(&self, step: StepView) -> bool;

    /// Whether `step` can be the first turn of creating.
    spec fn begins_create(&self, step: StepView) -> bool;

    /// Whether `step` can be the first turn of building.
    spec fn begins_build(&self, step: StepView) -> bool;

    /// The turn that follows `reply` where the operation stands at
    /// `progress`.
    spec fn next(&self, progress: ProgressView, reply: ReplyView) -> StepView;

    /// The first turn of removing what the environment has cached.
    fn clean(&self) -> (step: Step)
        ensures
            self.begins_clean(step@),
    ;

    /// The first turn of creating the environment afresh.
    fn create(&self) -> (step: Step)
        ensures
            self.begins_create(step@),
    ;

    /// The first turn of building the package in the environment.
    fn build(&self) -> (step: Step)
        ensures
            self.begins_build(step@),
    ;

    /// The turn that follows `reply`.
    fn advance(&self, progress: Progress, reply: Reply) -> (step: Step)
        ensures
            step@ == self.next(progress@, reply@),
    ;
}

/// A distribution release that packages can be made for.
#[derive(Clone, Copy, Debug, PartialEq, Eq, Structural)]
pub enum Distribution {
    Bookworm,
}

/// What is asked of a distribution's packager.
#[derive(Clone, Copy, Debug, PartialEq, Eq, Structural)]
pub enum Operation {
    Package,
    CleanBuildEnv,
    CreateBuildEnv,
}

/// An operation, handed to the packager of the distribution that the
/// configuration names.
#[derive(Clone, Copy, Debug, PartialEq, Eq, Structural)]
pub struct Dispatch {
    pub distribution: Distribution,
    pub operation: Operation,
}

/// The distribution that `codename` names.  Debian 12 goes by its
/// codename and by its number; no other release has a packager.
pub open spec fn distribution_of(codename: Seq<char>) -> Option<Distribution> {
    if codename == "bookworm"@ || codename == "debian 12"@ {
        Some(Distribution::Bookworm)
    } else {
        None
    }
}

/// Where `operation` goes for `codename`: to the packager of its
/// distribution, or nowhere.
pub open spec fn dispatch(codename: Seq<char>, operation: Operation) -> Result<
    Dispatch,
    PipelineError,
> {
    match distribution_of(codename) {
        Some(distribution) => Ok((Dispatch { distribution, operation })),
        None => Err(PipelineError::Configuration),
    }
}

/// Picks the packager for the release that a configuration names.
#[derive(Clone, Debug, PartialEq, Eq)]
pub struct DistributionPackager {
    config: PkgConfig,
    config_root: String,
}

pub struct DistributionPackagerView {
    pub config: PkgConfigView,
    pub config_root: Seq<char>,
}

impl View for DistributionPackager {
    type V = DistributionPackagerView;

    closed spec fn view(&self) -> DistributionPackagerView {
        DistributionPackagerView { config: self.config@, config_root: self.config_root@ }
    }
}

impl DistributionPackager {
    /// A packager for `config`, which was read from the directory
    /// `config_root`.
    pub fn new(config: PkgConfig, config_root: String) -> (packager: Self)
        ensures
            packager@ == (DistributionPackagerView {
                config: config@,
                config_root: config_root@,
            }),
    {
        DistributionPackager { config, config_root }
    }

    /// The configuration that the packager was made with.
    pub fn config(&self) -> (config: &PkgConfig)
        ensures
            config@ == self@.config,
    {
        &self.config
    }

    /// The directory that the configuration was read from.
    pub fn config_root(&self) -> (root: &String)
        ensures
            root@ == self@.config_root,
    {
        &self.config_root
    }

    fn distribution(&self) -> (distribution: Option<Distribution>)
        ensures
            distribution == distribution_of(self@.config.build_env.codename),
    {
        let codename = &self.config.build_env.codename;
        let bookworm = owned("bookworm");
        let debian_12 = owned("debian 12");
        if *codename == bookworm || *codename == debian_12 {
            Some(Distribution::Bookworm)
        } else {
            None
        }
    }

    fn dispatch(&self, operation: Operation) -> (to: Result<Dispatch, PipelineError>)
        ensures
            to == dispatch(self@.config.build_env.codename, operation),
    {
        match self.distribution() {
            Some(distribution) => Ok(Dispatch { distribution, operation }),
            None => Err(PipelineError::Configuration),
        }
    }

    /// Hands the packaging to the packager of the release, or turns the
    /// release down.
    pub fn package(&self) -> (to: Result<Dispatch, PipelineError>)
        ensures
            to == dispatch(self@.config.build_env.codename, Operation::Package),
    {
        self.dispatch(Operation::Package)
    }

    /// Hands the cleaning of the build environment to the packager of the
    /// release, or turns the release down.
    pub fn clean_build_env(&self) -> (to: Result<Dispatch, PipelineError>)
        ensures
            to == dispatch(self@.config.build_env.codename, Operation::CleanBuildEnv),
    {
        self.dispatch(Operation::CleanBuildEnv)
    }

    /// Hands the creation of the build environment to the packager of
    /// the release, or turns the release down.
    pub fn create_build_env(&self) -> (to: Result<Dispatch, PipelineError>)
        ensures
            to == dispatch(self@.config.build_env.codename, Operation::CreateBuildEnv),
    {
        self.dispatch(Operation::CreateBuildEnv)
    }
}

} // verus!
