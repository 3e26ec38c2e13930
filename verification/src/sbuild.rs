//! The build environment that keeps its chroot as a tarball and builds
//! with `sbuild`.

use crate::artifacts::{
    make_cache_file_name, make_changes_file_name, make_deb_file_name, make_image_file_name,
    make_temp_dir_name,
};
use crate::commands::{
    is_supported_codename, make_build_invocation, make_chroot_invocation, make_image_invocation,
    make_install_test_invocation, make_regression_test_invocation,
};
use crate::machine::{
    ask_for, begin, finish_with, remove_file_or_directory, Phase, Progress, ProgressView, Reply,
    ReplyView, Request, Step, StepView,
};
use crate::packager::BackendBuildEnv;
use crate::pipeline;
use crate::pipeline::{CacheDirKind, SbuildView};
use crate::pkg_config::{LanguageEnv, PkgConfig};
use crate::platform::{expand_tilde, join_path, parent_path, random_u32};
use crate::process::{judge_process, FileTask, PipelineError, Stage};
use crate::provisioning::{
    build_deps, build_steps, package_build_deps, package_build_steps, package_test_deps,
    package_test_steps, test_deps, test_steps,
};
use crate::text::{begins_with, lines, owned};
use vstd::prelude::*;

verus! {

/// A build environment for one package.
#[derive(Clone, Debug, PartialEq, Eq)]
pub struct Sbuild {
    config: PkgConfig,
    build_files_dir: String,
    cache_dir: String,
}

impl View for Sbuild {
    type V = SbuildView;

    closed spec fn view(&self) -> SbuildView {
        SbuildView {
            config: self.config@,
            build_files_dir: self.build_files_dir@,
            cache_dir: self.cache_dir@,
        }
    }
}

/// The view of a path that may be missing.
pub open spec fn path_view(path: Option<String>) -> Option<Seq<char>> {
    match path {
        Some(p) => Some(p@),
        None => None,
    }
}

/// The view of a path that may have failed to resolve.
pub open spec fn resolved_view(path: Result<String, PipelineError>) -> Result<
    Seq<char>,
    PipelineError,
> {
    match path {
        Ok(p) => Ok(p@),
        Err(error) => Err(error),
    }
}

impl Sbuild {
    /// A build environment for the package of `config`, whose source is
    /// unpacked in `build_files_dir`.  Chroots are cached where the
    /// configuration says, and in `~/.cache/sbuild` where it says nothing.
    pub fn new(config: PkgConfig, build_files_dir: String) -> (env: Sbuild)
        ensures
            env@ == (SbuildView {
                config: config@,
                build_files_dir: build_files_dir@,
                cache_dir: match config@.build_env.sbuild_cache_dir {
                    Some(dir) => dir,
                    None => pipeline::default_cache_dir(),
                },
            }),
    {
        let cache_dir = match &config.build_env.sbuild_cache_dir {
            Some(dir) => dir.clone(),
            None => owned("~/.cache/sbuild"),
        };
        Sbuild { config, build_files_dir, cache_dir }
    }

    /// The steps that provision `lang_env` before a build.
    pub fn get_build_deps_based_on_langenv(&self, lang_env: &LanguageEnv) -> (steps: Vec<String>)
        ensures
            lines(steps@) == build_steps(lang_env@),
    {
        build_deps(lang_env)
    }

    /// The steps that provision the package's toolchain before a build.
    pub fn get_build_deps_not_in_debian(&self) -> (steps: Vec<String>)
        ensures
            lines(steps@) == package_build_steps(self@.config.package_type),
    {
        package_build_deps(&self.config.package_type)
    }

    /// The steps that provision `lang_env` before a test.
    pub fn get_test_deps_based_on_langenv(&self, lang_env: &LanguageEnv) -> (steps: Vec<String>)
        ensures
            lines(steps@) == test_steps(lang_env@),
    {
        test_deps(lang_env)
    }

    /// The steps that provision the package's toolchain before a test.
    pub fn get_test_deps_not_in_debian(&self) -> (steps: Vec<String>)
        ensures
            lines(steps@) == package_test_steps(self@.config.package_type),
    {
        package_test_deps(&self.config.package_type)
    }

    /// How the cache directory is written.
    pub fn cache_dir_kind(&self) -> (kind: CacheDirKind)
        ensures
            kind == pipeline::cache_dir_kind(self@.cache_dir),
    {
        if begins_with(self.cache_dir.as_str(), '~') {
            CacheDirKind::Home
        } else if begins_with(self.cache_dir.as_str(), '/') {
            CacheDirKind::Absolute
        } else {
            CacheDirKind::Relative
        }
    }

    /// The cache directory with a leading `~` expanded to the home
    /// directory of whoever runs the program.
    pub fn expand_cache_dir(&self) -> (dir: String)
        ensures
            pipeline::expands_to(self@.cache_dir, dir@),
    {
        match self.cache_dir_kind() {
            CacheDirKind::Home => expand_tilde(self.cache_dir.as_str()),
            _ => self.cache_dir.clone(),
        }
    }

    /// The cached chroot inside the cache directory `dir`.
    pub fn cache_file_in(&self, dir: &str) -> (file: String)
        ensures
            file@ == pipeline::cache_file_in(self@.config, dir@),
    {
        let name = make_cache_file_name(
            self.config.build_env.codename.as_str(),
            self.config.build_env.arch.as_str(),
        );
        join_path(dir, name.as_str())
    }

    /// The cached chroot.
    ///
    /// A cache directory below the home directory is expanded, an
    /// absolute one is taken as it is.  A relative one cannot be resolved
    /// without looking at the file system: `canonical_dir` is what
    /// resolving it against the working directory gave, and `None` where
    /// the directory does not exist.  It is looked at in that case only.
    pub fn get_cache_file(&self, canonical_dir: Option<&str>) -> (file: Result<
        String,
        PipelineError,
    >)
        ensures
            match pipeline::cache_dir_kind(self@.cache_dir) {
                CacheDirKind::Home => exists|dir: Seq<char>|
                    pipeline::expands_to(self@.cache_dir, dir) && resolved_view(file) == Ok::<
                        Seq<char>,
                        PipelineError,
                    >(#[trigger] pipeline::cache_file_in(self@.config, dir)),
                CacheDirKind::Absolute => resolved_view(file) == Ok::<Seq<char>, PipelineError>(
                    pipeline::cache_file_in(self@.config, self@.cache_dir),
                ),
                CacheDirKind::Relative => match canonical_dir {
                    Some(dir) => resolved_view(file) == Ok::<Seq<char>, PipelineError>(
                        pipeline::cache_file_in(self@.config, dir@),
                    ),
                    None => file == Err::<String, PipelineError>(PipelineError::PathResolution),
                },
            },
    {
        match self.cache_dir_kind() {
            CacheDirKind::Relative => match canonical_dir {
                Some(dir) => Ok(self.cache_file_in(dir)),
                None => Err(PipelineError::PathResolution),
            },
            _ => {
                let dir = self.expand_cache_dir();
                Ok(self.cache_file_in(dir.as_str()))
            },
        }
    }

    /// The directory that receives the built artifacts: the parent of the
    /// source directory.  `None` where the source directory has no parent.
    pub fn get_deb_dir(&self) -> (dir: Option<String>)
        ensures
            path_view(dir) == pipeline::deb_dir(self@),
    {
        parent_path(self.build_files_dir.as_str())
    }

    /// The binary package that the build leaves behind.  `None` where
    /// the source directory has no parent.
    pub fn get_deb_name(&self) -> (file: Option<String>)
        ensures
            path_view(file) == pipeline::deb_file(self@),
    {
        match self.get_deb_dir() {
            Some(dir) => Some(self.deb_file_in(dir.as_str())),
            None => None,
        }
    }

    /// The changes file that the build leaves behind.  `None` where the
    /// source directory has no parent.
    pub fn get_changes_file(&self) -> (file: Option<String>)
        ensures
            path_view(file) == pipeline::changes_file(self@),
    {
        match self.get_deb_dir() {
            Some(dir) => Some(self.changes_file_in(dir.as_str())),
            None => None,
        }
    }

    /// The test image of the release inside the expanded cache directory.
    pub fn image_path_in(&self, cache_dir: &str) -> (path: String)
        ensures
            path@ == pipeline::image_path(self@.config, cache_dir@),
    {
        let name = make_image_file_name(self.config.build_env.codename.as_str());
        join_path(cache_dir, name.as_str())
    }

    fn deb_file_in(&self, dir: &str) -> (file: String)
        ensures
            file@ == pipeline::deb_file_in(self@.config, dir@),
    {
        let name = make_deb_file_name(
            &self.config.package_fields,
            self.config.build_env.arch.as_str(),
        );
        join_path(dir, name.as_str())
    }

    fn changes_file_in(&self, dir: &str) -> (file: String)
        ensures
            file@ == pipeline::changes_file_in(self@.config, dir@),
    {
        let name = make_changes_file_name(
            &self.config.package_fields,
            self.config.build_env.arch.as_str(),
        );
        join_path(dir, name.as_str())
    }
}

impl Sbuild {
    fn clean_probe(&self, progress: Progress, dir: &str) -> (step: Step)
        ensures
            step@ == pipeline::clean_probe(self@, progress@, dir@),
    {
        let file = self.cache_file_in(dir);
        let request = Request::Probe { path: file.clone() };
        ask_for(Progress { cache_file: file, ..progress }, Phase::CleanProbe, request)
    }

    /// The first turn of cleaning, with the cache directory expanded to
    /// `expanded`.
    pub fn clean_from(&self, expanded: String) -> (step: Step)
        ensures
            step@ == pipeline::clean_begin(self@, expanded@),
    {
        match self.cache_dir_kind() {
            CacheDirKind::Relative => {
                let request = Request::Canonicalize { dir: self.cache_dir.clone() };
                ask_for(begin(expanded), Phase::CleanResolve, request)
            },
            _ => {
                let dir = expanded.clone();
                self.clean_probe(begin(expanded), dir.as_str())
            },
        }
    }

    /// The first turn of creating, with the cache directory expanded to
    /// `expanded` and `nonce` to tell this scratch directory from others.
    pub fn create_from(&self, expanded: String, nonce: u32) -> (step: Step)
        ensures
            step@ == pipeline::create_begin(self@, expanded@, nonce),
    {
        let request = Request::CreateTempDir { name: make_temp_dir_name(nonce) };
        ask_for(begin(expanded), Phase::CreateTemp, request)
    }

    fn create_cache_dir(&self, progress: Progress, dir: &str) -> (step: Step)
        ensures
            step@ == pipeline::create_cache_dir(self@, progress@, dir@),
    {
        let file = self.cache_file_in(dir);
        match parent_path(file.as_str()) {
            Some(parent) => ask_for(
                Progress { cache_file: file, ..progress },
                Phase::CreateCacheDir,
                Request::CreateDirAll { path: parent },
            ),
            None => finish_with(progress, Err(PipelineError::PathResolution)),
        }
    }

    fn create_resolve(&self, progress: Progress) -> (step: Step)
        ensures
            step@ == pipeline::create_resolve(self@, progress@),
    {
        match self.cache_dir_kind() {
            CacheDirKind::Relative => {
                let request = Request::Canonicalize { dir: self.cache_dir.clone() };
                ask_for(progress, Phase::CreateResolve, request)
            },
            _ => {
                let dir = progress.cache_dir.clone();
                self.create_cache_dir(progress, dir.as_str())
            },
        }
    }

    fn create_chroot(&self, progress: Progress) -> (step: Step)
        ensures
            step@ == pipeline::create_chroot(self@, progress@),
    {
        if is_supported_codename(&self.config.build_env.codename) {
            let invocation = make_chroot_invocation(
                self.config.build_env.codename.as_str(),
                progress.cache_file.as_str(),
                progress.temp_dir.as_str(),
            );
            ask_for(progress, Phase::CreateChroot, Request::Spawn { invocation })
        } else {
            finish_with(progress, Err(PipelineError::Configuration))
        }
    }

    fn build_in(&self, progress: Progress, dir: &str) -> (step: Step)
        ensures
            step@ == pipeline::build(self@, progress@, dir@),
    {
        let file = self.cache_file_in(dir);
        let invocation = make_build_invocation(
            &self.config,
            self.build_files_dir.as_str(),
            file.as_str(),
        );
        ask_for(
            Progress { cache_file: file, ..progress },
            Phase::Build,
            Request::Spawn { invocation },
        )
    }

    /// The first turn of packaging, with the cache directory expanded to
    /// `expanded`.
    pub fn package_from(&self, expanded: String) -> (step: Step)
        ensures
            step@ == pipeline::package_begin(self@, expanded@),
    {
        if !is_supported_codename(&self.config.build_env.codename) {
            return finish_with(begin(expanded), Err(PipelineError::Configuration));
        }
        match self.cache_dir_kind() {
            CacheDirKind::Relative => {
                let request = Request::Canonicalize { dir: self.cache_dir.clone() };
                ask_for(begin(expanded), Phase::BuildResolve, request)
            },
            _ => {
                let dir = expanded.clone();
                self.build_in(begin(expanded), dir.as_str())
            },
        }
    }

    /// The turn that runs the install test.
    fn run_piuparts(&self, progress: Progress) -> (step: Step)
        ensures
            step@ == pipeline::install_test(self@, progress@),
    {
        match self.get_deb_dir() {
            Some(dir) => {
                let file = self.deb_file_in(dir.as_str());
                let invocation = make_install_test_invocation(
                    &self.config,
                    dir.as_str(),
                    file.as_str(),
                );
                ask_for(progress, Phase::InstallTest, Request::Spawn { invocation })
            },
            None => finish_with(progress, Err(PipelineError::SourceDirectory)),
        }
    }

    /// The turn that starts on the regression test: it looks for the
    /// test image.
    fn run_autopkgtests(&self, progress: Progress) -> (step: Step)
        ensures
            step@ == pipeline::image_probe(self@, progress@),
    {
        match self.get_deb_dir() {
            Some(_) => {
                let path = self.image_path_in(progress.cache_dir.as_str());
                ask_for(progress, Phase::ImageProbe, Request::Probe { path })
            },
            None => finish_with(progress, Err(PipelineError::SourceDirectory)),
        }
    }

    /// The turn that creates the test image unless it is there already,
    /// and runs the regression test if it is.
    fn create_autopkgtest_image(&self, progress: Progress, present: bool) -> (step: Step)
        ensures
            step@ == pipeline::after_image_probe(self@, progress@, present),
    {
        if present {
            return self.regression_test(progress);
        }
        let path = self.image_path_in(progress.cache_dir.as_str());
        let invocation = make_image_invocation(
            self.config.build_env.codename.as_str(),
            path.as_str(),
        );
        ask_for(progress, Phase::ImageBuild, Request::Spawn { invocation })
    }

    fn regression_test(&self, progress: Progress) -> (step: Step)
        ensures
            step@ == pipeline::regression_test(self@, progress@),
    {
        match self.get_deb_dir() {
            Some(dir) => {
                let changes = self.changes_file_in(dir.as_str());
                let image = self.image_path_in(progress.cache_dir.as_str());
                let invocation = make_regression_test_invocation(
                    &self.config,
                    dir.as_str(),
                    changes.as_str(),
                    image.as_str(),
                );
                ask_for(progress, Phase::RegressionTest, Request::Spawn { invocation })
            },
            None => finish_with(progress, Err(PipelineError::SourceDirectory)),
        }
    }

    fn after_install_test(&self, progress: Progress) -> (step: Step)
        ensures
            step@ == pipeline::after_install_test(self@, progress@),
    {
        match self.config.build_env.run_autopkgtest {
            Some(true) => self.run_autopkgtests(progress),
            _ => finish_with(progress, Ok(())),
        }
    }

    fn after_build(&self, progress: Progress) -> (step: Step)
        ensures
            step@ == pipeline::after_build(self@, progress@),
    {
        match self.config.build_env.run_piuparts {
            Some(true) => self.run_piuparts(progress),
            _ => self.after_install_test(progress),
        }
    }
}

impl Sbuild {
    /// The first turn of packaging: the build, then the tests that the
    /// configuration asks for.
    pub fn package(&self) -> (step: Step)
        ensures
            exists|expanded: Seq<char>|
                pipeline::expands_to(self@.cache_dir, expanded) && step@
                    == #[trigger] pipeline::package_begin(self@, expanded),
    {
        let expanded = self.expand_cache_dir();
        self.package_from(expanded)
    }
}

impl BackendBuildEnv for Sbuild {
    /// Cleaning starts from the cache directory, with a leading `~`
    /// expanded in whatever way the system expands it.
    open spec fn begins_clean(&self, step: StepView) -> bool {
        exists|expanded: Seq<char>|
            pipeline::expands_to(self@.cache_dir, expanded) && step
                == #[trigger] pipeline::clean_begin(self@, expanded)
    }

    /// Creating starts from the expanded cache directory and from a
    /// number drawn at random.
    open spec fn begins_create(&self, step: StepView) -> bool {
        exists|expanded: Seq<char>, nonce: u32|
            pipeline::expands_to(self@.cache_dir, expanded) && step
                == #[trigger] pipeline::create_begin(self@, expanded, nonce)
    }

    /// Building starts from the expanded cache directory.
    open spec fn begins_build(&self, step: StepView) -> bool {
        exists|expanded: Seq<char>|
            pipeline::expands_to(self@.cache_dir, expanded) && step
                == #[trigger] pipeline::package_begin(self@, expanded)
    }

    open spec fn next(&self, progress: ProgressView, reply: ReplyView) -> StepView {
        pipeline::advance(self@, progress, reply)
    }

    /// The first turn of removing the cached chroot.
    fn clean(&self) -> (step: Step) {
        let expanded = self.expand_cache_dir();
        self.clean_from(expanded)
    }

    /// The first turn of creating the cached chroot.
    fn create(&self) -> (step: Step) {
        let expanded = self.expand_cache_dir();
        let nonce = random_u32();
        self.create_from(expanded, nonce)
    }

    /// The first turn of packaging.
    fn build(&self) -> (step: Step) {
        self.package()
    }

    /// The turn that follows `reply`.
    fn advance(&self, progress: Progress, reply: Reply) -> (step: Step) {
        match progress.phase {
            Phase::CleanResolve => match reply {
                Reply::Located { path: Some(dir) } => self.clean_probe(progress, dir.as_str()),
                Reply::Located { path: None } => finish_with(
                    progress,
                    Err(PipelineError::PathResolution),
                ),
                _ => finish_with(progress, Err(PipelineError::Protocol)),
            },
            Phase::CleanProbe => match reply {
                Reply::Present { present } => {
                    if present {
                        let request = remove_file_or_directory(progress.cache_file.clone(), false);
                        ask_for(progress, Phase::CleanRemove, request)
                    } else {
                        finish_with(progress, Ok(()))
                    }
                },
                _ => finish_with(progress, Err(PipelineError::Protocol)),
            },
            Phase::CleanRemove => match reply {
                Reply::Performed { ok } => {
                    if ok {
                        finish_with(progress, Ok(()))
                    } else {
                        finish_with(
                            progress,
                            Err(PipelineError::FileSystem(FileTask::RemoveCacheFile)),
                        )
                    }
                },
                _ => finish_with(progress, Err(PipelineError::Protocol)),
            },
            Phase::CreateTemp => match reply {
                Reply::Located { path: Some(dir) } => self.create_resolve(
                    Progress { temp_dir: dir, ..progress },
                ),
                Reply::Located { path: None } => finish_with(
                    progress,
                    Err(PipelineError::FileSystem(FileTask::CreateTempDir)),
                ),
                _ => finish_with(progress, Err(PipelineError::Protocol)),
            },
            Phase::CreateResolve => match reply {
                Reply::Located { path: Some(dir) } => self.create_cache_dir(
                    progress,
                    dir.as_str(),
                ),
                Reply::Located { path: None } => finish_with(
                    progress,
                    Err(PipelineError::PathResolution),
                ),
                _ => finish_with(progress, Err(PipelineError::Protocol)),
            },
            Phase::CreateCacheDir => match reply {
                Reply::Performed { ok } => {
                    if ok {
                        self.create_chroot(progress)
                    } else {
                        finish_with(
                            progress,
                            Err(PipelineError::FileSystem(FileTask::CreateCacheDir)),
                        )
                    }
                },
                _ => finish_with(progress, Err(PipelineError::Protocol)),
            },
            Phase::CreateChroot => match reply {
                Reply::Exited { outcome } => finish_with(
                    progress,
                    judge_process(Stage::Create, false, outcome),
                ),
                _ => finish_with(progress, Err(PipelineError::Protocol)),
            },
            Phase::BuildResolve => match reply {
                Reply::Located { path: Some(dir) } => self.build_in(progress, dir.as_str()),
                Reply::Located { path: None } => finish_with(
                    progress,
                    Err(PipelineError::PathResolution),
                ),
                _ => finish_with(progress, Err(PipelineError::Protocol)),
            },
            Phase::Build => match reply {
                Reply::Exited { outcome } => match judge_process(Stage::Build, false, outcome) {
                    Ok(_) => self.after_build(progress),
                    Err(error) => finish_with(progress, Err(error)),
                },
                _ => finish_with(progress, Err(PipelineError::Protocol)),
            },
            Phase::InstallTest => match reply {
                Reply::Exited { outcome } => match judge_process(
                    Stage::InstallTest,
                    true,
                    outcome,
                ) {
                    Ok(_) => self.after_install_test(progress),
                    Err(error) => finish_with(progress, Err(error)),
                },
                _ => finish_with(progress, Err(PipelineError::Protocol)),
            },
            Phase::ImageProbe => match reply {
                Reply::Present { present } => self.create_autopkgtest_image(progress, present),
                _ => finish_with(progress, Err(PipelineError::Protocol)),
            },
            Phase::ImageBuild => match reply {
                Reply::Exited { outcome } => match judge_process(
                    Stage::RegressionTest,
                    true,
                    outcome,
                ) {
                    Ok(_) => self.regression_test(progress),
                    Err(error) => finish_with(progress, Err(error)),
                },
                _ => finish_with(progress, Err(PipelineError::Protocol)),
            },
            Phase::RegressionTest => match reply {
                Reply::Exited { outcome } => finish_with(
                    progress,
                    judge_process(Stage::RegressionTest, false, outcome),
                ),
                _ => finish_with(progress, Err(PipelineError::Protocol)),
            },
            Phase::Launch { .. } => finish_with(progress, Err(PipelineError::Protocol)),
            Phase::Finished => finish_with(progress, Err(PipelineError::Protocol)),
        }
    }
}

} // verus!
