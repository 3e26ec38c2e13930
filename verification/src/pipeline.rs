//! What the three operations on a cached chroot do, as mathematics.
//!
//! *Clean* removes the cached chroot if there is one.  *Create* makes a
//! fresh one, and succeeds only if the tool that makes it does.  *Package* builds the package in it and then, where the
//! configuration asks for them, tests that the package installs and
//! removes cleanly and runs the package's own tests in a virtual machine.
//! Each stage starts only after the one before it has succeeded.

use crate::artifacts::{
    cache_file_name, changes_file_name, deb_file_name, image_file_name, temp_dir_name,
};
use crate::commands::{
    build_invocation, chroot_invocation, image_invocation, install_test_invocation,
    regression_test_invocation, supported_codename,
};
use crate::machine::{ask, finish, outset, removal, Phase, ProgressView, ReplyView, RequestView, StepView};
use crate::pkg_config::PkgConfigView;
use crate::platform::{joined_path, path_parent, tilde_expansion};
use crate::process::{process_result, FileTask, PipelineError, Stage};
use crate::text::starts_with_char;
use vstd::prelude::*;

verus! {

/// A build environment: the package, the directory that holds its
/// unpacked source, and the directory that holds cached chroots.
pub struct SbuildView {
    pub config: PkgConfigView,
    pub build_files_dir: Seq<char>,
    pub cache_dir: Seq<char>,
}

/// Where chroots are cached unless the configuration says otherwise.
pub open spec fn default_cache_dir() -> Seq<char> {
    "~/.cache/sbuild"@
}

/// How a cache directory is written.
#[derive(Clone, Copy, Debug, PartialEq, Eq, Structural)]
pub enum CacheDirKind {
    /// It starts with `~`: below the home directory.
    Home,
    /// It starts with `/`.
    Absolute,
    /// Anything else: below the working directory.
    Relative,
}

pub open spec fn cache_dir_kind(dir: Seq<char>) -> CacheDirKind {
    if starts_with_char(dir, '~') {
        CacheDirKind::Home
    } else if starts_with_char(dir, '/') {
        CacheDirKind::Absolute
    } else {
        CacheDirKind::Relative
    }
}

/// Whether `expanded` can be what the cache directory `dir` stands for
/// once a leading `~` is expanded.  Only a directory below the home
/// directory is expanded at all.
pub open spec fn expands_to(dir: Seq<char>, expanded: Seq<char>) -> bool {
    if cache_dir_kind(dir) is Home {
        tilde_expansion(dir, expanded)
    } else {
        expanded == dir
    }
}

/// The cached chroot inside the cache directory `dir`.
pub open spec fn cache_file_in(config: PkgConfigView, dir: Seq<char>) -> Seq<char> {
    joined_path(dir, cache_file_name(config.build_env.codename, config.build_env.arch))
}

/// The directory that receives the built artifacts: the parent of the
/// source directory, if it has one.
pub open spec fn deb_dir(env: SbuildView) -> Option<Seq<char>> {
    path_parent(env.build_files_dir)
}

/// The binary package inside `dir`.
pub open spec fn deb_file_in(config: PkgConfigView, dir: Seq<char>) -> Seq<char> {
    joined_path(dir, deb_file_name(config.package_fields, config.build_env.arch))
}

/// The changes file inside `dir`.
pub open spec fn changes_file_in(config: PkgConfigView, dir: Seq<char>) -> Seq<char> {
    joined_path(dir, changes_file_name(config.package_fields, config.build_env.arch))
}

/// The binary package that the build leaves behind.
pub open spec fn deb_file(env: SbuildView) -> Option<Seq<char>> {
    match deb_dir(env) {
        Some(dir) => Some(deb_file_in(env.config, dir)),
        None => None,
    }
}

/// The changes file that the build leaves behind.
pub open spec fn changes_file(env: SbuildView) -> Option<Seq<char>> {
    match deb_dir(env) {
        Some(dir) => Some(changes_file_in(env.config, dir)),
        None => None,
    }
}

/// The test image of the release inside the expanded cache directory.
pub open spec fn image_path(config: PkgConfigView, cache_dir: Seq<char>) -> Seq<char> {
    joined_path(cache_dir, image_file_name(config.build_env.codename))
}

/// Cleaning, once the cache directory is known to be `dir`: look for the
/// cached chroot.
pub open spec fn clean_probe(env: SbuildView, progress: ProgressView, dir: Seq<char>) -> StepView {
    let file = cache_file_in(env.config, dir);
    ask(
        ProgressView { cache_file: file, ..progress },
        Phase::CleanProbe,
        RequestView::Probe { path: file },
    )
}

/// The first turn of cleaning.  A relative cache directory has to be
/// resolved first.
pub open spec fn clean_begin(env: SbuildView, expanded: Seq<char>) -> StepView {
    if cache_dir_kind(env.cache_dir) is Relative {
        ask(outset(expanded), Phase::CleanResolve, RequestView::Canonicalize { dir: env.cache_dir })
    } else {
        clean_probe(env, outset(expanded), expanded)
    }
}

/// The first turn of creating: make the scratch directory `temp_<nonce>`.
pub open spec fn create_begin(env: SbuildView, expanded: Seq<char>, nonce: u32) -> StepView {
    ask(
        outset(expanded),
        Phase::CreateTemp,
        RequestView::CreateTempDir { name: temp_dir_name(nonce) },
    )
}

/// Creating, once the cache directory is known to be `dir`: make the
/// directory that will hold the cached chroot.
pub open spec fn create_cache_dir(env: SbuildView, progress: ProgressView, dir: Seq<char>) -> StepView {
    let file = cache_file_in(env.config, dir);
    match path_parent(file) {
        Some(parent) => ask(
            ProgressView { cache_file: file, ..progress },
            Phase::CreateCacheDir,
            RequestView::CreateDirAll { path: parent },
        ),
        None => finish(progress, Err(PipelineError::PathResolution)),
    }
}

/// Creating, once the scratch directory exists.
pub open spec fn create_resolve(env: SbuildView, progress: ProgressView) -> StepView {
    if cache_dir_kind(env.cache_dir) is Relative {
        ask(progress, Phase::CreateResolve, RequestView::Canonicalize { dir: env.cache_dir })
    } else {
        create_cache_dir(env, progress, progress.cache_dir)
    }
}

/// Creating, once both directories exist: run the chroot tool, but only
/// for the supported release.
pub open spec fn create_chroot(env: SbuildView, progress: ProgressView) -> StepView {
    if env.config.build_env.codename == supported_codename() {
        ask(
            progress,
            Phase::CreateChroot,
            RequestView::Spawn {
                invocation: chroot_invocation(
                    env.config.build_env.codename,
                    progress.cache_file,
                    progress.temp_dir,
                ),
            },
        )
    } else {
        finish(progress, Err(PipelineError::Configuration))
    }
}

/// Packaging, once the cache directory is known to be `dir`: run the
/// build.
pub open spec fn build(env: SbuildView, progress: ProgressView, dir: Seq<char>) -> StepView {
    let file = cache_file_in(env.config, dir);
    ask(
        ProgressView { cache_file: file, ..progress },
        Phase::Build,
        RequestView::Spawn { invocation: build_invocation(env.config, env.build_files_dir, file) },
    )
}

/// The first turn of packaging.  Any release but the supported one is
/// turned down before anything is asked.
pub open spec fn package_begin(env: SbuildView, expanded: Seq<char>) -> StepView {
    if env.config.build_env.codename != supported_codename() {
        finish(outset(expanded), Err(PipelineError::Configuration))
    } else if cache_dir_kind(env.cache_dir) is Relative {
        ask(outset(expanded), Phase::BuildResolve, RequestView::Canonicalize { dir: env.cache_dir })
    } else {
        build(env, outset(expanded), expanded)
    }
}

/// Packaging, once the test image exists: run the regression test.
pub open spec fn regression_test(env: SbuildView, progress: ProgressView) -> StepView {
    match deb_dir(env) {
        Some(dir) => ask(
            progress,
            Phase::RegressionTest,
            RequestView::Spawn {
                invocation: regression_test_invocation(
                    env.config,
                    dir,
                    changes_file_in(env.config, dir),
                    image_path(env.config, progress.cache_dir),
                ),
            },
        ),
        None => finish(progress, Err(PipelineError::SourceDirectory)),
    }
}

/// Packaging, when a regression test is due: look for the test image.
/// The test needs the changes file, so a source directory without a
/// parent ends the operation here.
pub open spec fn image_probe(env: SbuildView, progress: ProgressView) -> StepView {
    if deb_dir(env) is Some {
        ask(
            progress,
            Phase::ImageProbe,
            RequestView::Probe { path: image_path(env.config, progress.cache_dir) },
        )
    } else {
        finish(progress, Err(PipelineError::SourceDirectory))
    }
}

/// Packaging, once the install test is passed or skipped: go on to the
/// regression test if it is asked for, and end otherwise.
pub open spec fn after_install_test(env: SbuildView, progress: ProgressView) -> StepView {
    if env.config.build_env.run_autopkgtest == Some(true) {
        image_probe(env, progress)
    } else {
        finish(progress, Ok(()))
    }
}

/// Packaging, when an install test is due: run it on the built package.
pub open spec fn install_test(env: SbuildView, progress: ProgressView) -> StepView {
    match deb_dir(env) {
        Some(dir) => ask(
            progress,
            Phase::InstallTest,
            RequestView::Spawn {
                invocation: install_test_invocation(env.config, dir, deb_file_in(env.config, dir)),
            },
        ),
        None => finish(progress, Err(PipelineError::SourceDirectory)),
    }
}

/// Packaging, once the build has succeeded: run the install test if it
/// is asked for, and go on otherwise.
pub open spec fn after_build(env: SbuildView, progress: ProgressView) -> StepView {
    if env.config.build_env.run_piuparts == Some(true) {
        install_test(env, progress)
    } else {
        after_install_test(env, progress)
    }
}

/// Packaging, once the test image is found present or absent.  An image
/// that is there is used as it is; one that is missing is created first,
/// which takes elevated privilege.
pub open spec fn after_image_probe(env: SbuildView, progress: ProgressView, present: bool) -> StepView {
    if present {
        regression_test(env, progress)
    } else {
        ask(
            progress,
            Phase::ImageBuild,
            RequestView::Spawn {
                invocation: image_invocation(
                    env.config.build_env.codename,
                    image_path(env.config, progress.cache_dir),
                ),
            },
        )
    }
}

/// The turn that follows `reply`.  A reply that does not answer the
/// request of the phase ends the operation.
pub open spec fn advance(env: SbuildView, progress: ProgressView, reply: ReplyView) -> StepView {
    match (progress.phase, reply) {
        (Phase::CleanResolve, ReplyView::Located { path: Some(dir) }) => clean_probe(
            env,
            progress,
            dir,
        ),
        (Phase::CleanResolve, ReplyView::Located { path: None }) => finish(
            progress,
            Err(PipelineError::PathResolution),
        ),
        (Phase::CleanProbe, ReplyView::Present { present }) => if present {
            ask(progress, Phase::CleanRemove, removal(progress.cache_file, false))
        } else {
            finish(progress, Ok(()))
        },
        (Phase::CleanRemove, ReplyView::Performed { ok }) => finish(
            progress,
            if ok {
                Ok(())
            } else {
                Err(PipelineError::FileSystem(FileTask::RemoveCacheFile))
            },
        ),
        (Phase::CreateTemp, ReplyView::Located { path: Some(dir) }) => create_resolve(
            env,
            ProgressView { temp_dir: dir, ..progress },
        ),
        (Phase::CreateTemp, ReplyView::Located { path: None }) => finish(
            progress,
            Err(PipelineError::FileSystem(FileTask::CreateTempDir)),
        ),
        (Phase::CreateResolve, ReplyView::Located { path: Some(dir) }) => create_cache_dir(
            env,
            progress,
            dir,
        ),
        (Phase::CreateResolve, ReplyView::Located { path: None }) => finish(
            progress,
            Err(PipelineError::PathResolution),
        ),
        (Phase::CreateCacheDir, ReplyView::Performed { ok }) => if ok {
            create_chroot(env, progress)
        } else {
            finish(progress, Err(PipelineError::FileSystem(FileTask::CreateCacheDir)))
        },
        (Phase::CreateChroot, ReplyView::Exited { outcome }) => finish(
            progress,
            process_result(Stage::Create, false, outcome),
        ),
        (Phase::BuildResolve, ReplyView::Located { path: Some(dir) }) => build(env, progress, dir),
        (Phase::BuildResolve, ReplyView::Located { path: None }) => finish(
            progress,
            Err(PipelineError::PathResolution),
        ),
        (Phase::Build, ReplyView::Exited { outcome }) => match process_result(
            Stage::Build,
            false,
            outcome,
        ) {
            Ok(_) => after_build(env, progress),
            Err(error) => finish(progress, Err(error)),
        },
        (Phase::InstallTest, ReplyView::Exited { outcome }) => match process_result(
            Stage::InstallTest,
            true,
            outcome,
        ) {
            Ok(_) => after_install_test(env, progress),
            Err(error) => finish(progress, Err(error)),
        },
        (Phase::ImageProbe, ReplyView::Present { present }) => after_image_probe(
            env,
            progress,
            present,
        ),
        (Phase::ImageBuild, ReplyView::Exited { outcome }) => match process_result(
            Stage::RegressionTest,
            true,
            outcome,
        ) {
            Ok(_) => regression_test(env, progress),
            Err(error) => finish(progress, Err(error)),
        },
        (Phase::RegressionTest, ReplyView::Exited { outcome }) => finish(
            progress,
            process_result(Stage::RegressionTest, false, outcome),
        ),
        _ => finish(progress, Err(PipelineError::Protocol)),
    }
}

} // verus!
