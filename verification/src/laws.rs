//! What holds of every configuration and of every course an operation can
//! take.  Each law is proved from the definitions in the other files.

use crate::commands::{
    build_args, build_base_args, chroot_invocation, lint_flags, maintenance_steps, setup_flag,
    setup_flags, supported_codename,
};
use crate::machine::{finish, Phase, ProgressView, ReplyView, RequestView, StepView};
use crate::pipeline::{advance, clean_begin, create_begin, image_path, package_begin, SbuildView};
use crate::pkg_config::{LanguageEnv, LanguageEnvView, PkgConfigView};
use crate::process::{PipelineError, ProcessOutcome, Stage};
use crate::provisioning::{build_steps, compiles_to_binary, package_build_steps, test_steps};
use vstd::prelude::*;

verus! {

/// The requests that an operation makes when it starts with `step` and is
/// answered by `replies`, one after the other.  It stops asking when it
/// has finished or when the replies run out.
pub open spec fn requests(env: SbuildView, step: StepView, replies: Seq<ReplyView>) -> Seq<
    RequestView,
>
    decreases replies.len(),
{
    if replies.len() == 0 || step.request is Finished {
        seq![step.request]
    } else {
        seq![step.request] + requests(
            env,
            advance(env, step.progress, replies[0]),
            replies.skip(1),
        )
    }
}

/// Whether `small` is in `large`, item for item and in the same order, at
/// the places `at`.
pub open spec fn embedded_at(small: Seq<Seq<char>>, large: Seq<Seq<char>>, at: Seq<int>) -> bool {
    &&& at.len() == small.len()
    &&& forall|i: int| 0 <= i < at.len() ==> 0 <= #[trigger] at[i] < large.len()
    &&& forall|i: int| 0 <= i < at.len() ==> large[#[trigger] at[i]] == small[i]
    &&& forall|i: int, j: int| 0 <= i < j < at.len() ==> #[trigger] at[i] < #[trigger] at[j]
}

/// The steps depend on nothing but the toolchain: two toolchains with the
/// same coordinates get the same steps in the same order, before a build
/// and before a test.
pub proof fn law_steps_are_determined_by_the_toolchain(first: LanguageEnv, second: LanguageEnv)
    requires
        first@ == second@,
    ensures
        build_steps(first@) == build_steps(second@),
        test_steps(first@) == test_steps(second@),
{
}

/// Go is provisioned in ten steps.
pub proof fn law_go_takes_ten_build_steps(env: LanguageEnvView)
    requires
        env is Go,
    ensures
        build_steps(env).len() == 10,
{
}

/// A package that is compiled to a binary needs no toolchain to be tested:
/// for C, Rust, Go and Nim there are no test steps.
pub proof fn law_compiled_packages_need_no_test_steps(env: LanguageEnvView)
    requires
        compiles_to_binary(env),
    ensures
        test_steps(env) == Seq::<Seq<char>>::empty(),
{
}

/// Testing never provisions what building did not: the test steps of a
/// toolchain are among its build steps, in the same order.
pub proof fn law_test_steps_are_build_steps(env: LanguageEnvView)
    ensures
        test_steps(env).len() <= build_steps(env).len(),
        exists|at: Seq<int>| embedded_at(test_steps(env), build_steps(env), at),
{
    if env is Dotnet {
        let at = seq![0int, 1, 2, 3, 6];
        assert(embedded_at(test_steps(env), build_steps(env), at));
    } else {
        let at = Seq::<int>::empty();
        assert(embedded_at(test_steps(env), build_steps(env), at));
    }
}

/// A setup argument is made for each step by itself, so the arguments of
/// two lists of steps in a row are the arguments of the first and then
/// those of the second.
pub proof fn law_setup_flags_keep_order(first: Seq<Seq<char>>, second: Seq<Seq<char>>)
    ensures
        setup_flags(first + second) == setup_flags(first) + setup_flags(second),
        setup_flags(first).len() == first.len(),
{
    assert(setup_flags(first + second) =~= setup_flags(first) + setup_flags(second));
}

/// The arguments of every build: the fixed ones, then the toolchain's
/// steps in their order, not one dropped or merged, then the full upgrade
/// and the autoremove, then the lintian switch.
pub proof fn law_build_args_layout(config: PkgConfigView, cache_file: Seq<char>)
    ensures
        build_args(config, cache_file) == build_base_args(config.build_env.codename, cache_file)
            + setup_flags(package_build_steps(config.package_type)) + seq![
            setup_flag("apt full-upgrade -y"@),
            setup_flag("apt autoremove -y"@),
        ] + lint_flags(config.build_env.run_lintian),
        config.build_env.run_lintian != Some(true) ==> build_args(config, cache_file).last()
            == "--no-run-lintian"@,
{
    let steps = package_build_steps(config.package_type);
    law_setup_flags_keep_order(steps, maintenance_steps());
    assert(setup_flags(maintenance_steps()) =~= seq![
        setup_flag("apt full-upgrade -y"@),
        setup_flag("apt autoremove -y"@),
    ]);
}

/// Packaging turns an unsupported release down before it asks for
/// anything.
pub proof fn law_package_rejects_other_releases(env: SbuildView, expanded: Seq<char>)
    requires
        env.config.build_env.codename != supported_codename(),
    ensures
        package_begin(env, expanded).request == (RequestView::Finished {
            result: Err(PipelineError::Configuration),
        }),
{
}

/// The stage that a phase of creating or packaging runs a command for.
pub open spec fn stage_of_phase(phase: Phase) -> Option<Stage> {
    match phase {
        Phase::CreateChroot => Some(Stage::Create),
        Phase::Build => Some(Stage::Build),
        Phase::InstallTest => Some(Stage::InstallTest),
        Phase::ImageBuild => Some(Stage::RegressionTest),
        Phase::RegressionTest => Some(Stage::RegressionTest),
        _ => None,
    }
}

/// A command of creating or packaging that does not exit with success
/// ends the operation there and then, with a failure that carries its
/// stage.  Nothing is retried and no later stage is started.
pub proof fn law_failed_command_ends_the_operation(
    env: SbuildView,
    progress: ProgressView,
    outcome: ProcessOutcome,
)
    requires
        stage_of_phase(progress.phase) is Some,
        outcome != ProcessOutcome::Success,
    ensures
        advance(env, progress, ReplyView::Exited { outcome }).request matches RequestView::Finished {
            result: Err(error),
        } && error.stage_of() == stage_of_phase(progress.phase),
{
}

/// A stage of packaging starts only when the stage before it has
/// succeeded: the install test after the build, the search for the test
/// image after the build or the install test, the creation of the image
/// after the search has found none, and the regression test once the
/// image is found or created.
pub proof fn law_stages_wait_for_success(env: SbuildView, progress: ProgressView, reply: ReplyView)
    ensures
        ({
            let next = advance(env, progress, reply).progress.phase;
            let succeeded = reply == (ReplyView::Exited { outcome: ProcessOutcome::Success });
            &&& next == Phase::InstallTest ==> progress.phase == Phase::Build && succeeded
                && env.config.build_env.run_piuparts == Some(true)
            &&& next == Phase::ImageProbe ==> (progress.phase == Phase::Build || progress.phase
                == Phase::InstallTest) && succeeded && env.config.build_env.run_autopkgtest
                == Some(true)
            &&& next == Phase::ImageBuild ==> progress.phase == Phase::ImageProbe && reply
                == (ReplyView::Present { present: false })
            &&& next == Phase::RegressionTest ==> (progress.phase == Phase::ImageProbe && reply
                == (ReplyView::Present { present: true })) || (progress.phase
                == Phase::ImageBuild && succeeded)
        }),
{
}

/// A test image that is there is not created again: the next request is
/// the regression test itself, which asks for no privilege.  One that is
/// missing is created first, with elevated privilege.
pub proof fn law_present_image_is_reused(env: SbuildView, progress: ProgressView)
    requires
        progress.phase == Phase::ImageProbe,
    ensures
        match advance(env, progress, ReplyView::Present { present: true }).request {
            RequestView::Spawn { invocation } => !invocation.elevated && invocation.program
                == "autopkgtest"@,
            RequestView::Finished { result } => result is Err,
            _ => false,
        },
        match advance(env, progress, ReplyView::Present { present: false }).request {
            RequestView::Spawn { invocation } => invocation.elevated && invocation.args
                == seq![
                "-S"@,
                "autopkgtest-build-qemu"@,
                env.config.build_env.codename,
                image_path(env.config, progress.cache_dir),
            ],
            _ => false,
        },
{
}

/// Once an operation has finished it stays finished.
pub proof fn law_finished_is_final(env: SbuildView, progress: ProgressView, reply: ReplyView)
    requires
        progress.phase == Phase::Finished,
    ensures
        advance(env, progress, reply) == finish(progress, Err(PipelineError::Protocol)),
{
}

/// Whether `step` can occur while cleaning.
pub open spec fn cleaning(env: SbuildView, step: StepView) -> bool {
    match step.progress.phase {
        Phase::CleanResolve => step.request == (RequestView::Canonicalize { dir: env.cache_dir }),
        Phase::CleanProbe => step.request == (RequestView::Probe {
            path: step.progress.cache_file,
        }),
        Phase::CleanRemove => step.request == (RequestView::RemoveFile {
            path: step.progress.cache_file,
        }),
        Phase::Finished => step.request is Finished,
        _ => false,
    }
}

proof fn lemma_cleaning_goes_on(env: SbuildView, step: StepView, reply: ReplyView)
    requires
        cleaning(env, step),
    ensures
        cleaning(env, advance(env, step.progress, reply)),
        advance(env, step.progress, reply).request is RemoveFile ==> {
            &&& reply == (ReplyView::Present { present: true })
            &&& step.request == (RequestView::Probe {
                path: advance(env, step.progress, reply).request->RemoveFile_path,
            })
        },
        step.progress.phase == Phase::CleanProbe && reply == (ReplyView::Present {
            present: false,
        }) ==> advance(env, step.progress, reply).request == (RequestView::Finished {
            result: Ok(()),
        }),
{
}

/// Cleaning looks and removes, and does nothing else: it creates nothing
/// and runs nothing.  It removes one file at most, and only the very
/// file that it has just looked for and been told is there.
pub proof fn law_clean_removes_only_what_it_found(
    env: SbuildView,
    expanded: Seq<char>,
    replies: Seq<ReplyView>,
)
    ensures
        ({
            let asked = requests(env, clean_begin(env, expanded), replies);
            forall|k: int|
                0 <= k < asked.len() ==> {
                    &&& (#[trigger] asked[k] is Canonicalize || asked[k] is Probe || asked[k]
                        is RemoveFile || asked[k] is Finished)
                    &&& asked[k] is RemoveFile ==> {
                        &&& 0 < k <= replies.len()
                        &&& replies[k - 1] == (ReplyView::Present { present: true })
                        &&& asked[k - 1] == (RequestView::Probe {
                            path: asked[k]->RemoveFile_path,
                        })
                    }
                }
        }),
{
    lemma_clean_trace(env, clean_begin(env, expanded), replies);
}

proof fn lemma_clean_trace(env: SbuildView, step: StepView, replies: Seq<ReplyView>)
    requires
        cleaning(env, step),
    ensures
        ({
            let asked = requests(env, step, replies);
            &&& asked.len() >= 1
            &&& asked.len() <= replies.len() + 1
            &&& asked[0] == step.request
            &&& forall|k: int|
                0 <= k < asked.len() ==> {
                    &&& (#[trigger] asked[k] is Canonicalize || asked[k] is Probe || asked[k]
                        is RemoveFile || asked[k] is Finished)
                    &&& asked[k] is RemoveFile && k > 0 ==> {
                        &&& replies[k - 1] == (ReplyView::Present { present: true })
                        &&& asked[k - 1] == (RequestView::Probe {
                            path: asked[k]->RemoveFile_path,
                        })
                    }
                }
        }),
    decreases replies.len(),
{
    let asked = requests(env, step, replies);
    if replies.len() == 0 || step.request is Finished {
    } else {
        let next = advance(env, step.progress, replies[0]);
        let rest = requests(env, next, replies.skip(1));
        lemma_cleaning_goes_on(env, step, replies[0]);
        lemma_clean_trace(env, next, replies.skip(1));
        assert(asked == seq![step.request] + rest);
        assert forall|k: int| 0 <= k < asked.len() implies {
            &&& (#[trigger] asked[k] is Canonicalize || asked[k] is Probe || asked[k]
                is RemoveFile || asked[k] is Finished)
            &&& asked[k] is RemoveFile && k > 0 ==> {
                &&& replies[k - 1] == (ReplyView::Present { present: true })
                &&& asked[k - 1] == (RequestView::Probe { path: asked[k]->RemoveFile_path })
            }
        } by {
            if k >= 1 {
                assert(asked[k] == rest[k - 1]);
                if k >= 2 {
                    assert(asked[k - 1] == rest[k - 2]);
                    assert(replies.skip(1)[k - 2] == replies[k - 1]);
                }
            }
        }
    }
}

/// Cleaning when there is no cached chroot succeeds and asks for no
/// change: told that the file is absent, it finishes at once.
pub proof fn law_clean_without_artifact_succeeds(env: SbuildView, progress: ProgressView)
    requires
        progress.phase == Phase::CleanProbe,
    ensures
        advance(env, progress, ReplyView::Present { present: false }) == finish(progress, Ok(())),
{
}

/// Whether `step` can occur while a chroot is created for a release that
/// is not supported.
pub open spec fn creating_in_vain(step: StepView) -> bool {
    match step.progress.phase {
        Phase::CreateTemp => step.request is CreateTempDir,
        Phase::CreateResolve => step.request is Canonicalize,
        Phase::CreateCacheDir => step.request is CreateDirAll,
        Phase::Finished => step.request matches RequestView::Finished { result } && result is Err,
        _ => false,
    }
}

proof fn lemma_create_in_vain_trace(env: SbuildView, step: StepView, replies: Seq<ReplyView>)
    requires
        env.config.build_env.codename != supported_codename(),
        creating_in_vain(step),
    ensures
        ({
            let asked = requests(env, step, replies);
            forall|k: int|
                0 <= k < asked.len() ==> {
                    &&& !(#[trigger] asked[k] is Spawn)
                    &&& asked[k] matches RequestView::Finished { result } ==> result is Err
                }
        }),
    decreases replies.len(),
{
    let asked = requests(env, step, replies);
    if replies.len() == 0 || step.request is Finished {
    } else {
        let next = advance(env, step.progress, replies[0]);
        let rest = requests(env, next, replies.skip(1));
        assert(creating_in_vain(next));
        lemma_create_in_vain_trace(env, next, replies.skip(1));
        assert(asked == seq![step.request] + rest);
        assert forall|k: int| 0 <= k < asked.len() implies {
            &&& !(#[trigger] asked[k] is Spawn)
            &&& asked[k] matches RequestView::Finished { result } ==> result is Err
        } by {
            if k >= 1 {
                assert(asked[k] == rest[k - 1]);
            }
        }
    }
}

/// Creating a chroot for a release that is not supported runs no command,
/// whatever the file system answers, and never ends in success.
pub proof fn law_create_rejects_other_releases(
    env: SbuildView,
    expanded: Seq<char>,
    nonce: u32,
    replies: Seq<ReplyView>,
)
    requires
        env.config.build_env.codename != supported_codename(),
    ensures
        ({
            let asked = requests(env, create_begin(env, expanded, nonce), replies);
            forall|k: int|
                0 <= k < asked.len() ==> {
                    &&& !(#[trigger] asked[k] is Spawn)
                    &&& asked[k] matches RequestView::Finished { result } ==> result is Err
                }
        }),
{
    lemma_create_in_vain_trace(env, create_begin(env, expanded, nonce), replies);
}

/// Whether `step` can occur while a chroot is created.
pub open spec fn creating(env: SbuildView, step: StepView) -> bool {
    match step.progress.phase {
        Phase::CreateTemp => step.request is CreateTempDir,
        Phase::CreateResolve => step.request is Canonicalize,
        Phase::CreateCacheDir => step.request is CreateDirAll,
        Phase::CreateChroot => step.request == (RequestView::Spawn {
            invocation: chroot_invocation(
                env.config.build_env.codename,
                step.progress.cache_file,
                step.progress.temp_dir,
            ),
        }),
        Phase::Finished => step.request is Finished,
        _ => false,
    }
}

/// Whether the request before place `k` of `asked` ran the chroot tool,
/// told to write the tarball `tarball`, and was answered by its success.
pub open spec fn tool_succeeded_before(
    asked: Seq<RequestView>,
    replies: Seq<ReplyView>,
    k: int,
    tarball: Seq<char>,
) -> bool {
    &&& 0 < k <= replies.len()
    &&& replies[k - 1] == (ReplyView::Exited { outcome: ProcessOutcome::Success })
    &&& asked[k - 1] matches RequestView::Spawn { invocation }
    &&& invocation.program == "sbuild-createchroot"@
    &&& invocation.args.len() == 6
    &&& invocation.args[2] == tarball
}

proof fn lemma_creating_goes_on(env: SbuildView, step: StepView, reply: ReplyView)
    requires
        creating(env, step),
    ensures
        creating(env, advance(env, step.progress, reply)),
        advance(env, step.progress, reply).request == (RequestView::Finished { result: Ok(()) })
            ==> {
            &&& reply == (ReplyView::Exited { outcome: ProcessOutcome::Success })
            &&& step.request matches RequestView::Spawn { invocation }
            &&& invocation.program == "sbuild-createchroot"@
            &&& invocation.args.len() == 6
            &&& invocation.args[2] == step.progress.cache_file
        },
{
}

proof fn lemma_create_trace(env: SbuildView, step: StepView, replies: Seq<ReplyView>)
    requires
        creating(env, step),
        !(step.request matches RequestView::Finished { result } && result is Ok),
    ensures
        ({
            let asked = requests(env, step, replies);
            &&& asked.len() >= 1
            &&& asked[0] == step.request
            &&& forall|k: int|
                0 <= k < asked.len() && #[trigger] asked[k] == (RequestView::Finished {
                    result: Ok(()),
                }) ==> exists|tarball: Seq<char>|
                    tool_succeeded_before(asked, replies, k, tarball)
        }),
    decreases replies.len(),
{
    let asked = requests(env, step, replies);
    if replies.len() == 0 || step.request is Finished {
    } else {
        let next = advance(env, step.progress, replies[0]);
        let rest = requests(env, next, replies.skip(1));
        lemma_creating_goes_on(env, step, replies[0]);
        assert(asked == seq![step.request] + rest);
        if next.request == (RequestView::Finished { result: Ok(()) }) {
            assert(rest == seq![next.request]);
            assert(tool_succeeded_before(asked, replies, 1, step.progress.cache_file));
        } else {
            lemma_create_trace(env, next, replies.skip(1));
            assert forall|k: int|
                0 <= k < asked.len() && #[trigger] asked[k] == (RequestView::Finished {
                    result: Ok(()),
                }) implies exists|tarball: Seq<char>|
                tool_succeeded_before(asked, replies, k, tarball) by {
                assert(k >= 1);
                assert(asked[k] == rest[k - 1]);
                let before = k - 1;
                let tarball = choose|tarball: Seq<char>|
                    tool_succeeded_before(rest, replies.skip(1), before, tarball);
                assert(k >= 2);
                assert(asked[k - 1] == rest[k - 2]);
                assert(replies.skip(1)[k - 2] == replies[k - 1]);
                assert(tool_succeeded_before(asked, replies, k, tarball));
            }
        }
    }
}

/// Creating ends in success only when the chroot tool has run and has
/// exited with success: the request just before the end is the run of
/// the tool, told which tarball to write, and the reply to it is its
/// success.  A tool that does not start, cannot be observed, or reports
/// failure leaves creating with an error.
pub proof fn law_create_succeeds_only_if_the_tool_does(
    env: SbuildView,
    expanded: Seq<char>,
    nonce: u32,
    replies: Seq<ReplyView>,
)
    ensures
        ({
            let asked = requests(env, create_begin(env, expanded, nonce), replies);
            forall|k: int|
                0 <= k < asked.len() && #[trigger] asked[k] == (RequestView::Finished {
                    result: Ok(()),
                }) ==> exists|tarball: Seq<char>|
                    tool_succeeded_before(asked, replies, k, tarball)
        }),
{
    lemma_create_trace(env, create_begin(env, expanded, nonce), replies);
}

} // verus!
