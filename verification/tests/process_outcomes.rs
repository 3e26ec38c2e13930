use pkg_builder::process::{
    judge_launch, judge_process, PipelineError, ProcessOutcome, Stage,
};

const STAGES: [Stage; 5] =
    [Stage::Clean, Stage::Create, Stage::Build, Stage::InstallTest, Stage::RegressionTest];

#[test]
fn stages_have_their_tags() {
    assert_eq!(Stage::Clean.tag(), "clean");
    assert_eq!(Stage::Create.tag(), "create");
    assert_eq!(Stage::Build.tag(), "build");
    assert_eq!(Stage::InstallTest.tag(), "install-test");
    assert_eq!(Stage::RegressionTest.tag(), "regression-test");
}

#[test]
fn exit_status_zero_is_success() {
    for stage in STAGES {
        for elevated in [false, true] {
            assert_eq!(judge_process(stage, elevated, ProcessOutcome::Success), Ok(()));
            assert_eq!(judge_launch(stage, elevated, ProcessOutcome::Success), Ok(()));
        }
    }
}

#[test]
fn other_exit_status_fails_the_stage() {
    for stage in STAGES {
        for elevated in [false, true] {
            assert_eq!(
                judge_process(stage, elevated, ProcessOutcome::NonZeroExit),
                Err(PipelineError::NonZeroExit(stage))
            );
        }
    }
}

#[test]
fn chroot_tool_that_reports_failure_fails_the_create_stage() {
    assert_eq!(
        judge_process(Stage::Create, false, ProcessOutcome::NonZeroExit),
        Err(PipelineError::NonZeroExit(Stage::Create))
    );
}

#[test]
fn launch_is_judged_by_whether_the_command_ran() {
    for stage in STAGES {
        for elevated in [false, true] {
            assert_eq!(judge_launch(stage, elevated, ProcessOutcome::NonZeroExit), Ok(()));
            assert_ne!(
                judge_launch(stage, elevated, ProcessOutcome::NonZeroExit),
                judge_process(stage, elevated, ProcessOutcome::NonZeroExit)
            );
        }
    }
}

#[test]
fn command_that_does_not_start_is_a_spawn_error() {
    for stage in STAGES {
        for permission_denied in [false, true] {
            let outcome = ProcessOutcome::SpawnFailed { permission_denied };
            assert_eq!(
                judge_process(stage, false, outcome),
                Err(PipelineError::ProcessSpawn(stage))
            );
            assert_eq!(judge_launch(stage, false, outcome), Err(PipelineError::ProcessSpawn(stage)));
        }
        let outcome = ProcessOutcome::SpawnFailed { permission_denied: false };
        assert_eq!(judge_process(stage, true, outcome), Err(PipelineError::ProcessSpawn(stage)));
    }
}

#[test]
fn elevated_command_that_may_not_start_is_privilege_denied() {
    for stage in STAGES {
        let outcome = ProcessOutcome::SpawnFailed { permission_denied: true };
        assert_eq!(judge_process(stage, true, outcome), Err(PipelineError::PrivilegeDenied(stage)));
        assert_eq!(judge_launch(stage, true, outcome), Err(PipelineError::PrivilegeDenied(stage)));
    }
}

#[test]
fn unreadable_output_is_an_io_error() {
    for stage in STAGES {
        for elevated in [false, true] {
            assert_eq!(
                judge_process(stage, elevated, ProcessOutcome::IoFailed),
                Err(PipelineError::ProcessIo(stage))
            );
            assert_eq!(
                judge_launch(stage, elevated, ProcessOutcome::IoFailed),
                Err(PipelineError::ProcessIo(stage))
            );
        }
    }
}

#[test]
fn failures_of_commands_carry_their_stage() {
    assert_eq!(PipelineError::NonZeroExit(Stage::Build).stage(), Some(Stage::Build));
    assert_eq!(PipelineError::ProcessSpawn(Stage::InstallTest).stage(), Some(Stage::InstallTest));
    assert_eq!(PipelineError::ProcessIo(Stage::Create).stage(), Some(Stage::Create));
    assert_eq!(
        PipelineError::PrivilegeDenied(Stage::RegressionTest).stage(),
        Some(Stage::RegressionTest)
    );
    assert_eq!(PipelineError::Configuration.stage(), None);
    assert_eq!(PipelineError::PathResolution.stage(), None);
    assert_eq!(PipelineError::SourceDirectory.stage(), None);
    assert_eq!(PipelineError::Protocol.stage(), None);
}
