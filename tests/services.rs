use ere::sp1::{CompileError, RV32_IM_SUCCINCT_ZKVM_ELF};
use ere::bento::{
    compose_result, docker_compose_bento_down, docker_compose_bento_up, poll_error, poll_step,
    render_compose_file, ComposeEnv, PollDecision, ServiceRegistry,
};
use ere::docker::{BuildStage, BuildStep, Error, ImageBuild};
use ere::error::{Phase, ZkvmError};
use ere::process::ProcessStatus;
use ere::resource::{backoff_delay, next_retry, FailureClass, RetryDecision, RetryPolicy};
use ere::risc0::{BentoCommand, Risc0Error};
use ere::zisk::{parse_total_steps, EreZisk, ExecuteError, ZiskError};

fn exited(code: i32) -> ProcessStatus {
    ProcessStatus::Exited { code: Some(code), stdout: String::new(), stderr: String::new() }
}

#[test]
fn total_steps_parsed_from_report() {
    let report = "process ended\ntotal steps = 12345 \nusage: ...";
    assert_eq!(parse_total_steps(report).unwrap(), 12345);
    assert_eq!(parse_total_steps("total steps =    7").unwrap(), 7);
    assert_eq!(parse_total_steps("total steps = +5").unwrap(), 5);
    assert_eq!(parse_total_steps("total steps = \u{3000}42\u{2003}more").unwrap(), 42);
    assert_eq!(parse_total_steps("total steps = 18446744073709551615").unwrap(), u64::MAX);
}

#[test]
fn total_steps_missing_or_malformed() {
    for r in [
        "",
        "total steps: 5",
        "total steps = ",
        "total steps = 12x",
        "total steps = 18446744073709551616",
        "total steps = -3",
        "total steps = +",
        "total steps = ++5",
    ] {
        assert!(matches!(parse_total_steps(r), Err(ExecuteError::TotalStepsNotFound)), "{r}");
    }
}

#[test]
fn zisk_execution_outcomes() {
    let rep = EreZisk::execute_result(true, "total steps = 9001\n").unwrap();
    assert_eq!(rep.total_num_cycles, Some(9001));
    assert!(matches!(
        EreZisk::execute_result(false, "total steps = 1"),
        Err(ZiskError::Execute(ExecuteError::EmulationNotTerminate))
    ));
    let z = EreZisk::new("/g/guest.elf".to_string());
    assert_eq!(z.elf_path(), "/g/guest.elf");
    assert!(matches!(
        z.prove(&ere::input::Input::new()),
        Err(ZiskError::ProveNotImplemented)
    ));
    let e = ZkvmError::Zisk(z.verify(&[1, 2]).unwrap_err());
    assert!(e.is_not_implemented());
    assert_eq!(e.phase(), Phase::Verify);
}

#[test]
fn docker_build_runs_both_stages() {
    let (mut b, probe) = ImageBuild::build_image("/ws", "docker/sp1/Dockerfile", "img:latest");
    assert_eq!(probe.program, "docker");
    assert_eq!(probe.args, vec!["--version"]);
    assert_eq!(b.stage(), BuildStage::CheckDocker);
    match b.step(&exited(0)) {
        BuildStep::Run(inv) => assert_eq!(
            inv.args,
            vec!["build", "-t", "ere-base:latest", "-f", "/ws/docker/base/Dockerfile.base", "/ws"]
        ),
        other => panic!("unexpected {other:?}"),
    }
    match b.step(&exited(0)) {
        BuildStep::Run(inv) => assert_eq!(
            inv.args,
            vec!["build", "-t", "img:latest", "-f", "/ws/docker/sp1/Dockerfile", "/ws"]
        ),
        other => panic!("unexpected {other:?}"),
    }
    assert!(matches!(b.step(&exited(0)), BuildStep::Finished(Ok(()))));
    assert_eq!(b.stage(), BuildStage::Done);
}

#[test]
fn docker_build_failures() {
    let (mut b, _) = ImageBuild::build_image("/ws", "d", "t");
    assert!(matches!(
        b.step(&ProcessStatus::SpawnFailed("no docker".to_string())),
        BuildStep::Finished(Err(Error::DockerIsNotAvailable))
    ));
    let (mut b, _) = ImageBuild::build_image("/ws", "d", "t");
    b.step(&exited(0));
    assert!(matches!(b.step(&exited(1)), BuildStep::Finished(Err(Error::ImageBuildFailed))));
    let (mut b, _) = ImageBuild::build_image("/ws", "d", "t");
    b.step(&exited(0));
    b.step(&exited(0));
    assert!(matches!(
        b.step(&ProcessStatus::SpawnFailed("gone".to_string())),
        BuildStep::Finished(Err(Error::DockerBuildFailed(_)))
    ));
}

#[test]
fn sp1_container_run() {
    let (_, probe) = RV32_IM_SUCCINCT_ZKVM_ELF::image_build("/repo");
    assert_eq!(probe.args, vec!["--version"]);
    let r = RV32_IM_SUCCINCT_ZKVM_ELF::run_invocation("/guests", "/tmp/out", "basic");
    assert_eq!(
        r.args,
        vec![
            "run",
            "--rm",
            "-v",
            "/guests:/guest-workspace",
            "-v",
            "/tmp/out:/output",
            "ere-build-sp1:latest",
            "./guest-compiler",
            "/guest-workspace/basic",
            "/output"
        ]
    );
    assert_eq!(RV32_IM_SUCCINCT_ZKVM_ELF::elf_path("/tmp/out"), "/tmp/out/guest.elf");
    assert!(matches!(
        RV32_IM_SUCCINCT_ZKVM_ELF::run_result(&exited(3)),
        Err(CompileError::DockerContainerRunFailed(Some(3)))
    ));
    assert!(RV32_IM_SUCCINCT_ZKVM_ELF::run_result(&exited(0)).is_ok());
}

#[test]
fn compose_file_rendering() {
    let t = "log=${RUST_LOG} seg=${SEGMENT_SIZE} po2=${RISC0_KECCAK_PO2} again=${RUST_LOG}";
    let defaults = ComposeEnv { rust_log: None, segment_size: None, keccak_po2: None };
    assert_eq!(render_compose_file(t, &defaults), "log=INFO seg=21 po2=17 again=INFO");
    let env = ComposeEnv {
        rust_log: Some("debug".to_string()),
        segment_size: Some("20".to_string()),
        keccak_po2: None,
    };
    assert_eq!(render_compose_file(t, &env), "log=debug seg=20 po2=17 again=debug");
    let up = docker_compose_bento_up(t, &defaults);
    assert_eq!(up.invocation.program, "docker");
    assert_eq!(up.invocation.args, vec!["compose", "--file", "-", "up", "--detach"]);
    assert_eq!(up.stdin, "log=INFO seg=21 po2=17 again=INFO");
    let down = docker_compose_bento_down(t, &defaults);
    assert_eq!(down.invocation.args, vec!["compose", "--file", "-", "down", "--volumes"]);
    assert!(matches!(
        compose_result(BentoCommand::Up, &exited(1)),
        Err(Risc0Error::ComposeFailed(BentoCommand::Up))
    ));
    assert!(compose_result(BentoCommand::Down, &exited(0)).is_ok());
}

#[test]
fn shared_service_starts_once_and_stops_once() {
    let mut reg = ServiceRegistry::new();
    assert!(reg.acquire());
    assert!(!reg.acquire());
    assert_eq!(reg.holders(), 2);
    assert!(!reg.release());
    assert!(reg.release());
    assert!(!reg.release());
    assert_eq!(reg.holders(), 0);
}

#[test]
fn polling_decisions() {
    assert!(matches!(poll_step("RUNNING", 0, None), PollDecision::Wait(2)));
    assert!(matches!(poll_step("RUNNING", 10, Some(60)), PollDecision::Wait(2)));
    assert!(matches!(poll_step("RUNNING", 60, Some(60)), PollDecision::TimedOut));
    assert!(matches!(poll_step("SUCCEEDED", 0, None), PollDecision::Download));
    let d = poll_step("FAILED", 4, None);
    assert!(matches!(d, PollDecision::Fail(ref s) if s == "FAILED"));
    assert!(matches!(poll_error(&d), Some(Risc0Error::UnexpectedStatus(ref s)) if s == "FAILED"));
    assert!(matches!(poll_error(&PollDecision::TimedOut), Some(Risc0Error::PollTimeout)));
    assert!(poll_error(&PollDecision::Download).is_none());
}

#[test]
fn retry_policy_is_bounded_and_capped() {
    let p = RetryPolicy {
        max_attempts: 5,
        initial_backoff_ms: 100,
        backoff_multiplier: 3,
        max_backoff_ms: 1000,
    };
    assert_eq!(backoff_delay(&p, 0), 100);
    assert_eq!(backoff_delay(&p, 1), 300);
    assert_eq!(backoff_delay(&p, 2), 900);
    assert_eq!(backoff_delay(&p, 3), 1000);
    assert_eq!(backoff_delay(&p, 30), 1000);
    assert_eq!(next_retry(&p, 1, FailureClass::Transient), RetryDecision::RetryAfter(100));
    assert_eq!(next_retry(&p, 3, FailureClass::Transient), RetryDecision::RetryAfter(900));
    assert_eq!(next_retry(&p, 5, FailureClass::Transient), RetryDecision::GiveUp);
    assert_eq!(next_retry(&p, 1, FailureClass::Permanent), RetryDecision::GiveUp);
    let huge = RetryPolicy {
        max_attempts: 100,
        initial_backoff_ms: u64::MAX / 2,
        backoff_multiplier: 4,
        max_backoff_ms: u64::MAX,
    };
    assert_eq!(backoff_delay(&huge, 1), u64::MAX);
}

#[test]
fn network_config_default() {
    let c = ere::resource::NetworkProverConfig::default();
    assert_eq!(c.endpoint, "");
    assert!(c.api_key.is_none());
    assert!(c.retry.is_none());
    assert!(!c.local_fallback);
}

#[test]
fn errors_report_their_phase() {
    assert_eq!(
        ZkvmError::Risc0(Risc0Error::Execute("x".to_string())).phase(),
        Phase::Execute
    );
    assert_eq!(
        ZkvmError::Risc0(Risc0Error::Config(ere::risc0::ConfigError::GpuWithoutSupport)).phase(),
        Phase::Setup
    );
    assert_eq!(
        ZkvmError::Risc0(Risc0Error::DecodeProof("x".to_string())).phase(),
        Phase::Verify
    );
    assert_eq!(
        ZkvmError::Zisk(ZiskError::ProveNotImplemented).phase(),
        Phase::Prove
    );
    assert!(!ZkvmError::Risc0(Risc0Error::PollTimeout).is_not_implemented());
}
