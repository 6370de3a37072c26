use prover::config::Inputs;
use prover::pipeline::{IoStep, Pipeline, PipelineError, ProofResult, Report, Step, Task};
use prover::stage::{Stage, StageOutcome};

fn scenario_inputs() -> Inputs {
    Inputs {
        price_start: "100.00".to_string(),
        price_end: "110.00".to_string(),
        timestamp_start: "1700000000".to_string(),
        timestamp_end: "1700086400".to_string(),
        expected_apy: "36.5".to_string(),
    }
}

/// A simulated toolchain: every task succeeds but `fail`, which answers
/// with the given report; the file read gives `proof`. Returns the tasks
/// handed out, in order, and how the run ended.
fn drive(fail: Option<(&str, Report)>, proof: &[u8]) -> (Vec<String>, Result<ProofResult, PipelineError>) {
    let mut p = Pipeline::new(&scenario_inputs(), "proj", "Prover.toml", "apy").ok().unwrap();
    let mut seen: Vec<String> = Vec::new();
    let mut fail = fail;
    let mut task = p.current_task();
    loop {
        let label = match &task {
            Task::WriteFile { .. } => "write".to_string(),
            Task::Run { stage, .. } => stage.name(),
            Task::ResetDirectory { .. } => "reset".to_string(),
            Task::ReadFile { .. } => "read".to_string(),
        };
        seen.push(label.clone());
        let report = match fail.take() {
            Some((at, r)) if at == label => r,
            other => {
                fail = other;
                match &task {
                    Task::Run { .. } => Report::Exited(StageOutcome::Success),
                    Task::ReadFile { .. } => Report::Bytes(proof.to_vec()),
                    _ => Report::Done,
                }
            }
        };
        assert!(p.fits(&report));
        match p.advance(report) {
            Step::Perform(t) => task = t,
            Step::Complete(r) => return (seen, Ok(r)),
            Step::Halt(e) => return (seen, Err(e)),
        }
    }
}

const ALL: [&str; 8] = [
    "write",
    "nargo execute",
    "bb prove",
    "reset",
    "bb write_vk",
    "bb verify",
    "bb write_solidity_verifier",
    "read",
];

#[test]
fn scenario_all_stages_succeed() {
    let (seen, r) = drive(None, &[1, 2, 3, 250]);
    assert_eq!(seen, ALL.to_vec());
    let r = r.ok().unwrap();
    assert_eq!(r.proof, vec![1, 2, 3, 250]);
    assert!(!r.proof.is_empty());
    assert!(r.public_inputs.is_empty());
}

#[test]
fn scenario_verify_failure_exports_nothing() {
    let failure = Report::Exited(StageOutcome::Failure { diagnostic: "proof mismatch".to_string() });
    let (seen, r) = drive(Some(("bb verify", failure)), &[9]);
    assert_eq!(seen, ALL[..6].to_vec());
    assert!(!seen.contains(&"bb write_solidity_verifier".to_string()));
    match r {
        Err(e) => {
            assert_eq!(e.message(), "bb verify failed: proof mismatch");
            match e {
                PipelineError::StageFailure { stage, diagnostic } => {
                    assert_eq!(stage, Stage::Verify);
                    assert_eq!(diagnostic, "proof mismatch");
                }
                _ => panic!("expected a stage failure"),
            }
        }
        Ok(_) => panic!("the run must fail"),
    }
}

#[test]
fn failing_stage_stops_the_run() {
    for (k, stage) in ALL.iter().enumerate() {
        let failure = if stage.starts_with("nargo") || stage.starts_with("bb") {
            Report::Exited(StageOutcome::Failure { diagnostic: "x".to_string() })
        } else {
            Report::IoFailed("denied".to_string())
        };
        let (seen, r) = drive(Some((stage, failure)), &[1]);
        assert_eq!(seen, ALL[..k + 1].to_vec());
        assert!(r.is_err());
    }
}

#[test]
fn launch_failure_names_the_stage() {
    let (seen, r) = drive(Some(("bb prove", Report::LaunchFailed("not found".to_string()))), &[1]);
    assert_eq!(seen.len(), 3);
    match r {
        Err(e) => {
            assert_eq!(e.message(), "failed to run bb prove: not found");
            assert!(matches!(e, PipelineError::ProcessLaunch { stage: Stage::Prove, .. }));
        }
        Ok(_) => panic!("the run must fail"),
    }
}

#[test]
fn io_failures_name_the_step() {
    let (_, r) = drive(Some(("reset", Report::IoFailed("busy".to_string()))), &[1]);
    match r {
        Err(e) => {
            assert_eq!(e.message(), "failed to replace the key directory: busy");
            assert!(matches!(e, PipelineError::Io { step: IoStep::ResetKeys, .. }));
        }
        Ok(_) => panic!("the run must fail"),
    }
    let (seen, r) = drive(Some(("read", Report::IoFailed("missing".to_string()))), &[1]);
    assert_eq!(seen.len(), 8);
    assert!(matches!(r, Err(PipelineError::Io { step: IoStep::ReadProof, .. })));
}

#[test]
fn second_run_returns_its_own_proof() {
    let (first_tasks, first) = drive(None, &[1, 1, 1]);
    let (second_tasks, second) = drive(None, &[2, 2]);
    assert_eq!(first_tasks, second_tasks);
    assert_eq!(first.ok().unwrap().proof, vec![1, 1, 1]);
    assert_eq!(second.ok().unwrap().proof, vec![2, 2]);
}

#[test]
fn tasks_carry_paths_and_document() {
    let p = Pipeline::new(&scenario_inputs(), "proj", "Prover.toml", "apy").ok().unwrap();
    match p.current_task() {
        Task::WriteFile { path, contents } => {
            assert_eq!(path, "proj/Prover.toml");
            assert!(contents.starts_with("price_start = \"100.00\"\n"));
        }
        _ => panic!("the inputs are written first"),
    }
    let mut p = p;
    let mut seen_reset = false;
    let mut task = p.current_task();
    loop {
        let report = match &task {
            Task::ResetDirectory { path } => {
                assert_eq!(path, "proj/target/vk");
                seen_reset = true;
                Report::Done
            }
            Task::ReadFile { path } => {
                assert_eq!(path, "proj/target/proof");
                Report::Bytes(vec![7])
            }
            Task::Run { command, .. } => {
                assert_eq!(command.working_dir, "proj");
                Report::Exited(StageOutcome::Success)
            }
            Task::WriteFile { .. } => Report::Done,
        };
        match p.advance(report) {
            Step::Perform(t) => task = t,
            _ => break,
        }
    }
    assert!(seen_reset);
}

#[test]
fn reports_that_do_not_fit_are_detected() {
    let p = Pipeline::new(&scenario_inputs(), "proj", "Prover.toml", "apy").ok().unwrap();
    assert!(p.fits(&Report::Done));
    assert!(!p.fits(&Report::Bytes(vec![])));
    assert!(!p.fits(&Report::Exited(StageOutcome::Success)));
}
