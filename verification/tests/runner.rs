use mtc::responses::MachineAssignment;
use mtc::ids::NodeId;
use mtc::model::MachineState;
use mtc::worker::{CommandResult, MachineRunner, RunnerAction, RunnerEvent, RunnerPhase};

fn assignment(id: &str, command: &str) -> MachineAssignment {
    MachineAssignment {
        machine_id: id.to_string(),
        machine_name: format!("name-{id}"),
        command: command.to_string(),
    }
}

#[test]
fn runner_claims_runs_and_reports_each_machine_in_order() {
    let mut runner = MachineRunner::new(NodeId::new("n1"));
    assert!(matches!(runner.step(RunnerEvent::Tick), RunnerAction::Poll));
    let action = runner.step(RunnerEvent::Polled(vec![assignment("m1", "true"), assignment("m2", "false")]));
    match action {
        RunnerAction::Claim(id) => assert_eq!(id.as_str(), "m1"),
        other => panic!("unexpected {other:?}"),
    }
    match runner.step(RunnerEvent::ClaimAnswered(true)) {
        RunnerAction::Run(command) => assert_eq!(command, "true"),
        other => panic!("unexpected {other:?}"),
    }
    match runner.step(RunnerEvent::CommandFinished(CommandResult::finished(Some(0), " ok ", ""))) {
        RunnerAction::Report(report) => {
            assert_eq!(report.machine_id.as_str(), "m1");
            assert_eq!(report.node_id.as_str(), "n1");
            assert_eq!(report.state, MachineState::Succeeded);
            assert_eq!(report.stdout, "ok");
        }
        other => panic!("unexpected {other:?}"),
    }
    match runner.step(RunnerEvent::ReportSent) {
        RunnerAction::Claim(id) => assert_eq!(id.as_str(), "m2"),
        other => panic!("unexpected {other:?}"),
    }
    assert!(matches!(runner.step(RunnerEvent::ClaimAnswered(false)), RunnerAction::Wait));
    assert_eq!(runner.phase, RunnerPhase::Idle);
    assert!(runner.current.is_none());
}

#[test]
fn runner_goes_idle_on_failed_or_empty_poll_and_ignores_stray_events() {
    let mut runner = MachineRunner::new(NodeId::new("n1"));
    assert!(matches!(runner.step(RunnerEvent::ReportSent), RunnerAction::Wait));
    assert_eq!(runner.phase, RunnerPhase::Idle);
    runner.step(RunnerEvent::Tick);
    assert!(matches!(runner.step(RunnerEvent::PollFailed), RunnerAction::Wait));
    assert_eq!(runner.phase, RunnerPhase::Idle);
    runner.step(RunnerEvent::Tick);
    assert!(matches!(runner.step(RunnerEvent::Polled(vec![])), RunnerAction::Wait));
    assert_eq!(runner.phase, RunnerPhase::Idle);
    runner.step(RunnerEvent::Tick);
    runner.step(RunnerEvent::Polled(vec![assignment("m9", "exit 3")]));
    runner.step(RunnerEvent::ClaimAnswered(true));
    match runner.step(RunnerEvent::CommandFinished(CommandResult::finished(Some(3), "", "bad"))) {
        RunnerAction::Report(report) => {
            assert_eq!(report.state, MachineState::Failed);
            assert_eq!(report.exit_code, Some(3));
            assert_eq!(report.stderr, "bad");
        }
        other => panic!("unexpected {other:?}"),
    }
}
