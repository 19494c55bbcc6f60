//! The worker side: how a command is run, what its outcome is reported as.

use crate::responses::{MachineAssignment, MachineReport};
use crate::ids::{MachineId, NodeId};
use crate::model::MachineState;
use crate::text::{trim, trim_spec};
use vstd::prelude::*;

verus! {

/// The `PATH` a command runs with.
pub fn default_command_path(windows: bool) -> (path: &'static str)
    ensures
        path@ == if windows {
            "C:\\Windows\\System32;C:\\Windows;C:\\Windows\\System32\\Wbem"@
        } else {
            "/usr/local/bin:/usr/bin:/bin:/usr/sbin:/sbin"@
        },
{
    if windows {
        "C:\\Windows\\System32;C:\\Windows;C:\\Windows\\System32\\Wbem"
    } else {
        "/usr/local/bin:/usr/bin:/bin:/usr/sbin:/sbin"
    }
}

/// The shell that runs a command and the arguments before the command:
/// `cmd /C` on Windows, `/bin/sh -lc` elsewhere.
pub fn shell(windows: bool) -> (s: (&'static str, &'static str))
    ensures
        s.0@ == if windows {
            "cmd"@
        } else {
            "/bin/sh"@
        },
        s.1@ == if windows {
            "/C"@
        } else {
            "-lc"@
        },
{
    if windows {
        ("cmd", "/C")
    } else {
        ("/bin/sh", "-lc")
    }
}

/// The outcome of running a command.
#[derive(Debug)]
pub struct CommandResult {
    pub exit_code: Option<i32>,
    pub stdout: String,
    pub stderr: String,
}

impl CommandResult {
    /// The outcome of a command that ran: its output with surrounding white space trimmed.
    pub fn finished(exit_code: Option<i32>, stdout: &str, stderr: &str) -> (r: Self)
        ensures
            r.exit_code == exit_code,
            r.stdout@ == trim_spec(stdout@),
            r.stderr@ == trim_spec(stderr@),
    {
        CommandResult {
            exit_code,
            stdout: String::from_str(trim(stdout)),
            stderr: String::from_str(trim(stderr)),
        }
    }

    /// The outcome of a command that could not be started: no exit code, no
    /// output, and the error as its error output.
    pub fn not_started(error: String) -> (r: Self)
        ensures
            r.exit_code is None,
            r.stdout@ == Seq::<char>::empty(),
            r.stderr == error,
    {
        CommandResult { exit_code: None, stdout: String::new(), stderr: error }
    }
}

/// A run succeeded when its exit code is zero; otherwise it failed.
pub fn report_state(exit_code: Option<i32>) -> (s: MachineState)
    ensures
        s == if exit_code == Some(0i32) {
            MachineState::Succeeded
        } else {
            MachineState::Failed
        },
{
    match exit_code {
        Some(0) => MachineState::Succeeded,
        _ => MachineState::Failed,
    }
}

/// The report of node `node_id` on the run of machine `machine_id`.
pub fn report_for(node_id: NodeId, machine_id: MachineId, result: CommandResult) -> (r: MachineReport)
    ensures
        r.node_id == node_id,
        r.machine_id == machine_id,
        r.state == if result.exit_code == Some(0i32) {
            MachineState::Succeeded
        } else {
            MachineState::Failed
        },
        r.exit_code == result.exit_code,
        r.stdout == result.stdout,
        r.stderr == result.stderr,
{
    let state = report_state(result.exit_code);
    MachineReport {
        node_id,
        machine_id,
        state,
        exit_code: result.exit_code,
        stdout: result.stdout,
        stderr: result.stderr,
    }
}

/// Where the machine runner of a worker stands.
#[derive(Debug, Clone, Copy, PartialEq, Eq, Structural)]
pub enum RunnerPhase {
    /// Waiting for the next poll.
    Idle,
    /// Asked the control plane for the node's pending machines.
    Polling,
    /// Asked to claim the current machine.
    Claiming,
    /// Running the current machine's command.
    Running,
    /// Sent the current machine's outcome.
    Reporting,
}

/// What happened since the runner's last step.
#[derive(Debug)]
pub enum RunnerEvent {
    /// The poll interval elapsed.
    Tick,
    /// The control plane listed the node's pending machines.
    Polled(Vec<MachineAssignment>),
    /// Listing the pending machines failed.
    PollFailed,
    /// The control plane accepted the claim, or refused it (or the request failed).
    ClaimAnswered(bool),
    /// The current machine's command ended.
    CommandFinished(CommandResult),
    /// The report was sent, whether or not the control plane accepted it.
    ReportSent,
}

/// What the runner asks its driver to do next.
#[derive(Debug)]
pub enum RunnerAction {
    /// Nothing until the next tick.
    Wait,
    /// List the node's pending machines.
    Poll,
    /// Claim this machine for the node.
    Claim(MachineId),
    /// Run this command.
    Run(String),
    /// Send this report.
    Report(MachineReport),
}

/// The worker's machine runner: each tick it lists the node's pending machines,
/// then claims, runs and reports them one after the other, skipping those whose
/// claim is refused.
#[derive(Debug)]
pub struct MachineRunner {
    pub node_id: NodeId,
    pub phase: RunnerPhase,
    pub current: Option<MachineAssignment>,
    pub queue: Vec<MachineAssignment>,
}

impl MachineRunner {
    /// A machine is at hand whenever one is being claimed, run or reported.
    pub open spec fn wf(&self) -> bool {
        (self.phase == RunnerPhase::Claiming || self.phase == RunnerPhase::Running || self.phase
            == RunnerPhase::Reporting) ==> self.current is Some
    }

    /// The runner moves to the next queued machine, or goes idle when none is left.
    pub open spec fn advanced(before: &MachineRunner, after: &MachineRunner, action: &RunnerAction) -> bool {
        &&& after.node_id == before.node_id
        &&& if before.queue@.len() == 0 {
            &&& after.phase == RunnerPhase::Idle
            &&& after.current is None
            &&& after.queue@ == before.queue@
            &&& *action is Wait
        } else {
            &&& after.phase == RunnerPhase::Claiming
            &&& after.current == Some(before.queue@[0])
            &&& after.queue@ == before.queue@.drop_first()
            &&& *action matches RunnerAction::Claim(id) && id@ == before.queue@[0].machine_id@
        }
    }

    /// An idle runner for node `node_id`.
    pub fn new(node_id: NodeId) -> (r: Self)
        ensures
            r.wf(),
            r.node_id == node_id,
            r.phase == RunnerPhase::Idle,
            r.current is None,
            r.queue@.len() == 0,
    {
        MachineRunner { node_id, phase: RunnerPhase::Idle, current: None, queue: Vec::new() }
    }

    fn advance(&mut self) -> (action: RunnerAction)
        requires
            old(self).wf(),
        ensures
            final(self).wf(),
            Self::advanced(&*old(self), &*final(self), &action),
    {
        if self.queue.len() == 0 {
            self.phase = RunnerPhase::Idle;
            self.current = None;
            RunnerAction::Wait
        } else {
            let next = self.queue.remove(0);
            let id = MachineId::from_text(next.machine_id.as_str());
            self.current = Some(next);
            self.phase = RunnerPhase::Claiming;
            RunnerAction::Claim(id)
        }
    }

    /// Takes one step on `event` and says what to do next. An event that does not
    /// fit the current phase changes nothing.
    pub fn step(&mut self, event: RunnerEvent) -> (action: RunnerAction)
        requires
            old(self).wf(),
        ensures
            final(self).wf(),
            final(self).node_id == old(self).node_id,
            match (old(self).phase, event) {
                (RunnerPhase::Idle, RunnerEvent::Tick) => {
                    &&& final(self).phase == RunnerPhase::Polling
                    &&& final(self).current == old(self).current
                    &&& final(self).queue@ == old(self).queue@
                    &&& action is Poll
                },
                (RunnerPhase::Polling, RunnerEvent::Polled(list)) => {
                    let loaded = MachineRunner { queue: list, ..*old(self) };
                    Self::advanced(&loaded, &*final(self), &action)
                },
                (RunnerPhase::Polling, RunnerEvent::PollFailed) => {
                    &&& final(self).phase == RunnerPhase::Idle
                    &&& final(self).current is None
                    &&& final(self).queue@ == old(self).queue@
                    &&& action is Wait
                },
                (RunnerPhase::Claiming, RunnerEvent::ClaimAnswered(true)) => {
                    &&& final(self).phase == RunnerPhase::Running
                    &&& final(self).current == old(self).current
                    &&& final(self).queue@ == old(self).queue@
                    &&& action matches RunnerAction::Run(command) && command == old(self).current->0.command
                },
                (RunnerPhase::Claiming, RunnerEvent::ClaimAnswered(false)) => Self::advanced(
                    &*old(self),
                    &*final(self),
                    &action,
                ),
                (RunnerPhase::Running, RunnerEvent::CommandFinished(result)) => {
                    &&& final(self).phase == RunnerPhase::Reporting
                    &&& final(self).current == old(self).current
                    &&& final(self).queue@ == old(self).queue@
                    &&& action is Report
                    &&& action->Report_0.node_id == old(self).node_id
                    &&& action->Report_0.machine_id@ == old(self).current->0.machine_id@
                    &&& action->Report_0.state == if result.exit_code == Some(0i32) {
                        MachineState::Succeeded
                    } else {
                        MachineState::Failed
                    }
                    &&& action->Report_0.exit_code == result.exit_code
                    &&& action->Report_0.stdout == result.stdout
                    &&& action->Report_0.stderr == result.stderr
                },
                (RunnerPhase::Reporting, RunnerEvent::ReportSent) => Self::advanced(
                    &*old(self),
                    &*final(self),
                    &action,
                ),
                _ => {
                    &&& final(self).phase == old(self).phase
                    &&& final(self).current == old(self).current
                    &&& final(self).queue@ == old(self).queue@
                    &&& action is Wait
                },
            },
    {
        match (self.phase, event) {
            (RunnerPhase::Idle, RunnerEvent::Tick) => {
                self.phase = RunnerPhase::Polling;
                RunnerAction::Poll
            },
            (RunnerPhase::Polling, RunnerEvent::Polled(list)) => {
                self.queue = list;
                self.advance()
            },
            (RunnerPhase::Polling, RunnerEvent::PollFailed) => {
                self.phase = RunnerPhase::Idle;
                self.current = None;
                RunnerAction::Wait
            },
            (RunnerPhase::Claiming, RunnerEvent::ClaimAnswered(accepted)) => {
                if accepted {
                    self.phase = RunnerPhase::Running;
                    let command = match &self.current {
                        Some(a) => a.command.clone(),
                        None => String::new(),
                    };
                    RunnerAction::Run(command)
                } else {
                    self.advance()
                }
            },
            (RunnerPhase::Running, RunnerEvent::CommandFinished(result)) => {
                self.phase = RunnerPhase::Reporting;
                let machine_id = match &self.current {
                    Some(a) => MachineId::from_text(a.machine_id.as_str()),
                    None => MachineId::from_text(""),
                };
                RunnerAction::Report(report_for(self.node_id.clone(), machine_id, result))
            },
            (RunnerPhase::Reporting, RunnerEvent::ReportSent) => self.advance(),
            _ => RunnerAction::Wait,
        }
    }
}

} // verus!
