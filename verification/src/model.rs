//! Nodes, machines and their states.

use crate::ids::{MachineId, NodeId};
use vstd::prelude::*;

verus! {

/// What the control plane believes, or wants, a node to be doing.
#[derive(Debug, Clone, Copy, PartialEq, Eq, Structural)]
pub enum NodeState {
    Pending,
    Running,
    Stale,
    Timeout,
}

impl NodeState {
    /// The variant's name, as `{:?}` prints it.
    pub open spec fn name_text(self) -> Seq<char> {
        match self {
            NodeState::Pending => "Pending"@,
            NodeState::Running => "Running"@,
            NodeState::Stale => "Stale"@,
            NodeState::Timeout => "Timeout"@,
        }
    }

    /// The variant's name.
    pub fn name(&self) -> (s: &'static str)
        ensures
            s@ == self.name_text(),
    {
        match self {
            NodeState::Pending => "Pending",
            NodeState::Running => "Running",
            NodeState::Stale => "Stale",
            NodeState::Timeout => "Timeout",
        }
    }
}

/// The lifecycle of a machine run.
#[derive(Debug, Clone, Copy, PartialEq, Eq, Structural)]
pub enum MachineState {
    Pending,
    Running,
    Succeeded,
    Failed,
    Stopped,
}

impl MachineState {
    /// A machine is active while it waits to run or runs.
    pub open spec fn active(self) -> bool {
        self == MachineState::Pending || self == MachineState::Running
    }

    /// Whether the machine still waits to run or runs.
    pub fn is_active(&self) -> (b: bool)
        ensures
            b == self.active(),
    {
        *self == MachineState::Pending || *self == MachineState::Running
    }

    /// The variant's name, as `{:?}` prints it.
    pub open spec fn name_text(self) -> Seq<char> {
        match self {
            MachineState::Pending => "Pending"@,
            MachineState::Running => "Running"@,
            MachineState::Succeeded => "Succeeded"@,
            MachineState::Failed => "Failed"@,
            MachineState::Stopped => "Stopped"@,
        }
    }

    /// The variant's name.
    pub fn name(&self) -> (s: &'static str)
        ensures
            s@ == self.name_text(),
    {
        match self {
            MachineState::Pending => "Pending",
            MachineState::Running => "Running",
            MachineState::Succeeded => "Succeeded",
            MachineState::Failed => "Failed",
            MachineState::Stopped => "Stopped",
        }
    }
}

/// A worker node known to the control plane. `last_heartbeat` is a reading of
/// the control plane's monotonic clock, in nanoseconds.
#[derive(Debug)]
pub struct Node {
    pub id: NodeId,
    pub name: String,
    pub observed_state: NodeState,
    pub desired_state: NodeState,
    pub supports_machine_execution: bool,
    pub cordoned: bool,
    pub draining: bool,
    pub last_heartbeat: u64,
}

impl Clone for Node {
    fn clone(&self) -> (r: Self)
        ensures
            r == *self,
    {
        Node {
            id: self.id.clone(),
            name: self.name.clone(),
            observed_state: self.observed_state,
            desired_state: self.desired_state,
            supports_machine_execution: self.supports_machine_execution,
            cordoned: self.cordoned,
            draining: self.draining,
            last_heartbeat: self.last_heartbeat,
        }
    }
}

impl Node {
    /// A node can take new machines when it is observed and desired running,
    /// runs commands, and is neither cordoned nor draining.
    pub open spec fn schedulable(self) -> bool {
        &&& self.observed_state == NodeState::Running
        &&& self.desired_state == NodeState::Running
        &&& self.supports_machine_execution
        &&& !self.cordoned
        &&& !self.draining
    }

    /// Whether the node can take new machines.
    pub fn is_schedulable(&self) -> (b: bool)
        ensures
            b == self.schedulable(),
    {
        self.observed_state == NodeState::Running && self.desired_state == NodeState::Running
            && self.supports_machine_execution && !self.cordoned && !self.draining
    }
}

/// A machine: a one-shot command assigned to a node, with its outcome.
#[derive(Debug)]
pub struct Machine {
    pub id: String,
    pub name: String,
    pub node_id: NodeId,
    pub state: MachineState,
    pub command: String,
    pub exit_code: Option<i32>,
    pub stdout: String,
    pub stderr: String,
}

impl Clone for Machine {
    fn clone(&self) -> (r: Self)
        ensures
            r == *self,
    {
        Machine {
            id: self.id.clone(),
            name: self.name.clone(),
            node_id: self.node_id.clone(),
            state: self.state,
            command: self.command.clone(),
            exit_code: self.exit_code,
            stdout: self.stdout.clone(),
            stderr: self.stderr.clone(),
        }
    }
}

impl Machine {
    /// The one-line description of a machine.
    pub open spec fn description(self) -> Seq<char> {
        "Machine { id: "@ + self.id@ + ", name: "@ + self.name@ + ", node_id: "@
            + self.node_id@ + ", state: "@ + self.state.name_text() + " }"@
    }

    /// Describes the machine on one line.
    pub fn describe(&self) -> (s: String)
        ensures
            s@ == self.description(),
    {
        let mut s = String::from_str("Machine { id: ");
        s.append(self.id.as_str());
        s.append(", name: ");
        s.append(self.name.as_str());
        s.append(", node_id: ");
        s.append(self.node_id.as_str());
        s.append(", state: ");
        s.append(self.state.name());
        s.append(" }");
        s
    }
}

} // verus!
