//! What the control plane's services answer, and the reports they receive.

use crate::ids::{MachineId, NodeId};
use crate::model::{MachineState, NodeState};
use crate::sorting::SortKey;
use crate::text::chars_of;
use vstd::prelude::*;

verus! {

/// HTTP status of a request the control plane refuses as malformed.
pub const BAD_REQUEST: u16 = 400;

/// HTTP status of a request about something the control plane does not know.
pub const NOT_FOUND: u16 = 404;

/// HTTP status of a request that conflicts with the current state.
pub const CONFLICT: u16 = 409;

/// HTTP status of a failure on the control plane's side.
pub const INTERNAL_SERVER_ERROR: u16 = 500;

/// A refused request: the HTTP status and the message sent back.
#[derive(Debug)]
pub struct HttpError {
    pub status: u16,
    pub message: String,
}

/// An internal error carrying `message`.
pub fn internal_error(message: String) -> (e: HttpError)
    ensures
        e.status == INTERNAL_SERVER_ERROR,
        e.message == message,
{
    HttpError { status: INTERNAL_SERVER_ERROR, message }
}

/// A node's report of how a machine run ended.
#[derive(Debug)]
pub struct MachineReport {
    pub node_id: NodeId,
    pub machine_id: MachineId,
    pub state: MachineState,
    pub exit_code: Option<i32>,
    pub stdout: String,
    pub stderr: String,
}


/// A pending machine as handed to the worker that must run it.
#[derive(Debug)]
pub struct MachineAssignment {
    pub machine_id: String,
    pub machine_name: String,
    pub command: String,
}

/// A stored machine with its outcome, as listed.
#[derive(Debug)]
pub struct MachineSummary {
    pub machine_id: String,
    pub machine_name: String,
    pub node_id: NodeId,
    pub state: MachineState,
    pub command: String,
    pub exit_code: Option<i32>,
    pub stdout: String,
    pub stderr: String,
}

impl SortKey for MachineSummary {
    open spec fn sort_key(&self) -> Seq<char> {
        self.machine_name@
    }

    fn sort_key_chars(&self) -> (r: Vec<char>) {
        chars_of(self.machine_name.as_str())
    }
}

/// A node as listed, with what the control plane knows of its worker.
#[derive(Debug)]
pub struct NodeSummary {
    pub node_id: NodeId,
    pub name: String,
    pub observed_state: NodeState,
    pub desired_state: NodeState,
    pub cordoned: bool,
    pub draining: bool,
    pub machine_count: usize,
    pub app_port: Option<u16>,
    pub process_id: Option<u32>,
    pub backend: Option<String>,
}

impl SortKey for NodeSummary {
    open spec fn sort_key(&self) -> Seq<char> {
        self.name@
    }

    fn sort_key_chars(&self) -> (r: Vec<char>) {
        chars_of(self.name.as_str())
    }
}

/// What a launch request answers once the worker process is started.
#[derive(Debug)]
pub struct LaunchWorkerResponse {
    pub node_id: NodeId,
    pub app_port: Option<u16>,
    pub backend: String,
    pub process_id: Option<u32>,
    pub observed_state: NodeState,
    pub desired_state: NodeState,
}

/// What a request that changes a node answers.
#[derive(Debug)]
pub struct NodeMutationResponse {
    pub node_id: NodeId,
    pub message: String,
}

/// The outcome of stopping a node: the answer, and whether a worker process
/// launched for it must now be killed.
#[derive(Debug)]
pub struct StoppedNode {
    pub response: NodeMutationResponse,
    pub kill_worker: bool,
}


/// What a machine launch answers.
#[derive(Debug)]
pub struct MachineLaunchResponse {
    pub machine_id: String,
    pub machine_name: String,
    pub node_id: String,
    pub state: MachineState,
    pub command: String,
}

/// What a request that changes a machine answers.
#[derive(Debug)]
pub struct MachineMutationResponse {
    pub machine_id: String,
    pub message: String,
}

} // verus!
