//! The control plane's state: its nodes, machines and launched workers, and
//! every decision the services make on it.

use crate::ids::{MachineId, NodeId};
use crate::model::{Machine, MachineState, Node, NodeState};
use crate::random::{is_v4_hyphenated_uuid, new_v4_simple};
use crate::responses::{
    HttpError, LaunchWorkerResponse, MachineAssignment, MachineLaunchResponse,
    MachineMutationResponse, MachineReport, MachineSummary, NodeMutationResponse, NodeSummary,
    StoppedNode, BAD_REQUEST, CONFLICT, NOT_FOUND,
};
use crate::rules::{
    after_heartbeat, after_reap, after_register, conflict_message, cordoned_node, count_on_node,
    drain_message, drained_node, insertion_position, is_claimed, is_launched_machine,
    is_placeholder_node, is_registered_node, lemma_schedulable_positions, machine_line,
    node_reasons, node_summary_of, not_owner_message, pending_on, placement,
    schedulable_positions, settle_drain, show_text, stored_under, summary_of, tally,
    uncordoned_node, NodeTally, STALE_AFTER_NS,
};
use crate::sorting::{sort_by_key, sorted_by_key};
use crate::tables::{
    launch_position, machine_position, node_position, unique_launch_nodes, unique_machine_keys,
    unique_node_ids, LaunchRecord, LaunchTable, MachineEntry, MachineTable, NodeTable,
};
use crate::text::{decimal, decimal_string, join_strings, signed_decimal_string, trim, trim_spec, views_of};
use vstd::prelude::*;

verus! {

/// Eight lowercase hex digits taken from a fresh UUID.
pub fn short_id() -> (s: String)
    ensures
        s@.len() == 8,
        forall|i: int| 0 <= i < 8 ==> crate::random::is_lower_hex(#[trigger] s@[i]),
{
    let full = new_v4_simple();
    let head = full.as_str().substring_char(0, 8);
    String::from_str(head)
}

/// The control plane's in-memory state.
pub struct Cluster {
    nodes: NodeTable,
    machines: MachineTable,
    launches: LaunchTable,
}

impl Cluster {
    /// The nodes, in insertion order.
    pub closed spec fn nodes(self) -> Seq<Node> {
        self.nodes@
    }

    /// The stored machines with their keys, in insertion order.
    pub closed spec fn machines(self) -> Seq<MachineEntry> {
        self.machines@
    }

    /// The launched workers, in insertion order.
    pub closed spec fn launches(self) -> Seq<LaunchRecord> {
        self.launches@
    }

    /// No identifier occurs twice in a table.
    pub open spec fn wf(self) -> bool {
        &&& unique_node_ids(self.nodes())
        &&& unique_machine_keys(self.machines())
        &&& unique_launch_nodes(self.launches())
    }

    /// An empty control plane.
    pub fn new() -> (c: Self)
        ensures
            c.wf(),
            c.nodes() == Seq::<Node>::empty(),
            c.machines() == Seq::<MachineEntry>::empty(),
            c.launches() == Seq::<LaunchRecord>::empty(),
    {
        Cluster { nodes: NodeTable::new(), machines: MachineTable::new(), launches: LaunchTable::new() }
    }

    /// The number of known nodes.
    pub fn node_count(&self) -> (n: usize)
        ensures
            n == self.nodes().len(),
    {
        self.nodes.len()
    }

    /// The node with identifier `id`, if known.
    pub fn node(&self, id: &NodeId) -> (r: Option<&Node>)
        requires
            self.wf(),
        ensures
            match node_position(self.nodes(), id@) {
                Some(i) => r == Some(&self.nodes()[i]),
                None => r is None,
            },
    {
        match self.nodes.find(id) {
            Some(i) => Some(self.nodes.get(i)),
            None => None,
        }
    }

    /// The number of stored machines.
    pub fn machine_count(&self) -> (n: usize)
        ensures
            n == self.machines().len(),
    {
        self.machines.len()
    }

    /// The machine stored under `key`, if any.
    pub fn machine(&self, key: &MachineId) -> (r: Option<&Machine>)
        requires
            self.wf(),
        ensures
            match machine_position(self.machines(), key@) {
                Some(i) => r == Some(&self.machines()[i].machine),
                None => r is None,
            },
    {
        match self.machines.find(key) {
            Some(i) => Some(&self.machines.get(i).machine),
            None => None,
        }
    }

    /// Whether a launched worker is recorded for node `id`.
    pub fn has_launched_worker(&self, id: &NodeId) -> (b: bool)
        requires
            self.wf(),
        ensures
            b == launch_position(self.launches(), id@) is Some,
    {
        self.launches.find(id).is_some()
    }

    /// Stores `node`, replacing the node with the same identifier.
    pub fn insert_node(&mut self, node: Node)
        requires
            old(self).wf(),
        ensures
            final(self).wf(),
            final(self).machines() == old(self).machines(),
            final(self).launches() == old(self).launches(),
            match node_position(old(self).nodes(), node.id@) {
                Some(i) => final(self).nodes() == old(self).nodes().update(i, node),
                None => final(self).nodes() == old(self).nodes().push(node),
            },
    {
        self.nodes.insert(node);
    }

    /// Stores `machine` under `key`, replacing what was stored under it.
    pub fn insert_machine(&mut self, key: MachineId, machine: Machine)
        requires
            old(self).wf(),
        ensures
            final(self).wf(),
            final(self).nodes() == old(self).nodes(),
            final(self).launches() == old(self).launches(),
            match machine_position(old(self).machines(), key@) {
                Some(i) => final(self).machines() == old(self).machines().update(
                    i,
                    MachineEntry { key, machine },
                ),
                None => final(self).machines() == old(self).machines().push(
                    MachineEntry { key, machine },
                ),
            },
    {
        self.machines.insert(key, machine);
    }

    /// Records a launched worker process, replacing an earlier record for its node.
    pub fn insert_launch(&mut self, record: LaunchRecord)
        requires
            old(self).wf(),
        ensures
            final(self).wf(),
            final(self).nodes() == old(self).nodes(),
            final(self).machines() == old(self).machines(),
            match launch_position(old(self).launches(), record.node_id@) {
                Some(i) => final(self).launches() == old(self).launches().update(i, record),
                None => final(self).launches() == old(self).launches().push(record),
            },
    {
        self.launches.insert(record);
    }

    /// The number of machines assigned to node `id` (only active ones when `active_only`).
    pub fn count_machines_on(&self, id: &NodeId, active_only: bool) -> (n: usize)
        ensures
            n == count_on_node(self.machines(), id@, active_only),
            n == 0 <==> forall|j: int|
                0 <= j < self.machines().len() ==> !((#[trigger] self.machines()[j]).machine.node_id@
                    == id@ && (!active_only || self.machines()[j].machine.state.active())),
    {
        proof {
            crate::laws::lemma_count_zero_iff_none_on_node(self.machines@, id@, active_only);
        }
        let mut n: usize = 0;
        let mut i: usize = 0;
        let len = self.machines.len();
        while i < len
            invariant
                len == self.machines@.len(),
                i <= len,
                n <= i,
                n == count_on_node(self.machines@.take(i as int), id@, active_only),
            decreases len - i,
        {
            let entry = self.machines.get(i);
            assert(self.machines@.take(i + 1).drop_last() =~= self.machines@.take(i as int));
            if entry.machine.node_id.same_as(id) && (!active_only || entry.machine.state.is_active()) {
                n = n + 1;
            }
            i = i + 1;
        }
        assert(self.machines@.take(len as int) =~= self.machines@);
        n
    }

    /// A worker registers. A known node comes back running and desired running,
    /// with its cordon and drain flags kept; an unknown one is added.
    pub fn register(&mut self, id: &NodeId, supports_machine_execution: Option<bool>, now: u64) -> (reply: &'static str)
        requires
            old(self).wf(),
        ensures
            final(self).wf(),
            final(self).machines() == old(self).machines(),
            final(self).launches() == old(self).launches(),
            ({
                let supports = match supports_machine_execution {
                    Some(b) => b,
                    None => false,
                };
                match node_position(old(self).nodes(), id@) {
                    Some(i) => {
                        &&& final(self).nodes() == old(self).nodes().update(
                            i,
                            after_register(old(self).nodes()[i], supports, now),
                        )
                        &&& reply@ == if old(self).nodes()[i].observed_state == NodeState::Pending {
                            "Worker registered"@
                        } else {
                            "Node already registered"@
                        }
                    },
                    None => {
                        &&& final(self).nodes().len() == old(self).nodes().len() + 1
                        &&& final(self).nodes().drop_last() == old(self).nodes()
                        &&& is_registered_node(final(self).nodes().last(), id@, supports, now)
                        &&& reply@ == "Worker registered"@
                    },
                }
            }),
    {
        let supports = match supports_machine_execution {
            Some(b) => b,
            None => false,
        };
        match self.nodes.find(id) {
            Some(i) => {
                let old_node = self.nodes.get(i);
                let was_pending = old_node.observed_state == NodeState::Pending;
                let mut node = old_node.clone();
                node.last_heartbeat = now;
                node.observed_state = NodeState::Running;
                node.desired_state = NodeState::Running;
                node.supports_machine_execution = supports;
                self.nodes.set(i, node);
                if was_pending {
                    "Worker registered"
                } else {
                    "Node already registered"
                }
            },
            None => {
                let mut name = String::from_str("Node-");
                name.append(id.as_str());
                let node = Node {
                    id: id.clone(),
                    name,
                    observed_state: NodeState::Running,
                    desired_state: NodeState::Running,
                    supports_machine_execution: supports,
                    cordoned: false,
                    draining: false,
                    last_heartbeat: now,
                };
                self.nodes.insert(node);
                assert(self.nodes@.drop_last() =~= old(self).nodes@);
                "Worker registered"
            },
        }
    }

    /// A worker deregisters. Nothing in the state changes.
    pub fn deregister(&self) -> (reply: &'static str)
        ensures
            reply@ == "Worker deregistered"@,
    {
        "Worker deregistered"
    }

    /// A heartbeat from node `id` at time `now`: the node's liveness is refreshed,
    /// a stale, timed-out or pending node is observed running again, and its
    /// desired state, cordon and drain flags stay as they were.
    pub fn heartbeat(&mut self, id: &NodeId, now: u64) -> (reply: &'static str)
        requires
            old(self).wf(),
        ensures
            final(self).wf(),
            final(self).machines() == old(self).machines(),
            final(self).launches() == old(self).launches(),
            match node_position(old(self).nodes(), id@) {
                Some(i) => {
                    &&& final(self).nodes() == old(self).nodes().update(
                        i,
                        after_heartbeat(old(self).nodes()[i], now),
                    )
                    &&& final(self).nodes()[i].cordoned == old(self).nodes()[i].cordoned
                    &&& final(self).nodes()[i].draining == old(self).nodes()[i].draining
                    &&& final(self).nodes()[i].desired_state == old(self).nodes()[i].desired_state
                    &&& reply@ == "Heartbeat received"@
                },
                None => final(self).nodes() == old(self).nodes() && reply@ == "Node not found"@,
            },
    {
        match self.nodes.find(id) {
            Some(i) => {
                let mut node = self.nodes.get(i).clone();
                node.last_heartbeat = now;
                if node.observed_state == NodeState::Stale || node.observed_state
                    == NodeState::Timeout || node.observed_state == NodeState::Pending {
                    node.observed_state = NodeState::Running;
                }
                self.nodes.set(i, node);
                "Heartbeat received"
            },
            None => "Node not found",
        }
    }

    /// Cordons node `id`: it stays registered but takes no new machines.
    pub fn cordon(&mut self, id: &NodeId) -> (reply: &'static str)
        requires
            old(self).wf(),
        ensures
            final(self).wf(),
            final(self).machines() == old(self).machines(),
            final(self).launches() == old(self).launches(),
            match node_position(old(self).nodes(), id@) {
                Some(i) => {
                    &&& final(self).nodes() == old(self).nodes().update(
                        i,
                        cordoned_node(old(self).nodes()[i]),
                    )
                    &&& reply@ == "Node cordoned"@
                },
                None => final(self).nodes() == old(self).nodes() && reply@ == "Node not found"@,
            },
    {
        match self.nodes.find(id) {
            Some(i) => {
                let mut node = self.nodes.get(i).clone();
                node.cordoned = true;
                self.nodes.set(i, node);
                "Node cordoned"
            },
            None => "Node not found",
        }
    }

    /// Uncordons node `id`: both its cordon and drain flags are cleared.
    pub fn uncordon(&mut self, id: &NodeId) -> (reply: &'static str)
        requires
            old(self).wf(),
        ensures
            final(self).wf(),
            final(self).machines() == old(self).machines(),
            final(self).launches() == old(self).launches(),
            match node_position(old(self).nodes(), id@) {
                Some(i) => {
                    &&& final(self).nodes() == old(self).nodes().update(
                        i,
                        uncordoned_node(old(self).nodes()[i]),
                    )
                    &&& reply@ == "Node uncordoned"@
                },
                None => final(self).nodes() == old(self).nodes() && reply@ == "Node not found"@,
            },
    {
        match self.nodes.find(id) {
            Some(i) => {
                let mut node = self.nodes.get(i).clone();
                node.cordoned = false;
                node.draining = false;
                self.nodes.set(i, node);
                "Node uncordoned"
            },
            None => "Node not found",
        }
    }

    /// Drains node `id`: it is cordoned and marked draining, and the answer counts
    /// the active machines still assigned to it.
    pub fn drain(&mut self, id: &NodeId) -> (reply: String)
        requires
            old(self).wf(),
        ensures
            final(self).wf(),
            final(self).machines() == old(self).machines(),
            final(self).launches() == old(self).launches(),
            match node_position(old(self).nodes(), id@) {
                Some(i) => {
                    &&& final(self).nodes() == old(self).nodes().update(
                        i,
                        drained_node(old(self).nodes()[i]),
                    )
                    &&& !final(self).nodes()[i].schedulable()
                    &&& reply@ == drain_message(count_on_node(old(self).machines(), id@, true))
                },
                None => final(self).nodes() == old(self).nodes() && reply@ == "Node not found"@,
            },
    {
        match self.nodes.find(id) {
            Some(i) => {
                let mut node = self.nodes.get(i).clone();
                node.cordoned = true;
                node.draining = true;
                self.nodes.set(i, node);
                let active = self.count_machines_on(id, true);
                let mut reply = String::from_str("Node draining; ");
                let digits = decimal_string(active as u64);
                reply.append(digits.as_str());
                reply.append(" active machine(s) still assigned");
                reply
            },
            None => String::from_str("Node not found"),
        }
    }

    /// Marks stale every node whose last heartbeat is more than
    /// `STALE_AFTER_NS` nanoseconds before `now`; the others stay as they are.
    pub fn mark_stale_nodes(&mut self, now: u64)
        requires
            old(self).wf(),
        ensures
            final(self).wf(),
            final(self).machines() == old(self).machines(),
            final(self).launches() == old(self).launches(),
            final(self).nodes().len() == old(self).nodes().len(),
            forall|i: int|
                0 <= i < old(self).nodes().len() ==> #[trigger] final(self).nodes()[i] == after_reap(
                    old(self).nodes()[i],
                    now,
                ),
            forall|i: int|
                0 <= i < old(self).nodes().len() ==> if now >= old(self).nodes()[i].last_heartbeat && now
                    - old(self).nodes()[i].last_heartbeat > 10_000_000_000u64 {
                    (#[trigger] final(self).nodes()[i]).observed_state == NodeState::Stale
                        && final(self).nodes()[i].cordoned == old(self).nodes()[i].cordoned
                        && final(self).nodes()[i].draining == old(self).nodes()[i].draining
                        && final(self).nodes()[i].last_heartbeat == old(self).nodes()[i].last_heartbeat
                } else {
                    final(self).nodes()[i] == old(self).nodes()[i]
                },
    {
        let len = self.nodes.len();
        let mut i: usize = 0;
        while i < len
            invariant
                self.nodes.wf(),
                len == self.nodes@.len(),
                len == old(self).nodes@.len(),
                i <= len,
                self.machines == old(self).machines,
                self.launches == old(self).launches,
                forall|j: int| 0 <= j < i ==> #[trigger] self.nodes@[j] == after_reap(old(self).nodes@[j], now),
                forall|j: int| i <= j < len ==> #[trigger] self.nodes@[j] == old(self).nodes@[j],
            decreases len - i,
        {
            let n = self.nodes.get(i);
            if now >= n.last_heartbeat && now - n.last_heartbeat > STALE_AFTER_NS {
                let mut node = n.clone();
                node.observed_state = NodeState::Stale;
                self.nodes.set(i, node);
            }
            i = i + 1;
        }
    }

    /// Starts launching a worker for node `node_id`: refused when the node is
    /// already known, otherwise a pending placeholder is added.
    pub fn begin_node_launch_with(&mut self, node_id: NodeId, now: u64) -> (r: Result<NodeId, HttpError>)
        requires
            old(self).wf(),
        ensures
            final(self).wf(),
            final(self).machines() == old(self).machines(),
            final(self).launches() == old(self).launches(),
            match node_position(old(self).nodes(), node_id@) {
                Some(_) => {
                    &&& final(self).nodes() == old(self).nodes()
                    &&& r is Err && r->Err_0.status == CONFLICT && r->Err_0.message@ == "Node '"@
                        + node_id@ + "' already exists"@
                },
                None => {
                    &&& r matches Ok(id) && id@ == node_id@
                    &&& final(self).nodes().len() == old(self).nodes().len() + 1
                    &&& final(self).nodes().drop_last() == old(self).nodes()
                    &&& is_placeholder_node(final(self).nodes().last(), node_id@, now)
                },
            },
    {
        if self.nodes.find(&node_id).is_some() {
            let mut message = String::from_str("Node '");
            message.append(node_id.as_str());
            message.append("' already exists");
            return Err(HttpError { status: CONFLICT, message });
        }
        let mut name = String::from_str("Node-");
        name.append(node_id.as_str());
        let placeholder = Node {
            id: node_id.clone(),
            name,
            observed_state: NodeState::Pending,
            desired_state: NodeState::Running,
            supports_machine_execution: false,
            cordoned: false,
            draining: false,
            last_heartbeat: now,
        };
        self.nodes.insert(placeholder);
        assert(self.nodes@.drop_last() =~= old(self).nodes@);
        Ok(node_id)
    }

    /// Starts launching a worker, for the requested node or else for a node named
    /// `worker-node-` and eight random hex digits.
    pub fn begin_node_launch(&mut self, requested: Option<NodeId>, now: u64) -> (r: Result<NodeId, HttpError>)
        requires
            old(self).wf(),
        ensures
            final(self).wf(),
            final(self).machines() == old(self).machines(),
            final(self).launches() == old(self).launches(),
            requested matches Some(id) ==> (r is Ok <==> node_position(old(self).nodes(), id@) is None),
            requested matches Some(id) ==> (r is Ok ==> r->Ok_0@ == id@),
            requested matches Some(id) ==> (r is Err ==> r->Err_0.message@ == "Node '"@ + id@
                + "' already exists"@),
            requested is None ==> (r matches Ok(id) ==> id@.len() == 20 && id@.subrange(0, 12)
                == "worker-node-"@ && forall|i: int|
                12 <= i < 20 ==> crate::random::is_lower_hex(#[trigger] id@[i])),
            r is Ok ==> ({
                let id = r->Ok_0@;
                &&& node_position(old(self).nodes(), id) is None
                &&& final(self).nodes().drop_last() == old(self).nodes()
                &&& final(self).nodes().len() == old(self).nodes().len() + 1
                &&& is_placeholder_node(final(self).nodes().last(), id, now)
            }),
            r is Err ==> r->Err_0.status == CONFLICT && final(self).nodes() == old(self).nodes(),
    {
        let node_id = match requested {
            Some(id) => id,
            None => {
                let mut text = String::from_str("worker-node-");
                let suffix = short_id();
                text.append(suffix.as_str());
                proof {
                    reveal_strlit("worker-node-");
                    assert(text@.subrange(0, 12) =~= "worker-node-"@);
                }
                NodeId::from_string(text)
            },
        };
        self.begin_node_launch_with(node_id, now)
    }

    /// Records that the worker of node `node_id` runs, and builds the answer to
    /// the launch request.
    pub fn finish_node_launch(&mut self, node_id: NodeId, process_id: Option<u32>, backend: &str) -> (r: LaunchWorkerResponse)
        requires
            old(self).wf(),
        ensures
            final(self).wf(),
            final(self).nodes() == old(self).nodes(),
            final(self).machines() == old(self).machines(),
            ({
                match launch_position(old(self).launches(), node_id@) {
                    Some(i) => final(self).launches().len() == old(self).launches().len()
                        && final(self).launches()[i].node_id == node_id
                        && final(self).launches()[i].process_id == process_id
                        && final(self).launches()[i].backend@ == backend@
                        && forall|j: int| 0 <= j < old(self).launches().len() && j != i
                            ==> #[trigger] final(self).launches()[j] == old(self).launches()[j],
                    None => final(self).launches().drop_last() == old(self).launches()
                        && final(self).launches().len() == old(self).launches().len() + 1
                        && final(self).launches().last().node_id == node_id
                        && final(self).launches().last().process_id == process_id
                        && final(self).launches().last().backend@ == backend@,
                }
            }),
            r.node_id == node_id,
            r.app_port is None,
            r.backend@ == backend@,
            r.process_id == process_id,
            r.observed_state == NodeState::Pending,
            r.desired_state == NodeState::Running,
    {
        let record = LaunchRecord {
            node_id: node_id.clone(),
            process_id,
            backend: String::from_str(backend),
        };
        self.launches.insert(record);
        proof {
            if launch_position(old(self).launches@, node_id@) is None {
                assert(self.launches@.drop_last() =~= old(self).launches@);
            }
        }
        LaunchWorkerResponse {
            node_id,
            app_port: None,
            backend: String::from_str(backend),
            process_id,
            observed_state: NodeState::Pending,
            desired_state: NodeState::Running,
        }
    }

    /// Undoes a launch whose worker could not be started: the node is forgotten.
    pub fn abort_node_launch(&mut self, node_id: &NodeId)
        requires
            old(self).wf(),
        ensures
            final(self).wf(),
            final(self).machines() == old(self).machines(),
            final(self).launches() == old(self).launches(),
            match node_position(old(self).nodes(), node_id@) {
                Some(i) => final(self).nodes() == old(self).nodes().remove(i),
                None => final(self).nodes() == old(self).nodes(),
            },
    {
        if let Some(i) = self.nodes.find(node_id) {
            self.nodes.remove(i);
        }
    }

    /// Stops node `id`: refused while active machines are assigned to it or when it
    /// is unknown; otherwise the node and its launch record are removed, and the
    /// launched worker, if there was one, is to be killed.
    pub fn stop_node(&mut self, id: &NodeId) -> (r: Result<StoppedNode, HttpError>)
        requires
            old(self).wf(),
        ensures
            final(self).wf(),
            final(self).machines() == old(self).machines(),
            ({
                let active = count_on_node(old(self).machines(), id@, true);
                if active > 0 {
                    &&& final(self).nodes() == old(self).nodes()
                    &&& final(self).launches() == old(self).launches()
                    &&& r is Err && r->Err_0.status == CONFLICT && r->Err_0.message@ == "Cannot stop node '"@
                        + id@ + "' while "@ + decimal(active) + " active machine(s) are still assigned"@
                } else {
                    match node_position(old(self).nodes(), id@) {
                        None => {
                            &&& final(self).nodes() == old(self).nodes()
                            &&& final(self).launches() == old(self).launches()
                            &&& r is Err && r->Err_0.status == NOT_FOUND && r->Err_0.message@ == "Node '"@
                                + id@ + "' not found"@
                        },
                        Some(i) => {
                            &&& final(self).nodes() == old(self).nodes().remove(i)
                            &&& r is Ok
                            &&& r->Ok_0.response.node_id@ == id@
                            &&& match launch_position(old(self).launches(), id@) {
                                Some(j) => {
                                    &&& final(self).launches() == old(self).launches().remove(j)
                                    &&& r->Ok_0.kill_worker
                                    &&& r->Ok_0.response.message@ == "Worker stopped"@
                                },
                                None => {
                                    &&& final(self).launches() == old(self).launches()
                                    &&& !r->Ok_0.kill_worker
                                    &&& r->Ok_0.response.message@ == "Node deregistered"@
                                },
                            }
                        },
                    }
                }
            }),
    {
        let active = self.count_machines_on(id, true);
        if active > 0 {
            let mut message = String::from_str("Cannot stop node '");
            message.append(id.as_str());
            message.append("' while ");
            let digits = decimal_string(active as u64);
            message.append(digits.as_str());
            message.append(" active machine(s) are still assigned");
            return Err(HttpError { status: CONFLICT, message });
        }
        match self.nodes.find(id) {
            None => {
                let mut message = String::from_str("Node '");
                message.append(id.as_str());
                message.append("' not found");
                Err(HttpError { status: NOT_FOUND, message })
            },
            Some(i) => {
                self.nodes.remove(i);
                match self.launches.find(id) {
                    Some(j) => {
                        self.launches.remove(j);
                        Ok(
                            StoppedNode {
                                response: NodeMutationResponse {
                                    node_id: id.clone(),
                                    message: String::from_str("Worker stopped"),
                                },
                                kill_worker: true,
                            },
                        )
                    },
                    None => Ok(
                        StoppedNode {
                            response: NodeMutationResponse {
                                node_id: id.clone(),
                                message: String::from_str("Node deregistered"),
                            },
                            kill_worker: false,
                        },
                    ),
                }
            },
        }
    }

    /// The number of schedulable nodes.
    pub fn schedulable_count(&self) -> (n: usize)
        ensures
            n == schedulable_positions(self.nodes()).len(),
    {
        let positions = self.schedulable_node_positions();
        positions.len()
    }

    fn schedulable_node_positions(&self) -> (r: Vec<usize>)
        ensures
            r@.len() == schedulable_positions(self.nodes()).len(),
            forall|k: int| 0 <= k < r@.len() ==> #[trigger] r@[k] as int == schedulable_positions(self.nodes())[k],
    {
        let len = self.nodes.len();
        let mut r: Vec<usize> = Vec::new();
        let mut i: usize = 0;
        while i < len
            invariant
                len == self.nodes@.len(),
                i <= len,
                r@.len() == schedulable_positions(self.nodes@.take(i as int)).len(),
                forall|k: int| 0 <= k < r@.len() ==> #[trigger] r@[k] as int == schedulable_positions(self.nodes@.take(i as int))[k],
            decreases len - i,
        {
            assert(self.nodes@.take(i + 1).drop_last() =~= self.nodes@.take(i as int));
            if self.nodes.get(i).is_schedulable() {
                r.push(i);
            }
            i = i + 1;
        }
        assert(self.nodes@.take(len as int) =~= self.nodes@);
        r
    }

    /// The number of nodes counted under `t`.
    fn tally_nodes(&self, t: NodeTally) -> (n: usize)
        ensures
            n == tally(self.nodes(), t),
    {
        let len = self.nodes.len();
        let mut n: usize = 0;
        let mut i: usize = 0;
        while i < len
            invariant
                len == self.nodes@.len(),
                i <= len,
                n <= i,
                n == tally(self.nodes@.take(i as int), t),
            decreases len - i,
        {
            assert(self.nodes@.take(i + 1).drop_last() =~= self.nodes@.take(i as int));
            let node = self.nodes.get(i);
            let counted = match t {
                NodeTally::Ready => node.is_schedulable(),
                NodeTally::Legacy => !node.supports_machine_execution,
                NodeTally::NotRunning => node.observed_state != NodeState::Running,
                NodeTally::Blocked => node.cordoned || node.draining,
            };
            if counted {
                n = n + 1;
            }
            i = i + 1;
        }
        assert(self.nodes@.take(len as int) =~= self.nodes@);
        n
    }

    /// The reasons why node `n` cannot take machines.
    fn reasons_for(n: &Node) -> (r: Vec<String>)
        ensures
            views_of(r@) == node_reasons(*n),
    {
        let mut r: Vec<String> = Vec::new();
        if n.observed_state != NodeState::Running {
            let mut s = String::from_str("observed_state=");
            s.append(n.observed_state.name());
            r.push(s);
        }
        assert(views_of(r@) =~= if n.observed_state != NodeState::Running {
            seq!["observed_state="@ + n.observed_state.name_text()]
        } else {
            Seq::empty()
        });
        let ghost a = views_of(r@);
        if n.desired_state != NodeState::Running {
            let mut s = String::from_str("desired_state=");
            s.append(n.desired_state.name());
            r.push(s);
        }
        assert(views_of(r@) =~= a + if n.desired_state != NodeState::Running {
            seq!["desired_state="@ + n.desired_state.name_text()]
        } else {
            Seq::empty()
        });
        let ghost b = views_of(r@);
        if !n.supports_machine_execution {
            r.push(String::from_str("execution=legacy"));
        }
        assert(views_of(r@) =~= b + if !n.supports_machine_execution {
            seq!["execution=legacy"@]
        } else {
            Seq::empty()
        });
        let ghost c = views_of(r@);
        if n.cordoned {
            r.push(String::from_str("cordoned=true"));
        }
        assert(views_of(r@) =~= c + if n.cordoned {
            seq!["cordoned=true"@]
        } else {
            Seq::empty()
        });
        let ghost d = views_of(r@);
        if n.draining {
            r.push(String::from_str("draining=true"));
        }
        assert(views_of(r@) =~= d + if n.draining {
            seq!["draining=true"@]
        } else {
            Seq::empty()
        });
        r
    }

    /// Explains why a launch of machine `machine_name` found no node.
    pub fn launch_conflict_message(&self, requested: Option<&NodeId>, machine_name: &str) -> (m: String)
        requires
            self.wf(),
        ensures
            m@ == conflict_message(
                self.nodes(),
                match requested {
                    Some(id) => Some(id@),
                    None => None,
                },
                machine_name@,
            ),
    {
        match requested {
            Some(id) => match self.nodes.find(id) {
                Some(i) => {
                    let node = self.nodes.get(i);
                    let reasons = Self::reasons_for(node);
                    let mut m = String::from_str("Node '");
                    m.append(id.as_str());
                    if reasons.len() == 0 {
                        m.append("' is unavailable for machine placement right now.");
                    } else {
                        m.append("' cannot run machines right now: ");
                        let joined = join_strings(&reasons, ", ");
                        m.append(joined.as_str());
                        m.append(".");
                    }
                    m
                },
                None => {
                    let mut m = String::from_str("Node '");
                    m.append(id.as_str());
                    m.append("' was not found.");
                    m
                },
            },
            None => {
                let total = self.nodes.len();
                if total == 0 {
                    let mut m = String::from_str("No nodes are registered yet, so machine '");
                    m.append(machine_name);
                    m.append("' has nowhere to run.");
                    m
                } else {
                    let ready = self.tally_nodes(NodeTally::Ready);
                    let legacy = self.tally_nodes(NodeTally::Legacy);
                    let not_running = self.tally_nodes(NodeTally::NotRunning);
                    let blocked = self.tally_nodes(NodeTally::Blocked);
                    let mut m = String::from_str("No schedulable nodes are available for machine '");
                    m.append(machine_name);
                    m.append("'. total_nodes=");
                    m.append(decimal_string(total as u64).as_str());
                    m.append(", ready=");
                    m.append(decimal_string(ready as u64).as_str());
                    m.append(", legacy=");
                    m.append(decimal_string(legacy as u64).as_str());
                    m.append(", not_running=");
                    m.append(decimal_string(not_running as u64).as_str());
                    m.append(", blocked=");
                    m.append(decimal_string(blocked as u64).as_str());
                    m.append(".");
                    m
                }
            },
        }
    }

    /// Launches machine `machine_name` running `command` (trimmed): refused when the
    /// command is blank, or with a conflict when no node can take it; otherwise the
    /// machine is stored pending under `machine_id` on the node `placement` picks:
    /// the requested node, or the `pick`-th schedulable one.
    pub fn launch_machine_with(
        &mut self,
        machine_name: &str,
        command: &str,
        requested: Option<&NodeId>,
        pick: Option<usize>,
        machine_id: MachineId,
    ) -> (r: Result<MachineLaunchResponse, HttpError>)
        requires
            old(self).wf(),
            requested is None ==> (pick is None <==> schedulable_positions(old(self).nodes()).len()
                == 0),
            requested is None ==> (pick matches Some(k) ==> k < schedulable_positions(
                old(self).nodes(),
            ).len()),
        ensures
            final(self).wf(),
            final(self).launches() == old(self).launches(),
            final(self).nodes() == old(self).nodes(),
            ({
                let req = match requested {
                    Some(id) => Some(id@),
                    None => None,
                };
                if trim_spec(command@).len() == 0 {
                    &&& final(self).machines() == old(self).machines()
                    &&& r matches Err(e) && e.status == BAD_REQUEST && e.message@
                        == "Machine command must not be empty"@
                } else {
                    match placement(old(self).nodes(), req, pick) {
                        None => {
                            &&& final(self).machines() == old(self).machines()
                            &&& r matches Err(e) && e.status == CONFLICT && e.message@
                                == conflict_message(old(self).nodes(), req, machine_name@)
                        },
                        Some(i) => {
                            let p = insertion_position(old(self).machines(), machine_id@);
                            &&& 0 <= i < old(self).nodes().len()
                            &&& old(self).nodes()[i].schedulable()
                            &&& stored_under(old(self).machines(), final(self).machines(), machine_id@)
                            &&& is_launched_machine(
                                final(self).machines()[p].machine,
                                machine_id@,
                                machine_name@,
                                old(self).nodes()[i].id,
                                trim_spec(command@),
                            )
                            &&& r is Ok
                            &&& r->Ok_0.machine_id@ == machine_id@
                            &&& r->Ok_0.machine_name@ == machine_name@
                            &&& r->Ok_0.node_id@ == old(self).nodes()[i].id@
                            &&& r->Ok_0.state == MachineState::Pending
                            &&& r->Ok_0.command@ == trim_spec(command@)
                        },
                    }
                }
            }),
    {
        let trimmed = trim(command);
        if trimmed.unicode_len() == 0 {
            return Err(
                HttpError {
                    status: BAD_REQUEST,
                    message: String::from_str("Machine command must not be empty"),
                },
            );
        }
        proof {
            lemma_schedulable_positions(self.nodes@);
        }
        let chosen: Option<usize> = match requested {
            Some(id) => match self.nodes.find(id) {
                Some(i) => if self.nodes.get(i).is_schedulable() {
                    Some(i)
                } else {
                    None
                },
                None => None,
            },
            None => match pick {
                Some(k) => {
                    let positions = self.schedulable_node_positions();
                    Some(positions[k])
                },
                None => None,
            },
        };
        match chosen {
            None => {
                let message = self.launch_conflict_message(requested, machine_name);
                Err(HttpError { status: CONFLICT, message })
            },
            Some(i) => {
                let node_id = self.nodes.get(i).id.clone();
                let response = MachineLaunchResponse {
                    machine_id: String::from_str(machine_id.as_str()),
                    machine_name: String::from_str(machine_name),
                    node_id: String::from_str(node_id.as_str()),
                    state: MachineState::Pending,
                    command: String::from_str(trimmed),
                };
                let machine = Machine {
                    id: String::from_str(machine_id.as_str()),
                    name: String::from_str(machine_name),
                    node_id,
                    state: MachineState::Pending,
                    command: String::from_str(trimmed),
                    exit_code: None,
                    stdout: String::new(),
                    stderr: String::new(),
                };
                self.machines.insert(machine_id, machine);
                Ok(response)
            },
        }
    }

    /// Launches machine `machine_name` running `command`: on the requested node, or
    /// on a schedulable node picked at random, under a fresh random identifier.
    pub fn launch_machine(&mut self, machine_name: &str, command: &str, requested: Option<&NodeId>) -> (r: Result<MachineLaunchResponse, HttpError>)
        requires
            old(self).wf(),
        ensures
            final(self).wf(),
            final(self).launches() == old(self).launches(),
            final(self).nodes() == old(self).nodes(),
            trim_spec(command@).len() == 0 ==> final(self).machines() == old(self).machines() && r is Err
                && r->Err_0.status == BAD_REQUEST && r->Err_0.message@
                == "Machine command must not be empty"@,
            r is Ok ==> r->Ok_0.machine_name@ == machine_name@ && r->Ok_0.command@ == trim_spec(
                command@,
            ) && r->Ok_0.state == MachineState::Pending,
            r is Ok ==> is_v4_hyphenated_uuid(r->Ok_0.machine_id@),
            requested matches Some(id) ==> trim_spec(command@).len() > 0 ==> match node_position(old(self).nodes(), id@) {
                Some(i) => if old(self).nodes()[i].schedulable() {
                    r is Ok && r->Ok_0.node_id@ == id@
                } else {
                    r is Err && r->Err_0.status == CONFLICT
                },
                None => r is Err && r->Err_0.status == CONFLICT,
            },
            requested is None ==> trim_spec(command@).len() > 0 ==> (r is Ok
                <==> schedulable_positions(old(self).nodes()).len() > 0),
            r is Err ==> final(self).machines() == old(self).machines(),
            r is Err && trim_spec(command@).len() > 0 ==> r->Err_0.status == CONFLICT && r->Err_0.message@
                == conflict_message(
                old(self).nodes(),
                match requested {
                    Some(id) => Some(id@),
                    None => None,
                },
                machine_name@,
            ),
            r is Ok ==> exists|i: int|
                0 <= i < old(self).nodes().len() && old(self).nodes()[i].schedulable()
                    && r->Ok_0.node_id@ == (#[trigger] old(self).nodes()[i]).id@
                    && stored_under(old(self).machines(), final(self).machines(), r->Ok_0.machine_id@)
                    && is_launched_machine(
                    final(self).machines()[insertion_position(old(self).machines(), r->Ok_0.machine_id@)].machine,
                    r->Ok_0.machine_id@,
                    machine_name@,
                    old(self).nodes()[i].id,
                    trim_spec(command@),
                ),
    {
        let pick = match requested {
            Some(_) => None,
            None => crate::random::random_index(self.schedulable_count()),
        };
        let machine_id = MachineId::new();
        let r = self.launch_machine_with(machine_name, command, requested, pick, machine_id);
        proof {
            if r is Ok {
                let req = match requested {
                    Some(id) => Some(id@),
                    None => None,
                };
                let i = placement(old(self).nodes@, req, pick)->0;
                assert(old(self).nodes()[i].schedulable());
            }
        }
        r
    }

    /// Removes the machine stored under `machine_id`. When that leaves a draining
    /// node without active machines, the node leaves draining and stays cordoned.
    pub fn stop_machine(&mut self, machine_id: &MachineId) -> (r: MachineMutationResponse)
        requires
            old(self).wf(),
        ensures
            final(self).wf(),
            final(self).launches() == old(self).launches(),
            r.machine_id@ == machine_id@,
            match machine_position(old(self).machines(), machine_id@) {
                Some(j) => {
                    let m = old(self).machines()[j].machine;
                    &&& final(self).machines() == old(self).machines().remove(j)
                    &&& final(self).nodes() == settle_drain(
                        old(self).nodes(),
                        m.node_id@,
                        count_on_node(final(self).machines(), m.node_id@, true),
                    )
                    &&& r.message@ == "Removed machine: id="@ + machine_id@ + ", name="@ + m.name@
                },
                None => {
                    &&& final(self).machines() == old(self).machines()
                    &&& final(self).nodes() == old(self).nodes()
                    &&& r.message@ == "No machine found with id="@ + machine_id@
                },
            },
    {
        match self.machines.find(machine_id) {
            Some(j) => {
                let entry = self.machines.remove(j);
                let node_id = entry.machine.node_id;
                self.settle_node_drain(&node_id);
                let mut message = String::from_str("Removed machine: id=");
                message.append(machine_id.as_str());
                message.append(", name=");
                message.append(entry.machine.name.as_str());
                MachineMutationResponse { machine_id: String::from_str(machine_id.as_str()), message }
            },
            None => {
                let mut message = String::from_str("No machine found with id=");
                message.append(machine_id.as_str());
                MachineMutationResponse { machine_id: String::from_str(machine_id.as_str()), message }
            },
        }
    }

    /// Lets node `node_id` leave draining when no active machine remains on it.
    fn settle_node_drain(&mut self, node_id: &NodeId)
        requires
            old(self).wf(),
        ensures
            final(self).wf(),
            final(self).machines() == old(self).machines(),
            final(self).launches() == old(self).launches(),
            final(self).nodes() == settle_drain(
                old(self).nodes(),
                node_id@,
                count_on_node(old(self).machines(), node_id@, true),
            ),
    {
        let remaining = self.count_machines_on(node_id, true);
        match self.nodes.find(node_id) {
            Some(i) => {
                if self.nodes.get(i).draining && remaining == 0 {
                    let mut node = self.nodes.get(i).clone();
                    node.draining = false;
                    self.nodes.set(i, node);
                }
            },
            None => {},
        }
    }

    /// The refusal of a request by node `node_id` about a machine owned by another node.
    fn not_owner_error(machine_id: &MachineId, owner: &NodeId, node_id: &NodeId) -> (e: HttpError)
        ensures
            e.status == CONFLICT,
            e.message@ == not_owner_message(machine_id@, owner@, node_id@),
    {
        let mut message = String::from_str("Machine '");
        message.append(machine_id.as_str());
        message.append("' is assigned to node '");
        message.append(owner.as_str());
        message.append("', not '");
        message.append(node_id.as_str());
        message.append("'");
        HttpError { status: CONFLICT, message }
    }

    /// The refusal of a request about an unknown machine.
    fn machine_not_found(machine_id: &MachineId) -> (e: HttpError)
        ensures
            e.status == NOT_FOUND,
            e.message@ == "Machine '"@ + machine_id@ + "' not found"@,
    {
        let mut message = String::from_str("Machine '");
        message.append(machine_id.as_str());
        message.append("' not found");
        HttpError { status: NOT_FOUND, message }
    }

    /// Node `node_id` claims machine `machine_id` to run it: refused when the machine
    /// is unknown, owned by another node, or not pending; otherwise it runs, with
    /// its exit code and output cleared.
    pub fn claim_machine(&mut self, node_id: &NodeId, machine_id: &MachineId) -> (r: Result<MachineMutationResponse, HttpError>)
        requires
            old(self).wf(),
        ensures
            final(self).wf(),
            final(self).launches() == old(self).launches(),
            final(self).nodes() == old(self).nodes(),
            match machine_position(old(self).machines(), machine_id@) {
                None => final(self).machines() == old(self).machines() && r is Err && r->Err_0.status
                    == NOT_FOUND && r->Err_0.message@ == "Machine '"@ + machine_id@ + "' not found"@,
                Some(j) => {
                    let m = old(self).machines()[j].machine;
                    if m.node_id@ != node_id@ {
                        final(self).machines() == old(self).machines() && r is Err && r->Err_0.status
                            == CONFLICT && r->Err_0.message@ == not_owner_message(machine_id@, m.node_id@, node_id@)
                    } else if m.state != MachineState::Pending {
                        final(self).machines() == old(self).machines() && r is Err && r->Err_0.status
                            == CONFLICT && r->Err_0.message@ == "Machine '"@ + machine_id@ + "' is already in state "@
                            + m.state.name_text()
                    } else {
                        &&& final(self).machines().len() == old(self).machines().len()
                        &&& forall|k: int| 0 <= k < old(self).machines().len() && k != j ==> #[trigger] final(self).machines()[k] == old(self).machines()[k]
                        &&& final(self).machines()[j].key == old(self).machines()[j].key
                        &&& is_claimed(final(self).machines()[j].machine, m)
                        &&& r is Ok
                        &&& r->Ok_0.machine_id@ == machine_id@
                        &&& r->Ok_0.message@ == "Machine '"@ + machine_id@ + "' claimed for execution"@
                    }
                },
            },
    {
        let j = match self.machines.find(machine_id) {
            Some(j) => j,
            None => {
                return Err(Self::machine_not_found(machine_id));
            },
        };
        let m = &self.machines.get(j).machine;
        if !m.node_id.same_as(node_id) {
            return Err(Self::not_owner_error(machine_id, &m.node_id, node_id));
        }
        if m.state != MachineState::Pending {
            let mut message = String::from_str("Machine '");
            message.append(machine_id.as_str());
            message.append("' is already in state ");
            message.append(m.state.name());
            return Err(HttpError { status: CONFLICT, message });
        }
        let mut updated = m.clone();
        updated.state = MachineState::Running;
        updated.exit_code = None;
        updated.stdout = String::new();
        updated.stderr = String::new();
        self.machines.set_machine(j, updated);
        let mut message = String::from_str("Machine '");
        message.append(machine_id.as_str());
        message.append("' claimed for execution");
        Ok(MachineMutationResponse { machine_id: String::from_str(machine_id.as_str()), message })
    }

    /// Node `report.node_id` reports the outcome of machine `report.machine_id`:
    /// refused when the machine is unknown or owned by another node; otherwise its
    /// state, exit code and output are recorded, and when it is no longer active
    /// a draining node without active machines leaves draining.
    pub fn report_machine(&mut self, report: MachineReport) -> (r: Result<MachineMutationResponse, HttpError>)
        requires
            old(self).wf(),
        ensures
            final(self).wf(),
            final(self).launches() == old(self).launches(),
            match machine_position(old(self).machines(), report.machine_id@) {
                None => final(self).machines() == old(self).machines() && final(self).nodes() == old(self).nodes()
                    && r is Err && r->Err_0.status == NOT_FOUND && r->Err_0.message@ == "Machine '"@
                    + report.machine_id@ + "' not found"@,
                Some(j) => {
                    let m = old(self).machines()[j].machine;
                    if m.node_id@ != report.node_id@ {
                        final(self).machines() == old(self).machines() && final(self).nodes() == old(self).nodes()
                            && r is Err && r->Err_0.status == CONFLICT && r->Err_0.message@ == not_owner_message(
                            report.machine_id@,
                            m.node_id@,
                            report.node_id@,
                        )
                    } else {
                        &&& final(self).machines().len() == old(self).machines().len()
                        &&& forall|k: int| 0 <= k < old(self).machines().len() && k != j ==> #[trigger] final(self).machines()[k] == old(self).machines()[k]
                        &&& final(self).machines()[j].key == old(self).machines()[j].key
                        &&& final(self).machines()[j].machine == Machine {
                            state: report.state,
                            exit_code: report.exit_code,
                            stdout: report.stdout,
                            stderr: report.stderr,
                            ..m
                        }
                        &&& final(self).nodes() == if report.state.active() {
                            old(self).nodes()
                        } else {
                            settle_drain(
                                old(self).nodes(),
                                m.node_id@,
                                count_on_node(final(self).machines(), m.node_id@, true),
                            )
                        }
                        &&& r is Ok
                        &&& r->Ok_0.machine_id@ == report.machine_id@
                        &&& r->Ok_0.message@ == "Recorded machine '"@ + report.machine_id@ + "' result as "@
                            + report.state.name_text()
                    }
                },
            },
    {
        let MachineReport { node_id, machine_id, state, exit_code, stdout, stderr } = report;
        let j = match self.machines.find(&machine_id) {
            Some(j) => j,
            None => {
                return Err(Self::machine_not_found(&machine_id));
            },
        };
        let m = &self.machines.get(j).machine;
        if !m.node_id.same_as(&node_id) {
            return Err(Self::not_owner_error(&machine_id, &m.node_id, &node_id));
        }
        let mut updated = m.clone();
        updated.state = state;
        updated.exit_code = exit_code;
        updated.stdout = stdout;
        updated.stderr = stderr;
        let owner = updated.node_id.clone();
        self.machines.set_machine(j, updated);
        if !state.is_active() {
            self.settle_node_drain(&owner);
        }
        let mut message = String::from_str("Recorded machine '");
        message.append(machine_id.as_str());
        message.append("' result as ");
        message.append(state.name());
        Ok(MachineMutationResponse { machine_id: String::from_str(machine_id.as_str()), message })
    }

    /// The machines pending on node `node_id`, for its worker to claim and run.
    pub fn assignments_for(&self, node_id: &NodeId) -> (r: Vec<MachineAssignment>)
        ensures
            r@.len() == pending_on(self.machines(), node_id@).len(),
            forall|k: int|
                0 <= k < r@.len() ==> {
                    let m = pending_on(self.machines(), node_id@)[k];
                    &&& (#[trigger] r@[k]).machine_id == m.id
                    &&& r@[k].machine_name == m.name
                    &&& r@[k].command == m.command
                },
            forall|k: int|
                0 <= k < r@.len() ==> #[trigger] crate::laws::hands_out_stored(
                    r@[k],
                    self.machines(),
                    node_id@,
                ),
            forall|j: int|
                0 <= j < self.machines().len() && (#[trigger] self.machines()[j]).machine.node_id@
                    == node_id@ && self.machines()[j].machine.state == MachineState::Pending
                    ==> exists|k: int|
                    0 <= k < r@.len() && (#[trigger] r@[k]).machine_id == self.machines()[j].machine.id,
    {
        let len = self.machines.len();
        let mut r: Vec<MachineAssignment> = Vec::new();
        let mut i: usize = 0;
        while i < len
            invariant
                len == self.machines@.len(),
                i <= len,
                r@.len() == pending_on(self.machines@.take(i as int), node_id@).len(),
                forall|k: int|
                    0 <= k < r@.len() ==> {
                        let m = pending_on(self.machines@.take(i as int), node_id@)[k];
                        &&& (#[trigger] r@[k]).machine_id == m.id
                        &&& r@[k].machine_name == m.name
                        &&& r@[k].command == m.command
                    },
            decreases len - i,
        {
            assert(self.machines@.take(i + 1).drop_last() =~= self.machines@.take(i as int));
            let m = &self.machines.get(i).machine;
            if m.node_id.same_as(node_id) && m.state == MachineState::Pending {
                r.push(
                    MachineAssignment {
                        machine_id: m.id.clone(),
                        machine_name: m.name.clone(),
                        command: m.command.clone(),
                    },
                );
            }
            i = i + 1;
        }
        assert(self.machines@.take(len as int) =~= self.machines@);
        proof {
            crate::laws::lemma_assignments_describe_pending_machines(self.machines@, node_id@, r@);
        }
        r
    }

    /// Describes one stored machine in detail, or lists them all one per line.
    pub fn show(&self, machine_id: Option<&MachineId>) -> (text: String)
        requires
            self.wf(),
        ensures
            text@ == show_text(
                self.machines(),
                match machine_id {
                    Some(id) => Some(id@),
                    None => None,
                },
            ),
    {
        let len = self.machines.len();
        if len == 0 {
            return String::from_str("No machines stored");
        }
        match machine_id {
            Some(key) => match self.machines.find(key) {
                Some(j) => {
                    let m = &self.machines.get(j).machine;
                    let mut t = String::from_str("Machine found: id=");
                    t.append(key.as_str());
                    t.append(", name=");
                    t.append(m.name.as_str());
                    t.append(", node_id=");
                    t.append(m.node_id.as_str());
                    t.append(", state=");
                    t.append(m.state.name());
                    t.append(", command=");
                    t.append(m.command.as_str());
                    t.append(", exit_code=");
                    match m.exit_code {
                        Some(c) => {
                            t.append("Some(");
                            t.append(signed_decimal_string(c as i64).as_str());
                            t.append(")");
                        },
                        None => {
                            t.append("None");
                        },
                    }
                    t.append("\nstdout:\n");
                    t.append(m.stdout.as_str());
                    t.append("\nstderr:\n");
                    t.append(m.stderr.as_str());
                    t
                },
                None => {
                    let mut t = String::from_str("No machine found with id=");
                    t.append(key.as_str());
                    t
                },
            },
            None => {
                let mut lines: Vec<String> = Vec::new();
                let mut i: usize = 0;
                while i < len
                    invariant
                        len == self.machines@.len(),
                        i <= len,
                        views_of(lines@) == self.machines@.take(i as int).map_values(
                            |e: MachineEntry| machine_line(e),
                        ),
                    decreases len - i,
                {
                    let e = self.machines.get(i);
                    let mut line = String::from_str("id=");
                    line.append(e.key.as_str());
                    line.append(", name=");
                    line.append(e.machine.name.as_str());
                    line.append(", node_id=");
                    line.append(e.machine.node_id.as_str());
                    line.append(", state=");
                    line.append(e.machine.state.name());
                    line.append(", command=");
                    line.append(e.machine.command.as_str());
                    assert(line@ == machine_line(*e));
                    let ghost old_lines = lines@;
                    lines.push(line);
                    assert(views_of(lines@) =~= views_of(old_lines).push(machine_line(*e)));
                    assert(self.machines@.take(i + 1) =~= self.machines@.take(i as int).push(*e));
                    i = i + 1;
                    assert(views_of(lines@) =~= self.machines@.take(i as int).map_values(
                        |e: MachineEntry| machine_line(e),
                    ));
                }
                assert(self.machines@.take(len as int) =~= self.machines@);
                join_strings(&lines, "\n")
            },
        }
    }

    /// The stored machines' summaries, ordered by machine name.
    pub fn machine_summaries(&self) -> (r: Vec<MachineSummary>)
        ensures
            r@.to_multiset() == self.machines().map_values(|e: MachineEntry| summary_of(e)).to_multiset(),
            sorted_by_key(r@),
            r@.len() == self.machines().len(),
            forall|k: int|
                0 <= k < r@.len() ==> exists|j: int|
                    0 <= j < self.machines().len() && {
                        let m = (#[trigger] self.machines()[j]).machine;
                        &&& (#[trigger] r@[k]).machine_id == m.id
                        &&& r@[k].machine_name == m.name
                        &&& r@[k].node_id == m.node_id
                        &&& r@[k].state == m.state
                        &&& r@[k].command == m.command
                        &&& r@[k].exit_code == m.exit_code
                        &&& r@[k].stdout == m.stdout
                        &&& r@[k].stderr == m.stderr
                    },
    {
        let len = self.machines.len();
        let mut list: Vec<MachineSummary> = Vec::new();
        let mut i: usize = 0;
        while i < len
            invariant
                len == self.machines@.len(),
                i <= len,
                list@ == self.machines@.take(i as int).map_values(|e: MachineEntry| summary_of(e)),
            decreases len - i,
        {
            let m = &self.machines.get(i).machine;
            list.push(
                MachineSummary {
                    machine_id: m.id.clone(),
                    machine_name: m.name.clone(),
                    node_id: m.node_id.clone(),
                    state: m.state,
                    command: m.command.clone(),
                    exit_code: m.exit_code,
                    stdout: m.stdout.clone(),
                    stderr: m.stderr.clone(),
                },
            );
            i = i + 1;
            assert(list@ =~= self.machines@.take(i as int).map_values(|e: MachineEntry| summary_of(e)));
        }
        assert(self.machines@.take(len as int) =~= self.machines@);
        let r = sort_by_key(list);
        proof {
            broadcast use vstd::seq_lib::group_to_multiset_ensures;

            let mapped = self.machines@.map_values(|e: MachineEntry| summary_of(e));
            assert forall|k: int| 0 <= k < r@.len() implies exists|j: int|
                0 <= j < self.machines@.len() && {
                    let m = (#[trigger] self.machines@[j]).machine;
                    &&& (#[trigger] r@[k]).machine_id == m.id
                    &&& r@[k].machine_name == m.name
                    &&& r@[k].node_id == m.node_id
                    &&& r@[k].state == m.state
                    &&& r@[k].command == m.command
                    &&& r@[k].exit_code == m.exit_code
                    &&& r@[k].stdout == m.stdout
                    &&& r@[k].stderr == m.stderr
                } by {
                assert(r@.contains(r@[k]));
                assert(r@.to_multiset().count(r@[k]) > 0);
                assert(mapped.contains(r@[k]));
                let j = choose|j: int| 0 <= j < mapped.len() && mapped[j] == r@[k];
                assert(mapped[j] == summary_of(self.machines@[j]));
            }
        }
        r
    }

    /// The nodes' summaries, ordered by node name.
    pub fn node_summaries(&self) -> (r: Vec<NodeSummary>)
        requires
            self.wf(),
        ensures
            r@.to_multiset() == self.nodes().map_values(
                |n: Node| node_summary_of(n, self.machines(), self.launches()),
            ).to_multiset(),
            sorted_by_key(r@),
            r@.len() == self.nodes().len(),
            forall|k: int|
                0 <= k < r@.len() ==> exists|i: int|
                    0 <= i < self.nodes().len() && {
                        let n = #[trigger] self.nodes()[i];
                        &&& (#[trigger] r@[k]).node_id == n.id
                        &&& r@[k].name == n.name
                        &&& r@[k].observed_state == n.observed_state
                        &&& r@[k].desired_state == n.desired_state
                        &&& r@[k].cordoned == n.cordoned
                        &&& r@[k].draining == n.draining
                        &&& r@[k].machine_count == count_on_node(self.machines(), n.id@, false) as usize
                        &&& r@[k].app_port is None
                        &&& crate::laws::reports_launch(
                            r@[k].process_id,
                            r@[k].backend,
                            n.id@,
                            self.launches(),
                        )
                    },
    {
        let len = self.nodes.len();
        let mut list: Vec<NodeSummary> = Vec::new();
        let mut i: usize = 0;
        while i < len
            invariant
                self.wf(),
                len == self.nodes@.len(),
                i <= len,
                list@ == self.nodes@.take(i as int).map_values(
                    |n: Node| node_summary_of(n, self.machines@, self.launches@),
                ),
            decreases len - i,
        {
            let n = self.nodes.get(i);
            let count = self.count_machines_on(&n.id, false);
            let (process_id, backend) = match self.launches.find(&n.id) {
                Some(j) => {
                    let rec = self.launches.get(j);
                    (rec.process_id, Some(rec.backend.clone()))
                },
                None => (None, None),
            };
            list.push(
                NodeSummary {
                    node_id: n.id.clone(),
                    name: n.name.clone(),
                    observed_state: n.observed_state,
                    desired_state: n.desired_state,
                    cordoned: n.cordoned,
                    draining: n.draining,
                    machine_count: count,
                    app_port: None,
                    process_id,
                    backend,
                },
            );
            i = i + 1;
            assert(list@ =~= self.nodes@.take(i as int).map_values(
                |n: Node| node_summary_of(n, self.machines@, self.launches@),
            ));
        }
        assert(self.nodes@.take(len as int) =~= self.nodes@);
        let r = sort_by_key(list);
        proof {
            broadcast use vstd::seq_lib::group_to_multiset_ensures;

            let mapped = self.nodes@.map_values(
                |n: Node| node_summary_of(n, self.machines@, self.launches@),
            );
            assert forall|k: int| 0 <= k < r@.len() implies exists|i: int|
                0 <= i < self.nodes@.len() && {
                    let n = #[trigger] self.nodes@[i];
                    &&& (#[trigger] r@[k]).node_id == n.id
                    &&& r@[k].name == n.name
                    &&& r@[k].observed_state == n.observed_state
                    &&& r@[k].desired_state == n.desired_state
                    &&& r@[k].cordoned == n.cordoned
                    &&& r@[k].draining == n.draining
                    &&& r@[k].machine_count == count_on_node(self.machines@, n.id@, false) as usize
                    &&& r@[k].app_port is None
                    &&& crate::laws::reports_launch(
                        r@[k].process_id,
                        r@[k].backend,
                        n.id@,
                        self.launches@,
                    )
                } by {
                assert(r@.contains(r@[k]));
                assert(r@.to_multiset().count(r@[k]) > 0);
                assert(mapped.contains(r@[k]));
                let i = choose|i: int| 0 <= i < mapped.len() && mapped[i] == r@[k];
                assert(mapped[i] == node_summary_of(self.nodes@[i], self.machines@, self.launches@));
                let id = self.nodes@[i].id@;
                match launch_position(self.launches@, id) {
                    Some(l) => {
                        assert(self.launches@[l].node_id@ == id);
                    },
                    None => {},
                }
            }
        }
        r
    }
}

} // verus!
