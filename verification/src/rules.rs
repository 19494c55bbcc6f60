//! The rules of the control plane, stated over its tables: how each request
//! changes a node, where a machine goes, and what the answers say.

use crate::ids::NodeId;
use crate::model::{Machine, MachineState, Node, NodeState};
use crate::responses::{MachineSummary, NodeSummary};
use crate::tables::{launch_position, machine_position, node_position, LaunchRecord, MachineEntry};
use crate::text::{decimal, join, signed_decimal};
use vstd::prelude::*;

verus! {

/// A node whose last heartbeat is older than this many nanoseconds (ten seconds) is stale.
pub const STALE_AFTER_NS: u64 = 10000000000;

/// The number of machines assigned to node `id`, only the active ones when
/// `active_only` holds.
pub open spec fn count_on_node(entries: Seq<MachineEntry>, id: Seq<char>, active_only: bool) -> nat
    decreases entries.len(),
{
    if entries.len() == 0 {
        0
    } else {
        let m = entries.last().machine;
        count_on_node(entries.drop_last(), id, active_only) + if m.node_id@ == id && (!active_only
            || m.state.active()) {
            1nat
        } else {
            0nat
        }
    }
}

/// The state of a node after a heartbeat at time `now`: liveness refreshed, flags kept.
pub open spec fn after_heartbeat(n: Node, now: u64) -> Node {
    Node {
        last_heartbeat: now,
        observed_state: if n.observed_state == NodeState::Stale || n.observed_state
            == NodeState::Timeout || n.observed_state == NodeState::Pending {
            NodeState::Running
        } else {
            n.observed_state
        },
        ..n
    }
}

/// A node after it is cordoned.
pub open spec fn cordoned_node(n: Node) -> Node {
    Node { cordoned: true, ..n }
}

/// A node after it is uncordoned: neither cordoned nor draining.
pub open spec fn uncordoned_node(n: Node) -> Node {
    Node { cordoned: false, draining: false, ..n }
}

/// A node after it is drained: cordoned and draining.
pub open spec fn drained_node(n: Node) -> Node {
    Node { cordoned: true, draining: true, ..n }
}

/// The state of a known node after it registers again.
pub open spec fn after_register(n: Node, supports: bool, now: u64) -> Node {
    Node {
        last_heartbeat: now,
        observed_state: NodeState::Running,
        desired_state: NodeState::Running,
        supports_machine_execution: supports,
        ..n
    }
}

/// A node that registers for the first time.
pub open spec fn is_registered_node(n: Node, id: Seq<char>, supports: bool, now: u64) -> bool {
    &&& n.id@ == id
    &&& n.name@ == "Node-"@ + id
    &&& n.observed_state == NodeState::Running
    &&& n.desired_state == NodeState::Running
    &&& n.supports_machine_execution == supports
    &&& !n.cordoned
    &&& !n.draining
    &&& n.last_heartbeat == now
}

/// The placeholder a launch creates until the worker registers.
pub open spec fn is_placeholder_node(n: Node, id: Seq<char>, now: u64) -> bool {
    &&& n.id@ == id
    &&& n.name@ == "Node-"@ + id
    &&& n.observed_state == NodeState::Pending
    &&& n.desired_state == NodeState::Running
    &&& !n.supports_machine_execution
    &&& !n.cordoned
    &&& !n.draining
    &&& n.last_heartbeat == now
}

/// The state of a node after the reaper looked at it at time `now`.
pub open spec fn after_reap(n: Node, now: u64) -> Node {
    if now >= n.last_heartbeat && now - n.last_heartbeat > STALE_AFTER_NS {
        Node { observed_state: NodeState::Stale, ..n }
    } else {
        n
    }
}

/// The message of a drain request.
pub open spec fn drain_message(active: nat) -> Seq<char> {
    "Node draining; "@ + decimal(active) + " active machine(s) still assigned"@
}


/// The positions of the schedulable nodes, in table order.
pub open spec fn schedulable_positions(nodes: Seq<Node>) -> Seq<int>
    decreases nodes.len(),
{
    if nodes.len() == 0 {
        Seq::empty()
    } else {
        let rest = schedulable_positions(nodes.drop_last());
        if nodes.last().schedulable() {
            rest.push(nodes.len() - 1)
        } else {
            rest
        }
    }
}

/// Every listed position holds a schedulable node, in increasing order.
pub proof fn lemma_schedulable_positions(nodes: Seq<Node>)
    ensures
        forall|k: int|
            0 <= k < schedulable_positions(nodes).len() ==> 0 <= #[trigger] schedulable_positions(
                nodes,
            )[k] < nodes.len() && nodes[schedulable_positions(nodes)[k]].schedulable(),
        schedulable_positions(nodes).len() <= nodes.len(),
    decreases nodes.len(),
{
    if nodes.len() > 0 {
        lemma_schedulable_positions(nodes.drop_last());
    }
}

/// The node position a launch places a machine on: the requested node when it is
/// schedulable, otherwise the `pick`-th schedulable node.
pub open spec fn placement(nodes: Seq<Node>, requested: Option<Seq<char>>, pick: Option<usize>) -> Option<int> {
    match requested {
        Some(id) => match node_position(nodes, id) {
            Some(i) => if nodes[i].schedulable() {
                Some(i)
            } else {
                None
            },
            None => None,
        },
        None => match pick {
            Some(k) => Some(schedulable_positions(nodes)[k as int]),
            None => None,
        },
    }
}

/// What a node count in a refusal counts.
pub enum NodeTally {
    Ready,
    Legacy,
    NotRunning,
    Blocked,
}

/// Whether node `n` is counted under `tally`.
pub open spec fn tallied(n: Node, tally: NodeTally) -> bool {
    match tally {
        NodeTally::Ready => n.schedulable(),
        NodeTally::Legacy => !n.supports_machine_execution,
        NodeTally::NotRunning => n.observed_state != NodeState::Running,
        NodeTally::Blocked => n.cordoned || n.draining,
    }
}

/// The number of nodes counted under `tally`.
pub open spec fn tally(nodes: Seq<Node>, t: NodeTally) -> nat
    decreases nodes.len(),
{
    if nodes.len() == 0 {
        0
    } else {
        tally(nodes.drop_last(), t) + if tallied(nodes.last(), t) {
            1nat
        } else {
            0nat
        }
    }
}

/// Why node `n` cannot take machines, one reason per failed condition.
pub open spec fn node_reasons(n: Node) -> Seq<Seq<char>> {
    let observed = if n.observed_state != NodeState::Running {
        seq!["observed_state="@ + n.observed_state.name_text()]
    } else {
        Seq::empty()
    };
    let desired = if n.desired_state != NodeState::Running {
        seq!["desired_state="@ + n.desired_state.name_text()]
    } else {
        Seq::empty()
    };
    let legacy = if !n.supports_machine_execution {
        seq!["execution=legacy"@]
    } else {
        Seq::empty()
    };
    let cordoned = if n.cordoned {
        seq!["cordoned=true"@]
    } else {
        Seq::empty()
    };
    let draining = if n.draining {
        seq!["draining=true"@]
    } else {
        Seq::empty()
    };
    observed + desired + legacy + cordoned + draining
}

/// The message of a launch that found no node for machine `machine_name`.
pub open spec fn conflict_message(nodes: Seq<Node>, requested: Option<Seq<char>>, machine_name: Seq<char>) -> Seq<char> {
    match requested {
        Some(id) => match node_position(nodes, id) {
            Some(i) => {
                let reasons = node_reasons(nodes[i]);
                if reasons.len() == 0 {
                    "Node '"@ + id + "' is unavailable for machine placement right now."@
                } else {
                    "Node '"@ + id + "' cannot run machines right now: "@ + join(reasons, ", "@)
                        + "."@
                }
            },
            None => "Node '"@ + id + "' was not found."@,
        },
        None => if nodes.len() == 0 {
            "No nodes are registered yet, so machine '"@ + machine_name + "' has nowhere to run."@
        } else {
            "No schedulable nodes are available for machine '"@ + machine_name
                + "'. total_nodes="@ + decimal(nodes.len()) + ", ready="@ + decimal(
                tally(nodes, NodeTally::Ready),
            ) + ", legacy="@ + decimal(tally(nodes, NodeTally::Legacy)) + ", not_running="@
                + decimal(tally(nodes, NodeTally::NotRunning)) + ", blocked="@ + decimal(
                tally(nodes, NodeTally::Blocked),
            ) + "."@
        },
    }
}

/// Where `insert_machine` leaves the entry stored under `key`.
pub open spec fn insertion_position(before: Seq<MachineEntry>, key: Seq<char>) -> int {
    match machine_position(before, key) {
        Some(j) => j,
        None => before.len() as int,
    }
}

/// `after` is `before` with an entry stored under `key` at `insertion_position`.
pub open spec fn stored_under(before: Seq<MachineEntry>, after: Seq<MachineEntry>, key: Seq<char>) -> bool {
    let p = insertion_position(before, key);
    &&& after.len() == if machine_position(before, key) is Some {
        before.len()
    } else {
        before.len() + 1
    }
    &&& after[p].key@ == key
    &&& forall|j: int| 0 <= j < before.len() && j != p ==> #[trigger] after[j] == before[j]
}

/// A machine that a launch creates.
pub open spec fn is_launched_machine(m: Machine, id: Seq<char>, name: Seq<char>, node_id: NodeId, command: Seq<char>) -> bool {
    &&& m.id@ == id
    &&& m.name@ == name
    &&& m.node_id == node_id
    &&& m.state == MachineState::Pending
    &&& m.command@ == command
    &&& m.exit_code is None
    &&& m.stdout@ == Seq::<char>::empty()
    &&& m.stderr@ == Seq::<char>::empty()
}

/// A finished machine lets a draining node leave draining once no active machine
/// remains on it; the node stays cordoned.
pub open spec fn settle_drain(nodes: Seq<Node>, node_id: Seq<char>, remaining: nat) -> Seq<Node> {
    match node_position(nodes, node_id) {
        Some(i) => if nodes[i].draining && remaining == 0 {
            nodes.update(i, Node { draining: false, ..nodes[i] })
        } else {
            nodes
        },
        None => nodes,
    }
}


/// The refusal of a request by node `node` about machine `machine` owned by `owner`.
pub open spec fn not_owner_message(machine: Seq<char>, owner: Seq<char>, node: Seq<char>) -> Seq<char> {
    "Machine '"@ + machine + "' is assigned to node '"@ + owner + "', not '"@ + node + "'"@
}

/// Machine `after` is machine `before` claimed: running, with exit code and output cleared.
pub open spec fn is_claimed(after: Machine, before: Machine) -> bool {
    &&& after.id == before.id
    &&& after.name == before.name
    &&& after.node_id == before.node_id
    &&& after.command == before.command
    &&& after.state == MachineState::Running
    &&& after.exit_code is None
    &&& after.stdout@ == Seq::<char>::empty()
    &&& after.stderr@ == Seq::<char>::empty()
}

/// The machines pending on node `id`, in table order.
pub open spec fn pending_on(entries: Seq<MachineEntry>, id: Seq<char>) -> Seq<Machine>
    decreases entries.len(),
{
    if entries.len() == 0 {
        Seq::empty()
    } else {
        let rest = pending_on(entries.drop_last(), id);
        let m = entries.last().machine;
        if m.node_id@ == id && m.state == MachineState::Pending {
            rest.push(m)
        } else {
            rest
        }
    }
}

/// An exit code as `{:?}` prints an `Option<i32>`.
pub open spec fn debug_exit_code(code: Option<i32>) -> Seq<char> {
    match code {
        Some(c) => "Some("@ + signed_decimal(c as int) + ")"@,
        None => "None"@,
    }
}

/// The detailed description of the machine stored under `key`.
pub open spec fn machine_detail(key: Seq<char>, m: Machine) -> Seq<char> {
    "Machine found: id="@ + key + ", name="@ + m.name@ + ", node_id="@ + m.node_id@ + ", state="@
        + m.state.name_text() + ", command="@ + m.command@ + ", exit_code="@ + debug_exit_code(
        m.exit_code,
    ) + "\nstdout:\n"@ + m.stdout@ + "\nstderr:\n"@ + m.stderr@
}

/// The one-line description of a stored machine in a listing.
pub open spec fn machine_line(e: MachineEntry) -> Seq<char> {
    "id="@ + e.key@ + ", name="@ + e.machine.name@ + ", node_id="@ + e.machine.node_id@
        + ", state="@ + e.machine.state.name_text() + ", command="@ + e.machine.command@
}

/// What the show request answers, for one machine or for all of them.
pub open spec fn show_text(entries: Seq<MachineEntry>, requested: Option<Seq<char>>) -> Seq<char> {
    if entries.len() == 0 {
        "No machines stored"@
    } else {
        match requested {
            Some(key) => match machine_position(entries, key) {
                Some(j) => machine_detail(key, entries[j].machine),
                None => "No machine found with id="@ + key,
            },
            None => join(entries.map_values(|e: MachineEntry| machine_line(e)), "\n"@),
        }
    }
}

/// A machine's summary in a listing.
pub open spec fn summary_of(e: MachineEntry) -> MachineSummary {
    MachineSummary {
        machine_id: e.machine.id,
        machine_name: e.machine.name,
        node_id: e.machine.node_id,
        state: e.machine.state,
        command: e.machine.command,
        exit_code: e.machine.exit_code,
        stdout: e.machine.stdout,
        stderr: e.machine.stderr,
    }
}

/// A node's summary in a listing: its machine count and, when the control plane
/// launched its worker, the worker's process and backend.
pub open spec fn node_summary_of(n: Node, machines: Seq<MachineEntry>, launches: Seq<LaunchRecord>) -> NodeSummary {
    let rec = launch_position(launches, n.id@);
    NodeSummary {
        node_id: n.id,
        name: n.name,
        observed_state: n.observed_state,
        desired_state: n.desired_state,
        cordoned: n.cordoned,
        draining: n.draining,
        machine_count: count_on_node(machines, n.id@, false) as usize,
        app_port: None,
        process_id: match rec {
            Some(j) => launches[j].process_id,
            None => None,
        },
        backend: match rec {
            Some(j) => Some(launches[j].backend),
            None => None,
        },
    }
}

} // verus!
