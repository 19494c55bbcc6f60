//! Properties of the control plane's operations, stated over their inputs and
//! results, and properties that relate several operations.

use crate::model::{Machine, MachineState, Node, NodeState};
use crate::responses::MachineAssignment;
use crate::rules::{
    after_heartbeat, after_reap, cordoned_node, count_on_node, drained_node, insertion_position,
    node_summary_of, pending_on, settle_drain, stored_under, summary_of, uncordoned_node,
};
use crate::tables::{
    launch_position, machine_position, node_position, unique_machine_keys, unique_node_ids,
    LaunchRecord, MachineEntry,
};
use vstd::prelude::*;

verus! {

/// A node that just sent a heartbeat is not marked stale by a reaper running at
/// the same moment.
pub proof fn lemma_fresh_heartbeat_is_not_reaped(n: Node, now: u64)
    ensures
        after_reap(after_heartbeat(n, now), now) == after_heartbeat(n, now),
{
}

/// A node the reaper marked stale is observed running again after its next
/// heartbeat, whenever that comes; its cordon and drain flags are untouched by both.
pub proof fn lemma_heartbeat_revives_stale_node(n: Node, reaped_at: u64, now: u64)
    requires
        after_reap(n, reaped_at).observed_state == NodeState::Stale,
    ensures
        after_heartbeat(after_reap(n, reaped_at), now).observed_state == NodeState::Running,
        after_heartbeat(after_reap(n, reaped_at), now).cordoned == n.cordoned,
        after_heartbeat(after_reap(n, reaped_at), now).draining == n.draining,
{
}

/// Uncordoning a schedulable node that was cordoned, or drained, gives back the
/// node as it was, schedulable again.
pub proof fn lemma_uncordon_undoes_cordon_and_drain(n: Node)
    requires
        n.schedulable(),
    ensures
        uncordoned_node(cordoned_node(n)) == n,
        uncordoned_node(drained_node(n)) == n,
        !cordoned_node(n).schedulable(),
        !drained_node(n).schedulable(),
{
}

/// Aborting a launch removes exactly the placeholder it added: the node table is
/// as it was before the launch began.
pub proof fn lemma_aborted_launch_restores_nodes(nodes: Seq<Node>, placeholder: Node)
    requires
        unique_node_ids(nodes),
        node_position(nodes, placeholder.id@) is None,
    ensures
        unique_node_ids(nodes.push(placeholder)),
        node_position(nodes.push(placeholder), placeholder.id@) == Some(nodes.len() as int),
        nodes.push(placeholder).remove(nodes.len() as int) == nodes,
{
    let after = nodes.push(placeholder);
    assert(after[nodes.len() as int].id@ == placeholder.id@);
    let c = choose|i: int| 0 <= i < after.len() && (#[trigger] after[i]).id@ == placeholder.id@;
    if c != nodes.len() {
        assert(nodes[c].id@ == placeholder.id@);
    }
    assert(after.remove(nodes.len() as int) =~= nodes);
}

/// When the last active machine of a draining node goes, the node leaves draining
/// and stays cordoned; while active machines remain, nothing changes.
pub proof fn lemma_drain_completes(nodes: Seq<Node>, id: Seq<char>, remaining: nat)
    requires
        unique_node_ids(nodes),
    ensures
        remaining > 0 ==> settle_drain(nodes, id, remaining) == nodes,
        node_position(nodes, id) matches Some(i) ==> {
            &&& settle_drain(nodes, id, remaining).len() == nodes.len()
            &&& settle_drain(nodes, id, remaining)[i].cordoned == nodes[i].cordoned
            &&& remaining == 0 ==> !settle_drain(nodes, id, remaining)[i].draining
            &&& forall|k: int|
                0 <= k < nodes.len() && k != i ==> #[trigger] settle_drain(nodes, id, remaining)[k]
                    == nodes[k]
        },
{
}

/// Claiming a pending machine takes it out of its node's assignments: the worker
/// is not handed it again.
pub proof fn lemma_claim_leaves_assignments(entries: Seq<MachineEntry>, j: int, claimed: Machine)
    requires
        0 <= j < entries.len(),
        entries[j].machine.state == MachineState::Pending,
        claimed.node_id == entries[j].machine.node_id,
        claimed.state == MachineState::Running,
    ensures
        pending_on(
            entries.update(j, MachineEntry { key: entries[j].key, machine: claimed }),
            claimed.node_id@,
        ).len() + 1 == pending_on(entries, claimed.node_id@).len(),
    decreases entries.len(),
{
    let after = entries.update(j, MachineEntry { key: entries[j].key, machine: claimed });
    let id = claimed.node_id@;
    if j == entries.len() - 1 {
        assert(after.drop_last() =~= entries.drop_last());
    } else {
        lemma_claim_leaves_assignments(entries.drop_last(), j, claimed);
        assert(after.drop_last() =~= entries.drop_last().update(
            j,
            MachineEntry { key: entries[j].key, machine: claimed },
        ));
        assert(after.last() == entries.last());
    }
}

/// A machine stored by a launch is found again under its identifier, where the
/// launch put it: a claim, report, stop or show of that identifier reaches it.
pub proof fn lemma_stored_machine_is_found(
    before: Seq<MachineEntry>,
    after: Seq<MachineEntry>,
    key: Seq<char>,
)
    requires
        unique_machine_keys(after),
        stored_under(before, after, key),
    ensures
        machine_position(after, key) == Some(insertion_position(before, key)),
{
    let p = insertion_position(before, key);
    assert(0 <= p < after.len());
    assert(after[p].key@ == key);
    let c = choose|i: int| 0 <= i < after.len() && (#[trigger] after[i]).key@ == key;
    assert(c == p);
}

/// Every machine a node's worker is handed is a machine stored for that very node
/// and still pending; no other node's machine is ever handed out.
pub proof fn lemma_assignments_are_pending_on_the_node(entries: Seq<MachineEntry>, id: Seq<char>)
    ensures
        forall|k: int|
            0 <= k < pending_on(entries, id).len() ==> {
                &&& (#[trigger] pending_on(entries, id)[k]).node_id@ == id
                &&& pending_on(entries, id)[k].state == MachineState::Pending
                &&& exists|j: int|
                    0 <= j < entries.len() && (#[trigger] entries[j]).machine == pending_on(
                        entries,
                        id,
                    )[k]
            },
    decreases entries.len(),
{
    if entries.len() > 0 {
        let rest = entries.drop_last();
        lemma_assignments_are_pending_on_the_node(rest, id);
        let p = pending_on(entries, id);
        assert forall|k: int| 0 <= k < p.len() implies {
            &&& (#[trigger] p[k]).node_id@ == id
            &&& p[k].state == MachineState::Pending
            &&& exists|j: int| 0 <= j < entries.len() && (#[trigger] entries[j]).machine == p[k]
        } by {
            if k < pending_on(rest, id).len() {
                assert(p[k] == pending_on(rest, id)[k]);
                let j = choose|j: int|
                    0 <= j < rest.len() && (#[trigger] rest[j]).machine == pending_on(rest, id)[k];
                assert(entries[j] == rest[j]);
            } else {
                assert(entries[entries.len() - 1].machine == p[k]);
            }
        }
    }
}

/// Every machine pending on a node is among those its worker is handed.
pub proof fn lemma_pending_machines_are_assigned(entries: Seq<MachineEntry>, id: Seq<char>)
    ensures
        forall|j: int|
            0 <= j < entries.len() && (#[trigger] entries[j]).machine.node_id@ == id
                && entries[j].machine.state == MachineState::Pending ==> pending_on(
                entries,
                id,
            ).contains(entries[j].machine),
    decreases entries.len(),
{
    if entries.len() > 0 {
        let rest = entries.drop_last();
        lemma_pending_machines_are_assigned(rest, id);
        assert forall|j: int|
            0 <= j < entries.len() && (#[trigger] entries[j]).machine.node_id@ == id
                && entries[j].machine.state == MachineState::Pending implies pending_on(
            entries,
            id,
        ).contains(entries[j].machine) by {
            let p = pending_on(entries, id);
            if j < rest.len() {
                assert(rest[j] == entries[j]);
                let k = choose|k: int|
                    0 <= k < pending_on(rest, id).len() && pending_on(rest, id)[k] == rest[j].machine;
                assert(p[k] == pending_on(rest, id)[k]);
            } else {
                assert(p[p.len() - 1] == entries[j].machine);
            }
        }
    }
}

/// A node has no machines counted (active ones only, when `active_only`) exactly
/// when no stored machine is assigned to it (and active): machines of other nodes
/// never count.
pub proof fn lemma_count_zero_iff_none_on_node(entries: Seq<MachineEntry>, id: Seq<char>, active_only: bool)
    ensures
        count_on_node(entries, id, active_only) == 0 <==> forall|j: int|
            0 <= j < entries.len() ==> !((#[trigger] entries[j]).machine.node_id@ == id && (
            !active_only || entries[j].machine.state.active())),
    decreases entries.len(),
{
    if entries.len() > 0 {
        let rest = entries.drop_last();
        lemma_count_zero_iff_none_on_node(rest, id, active_only);
        assert forall|j: int| 0 <= j < rest.len() implies #[trigger] rest[j] == entries[j] by {}
        let last = entries[entries.len() - 1];
        if count_on_node(entries, id, active_only) == 0 {
            assert forall|j: int| 0 <= j < entries.len() implies !((#[trigger] entries[j]).machine.node_id@
                == id && (!active_only || entries[j].machine.state.active())) by {
                if j < rest.len() {
                    assert(rest[j] == entries[j]);
                }
            }
        } else {
            if count_on_node(rest, id, active_only) > 0 {
                let j = choose|j: int|
                    0 <= j < rest.len() && ((#[trigger] rest[j]).machine.node_id@ == id && (
                    !active_only || rest[j].machine.state.active()));
                assert(entries[j] == rest[j]);
            } else {
                assert(last.machine.node_id@ == id && (!active_only || last.machine.state.active()));
            }
        }
    }
}

/// A machine stored for another node leaves a node's counts unchanged, and a
/// node's active machines are never more than all its machines.
pub proof fn lemma_count_ignores_other_nodes(entries: Seq<MachineEntry>, e: MachineEntry, id: Seq<char>, active_only: bool)
    ensures
        e.machine.node_id@ != id ==> count_on_node(entries.push(e), id, active_only)
            == count_on_node(entries, id, active_only),
        count_on_node(entries, id, true) <= count_on_node(entries, id, false),
    decreases entries.len(),
{
    assert(entries.push(e).drop_last() =~= entries);
    if entries.len() > 0 {
        lemma_count_ignores_other_nodes(entries.drop_last(), e, id, active_only);
    }
}

/// The reaper marks a node stale exactly when its last heartbeat is more than ten
/// seconds old, whatever its cordon and drain flags; nothing else about the node
/// changes, and a node heard from within ten seconds is left as it is.
pub proof fn lemma_reap_depends_only_on_age(n: Node, now: u64)
    ensures
        now >= n.last_heartbeat && now - n.last_heartbeat > 10_000_000_000u64 ==> after_reap(
            n,
            now,
        ).observed_state == NodeState::Stale,
        !(now >= n.last_heartbeat && now - n.last_heartbeat > 10_000_000_000u64) ==> after_reap(
            n,
            now,
        ) == n,
        after_reap(n, now).id == n.id,
        after_reap(n, now).name == n.name,
        after_reap(n, now).desired_state == n.desired_state,
        after_reap(n, now).supports_machine_execution == n.supports_machine_execution,
        after_reap(n, now).cordoned == n.cordoned,
        after_reap(n, now).draining == n.draining,
        after_reap(n, now).last_heartbeat == n.last_heartbeat,
{
}

/// Assignment `a` hands out machine `m`, which is pending on node `id`.
pub open spec fn hands_out(a: MachineAssignment, m: Machine, id: Seq<char>) -> bool {
    &&& m.node_id@ == id
    &&& m.state == MachineState::Pending
    &&& a.machine_id == m.id
    &&& a.machine_name == m.name
    &&& a.command == m.command
}

/// Assignment `a` hands out one of the stored machines pending on node `id`.
pub open spec fn hands_out_stored(a: MachineAssignment, entries: Seq<MachineEntry>, id: Seq<char>) -> bool {
    exists|j: int| 0 <= j < entries.len() && #[trigger] hands_out(a, entries[j].machine, id)
}

/// Assignments that describe, one by one, the machines pending on node `id` come
/// each from a machine stored for that node and still pending, and every such
/// machine is among them.
pub proof fn lemma_assignments_describe_pending_machines(
    entries: Seq<MachineEntry>,
    id: Seq<char>,
    r: Seq<MachineAssignment>,
)
    requires
        r.len() == pending_on(entries, id).len(),
        forall|k: int|
            0 <= k < r.len() ==> {
                let m = pending_on(entries, id)[k];
                &&& (#[trigger] r[k]).machine_id == m.id
                &&& r[k].machine_name == m.name
                &&& r[k].command == m.command
            },
    ensures
        forall|k: int| 0 <= k < r.len() ==> #[trigger] hands_out_stored(r[k], entries, id),
        forall|j: int|
            0 <= j < entries.len() && (#[trigger] entries[j]).machine.node_id@ == id
                && entries[j].machine.state == MachineState::Pending ==> exists|k: int|
                0 <= k < r.len() && (#[trigger] r[k]).machine_id == entries[j].machine.id,
{
    lemma_assignments_are_pending_on_the_node(entries, id);
    lemma_pending_machines_are_assigned(entries, id);
    let p = pending_on(entries, id);
    assert forall|k: int| 0 <= k < r.len() implies #[trigger] hands_out_stored(r[k], entries, id) by {
        assert(p[k].node_id@ == id);
        let j = choose|j: int| 0 <= j < entries.len() && (#[trigger] entries[j]).machine == p[k];
        assert(hands_out(r[k], entries[j].machine, id));
    }
    assert forall|j: int|
        0 <= j < entries.len() && (#[trigger] entries[j]).machine.node_id@ == id
            && entries[j].machine.state == MachineState::Pending implies exists|k: int|
        0 <= k < r.len() && (#[trigger] r[k]).machine_id == entries[j].machine.id by {
        assert(p.contains(entries[j].machine));
        let k = choose|k: int| 0 <= k < p.len() && p[k] == entries[j].machine;
        assert(r[k].machine_id == p[k].id);
    }
}

/// A node's listed worker process and backend are those of the launch recorded
/// for that node, or nothing when none is recorded.
pub open spec fn reports_launch(
    process_id: Option<u32>,
    backend: Option<String>,
    id: Seq<char>,
    launches: Seq<LaunchRecord>,
) -> bool {
    ||| exists|l: int|
        0 <= l < launches.len() && (#[trigger] launches[l]).node_id@ == id && process_id
            == launches[l].process_id && backend == Some(launches[l].backend)
    ||| (forall|l: int| 0 <= l < launches.len() ==> (#[trigger] launches[l]).node_id@ != id)
        && process_id is None && backend is None
}

/// A machine's listed summary carries that machine's own identifier, name, node,
/// state, command, exit code and output: standard output and error are not mixed up.
pub proof fn lemma_summary_carries_the_machine(e: MachineEntry)
    ensures
        summary_of(e).machine_id == e.machine.id,
        summary_of(e).machine_name == e.machine.name,
        summary_of(e).node_id == e.machine.node_id,
        summary_of(e).state == e.machine.state,
        summary_of(e).command == e.machine.command,
        summary_of(e).exit_code == e.machine.exit_code,
        summary_of(e).stdout == e.machine.stdout,
        summary_of(e).stderr == e.machine.stderr,
{
}

/// A node's listed summary reports that node's own identifier, name, observed and
/// desired states and flags, how many machines are stored for it, and its launch.
pub proof fn lemma_node_summary_reports_the_node(
    n: Node,
    machines: Seq<MachineEntry>,
    launches: Seq<LaunchRecord>,
)
    ensures
        node_summary_of(n, machines, launches).node_id == n.id,
        node_summary_of(n, machines, launches).name == n.name,
        node_summary_of(n, machines, launches).observed_state == n.observed_state,
        node_summary_of(n, machines, launches).desired_state == n.desired_state,
        node_summary_of(n, machines, launches).cordoned == n.cordoned,
        node_summary_of(n, machines, launches).draining == n.draining,
        node_summary_of(n, machines, launches).machine_count == count_on_node(machines, n.id@, false) as usize,
        node_summary_of(n, machines, launches).app_port is None,
        reports_launch(
            node_summary_of(n, machines, launches).process_id,
            node_summary_of(n, machines, launches).backend,
            n.id@,
            launches,
        ),
{
    match launch_position(launches, n.id@) {
        Some(l) => {
            assert(launches[l].node_id@ == n.id@);
        },
        None => {},
    }
}

} // verus!
