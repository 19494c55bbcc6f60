use mtc::cluster::Cluster;
use mtc::responses::{CONFLICT, NOT_FOUND};
use mtc::ids::{MachineId, NodeId};
use mtc::launcher::WorkerLaunchSpec;
use mtc::model::{Machine, MachineState, Node, NodeState};
use mtc::tables::LaunchRecord;

fn node(id: &str, observed: NodeState, supports: bool, cordoned: bool, draining: bool) -> Node {
    Node {
        id: NodeId::new(id),
        name: id.to_string(),
        observed_state: observed,
        desired_state: NodeState::Running,
        supports_machine_execution: supports,
        cordoned,
        draining,
        last_heartbeat: 0,
    }
}

fn machine(id: &str, node_id: &NodeId, state: MachineState, command: &str, exit_code: Option<i32>, stdout: &str) -> Machine {
    Machine {
        id: id.to_string(),
        name: id.to_string(),
        node_id: node_id.clone(),
        state,
        command: command.to_string(),
        exit_code,
        stdout: stdout.to_string(),
        stderr: String::new(),
    }
}

#[test]
fn heartbeats_do_not_clear_cordon_or_drain_flags() {
    let mut state = Cluster::new();
    let node_id = NodeId::new("n1");
    state.insert_node(node("n1", NodeState::Stale, true, true, true));

    let response = state.heartbeat(&node_id, 5);

    assert_eq!(response, "Heartbeat received");
    let node = state.node(&node_id).unwrap();
    assert_eq!(node.observed_state, NodeState::Running);
    assert_eq!(node.desired_state, NodeState::Running);
    assert!(node.cordoned);
    assert!(node.draining);
}

#[test]
fn drain_marks_node_unschedulable() {
    let mut state = Cluster::new();
    let node_id = NodeId::new("n1");
    state.insert_node(node("n1", NodeState::Running, true, false, false));

    let response = state.drain(&node_id);

    assert_eq!(response, "Node draining; 0 active machine(s) still assigned");
    let node = state.node(&node_id).unwrap();
    assert!(node.cordoned);
    assert!(node.draining);
    assert!(!node.is_schedulable());
}

#[test]
fn launch_creates_placeholder_and_tracks_process() {
    let mut state = Cluster::new();
    let mut launches: Vec<WorkerLaunchSpec> = Vec::new();
    let node_id = NodeId::new("launch-me");

    let id = state.begin_node_launch(Some(node_id.clone()), 0).unwrap();
    launches.push(WorkerLaunchSpec::for_local_node(id.clone(), 3000));
    let response = state.finish_node_launch(id, Some(42), "fake");

    assert_eq!(response.node_id, node_id);
    assert_eq!(response.backend, "fake");
    assert_eq!(response.app_port, None);
    assert_eq!(response.observed_state, NodeState::Pending);
    assert_eq!(response.desired_state, NodeState::Running);

    let node = state.node(&node_id).unwrap();
    assert_eq!(node.observed_state, NodeState::Pending);
    assert_eq!(node.desired_state, NodeState::Running);

    assert!(state.has_launched_worker(&node_id));

    assert_eq!(launches.len(), 1);
    assert_eq!(launches[0].node_id, node_id);
}

#[test]
fn stop_node_kills_launched_worker_and_removes_node() {
    let mut state = Cluster::new();
    let node_id = NodeId::new("n-stop");
    state.insert_node(node("n-stop", NodeState::Running, true, false, false));
    state.insert_launch(LaunchRecord {
        node_id: node_id.clone(),
        process_id: None,
        backend: "fake".to_string(),
    });

    let stopped = state.stop_node(&node_id).unwrap();

    assert_eq!(stopped.response.message, "Worker stopped");
    assert!(stopped.kill_worker);
    assert!(state.node(&node_id).is_none());
    assert!(!state.has_launched_worker(&node_id));
}

#[test]
fn stop_node_allows_completed_machines() {
    let mut state = Cluster::new();
    let node_id = NodeId::new("n-complete");
    state.insert_node(node("n-complete", NodeState::Running, true, false, false));
    state.insert_machine(
        MachineId::new(),
        machine("done-machine", &node_id, MachineState::Succeeded, "echo ok", Some(0), "ok"),
    );

    let stopped = state.stop_node(&node_id).unwrap();

    assert_eq!(stopped.response.message, "Node deregistered");
    assert!(state.node(&node_id).is_none());
}

#[test]
fn stop_node_rejects_active_machines() {
    let mut state = Cluster::new();
    let node_id = NodeId::new("n-active");
    state.insert_node(node("n-active", NodeState::Running, true, false, false));
    state.insert_machine(
        MachineId::new(),
        machine("active-machine", &node_id, MachineState::Running, "sleep 1", None, ""),
    );

    let error = state.stop_node(&node_id).unwrap_err();

    assert_eq!(error.status, CONFLICT);
    assert_eq!(
        error.message,
        "Cannot stop node 'n-active' while 1 active machine(s) are still assigned"
    );
    assert!(state.node(&node_id).is_some());
}

#[test]
fn stop_node_deregisters_manual_node() {
    let mut state = Cluster::new();
    let node_id = NodeId::new("manual-node");
    state.insert_node(node("manual-node", NodeState::Stale, false, false, false));

    let stopped = state.stop_node(&node_id).unwrap();

    assert_eq!(stopped.response.message, "Node deregistered");
    assert!(state.node(&node_id).is_none());
}

#[test]
fn marks_stale_nodes() {
    let mut state = Cluster::new();
    let node_id = NodeId::new("n1");
    state.insert_node(node("n1", NodeState::Running, false, false, false));

    state.mark_stale_nodes(21_000_000_000);

    assert_eq!(state.node(&node_id).unwrap().observed_state, NodeState::Stale);
}

#[test]
fn reaper_spares_recent_heartbeats() {
    let mut state = Cluster::new();
    let node_id = NodeId::new("n1");
    state.insert_node(node("n1", NodeState::Running, true, false, false));
    state.heartbeat(&node_id, 15_000_000_000);
    state.mark_stale_nodes(25_000_000_000);
    assert_eq!(state.node(&node_id).unwrap().observed_state, NodeState::Running);
    state.mark_stale_nodes(25_000_000_001);
    assert_eq!(state.node(&node_id).unwrap().observed_state, NodeState::Stale);
    assert_eq!(state.heartbeat(&node_id, 25_000_000_002), "Heartbeat received");
    assert_eq!(state.node(&node_id).unwrap().observed_state, NodeState::Running);
}

#[test]
fn register_adds_and_refreshes_nodes() {
    let mut state = Cluster::new();
    let node_id = NodeId::new("w1");
    assert_eq!(state.register(&node_id, Some(true), 7), "Worker registered");
    {
        let n = state.node(&node_id).unwrap();
        assert_eq!(n.name, "Node-w1");
        assert_eq!(n.observed_state, NodeState::Running);
        assert!(n.supports_machine_execution);
        assert!(n.is_schedulable());
    }
    state.cordon(&node_id);
    assert_eq!(state.register(&node_id, None, 9), "Node already registered");
    let n = state.node(&node_id).unwrap();
    assert!(n.cordoned);
    assert!(!n.supports_machine_execution);
    assert_eq!(n.last_heartbeat, 9);
    assert_eq!(state.node_count(), 1);
}

#[test]
fn register_completes_a_pending_launch() {
    let mut state = Cluster::new();
    let id = state.begin_node_launch(None, 0).unwrap();
    assert!(id.as_str().starts_with("worker-node-"));
    assert_eq!(id.as_str().len(), 20);
    assert!(id.as_str()[12..].chars().all(|c| c.is_ascii_hexdigit() && !c.is_ascii_uppercase()));
    assert_eq!(state.register(&id, Some(true), 1), "Worker registered");
    assert_eq!(state.node(&id).unwrap().observed_state, NodeState::Running);
}

#[test]
fn launch_of_known_node_conflicts_and_abort_forgets_placeholder() {
    let mut state = Cluster::new();
    let node_id = NodeId::new("dup");
    state.begin_node_launch(Some(node_id.clone()), 0).unwrap();
    let error = state.begin_node_launch(Some(node_id.clone()), 0).unwrap_err();
    assert_eq!(error.status, CONFLICT);
    assert_eq!(error.message, "Node 'dup' already exists");
    state.abort_node_launch(&node_id);
    assert!(state.node(&node_id).is_none());
    assert_eq!(state.node_count(), 0);
}

#[test]
fn node_actions_on_unknown_nodes() {
    let mut state = Cluster::new();
    let id = NodeId::new("ghost");
    assert_eq!(state.heartbeat(&id, 1), "Node not found");
    assert_eq!(state.cordon(&id), "Node not found");
    assert_eq!(state.uncordon(&id), "Node not found");
    assert_eq!(state.drain(&id), "Node not found");
    assert_eq!(state.deregister(), "Worker deregistered");
    let error = state.stop_node(&id).unwrap_err();
    assert_eq!(error.status, NOT_FOUND);
    assert_eq!(error.message, "Node 'ghost' not found");
}

#[test]
fn uncordon_clears_both_flags() {
    let mut state = Cluster::new();
    let id = NodeId::new("n1");
    state.insert_node(node("n1", NodeState::Running, true, false, false));
    assert_eq!(state.cordon(&id), "Node cordoned");
    assert!(!state.node(&id).unwrap().is_schedulable());
    state.drain(&id);
    assert_eq!(state.uncordon(&id), "Node uncordoned");
    let n = state.node(&id).unwrap();
    assert!(!n.cordoned && !n.draining);
    assert!(n.is_schedulable());
}

#[test]
fn drain_counts_only_active_machines() {
    let mut state = Cluster::new();
    let id = NodeId::new("n1");
    state.insert_node(node("n1", NodeState::Running, true, false, false));
    state.insert_machine(MachineId::from_text("a"), machine("a", &id, MachineState::Pending, "x", None, ""));
    state.insert_machine(MachineId::from_text("b"), machine("b", &id, MachineState::Running, "x", None, ""));
    state.insert_machine(MachineId::from_text("c"), machine("c", &id, MachineState::Failed, "x", Some(1), ""));
    assert_eq!(state.drain(&id), "Node draining; 2 active machine(s) still assigned");
}
