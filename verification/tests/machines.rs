use mtc::cluster::{short_id, Cluster};
use mtc::responses::{
    internal_error, MachineReport, BAD_REQUEST, CONFLICT, INTERNAL_SERVER_ERROR, NOT_FOUND,
};
use mtc::ids::{MachineId, NodeId};
use mtc::model::{Machine, MachineState, Node, NodeState};
use mtc::tables::LaunchRecord;

fn node(id: &str, observed: NodeState, supports: bool, cordoned: bool, draining: bool) -> Node {
    Node {
        id: NodeId::new(id),
        name: id.to_string(),
        observed_state: observed,
        desired_state: NodeState::Running,
        supports_machine_execution: supports,
        cordoned,
        draining,
        last_heartbeat: 0,
    }
}

fn running_machine(machine_id: &MachineId, node_id: &NodeId, command: &str) -> Machine {
    Machine {
        id: machine_id.as_str().to_string(),
        name: "machine-a".into(),
        node_id: node_id.clone(),
        state: MachineState::Running,
        command: command.into(),
        exit_code: None,
        stdout: String::new(),
        stderr: String::new(),
    }
}

#[test]
fn launch_skips_unschedulable_nodes() {
    let mut state = Cluster::new();
    state.insert_node(node("n1", NodeState::Running, true, true, false));

    let error = state.launch_machine("machine-a", "echo hello", None).unwrap_err();

    assert_eq!(error.status, CONFLICT);
    assert_eq!(
        error.message,
        "No schedulable nodes are available for machine 'machine-a'. total_nodes=1, ready=0, legacy=0, not_running=0, blocked=1."
    );
}

#[test]
fn launch_skips_nodes_without_execution_support() {
    let mut state = Cluster::new();
    state.insert_node(node("legacy-node", NodeState::Running, false, false, false));

    let error = state.launch_machine("machine-a", "echo hello", None).unwrap_err();

    assert_eq!(error.status, CONFLICT);
    assert_eq!(
        error.message,
        "No schedulable nodes are available for machine 'machine-a'. total_nodes=1, ready=0, legacy=1, not_running=0, blocked=0."
    );
}

#[test]
fn stop_completes_drain_when_last_machine_is_removed() {
    let mut state = Cluster::new();
    let node_id = NodeId::new("n1");
    let machine_id = MachineId::new();
    state.insert_node(node("n1", NodeState::Running, true, true, true));
    state.insert_machine(machine_id.clone(), running_machine(&machine_id, &node_id, "echo hello"));

    let response = state.stop_machine(&machine_id);

    assert_eq!(
        response.message,
        format!("Removed machine: id={}, name={}", machine_id.as_str(), "machine-a")
    );
    let node = state.node(&node_id).unwrap();
    assert!(node.cordoned);
    assert!(!node.draining);
}

#[test]
fn worker_report_updates_machine_output() {
    let mut state = Cluster::new();
    let node_id = NodeId::new("n1");
    let machine_id = MachineId::new();
    state.insert_machine(machine_id.clone(), running_machine(&machine_id, &node_id, "printf 'ok'"));

    let response = state
        .report_machine(MachineReport {
            node_id: node_id.clone(),
            machine_id: machine_id.clone(),
            state: MachineState::Succeeded,
            exit_code: Some(0),
            stdout: "ok".into(),
            stderr: String::new(),
        })
        .unwrap();

    assert_eq!(
        response.message,
        format!("Recorded machine '{}' result as Succeeded", machine_id.as_str())
    );
    let machine = state.machine(&machine_id).unwrap();
    assert_eq!(machine.state, MachineState::Succeeded);
    assert_eq!(machine.exit_code, Some(0));
    assert_eq!(machine.stdout, "ok");
}

#[test]
fn worker_report_completes_drain_when_last_active_machine_finishes() {
    let mut state = Cluster::new();
    let node_id = NodeId::new("n1");
    let machine_id = MachineId::new();
    state.insert_node(node("n1", NodeState::Running, true, true, true));
    state.insert_machine(machine_id.clone(), running_machine(&machine_id, &node_id, "printf 'ok'"));

    let _ = state
        .report_machine(MachineReport {
            node_id: node_id.clone(),
            machine_id,
            state: MachineState::Succeeded,
            exit_code: Some(0),
            stdout: "ok".into(),
            stderr: String::new(),
        })
        .unwrap();

    let node = state.node(&node_id).unwrap();
    assert!(node.cordoned);
    assert!(!node.draining);
}

#[test]
fn launch_places_machine_on_schedulable_node() {
    let mut state = Cluster::new();
    state.insert_node(node("busy", NodeState::Running, true, true, false));
    state.insert_node(node("ready", NodeState::Running, true, false, false));
    for _ in 0..10 {
        let response = state.launch_machine("job", "  echo hi  ", None).unwrap();
        assert_eq!(response.node_id, "ready");
        assert_eq!(response.command, "echo hi");
        assert_eq!(response.state, MachineState::Pending);
        assert_eq!(response.machine_id.len(), 36);
        assert_eq!(response.machine_name, "job");
        assert_eq!(response.machine_id.as_bytes()[14], b'4');
        let id = MachineId::from_text(&response.machine_id);
        let stored = state.machine(&id).unwrap();
        assert_eq!(stored.node_id, NodeId::new("ready"));
        assert_eq!(stored.command, "echo hi");
        assert_eq!(stored.id, response.machine_id);
    }
    assert_eq!(state.machine_count(), 10);
}

#[test]
fn launch_rejects_blank_command() {
    let mut state = Cluster::new();
    state.insert_node(node("ready", NodeState::Running, true, false, false));
    let error = state.launch_machine("job", " \t\n ", None).unwrap_err();
    assert_eq!(error.status, BAD_REQUEST);
    assert_eq!(error.message, "Machine command must not be empty");
    assert_eq!(state.machine_count(), 0);
}

#[test]
fn launch_on_requested_node_explains_refusals() {
    let mut state = Cluster::new();
    let mut n = node("n1", NodeState::Stale, false, true, true);
    n.desired_state = NodeState::Timeout;
    state.insert_node(n);
    let error = state.launch_machine("m", "true", Some(&NodeId::new("n1"))).unwrap_err();
    assert_eq!(error.status, CONFLICT);
    assert_eq!(
        error.message,
        "Node 'n1' cannot run machines right now: observed_state=Stale, desired_state=Timeout, execution=legacy, cordoned=true, draining=true."
    );
    let error = state.launch_machine("m", "true", Some(&NodeId::new("nope"))).unwrap_err();
    assert_eq!(error.message, "Node 'nope' was not found.");
    let empty = Cluster::new();
    assert_eq!(
        empty.launch_conflict_message(None, "m"),
        "No nodes are registered yet, so machine 'm' has nowhere to run."
    );
}

#[test]
fn launch_on_requested_schedulable_node() {
    let mut state = Cluster::new();
    state.insert_node(node("a", NodeState::Running, true, false, false));
    state.insert_node(node("b", NodeState::Running, true, false, false));
    let response = state.launch_machine("m", "true", Some(&NodeId::new("b"))).unwrap();
    assert_eq!(response.node_id, "b");
    assert_eq!(response.machine_name, "m");
}

#[test]
fn claim_and_assignments() {
    let mut state = Cluster::new();
    let n1 = NodeId::new("n1");
    state.insert_node(node("n1", NodeState::Running, true, false, false));
    let response = state.launch_machine("job", "echo hi", None).unwrap();
    let id = MachineId::from_text(&response.machine_id);

    let assigned = state.assignments_for(&n1);
    assert_eq!(assigned.len(), 1);
    assert_eq!(assigned[0].machine_id, response.machine_id);
    assert_eq!(assigned[0].machine_name, "job");
    assert_eq!(assigned[0].command, "echo hi");

    let error = state.claim_machine(&NodeId::new("n2"), &id).unwrap_err();
    assert_eq!(error.status, CONFLICT);
    assert_eq!(
        error.message,
        format!("Machine '{}' is assigned to node 'n1', not 'n2'", response.machine_id)
    );

    let claimed = state.claim_machine(&n1, &id).unwrap();
    assert_eq!(claimed.message, format!("Machine '{}' claimed for execution", response.machine_id));
    assert_eq!(state.machine(&id).unwrap().state, MachineState::Running);
    assert!(state.assignments_for(&n1).is_empty());

    let error = state.claim_machine(&n1, &id).unwrap_err();
    assert_eq!(error.status, CONFLICT);
    assert_eq!(error.message, format!("Machine '{}' is already in state Running", response.machine_id));

    let missing = MachineId::from_text("missing");
    let error = state.claim_machine(&n1, &missing).unwrap_err();
    assert_eq!(error.status, NOT_FOUND);
    assert_eq!(error.message, "Machine 'missing' not found");
}

#[test]
fn report_from_other_node_is_refused() {
    let mut state = Cluster::new();
    let node_id = NodeId::new("n1");
    let machine_id = MachineId::from_text("m1");
    state.insert_machine(machine_id.clone(), running_machine(&machine_id, &node_id, "true"));
    let error = state
        .report_machine(MachineReport {
            node_id: NodeId::new("n9"),
            machine_id: machine_id.clone(),
            state: MachineState::Failed,
            exit_code: Some(1),
            stdout: String::new(),
            stderr: "boom".into(),
        })
        .unwrap_err();
    assert_eq!(error.status, CONFLICT);
    assert_eq!(error.message, "Machine 'm1' is assigned to node 'n1', not 'n9'");
    assert_eq!(state.machine(&machine_id).unwrap().state, MachineState::Running);
}

#[test]
fn stop_unknown_machine_and_show() {
    let mut state = Cluster::new();
    assert_eq!(state.show(None), "No machines stored");
    let missing = MachineId::from_text("zzz");
    let response = state.stop_machine(&missing);
    assert_eq!(response.machine_id, "zzz");
    assert_eq!(response.message, "No machine found with id=zzz");

    let node_id = NodeId::new("n1");
    let key = MachineId::from_text("k1");
    let mut m = running_machine(&key, &node_id, "printf 'ok'");
    m.exit_code = Some(-2);
    m.stdout = "out".into();
    m.stderr = "err".into();
    state.insert_machine(key.clone(), m);
    assert_eq!(
        state.show(Some(&key)),
        "Machine found: id=k1, name=machine-a, node_id=n1, state=Running, command=printf 'ok', exit_code=Some(-2)\nstdout:\nout\nstderr:\nerr"
    );
    assert_eq!(state.show(Some(&missing)), "No machine found with id=zzz");
    let key2 = MachineId::from_text("k2");
    state.insert_machine(key2.clone(), running_machine(&key2, &node_id, "true"));
    assert_eq!(
        state.show(None),
        "id=k1, name=machine-a, node_id=n1, state=Running, command=printf 'ok'\nid=k2, name=machine-a, node_id=n1, state=Running, command=true"
    );
}

#[test]
fn summaries_are_sorted_by_name() {
    let mut state = Cluster::new();
    let node_id = NodeId::new("n1");
    for (key, name) in [("k1", "charlie"), ("k2", "alpha"), ("k3", "bravo"), ("k4", "Zulu")] {
        let id = MachineId::from_text(key);
        let mut m = running_machine(&id, &node_id, "true");
        m.name = name.to_string();
        state.insert_machine(id, m);
    }
    let names: Vec<String> = state.machine_summaries().into_iter().map(|s| s.machine_name).collect();
    assert_eq!(names, vec!["Zulu", "alpha", "bravo", "charlie"]);

    state.insert_node(node("b-node", NodeState::Running, true, false, false));
    state.insert_node(node("a-node", NodeState::Pending, false, false, false));
    state.insert_node(node("n1", NodeState::Running, true, false, false));
    state.insert_launch(LaunchRecord { node_id: NodeId::new("a-node"), process_id: Some(77), backend: "local-process".into() });
    let nodes = state.node_summaries();
    let names: Vec<&str> = nodes.iter().map(|n| n.name.as_str()).collect();
    assert_eq!(names, vec!["a-node", "b-node", "n1"]);
    assert_eq!(nodes[0].process_id, Some(77));
    assert_eq!(nodes[0].backend.as_deref(), Some("local-process"));
    assert_eq!(nodes[1].backend, None);
    assert_eq!(nodes[2].machine_count, 4);
    assert_eq!(nodes[0].machine_count, 0);
}

#[test]
fn ids_and_errors() {
    let id = MachineId::new();
    let text = id.as_str();
    assert_eq!(text.len(), 36);
    for (i, c) in text.chars().enumerate() {
        if i == 8 || i == 13 || i == 18 || i == 23 {
            assert_eq!(c, '-');
        } else {
            assert!(c.is_ascii_hexdigit() && !c.is_ascii_uppercase());
        }
    }
    assert_eq!(text.as_bytes()[14], b'4');
    assert!(matches!(text.as_bytes()[19], b'8' | b'9' | b'a' | b'b'));
    assert_ne!(MachineId::new(), MachineId::new());
    let s = short_id();
    assert_eq!(s.len(), 8);
    let e = internal_error("boom".to_string());
    assert_eq!(e.status, INTERNAL_SERVER_ERROR);
    assert_eq!(e.message, "boom");
    let m = Machine {
        id: "i".into(),
        name: "n".into(),
        node_id: NodeId::new("x"),
        state: MachineState::Stopped,
        command: String::new(),
        exit_code: None,
        stdout: String::new(),
        stderr: String::new(),
    };
    assert_eq!(m.describe(), "Machine { id: i, name: n, node_id: x, state: Stopped }");
}

#[test]
fn drain_stays_while_active_machines_remain() {
    let mut state = Cluster::new();
    let node_id = NodeId::new("n1");
    state.insert_node(node("n1", NodeState::Running, true, false, false));
    let first = MachineId::from_text("first");
    let second = MachineId::from_text("second");
    state.insert_machine(first.clone(), running_machine(&first, &node_id, "sleep 5"));
    state.insert_machine(second.clone(), running_machine(&second, &node_id, "sleep 5"));
    assert_eq!(state.drain(&node_id), "Node draining; 2 active machine(s) still assigned");

    state.stop_machine(&first);
    assert!(state.node(&node_id).unwrap().draining);

    state
        .report_machine(MachineReport {
            node_id: node_id.clone(),
            machine_id: second.clone(),
            state: MachineState::Running,
            exit_code: None,
            stdout: String::new(),
            stderr: String::new(),
        })
        .unwrap();
    assert!(state.node(&node_id).unwrap().draining);

    state
        .report_machine(MachineReport {
            node_id: node_id.clone(),
            machine_id: second,
            state: MachineState::Failed,
            exit_code: Some(1),
            stdout: String::new(),
            stderr: "oops".into(),
        })
        .unwrap();
    let node = state.node(&node_id).unwrap();
    assert!(!node.draining);
    assert!(node.cordoned);
    assert!(!node.is_schedulable());
}
