use mtc::client::{
    control_plane_url, endpoint_url, failure_message, find_machine, machine_detail_lines,
    machine_table_lines, DEFAULT_CONTROL_PLANE_URL,
};
use mtc::responses::MachineSummary;
use mtc::ids::NodeId;
use mtc::model::MachineState;

#[test]
fn launch_url_targets_api_machines() {
    assert_eq!(
        endpoint_url("http://127.0.0.1:3000/", "/api/machines"),
        "http://127.0.0.1:3000/api/machines"
    );
}

#[test]
fn stop_url_includes_machine_id_query() {
    assert_eq!(
        endpoint_url(
            "http://127.0.0.1:3000",
            "/machines/stop?machine_id=machine-1"
        ),
        "http://127.0.0.1:3000/machines/stop?machine_id=machine-1"
    );
}

#[test]
fn endpoint_url_adds_missing_slash_and_strips_many() {
    assert_eq!(endpoint_url("http://h:1///", "workers/heartbeat"), "http://h:1/workers/heartbeat");
    assert_eq!(endpoint_url("", ""), "/");
}

#[test]
fn control_plane_url_defaults_to_local() {
    assert_eq!(control_plane_url(None), "http://127.0.0.1:3000");
    assert_eq!(DEFAULT_CONTROL_PLANE_URL, "http://127.0.0.1:3000");
    assert_eq!(
        control_plane_url(Some("http://example.test:9000".to_string())),
        "http://example.test:9000"
    );
}

#[test]
fn failure_message_prefers_body() {
    assert_eq!(
        failure_message("409 Conflict", "Node 'x' already exists".to_string()),
        "Node 'x' already exists"
    );
    assert_eq!(
        failure_message("500 Internal Server Error", "  \n ".to_string()),
        "control plane returned 500 Internal Server Error"
    );
}

fn summary(id: &str, name: &str, exit_code: Option<i32>) -> MachineSummary {
    MachineSummary {
        machine_id: id.to_string(),
        machine_name: name.to_string(),
        node_id: NodeId::new("n1"),
        state: MachineState::Succeeded,
        command: "echo ok".to_string(),
        exit_code,
        stdout: "ok".to_string(),
        stderr: String::new(),
    }
}

#[test]
fn table_lines_pad_columns() {
    let lines = machine_table_lines(&vec![summary("m1", "alpha", Some(0)), summary("m2", "beta", None)]);
    assert_eq!(lines.len(), 3);
    assert_eq!(
        lines[0],
        format!("{:<36}  {:<20}  {:<20}  {:<10}  exit", "id", "name", "node", "state")
    );
    assert_eq!(
        lines[1],
        format!("{:<36}  {:<20}  {:<20}  {:<10}  {}", "m1", "alpha", "n1", "Succeeded", "0")
    );
    assert_eq!(
        lines[2],
        format!("{:<36}  {:<20}  {:<20}  {:<10}  {}", "m2", "beta", "n1", "Succeeded", "-")
    );
    assert_eq!(machine_table_lines(&vec![]), vec!["No machines stored".to_string()]);
}

#[test]
fn detail_lines_show_output() {
    let lines = machine_detail_lines(&summary("m1", "alpha", Some(-3)));
    assert_eq!(lines.len(), 12);
    assert_eq!(lines[0], "id:      m1");
    assert_eq!(lines[3], "state:   Succeeded");
    assert_eq!(lines[5], "exit:    -3");
    assert_eq!(lines[6], "");
    assert_eq!(lines[7], "stdout:");
    assert_eq!(lines[8], "ok");
    assert_eq!(lines[10], "stderr:");
}

#[test]
fn find_machine_by_id() {
    let machines = vec![summary("m1", "alpha", None), summary("m2", "beta", None)];
    assert_eq!(find_machine(&machines, "m2"), Some(1));
    assert_eq!(find_machine(&machines, "m3"), None);
}
