use mtc::launcher::{worker_binary_name, LocalProcessLauncher, NoopWorkerLauncher, WorkerLaunchSpec};
use mtc::ids::NodeId;
use mtc::model::MachineState;
use mtc::text::{decimal_string, signed_decimal_string, trim, trim_end_char};
use mtc::worker::{default_command_path, report_for, report_state, shell, CommandResult};
use mtc::ids::MachineId;
use std::path::PathBuf;

#[test]
fn decimal_rendering() {
    assert_eq!(decimal_string(0), "0");
    assert_eq!(decimal_string(1234567890), "1234567890");
    assert_eq!(decimal_string(u64::MAX), u64::MAX.to_string());
    assert_eq!(signed_decimal_string(-42), "-42");
    assert_eq!(signed_decimal_string(i64::MIN), i64::MIN.to_string());
}

#[test]
fn trimming_matches_std() {
    for s in ["  a b  ", "\u{3000}x\u{85}", "", "   ", "\tline\n", "no-space"] {
        assert_eq!(trim(s), s.trim());
    }
    assert_eq!(trim_end_char("http://x///", '/'), "http://x");
}

#[test]
fn launcher_paths_and_names() {
    assert_eq!(worker_binary_name(true), "mtcworker.exe");
    assert_eq!(worker_binary_name(false), "mtcworker");
    let launcher = LocalProcessLauncher::new(PathBuf::from("/opt/mtcworker"));
    assert_eq!(launcher.worker_binary_path(), &PathBuf::from("/opt/mtcworker"));
    assert_eq!(launcher.backend_name(), "local-process");
    assert_eq!(NoopWorkerLauncher.backend_name(), "noop");
    let chosen = LocalProcessLauncher::from_path_or_default(
        Some(PathBuf::from("/given")),
        Ok(PathBuf::from("/default")),
    )
    .unwrap();
    assert_eq!(chosen.worker_binary_path(), &PathBuf::from("/given"));
    let fallback = LocalProcessLauncher::from_path_or_default(None, Ok(PathBuf::from("/default"))).unwrap();
    assert_eq!(fallback.worker_binary_path(), &PathBuf::from("/default"));
    let overridden = LocalProcessLauncher::from_path_or_default(
        Some(PathBuf::from("/given")),
        Err("no parent".to_string()),
    )
    .unwrap();
    assert_eq!(overridden.worker_binary_path(), &PathBuf::from("/given"));
    let failed = LocalProcessLauncher::from_path_or_default(None, Err("no parent".to_string()));
    assert_eq!(failed.unwrap_err(), "no parent");
}

#[test]
fn launch_spec_environment() {
    let spec = WorkerLaunchSpec::for_local_node(NodeId::new("n1"), 3000);
    assert_eq!(spec.control_plane_url, "http://127.0.0.1:3000");
    let env = spec.environment();
    assert_eq!(
        env,
        vec![
            ("NODE_ID".to_string(), "n1".to_string()),
            ("CONTROL_PLANE_URL".to_string(), "http://127.0.0.1:3000".to_string())
        ]
    );
}

#[test]
fn worker_command_outcomes() {
    assert_eq!(default_command_path(false), "/usr/local/bin:/usr/bin:/bin:/usr/sbin:/sbin");
    assert_eq!(default_command_path(true), r"C:\Windows\System32;C:\Windows;C:\Windows\System32\Wbem");
    assert_eq!(shell(false), ("/bin/sh", "-lc"));
    assert_eq!(shell(true), ("cmd", "/C"));
    assert_eq!(report_state(Some(0)), MachineState::Succeeded);
    assert_eq!(report_state(Some(2)), MachineState::Failed);
    assert_eq!(report_state(None), MachineState::Failed);
    let result = CommandResult::finished(Some(0), "hello\n", "  ");
    assert_eq!(result.stdout, "hello");
    assert_eq!(result.stderr, "");
    let report = report_for(NodeId::new("n1"), MachineId::from_text("m"), result);
    assert_eq!(report.state, MachineState::Succeeded);
    assert_eq!(report.stdout, "hello");
    let not_started = CommandResult::not_started(" spawn failed ".to_string());
    assert_eq!(not_started.exit_code, None);
    assert_eq!(not_started.stderr, " spawn failed ");
}
