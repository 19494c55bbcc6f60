//! The settings the services read from their environment.

use std::path::PathBuf;
use vstd::prelude::*;

verus! {

/// The control plane's settings: the port it listens on and, optionally, the
/// worker binary it launches.
#[derive(Debug)]
pub struct Settings {
    pub app_port: u16,
    pub worker_binary_path: Option<PathBuf>,
}

/// A worker's settings: its node identifier and the control plane it reports to.
#[derive(Debug)]
pub struct WorkerSettings {
    pub node_id: String,
    pub control_plane_url: String,
}

} // verus!
