//! Launching worker processes: what a launch passes to a worker and where the
//! worker binary is found.

use crate::ids::NodeId;
use crate::text::{decimal, decimal_string};
use std::path::PathBuf;
use vstd::prelude::*;

verus! {

#[verifier::external_type_specification]
#[verifier::external_body]
pub struct ExPathBuf(PathBuf);

/// What a launcher needs to start the worker of one node.
#[derive(Debug)]
pub struct WorkerLaunchSpec {
    pub node_id: NodeId,
    pub control_plane_url: String,
}

/// The address under which a worker on this host reaches a control plane
/// listening on `port`.
pub open spec fn local_control_plane_url(port: u16) -> Seq<char> {
    "http://127.0.0.1:"@ + decimal(port as nat)
}

impl WorkerLaunchSpec {
    /// The launch of the worker of `node_id`, pointed at the control plane on
    /// this host at `app_port`.
    pub fn for_local_node(node_id: NodeId, app_port: u16) -> (s: Self)
        ensures
            s.node_id == node_id,
            s.control_plane_url@ == local_control_plane_url(app_port),
    {
        let mut url = String::from_str("http://127.0.0.1:");
        url.append(decimal_string(app_port as u64).as_str());
        WorkerLaunchSpec { node_id, control_plane_url: url }
    }

    /// The environment variables a launched worker receives: its node identifier
    /// and the control plane's address.
    pub fn environment(&self) -> (env: Vec<(String, String)>)
        ensures
            env@.len() == 2,
            env@[0].0@ == "NODE_ID"@,
            env@[0].1@ == self.node_id@,
            env@[1].0@ == "CONTROL_PLANE_URL"@,
            env@[1].1@ == self.control_plane_url@,
    {
        let mut env: Vec<(String, String)> = Vec::new();
        env.push((String::from_str("NODE_ID"), String::from_str(self.node_id.as_str())));
        env.push((String::from_str("CONTROL_PLANE_URL"), self.control_plane_url.clone()));
        env
    }
}

/// The file name of the worker binary: `mtcworker.exe` on Windows, `mtcworker` elsewhere.
pub fn worker_binary_name(windows: bool) -> (name: &'static str)
    ensures
        name@ == if windows {
            "mtcworker.exe"@
        } else {
            "mtcworker"@
        },
{
    if windows {
        "mtcworker.exe"
    } else {
        "mtcworker"
    }
}

/// A launcher that starts workers as local processes of a given binary.
#[derive(Debug)]
pub struct LocalProcessLauncher {
    worker_binary_path: PathBuf,
}

impl LocalProcessLauncher {
    /// The binary this launcher starts.
    pub closed spec fn binary(self) -> PathBuf {
        self.worker_binary_path
    }

    /// A launcher of the binary at `worker_binary_path`.
    pub fn new(worker_binary_path: PathBuf) -> (l: Self)
        ensures
            l.binary() == worker_binary_path,
    {
        LocalProcessLauncher { worker_binary_path }
    }

    /// A launcher of the given binary, which overrides the default; without one,
    /// a launcher of the default binary, or the error met looking for it.
    pub fn from_path_or_default(
        worker_binary_path: Option<PathBuf>,
        default_path: Result<PathBuf, String>,
    ) -> (r: Result<Self, String>)
        ensures
            worker_binary_path matches Some(p) ==> r is Ok && r->Ok_0.binary() == p,
            worker_binary_path is None ==> match default_path {
                Err(e) => r == Err::<Self, String>(e),
                Ok(d) => r is Ok && r->Ok_0.binary() == d,
            },
    {
        match worker_binary_path {
            Some(p) => Ok(Self::new(p)),
            None => match default_path {
                Ok(d) => Ok(Self::new(d)),
                Err(e) => Err(e),
            },
        }
    }

    /// The binary this launcher starts.
    pub fn worker_binary_path(&self) -> (p: &PathBuf)
        ensures
            *p == self.binary(),
    {
        &self.worker_binary_path
    }

    /// The name of this launcher's backend.
    pub fn backend_name(&self) -> (name: &'static str)
        ensures
            name@ == "local-process"@,
    {
        "local-process"
    }
}

/// A launcher that starts a process which exits at once; for exercising the
/// launch path without a worker binary.
#[derive(Debug)]
pub struct NoopWorkerLauncher;

impl NoopWorkerLauncher {
    /// The name of this launcher's backend.
    pub fn backend_name(&self) -> (name: &'static str)
        ensures
            name@ == "noop"@,
    {
        "noop"
    }
}

} // verus!
