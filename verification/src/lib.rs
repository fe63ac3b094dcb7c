//! Decision logic of an interactive command-line client for Kubernetes.
//!
//! The client lists namespaces, pods and deployments, shows the log of a
//! container, and restarts a deployment. This library holds what the client
//! decides and computes: the run of each command as a machine that names the
//! next action for each thing found out ([`cli`]), the requests that go to the
//! cluster ([`requests`]), the resources as far as they are read
//! ([`resources`]), how ages and table rows are written ([`age`], [`text`]),
//! and the one reading of the system clock ([`clock`]). Talking to the cluster
//! and to the terminal is left to the caller.

pub mod age;
pub mod cli;
pub mod clock;
pub mod requests;
pub mod resources;
pub mod text;

pub use age::format_age;
pub use cli::{Action, Cli, Event, RunState, Step, SubCommands};
pub use clock::{is_rfc3339_utc_text, ClockReading, Timestamp};
pub use requests::{
    delete_deployment, delete_pod, get_patch_spec, get_pod_container_logs, restart_deployment,
    restart_patch, DeleteRequest, LogRequest, PatchRequest, ResourceKind,
};
pub use resources::{
    deployment_rows, format_deployment_row, get_pod_containers, DeploymentInfo, PodInfo,
    ReplicaCounts, ReplicaStatus,
};
