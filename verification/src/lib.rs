//! Platform layer of the memcordon workload supervisor.

pub mod backend;
pub mod bytes;
pub mod evidence;
pub mod guardian;
pub mod host_network;
pub mod json;
pub mod laws;
pub mod linux_cgroup;
pub mod linux_cleanup;
pub mod linux_delegation;
pub mod linux_launch;
pub mod linux_monitor;
pub mod macos_attempt;
pub mod macos_child;
pub mod macos_deadline;
pub mod macos_discovery;
pub mod macos_envelope;
pub mod macos_fixture;
pub mod macos_frontend;
pub mod macos_guardian;
pub mod macos_inventory;
pub mod macos_lane;
pub mod macos_launch;
pub mod macos_protocol;
pub mod macos_recovery;
pub mod macos_retire;
pub mod macos_watchdog;
pub mod model;
pub mod network;
pub mod policy;
pub mod scan;
pub mod sealed;
pub mod signal;
pub mod supervise;
pub mod supervision;
pub mod supervisor;
pub mod text;
pub mod time;
pub mod unix_detector;
