//! Laws: what the library's operations are for, stated on their arguments and results.

pub mod backend;
pub mod cgroup;
pub mod claims;
pub mod custody;
pub mod launch;
pub mod linux;
pub mod macos;
pub mod network;
pub mod private;
pub mod provider;
pub mod sealed;
pub mod signals;
pub mod startup;
pub mod supervision;
pub mod teardown;
pub mod text;
pub mod transit;
pub mod values;
pub mod watchdog;
pub mod windows;
