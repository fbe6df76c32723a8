//! A verified core for a secure process supervisor: it checks a companion
//! binary's integrity, resolves a usable network port, sanitizes process
//! arguments and inbound messages, plans a privilege-minimized spawn, and
//! enforces resource limits on the live worker.

pub mod config;
pub mod integrity;
pub mod launch;
pub mod monitor;
pub mod ports;
pub mod report;
pub mod sanitize;
pub mod sandbox;
pub mod text;

pub use config::SecurityConfig;
pub use integrity::{verify_binary_integrity, HashStream, IntegrityError, VerifyOutcome};
pub use monitor::{LimitStatus, LimitViolation, MonitorError, ProcessMonitor, ProcessSample, SignalOutcome};
pub use ports::{find_available_port, validate_port, PortError};
pub use launch::{plan_secure_spawn, plan_spawn_as_user, SpawnError, SpawnPlan};
pub use report::{parse_port_report, SidecarState, StateError};
pub use sanitize::{validate_command_args, validate_ipc_message, ArgError, MsgError};
pub use sandbox::{memory_limit_bytes, set_resource_limits, setup_sandbox, SandboxError, SandboxStep};
