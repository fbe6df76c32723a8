//! Security policy for one supervision session.

use vstd::prelude::*;

verus! {

/// Immutable policy for one supervision session: which ports the worker may
/// bind, the pinned digest of its binary (hex; empty means "not configured"),
/// and the resource ceilings the monitor enforces.
pub struct SecurityConfig {
    pub allowed_ports: Vec<u16>,
    pub binary_hash: String,
    pub max_memory_mb: usize,
    pub max_cpu_percent: u8,
    pub sandbox_enabled: bool,
}

impl Default for SecurityConfig {
    /// The default session policy: five well-known development ports, no
    /// pinned digest, a 512 MB memory ceiling, a 50% CPU ceiling, and the
    /// sandbox switched on.
    fn default() -> (cfg: SecurityConfig)
        ensures
            cfg.allowed_ports@ == seq![3000u16, 3001u16, 3002u16, 3003u16, 3004u16],
            cfg.binary_hash@.len() == 0,
            cfg.max_memory_mb == 512,
            cfg.max_cpu_percent == 50,
            cfg.sandbox_enabled,
    {
        let allowed_ports: Vec<u16> = vec![3000, 3001, 3002, 3003, 3004];
        assert(allowed_ports@ =~= seq![3000u16, 3001u16, 3002u16, 3003u16, 3004u16]);
        SecurityConfig {
            allowed_ports,
            binary_hash: String::new(),
            max_memory_mb: 512,
            max_cpu_percent: 50,
            sandbox_enabled: true,
        }
    }
}

} // verus!
