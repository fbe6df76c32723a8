//! Port policy: validating a requested port against the session policy and
//! resolving the first usable port.
//!
//! Whether a port is currently bound is probed by the caller (a transient
//! bind-and-release on the loopback interface) and handed in as data; such a
//! probe is inherently racy against a concurrent binder, which is an accepted
//! limitation of bind-probe availability checking, not a correctness bug.

use vstd::prelude::*;
use crate::config::SecurityConfig;

verus! {

/// Why a port could not be used.
#[derive(Debug, PartialEq, Eq, Structural, Clone, Copy)]
pub enum PortError {
    /// The port is privileged (or out of range) and not on the allow-list.
    PortForbidden { port: u32 },
    /// The port is acceptable by policy but already bound by another process.
    PortInUse { port: u32 },
    /// Neither the allow-list nor the fallback range had a free port.
    NoPortAvailable,
}

/// `port` appears in the allow-list.
pub open spec fn port_in_list(port: u32, allowed: Seq<u16>) -> bool {
    exists|i: int| 0 <= i < allowed.len() && allowed[i] as u32 == port
}

/// A port is acceptable if it is on the allow-list or in the unprivileged
/// range 1024-65535.
pub open spec fn port_permitted(port: u32, cfg: SecurityConfig) -> bool {
    port_in_list(port, cfg.allowed_ports@) || (1024 <= port && port <= 65535)
}

fn list_contains(list: &Vec<u16>, x: u16) -> (b: bool)
    ensures
        b == list@.contains(x),
{
    let mut i: usize = 0;
    while i < list.len()
        invariant
            i <= list@.len(),
            forall|k: int| 0 <= k < i ==> list@[k] != x,
        decreases list@.len() - i,
    {
        if list[i] == x {
            return true;
        }
        i += 1;
    }
    false
}

/// Validates a requested port against the policy: it must be allow-listed or
/// unprivileged, and must not already be bound (`in_use` is the caller's
/// bind-probe result for this port).
pub fn validate_port(port: u32, config: &SecurityConfig, in_use: bool) -> (r: Result<
    u16,
    PortError,
>)
    ensures
        !port_permitted(port, *config) ==> r == Err::<u16, PortError>(PortError::PortForbidden {
            port,
        }),
        port_permitted(port, *config) && in_use ==> r == Err::<u16, PortError>(
            PortError::PortInUse { port },
        ),
        port_permitted(port, *config) && !in_use ==> r == Ok::<u16, PortError>(port as u16),
{
    let listed = port <= 65535 && list_contains(&config.allowed_ports, port as u16);
    proof {
        if port <= 65535 && config.allowed_ports@.contains(port as u16) {
            let i = choose|i: int|
                0 <= i < config.allowed_ports@.len() && config.allowed_ports@[i] == port as u16;
            assert(config.allowed_ports@[i] as u32 == port);
        }
        if port_in_list(port, config.allowed_ports@) {
            let i = choose|i: int|
                0 <= i < config.allowed_ports@.len() && config.allowed_ports@[i] as u32 == port;
            assert(config.allowed_ports@.contains(config.allowed_ports@[i]));
        }
    }
    if !listed {
        if port < 1024 || port > 65535 {
            return Err(PortError::PortForbidden { port });
        }
    }
    if in_use {
        return Err(PortError::PortInUse { port });
    }
    Ok(port as u16)
}

/// The first port of the allow-list that is not occupied, in list order.
pub open spec fn first_free_in_list(allowed: Seq<u16>, occupied: Seq<u16>) -> Option<u16>
    decreases allowed.len(),
{
    if allowed.len() == 0 {
        None
    } else if !occupied.contains(allowed[0]) {
        Some(allowed[0])
    } else {
        first_free_in_list(allowed.drop_first(), occupied)
    }
}

/// The lowest port in `lo..hi` that is not occupied.
pub open spec fn first_free_in_range(lo: int, hi: int, occupied: Seq<u16>) -> Option<u16>
    decreases hi - lo,
{
    if lo < 0 || lo >= hi || hi > 65536 {
        None
    } else if !occupied.contains(lo as u16) {
        Some(lo as u16)
    } else {
        first_free_in_range(lo + 1, hi, occupied)
    }
}

/// The port `find_available_port` resolves: the first free allow-listed port,
/// else the lowest free port of the fallback range 3000-3999.
pub open spec fn resolved_port(cfg: SecurityConfig, occupied: Seq<u16>) -> Option<u16> {
    match first_free_in_list(cfg.allowed_ports@, occupied) {
        Some(p) => Some(p),
        None => first_free_in_range(3000, 4000, occupied),
    }
}

/// Finds a usable port deterministically: the allow-list is scanned in order
/// and the first port absent from `occupied` wins; if every listed port is
/// occupied, the fallback range 3000-3999 is scanned in ascending order.
/// `occupied` is the set of ports the caller's bind-probes found taken.
pub fn find_available_port(config: &SecurityConfig, occupied: &Vec<u16>) -> (r: Result<
    u16,
    PortError,
>)
    ensures
        r == match resolved_port(*config, occupied@) {
            Some(p) => Ok::<u16, PortError>(p),
            None => Err::<u16, PortError>(PortError::NoPortAvailable),
        },
{
    let allowed = &config.allowed_ports;
    proof {
        assert(allowed@.skip(0) =~= allowed@);
    }
    let mut i: usize = 0;
    while i < allowed.len()
        invariant
            i <= allowed@.len(),
            allowed@ == config.allowed_ports@,
            first_free_in_list(allowed@, occupied@) == first_free_in_list(
                allowed@.skip(i as int),
                occupied@,
            ),
        decreases allowed@.len() - i,
    {
        let p = allowed[i];
        proof {
            assert(allowed@.skip(i as int)[0] == allowed@[i as int]);
            assert(allowed@.skip(i as int).drop_first() =~= allowed@.skip(i + 1));
        }
        if !list_contains(occupied, p) {
            proof {
                assert(first_free_in_list(allowed@.skip(i as int), occupied@) == Some(p));
            }
            return Ok(p);
        }
        i += 1;
    }
    proof {
        assert(allowed@.skip(i as int) =~= Seq::<u16>::empty());
    }
    let mut q: u32 = 3000;
    while q < 4000
        invariant
            3000 <= q <= 4000,
            allowed@ == config.allowed_ports@,
            first_free_in_list(allowed@, occupied@) is None,
            first_free_in_range(3000, 4000, occupied@) == first_free_in_range(
                q as int,
                4000,
                occupied@,
            ),
        decreases 4000 - q,
    {
        if !list_contains(occupied, q as u16) {
            proof {
                assert(first_free_in_range(q as int, 4000, occupied@) == Some(q as u16));
            }
            return Ok(q as u16);
        }
        q += 1;
    }
    Err(PortError::NoPortAvailable)
}

} // verus!
