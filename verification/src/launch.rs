//! The secure launcher: composes integrity verification, port validation
//! and the privilege check into an all-or-nothing spawn plan.
//!
//! The plan is everything the spawn boundary needs: the resolved port and
//! the minimal environment. The caller spawning from it must clear the
//! inherited environment and set only these variables, close standard
//! input, capture standard output and error through pipes, and suppress
//! any console window; no step of the plan may be skipped, and a failed
//! plan must prevent process creation entirely.

use vstd::prelude::*;
use crate::config::SecurityConfig;
use crate::integrity::{hex_matches, sha256_of, verify_binary_integrity, HashStream, IntegrityError};
use crate::ports::{port_permitted, validate_port, PortError};

verus! {

/// Why a spawn was refused; the first failing step wins and no process is
/// created.
#[derive(Debug)]
pub enum SpawnError {
    /// The worker binary failed integrity verification.
    Integrity(IntegrityError),
    /// The requested port was refused or is taken.
    Port(PortError),
    /// The process would run with superuser identity; the worker must never
    /// run at elevated privilege.
    PrivilegeEscalationRisk,
}

/// A cleared spawn: the resolved port and the minimal environment for the
/// worker. Nothing of the host's environment is passed through implicitly.
#[derive(Debug)]
pub struct SpawnPlan {
    /// The validated port, also exported to the worker as its `PORT`.
    pub port: u16,
    /// The runtime-mode marker exported to the worker.
    pub runtime_mode: String,
    /// The log-verbosity marker exported to the worker.
    pub log_level: String,
    /// Whether sandbox setup must be applied before the worker runs.
    pub sandbox: bool,
}

/// The binary clears integrity verification: a configured digest must match
/// the streamed bytes; a missing digest passes only outside production.
pub open spec fn integrity_clears(cfg: SecurityConfig, fed: Seq<u8>, production: bool) -> bool {
    if cfg.binary_hash@.len() == 0 {
        !production
    } else {
        hex_matches(cfg.binary_hash@, sha256_of(fed))
    }
}

/// Plans the spawn for a process running as user `uid`, short-circuiting on
/// the first failure: integrity first, then the port, then the privilege
/// check; only then is a plan produced.
pub fn plan_spawn_as_user(
    uid: u32,
    stream: HashStream,
    requested_port: u32,
    port_in_use: bool,
    config: &SecurityConfig,
    production: bool,
) -> (r: Result<SpawnPlan, SpawnError>)
    ensures
        config.binary_hash@.len() == 0 && production ==> r matches Err(SpawnError::Integrity(
            IntegrityError::ConfigurationMissing,
        )),
        config.binary_hash@.len() > 0 && !hex_matches(config.binary_hash@, sha256_of(stream.bytes()))
            ==> (r matches Err(SpawnError::Integrity(IntegrityError::IntegrityMismatch {
            expected,
            computed,
        })) && expected@ == config.binary_hash@ && computed@ == sha256_of(stream.bytes())),
        integrity_clears(*config, stream.bytes(), production) && !port_permitted(
            requested_port,
            *config,
        ) ==> (r matches Err(SpawnError::Port(PortError::PortForbidden { port }))
            && port == requested_port),
        integrity_clears(*config, stream.bytes(), production) && port_permitted(
            requested_port,
            *config,
        ) && port_in_use ==> (r matches Err(SpawnError::Port(PortError::PortInUse { port }))
            && port == requested_port),
        integrity_clears(*config, stream.bytes(), production) && port_permitted(
            requested_port,
            *config,
        ) && !port_in_use && uid == 0 ==> r matches Err(SpawnError::PrivilegeEscalationRisk),
        integrity_clears(*config, stream.bytes(), production) && port_permitted(
            requested_port,
            *config,
        ) && !port_in_use && uid != 0 ==> (r matches Ok(plan) && plan.port == requested_port as u16
            && plan.runtime_mode@ == "production"@ && plan.log_level@ == "error"@ && plan.sandbox
            == config.sandbox_enabled),
{
    let outcome = verify_binary_integrity(stream, config.binary_hash.as_str(), production);
    if let Err(e) = outcome {
        return Err(SpawnError::Integrity(e));
    }
    let port = match validate_port(requested_port, config, port_in_use) {
        Ok(p) => p,
        Err(pe) => {
            return Err(SpawnError::Port(pe));
        },
    };
    if uid == 0 {
        return Err(SpawnError::PrivilegeEscalationRisk);
    }
    Ok(
        SpawnPlan {
            port,
            runtime_mode: String::from_str("production"),
            log_level: String::from_str("error"),
            sandbox: config.sandbox_enabled,
        },
    )
}

/// Relies on `nix::unistd::getuid`: the real user identity of the calling
/// process. Nothing more is promised: the value depends on the process.
#[verifier::external_body]
fn current_uid() -> (uid: u32) {
    nix::unistd::getuid().as_raw()
}

/// Plans the spawn for the calling process's own identity: as
/// `plan_spawn_as_user` with the real user id of the caller, so a host
/// running as superuser refuses to spawn with `PrivilegeEscalationRisk`.
pub fn plan_secure_spawn(
    stream: HashStream,
    requested_port: u32,
    port_in_use: bool,
    config: &SecurityConfig,
    production: bool,
) -> (r: Result<SpawnPlan, SpawnError>)
    ensures
        config.binary_hash@.len() == 0 && production ==> r matches Err(SpawnError::Integrity(
            IntegrityError::ConfigurationMissing,
        )),
        config.binary_hash@.len() > 0 && !hex_matches(config.binary_hash@, sha256_of(stream.bytes()))
            ==> (r matches Err(SpawnError::Integrity(IntegrityError::IntegrityMismatch {
            expected,
            computed,
        })) && expected@ == config.binary_hash@ && computed@ == sha256_of(stream.bytes())),
        integrity_clears(*config, stream.bytes(), production) && !port_permitted(
            requested_port,
            *config,
        ) ==> (r matches Err(SpawnError::Port(PortError::PortForbidden { port }))
            && port == requested_port),
        integrity_clears(*config, stream.bytes(), production) && port_permitted(
            requested_port,
            *config,
        ) && port_in_use ==> (r matches Err(SpawnError::Port(PortError::PortInUse { port }))
            && port == requested_port),
        integrity_clears(*config, stream.bytes(), production) && port_permitted(
            requested_port,
            *config,
        ) && !port_in_use ==> (r matches Err(SpawnError::PrivilegeEscalationRisk) || (
        r matches Ok(plan) && plan.port == requested_port as u16 && plan.runtime_mode@
            == "production"@ && plan.log_level@ == "error"@ && plan.sandbox
            == config.sandbox_enabled)),
{
    let uid = current_uid();
    plan_spawn_as_user(uid, stream, requested_port, port_in_use, config, production)
}

} // verus!
