//! Best-effort sandbox setup, applied before the worker's own code runs:
//! fresh namespaces, a chroot into the sandbox directory, a privilege drop
//! to the unprivileged account, and kernel-enforced resource ceilings.
//!
//! Every step must succeed: the first failure aborts with
//! [`SandboxError::SandboxSetupFailed`] naming the step, so a worker never
//! runs partially sandboxed. This is namespace isolation plus resource
//! ceilings, not a hypervisor-grade boundary.

use vstd::prelude::*;

verus! {

/// The steps of sandbox setup, in the order they are applied.
#[derive(Debug, PartialEq, Eq, Structural, Clone, Copy)]
pub enum SandboxStep {
    /// Fresh user, network, process-tree and inter-process-communication
    /// namespaces.
    Namespaces,
    /// Working directory moved into the sandbox directory.
    ChangeDirectory,
    /// Root filesystem view switched to the sandbox directory.
    ChangeRoot,
    /// Group identity dropped (before the user identity, so there is no
    /// window with excess privilege on one axis).
    DropGroup,
    /// User identity dropped.
    DropUser,
    /// Hard ceiling on total addressable memory.
    MemoryLimit,
    /// Hard ceiling on cumulative processor time.
    CpuLimit,
    /// Core dumps disabled, so a crash cannot leak memory contents to disk.
    CoreDumpLimit,
}

/// Sandbox setup failed at a step; the worker must not be started.
#[derive(Debug, PartialEq, Eq, Structural, Clone, Copy)]
pub enum SandboxError {
    SandboxSetupFailed { step: SandboxStep },
}

/// The unprivileged, non-interactive account identity the worker runs as.
pub const UNPRIVILEGED_UID: u32 = 65534;

pub const UNPRIVILEGED_GID: u32 = 65534;

/// Relies on `nix::sched::unshare`: moves the calling process into fresh
/// user, network, process-tree and inter-process-communication namespaces.
/// Whether it succeeds depends on the state and privileges of the process.
#[verifier::external_body]
fn unshare_namespaces() -> (ok: bool) {
    nix::sched::unshare(
        nix::sched::CloneFlags::CLONE_NEWUSER | nix::sched::CloneFlags::CLONE_NEWNET
            | nix::sched::CloneFlags::CLONE_NEWPID | nix::sched::CloneFlags::CLONE_NEWIPC,
    ).is_ok()
}

/// Relies on `nix::unistd::chdir`: changes the working directory.
#[verifier::external_body]
fn chdir_to(path: &str) -> (ok: bool) {
    nix::unistd::chdir(path).is_ok()
}

/// Relies on `nix::unistd::chroot`: changes the root filesystem view.
#[verifier::external_body]
fn chroot_to(path: &str) -> (ok: bool) {
    nix::unistd::chroot(path).is_ok()
}

/// Relies on `nix::unistd::setgid`: sets the group identity.
#[verifier::external_body]
fn set_group(gid: u32) -> (ok: bool) {
    nix::unistd::setgid(nix::unistd::Gid::from_raw(gid)).is_ok()
}

/// Relies on `nix::unistd::setuid`: sets the user identity.
#[verifier::external_body]
fn set_user(uid: u32) -> (ok: bool) {
    nix::unistd::setuid(nix::unistd::Uid::from_raw(uid)).is_ok()
}

/// Relies on `nix::sys::resource::setrlimit` with `RLIMIT_AS`: a hard
/// ceiling, enforced by the kernel, on total addressable memory in bytes.
#[verifier::external_body]
fn limit_address_space(bytes: u64) -> (ok: bool) {
    nix::sys::resource::setrlimit(nix::sys::resource::Resource::RLIMIT_AS, bytes, bytes).is_ok()
}

/// Relies on `nix::sys::resource::setrlimit` with `RLIMIT_CPU`: a hard
/// ceiling on cumulative processor time in seconds.
#[verifier::external_body]
fn limit_cpu_time(seconds: u64) -> (ok: bool) {
    nix::sys::resource::setrlimit(nix::sys::resource::Resource::RLIMIT_CPU, seconds, seconds)
        .is_ok()
}

/// Relies on `nix::sys::resource::setrlimit` with `RLIMIT_CORE` at zero:
/// disables core-dump generation.
#[verifier::external_body]
fn disable_core_dumps() -> (ok: bool) {
    nix::sys::resource::setrlimit(nix::sys::resource::Resource::RLIMIT_CORE, 0, 0).is_ok()
}

/// Applies the isolation steps in order — fresh namespaces, working
/// directory and root moved into `sandbox_dir`, then the privilege drop,
/// group before user — stopping at the first failure. Whether each step
/// succeeds depends on the state of the system; any failure is reported
/// with the step that failed, and no later step is attempted.
pub fn setup_sandbox(sandbox_dir: &str) -> (r: Result<(), SandboxError>)
    ensures
        r matches Err(e) ==> e matches SandboxError::SandboxSetupFailed { .. },
{
    if !unshare_namespaces() {
        return Err(SandboxError::SandboxSetupFailed { step: SandboxStep::Namespaces });
    }
    if !chdir_to(sandbox_dir) {
        return Err(SandboxError::SandboxSetupFailed { step: SandboxStep::ChangeDirectory });
    }
    if !chroot_to(sandbox_dir) {
        return Err(SandboxError::SandboxSetupFailed { step: SandboxStep::ChangeRoot });
    }
    if !set_group(UNPRIVILEGED_GID) {
        return Err(SandboxError::SandboxSetupFailed { step: SandboxStep::DropGroup });
    }
    if !set_user(UNPRIVILEGED_UID) {
        return Err(SandboxError::SandboxSetupFailed { step: SandboxStep::DropUser });
    }
    Ok(())
}

/// Imposes the kernel-enforced ceilings: addressable memory, cumulative
/// processor time, and no core dumps, stopping at the first failure.
pub fn set_resource_limits(max_memory_bytes: u64, max_cpu_time_secs: u64) -> (r: Result<
    (),
    SandboxError,
>)
    ensures
        r matches Err(e) ==> e matches SandboxError::SandboxSetupFailed { .. },
{
    if !limit_address_space(max_memory_bytes) {
        return Err(SandboxError::SandboxSetupFailed { step: SandboxStep::MemoryLimit });
    }
    if !limit_cpu_time(max_cpu_time_secs) {
        return Err(SandboxError::SandboxSetupFailed { step: SandboxStep::CpuLimit });
    }
    if !disable_core_dumps() {
        return Err(SandboxError::SandboxSetupFailed { step: SandboxStep::CoreDumpLimit });
    }
    Ok(())
}

/// The memory ceiling in bytes for a policy given in whole megabytes, or
/// `None` when that does not fit in a byte count.
pub fn memory_limit_bytes(max_memory_mb: usize) -> (r: Option<u64>)
    ensures
        max_memory_mb * 1024 * 1024 <= u64::MAX ==> r == Some((max_memory_mb * 1024 * 1024) as u64),
        max_memory_mb * 1024 * 1024 > u64::MAX ==> r is None,
{
    let mb = max_memory_mb as u64;
    if mb > u64::MAX / (1024 * 1024) {
        None
    } else {
        Some(mb * 1024 * 1024)
    }
}

} // verus!
