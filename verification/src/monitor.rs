//! Resource monitoring and termination of the live worker.
//!
//! A [`ProcessMonitor`] binds a process identifier to the limits it must
//! obey, copied out of the policy at creation time: the monitor keeps
//! working even if the originating configuration is dropped, and it holds
//! no process handle, only the numeric identifier, so it can still report
//! "not running" once the operating system has reclaimed the worker.
//!
//! The caller polls the platform's process-information interface (on Linux,
//! the stat and status entries under the process filesystem) and hands the
//! observation in as a [`ProcessSample`]; the decision logic here is exact
//! for every sample value.

use vstd::prelude::*;
use crate::config::SecurityConfig;
use crate::text::{
    exec_first_token, exec_matches_at, exec_parse_u64, exec_skip_spaces, exec_take_until,
    first_token, matches_at, parsed_u64, skip_spaces, take_until,
};

verus! {

/// Monitors one worker process for resource-limit violations.
pub struct ProcessMonitor {
    pub pid: u32,
    pub max_memory_mb: usize,
    pub max_cpu_percent: u8,
}

/// One observation of the worker, as read from the platform's
/// process-information interface.
#[derive(Debug, Clone, Copy)]
pub enum ProcessSample {
    /// The process no longer exists.
    NotRunning,
    /// The process exists; `rss_kb` is its resident-set size in kilobytes,
    /// when the status text was readable and well-formed.
    Running { rss_kb: Option<u64> },
}

/// The healthy outcomes of a limit check.
#[derive(Debug, PartialEq, Eq, Structural, Clone, Copy)]
pub enum LimitStatus {
    WithinLimits,
    /// The process has already exited; natural death is not a violation.
    NotRunning,
}

/// A resource-limit violation.
#[derive(Debug, PartialEq, Eq, Structural, Clone, Copy)]
pub enum LimitViolation {
    MemoryExceeded { measured_mb: u64, limit_mb: usize },
}

/// A monitoring failure.
#[derive(Debug, PartialEq, Eq, Structural, Clone, Copy)]
pub enum MonitorError {
    /// The worker violated a limit and was terminated for it.
    Killed { violation: LimitViolation },
    /// The worker violated a limit but could not be terminated.
    TerminationFailed,
}

/// What one signal delivery attempt came to.
#[derive(Debug, PartialEq, Eq, Structural, Clone, Copy)]
pub enum SignalOutcome {
    /// The signal was delivered.
    Delivered,
    /// No such process exists any more.
    NoSuchProcess,
    /// Delivery failed for another reason.
    Failed,
}

/// Relies on `nix::sys::signal::kill`: sends SIGTERM (or SIGKILL when
/// `force`) to the process `pid`; an `Errno::ESRCH` result means no process
/// with that identifier exists. Nothing more is promised: the outcome
/// depends on the state of the system at the call.
#[verifier::external_body]
fn send_signal(pid: u32, force: bool) -> (r: SignalOutcome)
    requires
        pid <= 0x7fff_ffff,
{
    let sig = if force {
        nix::sys::signal::Signal::SIGKILL
    } else {
        nix::sys::signal::Signal::SIGTERM
    };
    match nix::sys::signal::kill(nix::unistd::Pid::from_raw(pid as i32), sig) {
        Ok(()) => SignalOutcome::Delivered,
        Err(nix::errno::Errno::ESRCH) => SignalOutcome::NoSuchProcess,
        Err(_) => SignalOutcome::Failed,
    }
}

/// Termination counts as successful unless both the graceful and the
/// forceful attempt failed outright; in particular, a process that is
/// already gone (`NoSuchProcess`) is a success.
pub open spec fn termination_ok(first: SignalOutcome, second: SignalOutcome) -> bool {
    first != SignalOutcome::Failed || second != SignalOutcome::Failed
}

/// Terminating an already-dead process identifier is never an error: when
/// the graceful attempt reports that no such process exists, termination
/// succeeds whatever any escalation would report. So a second termination
/// of the same worker, after the first one took effect, cannot fail.
pub proof fn lemma_termination_idempotent(second: SignalOutcome)
    ensures
        termination_ok(SignalOutcome::NoSuchProcess, second),
{
}

/// Classifies a graceful attempt and its escalation: failure only when both
/// failed.
pub fn classify_termination(first: SignalOutcome, second: SignalOutcome) -> (r: Result<
    (),
    MonitorError,
>)
    ensures
        r is Ok <==> termination_ok(first, second),
        !termination_ok(first, second) ==> r == Err::<(), MonitorError>(
            MonitorError::TerminationFailed,
        ),
{
    match (first, second) {
        (SignalOutcome::Failed, SignalOutcome::Failed) => Err(MonitorError::TerminationFailed),
        _ => Ok(()),
    }
}

// --- parsing the resident-set size out of the status text ---

/// The tag of the resident-set-size line of the status text.
pub open spec fn vmrss_prefix() -> Seq<char> {
    seq!['V', 'm', 'R', 'S', 'S', ':']
}

/// The resident-set size a single status line reports: the line must carry
/// the tag, and its first token after the tag must be a number (kilobytes).
pub open spec fn line_rss(line: Seq<char>) -> Option<u64> {
    if matches_at(line, vmrss_prefix(), 0) {
        parsed_u64(first_token(skip_spaces(line.skip(6))))
    } else {
        None
    }
}

/// The resident-set size of a whole status text: the first line that carries
/// the tag with a well-formed number, scanned top to bottom.
pub open spec fn rss_kb_of(status: Seq<char>) -> Option<u64>
    decreases status.len(),
{
    let line = take_until(status, '\n');
    if line_rss(line) is Some {
        line_rss(line)
    } else if line.len() >= status.len() {
        None
    } else {
        rss_kb_of(status.skip(line.len() + 1 as int))
    }
}

fn exec_line_rss(line: &str) -> (r: Option<u64>)
    ensures
        r == line_rss(line@),
{
    proof {
        reveal_strlit("VmRSS:");
        assert("VmRSS:"@ =~= vmrss_prefix());
    }
    let n = line.unicode_len();
    if n < 6 {
        return None;
    }
    if !exec_matches_at(line, "VmRSS:", 0) {
        return None;
    }
    let tail = line.substring_char(6, n);
    proof {
        assert(tail@ =~= line@.skip(6));
    }
    let after = exec_skip_spaces(tail);
    let token = exec_first_token(after);
    exec_parse_u64(token.as_str())
}

/// Parses the resident-set size, in kilobytes, out of a process status text.
pub fn rss_from_status(status: &str) -> (r: Option<u64>)
    ensures
        r == rss_kb_of(status@),
    decreases status@.len(),
{
    let n = status.unicode_len();
    let line = exec_take_until(status, '\n');
    let ln = line.unicode_len();
    let lr = exec_line_rss(line.as_str());
    if let Some(kb) = lr {
        return Some(kb);
    }
    if ln >= n {
        return None;
    }
    let rest = status.substring_char(ln + 1, n);
    proof {
        assert(rest@ =~= status@.skip(ln + 1));
    }
    rss_from_status(rest)
}

/// Builds one observation out of what the caller read from the platform:
/// whether the process still has a stat entry, and its status text if that
/// was readable.
pub fn sample_from_proc(stat_exists: bool, status_text: Option<&String>) -> (s: ProcessSample)
    ensures
        !stat_exists ==> s matches ProcessSample::NotRunning,
        stat_exists && status_text is None ==> (s matches ProcessSample::Running { rss_kb }
            && rss_kb is None),
        status_text matches Some(t) ==> (stat_exists ==> (s matches ProcessSample::Running {
            rss_kb,
        } && rss_kb == rss_kb_of(t@))),
{
    if !stat_exists {
        return ProcessSample::NotRunning;
    }
    match status_text {
        None => ProcessSample::Running { rss_kb: None },
        Some(t) => ProcessSample::Running { rss_kb: rss_from_status(t.as_str()) },
    }
}

impl ProcessMonitor {
    /// A monitor for the process `pid`, with the limits copied out of the
    /// policy.
    pub fn new(pid: u32, config: &SecurityConfig) -> (m: ProcessMonitor)
        ensures
            m.pid == pid,
            m.max_memory_mb == config.max_memory_mb,
            m.max_cpu_percent == config.max_cpu_percent,
    {
        ProcessMonitor {
            pid,
            max_memory_mb: config.max_memory_mb,
            max_cpu_percent: config.max_cpu_percent,
        }
    }

    /// Checks one observation against the limits. A process that has already
    /// exited is reported as `NotRunning`, never as a violation; a running
    /// process violates only when its measured memory, in whole megabytes,
    /// exceeds the ceiling.
    pub fn check_limits(&self, sample: &ProcessSample) -> (r: Result<LimitStatus, LimitViolation>)
        ensures
            *sample matches ProcessSample::NotRunning ==> r == Ok::<LimitStatus, LimitViolation>(
                LimitStatus::NotRunning,
            ),
            *sample matches ProcessSample::Running { rss_kb } ==> (rss_kb is None ==> r == Ok::<
                LimitStatus,
                LimitViolation,
            >(LimitStatus::WithinLimits)),
            *sample matches ProcessSample::Running { rss_kb: Some(kb) } ==> (kb / 1024
                <= self.max_memory_mb ==> r == Ok::<LimitStatus, LimitViolation>(
                LimitStatus::WithinLimits,
            )),
            *sample matches ProcessSample::Running { rss_kb: Some(kb) } ==> (kb / 1024
                > self.max_memory_mb ==> r == Err::<LimitStatus, LimitViolation>(
                LimitViolation::MemoryExceeded {
                    measured_mb: (kb / 1024) as u64,
                    limit_mb: self.max_memory_mb,
                },
            )),
    {
        match sample {
            ProcessSample::NotRunning => Ok(LimitStatus::NotRunning),
            ProcessSample::Running { rss_kb: None } => Ok(LimitStatus::WithinLimits),
            ProcessSample::Running { rss_kb: Some(kb) } => {
                let mb = *kb / 1024;
                if mb > self.max_memory_mb as u64 {
                    Err(LimitViolation::MemoryExceeded { measured_mb: mb, limit_mb: self.max_memory_mb })
                } else {
                    Ok(LimitStatus::WithinLimits)
                }
            },
        }
    }

    /// Requests termination of the worker: graceful first, escalating to a
    /// forceful kill only if the graceful request failed; failure is
    /// reported only when both attempts fail. Terminating an identifier
    /// whose process is already gone succeeds.
    pub fn kill_process(&self) -> (r: Result<(), MonitorError>)
        requires
            self.pid <= 0x7fff_ffff,
        ensures
            r is Err ==> r == Err::<(), MonitorError>(MonitorError::TerminationFailed),
    {
        let first = send_signal(self.pid, false);
        let second = match first {
            SignalOutcome::Failed => send_signal(self.pid, true),
            _ => first,
        };
        classify_termination(first, second)
    }

    /// Checks the observation and, on a violation, terminates the worker and
    /// reports why; on a healthy observation it is a no-op. A violation
    /// never returns `Ok`: the result names the violation or the failure to
    /// terminate.
    pub fn kill_if_violated(&self, sample: &ProcessSample) -> (r: Result<
        LimitStatus,
        MonitorError,
    >)
        requires
            self.pid <= 0x7fff_ffff,
        ensures
            *sample matches ProcessSample::NotRunning ==> r == Ok::<LimitStatus, MonitorError>(
                LimitStatus::NotRunning,
            ),
            *sample matches ProcessSample::Running { rss_kb } ==> (rss_kb is None ==> r == Ok::<
                LimitStatus,
                MonitorError,
            >(LimitStatus::WithinLimits)),
            *sample matches ProcessSample::Running { rss_kb: Some(kb) } ==> (kb / 1024
                <= self.max_memory_mb ==> r == Ok::<LimitStatus, MonitorError>(
                LimitStatus::WithinLimits,
            )),
            *sample matches ProcessSample::Running { rss_kb: Some(kb) } ==> (kb / 1024
                > self.max_memory_mb ==> (r == Err::<LimitStatus, MonitorError>(
                MonitorError::Killed {
                    violation: LimitViolation::MemoryExceeded {
                        measured_mb: (kb / 1024) as u64,
                        limit_mb: self.max_memory_mb,
                    },
                },
            ) || r == Err::<LimitStatus, MonitorError>(MonitorError::TerminationFailed))),
    {
        match self.check_limits(sample) {
            Ok(status) => Ok(status),
            Err(violation) => match self.kill_process() {
                Ok(()) => Err(MonitorError::Killed { violation }),
                Err(e) => Err(e),
            },
        }
    }
}

} // verus!
