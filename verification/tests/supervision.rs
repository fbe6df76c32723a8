use sidecar_guard::monitor::sample_from_proc;
use sidecar_guard::{
    parse_port_report, verify_binary_integrity, HashStream, IntegrityError, LimitStatus,
    LimitViolation, MonitorError, ProcessMonitor, ProcessSample, SecurityConfig, SidecarState,
    StateError, VerifyOutcome,
};

const ABC_SHA256: &str = "ba7816bf8f01cfea414140de5dae2223b00361a396177a9cb410ff61f20015ad";

const EMPTY_SHA256: &str = "e3b0c44298fc1c149afbf4c8996fb92427ae41e4649b934ca495991b7852b855";

#[test]
fn verify_matches_known_digest() {
    let mut stream = HashStream::new();
    stream.update(b"abc");
    let r = verify_binary_integrity(stream, ABC_SHA256, true);
    assert_eq!(r.unwrap(), VerifyOutcome::Verified);
}

#[test]
fn verify_is_case_insensitive() {
    let upper = ABC_SHA256.to_uppercase();
    let mut stream = HashStream::new();
    stream.update(b"abc");
    let r = verify_binary_integrity(stream, &upper, true);
    assert_eq!(r.unwrap(), VerifyOutcome::Verified);
}

#[test]
fn verify_is_incremental_over_chunks() {
    let mut stream = HashStream::new();
    stream.update(b"ab");
    stream.update(b"c");
    let r = verify_binary_integrity(stream, ABC_SHA256, true);
    assert_eq!(r.unwrap(), VerifyOutcome::Verified);
}

#[test]
fn verify_empty_input_digest() {
    let stream = HashStream::new();
    let r = verify_binary_integrity(stream, EMPTY_SHA256, true);
    assert_eq!(r.unwrap(), VerifyOutcome::Verified);
}

#[test]
fn verify_mismatch_carries_both_values() {
    let mut stream = HashStream::new();
    stream.update(b"abc");
    match verify_binary_integrity(stream, EMPTY_SHA256, true) {
        Err(IntegrityError::IntegrityMismatch { expected, computed }) => {
            assert_eq!(expected, EMPTY_SHA256);
            let abc_digest: Vec<u8> = vec![
                0xba, 0x78, 0x16, 0xbf, 0x8f, 0x01, 0xcf, 0xea, 0x41, 0x41, 0x40, 0xde, 0x5d,
                0xae, 0x22, 0x23, 0xb0, 0x03, 0x61, 0xa3, 0x96, 0x17, 0x7a, 0x9c, 0xb4, 0x10,
                0xff, 0x61, 0xf2, 0x00, 0x15, 0xad,
            ];
            assert_eq!(computed, abc_digest);
        },
        other => panic!("expected a mismatch, got {:?}", other),
    }
}

#[test]
fn missing_digest_fails_closed_in_production() {
    let stream = HashStream::new();
    let r = verify_binary_integrity(stream, "", true);
    assert!(matches!(r, Err(IntegrityError::ConfigurationMissing)));
}

#[test]
fn missing_digest_passes_loudly_in_development() {
    let stream = HashStream::new();
    let r = verify_binary_integrity(stream, "", false);
    assert_eq!(r.unwrap(), VerifyOutcome::SkippedNoDigest);
}

#[test]
fn monitor_copies_limits_from_config() {
    let config = SecurityConfig::default();
    let monitor = ProcessMonitor::new(4242, &config);
    assert_eq!(monitor.pid, 4242);
    assert_eq!(monitor.max_memory_mb, 512);
    assert_eq!(monitor.max_cpu_percent, 50);
}

#[test]
fn exited_process_is_not_a_violation() {
    let config = SecurityConfig::default();
    let monitor = ProcessMonitor::new(2147483647, &config);
    let r = monitor.check_limits(&ProcessSample::NotRunning);
    assert_eq!(r, Ok(LimitStatus::NotRunning));
    let r = monitor.kill_if_violated(&ProcessSample::NotRunning);
    assert_eq!(r, Ok(LimitStatus::NotRunning));
}

#[test]
fn memory_within_limit_is_healthy() {
    let config = SecurityConfig::default();
    let monitor = ProcessMonitor::new(1, &config);
    let sample = ProcessSample::Running { rss_kb: Some(512 * 1024) };
    assert_eq!(monitor.check_limits(&sample), Ok(LimitStatus::WithinLimits));
    let sample = ProcessSample::Running { rss_kb: None };
    assert_eq!(monitor.check_limits(&sample), Ok(LimitStatus::WithinLimits));
}

#[test]
fn memory_over_limit_is_a_violation() {
    let config = SecurityConfig::default();
    let monitor = ProcessMonitor::new(1, &config);
    let sample = ProcessSample::Running { rss_kb: Some(513 * 1024) };
    assert_eq!(
        monitor.check_limits(&sample),
        Err(LimitViolation::MemoryExceeded { measured_mb: 513, limit_mb: 512 })
    );
}

#[test]
fn terminating_a_dead_pid_is_not_an_error() {
    let config = SecurityConfig::default();
    let monitor = ProcessMonitor::new(2147483647, &config);
    assert!(monitor.kill_process().is_ok());
    assert!(monitor.kill_process().is_ok());
}

#[test]
fn violation_on_dead_pid_reports_killed() {
    let config = SecurityConfig::default();
    let monitor = ProcessMonitor::new(2147483647, &config);
    let sample = ProcessSample::Running { rss_kb: Some(1024 * 1024) };
    let r = monitor.kill_if_violated(&sample);
    assert_eq!(
        r,
        Err(MonitorError::Killed {
            violation: LimitViolation::MemoryExceeded { measured_mb: 1024, limit_mb: 512 },
        })
    );
}

#[test]
fn rss_is_parsed_from_status_text() {
    let status = "Name:\tworker\nVmPeak:\t  2048 kB\nVmRSS:\t  1234 kB\nThreads:\t3\n".to_string();
    let sample = sample_from_proc(true, Some(&status));
    assert!(matches!(sample, ProcessSample::Running { rss_kb: Some(1234) }));
}

#[test]
fn unreadable_status_yields_no_measurement() {
    let sample = sample_from_proc(true, None);
    assert!(matches!(sample, ProcessSample::Running { rss_kb: None }));
    let sample = sample_from_proc(false, None);
    assert!(matches!(sample, ProcessSample::NotRunning));
    let garbled = "VmRSS:\tplenty kB\n".to_string();
    let sample = sample_from_proc(true, Some(&garbled));
    assert!(matches!(sample, ProcessSample::Running { rss_kb: None }));
}

#[test]
fn port_report_is_parsed_after_last_colon() {
    assert_eq!(parse_port_report("Server listening on http://localhost:3000"), Some(3000));
    assert_eq!(parse_port_report("Server listening on: 8080"), Some(8080));
    assert_eq!(parse_port_report("Server listening on port 3000"), None);
    assert_eq!(parse_port_report("something else: 3000"), None);
}

#[test]
fn port_query_fails_until_reported() {
    let mut state = SidecarState::new();
    assert_eq!(state.get_server_port(), Err(StateError::NotYetAvailable));
    state.set_port(3000);
    assert_eq!(state.get_server_port(), Ok(3000));
}

#[test]
fn memory_limit_bytes_scales_megabytes() {
    assert_eq!(sidecar_guard::memory_limit_bytes(512), Some(512 * 1024 * 1024));
    assert_eq!(sidecar_guard::memory_limit_bytes(0), Some(0));
}

#[test]
fn spawn_plan_carries_minimal_environment() {
    let mut config = SecurityConfig::default();
    config.binary_hash = ABC_SHA256.to_string();
    let mut stream = HashStream::new();
    stream.update(b"abc");
    let plan = sidecar_guard::plan_spawn_as_user(1000, stream, 3000, false, &config, true).unwrap();
    assert_eq!(plan.port, 3000);
    assert_eq!(plan.runtime_mode, "production");
    assert_eq!(plan.log_level, "error");
    assert!(plan.sandbox);
}

#[test]
fn spawn_refused_for_superuser() {
    let mut config = SecurityConfig::default();
    config.binary_hash = ABC_SHA256.to_string();
    let mut stream = HashStream::new();
    stream.update(b"abc");
    let r = sidecar_guard::plan_spawn_as_user(0, stream, 3000, false, &config, true);
    assert!(matches!(r, Err(sidecar_guard::SpawnError::PrivilegeEscalationRisk)));
}

#[test]
fn spawn_refused_on_integrity_mismatch() {
    let mut config = SecurityConfig::default();
    config.binary_hash = ABC_SHA256.to_string();
    let mut stream = HashStream::new();
    stream.update(b"not the binary");
    let r = sidecar_guard::plan_spawn_as_user(1000, stream, 3000, false, &config, true);
    assert!(matches!(
        r,
        Err(sidecar_guard::SpawnError::Integrity(IntegrityError::IntegrityMismatch { .. }))
    ));
}

#[test]
fn spawn_refused_on_taken_port() {
    let mut config = SecurityConfig::default();
    config.binary_hash = ABC_SHA256.to_string();
    let mut stream = HashStream::new();
    stream.update(b"abc");
    let r = sidecar_guard::plan_spawn_as_user(1000, stream, 3000, true, &config, true);
    assert!(matches!(
        r,
        Err(sidecar_guard::SpawnError::Port(sidecar_guard::PortError::PortInUse { port: 3000 }))
    ));
}

#[test]
fn hex_comparison_accepts_either_case() {
    let digest: Vec<u8> = vec![0xff, 0x00, 0xab];
    assert!(sidecar_guard::integrity::hex_matches_digest("ff00ab", &digest));
    assert!(sidecar_guard::integrity::hex_matches_digest("FF00AB", &digest));
    assert!(!sidecar_guard::integrity::hex_matches_digest("ff00ac", &digest));
    assert!(!sidecar_guard::integrity::hex_matches_digest("ff00a", &digest));
    assert!(!sidecar_guard::integrity::hex_matches_digest("zz00ab", &digest));
}
