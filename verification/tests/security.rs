use sidecar_guard::{
    find_available_port, validate_command_args, validate_ipc_message, validate_port, ArgError,
    MsgError, PortError, SecurityConfig,
};

#[test]
fn test_port_validation() {
    let config = SecurityConfig::default();

    assert!(validate_port(3000, &config, false).is_ok());

    assert!(validate_port(80, &config, false).is_err());

    assert!(validate_port(70000, &config, false).is_err());
}

#[test]
fn test_command_validation() {
    let safe_args = vec!["--port=3000".to_string(), "--verbose".to_string()];
    assert!(validate_command_args(&safe_args).is_ok());

    let dangerous_args = vec!["test; rm -rf /".to_string()];
    assert!(validate_command_args(&dangerous_args).is_err());

    let traversal_args = vec!["../../etc/passwd".to_string()];
    assert!(validate_command_args(&traversal_args).is_err());
}

#[test]
fn test_ipc_validation() {
    let safe_msg = r#"{"type": "request", "data": "hello"}"#;
    assert!(validate_ipc_message(safe_msg).is_ok());

    let xss_msg = r#"<script>alert('xss')</script>"#;
    assert!(validate_ipc_message(xss_msg).is_err());

    let eval_msg = r#"eval('malicious code')"#;
    assert!(validate_ipc_message(eval_msg).is_err());
}

#[test]
fn port_allowed_but_taken_is_port_in_use() {
    let config = SecurityConfig::default();
    let r = validate_port(3000, &config, true);
    assert!(matches!(r, Err(PortError::PortInUse { port: 3000 })));
}

#[test]
fn privileged_port_not_listed_is_forbidden() {
    let config = SecurityConfig::default();
    let r = validate_port(80, &config, false);
    assert!(matches!(r, Err(PortError::PortForbidden { port: 80 })));
    let r = validate_port(1023, &config, false);
    assert!(matches!(r, Err(PortError::PortForbidden { port: 1023 })));
}

#[test]
fn listed_privileged_port_is_accepted_when_free() {
    let config = SecurityConfig {
        allowed_ports: vec![80, 3000],
        binary_hash: String::new(),
        max_memory_mb: 512,
        max_cpu_percent: 50,
        sandbox_enabled: true,
    };
    assert_eq!(validate_port(80, &config, false), Ok(80));
}

#[test]
fn unprivileged_port_outside_list_is_accepted() {
    let config = SecurityConfig::default();
    assert_eq!(validate_port(8080, &config, false), Ok(8080));
    assert_eq!(validate_port(65535, &config, false), Ok(65535));
}

#[test]
fn find_available_prefers_list_order() {
    let config = SecurityConfig::default();
    assert_eq!(find_available_port(&config, &vec![]), Ok(3000));
    assert_eq!(find_available_port(&config, &vec![3000, 3001]), Ok(3002));
}

#[test]
fn find_available_falls_back_to_default_range() {
    let config = SecurityConfig::default();
    let occupied = vec![3000, 3001, 3002, 3003, 3004];
    assert_eq!(find_available_port(&config, &occupied), Ok(3005));
}

#[test]
fn find_available_exhausted_is_no_port_available() {
    let config = SecurityConfig::default();
    let occupied: Vec<u16> = (3000..4000).collect();
    assert_eq!(find_available_port(&config, &occupied), Err(PortError::NoPortAvailable));
}

#[test]
fn command_substitution_is_dangerous() {
    let args = vec!["$(whoami)".to_string()];
    let r = validate_command_args(&args);
    assert!(matches!(r, Err(ArgError::DangerousArgument { .. })));
}

#[test]
fn dangerous_argument_carries_the_argument() {
    let args = vec!["ok".to_string(), "a|b".to_string()];
    match validate_command_args(&args) {
        Err(ArgError::DangerousArgument { arg }) => assert_eq!(arg, "a|b"),
        other => panic!("expected DangerousArgument, got {:?}", other),
    }
}

#[test]
fn safe_args_come_back_unchanged() {
    let safe_args = vec!["--port=3000".to_string(), "--verbose".to_string()];
    let cleared = validate_command_args(&safe_args).unwrap();
    assert_eq!(cleared, safe_args);
}

#[test]
fn device_redirection_is_dangerous() {
    let args = vec!["out>  /dev/null".to_string()];
    assert!(matches!(validate_command_args(&args), Err(ArgError::DangerousArgument { .. })));
}

#[test]
fn malformed_dash_argument_is_dangerous() {
    let args = vec!["- rm".to_string()];
    assert!(matches!(validate_command_args(&args), Err(ArgError::DangerousArgument { .. })));
}

#[test]
fn privileged_port_argument_is_invalid() {
    let args = vec!["--port=80".to_string()];
    assert!(matches!(validate_command_args(&args), Err(ArgError::InvalidPort { .. })));
}

#[test]
fn malformed_port_argument_is_invalid() {
    let args = vec!["--port=abc".to_string()];
    assert!(matches!(validate_command_args(&args), Err(ArgError::InvalidPort { .. })));
    let args = vec!["-p3000".to_string()];
    assert!(matches!(validate_command_args(&args), Err(ArgError::InvalidPort { .. })));
}

#[test]
fn script_uri_and_handlers_are_malicious() {
    assert_eq!(validate_ipc_message("click javascript:doit()"), Err(MsgError::MaliciousContent));
    assert_eq!(validate_ipc_message("<img onerror = 'x'>"), Err(MsgError::MaliciousContent));
    assert_eq!(validate_ipc_message("new  Function('x')"), Err(MsgError::MaliciousContent));
    assert_eq!(validate_ipc_message("eval ('x')"), Err(MsgError::MaliciousContent));
}

#[test]
fn oversized_message_is_too_large() {
    let msg = "a".repeat(10001);
    assert_eq!(validate_ipc_message(&msg), Err(MsgError::MessageTooLarge));
    let msg = "a".repeat(10000);
    assert!(validate_ipc_message(&msg).is_ok());
}

#[test]
fn cleared_message_comes_back_unchanged() {
    let msg = r#"{"type": "request", "data": "hello"}"#;
    assert_eq!(validate_ipc_message(msg).unwrap(), msg);
}

#[test]
fn harmless_on_prefix_is_not_malicious() {
    assert!(validate_ipc_message("keep on going").is_ok());
    assert!(validate_ipc_message("evaluation").is_ok());
    assert!(validate_ipc_message("a new function was written").is_ok());
}

#[test]
fn default_config_values() {
    let config = SecurityConfig::default();
    assert_eq!(config.allowed_ports, vec![3000, 3001, 3002, 3003, 3004]);
    assert_eq!(config.binary_hash, "");
    assert_eq!(config.max_memory_mb, 512);
    assert_eq!(config.max_cpu_percent, 50);
    assert!(config.sandbox_enabled);
}
