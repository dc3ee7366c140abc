// Tests for the stdio builder's configuration and command validation.
use kodegen_mcp_client::{ClientError, StdioClientBuilder, TransportType};

#[test]
fn test_invalid_command_error() {
    let r = StdioClientBuilder::new("nonexistent_command_12345").prepare();
    assert!(r.is_err());
    match r {
        Err(ClientError::Connection { message, transport_type, endpoint }) => {
            assert!(message.contains("not found in PATH"));
            assert!(message.contains("nonexistent_command_12345"));
            assert_eq!(transport_type, Some(TransportType::Stdio));
            assert_eq!(endpoint.as_deref(), Some("nonexistent_command_12345"));
        }
        other => panic!("Expected Connection error, got: {:?}", other),
    }
}

#[test]
fn test_empty_command_rejected() {
    let r = StdioClientBuilder::new("").prepare();
    match r {
        Err(ClientError::Connection { message, endpoint, .. }) => {
            assert_eq!(message, "Command cannot be empty or whitespace-only");
            assert!(endpoint.is_none());
        }
        other => panic!("Expected Connection error, got: {:?}", other),
    }
}

#[test]
fn test_whitespace_command_rejected() {
    let r = StdioClientBuilder::new("   \t\n").prepare();
    match r {
        Err(ClientError::Connection { message, .. }) => {
            assert_eq!(message, "Command cannot be empty or whitespace-only");
        }
        other => panic!("Expected Connection error, got: {:?}", other),
    }
}

#[test]
fn test_command_with_spaces_rejected() {
    let r = StdioClientBuilder::new("node server.js").prepare();
    match r {
        Err(ClientError::Connection { message, endpoint, .. }) => {
            assert!(message.contains("contains spaces"));
            assert!(message.contains("node server.js"));
            assert_eq!(endpoint.as_deref(), Some("node server.js"));
        }
        other => panic!("Expected Connection error, got: {:?}", other),
    }
}

#[test]
fn test_builder_pattern() {
    let builder = StdioClientBuilder::new("sh")
        .arg("test")
        .arg("arg1")
        .arg("arg2")
        .env("TEST_VAR", "value")
        .timeout(60_000)
        .client_name("test-client");

    // The builder is clonable.
    let _builder2 = builder.clone();

    let plan = builder.prepare().expect("a resolvable command should produce a plan");
    assert_eq!(plan.command, "sh");
    assert_eq!(
        plan.args,
        vec!["test".to_string(), "arg1".to_string(), "arg2".to_string()]
    );
    assert_eq!(
        plan.envs,
        vec![("TEST_VAR".to_string(), "value".to_string())]
    );
    assert!(!plan.clear_env);
    assert_eq!(plan.timeout_ms, 60_000);
    assert_eq!(plan.client_name, "test-client");
    assert!(!plan.resolved_program.is_empty());
}

#[test]
fn test_builder_defaults() {
    let plan = StdioClientBuilder::new("sh").prepare().expect("should resolve");
    assert_eq!(plan.timeout_ms, 12_000);
    assert_eq!(plan.client_name, "kodegen-stdio-client");
    assert!(plan.args.is_empty());
    assert!(plan.envs.is_empty());
    assert!(plan.env_removes.is_empty());
    assert!(plan.current_dir.is_none());
}

#[test]
fn test_custom_timeout() {
    let builder = StdioClientBuilder::new("sh").arg("test").timeout(100);
    let plan = builder.prepare().expect("should resolve");
    assert_eq!(plan.timeout_ms, 100);
}

#[test]
fn test_env_configuration() {
    let plan = StdioClientBuilder::new("sh")
        .env_clear()
        .env("PATH", "/usr/bin")
        .envs(vec![
            ("VAR1".to_string(), "value1".to_string()),
            ("VAR2".to_string(), "value2".to_string()),
        ])
        .env_remove("HOME")
        .current_dir("/tmp")
        .prepare()
        .expect("should resolve");
    assert!(plan.clear_env);
    assert_eq!(plan.envs.len(), 3);
    assert_eq!(plan.envs[0], ("PATH".to_string(), "/usr/bin".to_string()));
    assert_eq!(plan.envs[2], ("VAR2".to_string(), "value2".to_string()));
    assert_eq!(plan.env_removes, vec!["HOME".to_string()]);
    assert_eq!(plan.current_dir.as_deref(), Some("/tmp"));
}

#[test]
fn test_args_extends() {
    let plan = StdioClientBuilder::new("sh")
        .arg("first")
        .args(vec!["second".to_string(), "third".to_string()])
        .prepare()
        .expect("should resolve");
    assert_eq!(
        plan.args,
        vec!["first".to_string(), "second".to_string(), "third".to_string()]
    );
}
