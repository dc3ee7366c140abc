// Tests for the error taxonomy and its classification helpers.
use kodegen_mcp_client::{ClientError, InitErrorKind, ServiceErrorKind};

#[test]
fn test_is_init_error() {
    let e = ClientError::InitError(Box::new(InitErrorKind::Cancelled));
    assert!(e.is_init_error());
    let e = ClientError::Protocol("bad".to_string());
    assert!(!e.is_init_error());
}

#[test]
fn test_connection_broken_on_init_failures() {
    let e = ClientError::InitError(Box::new(InitErrorKind::ConnectionClosed(
        "handshake".to_string(),
    )));
    assert!(e.is_connection_broken());
    let e = ClientError::InitError(Box::new(InitErrorKind::TransportError {
        context: "send".to_string(),
        error: "pipe closed".to_string(),
    }));
    assert!(e.is_connection_broken());
    let e = ClientError::InitError(Box::new(InitErrorKind::Cancelled));
    assert!(!e.is_connection_broken());
}

#[test]
fn test_connection_broken_on_service_failures() {
    let e = ClientError::ServiceError(ServiceErrorKind::TransportClosed);
    assert!(e.is_connection_broken());
    let e = ClientError::ServiceError(ServiceErrorKind::TransportSend {
        message: "broken pipe".to_string(),
    });
    assert!(e.is_connection_broken());
    let e = ClientError::ServiceError(ServiceErrorKind::UnexpectedResponse);
    assert!(!e.is_connection_broken());
}

#[test]
fn test_connection_broken_on_io() {
    let e = ClientError::Io("read failed".to_string());
    assert!(e.is_connection_broken());
    let e = ClientError::Timeout {
        operation: "list_tools".to_string(),
        duration_ms: 100,
    };
    assert!(!e.is_connection_broken());
}

#[test]
fn test_error_kind_labels() {
    assert_eq!(
        ClientError::Protocol("x".to_string()).error_kind(),
        "protocol error"
    );
    assert_eq!(ClientError::Io("x".to_string()).error_kind(), "io error");
    assert_eq!(
        ClientError::JoinError("x".to_string()).error_kind(),
        "task join error"
    );
    assert_eq!(
        ClientError::Timeout { operation: "t".to_string(), duration_ms: 1 }.error_kind(),
        "timeout"
    );
    assert_eq!(
        ClientError::ParseError { tool_name: "t".to_string(), cause: "c".to_string() }
            .error_kind(),
        "parse error"
    );
    assert_eq!(
        ClientError::Connection { message: "m".to_string(), transport_type: None, endpoint: None }
            .error_kind(),
        "connection error"
    );
    assert_eq!(
        ClientError::InitError(Box::new(InitErrorKind::ConnectionClosed("h".to_string())))
            .error_kind(),
        "connection closed during init"
    );
    assert_eq!(
        ClientError::ServiceError(ServiceErrorKind::TransportClosed).error_kind(),
        "transport closed"
    );
    assert_eq!(
        ClientError::ServiceError(ServiceErrorKind::McpError { message: "m".to_string() })
            .error_kind(),
        "mcp protocol error"
    );
}

#[test]
fn test_init_error_context() {
    let e = ClientError::InitError(Box::new(InitErrorKind::ConnectionClosed(
        "initialize request".to_string(),
    )));
    assert_eq!(
        e.init_error_context().as_deref(),
        Some("connection closed during: initialize request")
    );
    let e = ClientError::InitError(Box::new(InitErrorKind::TransportError {
        context: "handshake".to_string(),
        error: "pipe closed".to_string(),
    }));
    assert_eq!(
        e.init_error_context().as_deref(),
        Some("transport error during handshake: pipe closed")
    );
    let e = ClientError::InitError(Box::new(InitErrorKind::Cancelled));
    assert_eq!(e.init_error_context().as_deref(), Some("initialization cancelled"));
    let e = ClientError::Protocol("x".to_string());
    assert!(e.init_error_context().is_none());
}

#[test]
fn test_session_error_detection() {
    let session_expired = ClientError::ServiceError(ServiceErrorKind::McpError {
        message: "Session expired, please reconnect".to_string(),
    });
    assert!(session_expired.is_session_error());

    let unauthorized = ClientError::ServiceError(ServiceErrorKind::McpError {
        message: "401 Unauthorized".to_string(),
    });
    assert!(unauthorized.is_session_error());

    let auth_failed = ClientError::ServiceError(ServiceErrorKind::McpError {
        message: "AUTH failure".to_string(),
    });
    assert!(auth_failed.is_session_error());

    let unrelated = ClientError::ServiceError(ServiceErrorKind::McpError {
        message: "tool not found".to_string(),
    });
    assert!(!unrelated.is_session_error());

    let not_mcp = ClientError::Protocol("session".to_string());
    assert!(!not_mcp.is_session_error());
}

#[test]
fn test_messages_render_one_line() {
    let e = ClientError::Timeout {
        operation: "Tool 'slow_tool'".to_string(),
        duration_ms: 12000,
    };
    assert_eq!(
        e.message(),
        "Operation 'Tool 'slow_tool'' timed out after 12000ms"
    );
    let e = ClientError::ParseError {
        tool_name: "get_issue".to_string(),
        cause: "missing field id".to_string(),
    };
    assert_eq!(
        e.message(),
        "Failed to parse response from tool 'get_issue': missing field id"
    );
    let e = ClientError::Connection {
        message: "endpoint unreachable".to_string(),
        transport_type: None,
        endpoint: None,
    };
    assert_eq!(e.message(), "Connection error: endpoint unreachable");
    let e = ClientError::Protocol("bad shape".to_string());
    assert_eq!(e.message(), "MCP protocol error: bad shape");
}
