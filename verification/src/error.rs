//! The error taxonomy and its classification helpers.
//!
//! Every failure is returned to the caller as a [`ClientError`] value. The
//! classification helpers are derived predicates over the taxonomy: they let
//! a caller decide on reconnects and retries without matching every variant.

use vstd::prelude::*;
use vstd::string::*;

use crate::text::{lower_of, lowercase, seq_contains, str_contains, dec_of, u64_to_dec};

verus! {

/// The transport a connection failure occurred on.
#[derive(Clone, Copy, Debug, PartialEq, Eq, Structural)]
pub enum TransportType {
    /// HTTP transport (streamable HTTP).
    Http,
    /// Standard I/O (stdio) transport.
    Stdio,
}

/// What went wrong while initializing a session, as far as classification
/// reads it. Mirrors the initialization failures the underlying peer library
/// reports, with the payloads the helpers need.
#[derive(Debug)]
pub enum InitErrorKind {
    /// The connection closed during the named initialization stage.
    ConnectionClosed(String),
    /// Sending over the transport failed during the named stage.
    TransportError { context: String, error: String },
    /// Initialization was cancelled.
    Cancelled,
    /// The peer answered with something other than an initialize response.
    ExpectedInitResponse,
    /// The peer answered with something other than an initialize result.
    ExpectedInitResult,
    /// The initialize response carried an unexpected request id.
    ConflictInitResponseId,
    /// Any other initialization failure, described.
    Other(String),
}

/// A mid-session fault reported by the underlying channel.
#[derive(Debug)]
pub enum ServiceErrorKind {
    /// The peer reported a protocol-level error with this message.
    McpError { message: String },
    /// Sending over the transport failed.
    TransportSend { message: String },
    /// The transport is closed.
    TransportClosed,
    /// The peer answered with a response of an unexpected shape.
    UnexpectedResponse,
    /// The service task was cancelled.
    Cancelled,
    /// The channel's own request timeout expired.
    Timeout,
    /// Any other channel fault, described.
    Other { message: String },
}

/// The closed set of failure kinds this library reports.
#[derive(Debug)]
pub enum ClientError {
    /// Malformed request or response at the application level.
    Protocol(String),
    /// Low-level transport I/O failure.
    Io(String),
    /// Handshake or initialization failed after the transport was
    /// established. Boxed to keep the error type small.
    InitError(Box<InitErrorKind>),
    /// The underlying channel reported a mid-session fault.
    ServiceError(ServiceErrorKind),
    /// A background task supporting the call failed unexpectedly.
    JoinError(String),
    /// A call did not complete within its bound.
    Timeout { operation: String, duration_ms: u64 },
    /// Typed decoding of a successful payload failed.
    ParseError { tool_name: String, cause: String },
    /// Failure to establish or configure a transport.
    Connection {
        message: String,
        transport_type: Option<TransportType>,
        endpoint: Option<String>,
    },
}

/// The fixed classification label for an initialization failure.
pub open spec fn init_kind_label(k: InitErrorKind) -> Seq<char> {
    match k {
        InitErrorKind::ConnectionClosed(_) => "connection closed during init"@,
        InitErrorKind::TransportError { .. } => "transport error during init"@,
        InitErrorKind::Cancelled => "init cancelled"@,
        InitErrorKind::ExpectedInitResponse => "unexpected init response"@,
        InitErrorKind::ExpectedInitResult => "unexpected init result"@,
        InitErrorKind::ConflictInitResponseId => "init response id conflict"@,
        InitErrorKind::Other(_) => "init error"@,
    }
}

/// The fixed classification label for a channel fault.
pub open spec fn service_kind_label(k: ServiceErrorKind) -> Seq<char> {
    match k {
        ServiceErrorKind::TransportClosed => "transport closed"@,
        ServiceErrorKind::TransportSend { .. } => "transport send failed"@,
        ServiceErrorKind::Cancelled => "service cancelled"@,
        ServiceErrorKind::Timeout => "service timeout"@,
        ServiceErrorKind::McpError { .. } => "mcp protocol error"@,
        ServiceErrorKind::UnexpectedResponse => "unexpected response"@,
        ServiceErrorKind::Other { .. } => "service error"@,
    }
}

/// The detailed description of an initialization failure.
pub open spec fn init_kind_context(k: InitErrorKind) -> Seq<char> {
    match k {
        InitErrorKind::ConnectionClosed(ctx) => "connection closed during: "@ + ctx@,
        InitErrorKind::TransportError { context, error } => "transport error during "@ + context@
            + ": "@ + error@,
        InitErrorKind::Cancelled => "initialization cancelled"@,
        InitErrorKind::ExpectedInitResponse => "unexpected initialization response"@,
        InitErrorKind::ExpectedInitResult => "unexpected initialization result"@,
        InitErrorKind::ConflictInitResponseId => "initialization response id conflict"@,
        InitErrorKind::Other(d) => d@,
    }
}

/// The message text of a channel fault.
pub open spec fn service_kind_message(k: ServiceErrorKind) -> Seq<char> {
    match k {
        ServiceErrorKind::McpError { message } => message@,
        ServiceErrorKind::TransportSend { message } => "transport send error: "@ + message@,
        ServiceErrorKind::TransportClosed => "transport closed"@,
        ServiceErrorKind::UnexpectedResponse => "unexpected response type"@,
        ServiceErrorKind::Cancelled => "task cancelled"@,
        ServiceErrorKind::Timeout => "request timeout"@,
        ServiceErrorKind::Other { message } => message@,
    }
}

impl ClientError {
    /// Whether this is an initialization error.
    pub open spec fn spec_is_init_error(&self) -> bool {
        self matches ClientError::InitError(_)
    }

    /// Whether this error means the transport or channel is dead, so that a
    /// reconnect is required.
    pub open spec fn spec_is_connection_broken(&self) -> bool {
        match *self {
            ClientError::InitError(k) => (*k matches InitErrorKind::ConnectionClosed(_)) || (
            *k matches InitErrorKind::TransportError { .. }),
            ClientError::ServiceError(s) => (s matches ServiceErrorKind::TransportClosed) || (
            s matches ServiceErrorKind::TransportSend { .. }),
            ClientError::Io(_) => true,
            _ => false,
        }
    }

    /// Whether this error signals a session or authentication failure, so
    /// that the caller should reconnect and retry. True exactly of a
    /// peer-reported protocol error whose lowercased message mentions a
    /// session or authentication concern.
    pub open spec fn spec_is_session_error(&self) -> bool {
        match *self {
            ClientError::ServiceError(
                ServiceErrorKind::McpError { message },
            ) => seq_contains(lower_of(message@), "session"@) || seq_contains(
                lower_of(message@),
                "unauthorized"@,
            ) || seq_contains(lower_of(message@), "401"@) || seq_contains(
                lower_of(message@),
                "authentication"@,
            ) || seq_contains(lower_of(message@), "auth"@),
            _ => false,
        }
    }

    /// The fixed human-readable label of this error's kind.
    pub open spec fn spec_error_kind(&self) -> Seq<char> {
        match *self {
            ClientError::InitError(k) => init_kind_label(*k),
            ClientError::ServiceError(s) => service_kind_label(s),
            ClientError::Timeout { .. } => "timeout"@,
            ClientError::Connection { .. } => "connection error"@,
            ClientError::Protocol(_) => "protocol error"@,
            ClientError::ParseError { .. } => "parse error"@,
            ClientError::Io(_) => "io error"@,
            ClientError::JoinError(_) => "task join error"@,
        }
    }

    /// The detailed context of an initialization error, if this is one.
    pub open spec fn spec_init_error_context(&self) -> Option<Seq<char>> {
        match *self {
            ClientError::InitError(k) => Some(init_kind_context(*k)),
            _ => None,
        }
    }

    /// The one-line human-readable rendering of this error.
    pub open spec fn spec_message(&self) -> Seq<char> {
        match *self {
            ClientError::Protocol(m) => "MCP protocol error: "@ + m@,
            ClientError::Io(m) => "IO error: "@ + m@,
            ClientError::InitError(k) => "Client initialization error: "@ + init_kind_context(*k),
            ClientError::ServiceError(s) => "Service error: "@ + service_kind_message(s),
            ClientError::JoinError(m) => "Task join error: "@ + m@,
            ClientError::Timeout { operation, duration_ms } => "Operation '"@ + operation@
                + "' timed out after "@ + dec_of(duration_ms as nat) + "ms"@,
            ClientError::ParseError { tool_name, cause } => "Failed to parse response from tool '"@
                + tool_name@ + "': "@ + cause@,
            ClientError::Connection { message, .. } => "Connection error: "@ + message@,
        }
    }

    /// Check if this is an initialization error.
    pub fn is_init_error(&self) -> (r: bool)
        ensures
            r == self.spec_is_init_error(),
    {
        matches!(self, ClientError::InitError(_))
    }

    /// Check if this error indicates a broken or closed connection.
    pub fn is_connection_broken(&self) -> (r: bool)
        ensures
            r == self.spec_is_connection_broken(),
    {
        match self {
            ClientError::InitError(init_err) => matches!(
                &**init_err,
                InitErrorKind::ConnectionClosed(_) | InitErrorKind::TransportError { .. }
            ),
            ClientError::ServiceError(service_err) => matches!(
                service_err,
                ServiceErrorKind::TransportClosed | ServiceErrorKind::TransportSend { .. }
            ),
            ClientError::Io(_) => true,
            _ => false,
        }
    }

    /// Get a human-readable error kind for logging.
    pub fn error_kind(&self) -> (r: &'static str)
        ensures
            r@ == self.spec_error_kind(),
    {
        match self {
            ClientError::InitError(init_err) => match &**init_err {
                InitErrorKind::ConnectionClosed(_) => "connection closed during init",
                InitErrorKind::TransportError { .. } => "transport error during init",
                InitErrorKind::Cancelled => "init cancelled",
                InitErrorKind::ExpectedInitResponse => "unexpected init response",
                InitErrorKind::ExpectedInitResult => "unexpected init result",
                InitErrorKind::ConflictInitResponseId => "init response id conflict",
                InitErrorKind::Other(_) => "init error",
            },
            ClientError::ServiceError(service_err) => match service_err {
                ServiceErrorKind::TransportClosed => "transport closed",
                ServiceErrorKind::TransportSend { .. } => "transport send failed",
                ServiceErrorKind::Cancelled => "service cancelled",
                ServiceErrorKind::Timeout => "service timeout",
                ServiceErrorKind::McpError { .. } => "mcp protocol error",
                ServiceErrorKind::UnexpectedResponse => "unexpected response",
                ServiceErrorKind::Other { .. } => "service error",
            },
            ClientError::Timeout { .. } => "timeout",
            ClientError::Connection { .. } => "connection error",
            ClientError::Protocol(_) => "protocol error",
            ClientError::ParseError { .. } => "parse error",
            ClientError::Io(_) => "io error",
            ClientError::JoinError(_) => "task join error",
        }
    }

    /// Get detailed context for initialization errors (for logging).
    pub fn init_error_context(&self) -> (r: Option<String>)
        ensures
            match self.spec_init_error_context() {
                Some(ctx) => r matches Some(m) && m@ == ctx,
                None => r is None,
            },
    {
        match self {
            ClientError::InitError(init_err) => match &**init_err {
                InitErrorKind::ConnectionClosed(ctx) => {
                    let mut m = String::from_str("connection closed during: ");
                    m.append(ctx.as_str());
                    Some(m)
                },
                InitErrorKind::TransportError { context, error } => {
                    let mut m = String::from_str("transport error during ");
                    m.append(context.as_str());
                    m.append(": ");
                    m.append(error.as_str());
                    Some(m)
                },
                InitErrorKind::Cancelled => Some(String::from_str("initialization cancelled")),
                InitErrorKind::ExpectedInitResponse => Some(
                    String::from_str("unexpected initialization response"),
                ),
                InitErrorKind::ExpectedInitResult => Some(
                    String::from_str("unexpected initialization result"),
                ),
                InitErrorKind::ConflictInitResponseId => Some(
                    String::from_str("initialization response id conflict"),
                ),
                InitErrorKind::Other(d) => Some(d.clone()),
            },
            _ => None,
        }
    }

    /// Check if this error indicates a session/authentication failure.
    ///
    /// Returns true if the error is a peer-reported protocol error with
    /// session-related content: an expired session, a missing or invalid
    /// session id, or failed authentication. When this returns true, the
    /// caller should attempt to reconnect and retry.
    pub fn is_session_error(&self) -> (r: bool)
        ensures
            r == self.spec_is_session_error(),
    {
        match self {
            ClientError::ServiceError(ServiceErrorKind::McpError { message }) => {
                let msg = lowercase(message.as_str());
                str_contains(msg.as_str(), "session") || str_contains(msg.as_str(), "unauthorized")
                    || str_contains(msg.as_str(), "401") || str_contains(
                    msg.as_str(),
                    "authentication",
                ) || str_contains(msg.as_str(), "auth")
            },
            _ => false,
        }
    }

    /// Render the one-line human-readable message for this error.
    pub fn message(&self) -> (r: String)
        ensures
            r@ == self.spec_message(),
    {
        match self {
            ClientError::Protocol(m) => {
                let mut s = String::from_str("MCP protocol error: ");
                s.append(m.as_str());
                s
            },
            ClientError::Io(m) => {
                let mut s = String::from_str("IO error: ");
                s.append(m.as_str());
                s
            },
            ClientError::InitError(k) => {
                let mut s = String::from_str("Client initialization error: ");
                s.append(describe_init_kind(k).as_str());
                s
            },
            ClientError::ServiceError(sk) => {
                let mut s = String::from_str("Service error: ");
                s.append(describe_service_kind(sk).as_str());
                s
            },
            ClientError::JoinError(m) => {
                let mut s = String::from_str("Task join error: ");
                s.append(m.as_str());
                s
            },
            ClientError::Timeout { operation, duration_ms } => {
                let mut s = String::from_str("Operation '");
                s.append(operation.as_str());
                s.append("' timed out after ");
                s.append(u64_to_dec(*duration_ms).as_str());
                s.append("ms");
                s
            },
            ClientError::ParseError { tool_name, cause } => {
                let mut s = String::from_str("Failed to parse response from tool '");
                s.append(tool_name.as_str());
                s.append("': ");
                s.append(cause.as_str());
                s
            },
            ClientError::Connection { message, .. } => {
                let mut s = String::from_str("Connection error: ");
                s.append(message.as_str());
                s
            },
        }
    }
}

/// Render the detailed description of an initialization failure.
fn describe_init_kind(k: &InitErrorKind) -> (r: String)
    ensures
        r@ == init_kind_context(*k),
{
    match k {
        InitErrorKind::ConnectionClosed(ctx) => {
            let mut m = String::from_str("connection closed during: ");
            m.append(ctx.as_str());
            m
        },
        InitErrorKind::TransportError { context, error } => {
            let mut m = String::from_str("transport error during ");
            m.append(context.as_str());
            m.append(": ");
            m.append(error.as_str());
            m
        },
        InitErrorKind::Cancelled => String::from_str("initialization cancelled"),
        InitErrorKind::ExpectedInitResponse => String::from_str(
            "unexpected initialization response",
        ),
        InitErrorKind::ExpectedInitResult => String::from_str("unexpected initialization result"),
        InitErrorKind::ConflictInitResponseId => String::from_str(
            "initialization response id conflict",
        ),
        InitErrorKind::Other(d) => d.clone(),
    }
}

/// Render the message text of a channel fault.
fn describe_service_kind(k: &ServiceErrorKind) -> (r: String)
    ensures
        r@ == service_kind_message(*k),
{
    match k {
        ServiceErrorKind::McpError { message } => message.clone(),
        ServiceErrorKind::TransportSend { message } => {
            let mut m = String::from_str("transport send error: ");
            m.append(message.as_str());
            m
        },
        ServiceErrorKind::TransportClosed => String::from_str("transport closed"),
        ServiceErrorKind::UnexpectedResponse => String::from_str("unexpected response type"),
        ServiceErrorKind::Cancelled => String::from_str("task cancelled"),
        ServiceErrorKind::Timeout => String::from_str("request timeout"),
        ServiceErrorKind::Other { message } => message.clone(),
    }
}

} // verus!
