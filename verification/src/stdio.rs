//! Builder for stdio-backed sessions.
//!
//! The builder collects a child process configuration — command, arguments,
//! environment handling, working directory, timeout and client identity —
//! and validates it before anything is spawned: an empty or whitespace-only
//! command, a command with embedded spaces, and a command that does not
//! resolve on the search path are each rejected with a `Connection` error.
//! What survives validation is a [`SpawnPlan`], plain values that the
//! spawning side turns into a real child process and handshake.

use vstd::prelude::*;
use vstd::string::*;

use crate::error::{ClientError, TransportType};
use crate::text::{is_blank, is_ws_only};

verus! {

/// Default timeout for operations on a stdio-backed session, in
/// milliseconds (12 seconds): the worst observed tool latency plus margin.
pub const DEFAULT_STDIO_TIMEOUT_MS: u64 = 12_000;

/// The client identity reported to the peer when none is configured.
pub const DEFAULT_CLIENT_NAME: &'static str = "kodegen-stdio-client";

/// Whether `s` holds a space character.
pub open spec fn has_space(s: Seq<char>) -> bool {
    exists|i: int| 0 <= i < s.len() && #[trigger] s[i] == ' '
}

/// Whether `s` holds a space character.
fn contains_space(s: &str) -> (r: bool)
    ensures
        r == has_space(s@),
{
    let len = s.unicode_len();
    let mut i: usize = 0;
    while i < len
        invariant
            i <= len,
            len == s@.len(),
            forall|j: int| 0 <= j < i ==> #[trigger] s@[j] != ' ',
        decreases len - i,
    {
        if s.get_char(i) == ' ' {
            return true;
        }
        i = i + 1;
    }
    false
}

/// The view of a sequence of strings.
pub open spec fn string_seq_views(s: Seq<String>) -> Seq<Seq<char>> {
    Seq::new(s.len(), |i: int| s[i]@)
}

/// The view of a sequence of key/value pairs.
pub open spec fn pair_seq_views(s: Seq<(String, String)>) -> Seq<(Seq<char>, Seq<char>)> {
    Seq::new(s.len(), |i: int| (s[i].0@, s[i].1@))
}

/// The view of an optional string.
pub open spec fn opt_view(o: Option<String>) -> Option<Seq<char>> {
    match o {
        Some(s) => Some(s@),
        None => None,
    }
}

/// The abstract state of a builder: every configured value, as sequences.
#[verifier::ext_equal]
pub struct BuilderView {
    pub command: Seq<char>,
    pub args: Seq<Seq<char>>,
    pub envs: Seq<(Seq<char>, Seq<char>)>,
    pub clear_env: bool,
    pub env_removes: Seq<Seq<char>>,
    pub current_dir: Option<Seq<char>>,
    pub timeout_ms: u64,
    pub client_name: Option<Seq<char>>,
}

/// Builder for creating stdio-backed sessions.
///
/// Configures child process execution: command and arguments, environment
/// variables, working directory, operation timeout and client
/// identification. Every configuration method consumes the builder and
/// returns the updated one.
#[derive(Debug, Clone)]
pub struct StdioClientBuilder {
    command: String,
    args: Vec<String>,
    envs: Vec<(String, String)>,
    clear_env: bool,
    env_removes: Vec<String>,
    current_dir: Option<String>,
    timeout_ms: u64,
    client_name: Option<String>,
}

impl View for StdioClientBuilder {
    type V = BuilderView;

    closed spec fn view(&self) -> BuilderView {
        BuilderView {
            command: self.command@,
            args: string_seq_views(self.args@),
            envs: pair_seq_views(self.envs@),
            clear_env: self.clear_env,
            env_removes: string_seq_views(self.env_removes@),
            current_dir: opt_view(self.current_dir),
            timeout_ms: self.timeout_ms,
            client_name: opt_view(self.client_name),
        }
    }
}

/// A validated child process configuration, ready to spawn: the command
/// resolved on the search path, and every configured value as plain data.
#[derive(Debug, Clone)]
pub struct SpawnPlan {
    /// The command as configured.
    pub command: String,
    /// Where the search path resolved the command.
    pub resolved_program: String,
    /// Ordered arguments for the child.
    pub args: Vec<String>,
    /// Environment overlay, applied in order; later entries win.
    pub envs: Vec<(String, String)>,
    /// Whether the child starts from an empty environment.
    pub clear_env: bool,
    /// Names stripped from an otherwise-inherited environment.
    pub env_removes: Vec<String>,
    /// Working directory for the child, if configured.
    pub current_dir: Option<String>,
    /// Per-call timeout for the session's handles, in milliseconds.
    pub timeout_ms: u64,
    /// The client identity to report during the handshake.
    pub client_name: String,
}

/// Relies on `which::which`: resolves a command name on the search path.
/// What it finds depends on the machine and its environment, so nothing is
/// promised of the outcome.
#[verifier::external_body]
fn resolve_on_path(command: &str) -> Result<String, String> {
    match which::which(command) {
        Ok(p) => Ok(p.to_string_lossy().into_owned()),
        Err(e) => Err(e.to_string()),
    }
}

/// The message rejecting a command with embedded spaces.
pub open spec fn space_message(cmd: Seq<char>) -> Seq<char> {
    "Command '"@ + cmd
        + "' contains spaces. Arguments should be passed via .arg() method, not in the command string.\nExample: StdioClientBuilder::new(\"node\").arg(\"server.js\")"@
}

/// The message rejecting a command the search path does not resolve.
pub open spec fn not_found_message(cmd: Seq<char>, cause: Seq<char>) -> Seq<char> {
    "Command '"@ + cmd + "' not found in PATH: "@ + cause
        + "\nPlease ensure the command is installed and available in your system PATH."@
}

impl StdioClientBuilder {
    /// Create a new builder for a stdio-backed session running `command`.
    pub fn new(command: &str) -> (r: Self)
        ensures
            r@.command == command@,
            r@.args.len() == 0,
            r@.envs.len() == 0,
            !r@.clear_env,
            r@.env_removes.len() == 0,
            r@.current_dir is None,
            r@.timeout_ms == DEFAULT_STDIO_TIMEOUT_MS,
            r@.client_name is None,
    {
        StdioClientBuilder {
            command: String::from_str(command),
            args: Vec::new(),
            envs: Vec::new(),
            clear_env: false,
            env_removes: Vec::new(),
            current_dir: None,
            timeout_ms: DEFAULT_STDIO_TIMEOUT_MS,
            client_name: None,
        }
    }

    /// Add a single argument to the command.
    #[must_use]
    pub fn arg(self, arg: &str) -> (r: Self)
        ensures
            r@ =~= (BuilderView { args: self@.args.push(arg@), ..self@ }),
    {
        let ghost orig = self@;
        let mut this = self;
        this.args.push(String::from_str(arg));
        proof {
            assert(string_seq_views(this.args@) =~= orig.args.push(arg@));
        }
        this
    }

    /// Add multiple arguments to the command.
    #[must_use]
    pub fn args(self, more: Vec<String>) -> (r: Self)
        ensures
            r@ =~= (BuilderView { args: self@.args + string_seq_views(more@), ..self@ }),
    {
        let ghost orig = self@;
        let ghost more_view = string_seq_views(more@);
        let ghost base = self.args@.len();
        let mut this = self;
        let mut i: usize = 0;
        while i < more.len()
            invariant
                i <= more.len(),
                more_view == string_seq_views(more@),
                this.command@ == orig.command,
                pair_seq_views(this.envs@) == orig.envs,
                this.clear_env == orig.clear_env,
                string_seq_views(this.env_removes@) == orig.env_removes,
                opt_view(this.current_dir) == orig.current_dir,
                this.timeout_ms == orig.timeout_ms,
                opt_view(this.client_name) == orig.client_name,
                base == orig.args.len(),
                this.args@.len() == base + i,
                forall|j: int| 0 <= j < base ==> #[trigger] this.args@[j]@ == orig.args[j],
                forall|j: int| 0 <= j < i ==> #[trigger] this.args@[base + j]@ == more_view[j],
            decreases more.len() - i,
        {
            this.args.push(more[i].clone());
            proof {
                assert(this.args@[base + i as int]@ == more@[i as int]@);
                assert(more_view[i as int] == more@[i as int]@);
            }
            i = i + 1;
        }
        proof {
            assert forall|j: int|
                0 <= j < this.args@.len() implies string_seq_views(this.args@)[j] == (orig.args
                + more_view)[j] by {
                if j < base {
                    assert(this.args@[j]@ == orig.args[j]);
                } else {
                    assert(this.args@[base + (j - base)]@ == more_view[j - base]);
                }
            }
            assert(string_seq_views(this.args@) =~= orig.args + more_view);
            assert(this@ =~= (BuilderView { args: orig.args + more_view, ..orig }));
        }
        this
    }

    /// Add a single environment variable for the child process.
    ///
    /// By default the child inherits the parent's environment and this
    /// entry is laid over it; use [`Self::env_clear`] for a child that sees
    /// only what is configured here, or [`Self::env_remove`] to strip
    /// single inherited names.
    #[must_use]
    pub fn env(self, key: &str, value: &str) -> (r: Self)
        ensures
            r@ =~= (BuilderView { envs: self@.envs.push((key@, value@)), ..self@ }),
    {
        let ghost orig = self@;
        let mut this = self;
        this.envs.push((String::from_str(key), String::from_str(value)));
        proof {
            assert(pair_seq_views(this.envs@) =~= orig.envs.push((key@, value@)));
        }
        this
    }

    /// Lay multiple environment variables over the child's environment.
    #[must_use]
    pub fn envs(self, vars: Vec<(String, String)>) -> (r: Self)
        ensures
            r@ =~= (BuilderView { envs: self@.envs + pair_seq_views(vars@), ..self@ }),
    {
        let ghost orig = self@;
        let ghost vars_view = pair_seq_views(vars@);
        let ghost base = self.envs@.len();
        let mut this = self;
        let mut i: usize = 0;
        while i < vars.len()
            invariant
                i <= vars.len(),
                vars_view == pair_seq_views(vars@),
                this.command@ == orig.command,
                string_seq_views(this.args@) == orig.args,
                this.clear_env == orig.clear_env,
                string_seq_views(this.env_removes@) == orig.env_removes,
                opt_view(this.current_dir) == orig.current_dir,
                this.timeout_ms == orig.timeout_ms,
                opt_view(this.client_name) == orig.client_name,
                base == orig.envs.len(),
                this.envs@.len() == base + i,
                forall|j: int|
                    0 <= j < base ==> (#[trigger] this.envs@[j]).0@ == orig.envs[j].0
                        && this.envs@[j].1@ == orig.envs[j].1,
                forall|j: int|
                    0 <= j < i ==> (#[trigger] this.envs@[base + j]).0@ == vars_view[j].0
                        && this.envs@[base + j].1@ == vars_view[j].1,
            decreases vars.len() - i,
        {
            let key = vars[i].0.clone();
            let value = vars[i].1.clone();
            this.envs.push((key, value));
            proof {
                assert(this.envs@[base + i as int].0@ == vars@[i as int].0@);
                assert(this.envs@[base + i as int].1@ == vars@[i as int].1@);
                assert(vars_view[i as int] == (vars@[i as int].0@, vars@[i as int].1@));
            }
            i = i + 1;
        }
        proof {
            assert forall|j: int|
                0 <= j < this.envs@.len() implies pair_seq_views(this.envs@)[j] == (orig.envs
                + vars_view)[j] by {
                if j < base {
                    assert(this.envs@[j].0@ == orig.envs[j].0);
                } else {
                    assert(this.envs@[base + (j - base)].0@ == vars_view[j - base].0);
                    assert(this.envs@[base + (j - base)].1@ == vars_view[j - base].1);
                }
            }
            assert(pair_seq_views(this.envs@) =~= orig.envs + vars_view);
            assert(this@ =~= (BuilderView { envs: orig.envs + vars_view, ..orig }));
        }
        this
    }

    /// Clear all inherited environment variables: the child will see only
    /// the variables configured through [`Self::env`] and [`Self::envs`].
    #[must_use]
    pub fn env_clear(self) -> (r: Self)
        ensures
            r@ =~= (BuilderView { clear_env: true, ..self@ }),
    {
        let mut this = self;
        this.clear_env = true;
        this
    }

    /// Prevent one named variable from being inherited from the parent,
    /// while the rest of the environment is inherited as usual.
    #[must_use]
    pub fn env_remove(self, key: &str) -> (r: Self)
        ensures
            r@ =~= (BuilderView { env_removes: self@.env_removes.push(key@), ..self@ }),
    {
        let ghost orig = self@;
        let mut this = self;
        this.env_removes.push(String::from_str(key));
        proof {
            assert(string_seq_views(this.env_removes@) =~= orig.env_removes.push(key@));
        }
        this
    }

    /// Set the working directory for the child process.
    #[must_use]
    pub fn current_dir(self, dir: &str) -> (r: Self)
        ensures
            r@ =~= (BuilderView { current_dir: Some(dir@), ..self@ }),
    {
        let mut this = self;
        this.current_dir = Some(String::from_str(dir));
        this
    }

    /// Set a custom timeout, in milliseconds, for operations on the
    /// session's handles.
    #[must_use]
    pub fn timeout(self, timeout_ms: u64) -> (r: Self)
        ensures
            r@ =~= (BuilderView { timeout_ms, ..self@ }),
    {
        let mut this = self;
        this.timeout_ms = timeout_ms;
        this
    }

    /// Set a custom client name for identification during the handshake.
    #[must_use]
    pub fn client_name(self, name: &str) -> (r: Self)
        ensures
            r@ =~= (BuilderView { client_name: Some(name@), ..self@ }),
    {
        let mut this = self;
        this.client_name = Some(String::from_str(name));
        this
    }

    /// Validate the configuration and resolve the command, producing a
    /// plan that the spawning side can run.
    ///
    /// Nothing is spawned here. Each rejection is a `Connection` error:
    /// an empty or whitespace-only command, a command with embedded spaces
    /// (arguments belong in the argument list), and a command that the
    /// search path does not resolve.
    pub fn prepare(self) -> (r: Result<SpawnPlan, ClientError>)
        ensures
            is_ws_only(self@.command) ==> match r {
                Err(e) => match e {
                    ClientError::Connection { message, transport_type, endpoint } => message@
                        == "Command cannot be empty or whitespace-only"@ && transport_type == Some(
                        TransportType::Stdio,
                    ) && endpoint is None,
                    _ => false,
                },
                Ok(_) => false,
            },
            !is_ws_only(self@.command) && has_space(self@.command) ==> match r {
                Err(e) => match e {
                    ClientError::Connection { message, transport_type, endpoint } => message@
                        == space_message(self@.command) && transport_type == Some(
                        TransportType::Stdio,
                    ) && (match endpoint {
                        Some(ep) => ep@ == self@.command,
                        None => false,
                    }),
                    _ => false,
                },
                Ok(_) => false,
            },
            !is_ws_only(self@.command) && !has_space(self@.command) ==> match r {
                Ok(plan) => {
                    &&& plan.command@ == self@.command
                    &&& string_seq_views(plan.args@) == self@.args
                    &&& pair_seq_views(plan.envs@) == self@.envs
                    &&& plan.clear_env == self@.clear_env
                    &&& string_seq_views(plan.env_removes@) == self@.env_removes
                    &&& opt_view(plan.current_dir) == self@.current_dir
                    &&& plan.timeout_ms == self@.timeout_ms
                    &&& plan.client_name@ == (match self@.client_name {
                        Some(n) => n,
                        None => DEFAULT_CLIENT_NAME@,
                    })
                },
                Err(e) => match e {
                    ClientError::Connection { message, transport_type, endpoint } => transport_type
                        == Some(TransportType::Stdio) && (match endpoint {
                        Some(ep) => ep@ == self@.command,
                        None => false,
                    }) && (exists|cause: Seq<char>|
                        message@ == not_found_message(self@.command, cause)),
                    _ => false,
                },
            },
    {
        if is_blank(self.command.as_str()) {
            return Err(
                ClientError::Connection {
                    message: String::from_str("Command cannot be empty or whitespace-only"),
                    transport_type: Some(TransportType::Stdio),
                    endpoint: None,
                },
            );
        }
        if contains_space(self.command.as_str()) {
            let mut m = String::from_str("Command '");
            m.append(self.command.as_str());
            m.append(
                "' contains spaces. Arguments should be passed via .arg() method, not in the command string.\nExample: StdioClientBuilder::new(\"node\").arg(\"server.js\")",
            );
            return Err(
                ClientError::Connection {
                    message: m,
                    transport_type: Some(TransportType::Stdio),
                    endpoint: Some(self.command),
                },
            );
        }
        match resolve_on_path(self.command.as_str()) {
            Ok(resolved_program) => {
                let client_name = match self.client_name {
                    Some(n) => n,
                    None => String::from_str(DEFAULT_CLIENT_NAME),
                };
                Ok(
                    SpawnPlan {
                        command: self.command,
                        resolved_program,
                        args: self.args,
                        envs: self.envs,
                        clear_env: self.clear_env,
                        env_removes: self.env_removes,
                        current_dir: self.current_dir,
                        timeout_ms: self.timeout_ms,
                        client_name,
                    },
                )
            },
            Err(cause) => {
                let mut m = String::from_str("Command '");
                m.append(self.command.as_str());
                m.append("' not found in PATH: ");
                m.append(cause.as_str());
                m.append(
                    "\nPlease ensure the command is installed and available in your system PATH.",
                );
                proof {
                    assert(m@ == not_found_message(self.command@, cause@));
                }
                Err(
                    ClientError::Connection {
                        message: m,
                        transport_type: Some(TransportType::Stdio),
                        endpoint: Some(self.command),
                    },
                )
            },
        }
    }
}

} // verus!
