//! Client-side runtime for a request/response tool protocol carried over a
//! spawned subprocess (stdio) or an HTTP stream.
//!
//! The verified core covers the call-execution layer: the error taxonomy and
//! its classification helpers, the typed-decoding-with-validation framework
//! that turns raw payloads into checked records, the stdio builder's command
//! validation, the call handle's timeout semantics, and the process teardown
//! state machine. The asynchronous transport plumbing lives outside this
//! library and hands it plain values: the handle here carries the per-call
//! timeout and performs every decision that does not itself await I/O.

pub mod error;
pub mod headers;
pub mod json;
pub mod responses;
pub mod stdio;
pub mod teardown;
pub mod text;
pub mod tools;
pub mod validation;

pub use error::{ClientError, InitErrorKind, ServiceErrorKind, TransportType};
pub use json::{parse_json, Json, JsonNum, JsonValue};
pub use stdio::{SpawnPlan, StdioClientBuilder};

use vstd::prelude::*;
use vstd::string::*;

use crate::json::{fields_deep, json_of};
use crate::text::dec_of;
use crate::validation::JsonDecode;

verus! {

/// Default timeout for operations issued through a fresh handle, in
/// milliseconds (30 seconds).
pub const DEFAULT_TIMEOUT_MS: u64 = 30_000;

/// One item of a call result's content, as verified code sees it. The typed
/// call path uses only the textual variant; the others are named so an error
/// can report what was actually returned.
#[derive(Debug)]
pub enum ToolContent {
    /// A textual content item carrying the payload text.
    Text(String),
    /// An image content item.
    Image,
    /// An embedded resource content item.
    Resource,
    /// An audio content item.
    Audio,
    /// A resource link content item.
    ResourceLink,
}

impl ToolContent {
    /// The name of this content item's kind, as error messages render it.
    pub open spec fn kind_label(self) -> Seq<char> {
        match self {
            ToolContent::Text(_) => "text"@,
            ToolContent::Image => "image"@,
            ToolContent::Resource => "resource"@,
            ToolContent::Audio => "audio"@,
            ToolContent::ResourceLink => "resource_link"@,
        }
    }
}

/// The text of the first textual content item, if any.
pub open spec fn first_text(s: Seq<ToolContent>) -> Option<Seq<char>>
    decreases s.len(),
{
    if s.len() == 0 {
        None
    } else {
        match s[0] {
            ToolContent::Text(t) => Some(t@),
            _ => first_text(s.drop_first()),
        }
    }
}

/// The kind names of all content items, joined with a comma and a space.
pub open spec fn kinds_joined(s: Seq<ToolContent>) -> Seq<char>
    decreases s.len(),
{
    if s.len() == 0 {
        Seq::empty()
    } else if s.len() == 1 {
        s[0].kind_label()
    } else {
        kinds_joined(s.drop_last()) + ", "@ + s.last().kind_label()
    }
}

/// The message reported when a call result holds no textual content.
pub open spec fn no_text_message(tool: Seq<char>, s: Seq<ToolContent>) -> Seq<char> {
    if s.len() == 0 {
        "Tool '"@ + tool + "' returned empty content array"@
    } else {
        "Tool '"@ + tool + "' returned "@ + dec_of(s.len()) + " content item(s) but none were text: ["@
            + kinds_joined(s) + "]"@
    }
}

proof fn lemma_first_text_skip(s: Seq<ToolContent>, i: int)
    requires
        0 <= i <= s.len(),
        forall|j: int| 0 <= j < i ==> !((#[trigger] s[j]) matches ToolContent::Text(_)),
    ensures
        first_text(s) == first_text(s.skip(i)),
    decreases i,
{
    if i > 0 {
        assert(s.skip(1) =~= s.drop_first());
        assert(forall|j: int|
            0 <= j < i - 1 ==> #[trigger] s.drop_first()[j] == s[j + 1]);
        lemma_first_text_skip(s.drop_first(), i - 1);
        assert(s.drop_first().skip(i - 1) =~= s.skip(i));
    } else {
        assert(s.skip(0) =~= s);
    }
}

fn kind_name(c: &ToolContent) -> (r: &'static str)
    ensures
        r@ == c.kind_label(),
{
    match c {
        ToolContent::Text(_) => "text",
        ToolContent::Image => "image",
        ToolContent::Resource => "resource",
        ToolContent::Audio => "audio",
        ToolContent::ResourceLink => "resource_link",
    }
}

/// Build the error message naming the content kinds that were returned
/// instead of text.
fn build_no_text_message(tool_name: &str, content: &Vec<ToolContent>) -> (r: String)
    ensures
        r@ == no_text_message(tool_name@, content@),
{
    if content.len() == 0 {
        let mut m = String::from_str("Tool '");
        m.append(tool_name);
        m.append("' returned empty content array");
        m
    } else {
        let mut joined = String::new();
        let mut i: usize = 0;
        while i < content.len()
            invariant
                i <= content.len(),
                joined@ == kinds_joined(content@.take(i as int)),
            decreases content.len() - i,
        {
            if i > 0 {
                joined.append(", ");
            }
            joined.append(kind_name(&content[i]));
            proof {
                assert(content@.take(i + 1).drop_last() =~= content@.take(i as int));
                assert(content@.take(i + 1).last() == content@[i as int]);
            }
            i = i + 1;
        }
        proof {
            assert(content@.take(content@.len() as int) =~= content@);
        }
        let mut m = String::from_str("Tool '");
        m.append(tool_name);
        m.append("' returned ");
        m.append(crate::text::usize_to_dec(content.len()).as_str());
        m.append(" content item(s) but none were text: [");
        m.append(joined.as_str());
        m.append("]");
        m
    }
}

/// Locate the first textual content item of a call result.
///
/// Fails with a `Protocol` error naming the content kinds found, or naming
/// the empty content array if there were none.
pub fn extract_text(tool_name: &str, content: &Vec<ToolContent>) -> (r: Result<
    String,
    ClientError,
>)
    ensures
        match first_text(content@) {
            Some(t) => r matches Ok(s) && s@ == t,
            None => r matches Err(e) && e matches ClientError::Protocol(m) && m@
                == no_text_message(tool_name@, content@),
        },
{
    let mut i: usize = 0;
    while i < content.len()
        invariant
            i <= content.len(),
            forall|j: int| 0 <= j < i ==> !((#[trigger] content@[j]) matches ToolContent::Text(_)),
        decreases content.len() - i,
    {
        match &content[i] {
            ToolContent::Text(t) => {
                proof {
                    lemma_first_text_skip(content@, i as int);
                    assert(content@.skip(i as int)[0] == content@[i as int]);
                }
                return Ok(t.clone());
            },
            _ => {},
        }
        i = i + 1;
    }
    proof {
        lemma_first_text_skip(content@, content@.len() as int);
        assert(content@.skip(content@.len() as int).len() == 0);
    }
    Err(ClientError::Protocol(build_no_text_message(tool_name, content)))
}

/// The human-readable name of a payload value's shape, for error messages.
pub open spec fn spec_json_type_name(j: Json) -> Seq<char> {
    match j {
        Json::Null => "null"@,
        Json::Bool(_) => "boolean"@,
        Json::Num(_) => "number"@,
        Json::Str(_) => "string"@,
        Json::Arr(_) => "array"@,
        Json::Obj(_) => "object"@,
    }
}

/// Get the human-readable name of a payload value's shape.
pub fn json_type_name(value: &JsonValue) -> (r: &'static str)
    ensures
        r@ == spec_json_type_name(value.deep()),
{
    match value {
        JsonValue::Null => "null",
        JsonValue::Bool(_) => "boolean",
        JsonValue::Num(_) => "number",
        JsonValue::Str(_) => "string",
        JsonValue::Arr(_) => "array",
        JsonValue::Obj(_) => "object",
    }
}

/// Check the shape of call arguments before any network round-trip.
///
/// A structured key/value payload passes through as its fields, an absent
/// (null) payload passes through as `None`, and any other shape fails
/// immediately with a `Protocol` error naming the shape.
pub fn prepare_arguments(arguments: JsonValue) -> (r: Result<
    Option<Vec<(String, JsonValue)>>,
    ClientError,
>)
    ensures
        arguments.deep() matches Json::Obj(fs) ==> (r matches Ok(o) && o matches Some(m)
            && fields_deep(m@) == fs),
        arguments.deep() is Null ==> (r matches Ok(o) && o is None),
        !(arguments.deep() matches Json::Obj(_)) && !(arguments.deep() is Null) ==> (
        r matches Err(e) && e matches ClientError::Protocol(m) && m@
            == "Tool arguments must be a JSON object or null, got "@ + spec_json_type_name(
            arguments.deep(),
        )),
{
    match arguments {
        JsonValue::Obj(map) => {
            proof {
                crate::json::lemma_obj_deep(map);
            }
            Ok(Some(map))
        },
        JsonValue::Null => Ok(None),
        other => {
            let mut m = String::from_str("Tool arguments must be a JSON object or null, got ");
            m.append(json_type_name(&other));
            Err(ClientError::Protocol(m))
        },
    }
}

/// Decode the payload of a successful call into a typed, validated record.
///
/// This is the computation behind a typed call: locate the first textual
/// content item, parse its text, and decode the parsed tree into the
/// requested shape. Decode failures yield a `ParseError` naming the tool.
pub fn decode_tool_result<T: JsonDecode>(tool_name: &str, content: &Vec<ToolContent>) -> (r:
    Result<T, ClientError>)
    ensures
        first_text(content@) matches Some(t) ==> (match json_of(t) {
            Some(j) => {
                if T::decodable(j) {
                    r matches Ok(rec) && T::decoded(j, rec)
                } else {
                    r matches Err(e) && e matches ClientError::ParseError { tool_name: tn, .. }
                        && tn@ == tool_name@
                }
            },
            None => r matches Err(e) && e matches ClientError::ParseError { tool_name: tn, .. }
                && tn@ == tool_name@,
        }),
        first_text(content@) is None ==> (r matches Err(e) && e matches ClientError::Protocol(m)
            && m@ == no_text_message(tool_name@, content@)),
{
    let text = match extract_text(tool_name, content) {
        Ok(t) => t,
        Err(e) => {
            return Err(e);
        },
    };
    match parse_json(text.as_str()) {
        Ok(v) => match T::decode_json(&v) {
            Ok(rec) => Ok(rec),
            Err(cause) => Err(
                ClientError::ParseError { tool_name: String::from_str(tool_name), cause },
            ),
        },
        Err(cause) => Err(
            ClientError::ParseError { tool_name: String::from_str(tool_name), cause },
        ),
    }
}

/// Cheap-to-copy client handle for issuing calls.
///
/// Every handle carries its own timeout value: configuring a handle returns
/// a new one rather than mutating shared state, so concurrently held copies
/// never affect each other. The channel itself is owned by the connection
/// that minted the handle; this type carries everything a call decision
/// needs that is not itself I/O.
#[derive(Debug, Clone, Copy)]
pub struct KodegenClient {
    default_timeout_ms: u64,
}

impl KodegenClient {
    /// The timeout this handle applies to each call, in milliseconds.
    pub closed spec fn spec_timeout_ms(&self) -> u64 {
        self.default_timeout_ms
    }

    /// Mint a handle with the process-wide default timeout.
    pub fn new() -> (r: Self)
        ensures
            r.spec_timeout_ms() == DEFAULT_TIMEOUT_MS,
    {
        KodegenClient { default_timeout_ms: DEFAULT_TIMEOUT_MS }
    }

    /// Mint a handle with the given timeout.
    pub fn with_timeout_ms(timeout_ms: u64) -> (r: Self)
        ensures
            r.spec_timeout_ms() == timeout_ms,
    {
        KodegenClient { default_timeout_ms: timeout_ms }
    }

    /// Configure a custom timeout for all operations through the returned
    /// handle. The receiver is consumed; handles previously copied from it
    /// keep their own timeout.
    #[must_use]
    pub fn with_timeout(self, duration_ms: u64) -> (r: Self)
        ensures
            r.spec_timeout_ms() == duration_ms,
    {
        KodegenClient { default_timeout_ms: duration_ms }
    }

    /// The timeout this handle applies to each call, in milliseconds.
    pub fn timeout_ms(&self) -> (r: u64)
        ensures
            r == self.spec_timeout_ms(),
    {
        self.default_timeout_ms
    }

    /// The error a call through this handle resolves to when its timer
    /// expires: a `Timeout` carrying the operation's name and exactly this
    /// handle's timeout.
    pub fn timeout_error(&self, operation: &str) -> (r: ClientError)
        ensures
            r matches ClientError::Timeout { operation: op, duration_ms } && op@ == operation@
                && duration_ms == self.spec_timeout_ms(),
    {
        ClientError::Timeout {
            operation: String::from_str(operation),
            duration_ms: self.default_timeout_ms,
        }
    }
}

} // verus!
