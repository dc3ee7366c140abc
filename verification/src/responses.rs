//! Typed response structures for tool calls.
//!
//! Strongly-typed shapes for parsing tool call results. Decoding through
//! [`JsonDecode`](crate::validation::JsonDecode) is all-or-nothing: a record
//! only exists in fully validated form, and shapes with cross-field
//! invariants additionally implement
//! [`Validate`](crate::validation::Validate).

use vstd::prelude::*;
use vstd::string::*;

use crate::json::{fields_deep, get_field, lookup_field, items_deep, Json, JsonValue};
use crate::validation::{
    all_non_empty_strings, all_strings, decode_strings, decode_u32, decode_vec,
    deserialize_non_empty_string, deserialize_positive_i64, deserialize_positive_u64,
    deserialize_vec_non_empty_strings, get_bool, get_opt_bool, get_opt_string, get_opt_u64,
    get_string, get_u64, get_usize, opt_bool_matches, opt_bool_ok, opt_string_matches,
    opt_string_ok, opt_u64_matches, opt_u64_ok, req_bool_of, req_string_of, req_u64_of,
    req_usize_of, spec_non_empty_string, vec_decodable, vec_decoded, spec_positive_i64, spec_positive_u64, spec_u32,
    string_views, view_opt_string, JsonDecode, Validate,
};

verus! {

/// Response from starting a web crawl session.
#[derive(Debug)]
pub struct StartCrawlResponse {
    /// The crawl ID for this crawl session.
    pub crawl_id: String,
}

impl JsonDecode for StartCrawlResponse {
    open spec fn decodable(j: Json) -> bool {
        j matches Json::Obj(fs) && lookup_field(fs, "crawl_id"@) matches Some(fj)
            && spec_non_empty_string(fj) is Some
    }

    open spec fn decoded(j: Json, r: Self) -> bool {
        j matches Json::Obj(fs) && lookup_field(fs, "crawl_id"@) matches Some(fj)
            && spec_non_empty_string(fj) == Some(r.crawl_id@)
    }

    fn decode_json(v: &JsonValue) -> (r: Result<Self, String>) {
        match v {
            JsonValue::Obj(fields) => {
                proof {
                    crate::json::lemma_obj_deep(*fields);
                }
                match get_field(fields, "crawl_id") {
                    Some(fv) => match deserialize_non_empty_string(fv) {
                        Ok(s) => Ok(StartCrawlResponse { crawl_id: s }),
                        Err(e) => Err(e),
                    },
                    None => Err(String::from_str("missing field crawl_id")),
                }
            },
            _ => Err(String::from_str("expected an object")),
        }
    }
}

/// Response from starting a file or content search.
#[derive(Debug)]
pub struct StartSearchResponse {
    /// The session ID for this search. The field may arrive under
    /// `session_id` or its alias `sessionId`.
    pub session_id: String,
}

impl JsonDecode for StartSearchResponse {
    open spec fn decodable(j: Json) -> bool {
        j matches Json::Obj(fs) && match (
            lookup_field(fs, "session_id"@),
            lookup_field(fs, "sessionId"@),
        ) {
            (Some(fj), None) => spec_non_empty_string(fj) is Some,
            (None, Some(fj)) => spec_non_empty_string(fj) is Some,
            _ => false,
        }
    }

    open spec fn decoded(j: Json, r: Self) -> bool {
        j matches Json::Obj(fs) && match (
            lookup_field(fs, "session_id"@),
            lookup_field(fs, "sessionId"@),
        ) {
            (Some(fj), None) => spec_non_empty_string(fj) == Some(r.session_id@),
            (None, Some(fj)) => spec_non_empty_string(fj) == Some(r.session_id@),
            _ => false,
        }
    }

    fn decode_json(v: &JsonValue) -> (r: Result<Self, String>) {
        match v {
            JsonValue::Obj(fields) => {
                proof {
                    crate::json::lemma_obj_deep(*fields);
                }
                let primary = get_field(fields, "session_id");
                let alias = get_field(fields, "sessionId");
                match (primary, alias) {
                    (Some(fv), None) => match deserialize_non_empty_string(fv) {
                        Ok(s) => Ok(StartSearchResponse { session_id: s }),
                        Err(e) => Err(e),
                    },
                    (None, Some(fv)) => match deserialize_non_empty_string(fv) {
                        Ok(s) => Ok(StartSearchResponse { session_id: s }),
                        Err(e) => Err(e),
                    },
                    (Some(_), Some(_)) => Err(String::from_str("duplicate field session_id")),
                    (None, None) => Err(String::from_str("missing field session_id")),
                }
            },
            _ => Err(String::from_str("expected an object")),
        }
    }
}

/// Response from starting a terminal command.
#[derive(Debug)]
pub struct StartTerminalCommandResponse {
    /// The process ID (PID) of the started command; strictly positive.
    pub pid: i64,
    /// Optional status information.
    pub status: Option<String>,
}

impl JsonDecode for StartTerminalCommandResponse {
    open spec fn decodable(j: Json) -> bool {
        j matches Json::Obj(fs) && (lookup_field(fs, "pid"@) matches Some(fj)
            && spec_positive_i64(fj) is Some) && opt_string_ok(lookup_field(fs, "status"@))
    }

    open spec fn decoded(j: Json, r: Self) -> bool {
        j matches Json::Obj(fs) && (lookup_field(fs, "pid"@) matches Some(fj)
            && spec_positive_i64(fj) == Some(r.pid)) && opt_string_matches(
            lookup_field(fs, "status"@),
            view_opt_string(r.status),
        )
    }

    fn decode_json(v: &JsonValue) -> (r: Result<Self, String>) {
        match v {
            JsonValue::Obj(fields) => {
                proof {
                    crate::json::lemma_obj_deep(*fields);
                }
                let pid = match get_field(fields, "pid") {
                    Some(fv) => match deserialize_positive_i64(fv) {
                        Ok(n) => n,
                        Err(e) => {
                            return Err(e);
                        },
                    },
                    None => {
                        return Err(String::from_str("missing field pid"));
                    },
                };
                let status = match get_opt_string(fields, "status") {
                    Ok(o) => o,
                    Err(e) => {
                        return Err(e);
                    },
                };
                Ok(StartTerminalCommandResponse { pid, status })
            },
            _ => Err(String::from_str("expected an object")),
        }
    }
}

/// Whether an optional agents field is acceptable: absent or an array.
pub open spec fn agents_field_ok(f: Option<Json>) -> bool {
    match f {
        None => true,
        Some(Json::Arr(_)) => true,
        _ => false,
    }
}

/// The items of an optional agents field; absent means empty.
pub open spec fn agents_field_items(f: Option<Json>) -> Seq<Json> {
    match f {
        Some(Json::Arr(items)) => items,
        _ => Seq::empty(),
    }
}

/// Response from spawning agent sub-sessions.
#[derive(Debug)]
pub struct SpawnClaudeAgentResponse {
    /// The session IDs for spawned agents; each non-empty.
    pub session_ids: Vec<String>,
    /// Number of workers spawned; must equal the number of session IDs.
    pub worker_count: u32,
    /// Agent information for each spawned agent; defaults to empty.
    pub agents: Vec<JsonValue>,
}

impl JsonDecode for SpawnClaudeAgentResponse {
    open spec fn decodable(j: Json) -> bool {
        j matches Json::Obj(fs) && (lookup_field(fs, "session_ids"@) matches Some(sj)
            && sj matches Json::Arr(items) && all_non_empty_strings(items)) && (lookup_field(
            fs,
            "worker_count"@,
        ) matches Some(wj) && spec_u32(wj) is Some) && agents_field_ok(
            lookup_field(fs, "agents"@),
        )
    }

    open spec fn decoded(j: Json, r: Self) -> bool {
        j matches Json::Obj(fs) && (lookup_field(fs, "session_ids"@) matches Some(sj)
            && sj matches Json::Arr(items) && all_non_empty_strings(items)
            && r.session_ids@.len() == items.len() && (forall|k: int|
            0 <= k < items.len() ==> r.session_ids@[k]@ == string_views(items)[k])) && (
        lookup_field(fs, "worker_count"@) matches Some(wj) && spec_u32(wj) == Some(
            r.worker_count,
        )) && items_deep(r.agents@) == agents_field_items(lookup_field(fs, "agents"@))
    }

    fn decode_json(v: &JsonValue) -> (r: Result<Self, String>) {
        match v {
            JsonValue::Obj(fields) => {
                proof {
                    crate::json::lemma_obj_deep(*fields);
                }
                let session_ids = match get_field(fields, "session_ids") {
                    Some(fv) => match deserialize_vec_non_empty_strings(fv) {
                        Ok(ids) => ids,
                        Err(e) => {
                            return Err(e);
                        },
                    },
                    None => {
                        return Err(String::from_str("missing field session_ids"));
                    },
                };
                let worker_count = match get_field(fields, "worker_count") {
                    Some(fv) => match decode_u32(fv) {
                        Ok(n) => n,
                        Err(e) => {
                            return Err(e);
                        },
                    },
                    None => {
                        return Err(String::from_str("missing field worker_count"));
                    },
                };
                let agents = match get_field(fields, "agents") {
                    Some(fv) => match fv {
                        JsonValue::Arr(items) => {
                            proof {
                                crate::json::lemma_arr_deep(*items);
                            }
                            let ghost model = items_deep(items@);
                            let mut out: Vec<JsonValue> = Vec::new();
                            let mut i: usize = 0;
                            while i < items.len()
                                invariant
                                    i <= items.len(),
                                    out.len() == i,
                                    model == items_deep(items@),
                                    model.len() == items.len(),
                                    forall|j: int|
                                        0 <= j < i ==> out@[j].deep() == #[trigger] model[j],
                                decreases items.len() - i,
                            {
                                proof {
                                    assert(model[i as int] == items@[i as int].deep());
                                }
                                out.push(items[i].duplicate());
                                i = i + 1;
                            }
                            proof {
                                assert(items_deep(out@) =~= model);
                            }
                            out
                        },
                        _ => {
                            return Err(String::from_str("expected an array of agents"));
                        },
                    },
                    None => {
                        let out: Vec<JsonValue> = Vec::new();
                        proof {
                            assert(items_deep(out@) =~= Seq::<Json>::empty());
                        }
                        out
                    },
                };
                Ok(SpawnClaudeAgentResponse { session_ids, worker_count, agents })
            },
            _ => Err(String::from_str("expected an object")),
        }
    }
}

impl Validate for SpawnClaudeAgentResponse {
    open spec fn valid(&self) -> bool {
        self.session_ids@.len() == self.worker_count
    }

    fn validate(&self) -> (r: Result<(), String>) {
        if self.session_ids.len() != self.worker_count as usize {
            return Err(
                crate::validation::count_mismatch_error(
                    "worker_count",
                    self.worker_count as usize,
                    self.session_ids.len(),
                ),
            );
        }
        Ok(())
    }
}

/// Response from getting a prompt template.
#[derive(Debug)]
pub struct GetPromptResponse {
    pub name: String,
    pub metadata: PromptMetadata,
    pub content: String,
    pub rendered: bool,
}

/// Response from rendering a prompt with parameters.
#[derive(Debug)]
pub struct RenderPromptResponse {
    pub name: String,
    pub content: String,
    pub rendered: bool,
}

/// Prompt metadata structure.
#[derive(Debug)]
pub struct PromptMetadata {
    pub title: String,
    pub description: String,
    pub categories: Vec<String>,
    pub author: String,
    pub parameters: Vec<ParameterDefinition>,
}

/// Parameter definition in prompt metadata.
#[derive(Debug)]
pub struct ParameterDefinition {
    pub name: String,
    pub description: String,
    pub required: bool,
}

/// Client information learned during initialization.
#[derive(Debug, Clone)]
pub struct ClientInfo {
    pub name: String,
    pub version: String,
}

/// Client connection record with timestamps.
#[derive(Debug, Clone)]
pub struct ClientRecord {
    pub client_info: ClientInfo,
    pub connected_at: String,
    pub last_seen: String,
}

/// System diagnostic information.
#[derive(Debug)]
pub struct SystemInfo {
    pub platform: String,
    pub arch: String,
    pub os_version: String,
    pub kernel_version: String,
    pub hostname: String,
    pub rust_version: String,
    pub cpu_count: usize,
    pub memory: MemoryInfo,
}

/// Memory usage information.
#[derive(Debug)]
pub struct MemoryInfo {
    pub total_mb: String,
    pub available_mb: String,
    pub used_mb: String,
}

/// Response from the sequential thinking tool.
#[derive(Debug)]
pub struct SequentialThinkingResponse {
    /// The session ID; non-empty.
    pub session_id: String,
    pub thought_number: u32,
    pub total_thoughts: u32,
    pub next_thought_needed: bool,
    pub branches: Vec<String>,
    pub thought_history_length: usize,
}

impl JsonDecode for SequentialThinkingResponse {
    open spec fn decodable(j: Json) -> bool {
        j matches Json::Obj(fs) && (lookup_field(fs, "session_id"@) matches Some(fj)
            && spec_non_empty_string(fj) is Some) && (lookup_field(
            fs,
            "thought_number"@,
        ) matches Some(fj) && spec_u32(fj) is Some) && (lookup_field(
            fs,
            "total_thoughts"@,
        ) matches Some(fj) && spec_u32(fj) is Some) && (lookup_field(
            fs,
            "next_thought_needed"@,
        ) matches Some(fj) && crate::validation::spec_bool(fj) is Some) && (lookup_field(
            fs,
            "branches"@,
        ) matches Some(fj) && fj matches Json::Arr(items) && crate::validation::all_strings(
            items,
        )) && (lookup_field(fs, "thought_history_length"@) matches Some(fj)
            && crate::validation::spec_usize(fj) is Some)
    }

    open spec fn decoded(j: Json, r: Self) -> bool {
        j matches Json::Obj(fs) && (lookup_field(fs, "session_id"@) matches Some(fj)
            && spec_non_empty_string(fj) == Some(r.session_id@)) && (lookup_field(
            fs,
            "thought_number"@,
        ) matches Some(fj) && spec_u32(fj) == Some(r.thought_number)) && (lookup_field(
            fs,
            "total_thoughts"@,
        ) matches Some(fj) && spec_u32(fj) == Some(r.total_thoughts)) && (lookup_field(
            fs,
            "next_thought_needed"@,
        ) matches Some(fj) && crate::validation::spec_bool(fj) == Some(r.next_thought_needed)) && (
        lookup_field(fs, "branches"@) matches Some(fj) && fj matches Json::Arr(items)
            && crate::validation::all_strings(items) && r.branches@.len() == items.len() && (
        forall|k: int| 0 <= k < items.len() ==> r.branches@[k]@ == string_views(items)[k])) && (
        lookup_field(fs, "thought_history_length"@) matches Some(fj)
            && crate::validation::spec_usize(fj) == Some(r.thought_history_length))
    }

    fn decode_json(v: &JsonValue) -> (r: Result<Self, String>) {
        match v {
            JsonValue::Obj(fields) => {
                proof {
                    crate::json::lemma_obj_deep(*fields);
                }
                let session_id = match get_field(fields, "session_id") {
                    Some(fv) => match deserialize_non_empty_string(fv) {
                        Ok(s) => s,
                        Err(e) => {
                            return Err(e);
                        },
                    },
                    None => {
                        return Err(String::from_str("missing field session_id"));
                    },
                };
                let thought_number = match get_field(fields, "thought_number") {
                    Some(fv) => match decode_u32(fv) {
                        Ok(n) => n,
                        Err(e) => {
                            return Err(e);
                        },
                    },
                    None => {
                        return Err(String::from_str("missing field thought_number"));
                    },
                };
                let total_thoughts = match get_field(fields, "total_thoughts") {
                    Some(fv) => match decode_u32(fv) {
                        Ok(n) => n,
                        Err(e) => {
                            return Err(e);
                        },
                    },
                    None => {
                        return Err(String::from_str("missing field total_thoughts"));
                    },
                };
                let next_thought_needed = match get_field(fields, "next_thought_needed") {
                    Some(fv) => match crate::validation::decode_bool(fv) {
                        Ok(b) => b,
                        Err(e) => {
                            return Err(e);
                        },
                    },
                    None => {
                        return Err(String::from_str("missing field next_thought_needed"));
                    },
                };
                let branches = match get_field(fields, "branches") {
                    Some(fv) => match crate::validation::decode_strings(fv) {
                        Ok(b) => b,
                        Err(e) => {
                            return Err(e);
                        },
                    },
                    None => {
                        return Err(String::from_str("missing field branches"));
                    },
                };
                let thought_history_length = match get_field(fields, "thought_history_length") {
                    Some(fv) => match crate::validation::decode_usize(fv) {
                        Ok(n) => n,
                        Err(e) => {
                            return Err(e);
                        },
                    },
                    None => {
                        return Err(String::from_str("missing field thought_history_length"));
                    },
                };
                Ok(
                    SequentialThinkingResponse {
                        session_id,
                        thought_number,
                        total_thoughts,
                        next_thought_needed,
                        branches,
                        thought_history_length,
                    },
                )
            },
            _ => Err(String::from_str("expected an object")),
        }
    }
}

/// GitHub user information.
#[derive(Debug, Clone)]
pub struct GitHubUser {
    /// The user's numeric id; strictly positive.
    pub id: u64,
    /// The user's login; non-empty.
    pub login: String,
    pub name: Option<String>,
    pub email: Option<String>,
    pub avatar_url: Option<String>,
    pub html_url: Option<String>,
}

impl JsonDecode for GitHubUser {
    open spec fn decodable(j: Json) -> bool {
        j matches Json::Obj(fs) && (lookup_field(fs, "id"@) matches Some(fj)
            && spec_positive_u64(fj) is Some) && (lookup_field(fs, "login"@) matches Some(fj)
            && spec_non_empty_string(fj) is Some) && opt_string_ok(lookup_field(fs, "name"@))
            && opt_string_ok(lookup_field(fs, "email"@)) && opt_string_ok(
            lookup_field(fs, "avatar_url"@),
        ) && opt_string_ok(lookup_field(fs, "html_url"@))
    }

    open spec fn decoded(j: Json, r: Self) -> bool {
        j matches Json::Obj(fs) && (lookup_field(fs, "id"@) matches Some(fj)
            && spec_positive_u64(fj) == Some(r.id)) && (lookup_field(fs, "login"@) matches Some(
            fj,
        ) && spec_non_empty_string(fj) == Some(r.login@)) && opt_string_matches(
            lookup_field(fs, "name"@),
            view_opt_string(r.name),
        ) && opt_string_matches(lookup_field(fs, "email"@), view_opt_string(r.email))
            && opt_string_matches(
            lookup_field(fs, "avatar_url"@),
            view_opt_string(r.avatar_url),
        ) && opt_string_matches(lookup_field(fs, "html_url"@), view_opt_string(r.html_url))
    }

    fn decode_json(v: &JsonValue) -> (r: Result<Self, String>) {
        match v {
            JsonValue::Obj(fields) => {
                proof {
                    crate::json::lemma_obj_deep(*fields);
                }
                let id = match get_field(fields, "id") {
                    Some(fv) => match deserialize_positive_u64(fv) {
                        Ok(n) => n,
                        Err(e) => {
                            return Err(e);
                        },
                    },
                    None => {
                        return Err(String::from_str("missing field id"));
                    },
                };
                let login = match get_field(fields, "login") {
                    Some(fv) => match deserialize_non_empty_string(fv) {
                        Ok(s) => s,
                        Err(e) => {
                            return Err(e);
                        },
                    },
                    None => {
                        return Err(String::from_str("missing field login"));
                    },
                };
                let name = match get_opt_string(fields, "name") {
                    Ok(o) => o,
                    Err(e) => {
                        return Err(e);
                    },
                };
                let email = match get_opt_string(fields, "email") {
                    Ok(o) => o,
                    Err(e) => {
                        return Err(e);
                    },
                };
                let avatar_url = match get_opt_string(fields, "avatar_url") {
                    Ok(o) => o,
                    Err(e) => {
                        return Err(e);
                    },
                };
                let html_url = match get_opt_string(fields, "html_url") {
                    Ok(o) => o,
                    Err(e) => {
                        return Err(e);
                    },
                };
                Ok(GitHubUser { id, login, name, email, avatar_url, html_url })
            },
            _ => Err(String::from_str("expected an object")),
        }
    }
}

/// GitHub repository information.
#[derive(Debug, Clone)]
pub struct GitHubRepository {
    pub id: u64,
    pub name: String,
    pub full_name: String,
    pub owner: GitHubUser,
    pub description: Option<String>,
    pub html_url: Option<String>,
    pub clone_url: Option<String>,
    pub default_branch: Option<String>,
    pub stargazers_count: Option<u64>,
    pub forks_count: Option<u64>,
    pub open_issues_count: Option<u64>,
    pub language: Option<String>,
    pub created_at: Option<String>,
    pub updated_at: Option<String>,
}

/// GitHub issue label.
#[derive(Debug, Clone)]
pub struct GitHubLabel {
    pub id: u64,
    pub name: String,
    pub color: String,
}

impl JsonDecode for GitHubLabel {
    open spec fn decodable(j: Json) -> bool {
        j matches Json::Obj(fs) && (lookup_field(fs, "id"@) matches Some(fj)
            && crate::validation::spec_u64(fj) is Some) && (lookup_field(
            fs,
            "name"@,
        ) matches Some(fj) && crate::validation::spec_string(fj) is Some) && (lookup_field(
            fs,
            "color"@,
        ) matches Some(fj) && crate::validation::spec_string(fj) is Some)
    }

    open spec fn decoded(j: Json, r: Self) -> bool {
        j matches Json::Obj(fs) && (lookup_field(fs, "id"@) matches Some(fj)
            && crate::validation::spec_u64(fj) == Some(r.id)) && (lookup_field(
            fs,
            "name"@,
        ) matches Some(fj) && crate::validation::spec_string(fj) == Some(r.name@)) && (
        lookup_field(fs, "color"@) matches Some(fj) && crate::validation::spec_string(fj) == Some(
            r.color@,
        ))
    }

    fn decode_json(v: &JsonValue) -> (r: Result<Self, String>) {
        match v {
            JsonValue::Obj(fields) => {
                proof {
                    crate::json::lemma_obj_deep(*fields);
                }
                let id = match get_field(fields, "id") {
                    Some(fv) => match crate::validation::decode_u64(fv) {
                        Ok(n) => n,
                        Err(e) => {
                            return Err(e);
                        },
                    },
                    None => {
                        return Err(String::from_str("missing field id"));
                    },
                };
                let name = match get_field(fields, "name") {
                    Some(fv) => match crate::validation::decode_string(fv) {
                        Ok(s) => s,
                        Err(e) => {
                            return Err(e);
                        },
                    },
                    None => {
                        return Err(String::from_str("missing field name"));
                    },
                };
                let color = match get_field(fields, "color") {
                    Some(fv) => match crate::validation::decode_string(fv) {
                        Ok(s) => s,
                        Err(e) => {
                            return Err(e);
                        },
                    },
                    None => {
                        return Err(String::from_str("missing field color"));
                    },
                };
                Ok(GitHubLabel { id, name, color })
            },
            _ => Err(String::from_str("expected an object")),
        }
    }
}

/// GitHub issue.
#[derive(Debug)]
pub struct GitHubIssue {
    pub id: u64,
    pub number: u64,
    pub title: String,
    pub body: Option<String>,
    pub state: String,
    pub user: GitHubUser,
    /// Defaults to empty where the field is absent.
    pub assignees: Vec<GitHubUser>,
    /// Defaults to empty where the field is absent.
    pub labels: Vec<GitHubLabel>,
    pub html_url: Option<String>,
    pub created_at: String,
    pub updated_at: String,
}

impl JsonDecode for GitHubIssue {
    open spec fn decodable(j: Json) -> bool {
        j matches Json::Obj(fs) && (lookup_field(fs, "id"@) matches Some(fj)
            && crate::validation::spec_u64(fj) is Some) && (lookup_field(
            fs,
            "number"@,
        ) matches Some(fj) && crate::validation::spec_u64(fj) is Some) && (lookup_field(
            fs,
            "title"@,
        ) matches Some(fj) && crate::validation::spec_string(fj) is Some) && opt_string_ok(
            lookup_field(fs, "body"@),
        ) && (lookup_field(fs, "state"@) matches Some(fj)
            && crate::validation::spec_string(fj) is Some) && (lookup_field(
            fs,
            "user"@,
        ) matches Some(fj) && GitHubUser::decodable(fj)) && (match lookup_field(
            fs,
            "assignees"@,
        ) {
            None => true,
            Some(aj) => crate::validation::vec_decodable::<GitHubUser>(aj),
        }) && (match lookup_field(fs, "labels"@) {
            None => true,
            Some(lj) => crate::validation::vec_decodable::<GitHubLabel>(lj),
        }) && opt_string_ok(lookup_field(fs, "html_url"@)) && (lookup_field(
            fs,
            "created_at"@,
        ) matches Some(fj) && crate::validation::spec_string(fj) is Some) && (lookup_field(
            fs,
            "updated_at"@,
        ) matches Some(fj) && crate::validation::spec_string(fj) is Some)
    }

    open spec fn decoded(j: Json, r: Self) -> bool {
        j matches Json::Obj(fs) && (lookup_field(fs, "id"@) matches Some(fj)
            && crate::validation::spec_u64(fj) == Some(r.id)) && (lookup_field(
            fs,
            "number"@,
        ) matches Some(fj) && crate::validation::spec_u64(fj) == Some(r.number)) && (lookup_field(
            fs,
            "title"@,
        ) matches Some(fj) && crate::validation::spec_string(fj) == Some(r.title@))
            && opt_string_matches(lookup_field(fs, "body"@), view_opt_string(r.body)) && (
        lookup_field(fs, "state"@) matches Some(fj) && crate::validation::spec_string(fj) == Some(
            r.state@,
        )) && (lookup_field(fs, "user"@) matches Some(fj) && GitHubUser::decoded(fj, r.user)) && (
        match lookup_field(fs, "assignees"@) {
            None => r.assignees@.len() == 0,
            Some(aj) => crate::validation::vec_decoded::<GitHubUser>(aj, r.assignees@),
        }) && (match lookup_field(fs, "labels"@) {
            None => r.labels@.len() == 0,
            Some(lj) => crate::validation::vec_decoded::<GitHubLabel>(lj, r.labels@),
        }) && opt_string_matches(lookup_field(fs, "html_url"@), view_opt_string(r.html_url)) && (
        lookup_field(fs, "created_at"@) matches Some(fj) && crate::validation::spec_string(fj)
            == Some(r.created_at@)) && (lookup_field(fs, "updated_at"@) matches Some(fj)
            && crate::validation::spec_string(fj) == Some(r.updated_at@))
    }

    fn decode_json(v: &JsonValue) -> (r: Result<Self, String>) {
        match v {
            JsonValue::Obj(fields) => {
                proof {
                    crate::json::lemma_obj_deep(*fields);
                }
                let id = match get_field(fields, "id") {
                    Some(fv) => match crate::validation::decode_u64(fv) {
                        Ok(n) => n,
                        Err(e) => {
                            return Err(e);
                        },
                    },
                    None => {
                        return Err(String::from_str("missing field id"));
                    },
                };
                let number = match get_field(fields, "number") {
                    Some(fv) => match crate::validation::decode_u64(fv) {
                        Ok(n) => n,
                        Err(e) => {
                            return Err(e);
                        },
                    },
                    None => {
                        return Err(String::from_str("missing field number"));
                    },
                };
                let title = match get_field(fields, "title") {
                    Some(fv) => match crate::validation::decode_string(fv) {
                        Ok(s) => s,
                        Err(e) => {
                            return Err(e);
                        },
                    },
                    None => {
                        return Err(String::from_str("missing field title"));
                    },
                };
                let body = match get_opt_string(fields, "body") {
                    Ok(o) => o,
                    Err(e) => {
                        return Err(e);
                    },
                };
                let state = match get_field(fields, "state") {
                    Some(fv) => match crate::validation::decode_string(fv) {
                        Ok(s) => s,
                        Err(e) => {
                            return Err(e);
                        },
                    },
                    None => {
                        return Err(String::from_str("missing field state"));
                    },
                };
                let user = match get_field(fields, "user") {
                    Some(fv) => match GitHubUser::decode_json(fv) {
                        Ok(u) => u,
                        Err(e) => {
                            return Err(e);
                        },
                    },
                    None => {
                        return Err(String::from_str("missing field user"));
                    },
                };
                let assignees = match get_field(fields, "assignees") {
                    Some(fv) => match crate::validation::decode_vec::<GitHubUser>(fv) {
                        Ok(a) => a,
                        Err(e) => {
                            return Err(e);
                        },
                    },
                    None => Vec::new(),
                };
                let labels = match get_field(fields, "labels") {
                    Some(fv) => match crate::validation::decode_vec::<GitHubLabel>(fv) {
                        Ok(l) => l,
                        Err(e) => {
                            return Err(e);
                        },
                    },
                    None => Vec::new(),
                };
                let html_url = match get_opt_string(fields, "html_url") {
                    Ok(o) => o,
                    Err(e) => {
                        return Err(e);
                    },
                };
                let created_at = match get_field(fields, "created_at") {
                    Some(fv) => match crate::validation::decode_string(fv) {
                        Ok(s) => s,
                        Err(e) => {
                            return Err(e);
                        },
                    },
                    None => {
                        return Err(String::from_str("missing field created_at"));
                    },
                };
                let updated_at = match get_field(fields, "updated_at") {
                    Some(fv) => match crate::validation::decode_string(fv) {
                        Ok(s) => s,
                        Err(e) => {
                            return Err(e);
                        },
                    },
                    None => {
                        return Err(String::from_str("missing field updated_at"));
                    },
                };
                Ok(
                    GitHubIssue {
                        id,
                        number,
                        title,
                        body,
                        state,
                        user,
                        assignees,
                        labels,
                        html_url,
                        created_at,
                        updated_at,
                    },
                )
            },
            _ => Err(String::from_str("expected an object")),
        }
    }
}

/// GitHub comment (on issues or pull requests).
#[derive(Debug)]
pub struct GitHubComment {
    pub id: u64,
    pub body: String,
    pub user: GitHubUser,
    pub html_url: Option<String>,
    pub created_at: String,
    pub updated_at: String,
}

impl JsonDecode for GitHubComment {
    open spec fn decodable(j: Json) -> bool {
        j matches Json::Obj(fs) && (lookup_field(fs, "id"@) matches Some(fj)
            && crate::validation::spec_u64(fj) is Some) && (lookup_field(
            fs,
            "body"@,
        ) matches Some(fj) && crate::validation::spec_string(fj) is Some) && (lookup_field(
            fs,
            "user"@,
        ) matches Some(fj) && GitHubUser::decodable(fj)) && opt_string_ok(
            lookup_field(fs, "html_url"@),
        ) && (lookup_field(fs, "created_at"@) matches Some(fj)
            && crate::validation::spec_string(fj) is Some) && (lookup_field(
            fs,
            "updated_at"@,
        ) matches Some(fj) && crate::validation::spec_string(fj) is Some)
    }

    open spec fn decoded(j: Json, r: Self) -> bool {
        j matches Json::Obj(fs) && (lookup_field(fs, "id"@) matches Some(fj)
            && crate::validation::spec_u64(fj) == Some(r.id)) && (lookup_field(
            fs,
            "body"@,
        ) matches Some(fj) && crate::validation::spec_string(fj) == Some(r.body@)) && (
        lookup_field(fs, "user"@) matches Some(fj) && GitHubUser::decoded(fj, r.user))
            && opt_string_matches(lookup_field(fs, "html_url"@), view_opt_string(r.html_url)) && (
        lookup_field(fs, "created_at"@) matches Some(fj) && crate::validation::spec_string(fj)
            == Some(r.created_at@)) && (lookup_field(fs, "updated_at"@) matches Some(fj)
            && crate::validation::spec_string(fj) == Some(r.updated_at@))
    }

    fn decode_json(v: &JsonValue) -> (r: Result<Self, String>) {
        match v {
            JsonValue::Obj(fields) => {
                proof {
                    crate::json::lemma_obj_deep(*fields);
                }
                let id = match get_field(fields, "id") {
                    Some(fv) => match crate::validation::decode_u64(fv) {
                        Ok(n) => n,
                        Err(e) => {
                            return Err(e);
                        },
                    },
                    None => {
                        return Err(String::from_str("missing field id"));
                    },
                };
                let body = match get_field(fields, "body") {
                    Some(fv) => match crate::validation::decode_string(fv) {
                        Ok(s) => s,
                        Err(e) => {
                            return Err(e);
                        },
                    },
                    None => {
                        return Err(String::from_str("missing field body"));
                    },
                };
                let user = match get_field(fields, "user") {
                    Some(fv) => match GitHubUser::decode_json(fv) {
                        Ok(u) => u,
                        Err(e) => {
                            return Err(e);
                        },
                    },
                    None => {
                        return Err(String::from_str("missing field user"));
                    },
                };
                let html_url = match get_opt_string(fields, "html_url") {
                    Ok(o) => o,
                    Err(e) => {
                        return Err(e);
                    },
                };
                let created_at = match get_field(fields, "created_at") {
                    Some(fv) => match crate::validation::decode_string(fv) {
                        Ok(s) => s,
                        Err(e) => {
                            return Err(e);
                        },
                    },
                    None => {
                        return Err(String::from_str("missing field created_at"));
                    },
                };
                let updated_at = match get_field(fields, "updated_at") {
                    Some(fv) => match crate::validation::decode_string(fv) {
                        Ok(s) => s,
                        Err(e) => {
                            return Err(e);
                        },
                    },
                    None => {
                        return Err(String::from_str("missing field updated_at"));
                    },
                };
                Ok(GitHubComment { id, body, user, html_url, created_at, updated_at })
            },
            _ => Err(String::from_str("expected an object")),
        }
    }
}

/// GitHub branch reference.
#[derive(Debug, Clone)]
pub struct GitHubBranchRef {
    pub ref_field: String,
    pub sha: String,
    pub repo: GitHubRepository,
}

/// GitHub pull request.
#[derive(Debug)]
pub struct GitHubPullRequest {
    pub id: u64,
    pub number: u64,
    pub title: String,
    pub body: Option<String>,
    pub state: String,
    pub user: GitHubUser,
    pub head: GitHubBranchRef,
    pub base: GitHubBranchRef,
    pub html_url: Option<String>,
    pub mergeable: Option<bool>,
    pub merged: bool,
    pub created_at: String,
    pub updated_at: String,
}

/// GitHub pull request review.
#[derive(Debug)]
pub struct GitHubReview {
    pub id: u64,
    pub user: GitHubUser,
    pub body: Option<String>,
    pub state: String,
    pub html_url: Option<String>,
    pub submitted_at: Option<String>,
}

/// GitHub pull request file change.
#[derive(Debug)]
pub struct GitHubPullRequestFile {
    pub filename: String,
    pub status: String,
    pub additions: u64,
    pub deletions: u64,
    pub changes: u64,
    pub patch: Option<String>,
}

/// GitHub branch.
#[derive(Debug)]
pub struct GitHubBranch {
    pub name: String,
    pub commit: GitHubCommitRef,
    pub protected: bool,
}

/// GitHub commit reference (short version).
#[derive(Debug, Clone)]
pub struct GitHubCommitRef {
    pub sha: String,
    pub url: String,
}

/// GitHub commit (full version).
#[derive(Debug)]
pub struct GitHubCommit {
    pub sha: String,
    pub commit: GitHubCommitDetail,
    pub author: Option<GitHubUser>,
    pub committer: Option<GitHubUser>,
    pub html_url: Option<String>,
}

/// GitHub commit details.
#[derive(Debug)]
pub struct GitHubCommitDetail {
    pub message: String,
    pub author: GitHubCommitAuthor,
    pub committer: GitHubCommitAuthor,
}

/// GitHub commit author or committer information.
#[derive(Debug)]
pub struct GitHubCommitAuthor {
    pub name: String,
    pub email: String,
    pub date: String,
}

/// GitHub merge result.
#[derive(Debug)]
pub struct GitHubMergeResult {
    pub sha: String,
    pub merged: bool,
    pub message: String,
}

/// GitHub search results wrapper.
#[derive(Debug)]
pub struct GitHubSearchResults<T> {
    pub total_count: u64,
    pub incomplete_results: bool,
    pub items: Vec<T>,
}

/// GitHub code search result.
#[derive(Debug)]
pub struct GitHubCodeResult {
    pub name: String,
    pub path: String,
    pub sha: String,
    pub html_url: Option<String>,
    pub repository: GitHubRepository,
}

/// Response wrapper for issue listing and search tools.
///
/// Format: `{"count": N, "issues": [...]}` — the count must equal the number
/// of issues, checked by [`Validate`].
#[derive(Debug)]
pub struct GitHubIssuesResponse {
    /// Total number of issues returned.
    pub count: u64,
    /// Complete issue records with all fields populated.
    pub issues: Vec<GitHubIssue>,
}

impl JsonDecode for GitHubIssuesResponse {
    open spec fn decodable(j: Json) -> bool {
        j matches Json::Obj(fs) && (lookup_field(fs, "count"@) matches Some(fj)
            && crate::validation::spec_u64(fj) is Some) && (lookup_field(
            fs,
            "issues"@,
        ) matches Some(fj) && crate::validation::vec_decodable::<GitHubIssue>(fj))
    }

    open spec fn decoded(j: Json, r: Self) -> bool {
        j matches Json::Obj(fs) && (lookup_field(fs, "count"@) matches Some(fj)
            && crate::validation::spec_u64(fj) == Some(r.count)) && (lookup_field(
            fs,
            "issues"@,
        ) matches Some(fj) && crate::validation::vec_decoded::<GitHubIssue>(fj, r.issues@))
    }

    fn decode_json(v: &JsonValue) -> (r: Result<Self, String>) {
        match v {
            JsonValue::Obj(fields) => {
                proof {
                    crate::json::lemma_obj_deep(*fields);
                }
                let count = match get_field(fields, "count") {
                    Some(fv) => match crate::validation::decode_u64(fv) {
                        Ok(n) => n,
                        Err(e) => {
                            return Err(e);
                        },
                    },
                    None => {
                        return Err(String::from_str("missing field count"));
                    },
                };
                let issues = match get_field(fields, "issues") {
                    Some(fv) => match crate::validation::decode_vec::<GitHubIssue>(fv) {
                        Ok(xs) => xs,
                        Err(e) => {
                            return Err(e);
                        },
                    },
                    None => {
                        return Err(String::from_str("missing field issues"));
                    },
                };
                Ok(GitHubIssuesResponse { count, issues })
            },
            _ => Err(String::from_str("expected an object")),
        }
    }
}

impl Validate for GitHubIssuesResponse {
    open spec fn valid(&self) -> bool {
        self.count == self.issues@.len()
    }

    fn validate(&self) -> (r: Result<(), String>) {
        if self.count != self.issues.len() as u64 {
            return Err(
                crate::validation::count_mismatch_error_u64(
                    "count",
                    self.count,
                    self.issues.len(),
                ),
            );
        }
        Ok(())
    }
}

/// Response wrapper for the issue comments tool.
///
/// Format: `{"count": N, "comments": [...]}` — the count must equal the
/// number of comments, checked by [`Validate`].
#[derive(Debug)]
pub struct GitHubCommentsResponse {
    /// Total number of comments returned.
    pub count: u64,
    /// Complete comment records with all fields populated.
    pub comments: Vec<GitHubComment>,
}

impl JsonDecode for GitHubCommentsResponse {
    open spec fn decodable(j: Json) -> bool {
        j matches Json::Obj(fs) && (lookup_field(fs, "count"@) matches Some(fj)
            && crate::validation::spec_u64(fj) is Some) && (lookup_field(
            fs,
            "comments"@,
        ) matches Some(fj) && crate::validation::vec_decodable::<GitHubComment>(fj))
    }

    open spec fn decoded(j: Json, r: Self) -> bool {
        j matches Json::Obj(fs) && (lookup_field(fs, "count"@) matches Some(fj)
            && crate::validation::spec_u64(fj) == Some(r.count)) && (lookup_field(
            fs,
            "comments"@,
        ) matches Some(fj) && crate::validation::vec_decoded::<GitHubComment>(fj, r.comments@))
    }

    fn decode_json(v: &JsonValue) -> (r: Result<Self, String>) {
        match v {
            JsonValue::Obj(fields) => {
                proof {
                    crate::json::lemma_obj_deep(*fields);
                }
                let count = match get_field(fields, "count") {
                    Some(fv) => match crate::validation::decode_u64(fv) {
                        Ok(n) => n,
                        Err(e) => {
                            return Err(e);
                        },
                    },
                    None => {
                        return Err(String::from_str("missing field count"));
                    },
                };
                let comments = match get_field(fields, "comments") {
                    Some(fv) => match crate::validation::decode_vec::<GitHubComment>(fv) {
                        Ok(xs) => xs,
                        Err(e) => {
                            return Err(e);
                        },
                    },
                    None => {
                        return Err(String::from_str("missing field comments"));
                    },
                };
                Ok(GitHubCommentsResponse { count, comments })
            },
            _ => Err(String::from_str("expected an object")),
        }
    }
}

impl Validate for GitHubCommentsResponse {
    open spec fn valid(&self) -> bool {
        self.count == self.comments@.len()
    }

    fn validate(&self) -> (r: Result<(), String>) {
        if self.count != self.comments.len() as u64 {
            return Err(
                crate::validation::count_mismatch_error_u64(
                    "count",
                    self.count,
                    self.comments.len(),
                ),
            );
        }
        Ok(())
    }
}

/// The boolean a field with a false default holds: absent means false,
/// anything but a boolean is an error.
pub open spec fn def_bool_of(f: Option<Json>) -> Option<bool> {
    match f {
        None => Some(false),
        Some(Json::Bool(b)) => Some(b),
        _ => None,
    }
}

impl JsonDecode for ClientInfo {
    open spec fn decodable(j: Json) -> bool {
        &&& j matches Json::Obj(fs)
        &&& req_string_of(lookup_field(fs, "name"@)) is Some
        &&& req_string_of(lookup_field(fs, "version"@)) is Some
    }

    open spec fn decoded(j: Json, r: Self) -> bool {
        &&& j matches Json::Obj(fs)
        &&& req_string_of(lookup_field(fs, "name"@)) == Some(r.name@)
        &&& req_string_of(lookup_field(fs, "version"@)) == Some(r.version@)
    }

    fn decode_json(v: &JsonValue) -> (r: Result<Self, String>) {
        match v {
            JsonValue::Obj(fields) => {
                proof {
                    crate::json::lemma_obj_deep(*fields);
                }
                let name = match get_string(fields, "name") {
                    Ok(x) => x,
                    Err(e) => {
                        return Err(e);
                    },
                };
                let version = match get_string(fields, "version") {
                    Ok(x) => x,
                    Err(e) => {
                        return Err(e);
                    },
                };
                Ok(ClientInfo { name, version })
            },
            _ => Err(String::from_str("expected an object")),
        }
    }
}

impl JsonDecode for ClientRecord {
    open spec fn decodable(j: Json) -> bool {
        &&& j matches Json::Obj(fs)
        &&& (lookup_field(fs, "client_info"@) matches Some(fj) && ClientInfo::decodable(fj))
        &&& req_string_of(lookup_field(fs, "connected_at"@)) is Some
        &&& req_string_of(lookup_field(fs, "last_seen"@)) is Some
    }

    open spec fn decoded(j: Json, r: Self) -> bool {
        &&& j matches Json::Obj(fs)
        &&& (lookup_field(fs, "client_info"@) matches Some(fj) && ClientInfo::decoded(fj, r.client_info))
        &&& req_string_of(lookup_field(fs, "connected_at"@)) == Some(r.connected_at@)
        &&& req_string_of(lookup_field(fs, "last_seen"@)) == Some(r.last_seen@)
    }

    fn decode_json(v: &JsonValue) -> (r: Result<Self, String>) {
        match v {
            JsonValue::Obj(fields) => {
                proof {
                    crate::json::lemma_obj_deep(*fields);
                }
                let client_info = match get_field(fields, "client_info") {
                    Some(fv) => match ClientInfo::decode_json(fv) {
                        Ok(x) => x,
                        Err(e) => {
                            return Err(e);
                        },
                    },
                    None => {
                        return Err(String::from_str("missing field client_info"));
                    },
                };
                let connected_at = match get_string(fields, "connected_at") {
                    Ok(x) => x,
                    Err(e) => {
                        return Err(e);
                    },
                };
                let last_seen = match get_string(fields, "last_seen") {
                    Ok(x) => x,
                    Err(e) => {
                        return Err(e);
                    },
                };
                Ok(ClientRecord { client_info, connected_at, last_seen })
            },
            _ => Err(String::from_str("expected an object")),
        }
    }
}

impl JsonDecode for MemoryInfo {
    open spec fn decodable(j: Json) -> bool {
        &&& j matches Json::Obj(fs)
        &&& req_string_of(lookup_field(fs, "total_mb"@)) is Some
        &&& req_string_of(lookup_field(fs, "available_mb"@)) is Some
        &&& req_string_of(lookup_field(fs, "used_mb"@)) is Some
    }

    open spec fn decoded(j: Json, r: Self) -> bool {
        &&& j matches Json::Obj(fs)
        &&& req_string_of(lookup_field(fs, "total_mb"@)) == Some(r.total_mb@)
        &&& req_string_of(lookup_field(fs, "available_mb"@)) == Some(r.available_mb@)
        &&& req_string_of(lookup_field(fs, "used_mb"@)) == Some(r.used_mb@)
    }

    fn decode_json(v: &JsonValue) -> (r: Result<Self, String>) {
        match v {
            JsonValue::Obj(fields) => {
                proof {
                    crate::json::lemma_obj_deep(*fields);
                }
                let total_mb = match get_string(fields, "total_mb") {
                    Ok(x) => x,
                    Err(e) => {
                        return Err(e);
                    },
                };
                let available_mb = match get_string(fields, "available_mb") {
                    Ok(x) => x,
                    Err(e) => {
                        return Err(e);
                    },
                };
                let used_mb = match get_string(fields, "used_mb") {
                    Ok(x) => x,
                    Err(e) => {
                        return Err(e);
                    },
                };
                Ok(MemoryInfo { total_mb, available_mb, used_mb })
            },
            _ => Err(String::from_str("expected an object")),
        }
    }
}

impl JsonDecode for SystemInfo {
    open spec fn decodable(j: Json) -> bool {
        &&& j matches Json::Obj(fs)
        &&& req_string_of(lookup_field(fs, "platform"@)) is Some
        &&& req_string_of(lookup_field(fs, "arch"@)) is Some
        &&& req_string_of(lookup_field(fs, "os_version"@)) is Some
        &&& req_string_of(lookup_field(fs, "kernel_version"@)) is Some
        &&& req_string_of(lookup_field(fs, "hostname"@)) is Some
        &&& req_string_of(lookup_field(fs, "rust_version"@)) is Some
        &&& req_usize_of(lookup_field(fs, "cpu_count"@)) is Some
        &&& (lookup_field(fs, "memory"@) matches Some(fj) && MemoryInfo::decodable(fj))
    }

    open spec fn decoded(j: Json, r: Self) -> bool {
        &&& j matches Json::Obj(fs)
        &&& req_string_of(lookup_field(fs, "platform"@)) == Some(r.platform@)
        &&& req_string_of(lookup_field(fs, "arch"@)) == Some(r.arch@)
        &&& req_string_of(lookup_field(fs, "os_version"@)) == Some(r.os_version@)
        &&& req_string_of(lookup_field(fs, "kernel_version"@)) == Some(r.kernel_version@)
        &&& req_string_of(lookup_field(fs, "hostname"@)) == Some(r.hostname@)
        &&& req_string_of(lookup_field(fs, "rust_version"@)) == Some(r.rust_version@)
        &&& req_usize_of(lookup_field(fs, "cpu_count"@)) == Some(r.cpu_count)
        &&& (lookup_field(fs, "memory"@) matches Some(fj) && MemoryInfo::decoded(fj, r.memory))
    }

    fn decode_json(v: &JsonValue) -> (r: Result<Self, String>) {
        match v {
            JsonValue::Obj(fields) => {
                proof {
                    crate::json::lemma_obj_deep(*fields);
                }
                let platform = match get_string(fields, "platform") {
                    Ok(x) => x,
                    Err(e) => {
                        return Err(e);
                    },
                };
                let arch = match get_string(fields, "arch") {
                    Ok(x) => x,
                    Err(e) => {
                        return Err(e);
                    },
                };
                let os_version = match get_string(fields, "os_version") {
                    Ok(x) => x,
                    Err(e) => {
                        return Err(e);
                    },
                };
                let kernel_version = match get_string(fields, "kernel_version") {
                    Ok(x) => x,
                    Err(e) => {
                        return Err(e);
                    },
                };
                let hostname = match get_string(fields, "hostname") {
                    Ok(x) => x,
                    Err(e) => {
                        return Err(e);
                    },
                };
                let rust_version = match get_string(fields, "rust_version") {
                    Ok(x) => x,
                    Err(e) => {
                        return Err(e);
                    },
                };
                let cpu_count = match get_usize(fields, "cpu_count") {
                    Ok(x) => x,
                    Err(e) => {
                        return Err(e);
                    },
                };
                let memory = match get_field(fields, "memory") {
                    Some(fv) => match MemoryInfo::decode_json(fv) {
                        Ok(x) => x,
                        Err(e) => {
                            return Err(e);
                        },
                    },
                    None => {
                        return Err(String::from_str("missing field memory"));
                    },
                };
                Ok(SystemInfo { platform, arch, os_version, kernel_version, hostname, rust_version, cpu_count, memory })
            },
            _ => Err(String::from_str("expected an object")),
        }
    }
}

impl JsonDecode for ParameterDefinition {
    open spec fn decodable(j: Json) -> bool {
        &&& j matches Json::Obj(fs)
        &&& req_string_of(lookup_field(fs, "name"@)) is Some
        &&& req_string_of(lookup_field(fs, "description"@)) is Some
        &&& def_bool_of(lookup_field(fs, "required"@)) is Some
    }

    open spec fn decoded(j: Json, r: Self) -> bool {
        &&& j matches Json::Obj(fs)
        &&& req_string_of(lookup_field(fs, "name"@)) == Some(r.name@)
        &&& req_string_of(lookup_field(fs, "description"@)) == Some(r.description@)
        &&& def_bool_of(lookup_field(fs, "required"@)) == Some(r.required)
    }

    fn decode_json(v: &JsonValue) -> (r: Result<Self, String>) {
        match v {
            JsonValue::Obj(fields) => {
                proof {
                    crate::json::lemma_obj_deep(*fields);
                }
                let name = match get_string(fields, "name") {
                    Ok(x) => x,
                    Err(e) => {
                        return Err(e);
                    },
                };
                let description = match get_string(fields, "description") {
                    Ok(x) => x,
                    Err(e) => {
                        return Err(e);
                    },
                };
                let required = match get_field(fields, "required") {
                    Some(fv) => match fv {
                        JsonValue::Bool(b) => *b,
                        _ => {
                            return Err(String::from_str("expected a boolean"));
                        },
                    },
                    None => false,
                };
                Ok(ParameterDefinition { name, description, required })
            },
            _ => Err(String::from_str("expected an object")),
        }
    }
}

impl JsonDecode for PromptMetadata {
    open spec fn decodable(j: Json) -> bool {
        &&& j matches Json::Obj(fs)
        &&& req_string_of(lookup_field(fs, "title"@)) is Some
        &&& req_string_of(lookup_field(fs, "description"@)) is Some
        &&& (lookup_field(fs, "categories"@) matches Some(fj) && fj matches Json::Arr(items) && all_strings(items))
        &&& req_string_of(lookup_field(fs, "author"@)) is Some
        &&& (match lookup_field(fs, "parameters"@) {
            None => true,
            Some(fj) => vec_decodable::<ParameterDefinition>(fj),
        })
    }

    open spec fn decoded(j: Json, r: Self) -> bool {
        &&& j matches Json::Obj(fs)
        &&& req_string_of(lookup_field(fs, "title"@)) == Some(r.title@)
        &&& req_string_of(lookup_field(fs, "description"@)) == Some(r.description@)
        &&& (lookup_field(fs, "categories"@) matches Some(fj) && fj matches Json::Arr(items) && all_strings(items)
            && r.categories@.len() == items.len() && (forall|k: int|
            0 <= k < items.len() ==> r.categories@[k]@ == string_views(items)[k]))
        &&& req_string_of(lookup_field(fs, "author"@)) == Some(r.author@)
        &&& (match lookup_field(fs, "parameters"@) {
            None => r.parameters@.len() == 0,
            Some(fj) => vec_decoded::<ParameterDefinition>(fj, r.parameters@),
        })
    }

    fn decode_json(v: &JsonValue) -> (r: Result<Self, String>) {
        match v {
            JsonValue::Obj(fields) => {
                proof {
                    crate::json::lemma_obj_deep(*fields);
                }
                let title = match get_string(fields, "title") {
                    Ok(x) => x,
                    Err(e) => {
                        return Err(e);
                    },
                };
                let description = match get_string(fields, "description") {
                    Ok(x) => x,
                    Err(e) => {
                        return Err(e);
                    },
                };
                let categories = match get_field(fields, "categories") {
                    Some(fv) => match decode_strings(fv) {
                        Ok(x) => x,
                        Err(e) => {
                            return Err(e);
                        },
                    },
                    None => {
                        return Err(String::from_str("missing field categories"));
                    },
                };
                let author = match get_string(fields, "author") {
                    Ok(x) => x,
                    Err(e) => {
                        return Err(e);
                    },
                };
                let parameters = match get_field(fields, "parameters") {
                    Some(fv) => match decode_vec::<ParameterDefinition>(fv) {
                        Ok(x) => x,
                        Err(e) => {
                            return Err(e);
                        },
                    },
                    None => Vec::new(),
                };
                Ok(PromptMetadata { title, description, categories, author, parameters })
            },
            _ => Err(String::from_str("expected an object")),
        }
    }
}

impl JsonDecode for GetPromptResponse {
    open spec fn decodable(j: Json) -> bool {
        &&& j matches Json::Obj(fs)
        &&& req_string_of(lookup_field(fs, "name"@)) is Some
        &&& (lookup_field(fs, "metadata"@) matches Some(fj) && PromptMetadata::decodable(fj))
        &&& req_string_of(lookup_field(fs, "content"@)) is Some
        &&& req_bool_of(lookup_field(fs, "rendered"@)) is Some
    }

    open spec fn decoded(j: Json, r: Self) -> bool {
        &&& j matches Json::Obj(fs)
        &&& req_string_of(lookup_field(fs, "name"@)) == Some(r.name@)
        &&& (lookup_field(fs, "metadata"@) matches Some(fj) && PromptMetadata::decoded(fj, r.metadata))
        &&& req_string_of(lookup_field(fs, "content"@)) == Some(r.content@)
        &&& req_bool_of(lookup_field(fs, "rendered"@)) == Some(r.rendered)
    }

    fn decode_json(v: &JsonValue) -> (r: Result<Self, String>) {
        match v {
            JsonValue::Obj(fields) => {
                proof {
                    crate::json::lemma_obj_deep(*fields);
                }
                let name = match get_string(fields, "name") {
                    Ok(x) => x,
                    Err(e) => {
                        return Err(e);
                    },
                };
                let metadata = match get_field(fields, "metadata") {
                    Some(fv) => match PromptMetadata::decode_json(fv) {
                        Ok(x) => x,
                        Err(e) => {
                            return Err(e);
                        },
                    },
                    None => {
                        return Err(String::from_str("missing field metadata"));
                    },
                };
                let content = match get_string(fields, "content") {
                    Ok(x) => x,
                    Err(e) => {
                        return Err(e);
                    },
                };
                let rendered = match get_bool(fields, "rendered") {
                    Ok(x) => x,
                    Err(e) => {
                        return Err(e);
                    },
                };
                Ok(GetPromptResponse { name, metadata, content, rendered })
            },
            _ => Err(String::from_str("expected an object")),
        }
    }
}

impl JsonDecode for RenderPromptResponse {
    open spec fn decodable(j: Json) -> bool {
        &&& j matches Json::Obj(fs)
        &&& req_string_of(lookup_field(fs, "name"@)) is Some
        &&& req_string_of(lookup_field(fs, "content"@)) is Some
        &&& req_bool_of(lookup_field(fs, "rendered"@)) is Some
    }

    open spec fn decoded(j: Json, r: Self) -> bool {
        &&& j matches Json::Obj(fs)
        &&& req_string_of(lookup_field(fs, "name"@)) == Some(r.name@)
        &&& req_string_of(lookup_field(fs, "content"@)) == Some(r.content@)
        &&& req_bool_of(lookup_field(fs, "rendered"@)) == Some(r.rendered)
    }

    fn decode_json(v: &JsonValue) -> (r: Result<Self, String>) {
        match v {
            JsonValue::Obj(fields) => {
                proof {
                    crate::json::lemma_obj_deep(*fields);
                }
                let name = match get_string(fields, "name") {
                    Ok(x) => x,
                    Err(e) => {
                        return Err(e);
                    },
                };
                let content = match get_string(fields, "content") {
                    Ok(x) => x,
                    Err(e) => {
                        return Err(e);
                    },
                };
                let rendered = match get_bool(fields, "rendered") {
                    Ok(x) => x,
                    Err(e) => {
                        return Err(e);
                    },
                };
                Ok(RenderPromptResponse { name, content, rendered })
            },
            _ => Err(String::from_str("expected an object")),
        }
    }
}

impl JsonDecode for GitHubCommitAuthor {
    open spec fn decodable(j: Json) -> bool {
        &&& j matches Json::Obj(fs)
        &&& req_string_of(lookup_field(fs, "name"@)) is Some
        &&& req_string_of(lookup_field(fs, "email"@)) is Some
        &&& req_string_of(lookup_field(fs, "date"@)) is Some
    }

    open spec fn decoded(j: Json, r: Self) -> bool {
        &&& j matches Json::Obj(fs)
        &&& req_string_of(lookup_field(fs, "name"@)) == Some(r.name@)
        &&& req_string_of(lookup_field(fs, "email"@)) == Some(r.email@)
        &&& req_string_of(lookup_field(fs, "date"@)) == Some(r.date@)
    }

    fn decode_json(v: &JsonValue) -> (r: Result<Self, String>) {
        match v {
            JsonValue::Obj(fields) => {
                proof {
                    crate::json::lemma_obj_deep(*fields);
                }
                let name = match get_string(fields, "name") {
                    Ok(x) => x,
                    Err(e) => {
                        return Err(e);
                    },
                };
                let email = match get_string(fields, "email") {
                    Ok(x) => x,
                    Err(e) => {
                        return Err(e);
                    },
                };
                let date = match get_string(fields, "date") {
                    Ok(x) => x,
                    Err(e) => {
                        return Err(e);
                    },
                };
                Ok(GitHubCommitAuthor { name, email, date })
            },
            _ => Err(String::from_str("expected an object")),
        }
    }
}

impl JsonDecode for GitHubCommitRef {
    open spec fn decodable(j: Json) -> bool {
        &&& j matches Json::Obj(fs)
        &&& req_string_of(lookup_field(fs, "sha"@)) is Some
        &&& req_string_of(lookup_field(fs, "url"@)) is Some
    }

    open spec fn decoded(j: Json, r: Self) -> bool {
        &&& j matches Json::Obj(fs)
        &&& req_string_of(lookup_field(fs, "sha"@)) == Some(r.sha@)
        &&& req_string_of(lookup_field(fs, "url"@)) == Some(r.url@)
    }

    fn decode_json(v: &JsonValue) -> (r: Result<Self, String>) {
        match v {
            JsonValue::Obj(fields) => {
                proof {
                    crate::json::lemma_obj_deep(*fields);
                }
                let sha = match get_string(fields, "sha") {
                    Ok(x) => x,
                    Err(e) => {
                        return Err(e);
                    },
                };
                let url = match get_string(fields, "url") {
                    Ok(x) => x,
                    Err(e) => {
                        return Err(e);
                    },
                };
                Ok(GitHubCommitRef { sha, url })
            },
            _ => Err(String::from_str("expected an object")),
        }
    }
}

impl JsonDecode for GitHubMergeResult {
    open spec fn decodable(j: Json) -> bool {
        &&& j matches Json::Obj(fs)
        &&& req_string_of(lookup_field(fs, "sha"@)) is Some
        &&& req_bool_of(lookup_field(fs, "merged"@)) is Some
        &&& req_string_of(lookup_field(fs, "message"@)) is Some
    }

    open spec fn decoded(j: Json, r: Self) -> bool {
        &&& j matches Json::Obj(fs)
        &&& req_string_of(lookup_field(fs, "sha"@)) == Some(r.sha@)
        &&& req_bool_of(lookup_field(fs, "merged"@)) == Some(r.merged)
        &&& req_string_of(lookup_field(fs, "message"@)) == Some(r.message@)
    }

    fn decode_json(v: &JsonValue) -> (r: Result<Self, String>) {
        match v {
            JsonValue::Obj(fields) => {
                proof {
                    crate::json::lemma_obj_deep(*fields);
                }
                let sha = match get_string(fields, "sha") {
                    Ok(x) => x,
                    Err(e) => {
                        return Err(e);
                    },
                };
                let merged = match get_bool(fields, "merged") {
                    Ok(x) => x,
                    Err(e) => {
                        return Err(e);
                    },
                };
                let message = match get_string(fields, "message") {
                    Ok(x) => x,
                    Err(e) => {
                        return Err(e);
                    },
                };
                Ok(GitHubMergeResult { sha, merged, message })
            },
            _ => Err(String::from_str("expected an object")),
        }
    }
}

impl JsonDecode for GitHubPullRequestFile {
    open spec fn decodable(j: Json) -> bool {
        &&& j matches Json::Obj(fs)
        &&& req_string_of(lookup_field(fs, "filename"@)) is Some
        &&& req_string_of(lookup_field(fs, "status"@)) is Some
        &&& req_u64_of(lookup_field(fs, "additions"@)) is Some
        &&& req_u64_of(lookup_field(fs, "deletions"@)) is Some
        &&& req_u64_of(lookup_field(fs, "changes"@)) is Some
        &&& opt_string_ok(lookup_field(fs, "patch"@))
    }

    open spec fn decoded(j: Json, r: Self) -> bool {
        &&& j matches Json::Obj(fs)
        &&& req_string_of(lookup_field(fs, "filename"@)) == Some(r.filename@)
        &&& req_string_of(lookup_field(fs, "status"@)) == Some(r.status@)
        &&& req_u64_of(lookup_field(fs, "additions"@)) == Some(r.additions)
        &&& req_u64_of(lookup_field(fs, "deletions"@)) == Some(r.deletions)
        &&& req_u64_of(lookup_field(fs, "changes"@)) == Some(r.changes)
        &&& opt_string_matches(lookup_field(fs, "patch"@), view_opt_string(r.patch))
    }

    fn decode_json(v: &JsonValue) -> (r: Result<Self, String>) {
        match v {
            JsonValue::Obj(fields) => {
                proof {
                    crate::json::lemma_obj_deep(*fields);
                }
                let filename = match get_string(fields, "filename") {
                    Ok(x) => x,
                    Err(e) => {
                        return Err(e);
                    },
                };
                let status = match get_string(fields, "status") {
                    Ok(x) => x,
                    Err(e) => {
                        return Err(e);
                    },
                };
                let additions = match get_u64(fields, "additions") {
                    Ok(x) => x,
                    Err(e) => {
                        return Err(e);
                    },
                };
                let deletions = match get_u64(fields, "deletions") {
                    Ok(x) => x,
                    Err(e) => {
                        return Err(e);
                    },
                };
                let changes = match get_u64(fields, "changes") {
                    Ok(x) => x,
                    Err(e) => {
                        return Err(e);
                    },
                };
                let patch = match get_opt_string(fields, "patch") {
                    Ok(x) => x,
                    Err(e) => {
                        return Err(e);
                    },
                };
                Ok(GitHubPullRequestFile { filename, status, additions, deletions, changes, patch })
            },
            _ => Err(String::from_str("expected an object")),
        }
    }
}

impl JsonDecode for GitHubBranch {
    open spec fn decodable(j: Json) -> bool {
        &&& j matches Json::Obj(fs)
        &&& req_string_of(lookup_field(fs, "name"@)) is Some
        &&& (lookup_field(fs, "commit"@) matches Some(fj) && GitHubCommitRef::decodable(fj))
        &&& req_bool_of(lookup_field(fs, "protected"@)) is Some
    }

    open spec fn decoded(j: Json, r: Self) -> bool {
        &&& j matches Json::Obj(fs)
        &&& req_string_of(lookup_field(fs, "name"@)) == Some(r.name@)
        &&& (lookup_field(fs, "commit"@) matches Some(fj) && GitHubCommitRef::decoded(fj, r.commit))
        &&& req_bool_of(lookup_field(fs, "protected"@)) == Some(r.protected)
    }

    fn decode_json(v: &JsonValue) -> (r: Result<Self, String>) {
        match v {
            JsonValue::Obj(fields) => {
                proof {
                    crate::json::lemma_obj_deep(*fields);
                }
                let name = match get_string(fields, "name") {
                    Ok(x) => x,
                    Err(e) => {
                        return Err(e);
                    },
                };
                let commit = match get_field(fields, "commit") {
                    Some(fv) => match GitHubCommitRef::decode_json(fv) {
                        Ok(x) => x,
                        Err(e) => {
                            return Err(e);
                        },
                    },
                    None => {
                        return Err(String::from_str("missing field commit"));
                    },
                };
                let protected = match get_bool(fields, "protected") {
                    Ok(x) => x,
                    Err(e) => {
                        return Err(e);
                    },
                };
                Ok(GitHubBranch { name, commit, protected })
            },
            _ => Err(String::from_str("expected an object")),
        }
    }
}

impl JsonDecode for GitHubCommitDetail {
    open spec fn decodable(j: Json) -> bool {
        &&& j matches Json::Obj(fs)
        &&& req_string_of(lookup_field(fs, "message"@)) is Some
        &&& (lookup_field(fs, "author"@) matches Some(fj) && GitHubCommitAuthor::decodable(fj))
        &&& (lookup_field(fs, "committer"@) matches Some(fj) && GitHubCommitAuthor::decodable(fj))
    }

    open spec fn decoded(j: Json, r: Self) -> bool {
        &&& j matches Json::Obj(fs)
        &&& req_string_of(lookup_field(fs, "message"@)) == Some(r.message@)
        &&& (lookup_field(fs, "author"@) matches Some(fj) && GitHubCommitAuthor::decoded(fj, r.author))
        &&& (lookup_field(fs, "committer"@) matches Some(fj) && GitHubCommitAuthor::decoded(fj, r.committer))
    }

    fn decode_json(v: &JsonValue) -> (r: Result<Self, String>) {
        match v {
            JsonValue::Obj(fields) => {
                proof {
                    crate::json::lemma_obj_deep(*fields);
                }
                let message = match get_string(fields, "message") {
                    Ok(x) => x,
                    Err(e) => {
                        return Err(e);
                    },
                };
                let author = match get_field(fields, "author") {
                    Some(fv) => match GitHubCommitAuthor::decode_json(fv) {
                        Ok(x) => x,
                        Err(e) => {
                            return Err(e);
                        },
                    },
                    None => {
                        return Err(String::from_str("missing field author"));
                    },
                };
                let committer = match get_field(fields, "committer") {
                    Some(fv) => match GitHubCommitAuthor::decode_json(fv) {
                        Ok(x) => x,
                        Err(e) => {
                            return Err(e);
                        },
                    },
                    None => {
                        return Err(String::from_str("missing field committer"));
                    },
                };
                Ok(GitHubCommitDetail { message, author, committer })
            },
            _ => Err(String::from_str("expected an object")),
        }
    }
}

impl JsonDecode for GitHubCommit {
    open spec fn decodable(j: Json) -> bool {
        &&& j matches Json::Obj(fs)
        &&& req_string_of(lookup_field(fs, "sha"@)) is Some
        &&& (lookup_field(fs, "commit"@) matches Some(fj) && GitHubCommitDetail::decodable(fj))
        &&& (match lookup_field(fs, "author"@) {
            None => true,
            Some(Json::Null) => true,
            Some(fj) => GitHubUser::decodable(fj),
        })
        &&& (match lookup_field(fs, "committer"@) {
            None => true,
            Some(Json::Null) => true,
            Some(fj) => GitHubUser::decodable(fj),
        })
        &&& opt_string_ok(lookup_field(fs, "html_url"@))
    }

    open spec fn decoded(j: Json, r: Self) -> bool {
        &&& j matches Json::Obj(fs)
        &&& req_string_of(lookup_field(fs, "sha"@)) == Some(r.sha@)
        &&& (lookup_field(fs, "commit"@) matches Some(fj) && GitHubCommitDetail::decoded(fj, r.commit))
        &&& (match lookup_field(fs, "author"@) {
            None => r.author is None,
            Some(Json::Null) => r.author is None,
            Some(fj) => r.author matches Some(u) && GitHubUser::decoded(fj, u),
        })
        &&& (match lookup_field(fs, "committer"@) {
            None => r.committer is None,
            Some(Json::Null) => r.committer is None,
            Some(fj) => r.committer matches Some(u) && GitHubUser::decoded(fj, u),
        })
        &&& opt_string_matches(lookup_field(fs, "html_url"@), view_opt_string(r.html_url))
    }

    fn decode_json(v: &JsonValue) -> (r: Result<Self, String>) {
        match v {
            JsonValue::Obj(fields) => {
                proof {
                    crate::json::lemma_obj_deep(*fields);
                }
                let sha = match get_string(fields, "sha") {
                    Ok(x) => x,
                    Err(e) => {
                        return Err(e);
                    },
                };
                let commit = match get_field(fields, "commit") {
                    Some(fv) => match GitHubCommitDetail::decode_json(fv) {
                        Ok(x) => x,
                        Err(e) => {
                            return Err(e);
                        },
                    },
                    None => {
                        return Err(String::from_str("missing field commit"));
                    },
                };
                let author = match get_field(fields, "author") {
                    Some(fv) => match fv {
                        JsonValue::Null => None,
                        _ => match GitHubUser::decode_json(fv) {
                            Ok(x) => Some(x),
                            Err(e) => {
                                return Err(e);
                            },
                        },
                    },
                    None => None,
                };
                let committer = match get_field(fields, "committer") {
                    Some(fv) => match fv {
                        JsonValue::Null => None,
                        _ => match GitHubUser::decode_json(fv) {
                            Ok(x) => Some(x),
                            Err(e) => {
                                return Err(e);
                            },
                        },
                    },
                    None => None,
                };
                let html_url = match get_opt_string(fields, "html_url") {
                    Ok(x) => x,
                    Err(e) => {
                        return Err(e);
                    },
                };
                Ok(GitHubCommit { sha, commit, author, committer, html_url })
            },
            _ => Err(String::from_str("expected an object")),
        }
    }
}

impl JsonDecode for GitHubRepository {
    open spec fn decodable(j: Json) -> bool {
        &&& j matches Json::Obj(fs)
        &&& req_u64_of(lookup_field(fs, "id"@)) is Some
        &&& req_string_of(lookup_field(fs, "name"@)) is Some
        &&& req_string_of(lookup_field(fs, "full_name"@)) is Some
        &&& (lookup_field(fs, "owner"@) matches Some(fj) && GitHubUser::decodable(fj))
        &&& opt_string_ok(lookup_field(fs, "description"@))
        &&& opt_string_ok(lookup_field(fs, "html_url"@))
        &&& opt_string_ok(lookup_field(fs, "clone_url"@))
        &&& opt_string_ok(lookup_field(fs, "default_branch"@))
        &&& opt_u64_ok(lookup_field(fs, "stargazers_count"@))
        &&& opt_u64_ok(lookup_field(fs, "forks_count"@))
        &&& opt_u64_ok(lookup_field(fs, "open_issues_count"@))
        &&& opt_string_ok(lookup_field(fs, "language"@))
        &&& opt_string_ok(lookup_field(fs, "created_at"@))
        &&& opt_string_ok(lookup_field(fs, "updated_at"@))
    }

    open spec fn decoded(j: Json, r: Self) -> bool {
        &&& j matches Json::Obj(fs)
        &&& req_u64_of(lookup_field(fs, "id"@)) == Some(r.id)
        &&& req_string_of(lookup_field(fs, "name"@)) == Some(r.name@)
        &&& req_string_of(lookup_field(fs, "full_name"@)) == Some(r.full_name@)
        &&& (lookup_field(fs, "owner"@) matches Some(fj) && GitHubUser::decoded(fj, r.owner))
        &&& opt_string_matches(lookup_field(fs, "description"@), view_opt_string(r.description))
        &&& opt_string_matches(lookup_field(fs, "html_url"@), view_opt_string(r.html_url))
        &&& opt_string_matches(lookup_field(fs, "clone_url"@), view_opt_string(r.clone_url))
        &&& opt_string_matches(lookup_field(fs, "default_branch"@), view_opt_string(r.default_branch))
        &&& opt_u64_matches(lookup_field(fs, "stargazers_count"@), r.stargazers_count)
        &&& opt_u64_matches(lookup_field(fs, "forks_count"@), r.forks_count)
        &&& opt_u64_matches(lookup_field(fs, "open_issues_count"@), r.open_issues_count)
        &&& opt_string_matches(lookup_field(fs, "language"@), view_opt_string(r.language))
        &&& opt_string_matches(lookup_field(fs, "created_at"@), view_opt_string(r.created_at))
        &&& opt_string_matches(lookup_field(fs, "updated_at"@), view_opt_string(r.updated_at))
    }

    fn decode_json(v: &JsonValue) -> (r: Result<Self, String>) {
        match v {
            JsonValue::Obj(fields) => {
                proof {
                    crate::json::lemma_obj_deep(*fields);
                }
                let id = match get_u64(fields, "id") {
                    Ok(x) => x,
                    Err(e) => {
                        return Err(e);
                    },
                };
                let name = match get_string(fields, "name") {
                    Ok(x) => x,
                    Err(e) => {
                        return Err(e);
                    },
                };
                let full_name = match get_string(fields, "full_name") {
                    Ok(x) => x,
                    Err(e) => {
                        return Err(e);
                    },
                };
                let owner = match get_field(fields, "owner") {
                    Some(fv) => match GitHubUser::decode_json(fv) {
                        Ok(x) => x,
                        Err(e) => {
                            return Err(e);
                        },
                    },
                    None => {
                        return Err(String::from_str("missing field owner"));
                    },
                };
                let description = match get_opt_string(fields, "description") {
                    Ok(x) => x,
                    Err(e) => {
                        return Err(e);
                    },
                };
                let html_url = match get_opt_string(fields, "html_url") {
                    Ok(x) => x,
                    Err(e) => {
                        return Err(e);
                    },
                };
                let clone_url = match get_opt_string(fields, "clone_url") {
                    Ok(x) => x,
                    Err(e) => {
                        return Err(e);
                    },
                };
                let default_branch = match get_opt_string(fields, "default_branch") {
                    Ok(x) => x,
                    Err(e) => {
                        return Err(e);
                    },
                };
                let stargazers_count = match get_opt_u64(fields, "stargazers_count") {
                    Ok(x) => x,
                    Err(e) => {
                        return Err(e);
                    },
                };
                let forks_count = match get_opt_u64(fields, "forks_count") {
                    Ok(x) => x,
                    Err(e) => {
                        return Err(e);
                    },
                };
                let open_issues_count = match get_opt_u64(fields, "open_issues_count") {
                    Ok(x) => x,
                    Err(e) => {
                        return Err(e);
                    },
                };
                let language = match get_opt_string(fields, "language") {
                    Ok(x) => x,
                    Err(e) => {
                        return Err(e);
                    },
                };
                let created_at = match get_opt_string(fields, "created_at") {
                    Ok(x) => x,
                    Err(e) => {
                        return Err(e);
                    },
                };
                let updated_at = match get_opt_string(fields, "updated_at") {
                    Ok(x) => x,
                    Err(e) => {
                        return Err(e);
                    },
                };
                Ok(GitHubRepository { id, name, full_name, owner, description, html_url, clone_url, default_branch, stargazers_count, forks_count, open_issues_count, language, created_at, updated_at })
            },
            _ => Err(String::from_str("expected an object")),
        }
    }
}

impl JsonDecode for GitHubBranchRef {
    open spec fn decodable(j: Json) -> bool {
        &&& j matches Json::Obj(fs)
        &&& req_string_of(lookup_field(fs, "ref"@)) is Some
        &&& req_string_of(lookup_field(fs, "sha"@)) is Some
        &&& (lookup_field(fs, "repo"@) matches Some(fj) && GitHubRepository::decodable(fj))
    }

    open spec fn decoded(j: Json, r: Self) -> bool {
        &&& j matches Json::Obj(fs)
        &&& req_string_of(lookup_field(fs, "ref"@)) == Some(r.ref_field@)
        &&& req_string_of(lookup_field(fs, "sha"@)) == Some(r.sha@)
        &&& (lookup_field(fs, "repo"@) matches Some(fj) && GitHubRepository::decoded(fj, r.repo))
    }

    fn decode_json(v: &JsonValue) -> (r: Result<Self, String>) {
        match v {
            JsonValue::Obj(fields) => {
                proof {
                    crate::json::lemma_obj_deep(*fields);
                }
                let ref_field = match get_string(fields, "ref") {
                    Ok(x) => x,
                    Err(e) => {
                        return Err(e);
                    },
                };
                let sha = match get_string(fields, "sha") {
                    Ok(x) => x,
                    Err(e) => {
                        return Err(e);
                    },
                };
                let repo = match get_field(fields, "repo") {
                    Some(fv) => match GitHubRepository::decode_json(fv) {
                        Ok(x) => x,
                        Err(e) => {
                            return Err(e);
                        },
                    },
                    None => {
                        return Err(String::from_str("missing field repo"));
                    },
                };
                Ok(GitHubBranchRef { ref_field, sha, repo })
            },
            _ => Err(String::from_str("expected an object")),
        }
    }
}

impl JsonDecode for GitHubPullRequest {
    open spec fn decodable(j: Json) -> bool {
        &&& j matches Json::Obj(fs)
        &&& req_u64_of(lookup_field(fs, "id"@)) is Some
        &&& req_u64_of(lookup_field(fs, "number"@)) is Some
        &&& req_string_of(lookup_field(fs, "title"@)) is Some
        &&& opt_string_ok(lookup_field(fs, "body"@))
        &&& req_string_of(lookup_field(fs, "state"@)) is Some
        &&& (lookup_field(fs, "user"@) matches Some(fj) && GitHubUser::decodable(fj))
        &&& (lookup_field(fs, "head"@) matches Some(fj) && GitHubBranchRef::decodable(fj))
        &&& (lookup_field(fs, "base"@) matches Some(fj) && GitHubBranchRef::decodable(fj))
        &&& opt_string_ok(lookup_field(fs, "html_url"@))
        &&& opt_bool_ok(lookup_field(fs, "mergeable"@))
        &&& req_bool_of(lookup_field(fs, "merged"@)) is Some
        &&& req_string_of(lookup_field(fs, "created_at"@)) is Some
        &&& req_string_of(lookup_field(fs, "updated_at"@)) is Some
    }

    open spec fn decoded(j: Json, r: Self) -> bool {
        &&& j matches Json::Obj(fs)
        &&& req_u64_of(lookup_field(fs, "id"@)) == Some(r.id)
        &&& req_u64_of(lookup_field(fs, "number"@)) == Some(r.number)
        &&& req_string_of(lookup_field(fs, "title"@)) == Some(r.title@)
        &&& opt_string_matches(lookup_field(fs, "body"@), view_opt_string(r.body))
        &&& req_string_of(lookup_field(fs, "state"@)) == Some(r.state@)
        &&& (lookup_field(fs, "user"@) matches Some(fj) && GitHubUser::decoded(fj, r.user))
        &&& (lookup_field(fs, "head"@) matches Some(fj) && GitHubBranchRef::decoded(fj, r.head))
        &&& (lookup_field(fs, "base"@) matches Some(fj) && GitHubBranchRef::decoded(fj, r.base))
        &&& opt_string_matches(lookup_field(fs, "html_url"@), view_opt_string(r.html_url))
        &&& opt_bool_matches(lookup_field(fs, "mergeable"@), r.mergeable)
        &&& req_bool_of(lookup_field(fs, "merged"@)) == Some(r.merged)
        &&& req_string_of(lookup_field(fs, "created_at"@)) == Some(r.created_at@)
        &&& req_string_of(lookup_field(fs, "updated_at"@)) == Some(r.updated_at@)
    }

    fn decode_json(v: &JsonValue) -> (r: Result<Self, String>) {
        match v {
            JsonValue::Obj(fields) => {
                proof {
                    crate::json::lemma_obj_deep(*fields);
                }
                let id = match get_u64(fields, "id") {
                    Ok(x) => x,
                    Err(e) => {
                        return Err(e);
                    },
                };
                let number = match get_u64(fields, "number") {
                    Ok(x) => x,
                    Err(e) => {
                        return Err(e);
                    },
                };
                let title = match get_string(fields, "title") {
                    Ok(x) => x,
                    Err(e) => {
                        return Err(e);
                    },
                };
                let body = match get_opt_string(fields, "body") {
                    Ok(x) => x,
                    Err(e) => {
                        return Err(e);
                    },
                };
                let state = match get_string(fields, "state") {
                    Ok(x) => x,
                    Err(e) => {
                        return Err(e);
                    },
                };
                let user = match get_field(fields, "user") {
                    Some(fv) => match GitHubUser::decode_json(fv) {
                        Ok(x) => x,
                        Err(e) => {
                            return Err(e);
                        },
                    },
                    None => {
                        return Err(String::from_str("missing field user"));
                    },
                };
                let head = match get_field(fields, "head") {
                    Some(fv) => match GitHubBranchRef::decode_json(fv) {
                        Ok(x) => x,
                        Err(e) => {
                            return Err(e);
                        },
                    },
                    None => {
                        return Err(String::from_str("missing field head"));
                    },
                };
                let base = match get_field(fields, "base") {
                    Some(fv) => match GitHubBranchRef::decode_json(fv) {
                        Ok(x) => x,
                        Err(e) => {
                            return Err(e);
                        },
                    },
                    None => {
                        return Err(String::from_str("missing field base"));
                    },
                };
                let html_url = match get_opt_string(fields, "html_url") {
                    Ok(x) => x,
                    Err(e) => {
                        return Err(e);
                    },
                };
                let mergeable = match get_opt_bool(fields, "mergeable") {
                    Ok(x) => x,
                    Err(e) => {
                        return Err(e);
                    },
                };
                let merged = match get_bool(fields, "merged") {
                    Ok(x) => x,
                    Err(e) => {
                        return Err(e);
                    },
                };
                let created_at = match get_string(fields, "created_at") {
                    Ok(x) => x,
                    Err(e) => {
                        return Err(e);
                    },
                };
                let updated_at = match get_string(fields, "updated_at") {
                    Ok(x) => x,
                    Err(e) => {
                        return Err(e);
                    },
                };
                Ok(GitHubPullRequest { id, number, title, body, state, user, head, base, html_url, mergeable, merged, created_at, updated_at })
            },
            _ => Err(String::from_str("expected an object")),
        }
    }
}

impl JsonDecode for GitHubReview {
    open spec fn decodable(j: Json) -> bool {
        &&& j matches Json::Obj(fs)
        &&& req_u64_of(lookup_field(fs, "id"@)) is Some
        &&& (lookup_field(fs, "user"@) matches Some(fj) && GitHubUser::decodable(fj))
        &&& opt_string_ok(lookup_field(fs, "body"@))
        &&& req_string_of(lookup_field(fs, "state"@)) is Some
        &&& opt_string_ok(lookup_field(fs, "html_url"@))
        &&& opt_string_ok(lookup_field(fs, "submitted_at"@))
    }

    open spec fn decoded(j: Json, r: Self) -> bool {
        &&& j matches Json::Obj(fs)
        &&& req_u64_of(lookup_field(fs, "id"@)) == Some(r.id)
        &&& (lookup_field(fs, "user"@) matches Some(fj) && GitHubUser::decoded(fj, r.user))
        &&& opt_string_matches(lookup_field(fs, "body"@), view_opt_string(r.body))
        &&& req_string_of(lookup_field(fs, "state"@)) == Some(r.state@)
        &&& opt_string_matches(lookup_field(fs, "html_url"@), view_opt_string(r.html_url))
        &&& opt_string_matches(lookup_field(fs, "submitted_at"@), view_opt_string(r.submitted_at))
    }

    fn decode_json(v: &JsonValue) -> (r: Result<Self, String>) {
        match v {
            JsonValue::Obj(fields) => {
                proof {
                    crate::json::lemma_obj_deep(*fields);
                }
                let id = match get_u64(fields, "id") {
                    Ok(x) => x,
                    Err(e) => {
                        return Err(e);
                    },
                };
                let user = match get_field(fields, "user") {
                    Some(fv) => match GitHubUser::decode_json(fv) {
                        Ok(x) => x,
                        Err(e) => {
                            return Err(e);
                        },
                    },
                    None => {
                        return Err(String::from_str("missing field user"));
                    },
                };
                let body = match get_opt_string(fields, "body") {
                    Ok(x) => x,
                    Err(e) => {
                        return Err(e);
                    },
                };
                let state = match get_string(fields, "state") {
                    Ok(x) => x,
                    Err(e) => {
                        return Err(e);
                    },
                };
                let html_url = match get_opt_string(fields, "html_url") {
                    Ok(x) => x,
                    Err(e) => {
                        return Err(e);
                    },
                };
                let submitted_at = match get_opt_string(fields, "submitted_at") {
                    Ok(x) => x,
                    Err(e) => {
                        return Err(e);
                    },
                };
                Ok(GitHubReview { id, user, body, state, html_url, submitted_at })
            },
            _ => Err(String::from_str("expected an object")),
        }
    }
}

impl JsonDecode for GitHubCodeResult {
    open spec fn decodable(j: Json) -> bool {
        &&& j matches Json::Obj(fs)
        &&& req_string_of(lookup_field(fs, "name"@)) is Some
        &&& req_string_of(lookup_field(fs, "path"@)) is Some
        &&& req_string_of(lookup_field(fs, "sha"@)) is Some
        &&& opt_string_ok(lookup_field(fs, "html_url"@))
        &&& (lookup_field(fs, "repository"@) matches Some(fj) && GitHubRepository::decodable(fj))
    }

    open spec fn decoded(j: Json, r: Self) -> bool {
        &&& j matches Json::Obj(fs)
        &&& req_string_of(lookup_field(fs, "name"@)) == Some(r.name@)
        &&& req_string_of(lookup_field(fs, "path"@)) == Some(r.path@)
        &&& req_string_of(lookup_field(fs, "sha"@)) == Some(r.sha@)
        &&& opt_string_matches(lookup_field(fs, "html_url"@), view_opt_string(r.html_url))
        &&& (lookup_field(fs, "repository"@) matches Some(fj) && GitHubRepository::decoded(fj, r.repository))
    }

    fn decode_json(v: &JsonValue) -> (r: Result<Self, String>) {
        match v {
            JsonValue::Obj(fields) => {
                proof {
                    crate::json::lemma_obj_deep(*fields);
                }
                let name = match get_string(fields, "name") {
                    Ok(x) => x,
                    Err(e) => {
                        return Err(e);
                    },
                };
                let path = match get_string(fields, "path") {
                    Ok(x) => x,
                    Err(e) => {
                        return Err(e);
                    },
                };
                let sha = match get_string(fields, "sha") {
                    Ok(x) => x,
                    Err(e) => {
                        return Err(e);
                    },
                };
                let html_url = match get_opt_string(fields, "html_url") {
                    Ok(x) => x,
                    Err(e) => {
                        return Err(e);
                    },
                };
                let repository = match get_field(fields, "repository") {
                    Some(fv) => match GitHubRepository::decode_json(fv) {
                        Ok(x) => x,
                        Err(e) => {
                            return Err(e);
                        },
                    },
                    None => {
                        return Err(String::from_str("missing field repository"));
                    },
                };
                Ok(GitHubCodeResult { name, path, sha, html_url, repository })
            },
            _ => Err(String::from_str("expected an object")),
        }
    }
}

impl<T: JsonDecode> JsonDecode for GitHubSearchResults<T> {
    open spec fn decodable(j: Json) -> bool {
        &&& j matches Json::Obj(fs)
        &&& req_u64_of(lookup_field(fs, "total_count"@)) is Some
        &&& req_bool_of(lookup_field(fs, "incomplete_results"@)) is Some
        &&& (lookup_field(fs, "items"@) matches Some(fj) && vec_decodable::<T>(fj))
    }

    open spec fn decoded(j: Json, r: Self) -> bool {
        &&& j matches Json::Obj(fs)
        &&& req_u64_of(lookup_field(fs, "total_count"@)) == Some(r.total_count)
        &&& req_bool_of(lookup_field(fs, "incomplete_results"@)) == Some(r.incomplete_results)
        &&& (lookup_field(fs, "items"@) matches Some(fj) && vec_decoded::<T>(fj, r.items@))
    }

    fn decode_json(v: &JsonValue) -> (r: Result<Self, String>) {
        match v {
            JsonValue::Obj(fields) => {
                proof {
                    crate::json::lemma_obj_deep(*fields);
                }
                let total_count = match get_u64(fields, "total_count") {
                    Ok(x) => x,
                    Err(e) => {
                        return Err(e);
                    },
                };
                let incomplete_results = match get_bool(fields, "incomplete_results") {
                    Ok(x) => x,
                    Err(e) => {
                        return Err(e);
                    },
                };
                let items = match get_field(fields, "items") {
                    Some(fv) => match decode_vec::<T>(fv) {
                        Ok(x) => x,
                        Err(e) => {
                            return Err(e);
                        },
                    },
                    None => {
                        return Err(String::from_str("missing field items"));
                    },
                };
                Ok(GitHubSearchResults { total_count, incomplete_results, items })
            },
            _ => Err(String::from_str("expected an object")),
        }
    }
}

/// Typed decoding is a function of the payload alone: two session-start
/// records decoded from the same payload value carry the same session id.
pub proof fn lemma_start_search_decode_deterministic(
    j: Json,
    a: StartSearchResponse,
    b: StartSearchResponse,
)
    requires
        StartSearchResponse::decoded(j, a),
        StartSearchResponse::decoded(j, b),
    ensures
        a.session_id@ == b.session_id@,
{
}

/// Typed decoding is a function of the payload alone: two crawl-start
/// records decoded from the same payload value carry the same crawl id.
pub proof fn lemma_start_crawl_decode_deterministic(
    j: Json,
    a: StartCrawlResponse,
    b: StartCrawlResponse,
)
    requires
        StartCrawlResponse::decoded(j, a),
        StartCrawlResponse::decoded(j, b),
    ensures
        a.crawl_id@ == b.crawl_id@,
{
}

/// Typed decoding is a function of the payload alone: two agent-spawn
/// records decoded from the same payload value agree on every field.
pub proof fn lemma_spawn_decode_deterministic(
    j: Json,
    a: SpawnClaudeAgentResponse,
    b: SpawnClaudeAgentResponse,
)
    requires
        SpawnClaudeAgentResponse::decoded(j, a),
        SpawnClaudeAgentResponse::decoded(j, b),
    ensures
        a.worker_count == b.worker_count,
        a.session_ids@.len() == b.session_ids@.len(),
        forall|k: int|
            0 <= k < a.session_ids@.len() ==> #[trigger] a.session_ids@[k]@
                == b.session_ids@[k]@,
        items_deep(a.agents@) == items_deep(b.agents@),
{
    assert forall|k: int|
        0 <= k < a.session_ids@.len() implies #[trigger] a.session_ids@[k]@
        == b.session_ids@[k]@ by {
        if let Json::Obj(fs) = j {
            if let Some(sj) = lookup_field(fs, "session_ids"@) {
                if let Json::Arr(items) = sj {
                    assert(a.session_ids@[k]@ == string_views(items)[k]);
                    assert(b.session_ids@[k]@ == string_views(items)[k]);
                }
            }
        }
    }
}

} // verus!
