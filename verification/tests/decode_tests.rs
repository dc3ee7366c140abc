// Scenario tests for the typed-decoding and validation framework.
use kodegen_mcp_client::responses::{
    GetPromptResponse, GitHubCommentsResponse, GitHubCommit, GitHubIssuesResponse,
    GitHubRepository, GitHubSearchResults, GitHubUser, ParameterDefinition,
    SpawnClaudeAgentResponse, StartCrawlResponse, StartSearchResponse,
    StartTerminalCommandResponse,
};
use kodegen_mcp_client::validation::{JsonDecode, Validate};
use kodegen_mcp_client::{parse_json, JsonValue};

fn parsed(text: &str) -> JsonValue {
    parse_json(text).expect("payload text should parse")
}

#[test]
fn test_empty_session_id_rejected() {
    let v = parsed(r#"{"session_id": ""}"#);
    let r = StartSearchResponse::decode_json(&v);
    assert!(r.is_err());
    assert_eq!(r.unwrap_err(), "string cannot be empty");
}

#[test]
fn test_valid_session_id_accepted() {
    let v = parsed(r#"{"session_id": "valid-id-123"}"#);
    let r = StartSearchResponse::decode_json(&v).expect("valid session id should decode");
    assert_eq!(r.session_id, "valid-id-123");
}

#[test]
fn test_session_id_alias_accepted() {
    let v = parsed(r#"{"sessionId": "alias-id"}"#);
    let r = StartSearchResponse::decode_json(&v).expect("aliased session id should decode");
    assert_eq!(r.session_id, "alias-id");
}

#[test]
fn test_missing_session_id_rejected() {
    let v = parsed(r#"{"other": "x"}"#);
    assert!(StartSearchResponse::decode_json(&v).is_err());
}

#[test]
fn test_crawl_id_accepted() {
    let v = parsed(r#"{"crawl_id": "c-1"}"#);
    let r = StartCrawlResponse::decode_json(&v).expect("valid crawl id should decode");
    assert_eq!(r.crawl_id, "c-1");
}

#[test]
fn test_negative_pid_rejected() {
    let v = parsed(r#"{"pid": -1}"#);
    let r = StartTerminalCommandResponse::decode_json(&v);
    assert!(r.is_err());
    assert_eq!(r.unwrap_err(), "expected positive number, got -1");
}

#[test]
fn test_zero_pid_rejected() {
    let v = parsed(r#"{"pid": 0}"#);
    let r = StartTerminalCommandResponse::decode_json(&v);
    assert!(r.is_err());
    assert_eq!(r.unwrap_err(), "expected positive number, got 0");
}

#[test]
fn test_valid_pid_accepted() {
    let v = parsed(r#"{"pid": 12345}"#);
    let r = StartTerminalCommandResponse::decode_json(&v).expect("valid pid should decode");
    assert_eq!(r.pid, 12345);
    assert!(r.status.is_none());
}

#[test]
fn test_pid_with_status() {
    let v = parsed(r#"{"pid": 7, "status": "running"}"#);
    let r = StartTerminalCommandResponse::decode_json(&v).expect("should decode");
    assert_eq!(r.pid, 7);
    assert_eq!(r.status.as_deref(), Some("running"));
}

#[test]
fn test_zero_github_user_id_rejected() {
    let v = parsed(r#"{"id": 0, "login": "user"}"#);
    let r = GitHubUser::decode_json(&v);
    assert!(r.is_err());
    assert_eq!(r.unwrap_err(), "expected positive non-zero number");
}

#[test]
fn test_empty_github_login_rejected() {
    let v = parsed(r#"{"id": 123, "login": ""}"#);
    assert!(GitHubUser::decode_json(&v).is_err());
}

#[test]
fn test_valid_github_user_accepted() {
    let v = parsed(r#"{"id": 123, "login": "user", "name": "A User"}"#);
    let r = GitHubUser::decode_json(&v).expect("valid user should decode");
    assert_eq!(r.id, 123);
    assert_eq!(r.login, "user");
    assert_eq!(r.name.as_deref(), Some("A User"));
    assert!(r.email.is_none());
}

#[test]
fn test_empty_string_in_session_ids_rejected() {
    let v = parsed(r#"{"session_ids": ["valid-id", "", "another-id"], "worker_count": 3}"#);
    let r = SpawnClaudeAgentResponse::decode_json(&v);
    assert!(r.is_err());
    assert_eq!(r.unwrap_err(), "string at index 1 cannot be empty");
}

#[test]
fn test_cross_field_mismatch_fails_validation() {
    let v = parsed(r#"{"count": 5, "issues": []}"#);
    let r = GitHubIssuesResponse::decode_json(&v).expect("structure should decode");
    assert_eq!(r.count, 5);
    assert_eq!(r.issues.len(), 0);
    let check = r.validate();
    assert!(check.is_err());
    assert_eq!(
        check.unwrap_err(),
        "count field value (5) does not match actual length (0)"
    );
}

#[test]
fn test_matching_cross_field_passes_validation() {
    let v = parsed(r#"{"session_ids": ["id1", "id2"], "worker_count": 2}"#);
    let r = SpawnClaudeAgentResponse::decode_json(&v).expect("structure should decode");
    assert_eq!(r.session_ids, vec!["id1".to_string(), "id2".to_string()]);
    assert_eq!(r.worker_count, 2);
    assert!(r.validate().is_ok());
}

#[test]
fn test_mismatched_worker_count_fails_validation() {
    let v = parsed(r#"{"session_ids": ["id1", "id2"], "worker_count": 5}"#);
    let r = SpawnClaudeAgentResponse::decode_json(&v).expect("structure should decode");
    let check = r.validate();
    assert!(check.is_err());
    assert_eq!(
        check.unwrap_err(),
        "worker_count field value (5) does not match actual length (2)"
    );
}

#[test]
fn test_comments_count_mismatch_fails_validation() {
    let v = parsed(r#"{"count": 2, "comments": []}"#);
    let r = GitHubCommentsResponse::decode_json(&v).expect("structure should decode");
    assert!(r.validate().is_err());
}

#[test]
fn test_issue_list_with_full_issue() {
    let text = r#"{"count": 1, "issues": [{
        "id": 10, "number": 4, "title": "A bug", "state": "open",
        "user": {"id": 9, "login": "reporter"},
        "labels": [{"id": 1, "name": "bug", "color": "ff0000"}],
        "created_at": "2024-01-01", "updated_at": "2024-01-02"
    }]}"#;
    let v = parsed(text);
    let r = GitHubIssuesResponse::decode_json(&v).expect("issue list should decode");
    assert!(r.validate().is_ok());
    let issue = &r.issues[0];
    assert_eq!(issue.title, "A bug");
    assert_eq!(issue.user.login, "reporter");
    assert_eq!(issue.labels[0].name, "bug");
    assert!(issue.body.is_none());
    assert_eq!(issue.assignees.len(), 0);
}

#[test]
fn test_decoding_is_idempotent() {
    let text = r#"{"session_ids": ["a", "b"], "worker_count": 2, "agents": [{"x": 1}]}"#;
    let v1 = parsed(text);
    let v2 = parsed(text);
    let r1 = SpawnClaudeAgentResponse::decode_json(&v1).expect("should decode");
    let r2 = SpawnClaudeAgentResponse::decode_json(&v2).expect("should decode");
    assert_eq!(r1.session_ids, r2.session_ids);
    assert_eq!(r1.worker_count, r2.worker_count);
    assert_eq!(r1.agents.len(), r2.agents.len());
}

#[test]
fn test_prompt_response_decodes() {
    let text = r#"{
        "name": "greet",
        "metadata": {
            "title": "Greeting", "description": "Say hello",
            "categories": ["misc"], "author": "someone",
            "parameters": [{"name": "who", "description": "target"}]
        },
        "content": "Hello, {{who}}!",
        "rendered": false
    }"#;
    let v = parsed(text);
    let r = GetPromptResponse::decode_json(&v).expect("prompt should decode");
    assert_eq!(r.name, "greet");
    assert_eq!(r.metadata.categories, vec!["misc".to_string()]);
    assert_eq!(r.metadata.parameters.len(), 1);
    // `required` defaults to false when the field is absent.
    assert!(!r.metadata.parameters[0].required);
    assert!(!r.rendered);
}

#[test]
fn test_parameter_required_must_be_boolean() {
    let v = parsed(r#"{"name": "who", "description": "target", "required": "yes"}"#);
    assert!(ParameterDefinition::decode_json(&v).is_err());
}

#[test]
fn test_repository_search_results_decode() {
    let text = r#"{
        "total_count": 1, "incomplete_results": false,
        "items": [{
            "id": 5, "name": "repo", "full_name": "owner/repo",
            "owner": {"id": 8, "login": "owner"},
            "stargazers_count": 42, "language": null
        }]
    }"#;
    let v = parsed(text);
    let r: GitHubSearchResults<GitHubRepository> =
        GitHubSearchResults::decode_json(&v).expect("search results should decode");
    assert_eq!(r.total_count, 1);
    assert!(!r.incomplete_results);
    assert_eq!(r.items[0].full_name, "owner/repo");
    assert_eq!(r.items[0].owner.login, "owner");
    assert_eq!(r.items[0].stargazers_count, Some(42));
    assert!(r.items[0].language.is_none());
    assert!(r.items[0].forks_count.is_none());
}

#[test]
fn test_commit_with_absent_optional_users() {
    let text = r#"{
        "sha": "abc123",
        "commit": {
            "message": "fix",
            "author": {"name": "a", "email": "a@example.com", "date": "2024-01-01"},
            "committer": {"name": "b", "email": "b@example.com", "date": "2024-01-01"}
        },
        "html_url": null
    }"#;
    let v = parsed(text);
    let r = GitHubCommit::decode_json(&v).expect("commit should decode");
    assert_eq!(r.sha, "abc123");
    assert_eq!(r.commit.author.name, "a");
    assert!(r.author.is_none());
    assert!(r.committer.is_none());
    assert!(r.html_url.is_none());
}

#[test]
fn test_malformed_text_fails_parse() {
    assert!(parse_json("{not json").is_err());
    assert!(parse_json("").is_err());
}

#[test]
fn test_worker_count_out_of_range_rejected() {
    // 4294967296 is one past the largest 32-bit worker count.
    let v = parsed(r#"{"session_ids": [], "worker_count": 4294967296}"#);
    assert!(SpawnClaudeAgentResponse::decode_json(&v).is_err());
}

#[test]
fn test_empty_spawn_response_valid() {
    let v = parsed(r#"{"session_ids": [], "worker_count": 0}"#);
    let r = SpawnClaudeAgentResponse::decode_json(&v).expect("should decode");
    assert!(r.validate().is_ok());
    assert!(r.agents.is_empty());
}

#[test]
fn test_comment_record_fields_preserved() {
    let text = r#"{"count": 1, "comments": [{
        "id": 77, "body": "looks good",
        "user": {"id": 3, "login": "rev", "html_url": null},
        "html_url": "https://example.invalid/c/77",
        "created_at": "2024-02-01", "updated_at": "2024-02-01"
    }]}"#;
    let v = parsed(text);
    let r = GitHubCommentsResponse::decode_json(&v).expect("comment list should decode");
    assert!(r.validate().is_ok());
    let c = &r.comments[0];
    assert_eq!(c.id, 77);
    assert_eq!(c.body, "looks good");
    assert_eq!(c.user.login, "rev");
    assert!(c.user.html_url.is_none());
    assert_eq!(c.html_url.as_deref(), Some("https://example.invalid/c/77"));
}

#[test]
fn test_float_count_rejected() {
    // A fractional number is not an unsigned integer, so a checked count
    // field refuses it.
    let v = parsed(r#"{"count": 1.5, "issues": []}"#);
    assert!(GitHubIssuesResponse::decode_json(&v).is_err());
}
