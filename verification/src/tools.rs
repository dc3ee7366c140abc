//! Tool name constants for every remote tool the peer serves.

use vstd::prelude::*;

verus! {

// Filesystem tools
pub const READ_FILE: &'static str = "fs_read_file";

pub const READ_MULTIPLE_FILES: &'static str = "fs_read_multiple_files";

pub const WRITE_FILE: &'static str = "fs_write_file";

pub const MOVE_FILE: &'static str = "fs_move_file";

pub const DELETE_FILE: &'static str = "fs_delete_file";

pub const DELETE_DIRECTORY: &'static str = "fs_delete_directory";

pub const LIST_DIRECTORY: &'static str = "fs_list_directory";

pub const CREATE_DIRECTORY: &'static str = "fs_create_directory";

pub const GET_FILE_INFO: &'static str = "fs_get_file_info";

pub const EDIT_BLOCK: &'static str = "fs_edit_block";

pub const START_SEARCH: &'static str = "fs_start_search";

pub const GET_SEARCH_RESULTS: &'static str = "fs_get_search_results";

pub const STOP_SEARCH: &'static str = "fs_stop_search";

pub const LIST_SEARCHES: &'static str = "fs_list_searches";

// Terminal tools
pub const START_TERMINAL_COMMAND: &'static str = "start_terminal_command";

pub const READ_TERMINAL_OUTPUT: &'static str = "read_terminal_output";

pub const SEND_TERMINAL_INPUT: &'static str = "send_terminal_input";

pub const STOP_TERMINAL_COMMAND: &'static str = "stop_terminal_command";

pub const LIST_TERMINAL_COMMANDS: &'static str = "list_terminal_commands";

// Process tools
pub const PROCESS_LIST: &'static str = "process_list";

pub const PROCESS_KILL: &'static str = "process_kill";

// Introspection tools
pub const INSPECT_USAGE_STATS: &'static str = "inspect_usage_stats";

pub const INSPECT_TOOL_CALLS: &'static str = "inspect_tool_calls";

// Prompt tools
pub const ADD_PROMPT: &'static str = "prompt_add";

pub const EDIT_PROMPT: &'static str = "prompt_edit";

pub const DELETE_PROMPT: &'static str = "prompt_delete";

pub const GET_PROMPT: &'static str = "prompt_get";

// Sequential thinking
pub const SEQUENTIAL_THINKING: &'static str = "sequential_thinking";

// Agent tools
pub const SPAWN_CLAUDE_AGENT: &'static str = "claude_spawn_agent";

pub const READ_CLAUDE_AGENT_OUTPUT: &'static str = "claude_read_agent_output";

pub const SEND_CLAUDE_AGENT_PROMPT: &'static str = "claude_send_agent_prompt";

pub const TERMINATE_CLAUDE_AGENT_SESSION: &'static str = "claude_terminate_agent_session";

pub const LIST_CLAUDE_AGENTS: &'static str = "claude_list_agents";

// Crawl and search tools
pub const START_CRAWL: &'static str = "scrape_url";

pub const GET_CRAWL_RESULTS: &'static str = "scrape_check_results";

pub const SEARCH_CRAWL_RESULTS: &'static str = "scrape_search_results";

pub const WEB_SEARCH: &'static str = "web_search";

// Git tools
pub const GIT_INIT: &'static str = "git_init";

pub const GIT_OPEN: &'static str = "git_open";

pub const GIT_CLONE: &'static str = "git_clone";

pub const GIT_DISCOVER: &'static str = "git_discover";

pub const GIT_BRANCH_CREATE: &'static str = "git_branch_create";

pub const GIT_BRANCH_DELETE: &'static str = "git_branch_delete";

pub const GIT_BRANCH_LIST: &'static str = "git_branch_list";

pub const GIT_BRANCH_RENAME: &'static str = "git_branch_rename";

pub const GIT_COMMIT: &'static str = "git_commit";

pub const GIT_LOG: &'static str = "git_log";

pub const GIT_ADD: &'static str = "git_add";

pub const GIT_CHECKOUT: &'static str = "git_checkout";

pub const GIT_FETCH: &'static str = "git_fetch";

pub const GIT_MERGE: &'static str = "git_merge";

pub const GIT_WORKTREE_ADD: &'static str = "git_worktree_add";

pub const GIT_WORKTREE_REMOVE: &'static str = "git_worktree_remove";

pub const GIT_WORKTREE_LIST: &'static str = "git_worktree_list";

pub const GIT_WORKTREE_LOCK: &'static str = "git_worktree_lock";

pub const GIT_WORKTREE_UNLOCK: &'static str = "git_worktree_unlock";

pub const GIT_WORKTREE_PRUNE: &'static str = "git_worktree_prune";

// GitHub tools
pub const CREATE_ISSUE: &'static str = "create_issue";

pub const GET_ISSUE: &'static str = "get_issue";

pub const LIST_ISSUES: &'static str = "list_issues";

pub const UPDATE_ISSUE: &'static str = "update_issue";

pub const SEARCH_ISSUES: &'static str = "search_issues";

pub const ADD_ISSUE_COMMENT: &'static str = "add_issue_comment";

pub const GET_ISSUE_COMMENTS: &'static str = "get_issue_comments";

pub const CREATE_PULL_REQUEST: &'static str = "create_pull_request";

pub const UPDATE_PULL_REQUEST: &'static str = "update_pull_request";

pub const MERGE_PULL_REQUEST: &'static str = "merge_pull_request";

pub const GET_PULL_REQUEST_STATUS: &'static str = "get_pull_request_status";

pub const GET_PULL_REQUEST_FILES: &'static str = "get_pull_request_files";

pub const GET_PULL_REQUEST_REVIEWS: &'static str = "get_pull_request_reviews";

pub const CREATE_PULL_REQUEST_REVIEW: &'static str = "create_pull_request_review";

pub const ADD_PULL_REQUEST_REVIEW_COMMENT: &'static str = "add_pull_request_review_comment";

pub const REQUEST_COPILOT_REVIEW: &'static str = "request_copilot_review";

pub const CREATE_REPOSITORY: &'static str = "create_repository";

pub const FORK_REPOSITORY: &'static str = "fork_repository";

pub const LIST_BRANCHES: &'static str = "list_branches";

pub const CREATE_BRANCH: &'static str = "create_branch";

pub const LIST_COMMITS: &'static str = "list_commits";

pub const GET_COMMIT: &'static str = "get_commit";

pub const SEARCH_CODE: &'static str = "search_code";

pub const SEARCH_REPOSITORIES: &'static str = "search_repositories";

pub const SEARCH_USERS: &'static str = "search_users";

// Config tools
pub const GET_CONFIG: &'static str = "get_config";

pub const SET_CONFIG_VALUE: &'static str = "set_config_value";

// Database tools
pub const LIST_SCHEMAS: &'static str = "list_schemas";

pub const LIST_TABLES: &'static str = "list_tables";

pub const GET_TABLE_SCHEMA: &'static str = "get_table_schema";

pub const GET_TABLE_INDEXES: &'static str = "get_table_indexes";

pub const GET_STORED_PROCEDURES: &'static str = "get_stored_procedures";

pub const EXECUTE_SQL: &'static str = "execute_sql";

pub const GET_POOL_STATS: &'static str = "get_pool_stats";

} // verus!
