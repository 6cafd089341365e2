//! The caller-side dispatcher.
//!
//! One function per catalog entry.  Each builds the typed request, reads the
//! mode once, and then either forwards the encoded request over the
//! transport and decodes the reply, or calls the local handler — never both.
//! A transport failure is the call's failure: there is no silent fallback to
//! local execution, which would run a side-effecting operation a second time
//! in the wrong context.

use vstd::prelude::*;

use crate::catalog::{
    METHOD_CHECKOUT_GITHUB_PULL_REQUEST, METHOD_CHECKOUT_GIT_BRANCH, METHOD_COMMIT_GIT,
    METHOD_CREATE_GITHUB_REPO, METHOD_CREATE_GIT_BRANCH, METHOD_FETCH_GIT, METHOD_GET_GITHUB_ISSUES,
    METHOD_GET_GITHUB_PULL_REQUESTS, METHOD_GET_GITHUB_PULL_REQUEST_COMMENTS,
    METHOD_GET_GITHUB_PULL_REQUEST_DIFF, METHOD_GET_GIT_COMMIT_DIFF, METHOD_GET_GIT_DIFFS,
    METHOD_GET_GIT_LOG, METHOD_GET_GIT_REMOTE, METHOD_GET_GIT_STATUS, METHOD_INIT_GIT_REPO,
    METHOD_LIST_GIT_BRANCHES, METHOD_LIST_GIT_ROOTS, METHOD_PULL_GIT, METHOD_PUSH_GIT,
    METHOD_REVERT_GIT_ALL, METHOD_REVERT_GIT_FILE, METHOD_STAGE_GIT_ALL, METHOD_STAGE_GIT_FILE,
    METHOD_SYNC_GIT, METHOD_UNSTAGE_GIT_FILE,
};
use crate::daemon::GitHandler;
use crate::envelope::{client_decode_maybe_text, client_decode_roots, client_decode_unit};
use crate::requests::{
    CreateGitHubRepoRequest, GetGitLogRequest, GitHubPullRequestRequest, InitGitRepoRequest,
    ListGitRootsRequest, WorkspaceIdRequest, WorkspaceMessageRequest, WorkspaceNameRequest,
    WorkspacePathRequest, WorkspaceShaRequest,
};
use crate::value::WireValue;

verus! {

/// The transport used to reach a remote daemon: delivers a method name and a
/// parameter value, and returns the daemon's reply or a transport failure.
pub trait RemoteTransport {
    fn call_remote(&mut self, method: &str, params: WireValue) -> Result<WireValue, String>;
}

/// Whether the mode configuration selects remote execution.  An unset mode
/// counts as local.
pub open spec fn remote_active(mode: Option<bool>) -> bool {
    mode == Some(true)
}

/// Reads the mode configuration, as `remote_active` describes.
pub fn remote_mode_on(mode: Option<bool>) -> (r: bool)
    ensures
        r == remote_active(mode),
{
    match mode {
        Some(b) => b,
        None => false,
    }
}

/// Fetches the git status of a workspace.
pub fn get_git_status<T: RemoteTransport, H: GitHandler>(
    transport: &mut T,
    local: &mut H,
    mode: Option<bool>,
    workspace_id: String,
) -> (r: Result<WireValue, String>)
    ensures
        remote_active(mode) ==> *final(local) == *old(local),
        !remote_active(mode) ==> *final(transport) == *old(transport),
{
    let request = WorkspaceIdRequest { workspace_id };
    if remote_mode_on(mode) {
        let params = request.to_params();
        transport.call_remote(METHOD_GET_GIT_STATUS, params)
    } else {
        local.get_git_status(request.workspace_id)
    }
}

/// Initialises a git repository; a missing `force` defaults to off locally and travels as absent when forwarded.
pub fn init_git_repo<T: RemoteTransport, H: GitHandler>(
    transport: &mut T,
    local: &mut H,
    mode: Option<bool>,
    workspace_id: String,
    branch: String,
    force: Option<bool>,
) -> (r: Result<WireValue, String>)
    ensures
        remote_active(mode) ==> *final(local) == *old(local),
        !remote_active(mode) ==> *final(transport) == *old(transport),
{
    let request = InitGitRepoRequest { workspace_id, branch, force };
    if remote_mode_on(mode) {
        let params = request.to_params();
        transport.call_remote(METHOD_INIT_GIT_REPO, params)
    } else {
        local.init_git_repo(request.workspace_id, request.branch, match request.force { Some(b) => b, None => false })
    }
}

/// Creates a repository on the code host.
pub fn create_github_repo<T: RemoteTransport, H: GitHandler>(
    transport: &mut T,
    local: &mut H,
    mode: Option<bool>,
    workspace_id: String,
    repo: String,
    visibility: String,
    branch: Option<String>,
) -> (r: Result<WireValue, String>)
    ensures
        remote_active(mode) ==> *final(local) == *old(local),
        !remote_active(mode) ==> *final(transport) == *old(transport),
{
    let request = CreateGitHubRepoRequest { workspace_id, repo, visibility, branch };
    if remote_mode_on(mode) {
        let params = request.to_params();
        transport.call_remote(METHOD_CREATE_GITHUB_REPO, params)
    } else {
        local.create_github_repo(request.workspace_id, request.repo, request.visibility, request.branch)
    }
}

/// Stages one file.
pub fn stage_git_file<T: RemoteTransport, H: GitHandler>(
    transport: &mut T,
    local: &mut H,
    mode: Option<bool>,
    workspace_id: String,
    path: String,
) -> (r: Result<(), String>)
    ensures
        remote_active(mode) ==> *final(local) == *old(local),
        !remote_active(mode) ==> *final(transport) == *old(transport),
{
    let request = WorkspacePathRequest { workspace_id, path };
    if remote_mode_on(mode) {
        let params = request.to_params();
        client_decode_unit(transport.call_remote(METHOD_STAGE_GIT_FILE, params))
    } else {
        local.stage_git_file(request.workspace_id, request.path)
    }
}

/// Stages every change.
pub fn stage_git_all<T: RemoteTransport, H: GitHandler>(
    transport: &mut T,
    local: &mut H,
    mode: Option<bool>,
    workspace_id: String,
) -> (r: Result<(), String>)
    ensures
        remote_active(mode) ==> *final(local) == *old(local),
        !remote_active(mode) ==> *final(transport) == *old(transport),
{
    let request = WorkspaceIdRequest { workspace_id };
    if remote_mode_on(mode) {
        let params = request.to_params();
        client_decode_unit(transport.call_remote(METHOD_STAGE_GIT_ALL, params))
    } else {
        local.stage_git_all(request.workspace_id)
    }
}

/// Unstages one file.
pub fn unstage_git_file<T: RemoteTransport, H: GitHandler>(
    transport: &mut T,
    local: &mut H,
    mode: Option<bool>,
    workspace_id: String,
    path: String,
) -> (r: Result<(), String>)
    ensures
        remote_active(mode) ==> *final(local) == *old(local),
        !remote_active(mode) ==> *final(transport) == *old(transport),
{
    let request = WorkspacePathRequest { workspace_id, path };
    if remote_mode_on(mode) {
        let params = request.to_params();
        client_decode_unit(transport.call_remote(METHOD_UNSTAGE_GIT_FILE, params))
    } else {
        local.unstage_git_file(request.workspace_id, request.path)
    }
}

/// Reverts one file.
pub fn revert_git_file<T: RemoteTransport, H: GitHandler>(
    transport: &mut T,
    local: &mut H,
    mode: Option<bool>,
    workspace_id: String,
    path: String,
) -> (r: Result<(), String>)
    ensures
        remote_active(mode) ==> *final(local) == *old(local),
        !remote_active(mode) ==> *final(transport) == *old(transport),
{
    let request = WorkspacePathRequest { workspace_id, path };
    if remote_mode_on(mode) {
        let params = request.to_params();
        client_decode_unit(transport.call_remote(METHOD_REVERT_GIT_FILE, params))
    } else {
        local.revert_git_file(request.workspace_id, request.path)
    }
}

/// Reverts every change.
pub fn revert_git_all<T: RemoteTransport, H: GitHandler>(
    transport: &mut T,
    local: &mut H,
    mode: Option<bool>,
    workspace_id: String,
) -> (r: Result<(), String>)
    ensures
        remote_active(mode) ==> *final(local) == *old(local),
        !remote_active(mode) ==> *final(transport) == *old(transport),
{
    let request = WorkspaceIdRequest { workspace_id };
    if remote_mode_on(mode) {
        let params = request.to_params();
        client_decode_unit(transport.call_remote(METHOD_REVERT_GIT_ALL, params))
    } else {
        local.revert_git_all(request.workspace_id)
    }
}

/// Commits the staged changes.
pub fn commit_git<T: RemoteTransport, H: GitHandler>(
    transport: &mut T,
    local: &mut H,
    mode: Option<bool>,
    workspace_id: String,
    message: String,
) -> (r: Result<(), String>)
    ensures
        remote_active(mode) ==> *final(local) == *old(local),
        !remote_active(mode) ==> *final(transport) == *old(transport),
{
    let request = WorkspaceMessageRequest { workspace_id, message };
    if remote_mode_on(mode) {
        let params = request.to_params();
        client_decode_unit(transport.call_remote(METHOD_COMMIT_GIT, params))
    } else {
        local.commit_git(request.workspace_id, request.message)
    }
}

/// Pushes to the remote.
pub fn push_git<T: RemoteTransport, H: GitHandler>(
    transport: &mut T,
    local: &mut H,
    mode: Option<bool>,
    workspace_id: String,
) -> (r: Result<(), String>)
    ensures
        remote_active(mode) ==> *final(local) == *old(local),
        !remote_active(mode) ==> *final(transport) == *old(transport),
{
    let request = WorkspaceIdRequest { workspace_id };
    if remote_mode_on(mode) {
        let params = request.to_params();
        client_decode_unit(transport.call_remote(METHOD_PUSH_GIT, params))
    } else {
        local.push_git(request.workspace_id)
    }
}

/// Pulls from the remote.
pub fn pull_git<T: RemoteTransport, H: GitHandler>(
    transport: &mut T,
    local: &mut H,
    mode: Option<bool>,
    workspace_id: String,
) -> (r: Result<(), String>)
    ensures
        remote_active(mode) ==> *final(local) == *old(local),
        !remote_active(mode) ==> *final(transport) == *old(transport),
{
    let request = WorkspaceIdRequest { workspace_id };
    if remote_mode_on(mode) {
        let params = request.to_params();
        client_decode_unit(transport.call_remote(METHOD_PULL_GIT, params))
    } else {
        local.pull_git(request.workspace_id)
    }
}

/// Fetches from the remote.
pub fn fetch_git<T: RemoteTransport, H: GitHandler>(
    transport: &mut T,
    local: &mut H,
    mode: Option<bool>,
    workspace_id: String,
) -> (r: Result<(), String>)
    ensures
        remote_active(mode) ==> *final(local) == *old(local),
        !remote_active(mode) ==> *final(transport) == *old(transport),
{
    let request = WorkspaceIdRequest { workspace_id };
    if remote_mode_on(mode) {
        let params = request.to_params();
        client_decode_unit(transport.call_remote(METHOD_FETCH_GIT, params))
    } else {
        local.fetch_git(request.workspace_id)
    }
}

/// Synchronises with the remote.
pub fn sync_git<T: RemoteTransport, H: GitHandler>(
    transport: &mut T,
    local: &mut H,
    mode: Option<bool>,
    workspace_id: String,
) -> (r: Result<(), String>)
    ensures
        remote_active(mode) ==> *final(local) == *old(local),
        !remote_active(mode) ==> *final(transport) == *old(transport),
{
    let request = WorkspaceIdRequest { workspace_id };
    if remote_mode_on(mode) {
        let params = request.to_params();
        client_decode_unit(transport.call_remote(METHOD_SYNC_GIT, params))
    } else {
        local.sync_git(request.workspace_id)
    }
}

/// Lists the repository roots under a workspace, to an optional depth.
pub fn list_git_roots<T: RemoteTransport, H: GitHandler>(
    transport: &mut T,
    local: &mut H,
    mode: Option<bool>,
    workspace_id: String,
    depth: Option<usize>,
) -> (r: Result<Vec<String>, String>)
    ensures
        remote_active(mode) ==> *final(local) == *old(local),
        !remote_active(mode) ==> *final(transport) == *old(transport),
{
    let request = ListGitRootsRequest { workspace_id, depth: crate::optional_usize_to_u32(depth) };
    if remote_mode_on(mode) {
        let params = request.to_params();
        client_decode_roots(transport.call_remote(METHOD_LIST_GIT_ROOTS, params))
    } else {
        local.list_git_roots(request.workspace_id, request.depth)
    }
}

/// Fetches the working-tree diffs.
pub fn get_git_diffs<T: RemoteTransport, H: GitHandler>(
    transport: &mut T,
    local: &mut H,
    mode: Option<bool>,
    workspace_id: String,
) -> (r: Result<WireValue, String>)
    ensures
        remote_active(mode) ==> *final(local) == *old(local),
        !remote_active(mode) ==> *final(transport) == *old(transport),
{
    let request = WorkspaceIdRequest { workspace_id };
    if remote_mode_on(mode) {
        let params = request.to_params();
        transport.call_remote(METHOD_GET_GIT_DIFFS, params)
    } else {
        local.get_git_diffs(request.workspace_id)
    }
}

/// Fetches the commit log, up to an optional limit.
pub fn get_git_log<T: RemoteTransport, H: GitHandler>(
    transport: &mut T,
    local: &mut H,
    mode: Option<bool>,
    workspace_id: String,
    limit: Option<usize>,
) -> (r: Result<WireValue, String>)
    ensures
        remote_active(mode) ==> *final(local) == *old(local),
        !remote_active(mode) ==> *final(transport) == *old(transport),
{
    let request = GetGitLogRequest { workspace_id, limit: crate::optional_usize_to_u32(limit) };
    if remote_mode_on(mode) {
        let params = request.to_params();
        transport.call_remote(METHOD_GET_GIT_LOG, params)
    } else {
        local.get_git_log(request.workspace_id, request.limit)
    }
}

/// Fetches the diff of one commit.
pub fn get_git_commit_diff<T: RemoteTransport, H: GitHandler>(
    transport: &mut T,
    local: &mut H,
    mode: Option<bool>,
    workspace_id: String,
    sha: String,
) -> (r: Result<WireValue, String>)
    ensures
        remote_active(mode) ==> *final(local) == *old(local),
        !remote_active(mode) ==> *final(transport) == *old(transport),
{
    let request = WorkspaceShaRequest { workspace_id, sha };
    if remote_mode_on(mode) {
        let params = request.to_params();
        transport.call_remote(METHOD_GET_GIT_COMMIT_DIFF, params)
    } else {
        local.get_git_commit_diff(request.workspace_id, request.sha)
    }
}

/// Fetches the remote URL, when one is configured.
pub fn get_git_remote<T: RemoteTransport, H: GitHandler>(
    transport: &mut T,
    local: &mut H,
    mode: Option<bool>,
    workspace_id: String,
) -> (r: Result<Option<String>, String>)
    ensures
        remote_active(mode) ==> *final(local) == *old(local),
        !remote_active(mode) ==> *final(transport) == *old(transport),
{
    let request = WorkspaceIdRequest { workspace_id };
    if remote_mode_on(mode) {
        let params = request.to_params();
        client_decode_maybe_text(transport.call_remote(METHOD_GET_GIT_REMOTE, params))
    } else {
        local.get_git_remote(request.workspace_id)
    }
}

/// Fetches the open issues.
pub fn get_github_issues<T: RemoteTransport, H: GitHandler>(
    transport: &mut T,
    local: &mut H,
    mode: Option<bool>,
    workspace_id: String,
) -> (r: Result<WireValue, String>)
    ensures
        remote_active(mode) ==> *final(local) == *old(local),
        !remote_active(mode) ==> *final(transport) == *old(transport),
{
    let request = WorkspaceIdRequest { workspace_id };
    if remote_mode_on(mode) {
        let params = request.to_params();
        transport.call_remote(METHOD_GET_GITHUB_ISSUES, params)
    } else {
        local.get_github_issues(request.workspace_id)
    }
}

/// Fetches the open pull requests.
pub fn get_github_pull_requests<T: RemoteTransport, H: GitHandler>(
    transport: &mut T,
    local: &mut H,
    mode: Option<bool>,
    workspace_id: String,
) -> (r: Result<WireValue, String>)
    ensures
        remote_active(mode) ==> *final(local) == *old(local),
        !remote_active(mode) ==> *final(transport) == *old(transport),
{
    let request = WorkspaceIdRequest { workspace_id };
    if remote_mode_on(mode) {
        let params = request.to_params();
        transport.call_remote(METHOD_GET_GITHUB_PULL_REQUESTS, params)
    } else {
        local.get_github_pull_requests(request.workspace_id)
    }
}

/// Fetches the diff of one pull request.
pub fn get_github_pull_request_diff<T: RemoteTransport, H: GitHandler>(
    transport: &mut T,
    local: &mut H,
    mode: Option<bool>,
    workspace_id: String,
    pr_number: u64,
) -> (r: Result<WireValue, String>)
    ensures
        remote_active(mode) ==> *final(local) == *old(local),
        !remote_active(mode) ==> *final(transport) == *old(transport),
{
    let request = GitHubPullRequestRequest { workspace_id, pr_number };
    if remote_mode_on(mode) {
        let params = request.to_params();
        transport.call_remote(METHOD_GET_GITHUB_PULL_REQUEST_DIFF, params)
    } else {
        local.get_github_pull_request_diff(request.workspace_id, request.pr_number)
    }
}

/// Fetches the comments of one pull request.
pub fn get_github_pull_request_comments<T: RemoteTransport, H: GitHandler>(
    transport: &mut T,
    local: &mut H,
    mode: Option<bool>,
    workspace_id: String,
    pr_number: u64,
) -> (r: Result<WireValue, String>)
    ensures
        remote_active(mode) ==> *final(local) == *old(local),
        !remote_active(mode) ==> *final(transport) == *old(transport),
{
    let request = GitHubPullRequestRequest { workspace_id, pr_number };
    if remote_mode_on(mode) {
        let params = request.to_params();
        transport.call_remote(METHOD_GET_GITHUB_PULL_REQUEST_COMMENTS, params)
    } else {
        local.get_github_pull_request_comments(request.workspace_id, request.pr_number)
    }
}

/// Checks out one pull request.
pub fn checkout_github_pull_request<T: RemoteTransport, H: GitHandler>(
    transport: &mut T,
    local: &mut H,
    mode: Option<bool>,
    workspace_id: String,
    pr_number: u64,
) -> (r: Result<(), String>)
    ensures
        remote_active(mode) ==> *final(local) == *old(local),
        !remote_active(mode) ==> *final(transport) == *old(transport),
{
    let request = GitHubPullRequestRequest { workspace_id, pr_number };
    if remote_mode_on(mode) {
        let params = request.to_params();
        client_decode_unit(transport.call_remote(METHOD_CHECKOUT_GITHUB_PULL_REQUEST, params))
    } else {
        local.checkout_github_pull_request(request.workspace_id, request.pr_number)
    }
}

/// Lists the branches.
pub fn list_git_branches<T: RemoteTransport, H: GitHandler>(
    transport: &mut T,
    local: &mut H,
    mode: Option<bool>,
    workspace_id: String,
) -> (r: Result<WireValue, String>)
    ensures
        remote_active(mode) ==> *final(local) == *old(local),
        !remote_active(mode) ==> *final(transport) == *old(transport),
{
    let request = WorkspaceIdRequest { workspace_id };
    if remote_mode_on(mode) {
        let params = request.to_params();
        transport.call_remote(METHOD_LIST_GIT_BRANCHES, params)
    } else {
        local.list_git_branches(request.workspace_id)
    }
}

/// Checks out one branch.
pub fn checkout_git_branch<T: RemoteTransport, H: GitHandler>(
    transport: &mut T,
    local: &mut H,
    mode: Option<bool>,
    workspace_id: String,
    name: String,
) -> (r: Result<(), String>)
    ensures
        remote_active(mode) ==> *final(local) == *old(local),
        !remote_active(mode) ==> *final(transport) == *old(transport),
{
    let request = WorkspaceNameRequest { workspace_id, name };
    if remote_mode_on(mode) {
        let params = request.to_params();
        client_decode_unit(transport.call_remote(METHOD_CHECKOUT_GIT_BRANCH, params))
    } else {
        local.checkout_git_branch(request.workspace_id, request.name)
    }
}

/// Creates one branch.
pub fn create_git_branch<T: RemoteTransport, H: GitHandler>(
    transport: &mut T,
    local: &mut H,
    mode: Option<bool>,
    workspace_id: String,
    name: String,
) -> (r: Result<(), String>)
    ensures
        remote_active(mode) ==> *final(local) == *old(local),
        !remote_active(mode) ==> *final(transport) == *old(transport),
{
    let request = WorkspaceNameRequest { workspace_id, name };
    if remote_mode_on(mode) {
        let params = request.to_params();
        client_decode_unit(transport.call_remote(METHOD_CREATE_GIT_BRANCH, params))
    } else {
        local.create_git_branch(request.workspace_id, request.name)
    }
}

/// The sources that the combined workspace diff is read from.
/// Implementations live outside this crate.
pub trait WorkspaceDiffSource {
    fn resolve_repo_root_for_workspace(&mut self, workspace_id: String) -> Result<
        String,
        String,
    >;

    fn collect_workspace_diff(&mut self, repo_root: &str) -> Result<String, String>;
}

/// The combined diff of a workspace: resolves the repository root, then
/// collects the diff from it; the first failure aborts the call.
pub fn get_workspace_diff<S: WorkspaceDiffSource>(source: &mut S, workspace_id: &str) -> Result<
    String,
    String,
> {
    let repo_root = match source.resolve_repo_root_for_workspace(workspace_id.to_owned()) {
        Ok(root) => root,
        Err(e) => {
            return Err(e);
        },
    };
    source.collect_workspace_diff(repo_root.as_str())
}

} // verus!
