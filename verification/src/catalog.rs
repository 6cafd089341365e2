//! The method catalog: the closed set of operations that can be dispatched
//! by name.
//!
//! Each operation has exactly one wire string, used verbatim by the caller
//! side and the daemon side.  `Op` is the compile-time tag for an operation;
//! `op_of_method` is the one place where a wire string is matched against the
//! catalog.

use vstd::prelude::*;

verus! {

pub const METHOD_GET_GIT_STATUS: &'static str = "get_git_status";

pub const METHOD_INIT_GIT_REPO: &'static str = "init_git_repo";

pub const METHOD_CREATE_GITHUB_REPO: &'static str = "create_github_repo";

pub const METHOD_STAGE_GIT_FILE: &'static str = "stage_git_file";

pub const METHOD_STAGE_GIT_ALL: &'static str = "stage_git_all";

pub const METHOD_UNSTAGE_GIT_FILE: &'static str = "unstage_git_file";

pub const METHOD_REVERT_GIT_FILE: &'static str = "revert_git_file";

pub const METHOD_REVERT_GIT_ALL: &'static str = "revert_git_all";

pub const METHOD_COMMIT_GIT: &'static str = "commit_git";

pub const METHOD_PUSH_GIT: &'static str = "push_git";

pub const METHOD_PULL_GIT: &'static str = "pull_git";

pub const METHOD_FETCH_GIT: &'static str = "fetch_git";

pub const METHOD_SYNC_GIT: &'static str = "sync_git";

pub const METHOD_LIST_GIT_ROOTS: &'static str = "list_git_roots";

pub const METHOD_GET_GIT_DIFFS: &'static str = "get_git_diffs";

pub const METHOD_GET_GIT_LOG: &'static str = "get_git_log";

pub const METHOD_GET_GIT_COMMIT_DIFF: &'static str = "get_git_commit_diff";

pub const METHOD_GET_GIT_REMOTE: &'static str = "get_git_remote";

pub const METHOD_GET_GITHUB_ISSUES: &'static str = "get_github_issues";

pub const METHOD_GET_GITHUB_PULL_REQUESTS: &'static str = "get_github_pull_requests";

pub const METHOD_GET_GITHUB_PULL_REQUEST_DIFF: &'static str = "get_github_pull_request_diff";

pub const METHOD_GET_GITHUB_PULL_REQUEST_COMMENTS: &'static str =
    "get_github_pull_request_comments";

pub const METHOD_CHECKOUT_GITHUB_PULL_REQUEST: &'static str = "checkout_github_pull_request";

pub const METHOD_LIST_GIT_BRANCHES: &'static str = "list_git_branches";

pub const METHOD_CHECKOUT_GIT_BRANCH: &'static str = "checkout_git_branch";

pub const METHOD_CREATE_GIT_BRANCH: &'static str = "create_git_branch";

pub const METHOD_GENERATE_COMMIT_MESSAGE: &'static str = "generate_commit_message";

/// One tag per catalog entry.
#[derive(Clone, Copy, PartialEq, Eq, Structural, Debug)]
pub enum Op {
    GetGitStatus,
    InitGitRepo,
    CreateGithubRepo,
    StageGitFile,
    StageGitAll,
    UnstageGitFile,
    RevertGitFile,
    RevertGitAll,
    CommitGit,
    PushGit,
    PullGit,
    FetchGit,
    SyncGit,
    ListGitRoots,
    GetGitDiffs,
    GetGitLog,
    GetGitCommitDiff,
    GetGitRemote,
    GetGithubIssues,
    GetGithubPullRequests,
    GetGithubPullRequestDiff,
    GetGithubPullRequestComments,
    CheckoutGithubPullRequest,
    ListGitBranches,
    CheckoutGitBranch,
    CreateGitBranch,
    GenerateCommitMessage,
}

/// The wire string of an operation.
pub open spec fn method_str(op: Op) -> Seq<char> {
    match op {
        Op::GetGitStatus => METHOD_GET_GIT_STATUS@,
        Op::InitGitRepo => METHOD_INIT_GIT_REPO@,
        Op::CreateGithubRepo => METHOD_CREATE_GITHUB_REPO@,
        Op::StageGitFile => METHOD_STAGE_GIT_FILE@,
        Op::StageGitAll => METHOD_STAGE_GIT_ALL@,
        Op::UnstageGitFile => METHOD_UNSTAGE_GIT_FILE@,
        Op::RevertGitFile => METHOD_REVERT_GIT_FILE@,
        Op::RevertGitAll => METHOD_REVERT_GIT_ALL@,
        Op::CommitGit => METHOD_COMMIT_GIT@,
        Op::PushGit => METHOD_PUSH_GIT@,
        Op::PullGit => METHOD_PULL_GIT@,
        Op::FetchGit => METHOD_FETCH_GIT@,
        Op::SyncGit => METHOD_SYNC_GIT@,
        Op::ListGitRoots => METHOD_LIST_GIT_ROOTS@,
        Op::GetGitDiffs => METHOD_GET_GIT_DIFFS@,
        Op::GetGitLog => METHOD_GET_GIT_LOG@,
        Op::GetGitCommitDiff => METHOD_GET_GIT_COMMIT_DIFF@,
        Op::GetGitRemote => METHOD_GET_GIT_REMOTE@,
        Op::GetGithubIssues => METHOD_GET_GITHUB_ISSUES@,
        Op::GetGithubPullRequests => METHOD_GET_GITHUB_PULL_REQUESTS@,
        Op::GetGithubPullRequestDiff => METHOD_GET_GITHUB_PULL_REQUEST_DIFF@,
        Op::GetGithubPullRequestComments => METHOD_GET_GITHUB_PULL_REQUEST_COMMENTS@,
        Op::CheckoutGithubPullRequest => METHOD_CHECKOUT_GITHUB_PULL_REQUEST@,
        Op::ListGitBranches => METHOD_LIST_GIT_BRANCHES@,
        Op::CheckoutGitBranch => METHOD_CHECKOUT_GIT_BRANCH@,
        Op::CreateGitBranch => METHOD_CREATE_GIT_BRANCH@,
        Op::GenerateCommitMessage => METHOD_GENERATE_COMMIT_MESSAGE@,
    }
}

/// Catalog membership: which operation, if any, a wire string names.
pub open spec fn op_of_method(m: Seq<char>) -> Option<Op> {
    if m == METHOD_GET_GIT_STATUS@ {
        Some(Op::GetGitStatus)
    } else if m == METHOD_INIT_GIT_REPO@ {
        Some(Op::InitGitRepo)
    } else if m == METHOD_CREATE_GITHUB_REPO@ {
        Some(Op::CreateGithubRepo)
    } else if m == METHOD_STAGE_GIT_FILE@ {
        Some(Op::StageGitFile)
    } else if m == METHOD_STAGE_GIT_ALL@ {
        Some(Op::StageGitAll)
    } else if m == METHOD_UNSTAGE_GIT_FILE@ {
        Some(Op::UnstageGitFile)
    } else if m == METHOD_REVERT_GIT_FILE@ {
        Some(Op::RevertGitFile)
    } else if m == METHOD_REVERT_GIT_ALL@ {
        Some(Op::RevertGitAll)
    } else if m == METHOD_COMMIT_GIT@ {
        Some(Op::CommitGit)
    } else if m == METHOD_PUSH_GIT@ {
        Some(Op::PushGit)
    } else if m == METHOD_PULL_GIT@ {
        Some(Op::PullGit)
    } else if m == METHOD_FETCH_GIT@ {
        Some(Op::FetchGit)
    } else if m == METHOD_SYNC_GIT@ {
        Some(Op::SyncGit)
    } else if m == METHOD_LIST_GIT_ROOTS@ {
        Some(Op::ListGitRoots)
    } else if m == METHOD_GET_GIT_DIFFS@ {
        Some(Op::GetGitDiffs)
    } else if m == METHOD_GET_GIT_LOG@ {
        Some(Op::GetGitLog)
    } else if m == METHOD_GET_GIT_COMMIT_DIFF@ {
        Some(Op::GetGitCommitDiff)
    } else if m == METHOD_GET_GIT_REMOTE@ {
        Some(Op::GetGitRemote)
    } else if m == METHOD_GET_GITHUB_ISSUES@ {
        Some(Op::GetGithubIssues)
    } else if m == METHOD_GET_GITHUB_PULL_REQUESTS@ {
        Some(Op::GetGithubPullRequests)
    } else if m == METHOD_GET_GITHUB_PULL_REQUEST_DIFF@ {
        Some(Op::GetGithubPullRequestDiff)
    } else if m == METHOD_GET_GITHUB_PULL_REQUEST_COMMENTS@ {
        Some(Op::GetGithubPullRequestComments)
    } else if m == METHOD_CHECKOUT_GITHUB_PULL_REQUEST@ {
        Some(Op::CheckoutGithubPullRequest)
    } else if m == METHOD_LIST_GIT_BRANCHES@ {
        Some(Op::ListGitBranches)
    } else if m == METHOD_CHECKOUT_GIT_BRANCH@ {
        Some(Op::CheckoutGitBranch)
    } else if m == METHOD_CREATE_GIT_BRANCH@ {
        Some(Op::CreateGitBranch)
    } else if m == METHOD_GENERATE_COMMIT_MESSAGE@ {
        Some(Op::GenerateCommitMessage)
    } else {
        None
    }
}

/// Matches a wire string against the catalog, as `op_of_method` describes.
#[verifier::rlimit(50)]
pub fn method_op(method: &str) -> (r: Option<Op>)
    ensures
        r == op_of_method(method@),
{
    if crate::value::str_eq(method, METHOD_GET_GIT_STATUS) {
        Some(Op::GetGitStatus)
    } else if crate::value::str_eq(method, METHOD_INIT_GIT_REPO) {
        Some(Op::InitGitRepo)
    } else if crate::value::str_eq(method, METHOD_CREATE_GITHUB_REPO) {
        Some(Op::CreateGithubRepo)
    } else if crate::value::str_eq(method, METHOD_STAGE_GIT_FILE) {
        Some(Op::StageGitFile)
    } else if crate::value::str_eq(method, METHOD_STAGE_GIT_ALL) {
        Some(Op::StageGitAll)
    } else if crate::value::str_eq(method, METHOD_UNSTAGE_GIT_FILE) {
        Some(Op::UnstageGitFile)
    } else if crate::value::str_eq(method, METHOD_REVERT_GIT_FILE) {
        Some(Op::RevertGitFile)
    } else if crate::value::str_eq(method, METHOD_REVERT_GIT_ALL) {
        Some(Op::RevertGitAll)
    } else if crate::value::str_eq(method, METHOD_COMMIT_GIT) {
        Some(Op::CommitGit)
    } else if crate::value::str_eq(method, METHOD_PUSH_GIT) {
        Some(Op::PushGit)
    } else if crate::value::str_eq(method, METHOD_PULL_GIT) {
        Some(Op::PullGit)
    } else if crate::value::str_eq(method, METHOD_FETCH_GIT) {
        Some(Op::FetchGit)
    } else if crate::value::str_eq(method, METHOD_SYNC_GIT) {
        Some(Op::SyncGit)
    } else if crate::value::str_eq(method, METHOD_LIST_GIT_ROOTS) {
        Some(Op::ListGitRoots)
    } else if crate::value::str_eq(method, METHOD_GET_GIT_DIFFS) {
        Some(Op::GetGitDiffs)
    } else if crate::value::str_eq(method, METHOD_GET_GIT_LOG) {
        Some(Op::GetGitLog)
    } else if crate::value::str_eq(method, METHOD_GET_GIT_COMMIT_DIFF) {
        Some(Op::GetGitCommitDiff)
    } else if crate::value::str_eq(method, METHOD_GET_GIT_REMOTE) {
        Some(Op::GetGitRemote)
    } else if crate::value::str_eq(method, METHOD_GET_GITHUB_ISSUES) {
        Some(Op::GetGithubIssues)
    } else if crate::value::str_eq(method, METHOD_GET_GITHUB_PULL_REQUESTS) {
        Some(Op::GetGithubPullRequests)
    } else if crate::value::str_eq(method, METHOD_GET_GITHUB_PULL_REQUEST_DIFF) {
        Some(Op::GetGithubPullRequestDiff)
    } else if crate::value::str_eq(method, METHOD_GET_GITHUB_PULL_REQUEST_COMMENTS) {
        Some(Op::GetGithubPullRequestComments)
    } else if crate::value::str_eq(method, METHOD_CHECKOUT_GITHUB_PULL_REQUEST) {
        Some(Op::CheckoutGithubPullRequest)
    } else if crate::value::str_eq(method, METHOD_LIST_GIT_BRANCHES) {
        Some(Op::ListGitBranches)
    } else if crate::value::str_eq(method, METHOD_CHECKOUT_GIT_BRANCH) {
        Some(Op::CheckoutGitBranch)
    } else if crate::value::str_eq(method, METHOD_CREATE_GIT_BRANCH) {
        Some(Op::CreateGitBranch)
    } else if crate::value::str_eq(method, METHOD_GENERATE_COMMIT_MESSAGE) {
        Some(Op::GenerateCommitMessage)
    } else {
        None
    }
}

/// The wire string of an operation, as the caller side sends it.
pub fn method_name(op: Op) -> (r: &'static str)
    ensures
        r@ == method_str(op),
{
    match op {
        Op::GetGitStatus => METHOD_GET_GIT_STATUS,
        Op::InitGitRepo => METHOD_INIT_GIT_REPO,
        Op::CreateGithubRepo => METHOD_CREATE_GITHUB_REPO,
        Op::StageGitFile => METHOD_STAGE_GIT_FILE,
        Op::StageGitAll => METHOD_STAGE_GIT_ALL,
        Op::UnstageGitFile => METHOD_UNSTAGE_GIT_FILE,
        Op::RevertGitFile => METHOD_REVERT_GIT_FILE,
        Op::RevertGitAll => METHOD_REVERT_GIT_ALL,
        Op::CommitGit => METHOD_COMMIT_GIT,
        Op::PushGit => METHOD_PUSH_GIT,
        Op::PullGit => METHOD_PULL_GIT,
        Op::FetchGit => METHOD_FETCH_GIT,
        Op::SyncGit => METHOD_SYNC_GIT,
        Op::ListGitRoots => METHOD_LIST_GIT_ROOTS,
        Op::GetGitDiffs => METHOD_GET_GIT_DIFFS,
        Op::GetGitLog => METHOD_GET_GIT_LOG,
        Op::GetGitCommitDiff => METHOD_GET_GIT_COMMIT_DIFF,
        Op::GetGitRemote => METHOD_GET_GIT_REMOTE,
        Op::GetGithubIssues => METHOD_GET_GITHUB_ISSUES,
        Op::GetGithubPullRequests => METHOD_GET_GITHUB_PULL_REQUESTS,
        Op::GetGithubPullRequestDiff => METHOD_GET_GITHUB_PULL_REQUEST_DIFF,
        Op::GetGithubPullRequestComments => METHOD_GET_GITHUB_PULL_REQUEST_COMMENTS,
        Op::CheckoutGithubPullRequest => METHOD_CHECKOUT_GITHUB_PULL_REQUEST,
        Op::ListGitBranches => METHOD_LIST_GIT_BRANCHES,
        Op::CheckoutGitBranch => METHOD_CHECKOUT_GIT_BRANCH,
        Op::CreateGitBranch => METHOD_CREATE_GIT_BRANCH,
        Op::GenerateCommitMessage => METHOD_GENERATE_COMMIT_MESSAGE,
    }
}

/// The two sides of the catalog stay in lock-step: sending an operation's own
/// wire string always names that operation and no other.
#[verifier::rlimit(100)]
pub proof fn lemma_method_round_trip(op: Op)
    ensures
        op_of_method(method_str(op)) == Some(op),
{
    reveal_strlit("get_git_status");
    reveal_strlit("init_git_repo");
    reveal_strlit("create_github_repo");
    reveal_strlit("stage_git_file");
    reveal_strlit("stage_git_all");
    reveal_strlit("unstage_git_file");
    reveal_strlit("revert_git_file");
    reveal_strlit("revert_git_all");
    reveal_strlit("commit_git");
    reveal_strlit("push_git");
    reveal_strlit("pull_git");
    reveal_strlit("fetch_git");
    reveal_strlit("sync_git");
    reveal_strlit("list_git_roots");
    reveal_strlit("get_git_diffs");
    reveal_strlit("get_git_log");
    reveal_strlit("get_git_commit_diff");
    reveal_strlit("get_git_remote");
    reveal_strlit("get_github_issues");
    reveal_strlit("get_github_pull_requests");
    reveal_strlit("get_github_pull_request_diff");
    reveal_strlit("get_github_pull_request_comments");
    reveal_strlit("checkout_github_pull_request");
    reveal_strlit("list_git_branches");
    reveal_strlit("checkout_git_branch");
    reveal_strlit("create_git_branch");
    reveal_strlit("generate_commit_message");
    assert("get_git_status"@.len() == 14);
    assert("init_git_repo"@.len() == 13);
    assert("create_github_repo"@.len() == 18);
    assert("stage_git_file"@.len() == 14);
    assert("stage_git_all"@.len() == 13);
    assert("unstage_git_file"@.len() == 16);
    assert("revert_git_file"@.len() == 15);
    assert("revert_git_all"@.len() == 14);
    assert("commit_git"@.len() == 10);
    assert("push_git"@.len() == 8);
    assert("pull_git"@.len() == 8);
    assert("fetch_git"@.len() == 9);
    assert("sync_git"@.len() == 8);
    assert("list_git_roots"@.len() == 14);
    assert("get_git_diffs"@.len() == 13);
    assert("get_git_log"@.len() == 11);
    assert("get_git_commit_diff"@.len() == 19);
    assert("get_git_remote"@.len() == 14);
    assert("get_github_issues"@.len() == 17);
    assert("get_github_pull_requests"@.len() == 24);
    assert("get_github_pull_request_diff"@.len() == 28);
    assert("get_github_pull_request_comments"@.len() == 32);
    assert("checkout_github_pull_request"@.len() == 28);
    assert("list_git_branches"@.len() == 17);
    assert("checkout_git_branch"@.len() == 19);
    assert("create_git_branch"@.len() == 17);
    assert("generate_commit_message"@.len() == 23);
    assert("get_git_status"@[0] == 'g' && "stage_git_file"@[0] == 's');
    assert("get_git_status"@[0] == 'g' && "revert_git_all"@[0] == 'r');
    assert("get_git_status"@[0] == 'g' && "list_git_roots"@[0] == 'l');
    assert("get_git_status"@[8] == 's' && "get_git_remote"@[8] == 'r');
    assert("init_git_repo"@[0] == 'i' && "stage_git_all"@[0] == 's');
    assert("init_git_repo"@[0] == 'i' && "get_git_diffs"@[0] == 'g');
    assert("stage_git_file"@[0] == 's' && "revert_git_all"@[0] == 'r');
    assert("stage_git_file"@[0] == 's' && "list_git_roots"@[0] == 'l');
    assert("stage_git_file"@[0] == 's' && "get_git_remote"@[0] == 'g');
    assert("stage_git_all"@[0] == 's' && "get_git_diffs"@[0] == 'g');
    assert("revert_git_all"@[0] == 'r' && "list_git_roots"@[0] == 'l');
    assert("revert_git_all"@[0] == 'r' && "get_git_remote"@[0] == 'g');
    assert("push_git"@[2] == 's' && "pull_git"@[2] == 'l');
    assert("push_git"@[0] == 'p' && "sync_git"@[0] == 's');
    assert("pull_git"@[0] == 'p' && "sync_git"@[0] == 's');
    assert("list_git_roots"@[0] == 'l' && "get_git_remote"@[0] == 'g');
    assert("get_git_commit_diff"@[0] == 'g' && "checkout_git_branch"@[0] == 'c');
    assert("get_github_issues"@[0] == 'g' && "list_git_branches"@[0] == 'l');
    assert("get_github_issues"@[0] == 'g' && "create_git_branch"@[0] == 'c');
    assert("get_github_pull_request_diff"@[0] == 'g' && "checkout_github_pull_request"@[0] == 'c');
    assert("list_git_branches"@[0] == 'l' && "create_git_branch"@[0] == 'c');
    match op {
        Op::GetGitStatus => assert(op_of_method(method_str(Op::GetGitStatus)) == Some(Op::GetGitStatus)),
        Op::InitGitRepo => assert(op_of_method(method_str(Op::InitGitRepo)) == Some(Op::InitGitRepo)),
        Op::CreateGithubRepo => assert(op_of_method(method_str(Op::CreateGithubRepo)) == Some(Op::CreateGithubRepo)),
        Op::StageGitFile => assert(op_of_method(method_str(Op::StageGitFile)) == Some(Op::StageGitFile)),
        Op::StageGitAll => assert(op_of_method(method_str(Op::StageGitAll)) == Some(Op::StageGitAll)),
        Op::UnstageGitFile => assert(op_of_method(method_str(Op::UnstageGitFile)) == Some(Op::UnstageGitFile)),
        Op::RevertGitFile => assert(op_of_method(method_str(Op::RevertGitFile)) == Some(Op::RevertGitFile)),
        Op::RevertGitAll => assert(op_of_method(method_str(Op::RevertGitAll)) == Some(Op::RevertGitAll)),
        Op::CommitGit => assert(op_of_method(method_str(Op::CommitGit)) == Some(Op::CommitGit)),
        Op::PushGit => assert(op_of_method(method_str(Op::PushGit)) == Some(Op::PushGit)),
        Op::PullGit => assert(op_of_method(method_str(Op::PullGit)) == Some(Op::PullGit)),
        Op::FetchGit => assert(op_of_method(method_str(Op::FetchGit)) == Some(Op::FetchGit)),
        Op::SyncGit => assert(op_of_method(method_str(Op::SyncGit)) == Some(Op::SyncGit)),
        Op::ListGitRoots => assert(op_of_method(method_str(Op::ListGitRoots)) == Some(Op::ListGitRoots)),
        Op::GetGitDiffs => assert(op_of_method(method_str(Op::GetGitDiffs)) == Some(Op::GetGitDiffs)),
        Op::GetGitLog => assert(op_of_method(method_str(Op::GetGitLog)) == Some(Op::GetGitLog)),
        Op::GetGitCommitDiff => assert(op_of_method(method_str(Op::GetGitCommitDiff)) == Some(Op::GetGitCommitDiff)),
        Op::GetGitRemote => assert(op_of_method(method_str(Op::GetGitRemote)) == Some(Op::GetGitRemote)),
        Op::GetGithubIssues => assert(op_of_method(method_str(Op::GetGithubIssues)) == Some(Op::GetGithubIssues)),
        Op::GetGithubPullRequests => assert(op_of_method(method_str(Op::GetGithubPullRequests)) == Some(Op::GetGithubPullRequests)),
        Op::GetGithubPullRequestDiff => assert(op_of_method(method_str(Op::GetGithubPullRequestDiff)) == Some(Op::GetGithubPullRequestDiff)),
        Op::GetGithubPullRequestComments => assert(op_of_method(method_str(Op::GetGithubPullRequestComments)) == Some(Op::GetGithubPullRequestComments)),
        Op::CheckoutGithubPullRequest => assert(op_of_method(method_str(Op::CheckoutGithubPullRequest)) == Some(Op::CheckoutGithubPullRequest)),
        Op::ListGitBranches => assert(op_of_method(method_str(Op::ListGitBranches)) == Some(Op::ListGitBranches)),
        Op::CheckoutGitBranch => assert(op_of_method(method_str(Op::CheckoutGitBranch)) == Some(Op::CheckoutGitBranch)),
        Op::CreateGitBranch => assert(op_of_method(method_str(Op::CreateGitBranch)) == Some(Op::CreateGitBranch)),
        Op::GenerateCommitMessage => assert(op_of_method(method_str(Op::GenerateCommitMessage)) == Some(Op::GenerateCommitMessage)),
    }
}

} // verus!
