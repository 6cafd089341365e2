//! The daemon-side dispatcher.
//!
//! One entry point receives a method name and an untyped parameter value,
//! matches the name against the catalog, decodes the parameters into the
//! operation's typed form, invokes the bound handler, and wraps the result
//! in the response envelope.  An unknown method yields no response at all; a
//! parameter that fails to decode aborts the call before the handler runs.

use vstd::prelude::*;

use crate::catalog::{method_op, op_of_method, Op};
use crate::envelope::{
    envelope_maybe_text, envelope_raw, envelope_roots, envelope_text, envelope_unit,
    envelope_spec, maybe_text_outcome, out_shape_ok, raw_outcome, res_jv, resp_shape,
    roots_outcome, text_outcome, unit_outcome, OutView,
};
use crate::requests::{
    arg_shape, decode_args_spec, decode_create_repo, decode_generate, decode_init_repo,
    decode_log, decode_pull_request, decode_roots, decode_ws_id, decode_ws_message,
    decode_ws_name, decode_ws_path, decode_ws_sha,
};
use crate::value::{Jv, WireValue};

verus! {

/// The business-logic capabilities bound to the catalog, one per operation.
/// Implementations live outside this crate: the daemon binds them to its own
/// state, the caller side to its local execution context.  The dispatcher
/// promises nothing about what they return; it promises how their results
/// travel.
pub trait GitHandler {
    fn get_git_status(&mut self, workspace_id: String) -> Result<WireValue, String>;

    fn init_git_repo(&mut self, workspace_id: String, branch: String, force: bool) -> Result<
        WireValue,
        String,
    >;

    fn create_github_repo(
        &mut self,
        workspace_id: String,
        repo: String,
        visibility: String,
        branch: Option<String>,
    ) -> Result<WireValue, String>;

    fn stage_git_file(&mut self, workspace_id: String, path: String) -> Result<(), String>;

    fn stage_git_all(&mut self, workspace_id: String) -> Result<(), String>;

    fn unstage_git_file(&mut self, workspace_id: String, path: String) -> Result<(), String>;

    fn revert_git_file(&mut self, workspace_id: String, path: String) -> Result<(), String>;

    fn revert_git_all(&mut self, workspace_id: String) -> Result<(), String>;

    fn commit_git(&mut self, workspace_id: String, message: String) -> Result<(), String>;

    fn push_git(&mut self, workspace_id: String) -> Result<(), String>;

    fn pull_git(&mut self, workspace_id: String) -> Result<(), String>;

    fn fetch_git(&mut self, workspace_id: String) -> Result<(), String>;

    fn sync_git(&mut self, workspace_id: String) -> Result<(), String>;

    fn list_git_roots(&mut self, workspace_id: String, depth: Option<u32>) -> Result<
        Vec<String>,
        String,
    >;

    fn get_git_diffs(&mut self, workspace_id: String) -> Result<WireValue, String>;

    fn get_git_log(&mut self, workspace_id: String, limit: Option<u32>) -> Result<
        WireValue,
        String,
    >;

    fn get_git_commit_diff(&mut self, workspace_id: String, sha: String) -> Result<
        WireValue,
        String,
    >;

    fn get_git_remote(&mut self, workspace_id: String) -> Result<Option<String>, String>;

    fn get_github_issues(&mut self, workspace_id: String) -> Result<WireValue, String>;

    fn get_github_pull_requests(&mut self, workspace_id: String) -> Result<WireValue, String>;

    fn get_github_pull_request_diff(&mut self, workspace_id: String, pr_number: u64) -> Result<
        WireValue,
        String,
    >;

    fn get_github_pull_request_comments(
        &mut self,
        workspace_id: String,
        pr_number: u64,
    ) -> Result<WireValue, String>;

    fn checkout_github_pull_request(&mut self, workspace_id: String, pr_number: u64) -> Result<
        (),
        String,
    >;

    fn list_git_branches(&mut self, workspace_id: String) -> Result<WireValue, String>;

    fn checkout_git_branch(&mut self, workspace_id: String, name: String) -> Result<(), String>;

    fn create_git_branch(&mut self, workspace_id: String, name: String) -> Result<(), String>;

    fn generate_commit_message(
        &mut self,
        workspace_id: String,
        commit_message_model_id: Option<String>,
    ) -> Result<String, String>;
}

/// A response that the dispatcher may give for an operation: the envelope of
/// some handler result of the operation's shape.
pub open spec fn dispatch_resp_ok(op: Op, rr: Result<Jv, Seq<char>>) -> bool {
    exists|hr: Result<OutView, Seq<char>>|
        #[trigger] envelope_spec(hr) == rr && (hr matches Ok(o) ==> out_shape_ok(
            resp_shape(op),
            o,
        ))
}

/// The daemon entry point.
///
/// A method outside the catalog yields `None` and touches nothing.  A
/// parameter object that fails to decode yields the decode failure and
/// touches nothing: the handler has not run, so no side effect can have
/// happened.  Otherwise exactly one handler runs, and its result comes back
/// through the envelope.
pub fn dispatch<H: GitHandler>(h: &mut H, method: &str, params: &WireValue) -> (r: Option<
    Result<WireValue, String>,
>)
    ensures
        match op_of_method(method@) {
            None => r is None && *final(h) == *old(h),
            Some(op) => match decode_args_spec(arg_shape(op), params@) {
                Err(e) => r matches Some(rr) && (rr matches Err(msg) && msg@ == e) && *final(h)
                    == *old(h),
                Ok(_) => r matches Some(rr) && dispatch_resp_ok(op, res_jv(rr)),
            },
        },
{
    let op = match method_op(method) {
        None => {
            return None;
        },
        Some(op) => op,
    };
    match op {
        Op::GetGitStatus => {
            match decode_ws_id(params) {
                Err(e) => Some(Err(e)),
                Ok(ws) => {
                    let hres = h.get_git_status(ws);
                    let rr = envelope_raw(hres);
                    proof {
                        assert(dispatch_resp_ok(Op::GetGitStatus, res_jv(rr)));
                    }
                    Some(rr)
                },
            }
        },
        Op::InitGitRepo => {
            match decode_init_repo(params) {
                Err(e) => Some(Err(e)),
                Ok(t) => {
                    let hres = h.init_git_repo(t.0, t.1, match t.2 { Some(b) => b, None => false });
                    let rr = envelope_raw(hres);
                    proof {
                        assert(dispatch_resp_ok(Op::InitGitRepo, res_jv(rr)));
                    }
                    Some(rr)
                },
            }
        },
        Op::CreateGithubRepo => {
            match decode_create_repo(params) {
                Err(e) => Some(Err(e)),
                Ok(t) => {
                    let hres = h.create_github_repo(t.0, t.1, t.2, t.3);
                    let rr = envelope_raw(hres);
                    proof {
                        assert(dispatch_resp_ok(Op::CreateGithubRepo, res_jv(rr)));
                    }
                    Some(rr)
                },
            }
        },
        Op::StageGitFile => {
            match decode_ws_path(params) {
                Err(e) => Some(Err(e)),
                Ok(t) => {
                    let hres = h.stage_git_file(t.0, t.1);
                    let rr = envelope_unit(hres);
                    proof {
                        assert(dispatch_resp_ok(Op::StageGitFile, res_jv(rr)));
                    }
                    Some(rr)
                },
            }
        },
        Op::StageGitAll => {
            match decode_ws_id(params) {
                Err(e) => Some(Err(e)),
                Ok(ws) => {
                    let hres = h.stage_git_all(ws);
                    let rr = envelope_unit(hres);
                    proof {
                        assert(dispatch_resp_ok(Op::StageGitAll, res_jv(rr)));
                    }
                    Some(rr)
                },
            }
        },
        Op::UnstageGitFile => {
            match decode_ws_path(params) {
                Err(e) => Some(Err(e)),
                Ok(t) => {
                    let hres = h.unstage_git_file(t.0, t.1);
                    let rr = envelope_unit(hres);
                    proof {
                        assert(dispatch_resp_ok(Op::UnstageGitFile, res_jv(rr)));
                    }
                    Some(rr)
                },
            }
        },
        Op::RevertGitFile => {
            match decode_ws_path(params) {
                Err(e) => Some(Err(e)),
                Ok(t) => {
                    let hres = h.revert_git_file(t.0, t.1);
                    let rr = envelope_unit(hres);
                    proof {
                        assert(dispatch_resp_ok(Op::RevertGitFile, res_jv(rr)));
                    }
                    Some(rr)
                },
            }
        },
        Op::RevertGitAll => {
            match decode_ws_id(params) {
                Err(e) => Some(Err(e)),
                Ok(ws) => {
                    let hres = h.revert_git_all(ws);
                    let rr = envelope_unit(hres);
                    proof {
                        assert(dispatch_resp_ok(Op::RevertGitAll, res_jv(rr)));
                    }
                    Some(rr)
                },
            }
        },
        Op::CommitGit => {
            match decode_ws_message(params) {
                Err(e) => Some(Err(e)),
                Ok(t) => {
                    let hres = h.commit_git(t.0, t.1);
                    let rr = envelope_unit(hres);
                    proof {
                        assert(dispatch_resp_ok(Op::CommitGit, res_jv(rr)));
                    }
                    Some(rr)
                },
            }
        },
        Op::PushGit => {
            match decode_ws_id(params) {
                Err(e) => Some(Err(e)),
                Ok(ws) => {
                    let hres = h.push_git(ws);
                    let rr = envelope_unit(hres);
                    proof {
                        assert(dispatch_resp_ok(Op::PushGit, res_jv(rr)));
                    }
                    Some(rr)
                },
            }
        },
        Op::PullGit => {
            match decode_ws_id(params) {
                Err(e) => Some(Err(e)),
                Ok(ws) => {
                    let hres = h.pull_git(ws);
                    let rr = envelope_unit(hres);
                    proof {
                        assert(dispatch_resp_ok(Op::PullGit, res_jv(rr)));
                    }
                    Some(rr)
                },
            }
        },
        Op::FetchGit => {
            match decode_ws_id(params) {
                Err(e) => Some(Err(e)),
                Ok(ws) => {
                    let hres = h.fetch_git(ws);
                    let rr = envelope_unit(hres);
                    proof {
                        assert(dispatch_resp_ok(Op::FetchGit, res_jv(rr)));
                    }
                    Some(rr)
                },
            }
        },
        Op::SyncGit => {
            match decode_ws_id(params) {
                Err(e) => Some(Err(e)),
                Ok(ws) => {
                    let hres = h.sync_git(ws);
                    let rr = envelope_unit(hres);
                    proof {
                        assert(dispatch_resp_ok(Op::SyncGit, res_jv(rr)));
                    }
                    Some(rr)
                },
            }
        },
        Op::ListGitRoots => {
            match decode_roots(params) {
                Err(e) => Some(Err(e)),
                Ok(t) => {
                    let hres = h.list_git_roots(t.0, t.1);
                    let rr = envelope_roots(hres);
                    proof {
                        assert(dispatch_resp_ok(Op::ListGitRoots, res_jv(rr)));
                    }
                    Some(rr)
                },
            }
        },
        Op::GetGitDiffs => {
            match decode_ws_id(params) {
                Err(e) => Some(Err(e)),
                Ok(ws) => {
                    let hres = h.get_git_diffs(ws);
                    let rr = envelope_raw(hres);
                    proof {
                        assert(dispatch_resp_ok(Op::GetGitDiffs, res_jv(rr)));
                    }
                    Some(rr)
                },
            }
        },
        Op::GetGitLog => {
            match decode_log(params) {
                Err(e) => Some(Err(e)),
                Ok(t) => {
                    let hres = h.get_git_log(t.0, t.1);
                    let rr = envelope_raw(hres);
                    proof {
                        assert(dispatch_resp_ok(Op::GetGitLog, res_jv(rr)));
                    }
                    Some(rr)
                },
            }
        },
        Op::GetGitCommitDiff => {
            match decode_ws_sha(params) {
                Err(e) => Some(Err(e)),
                Ok(t) => {
                    let hres = h.get_git_commit_diff(t.0, t.1);
                    let rr = envelope_raw(hres);
                    proof {
                        assert(dispatch_resp_ok(Op::GetGitCommitDiff, res_jv(rr)));
                    }
                    Some(rr)
                },
            }
        },
        Op::GetGitRemote => {
            match decode_ws_id(params) {
                Err(e) => Some(Err(e)),
                Ok(ws) => {
                    let hres = h.get_git_remote(ws);
                    let rr = envelope_maybe_text(hres);
                    proof {
                        assert(dispatch_resp_ok(Op::GetGitRemote, res_jv(rr)));
                    }
                    Some(rr)
                },
            }
        },
        Op::GetGithubIssues => {
            match decode_ws_id(params) {
                Err(e) => Some(Err(e)),
                Ok(ws) => {
                    let hres = h.get_github_issues(ws);
                    let rr = envelope_raw(hres);
                    proof {
                        assert(dispatch_resp_ok(Op::GetGithubIssues, res_jv(rr)));
                    }
                    Some(rr)
                },
            }
        },
        Op::GetGithubPullRequests => {
            match decode_ws_id(params) {
                Err(e) => Some(Err(e)),
                Ok(ws) => {
                    let hres = h.get_github_pull_requests(ws);
                    let rr = envelope_raw(hres);
                    proof {
                        assert(dispatch_resp_ok(Op::GetGithubPullRequests, res_jv(rr)));
                    }
                    Some(rr)
                },
            }
        },
        Op::GetGithubPullRequestDiff => {
            match decode_pull_request(params) {
                Err(e) => Some(Err(e)),
                Ok(t) => {
                    let hres = h.get_github_pull_request_diff(t.0, t.1);
                    let rr = envelope_raw(hres);
                    proof {
                        assert(dispatch_resp_ok(Op::GetGithubPullRequestDiff, res_jv(rr)));
                    }
                    Some(rr)
                },
            }
        },
        Op::GetGithubPullRequestComments => {
            match decode_pull_request(params) {
                Err(e) => Some(Err(e)),
                Ok(t) => {
                    let hres = h.get_github_pull_request_comments(t.0, t.1);
                    let rr = envelope_raw(hres);
                    proof {
                        assert(dispatch_resp_ok(Op::GetGithubPullRequestComments, res_jv(rr)));
                    }
                    Some(rr)
                },
            }
        },
        Op::CheckoutGithubPullRequest => {
            match decode_pull_request(params) {
                Err(e) => Some(Err(e)),
                Ok(t) => {
                    let hres = h.checkout_github_pull_request(t.0, t.1);
                    let rr = envelope_unit(hres);
                    proof {
                        assert(dispatch_resp_ok(Op::CheckoutGithubPullRequest, res_jv(rr)));
                    }
                    Some(rr)
                },
            }
        },
        Op::ListGitBranches => {
            match decode_ws_id(params) {
                Err(e) => Some(Err(e)),
                Ok(ws) => {
                    let hres = h.list_git_branches(ws);
                    let rr = envelope_raw(hres);
                    proof {
                        assert(dispatch_resp_ok(Op::ListGitBranches, res_jv(rr)));
                    }
                    Some(rr)
                },
            }
        },
        Op::CheckoutGitBranch => {
            match decode_ws_name(params) {
                Err(e) => Some(Err(e)),
                Ok(t) => {
                    let hres = h.checkout_git_branch(t.0, t.1);
                    let rr = envelope_unit(hres);
                    proof {
                        assert(dispatch_resp_ok(Op::CheckoutGitBranch, res_jv(rr)));
                    }
                    Some(rr)
                },
            }
        },
        Op::CreateGitBranch => {
            match decode_ws_name(params) {
                Err(e) => Some(Err(e)),
                Ok(t) => {
                    let hres = h.create_git_branch(t.0, t.1);
                    let rr = envelope_unit(hres);
                    proof {
                        assert(dispatch_resp_ok(Op::CreateGitBranch, res_jv(rr)));
                    }
                    Some(rr)
                },
            }
        },
        Op::GenerateCommitMessage => {
            match decode_generate(params) {
                Err(e) => Some(Err(e)),
                Ok(t) => {
                    let hres = h.generate_commit_message(t.0, t.1);
                    let rr = envelope_text(hres);
                    proof {
                        assert(dispatch_resp_ok(Op::GenerateCommitMessage, res_jv(rr)));
                    }
                    Some(rr)
                },
            }
        },
    }
}

} // verus!
