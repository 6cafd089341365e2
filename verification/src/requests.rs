//! Typed request models and the parameter codec.
//!
//! Every operation's parameters travel as one object-shaped structured value.
//! A request struct is the typed form on the caller side; `to_params` encodes
//! it.  The daemon side decodes with the `decode_*` functions, whose exact
//! behaviour is `decode_args_spec`: required fields are matched strictly
//! (missing or wrong-typed fields abort the call with a message naming the
//! field), optional fields are looked up loosely (anything but a value of the
//! expected type counts as absent), and unknown fields are ignored.

use vstd::prelude::*;

use crate::catalog::Op;
use crate::value::{assoc_get, jv_get, Jv, WireValue};

verus! {

broadcast use vstd::std_specs::vec::group_vec_axioms, vstd::seq::group_seq_axioms;

/// The message for a required field that is absent.
pub open spec fn missing_msg(k: Seq<char>) -> Seq<char> {
    "missing field `"@ + k + "`"@
}

/// The message for a required field of the wrong type.
pub open spec fn invalid_msg(k: Seq<char>) -> Seq<char> {
    "invalid type for field `"@ + k + "`"@
}

/// Strict lookup of a required string field.
pub open spec fn req_str_spec(p: Jv, k: Seq<char>) -> Result<Seq<char>, Seq<char>> {
    match jv_get(p, k) {
        Option::None => Err(missing_msg(k)),
        Option::Some(f) => match f {
            Jv::Str(s) => Ok(s),
            _ => Err(invalid_msg(k)),
        },
    }
}

/// Strict lookup of a required unsigned number field.
pub open spec fn req_u64_spec(p: Jv, k: Seq<char>) -> Result<u64, Seq<char>> {
    match jv_get(p, k) {
        Option::None => Err(missing_msg(k)),
        Option::Some(f) => match f {
            Jv::UInt(u) => Ok(u),
            _ => Err(invalid_msg(k)),
        },
    }
}

/// Loose lookup of an optional boolean: present and boolean, or absent.
pub open spec fn opt_bool_spec(p: Jv, k: Seq<char>) -> Option<bool> {
    match jv_get(p, k) {
        Option::Some(f) => match f {
            Jv::Bool(b) => Some(b),
            _ => None,
        },
        Option::None => None,
    }
}

/// Loose lookup of an optional number that must fit in `u32`.
pub open spec fn opt_u32_spec(p: Jv, k: Seq<char>) -> Option<u32> {
    match jv_get(p, k) {
        Option::Some(f) => match f {
            Jv::UInt(u) => if u <= u32::MAX {
                Some(u as u32)
            } else {
                None
            },
            _ => None,
        },
        Option::None => None,
    }
}

/// Loose lookup of an optional string.
pub open spec fn opt_str_spec(p: Jv, k: Seq<char>) -> Option<Seq<char>> {
    match jv_get(p, k) {
        Option::Some(f) => match f {
            Jv::Str(s) => Some(s),
            _ => None,
        },
        Option::None => None,
    }
}

fn missing_field_msg(key: &str) -> (r: String)
    ensures
        r@ == missing_msg(key@),
{
    let s = String::from_str("missing field `").concat(key).concat("`");
    proof {
        assert(s@ =~= missing_msg(key@));
    }
    s
}

fn invalid_field_msg(key: &str) -> (r: String)
    ensures
        r@ == invalid_msg(key@),
{
    let s = String::from_str("invalid type for field `").concat(key).concat("`");
    proof {
        assert(s@ =~= invalid_msg(key@));
    }
    s
}

/// Strict required-string lookup, as `req_str_spec` describes.
pub fn req_string_field(p: &WireValue, key: &str) -> (r: Result<String, String>)
    ensures
        match r {
            Ok(s) => req_str_spec(p@, key@) == Ok::<Seq<char>, Seq<char>>(s@),
            Err(e) => req_str_spec(p@, key@) == Err::<Seq<char>, Seq<char>>(e@),
        },
{
    match p.get_field(key) {
        Option::None => Err(missing_field_msg(key)),
        Option::Some(f) => match f {
            WireValue::Str(s) => Ok(s.clone()),
            _ => Err(invalid_field_msg(key)),
        },
    }
}

/// Strict required-number lookup, as `req_u64_spec` describes.
pub fn req_u64_field(p: &WireValue, key: &str) -> (r: Result<u64, String>)
    ensures
        match r {
            Ok(u) => req_u64_spec(p@, key@) == Ok::<u64, Seq<char>>(u),
            Err(e) => req_u64_spec(p@, key@) == Err::<u64, Seq<char>>(e@),
        },
{
    match p.get_field(key) {
        Option::None => Err(missing_field_msg(key)),
        Option::Some(f) => match f {
            WireValue::UInt(u) => Ok(*u),
            _ => Err(invalid_field_msg(key)),
        },
    }
}

/// Loose optional-boolean lookup, as `opt_bool_spec` describes.
pub fn opt_bool_field(p: &WireValue, key: &str) -> (r: Option<bool>)
    ensures
        r == opt_bool_spec(p@, key@),
{
    match p.get_field(key) {
        Option::Some(WireValue::Bool(b)) => Some(*b),
        _ => None,
    }
}

/// Loose optional-number lookup, as `opt_u32_spec` describes.
pub fn opt_u32_field(p: &WireValue, key: &str) -> (r: Option<u32>)
    ensures
        r == opt_u32_spec(p@, key@),
{
    match p.get_field(key) {
        Option::Some(WireValue::UInt(u)) => if *u <= u32::MAX as u64 {
            Some(*u as u32)
        } else {
            None
        },
        _ => None,
    }
}

/// Loose optional-string lookup, as `opt_str_spec` describes.
pub fn opt_string_field(p: &WireValue, key: &str) -> (r: Option<String>)
    ensures
        match r {
            Some(s) => opt_str_spec(p@, key@) == Some(s@),
            None => opt_str_spec(p@, key@) is None,
        },
{
    match p.get_field(key) {
        Option::Some(WireValue::Str(s)) => Some(s.clone()),
        _ => None,
    }
}

/// The parameter shape of an operation: which fields its request carries.
#[derive(Clone, Copy, PartialEq, Eq, Structural, Debug)]
pub enum ArgShape {
    WsId,
    WsPath,
    WsSha,
    WsMessage,
    WsName,
    PullRequest,
    InitRepo,
    CreateRepo,
    Roots,
    Log,
    Generate,
}

/// The decoded arguments of an operation, in mathematical form.
pub enum ArgsView {
    WsId { workspace_id: Seq<char> },
    WsPath { workspace_id: Seq<char>, path: Seq<char> },
    WsSha { workspace_id: Seq<char>, sha: Seq<char> },
    WsMessage { workspace_id: Seq<char>, message: Seq<char> },
    WsName { workspace_id: Seq<char>, name: Seq<char> },
    PullRequest { workspace_id: Seq<char>, pr_number: u64 },
    InitRepo { workspace_id: Seq<char>, branch: Seq<char>, force: Option<bool> },
    CreateRepo {
        workspace_id: Seq<char>,
        repo: Seq<char>,
        visibility: Seq<char>,
        branch: Option<Seq<char>>,
    },
    Roots { workspace_id: Seq<char>, depth: Option<u32> },
    Log { workspace_id: Seq<char>, limit: Option<u32> },
    Generate { workspace_id: Seq<char>, model: Option<Seq<char>> },
}

/// The parameter shape each operation uses.
pub open spec fn arg_shape(op: Op) -> ArgShape {
    match op {
        Op::GetGitStatus => ArgShape::WsId,
        Op::InitGitRepo => ArgShape::InitRepo,
        Op::CreateGithubRepo => ArgShape::CreateRepo,
        Op::StageGitFile => ArgShape::WsPath,
        Op::StageGitAll => ArgShape::WsId,
        Op::UnstageGitFile => ArgShape::WsPath,
        Op::RevertGitFile => ArgShape::WsPath,
        Op::RevertGitAll => ArgShape::WsId,
        Op::CommitGit => ArgShape::WsMessage,
        Op::PushGit => ArgShape::WsId,
        Op::PullGit => ArgShape::WsId,
        Op::FetchGit => ArgShape::WsId,
        Op::SyncGit => ArgShape::WsId,
        Op::ListGitRoots => ArgShape::Roots,
        Op::GetGitDiffs => ArgShape::WsId,
        Op::GetGitLog => ArgShape::Log,
        Op::GetGitCommitDiff => ArgShape::WsSha,
        Op::GetGitRemote => ArgShape::WsId,
        Op::GetGithubIssues => ArgShape::WsId,
        Op::GetGithubPullRequests => ArgShape::WsId,
        Op::GetGithubPullRequestDiff => ArgShape::PullRequest,
        Op::GetGithubPullRequestComments => ArgShape::PullRequest,
        Op::CheckoutGithubPullRequest => ArgShape::PullRequest,
        Op::ListGitBranches => ArgShape::WsId,
        Op::CheckoutGitBranch => ArgShape::WsName,
        Op::CreateGitBranch => ArgShape::WsName,
        Op::GenerateCommitMessage => ArgShape::Generate,
    }
}

/// What decoding a parameter object of a given shape yields: the typed
/// arguments, or the first required field's failure.
pub open spec fn decode_args_spec(s: ArgShape, p: Jv) -> Result<ArgsView, Seq<char>> {
    match s {
        ArgShape::WsId => match req_str_spec(p, "workspaceId"@) {
            Ok(ws) => Ok(ArgsView::WsId { workspace_id: ws }),
            Err(e) => Err(e),
        },
        ArgShape::WsPath => match (req_str_spec(p, "workspaceId"@), req_str_spec(p, "path"@)) {
            (Ok(ws), Ok(path)) => Ok(ArgsView::WsPath { workspace_id: ws, path }),
            (Err(e), _) => Err(e),
            (_, Err(e)) => Err(e),
        },
        ArgShape::WsSha => match (req_str_spec(p, "workspaceId"@), req_str_spec(p, "sha"@)) {
            (Ok(ws), Ok(sha)) => Ok(ArgsView::WsSha { workspace_id: ws, sha }),
            (Err(e), _) => Err(e),
            (_, Err(e)) => Err(e),
        },
        ArgShape::WsMessage => match (
            req_str_spec(p, "workspaceId"@),
            req_str_spec(p, "message"@),
        ) {
            (Ok(ws), Ok(message)) => Ok(ArgsView::WsMessage { workspace_id: ws, message }),
            (Err(e), _) => Err(e),
            (_, Err(e)) => Err(e),
        },
        ArgShape::WsName => match (req_str_spec(p, "workspaceId"@), req_str_spec(p, "name"@)) {
            (Ok(ws), Ok(name)) => Ok(ArgsView::WsName { workspace_id: ws, name }),
            (Err(e), _) => Err(e),
            (_, Err(e)) => Err(e),
        },
        ArgShape::PullRequest => match (
            req_str_spec(p, "workspaceId"@),
            req_u64_spec(p, "prNumber"@),
        ) {
            (Ok(ws), Ok(pr)) => Ok(ArgsView::PullRequest { workspace_id: ws, pr_number: pr }),
            (Err(e), _) => Err(e),
            (_, Err(e)) => Err(e),
        },
        ArgShape::InitRepo => match (
            req_str_spec(p, "workspaceId"@),
            req_str_spec(p, "branch"@),
        ) {
            (Ok(ws), Ok(branch)) => Ok(
                ArgsView::InitRepo {
                    workspace_id: ws,
                    branch,
                    force: opt_bool_spec(p, "force"@),
                },
            ),
            (Err(e), _) => Err(e),
            (_, Err(e)) => Err(e),
        },
        ArgShape::CreateRepo => match (
            req_str_spec(p, "workspaceId"@),
            req_str_spec(p, "repo"@),
            req_str_spec(p, "visibility"@),
        ) {
            (Ok(ws), Ok(repo), Ok(visibility)) => Ok(
                ArgsView::CreateRepo {
                    workspace_id: ws,
                    repo,
                    visibility,
                    branch: opt_str_spec(p, "branch"@),
                },
            ),
            (Err(e), _, _) => Err(e),
            (_, Err(e), _) => Err(e),
            (_, _, Err(e)) => Err(e),
        },
        ArgShape::Roots => match req_str_spec(p, "workspaceId"@) {
            Ok(ws) => Ok(ArgsView::Roots { workspace_id: ws, depth: opt_u32_spec(p, "depth"@) }),
            Err(e) => Err(e),
        },
        ArgShape::Log => match req_str_spec(p, "workspaceId"@) {
            Ok(ws) => Ok(ArgsView::Log { workspace_id: ws, limit: opt_u32_spec(p, "limit"@) }),
            Err(e) => Err(e),
        },
        ArgShape::Generate => match req_str_spec(p, "workspaceId"@) {
            Ok(ws) => Ok(
                ArgsView::Generate {
                    workspace_id: ws,
                    model: opt_str_spec(p, "commitMessageModelId"@),
                },
            ),
            Err(e) => Err(e),
        },
    }
}

/// The shape that a decoded argument value belongs to.
pub open spec fn shape_of_args(a: ArgsView) -> ArgShape {
    match a {
        ArgsView::WsId { .. } => ArgShape::WsId,
        ArgsView::WsPath { .. } => ArgShape::WsPath,
        ArgsView::WsSha { .. } => ArgShape::WsSha,
        ArgsView::WsMessage { .. } => ArgShape::WsMessage,
        ArgsView::WsName { .. } => ArgShape::WsName,
        ArgsView::PullRequest { .. } => ArgShape::PullRequest,
        ArgsView::InitRepo { .. } => ArgShape::InitRepo,
        ArgsView::CreateRepo { .. } => ArgShape::CreateRepo,
        ArgsView::Roots { .. } => ArgShape::Roots,
        ArgsView::Log { .. } => ArgShape::Log,
        ArgsView::Generate { .. } => ArgShape::Generate,
    }
}

pub open spec fn opt_bool_jv(b: Option<bool>) -> Jv {
    match b {
        Option::Some(x) => Jv::Bool(x),
        Option::None => Jv::Null,
    }
}

pub open spec fn opt_u32_jv(u: Option<u32>) -> Jv {
    match u {
        Option::Some(x) => Jv::UInt(x as u64),
        Option::None => Jv::Null,
    }
}

pub open spec fn opt_str_jv(s: Option<Seq<char>>) -> Jv {
    match s {
        Option::Some(x) => Jv::Str(x),
        Option::None => Jv::Null,
    }
}

/// The parameter object the caller side sends for given arguments.  An
/// absent optional field is sent as an explicit null; the daemon side applies
/// its own default.
pub open spec fn params_view(a: ArgsView) -> Jv {
    match a {
        ArgsView::WsId { workspace_id } => Jv::Obj(
            seq![("workspaceId"@, Jv::Str(workspace_id))],
        ),
        ArgsView::WsPath { workspace_id, path } => Jv::Obj(
            seq![("workspaceId"@, Jv::Str(workspace_id)), ("path"@, Jv::Str(path))],
        ),
        ArgsView::WsSha { workspace_id, sha } => Jv::Obj(
            seq![("workspaceId"@, Jv::Str(workspace_id)), ("sha"@, Jv::Str(sha))],
        ),
        ArgsView::WsMessage { workspace_id, message } => Jv::Obj(
            seq![("workspaceId"@, Jv::Str(workspace_id)), ("message"@, Jv::Str(message))],
        ),
        ArgsView::WsName { workspace_id, name } => Jv::Obj(
            seq![("workspaceId"@, Jv::Str(workspace_id)), ("name"@, Jv::Str(name))],
        ),
        ArgsView::PullRequest { workspace_id, pr_number } => Jv::Obj(
            seq![("workspaceId"@, Jv::Str(workspace_id)), ("prNumber"@, Jv::UInt(pr_number))],
        ),
        ArgsView::InitRepo { workspace_id, branch, force } => Jv::Obj(
            seq![
                ("workspaceId"@, Jv::Str(workspace_id)),
                ("branch"@, Jv::Str(branch)),
                ("force"@, opt_bool_jv(force)),
            ],
        ),
        ArgsView::CreateRepo { workspace_id, repo, visibility, branch } => Jv::Obj(
            seq![
                ("workspaceId"@, Jv::Str(workspace_id)),
                ("repo"@, Jv::Str(repo)),
                ("visibility"@, Jv::Str(visibility)),
                ("branch"@, opt_str_jv(branch)),
            ],
        ),
        ArgsView::Roots { workspace_id, depth } => Jv::Obj(
            seq![("workspaceId"@, Jv::Str(workspace_id)), ("depth"@, opt_u32_jv(depth))],
        ),
        ArgsView::Log { workspace_id, limit } => Jv::Obj(
            seq![("workspaceId"@, Jv::Str(workspace_id)), ("limit"@, opt_u32_jv(limit))],
        ),
        ArgsView::Generate { workspace_id, model } => Jv::Obj(
            seq![("workspaceId"@, Jv::Str(workspace_id)), ("commitMessageModelId"@, opt_str_jv(model))],
        ),
    }
}

/// Decodes a workspace-scoped parameter object.
pub fn decode_ws_id(p: &WireValue) -> (r: Result<String, String>)
    ensures
        match r {
            Ok(ws) => decode_args_spec(ArgShape::WsId, p@) == Ok::<ArgsView, Seq<char>>(
                ArgsView::WsId { workspace_id: ws@ },
            ),
            Err(e) => decode_args_spec(ArgShape::WsId, p@) == Err::<ArgsView, Seq<char>>(e@),
        },
{
    req_string_field(p, "workspaceId")
}

/// Decodes a workspace/path parameter object.
pub fn decode_ws_path(p: &WireValue) -> (r: Result<(String, String), String>)
    ensures
        match r {
            Ok(t) => decode_args_spec(ArgShape::WsPath, p@) == Ok::<ArgsView, Seq<char>>(
                ArgsView::WsPath { workspace_id: t.0@, path: t.1@ },
            ),
            Err(e) => decode_args_spec(ArgShape::WsPath, p@) == Err::<ArgsView, Seq<char>>(e@),
        },
{
    let ws = match req_string_field(p, "workspaceId") {
        Ok(s) => s,
        Err(e) => {
            return Err(e);
        },
    };
    let path = match req_string_field(p, "path") {
        Ok(s) => s,
        Err(e) => {
            return Err(e);
        },
    };
    Ok((ws, path))
}

/// Decodes a workspace/sha parameter object.
pub fn decode_ws_sha(p: &WireValue) -> (r: Result<(String, String), String>)
    ensures
        match r {
            Ok(t) => decode_args_spec(ArgShape::WsSha, p@) == Ok::<ArgsView, Seq<char>>(
                ArgsView::WsSha { workspace_id: t.0@, sha: t.1@ },
            ),
            Err(e) => decode_args_spec(ArgShape::WsSha, p@) == Err::<ArgsView, Seq<char>>(e@),
        },
{
    let ws = match req_string_field(p, "workspaceId") {
        Ok(s) => s,
        Err(e) => {
            return Err(e);
        },
    };
    let sha = match req_string_field(p, "sha") {
        Ok(s) => s,
        Err(e) => {
            return Err(e);
        },
    };
    Ok((ws, sha))
}

/// Decodes a workspace/message parameter object.
pub fn decode_ws_message(p: &WireValue) -> (r: Result<(String, String), String>)
    ensures
        match r {
            Ok(t) => decode_args_spec(ArgShape::WsMessage, p@) == Ok::<ArgsView, Seq<char>>(
                ArgsView::WsMessage { workspace_id: t.0@, message: t.1@ },
            ),
            Err(e) => decode_args_spec(ArgShape::WsMessage, p@) == Err::<ArgsView, Seq<char>>(e@),
        },
{
    let ws = match req_string_field(p, "workspaceId") {
        Ok(s) => s,
        Err(e) => {
            return Err(e);
        },
    };
    let message = match req_string_field(p, "message") {
        Ok(s) => s,
        Err(e) => {
            return Err(e);
        },
    };
    Ok((ws, message))
}

/// Decodes a workspace/name parameter object.
pub fn decode_ws_name(p: &WireValue) -> (r: Result<(String, String), String>)
    ensures
        match r {
            Ok(t) => decode_args_spec(ArgShape::WsName, p@) == Ok::<ArgsView, Seq<char>>(
                ArgsView::WsName { workspace_id: t.0@, name: t.1@ },
            ),
            Err(e) => decode_args_spec(ArgShape::WsName, p@) == Err::<ArgsView, Seq<char>>(e@),
        },
{
    let ws = match req_string_field(p, "workspaceId") {
        Ok(s) => s,
        Err(e) => {
            return Err(e);
        },
    };
    let name = match req_string_field(p, "name") {
        Ok(s) => s,
        Err(e) => {
            return Err(e);
        },
    };
    Ok((ws, name))
}

/// Decodes a workspace/pull-request-number parameter object.
pub fn decode_pull_request(p: &WireValue) -> (r: Result<(String, u64), String>)
    ensures
        match r {
            Ok(t) => decode_args_spec(ArgShape::PullRequest, p@) == Ok::<ArgsView, Seq<char>>(
                ArgsView::PullRequest { workspace_id: t.0@, pr_number: t.1 },
            ),
            Err(e) => decode_args_spec(ArgShape::PullRequest, p@) == Err::<ArgsView, Seq<char>>(
                e@,
            ),
        },
{
    let ws = match req_string_field(p, "workspaceId") {
        Ok(s) => s,
        Err(e) => {
            return Err(e);
        },
    };
    let pr = match req_u64_field(p, "prNumber") {
        Ok(u) => u,
        Err(e) => {
            return Err(e);
        },
    };
    Ok((ws, pr))
}

/// Decodes the repository-initialisation parameters; the optional `force`
/// flag is read loosely from the raw object.
pub fn decode_init_repo(p: &WireValue) -> (r: Result<(String, String, Option<bool>), String>)
    ensures
        match r {
            Ok(t) => decode_args_spec(ArgShape::InitRepo, p@) == Ok::<ArgsView, Seq<char>>(
                ArgsView::InitRepo { workspace_id: t.0@, branch: t.1@, force: t.2 },
            ),
            Err(e) => decode_args_spec(ArgShape::InitRepo, p@) == Err::<ArgsView, Seq<char>>(e@),
        },
{
    let ws = match req_string_field(p, "workspaceId") {
        Ok(s) => s,
        Err(e) => {
            return Err(e);
        },
    };
    let branch = match req_string_field(p, "branch") {
        Ok(s) => s,
        Err(e) => {
            return Err(e);
        },
    };
    let force = opt_bool_field(p, "force");
    Ok((ws, branch, force))
}

/// Decodes the repository-creation parameters; the optional `branch` is read
/// loosely from the raw object.
pub fn decode_create_repo(p: &WireValue) -> (r: Result<
    (String, String, String, Option<String>),
    String,
>)
    ensures
        match r {
            Ok(t) => match t.3 {
                Some(b) => decode_args_spec(ArgShape::CreateRepo, p@) == Ok::<
                    ArgsView,
                    Seq<char>,
                >(
                    ArgsView::CreateRepo {
                        workspace_id: t.0@,
                        repo: t.1@,
                        visibility: t.2@,
                        branch: Some(b@),
                    },
                ),
                None => decode_args_spec(ArgShape::CreateRepo, p@) == Ok::<ArgsView, Seq<char>>(
                    ArgsView::CreateRepo {
                        workspace_id: t.0@,
                        repo: t.1@,
                        visibility: t.2@,
                        branch: None,
                    },
                ),
            },
            Err(e) => decode_args_spec(ArgShape::CreateRepo, p@) == Err::<ArgsView, Seq<char>>(
                e@,
            ),
        },
{
    let ws = match req_string_field(p, "workspaceId") {
        Ok(s) => s,
        Err(e) => {
            return Err(e);
        },
    };
    let repo = match req_string_field(p, "repo") {
        Ok(s) => s,
        Err(e) => {
            return Err(e);
        },
    };
    let visibility = match req_string_field(p, "visibility") {
        Ok(s) => s,
        Err(e) => {
            return Err(e);
        },
    };
    let branch = opt_string_field(p, "branch");
    Ok((ws, repo, visibility, branch))
}

/// Decodes the root-listing parameters; the optional `depth` is read loosely.
pub fn decode_roots(p: &WireValue) -> (r: Result<(String, Option<u32>), String>)
    ensures
        match r {
            Ok(t) => decode_args_spec(ArgShape::Roots, p@) == Ok::<ArgsView, Seq<char>>(
                ArgsView::Roots { workspace_id: t.0@, depth: t.1 },
            ),
            Err(e) => decode_args_spec(ArgShape::Roots, p@) == Err::<ArgsView, Seq<char>>(e@),
        },
{
    let ws = match req_string_field(p, "workspaceId") {
        Ok(s) => s,
        Err(e) => {
            return Err(e);
        },
    };
    let depth = opt_u32_field(p, "depth");
    Ok((ws, depth))
}

/// Decodes the log parameters; the optional `limit` is read loosely.
pub fn decode_log(p: &WireValue) -> (r: Result<(String, Option<u32>), String>)
    ensures
        match r {
            Ok(t) => decode_args_spec(ArgShape::Log, p@) == Ok::<ArgsView, Seq<char>>(
                ArgsView::Log { workspace_id: t.0@, limit: t.1 },
            ),
            Err(e) => decode_args_spec(ArgShape::Log, p@) == Err::<ArgsView, Seq<char>>(e@),
        },
{
    let ws = match req_string_field(p, "workspaceId") {
        Ok(s) => s,
        Err(e) => {
            return Err(e);
        },
    };
    let limit = opt_u32_field(p, "limit");
    Ok((ws, limit))
}

/// Decodes the commit-message-generation parameters; the optional model
/// selector is read loosely.
pub fn decode_generate(p: &WireValue) -> (r: Result<(String, Option<String>), String>)
    ensures
        match r {
            Ok(t) => match t.1 {
                Some(m) => decode_args_spec(ArgShape::Generate, p@) == Ok::<ArgsView, Seq<char>>(
                    ArgsView::Generate { workspace_id: t.0@, model: Some(m@) },
                ),
                None => decode_args_spec(ArgShape::Generate, p@) == Ok::<ArgsView, Seq<char>>(
                    ArgsView::Generate { workspace_id: t.0@, model: None },
                ),
            },
            Err(e) => decode_args_spec(ArgShape::Generate, p@) == Err::<ArgsView, Seq<char>>(e@),
        },
{
    let ws = match req_string_field(p, "workspaceId") {
        Ok(s) => s,
        Err(e) => {
            return Err(e);
        },
    };
    let model = opt_string_field(p, "commitMessageModelId");
    Ok((ws, model))
}

/// A request scoped to one workspace.
pub struct WorkspaceIdRequest {
    pub workspace_id: String,
}

impl WorkspaceIdRequest {
    /// The arguments this request carries.
    pub open spec fn args_view(&self) -> ArgsView {
        ArgsView::WsId { workspace_id: self.workspace_id@ }
    }

    /// Encodes the request as a parameter object.
    pub fn to_params(&self) -> (r: WireValue)
        ensures
            r@ == params_view(self.args_view()),
    {
        let mut fields: Vec<(String, WireValue)> = Vec::new();
        fields.push((String::from_str("workspaceId"), WireValue::Str(self.workspace_id.clone())));
        proof {
            crate::value::lemma_obj_view_len(fields@);
            assert(crate::value::obj_view(fields@) =~= params_view(self.args_view())->Obj_0);
        }
        WireValue::Obj(fields)
    }
}

/// A workspace-scoped request naming one file path.
pub struct WorkspacePathRequest {
    pub workspace_id: String,
    pub path: String,
}

impl WorkspacePathRequest {
    /// The arguments this request carries.
    pub open spec fn args_view(&self) -> ArgsView {
        ArgsView::WsPath { workspace_id: self.workspace_id@, path: self.path@ }
    }

    /// Encodes the request as a parameter object.
    pub fn to_params(&self) -> (r: WireValue)
        ensures
            r@ == params_view(self.args_view()),
    {
        let mut fields: Vec<(String, WireValue)> = Vec::new();
        fields.push((String::from_str("workspaceId"), WireValue::Str(self.workspace_id.clone())));
        fields.push((String::from_str("path"), WireValue::Str(self.path.clone())));
        proof {
            crate::value::lemma_obj_view_len(fields@);
            assert(crate::value::obj_view(fields@) =~= params_view(self.args_view())->Obj_0);
        }
        WireValue::Obj(fields)
    }
}

/// A workspace-scoped request naming one commit.
pub struct WorkspaceShaRequest {
    pub workspace_id: String,
    pub sha: String,
}

impl WorkspaceShaRequest {
    /// The arguments this request carries.
    pub open spec fn args_view(&self) -> ArgsView {
        ArgsView::WsSha { workspace_id: self.workspace_id@, sha: self.sha@ }
    }

    /// Encodes the request as a parameter object.
    pub fn to_params(&self) -> (r: WireValue)
        ensures
            r@ == params_view(self.args_view()),
    {
        let mut fields: Vec<(String, WireValue)> = Vec::new();
        fields.push((String::from_str("workspaceId"), WireValue::Str(self.workspace_id.clone())));
        fields.push((String::from_str("sha"), WireValue::Str(self.sha.clone())));
        proof {
            crate::value::lemma_obj_view_len(fields@);
            assert(crate::value::obj_view(fields@) =~= params_view(self.args_view())->Obj_0);
        }
        WireValue::Obj(fields)
    }
}

/// A workspace-scoped request carrying a commit message.
pub struct WorkspaceMessageRequest {
    pub workspace_id: String,
    pub message: String,
}

impl WorkspaceMessageRequest {
    /// The arguments this request carries.
    pub open spec fn args_view(&self) -> ArgsView {
        ArgsView::WsMessage { workspace_id: self.workspace_id@, message: self.message@ }
    }

    /// Encodes the request as a parameter object.
    pub fn to_params(&self) -> (r: WireValue)
        ensures
            r@ == params_view(self.args_view()),
    {
        let mut fields: Vec<(String, WireValue)> = Vec::new();
        fields.push((String::from_str("workspaceId"), WireValue::Str(self.workspace_id.clone())));
        fields.push((String::from_str("message"), WireValue::Str(self.message.clone())));
        proof {
            crate::value::lemma_obj_view_len(fields@);
            assert(crate::value::obj_view(fields@) =~= params_view(self.args_view())->Obj_0);
        }
        WireValue::Obj(fields)
    }
}

/// A workspace-scoped request naming a branch.
pub struct WorkspaceNameRequest {
    pub workspace_id: String,
    pub name: String,
}

impl WorkspaceNameRequest {
    /// The arguments this request carries.
    pub open spec fn args_view(&self) -> ArgsView {
        ArgsView::WsName { workspace_id: self.workspace_id@, name: self.name@ }
    }

    /// Encodes the request as a parameter object.
    pub fn to_params(&self) -> (r: WireValue)
        ensures
            r@ == params_view(self.args_view()),
    {
        let mut fields: Vec<(String, WireValue)> = Vec::new();
        fields.push((String::from_str("workspaceId"), WireValue::Str(self.workspace_id.clone())));
        fields.push((String::from_str("name"), WireValue::Str(self.name.clone())));
        proof {
            crate::value::lemma_obj_view_len(fields@);
            assert(crate::value::obj_view(fields@) =~= params_view(self.args_view())->Obj_0);
        }
        WireValue::Obj(fields)
    }
}

/// A workspace-scoped request naming a pull request.
pub struct GitHubPullRequestRequest {
    pub workspace_id: String,
    pub pr_number: u64,
}

impl GitHubPullRequestRequest {
    /// The arguments this request carries.
    pub open spec fn args_view(&self) -> ArgsView {
        ArgsView::PullRequest { workspace_id: self.workspace_id@, pr_number: self.pr_number }
    }

    /// Encodes the request as a parameter object.
    pub fn to_params(&self) -> (r: WireValue)
        ensures
            r@ == params_view(self.args_view()),
    {
        let mut fields: Vec<(String, WireValue)> = Vec::new();
        fields.push((String::from_str("workspaceId"), WireValue::Str(self.workspace_id.clone())));
        fields.push((String::from_str("prNumber"), WireValue::UInt(self.pr_number)));
        proof {
            crate::value::lemma_obj_view_len(fields@);
            assert(crate::value::obj_view(fields@) =~= params_view(self.args_view())->Obj_0);
        }
        WireValue::Obj(fields)
    }
}

/// The repository-initialisation request.
pub struct InitGitRepoRequest {
    pub workspace_id: String,
    pub branch: String,
    pub force: Option<bool>,
}

impl InitGitRepoRequest {
    /// The arguments this request carries.
    pub open spec fn args_view(&self) -> ArgsView {
        ArgsView::InitRepo { workspace_id: self.workspace_id@, branch: self.branch@, force: self.force }
    }

    /// Encodes the request as a parameter object.
    pub fn to_params(&self) -> (r: WireValue)
        ensures
            r@ == params_view(self.args_view()),
    {
        let mut fields: Vec<(String, WireValue)> = Vec::new();
        fields.push((String::from_str("workspaceId"), WireValue::Str(self.workspace_id.clone())));
        fields.push((String::from_str("branch"), WireValue::Str(self.branch.clone())));
        fields.push((String::from_str("force"), (match self.force {
            Some(b) => WireValue::Bool(b),
            None => WireValue::Null,
        })));
        proof {
            crate::value::lemma_obj_view_len(fields@);
            assert(crate::value::obj_view(fields@) =~= params_view(self.args_view())->Obj_0);
        }
        WireValue::Obj(fields)
    }
}

/// The repository-creation request.
pub struct CreateGitHubRepoRequest {
    pub workspace_id: String,
    pub repo: String,
    pub visibility: String,
    pub branch: Option<String>,
}

impl CreateGitHubRepoRequest {
    /// The arguments this request carries.
    pub open spec fn args_view(&self) -> ArgsView {
        ArgsView::CreateRepo { workspace_id: self.workspace_id@, repo: self.repo@, visibility: self.visibility@, branch: (match self.branch { Some(s) => Some(s@), None => None }) }
    }

    /// Encodes the request as a parameter object.
    pub fn to_params(&self) -> (r: WireValue)
        ensures
            r@ == params_view(self.args_view()),
    {
        let mut fields: Vec<(String, WireValue)> = Vec::new();
        fields.push((String::from_str("workspaceId"), WireValue::Str(self.workspace_id.clone())));
        fields.push((String::from_str("repo"), WireValue::Str(self.repo.clone())));
        fields.push((String::from_str("visibility"), WireValue::Str(self.visibility.clone())));
        fields.push((String::from_str("branch"), (match &self.branch {
            Some(s) => WireValue::Str(s.clone()),
            None => WireValue::Null,
        })));
        proof {
            crate::value::lemma_obj_view_len(fields@);
            assert(crate::value::obj_view(fields@) =~= params_view(self.args_view())->Obj_0);
        }
        WireValue::Obj(fields)
    }
}

/// The root-listing request.
pub struct ListGitRootsRequest {
    pub workspace_id: String,
    pub depth: Option<u32>,
}

impl ListGitRootsRequest {
    /// The arguments this request carries.
    pub open spec fn args_view(&self) -> ArgsView {
        ArgsView::Roots { workspace_id: self.workspace_id@, depth: self.depth }
    }

    /// Encodes the request as a parameter object.
    pub fn to_params(&self) -> (r: WireValue)
        ensures
            r@ == params_view(self.args_view()),
    {
        let mut fields: Vec<(String, WireValue)> = Vec::new();
        fields.push((String::from_str("workspaceId"), WireValue::Str(self.workspace_id.clone())));
        fields.push((String::from_str("depth"), (match self.depth {
            Some(d) => WireValue::UInt(d as u64),
            None => WireValue::Null,
        })));
        proof {
            crate::value::lemma_obj_view_len(fields@);
            assert(crate::value::obj_view(fields@) =~= params_view(self.args_view())->Obj_0);
        }
        WireValue::Obj(fields)
    }
}

/// The log request.
pub struct GetGitLogRequest {
    pub workspace_id: String,
    pub limit: Option<u32>,
}

impl GetGitLogRequest {
    /// The arguments this request carries.
    pub open spec fn args_view(&self) -> ArgsView {
        ArgsView::Log { workspace_id: self.workspace_id@, limit: self.limit }
    }

    /// Encodes the request as a parameter object.
    pub fn to_params(&self) -> (r: WireValue)
        ensures
            r@ == params_view(self.args_view()),
    {
        let mut fields: Vec<(String, WireValue)> = Vec::new();
        fields.push((String::from_str("workspaceId"), WireValue::Str(self.workspace_id.clone())));
        fields.push((String::from_str("limit"), (match self.limit {
            Some(d) => WireValue::UInt(d as u64),
            None => WireValue::Null,
        })));
        proof {
            crate::value::lemma_obj_view_len(fields@);
            assert(crate::value::obj_view(fields@) =~= params_view(self.args_view())->Obj_0);
        }
        WireValue::Obj(fields)
    }
}

/// The commit-message-generation request.
pub struct GenerateCommitMessageRequest {
    pub workspace_id: String,
    pub commit_message_model_id: Option<String>,
}

impl GenerateCommitMessageRequest {
    /// The arguments this request carries.
    pub open spec fn args_view(&self) -> ArgsView {
        ArgsView::Generate { workspace_id: self.workspace_id@, model: (match self.commit_message_model_id { Some(s) => Some(s@), None => None }) }
    }

    /// Encodes the request as a parameter object.
    pub fn to_params(&self) -> (r: WireValue)
        ensures
            r@ == params_view(self.args_view()),
    {
        let mut fields: Vec<(String, WireValue)> = Vec::new();
        fields.push((String::from_str("workspaceId"), WireValue::Str(self.workspace_id.clone())));
        fields.push((String::from_str("commitMessageModelId"), (match &self.commit_message_model_id {
            Some(s) => WireValue::Str(s.clone()),
            None => WireValue::Null,
        })));
        proof {
            crate::value::lemma_obj_view_len(fields@);
            assert(crate::value::obj_view(fields@) =~= params_view(self.args_view())->Obj_0);
        }
        WireValue::Obj(fields)
    }
}

/// Round-trip law: for every operation, decoding an encoded parameter
/// object yields exactly the arguments that were encoded, whether the
/// optional fields are absent or populated.
pub proof fn lemma_params_round_trip(a: ArgsView)
    ensures
        decode_args_spec(shape_of_args(a), params_view(a)) == Ok::<ArgsView, Seq<char>>(a),
{
    match a {
        ArgsView::WsId { workspace_id } => {
            let fields = seq![("workspaceId"@, Jv::Str(workspace_id))];
            assert(params_view(a) == Jv::Obj(fields));
            reveal_with_fuel(assoc_get, 5);
            reveal_strlit("workspaceId");
            assert("workspaceId"@.len() == 11);
            assert(assoc_get(fields, "workspaceId"@) == Some(Jv::Str(workspace_id)));
        },
        ArgsView::WsPath { workspace_id, path } => {
            let fields = seq![("workspaceId"@, Jv::Str(workspace_id)), ("path"@, Jv::Str(path))];
            assert(params_view(a) == Jv::Obj(fields));
            reveal_with_fuel(assoc_get, 5);
            reveal_strlit("workspaceId");
            assert("workspaceId"@.len() == 11);
            reveal_strlit("path");
            assert("path"@.len() == 4);
            let f1 = fields.drop_first();
            assert(f1 =~= seq![("path"@, Jv::Str(path))]);
            assert(assoc_get(fields, "workspaceId"@) == Some(Jv::Str(workspace_id)));
            assert(fields[0].0 != "path"@);
            assert(assoc_get(fields, "path"@) == Some(Jv::Str(path)));
        },
        ArgsView::WsSha { workspace_id, sha } => {
            let fields = seq![("workspaceId"@, Jv::Str(workspace_id)), ("sha"@, Jv::Str(sha))];
            assert(params_view(a) == Jv::Obj(fields));
            reveal_with_fuel(assoc_get, 5);
            reveal_strlit("workspaceId");
            assert("workspaceId"@.len() == 11);
            reveal_strlit("sha");
            assert("sha"@.len() == 3);
            let f1 = fields.drop_first();
            assert(f1 =~= seq![("sha"@, Jv::Str(sha))]);
            assert(assoc_get(fields, "workspaceId"@) == Some(Jv::Str(workspace_id)));
            assert(fields[0].0 != "sha"@);
            assert(assoc_get(fields, "sha"@) == Some(Jv::Str(sha)));
        },
        ArgsView::WsMessage { workspace_id, message } => {
            let fields = seq![("workspaceId"@, Jv::Str(workspace_id)), ("message"@, Jv::Str(message))];
            assert(params_view(a) == Jv::Obj(fields));
            reveal_with_fuel(assoc_get, 5);
            reveal_strlit("workspaceId");
            assert("workspaceId"@.len() == 11);
            reveal_strlit("message");
            assert("message"@.len() == 7);
            let f1 = fields.drop_first();
            assert(f1 =~= seq![("message"@, Jv::Str(message))]);
            assert(assoc_get(fields, "workspaceId"@) == Some(Jv::Str(workspace_id)));
            assert(fields[0].0 != "message"@);
            assert(assoc_get(fields, "message"@) == Some(Jv::Str(message)));
        },
        ArgsView::WsName { workspace_id, name } => {
            let fields = seq![("workspaceId"@, Jv::Str(workspace_id)), ("name"@, Jv::Str(name))];
            assert(params_view(a) == Jv::Obj(fields));
            reveal_with_fuel(assoc_get, 5);
            reveal_strlit("workspaceId");
            assert("workspaceId"@.len() == 11);
            reveal_strlit("name");
            assert("name"@.len() == 4);
            let f1 = fields.drop_first();
            assert(f1 =~= seq![("name"@, Jv::Str(name))]);
            assert(assoc_get(fields, "workspaceId"@) == Some(Jv::Str(workspace_id)));
            assert(fields[0].0 != "name"@);
            assert(assoc_get(fields, "name"@) == Some(Jv::Str(name)));
        },
        ArgsView::PullRequest { workspace_id, pr_number } => {
            let fields = seq![("workspaceId"@, Jv::Str(workspace_id)), ("prNumber"@, Jv::UInt(pr_number))];
            assert(params_view(a) == Jv::Obj(fields));
            reveal_with_fuel(assoc_get, 5);
            reveal_strlit("workspaceId");
            assert("workspaceId"@.len() == 11);
            reveal_strlit("prNumber");
            assert("prNumber"@.len() == 8);
            let f1 = fields.drop_first();
            assert(f1 =~= seq![("prNumber"@, Jv::UInt(pr_number))]);
            assert(assoc_get(fields, "workspaceId"@) == Some(Jv::Str(workspace_id)));
            assert(fields[0].0 != "prNumber"@);
            assert(assoc_get(fields, "prNumber"@) == Some(Jv::UInt(pr_number)));
        },
        ArgsView::InitRepo { workspace_id, branch, force } => {
            let fields = seq![("workspaceId"@, Jv::Str(workspace_id)), ("branch"@, Jv::Str(branch)), ("force"@, opt_bool_jv(force))];
            assert(params_view(a) == Jv::Obj(fields));
            reveal_with_fuel(assoc_get, 5);
            reveal_strlit("workspaceId");
            assert("workspaceId"@.len() == 11);
            reveal_strlit("branch");
            assert("branch"@.len() == 6);
            reveal_strlit("force");
            assert("force"@.len() == 5);
            let f1 = fields.drop_first();
            assert(f1 =~= seq![("branch"@, Jv::Str(branch)), ("force"@, opt_bool_jv(force))]);
            let f2 = f1.drop_first();
            assert(f2 =~= seq![("force"@, opt_bool_jv(force))]);
            assert(assoc_get(fields, "workspaceId"@) == Some(Jv::Str(workspace_id)));
            assert(fields[0].0 != "branch"@);
            assert(assoc_get(fields, "branch"@) == Some(Jv::Str(branch)));
            assert(fields[0].0 != "force"@);
            assert(f1[0].0 != "force"@);
            assert(assoc_get(fields, "force"@) == Some(opt_bool_jv(force)));
        },
        ArgsView::CreateRepo { workspace_id, repo, visibility, branch } => {
            let fields = seq![("workspaceId"@, Jv::Str(workspace_id)), ("repo"@, Jv::Str(repo)), ("visibility"@, Jv::Str(visibility)), ("branch"@, opt_str_jv(branch))];
            assert(params_view(a) == Jv::Obj(fields));
            reveal_with_fuel(assoc_get, 5);
            reveal_strlit("workspaceId");
            assert("workspaceId"@.len() == 11);
            reveal_strlit("repo");
            assert("repo"@.len() == 4);
            reveal_strlit("visibility");
            assert("visibility"@.len() == 10);
            reveal_strlit("branch");
            assert("branch"@.len() == 6);
            let f1 = fields.drop_first();
            assert(f1 =~= seq![("repo"@, Jv::Str(repo)), ("visibility"@, Jv::Str(visibility)), ("branch"@, opt_str_jv(branch))]);
            let f2 = f1.drop_first();
            assert(f2 =~= seq![("visibility"@, Jv::Str(visibility)), ("branch"@, opt_str_jv(branch))]);
            let f3 = f2.drop_first();
            assert(f3 =~= seq![("branch"@, opt_str_jv(branch))]);
            assert(assoc_get(fields, "workspaceId"@) == Some(Jv::Str(workspace_id)));
            assert(fields[0].0 != "repo"@);
            assert(assoc_get(fields, "repo"@) == Some(Jv::Str(repo)));
            assert(fields[0].0 != "visibility"@);
            assert(f1[0].0 != "visibility"@);
            assert(assoc_get(fields, "visibility"@) == Some(Jv::Str(visibility)));
            assert(fields[0].0 != "branch"@);
            assert(f1[0].0 != "branch"@);
            assert(f2[0].0 != "branch"@);
            assert(assoc_get(fields, "branch"@) == Some(opt_str_jv(branch)));
        },
        ArgsView::Roots { workspace_id, depth } => {
            let fields = seq![("workspaceId"@, Jv::Str(workspace_id)), ("depth"@, opt_u32_jv(depth))];
            assert(params_view(a) == Jv::Obj(fields));
            reveal_with_fuel(assoc_get, 5);
            reveal_strlit("workspaceId");
            assert("workspaceId"@.len() == 11);
            reveal_strlit("depth");
            assert("depth"@.len() == 5);
            let f1 = fields.drop_first();
            assert(f1 =~= seq![("depth"@, opt_u32_jv(depth))]);
            assert(assoc_get(fields, "workspaceId"@) == Some(Jv::Str(workspace_id)));
            assert(fields[0].0 != "depth"@);
            assert(assoc_get(fields, "depth"@) == Some(opt_u32_jv(depth)));
        },
        ArgsView::Log { workspace_id, limit } => {
            let fields = seq![("workspaceId"@, Jv::Str(workspace_id)), ("limit"@, opt_u32_jv(limit))];
            assert(params_view(a) == Jv::Obj(fields));
            reveal_with_fuel(assoc_get, 5);
            reveal_strlit("workspaceId");
            assert("workspaceId"@.len() == 11);
            reveal_strlit("limit");
            assert("limit"@.len() == 5);
            let f1 = fields.drop_first();
            assert(f1 =~= seq![("limit"@, opt_u32_jv(limit))]);
            assert(assoc_get(fields, "workspaceId"@) == Some(Jv::Str(workspace_id)));
            assert(fields[0].0 != "limit"@);
            assert(assoc_get(fields, "limit"@) == Some(opt_u32_jv(limit)));
        },
        ArgsView::Generate { workspace_id, model } => {
            let fields = seq![("workspaceId"@, Jv::Str(workspace_id)), ("commitMessageModelId"@, opt_str_jv(model))];
            assert(params_view(a) == Jv::Obj(fields));
            reveal_with_fuel(assoc_get, 5);
            reveal_strlit("workspaceId");
            assert("workspaceId"@.len() == 11);
            reveal_strlit("commitMessageModelId");
            assert("commitMessageModelId"@.len() == 20);
            let f1 = fields.drop_first();
            assert(f1 =~= seq![("commitMessageModelId"@, opt_str_jv(model))]);
            assert(assoc_get(fields, "workspaceId"@) == Some(Jv::Str(workspace_id)));
            assert(fields[0].0 != "commitMessageModelId"@);
            assert(assoc_get(fields, "commitMessageModelId"@) == Some(opt_str_jv(model)));
        },
    }
}

} // verus!

