use git_dispatch::catalog::{
    METHOD_COMMIT_GIT, METHOD_GENERATE_COMMIT_MESSAGE, METHOD_GET_GIT_REMOTE,
    METHOD_INIT_GIT_REPO, METHOD_LIST_GIT_ROOTS, METHOD_STAGE_GIT_FILE,
};
use git_dispatch::daemon::{dispatch, GitHandler};
use git_dispatch::value::WireValue;

struct RecordingHandler {
    calls: Vec<String>,
    depth_seen: Option<Option<u32>>,
    force_seen: Option<bool>,
    remote_url: Option<String>,
}

impl RecordingHandler {
    fn new() -> Self {
        RecordingHandler { calls: Vec::new(), depth_seen: None, force_seen: None, remote_url: None }
    }
}

impl GitHandler for RecordingHandler {
    fn get_git_status(&mut self, workspace_id: String) -> Result<WireValue, String> {
        self.calls.push(format!("get_git_status {workspace_id}"));
        Ok(WireValue::Str("clean".to_string()))
    }

    fn init_git_repo(
        &mut self,
        workspace_id: String,
        branch: String,
        force: bool,
    ) -> Result<WireValue, String> {
        self.force_seen = Some(force);
        self.calls.push(format!("init_git_repo {workspace_id} {branch} {force}"));
        Ok(WireValue::Null)
    }

    fn create_github_repo(
        &mut self,
        workspace_id: String,
        repo: String,
        visibility: String,
        branch: Option<String>,
    ) -> Result<WireValue, String> {
        let branch = branch.unwrap_or_else(|| "-".to_string());
        self.calls.push(format!("create_github_repo {workspace_id} {repo} {visibility} {branch}"));
        Ok(WireValue::Null)
    }

    fn stage_git_file(&mut self, workspace_id: String, path: String) -> Result<(), String> {
        self.calls.push(format!("stage_git_file {workspace_id} {path}"));
        Ok(())
    }

    fn stage_git_all(&mut self, workspace_id: String) -> Result<(), String> {
        self.calls.push(format!("stage_git_all {workspace_id}"));
        Ok(())
    }

    fn unstage_git_file(&mut self, workspace_id: String, path: String) -> Result<(), String> {
        self.calls.push(format!("unstage_git_file {workspace_id} {path}"));
        Ok(())
    }

    fn revert_git_file(&mut self, workspace_id: String, path: String) -> Result<(), String> {
        self.calls.push(format!("revert_git_file {workspace_id} {path}"));
        Ok(())
    }

    fn revert_git_all(&mut self, workspace_id: String) -> Result<(), String> {
        self.calls.push(format!("revert_git_all {workspace_id}"));
        Ok(())
    }

    fn commit_git(&mut self, workspace_id: String, message: String) -> Result<(), String> {
        self.calls.push(format!("commit_git {workspace_id} {message}"));
        Ok(())
    }

    fn push_git(&mut self, workspace_id: String) -> Result<(), String> {
        self.calls.push(format!("push_git {workspace_id}"));
        Ok(())
    }

    fn pull_git(&mut self, workspace_id: String) -> Result<(), String> {
        self.calls.push(format!("pull_git {workspace_id}"));
        Ok(())
    }

    fn fetch_git(&mut self, workspace_id: String) -> Result<(), String> {
        self.calls.push(format!("fetch_git {workspace_id}"));
        Ok(())
    }

    fn sync_git(&mut self, workspace_id: String) -> Result<(), String> {
        self.calls.push(format!("sync_git {workspace_id}"));
        Ok(())
    }

    fn list_git_roots(
        &mut self,
        workspace_id: String,
        depth: Option<u32>,
    ) -> Result<Vec<String>, String> {
        self.depth_seen = Some(depth);
        // This handler's own default depth is 2; the dispatcher must hand the
        // absent field through as None and leave the default to the handler.
        let effective = depth.unwrap_or(2);
        self.calls.push(format!("list_git_roots {workspace_id}"));
        Ok(vec![format!("{workspace_id}/root-depth-{effective}")])
    }

    fn get_git_diffs(&mut self, workspace_id: String) -> Result<WireValue, String> {
        self.calls.push(format!("get_git_diffs {workspace_id}"));
        Ok(WireValue::Arr(Vec::new()))
    }

    fn get_git_log(
        &mut self,
        workspace_id: String,
        limit: Option<u32>,
    ) -> Result<WireValue, String> {
        let limit = limit.map(|l| l.to_string()).unwrap_or_else(|| "-".to_string());
        self.calls.push(format!("get_git_log {workspace_id} {limit}"));
        Ok(WireValue::Arr(Vec::new()))
    }

    fn get_git_commit_diff(
        &mut self,
        workspace_id: String,
        sha: String,
    ) -> Result<WireValue, String> {
        self.calls.push(format!("get_git_commit_diff {workspace_id} {sha}"));
        Ok(WireValue::Arr(Vec::new()))
    }

    fn get_git_remote(&mut self, workspace_id: String) -> Result<Option<String>, String> {
        self.calls.push(format!("get_git_remote {workspace_id}"));
        Ok(self.remote_url.clone())
    }

    fn get_github_issues(&mut self, workspace_id: String) -> Result<WireValue, String> {
        self.calls.push(format!("get_github_issues {workspace_id}"));
        Ok(WireValue::Null)
    }

    fn get_github_pull_requests(&mut self, workspace_id: String) -> Result<WireValue, String> {
        self.calls.push(format!("get_github_pull_requests {workspace_id}"));
        Ok(WireValue::Null)
    }

    fn get_github_pull_request_diff(
        &mut self,
        workspace_id: String,
        pr_number: u64,
    ) -> Result<WireValue, String> {
        self.calls.push(format!("get_github_pull_request_diff {workspace_id} {pr_number}"));
        Ok(WireValue::Null)
    }

    fn get_github_pull_request_comments(
        &mut self,
        workspace_id: String,
        pr_number: u64,
    ) -> Result<WireValue, String> {
        self.calls.push(format!("get_github_pull_request_comments {workspace_id} {pr_number}"));
        Ok(WireValue::Null)
    }

    fn checkout_github_pull_request(
        &mut self,
        workspace_id: String,
        pr_number: u64,
    ) -> Result<(), String> {
        self.calls.push(format!("checkout_github_pull_request {workspace_id} {pr_number}"));
        Ok(())
    }

    fn list_git_branches(&mut self, workspace_id: String) -> Result<WireValue, String> {
        self.calls.push(format!("list_git_branches {workspace_id}"));
        Ok(WireValue::Arr(vec![WireValue::Str("main".to_string())]))
    }

    fn checkout_git_branch(&mut self, workspace_id: String, name: String) -> Result<(), String> {
        self.calls.push(format!("checkout_git_branch {workspace_id} {name}"));
        Ok(())
    }

    fn create_git_branch(&mut self, workspace_id: String, name: String) -> Result<(), String> {
        self.calls.push(format!("create_git_branch {workspace_id} {name}"));
        Ok(())
    }

    fn generate_commit_message(
        &mut self,
        workspace_id: String,
        commit_message_model_id: Option<String>,
    ) -> Result<String, String> {
        let model = commit_message_model_id.unwrap_or_else(|| "default".to_string());
        self.calls.push(format!("generate_commit_message {workspace_id} {model}"));
        Ok(format!("update {workspace_id}"))
    }
}

fn obj(pairs: Vec<(&str, WireValue)>) -> WireValue {
    WireValue::Obj(pairs.into_iter().map(|(k, v)| (k.to_string(), v)).collect())
}

fn s(text: &str) -> WireValue {
    WireValue::Str(text.to_string())
}

fn is_ok_unit(v: &WireValue) -> bool {
    match v {
        WireValue::Obj(fields) => {
            fields.len() == 1
                && fields[0].0 == "ok"
                && matches!(fields[0].1, WireValue::Bool(true))
        }
        _ => false,
    }
}

#[test]
fn stage_git_file_success_yields_ok_envelope() {
    let mut h = RecordingHandler::new();
    let params = obj(vec![("workspaceId", s("ws-1")), ("path", s("a.txt"))]);
    let r = dispatch(&mut h, METHOD_STAGE_GIT_FILE, &params);
    match r {
        Some(Ok(v)) => assert!(is_ok_unit(&v)),
        other => panic!("unexpected response: {:?}", other.is_some()),
    }
    assert_eq!(h.calls, vec!["stage_git_file ws-1 a.txt".to_string()]);
}

#[test]
fn unknown_method_yields_none() {
    let mut h = RecordingHandler::new();
    let r = dispatch(&mut h, "unknown_method", &obj(vec![]));
    assert!(r.is_none());
    assert!(h.calls.is_empty());
}

#[test]
fn unknown_method_empty_and_near_miss_yield_none() {
    let mut h = RecordingHandler::new();
    assert!(dispatch(&mut h, "", &obj(vec![])).is_none());
    assert!(dispatch(&mut h, "Stage_Git_File", &obj(vec![])).is_none());
    assert!(dispatch(&mut h, "STAGE_GIT_FILE", &obj(vec![])).is_none());
    assert!(dispatch(&mut h, "stage_git_file ", &obj(vec![])).is_none());
    assert!(h.calls.is_empty());
}

#[test]
fn malformed_commit_params_identify_missing_field() {
    let mut h = RecordingHandler::new();
    let params = obj(vec![("workspaceId", s("ws-1"))]);
    let r = dispatch(&mut h, METHOD_COMMIT_GIT, &params);
    match r {
        Some(Err(e)) => assert_eq!(e, "missing field `message`"),
        _ => panic!("expected a decode failure"),
    }
    assert!(h.calls.is_empty(), "no handler may run on malformed params");
}

#[test]
fn wrong_field_type_reports_invalid_type() {
    let mut h = RecordingHandler::new();
    let params = obj(vec![("workspaceId", s("ws-1")), ("message", WireValue::UInt(5))]);
    let r = dispatch(&mut h, METHOD_COMMIT_GIT, &params);
    match r {
        Some(Err(e)) => assert_eq!(e, "invalid type for field `message`"),
        _ => panic!("expected a decode failure"),
    }
    assert!(h.calls.is_empty());
}

#[test]
fn non_object_params_report_first_missing_field() {
    let mut h = RecordingHandler::new();
    let r = dispatch(&mut h, METHOD_STAGE_GIT_FILE, &WireValue::Null);
    match r {
        Some(Err(e)) => assert_eq!(e, "missing field `workspaceId`"),
        _ => panic!("expected a decode failure"),
    }
    assert!(h.calls.is_empty());
}

#[test]
fn list_git_roots_depth_omitted_uses_handler_default() {
    let mut h = RecordingHandler::new();
    let params = obj(vec![("workspaceId", s("ws-1"))]);
    let r = dispatch(&mut h, METHOD_LIST_GIT_ROOTS, &params);
    assert_eq!(h.depth_seen, Some(None));
    match r {
        Some(Ok(WireValue::Arr(items))) => {
            assert_eq!(items.len(), 1);
            match &items[0] {
                WireValue::Str(root) => assert_eq!(root, "ws-1/root-depth-2"),
                _ => panic!("expected a string root"),
            }
        }
        _ => panic!("expected a string array"),
    }
}

#[test]
fn list_git_roots_depth_present_reaches_handler() {
    let mut h = RecordingHandler::new();
    let params = obj(vec![("workspaceId", s("ws-1")), ("depth", WireValue::UInt(5))]);
    let r = dispatch(&mut h, METHOD_LIST_GIT_ROOTS, &params);
    assert_eq!(h.depth_seen, Some(Some(5)));
    assert!(matches!(r, Some(Ok(WireValue::Arr(_)))));
}

#[test]
fn init_git_repo_force_defaults_to_false() {
    let mut h = RecordingHandler::new();
    let params = obj(vec![("workspaceId", s("ws-1")), ("branch", s("main"))]);
    let r = dispatch(&mut h, METHOD_INIT_GIT_REPO, &params);
    assert!(matches!(r, Some(Ok(_))));
    assert_eq!(h.force_seen, Some(false));
}

#[test]
fn init_git_repo_force_read_loosely_from_raw_params() {
    let mut h = RecordingHandler::new();
    let with_true = obj(vec![
        ("workspaceId", s("ws-1")),
        ("branch", s("main")),
        ("force", WireValue::Bool(true)),
    ]);
    dispatch(&mut h, METHOD_INIT_GIT_REPO, &with_true);
    assert_eq!(h.force_seen, Some(true));

    let with_null = obj(vec![
        ("workspaceId", s("ws-1")),
        ("branch", s("main")),
        ("force", WireValue::Null),
    ]);
    dispatch(&mut h, METHOD_INIT_GIT_REPO, &with_null);
    assert_eq!(h.force_seen, Some(false));
}

#[test]
fn get_git_remote_encodes_optional_string() {
    let mut h = RecordingHandler::new();
    h.remote_url = Some("https://example.invalid/repo.git".to_string());
    let params = obj(vec![("workspaceId", s("ws-1"))]);
    match dispatch(&mut h, METHOD_GET_GIT_REMOTE, &params) {
        Some(Ok(WireValue::Str(url))) => assert_eq!(url, "https://example.invalid/repo.git"),
        _ => panic!("expected a string"),
    }
    h.remote_url = None;
    match dispatch(&mut h, METHOD_GET_GIT_REMOTE, &params) {
        Some(Ok(WireValue::Null)) => {}
        _ => panic!("expected null"),
    }
}

#[test]
fn generate_commit_message_returns_plain_string() {
    let mut h = RecordingHandler::new();
    let params = obj(vec![
        ("workspaceId", s("ws-1")),
        ("commitMessageModelId", s("fast-model")),
    ]);
    match dispatch(&mut h, METHOD_GENERATE_COMMIT_MESSAGE, &params) {
        Some(Ok(WireValue::Str(m))) => assert_eq!(m, "update ws-1"),
        _ => panic!("expected a string"),
    }
    assert_eq!(h.calls, vec!["generate_commit_message ws-1 fast-model".to_string()]);
}

#[test]
fn handler_failure_passes_through_unchanged() {
    struct FailingHandler;
    impl GitHandler for FailingHandler {
        fn get_git_status(&mut self, _w: String) -> Result<WireValue, String> {
            Err("git exploded".to_string())
        }
        fn init_git_repo(&mut self, _w: String, _b: String, _f: bool) -> Result<WireValue, String> {
            Err("x".to_string())
        }
        fn create_github_repo(
            &mut self,
            _w: String,
            _r: String,
            _v: String,
            _b: Option<String>,
        ) -> Result<WireValue, String> {
            Err("x".to_string())
        }
        fn stage_git_file(&mut self, _w: String, _p: String) -> Result<(), String> {
            Err("stage failed: permission denied".to_string())
        }
        fn stage_git_all(&mut self, _w: String) -> Result<(), String> {
            Err("x".to_string())
        }
        fn unstage_git_file(&mut self, _w: String, _p: String) -> Result<(), String> {
            Err("x".to_string())
        }
        fn revert_git_file(&mut self, _w: String, _p: String) -> Result<(), String> {
            Err("x".to_string())
        }
        fn revert_git_all(&mut self, _w: String) -> Result<(), String> {
            Err("x".to_string())
        }
        fn commit_git(&mut self, _w: String, _m: String) -> Result<(), String> {
            Err("x".to_string())
        }
        fn push_git(&mut self, _w: String) -> Result<(), String> {
            Err("x".to_string())
        }
        fn pull_git(&mut self, _w: String) -> Result<(), String> {
            Err("x".to_string())
        }
        fn fetch_git(&mut self, _w: String) -> Result<(), String> {
            Err("x".to_string())
        }
        fn sync_git(&mut self, _w: String) -> Result<(), String> {
            Err("x".to_string())
        }
        fn list_git_roots(&mut self, _w: String, _d: Option<u32>) -> Result<Vec<String>, String> {
            Err("x".to_string())
        }
        fn get_git_diffs(&mut self, _w: String) -> Result<WireValue, String> {
            Err("x".to_string())
        }
        fn get_git_log(&mut self, _w: String, _l: Option<u32>) -> Result<WireValue, String> {
            Err("x".to_string())
        }
        fn get_git_commit_diff(&mut self, _w: String, _s: String) -> Result<WireValue, String> {
            Err("x".to_string())
        }
        fn get_git_remote(&mut self, _w: String) -> Result<Option<String>, String> {
            Err("x".to_string())
        }
        fn get_github_issues(&mut self, _w: String) -> Result<WireValue, String> {
            Err("x".to_string())
        }
        fn get_github_pull_requests(&mut self, _w: String) -> Result<WireValue, String> {
            Err("x".to_string())
        }
        fn get_github_pull_request_diff(
            &mut self,
            _w: String,
            _p: u64,
        ) -> Result<WireValue, String> {
            Err("x".to_string())
        }
        fn get_github_pull_request_comments(
            &mut self,
            _w: String,
            _p: u64,
        ) -> Result<WireValue, String> {
            Err("x".to_string())
        }
        fn checkout_github_pull_request(&mut self, _w: String, _p: u64) -> Result<(), String> {
            Err("x".to_string())
        }
        fn list_git_branches(&mut self, _w: String) -> Result<WireValue, String> {
            Err("x".to_string())
        }
        fn checkout_git_branch(&mut self, _w: String, _n: String) -> Result<(), String> {
            Err("x".to_string())
        }
        fn create_git_branch(&mut self, _w: String, _n: String) -> Result<(), String> {
            Err("x".to_string())
        }
        fn generate_commit_message(
            &mut self,
            _w: String,
            _m: Option<String>,
        ) -> Result<String, String> {
            Err("x".to_string())
        }
    }

    let mut h = FailingHandler;
    let params = obj(vec![("workspaceId", s("ws-1")), ("path", s("a.txt"))]);
    match dispatch(&mut h, METHOD_STAGE_GIT_FILE, &params) {
        Some(Err(e)) => assert_eq!(e, "stage failed: permission denied"),
        _ => panic!("expected the handler's own message"),
    }
}
