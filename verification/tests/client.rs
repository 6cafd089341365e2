use git_dispatch::client::{self, RemoteTransport};
use git_dispatch::daemon::{dispatch, GitHandler};
use git_dispatch::value::WireValue;

/// A handler whose behaviour is fixed, so the local path and a daemon
/// exposing the same handler can be compared call for call.
struct ScriptedHandler {
    calls: Vec<String>,
}

impl ScriptedHandler {
    fn new() -> Self {
        ScriptedHandler { calls: Vec::new() }
    }
}

impl GitHandler for ScriptedHandler {
    fn get_git_status(&mut self, w: String) -> Result<WireValue, String> {
        self.calls.push(format!("status {w}"));
        Ok(WireValue::Str(format!("status of {w}")))
    }
    fn init_git_repo(&mut self, w: String, b: String, f: bool) -> Result<WireValue, String> {
        self.calls.push(format!("init {w} {b} {f}"));
        Ok(WireValue::Str(format!("init {w} {b} {f}")))
    }
    fn create_github_repo(
        &mut self,
        w: String,
        r: String,
        v: String,
        b: Option<String>,
    ) -> Result<WireValue, String> {
        self.calls.push(format!("create {w} {r} {v} {}", b.unwrap_or_default()));
        Ok(WireValue::Null)
    }
    fn stage_git_file(&mut self, w: String, p: String) -> Result<(), String> {
        self.calls.push(format!("stage {w} {p}"));
        Ok(())
    }
    fn stage_git_all(&mut self, w: String) -> Result<(), String> {
        self.calls.push(format!("stage_all {w}"));
        Ok(())
    }
    fn unstage_git_file(&mut self, w: String, p: String) -> Result<(), String> {
        self.calls.push(format!("unstage {w} {p}"));
        Ok(())
    }
    fn revert_git_file(&mut self, w: String, p: String) -> Result<(), String> {
        self.calls.push(format!("revert {w} {p}"));
        Ok(())
    }
    fn revert_git_all(&mut self, w: String) -> Result<(), String> {
        self.calls.push(format!("revert_all {w}"));
        Ok(())
    }
    fn commit_git(&mut self, w: String, m: String) -> Result<(), String> {
        self.calls.push(format!("commit {w} {m}"));
        if m.is_empty() { Err("empty message".to_string()) } else { Ok(()) }
    }
    fn push_git(&mut self, w: String) -> Result<(), String> {
        self.calls.push(format!("push {w}"));
        Err("network unreachable".to_string())
    }
    fn pull_git(&mut self, w: String) -> Result<(), String> {
        self.calls.push(format!("pull {w}"));
        Ok(())
    }
    fn fetch_git(&mut self, w: String) -> Result<(), String> {
        self.calls.push(format!("fetch {w}"));
        Ok(())
    }
    fn sync_git(&mut self, w: String) -> Result<(), String> {
        self.calls.push(format!("sync {w}"));
        Ok(())
    }
    fn list_git_roots(&mut self, w: String, d: Option<u32>) -> Result<Vec<String>, String> {
        let d = d.unwrap_or(2);
        self.calls.push(format!("roots {w} {d}"));
        Ok(vec![format!("{w}/a"), format!("{w}/b-{d}")])
    }
    fn get_git_diffs(&mut self, w: String) -> Result<WireValue, String> {
        self.calls.push(format!("diffs {w}"));
        Ok(WireValue::Arr(vec![WireValue::Str(format!("diff {w}"))]))
    }
    fn get_git_log(&mut self, w: String, l: Option<u32>) -> Result<WireValue, String> {
        self.calls.push(format!("log {w} {}", l.unwrap_or(0)));
        Ok(WireValue::Null)
    }
    fn get_git_commit_diff(&mut self, w: String, s: String) -> Result<WireValue, String> {
        self.calls.push(format!("commit_diff {w} {s}"));
        Ok(WireValue::Null)
    }
    fn get_git_remote(&mut self, w: String) -> Result<Option<String>, String> {
        self.calls.push(format!("remote {w}"));
        Ok(Some(format!("ssh://{w}")))
    }
    fn get_github_issues(&mut self, w: String) -> Result<WireValue, String> {
        self.calls.push(format!("issues {w}"));
        Ok(WireValue::Null)
    }
    fn get_github_pull_requests(&mut self, w: String) -> Result<WireValue, String> {
        self.calls.push(format!("prs {w}"));
        Ok(WireValue::Null)
    }
    fn get_github_pull_request_diff(&mut self, w: String, p: u64) -> Result<WireValue, String> {
        self.calls.push(format!("pr_diff {w} {p}"));
        Ok(WireValue::Null)
    }
    fn get_github_pull_request_comments(
        &mut self,
        w: String,
        p: u64,
    ) -> Result<WireValue, String> {
        self.calls.push(format!("pr_comments {w} {p}"));
        Ok(WireValue::Null)
    }
    fn checkout_github_pull_request(&mut self, w: String, p: u64) -> Result<(), String> {
        self.calls.push(format!("pr_checkout {w} {p}"));
        Ok(())
    }
    fn list_git_branches(&mut self, w: String) -> Result<WireValue, String> {
        self.calls.push(format!("branches {w}"));
        Ok(WireValue::Arr(vec![WireValue::Str("main".to_string())]))
    }
    fn checkout_git_branch(&mut self, w: String, n: String) -> Result<(), String> {
        self.calls.push(format!("checkout {w} {n}"));
        Ok(())
    }
    fn create_git_branch(&mut self, w: String, n: String) -> Result<(), String> {
        self.calls.push(format!("branch {w} {n}"));
        Ok(())
    }
    fn generate_commit_message(&mut self, w: String, m: Option<String>) -> Result<String, String> {
        self.calls.push(format!("gen {w} {}", m.unwrap_or_default()));
        Ok(format!("update {w}"))
    }
}

/// A transport that hands every call to a daemon dispatching over its own
/// copy of the scripted handler.
struct DaemonLink {
    state: ScriptedHandler,
}

impl RemoteTransport for DaemonLink {
    fn call_remote(&mut self, method: &str, params: WireValue) -> Result<WireValue, String> {
        match dispatch(&mut self.state, method, &params) {
            Some(r) => r,
            None => Err("unsupported method".to_string()),
        }
    }
}

/// A transport that always fails.
struct DeadTransport;

impl RemoteTransport for DeadTransport {
    fn call_remote(&mut self, _method: &str, _params: WireValue) -> Result<WireValue, String> {
        Err("connection refused".to_string())
    }
}

#[test]
fn local_and_remote_stage_give_identical_results() {
    let mut local = ScriptedHandler::new();
    let mut unused_transport = DeadTransport;
    let local_result = client::stage_git_file(
        &mut unused_transport,
        &mut local,
        None,
        "ws-1".to_string(),
        "a.txt".to_string(),
    );

    let mut link = DaemonLink { state: ScriptedHandler::new() };
    let mut unused_local = ScriptedHandler::new();
    let remote_result = client::stage_git_file(
        &mut link,
        &mut unused_local,
        Some(true),
        "ws-1".to_string(),
        "a.txt".to_string(),
    );

    assert_eq!(local_result, remote_result);
    assert_eq!(local.calls, link.state.calls);
    assert!(unused_local.calls.is_empty(), "remote mode must not run the local handler");
}

#[test]
fn local_and_remote_roots_give_identical_results() {
    let mut local = ScriptedHandler::new();
    let mut unused_transport = DeadTransport;
    let local_result = client::list_git_roots(
        &mut unused_transport,
        &mut local,
        Some(false),
        "ws-9".to_string(),
        None,
    );

    let mut link = DaemonLink { state: ScriptedHandler::new() };
    let mut unused_local = ScriptedHandler::new();
    let remote_result = client::list_git_roots(
        &mut link,
        &mut unused_local,
        Some(true),
        "ws-9".to_string(),
        None,
    );

    assert_eq!(local_result, remote_result);
    assert_eq!(local_result.unwrap(), vec!["ws-9/a".to_string(), "ws-9/b-2".to_string()]);
    assert!(unused_local.calls.is_empty());
}

#[test]
fn local_and_remote_remote_url_give_identical_results() {
    let mut local = ScriptedHandler::new();
    let mut unused_transport = DeadTransport;
    let local_result =
        client::get_git_remote(&mut unused_transport, &mut local, None, "ws-2".to_string());

    let mut link = DaemonLink { state: ScriptedHandler::new() };
    let mut unused_local = ScriptedHandler::new();
    let remote_result =
        client::get_git_remote(&mut link, &mut unused_local, Some(true), "ws-2".to_string());

    assert_eq!(local_result, remote_result);
    assert_eq!(local_result.unwrap(), Some("ssh://ws-2".to_string()));
}

#[test]
fn local_and_remote_status_give_identical_results() {
    let mut local = ScriptedHandler::new();
    let mut unused_transport = DeadTransport;
    let local_result =
        client::get_git_status(&mut unused_transport, &mut local, Some(false), "ws-3".to_string());

    let mut link = DaemonLink { state: ScriptedHandler::new() };
    let mut unused_local = ScriptedHandler::new();
    let remote_result =
        client::get_git_status(&mut link, &mut unused_local, Some(true), "ws-3".to_string());

    assert_eq!(local_result, remote_result);
    assert_eq!(local_result.unwrap(), WireValue::Str("status of ws-3".to_string()));
}

#[test]
fn local_and_remote_handler_failures_give_identical_results() {
    let mut local = ScriptedHandler::new();
    let mut unused_transport = DeadTransport;
    let local_result =
        client::push_git(&mut unused_transport, &mut local, None, "ws-4".to_string());

    let mut link = DaemonLink { state: ScriptedHandler::new() };
    let mut unused_local = ScriptedHandler::new();
    let remote_result =
        client::push_git(&mut link, &mut unused_local, Some(true), "ws-4".to_string());

    assert_eq!(local_result, remote_result);
    assert_eq!(local_result.unwrap_err(), "network unreachable");
}

#[test]
fn transport_failure_propagates_without_local_fallback() {
    let mut transport = DeadTransport;
    let mut local = ScriptedHandler::new();
    let r = client::commit_git(
        &mut transport,
        &mut local,
        Some(true),
        "ws-1".to_string(),
        "msg".to_string(),
    );
    assert_eq!(r.unwrap_err(), "connection refused");
    assert!(local.calls.is_empty(), "a transport failure must not fall back to local execution");
}

#[test]
fn unset_mode_counts_as_local() {
    let mut link = DaemonLink { state: ScriptedHandler::new() };
    let mut local = ScriptedHandler::new();
    let r = client::fetch_git(&mut link, &mut local, None, "ws-1".to_string());
    assert!(r.is_ok());
    assert_eq!(local.calls, vec!["fetch ws-1".to_string()]);
    assert!(link.state.calls.is_empty(), "unset mode must stay local");
}

#[test]
fn workspace_diff_chains_root_resolution_and_collection() {
    struct DiffSource {
        calls: Vec<String>,
    }
    impl client::WorkspaceDiffSource for DiffSource {
        fn resolve_repo_root_for_workspace(&mut self, w: String) -> Result<String, String> {
            self.calls.push(format!("root {w}"));
            if w == "missing" { Err("unknown workspace".to_string()) } else { Ok(format!("/repos/{w}")) }
        }
        fn collect_workspace_diff(&mut self, root: &str) -> Result<String, String> {
            self.calls.push(format!("diff {root}"));
            Ok(format!("diff in {root}"))
        }
    }

    let mut src = DiffSource { calls: Vec::new() };
    let r = client::get_workspace_diff(&mut src, "ws-1");
    assert_eq!(r.unwrap(), "diff in /repos/ws-1");
    assert_eq!(src.calls, vec!["root ws-1".to_string(), "diff /repos/ws-1".to_string()]);

    let mut src2 = DiffSource { calls: Vec::new() };
    let r2 = client::get_workspace_diff(&mut src2, "missing");
    assert_eq!(r2.unwrap_err(), "unknown workspace");
    assert_eq!(src2.calls, vec!["root missing".to_string()]);
}
