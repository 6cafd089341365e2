use git_dispatch::envelope::{client_decode_roots, client_decode_unit};
use git_dispatch::optional_usize_to_u32;
use git_dispatch::requests::{
    decode_create_repo, decode_init_repo, decode_pull_request, decode_roots, decode_ws_id,
    decode_ws_path, CreateGitHubRepoRequest, GitHubPullRequestRequest, InitGitRepoRequest,
    ListGitRootsRequest, WorkspaceIdRequest, WorkspacePathRequest,
};
use git_dispatch::value::WireValue;

#[test]
fn workspace_id_request_round_trips() {
    let req = WorkspaceIdRequest { workspace_id: "ws-1".to_string() };
    let params = req.to_params();
    assert_eq!(decode_ws_id(&params).unwrap(), "ws-1");
}

#[test]
fn workspace_path_request_round_trips() {
    let req = WorkspacePathRequest { workspace_id: "ws-1".to_string(), path: "a.txt".to_string() };
    let params = req.to_params();
    let (ws, path) = decode_ws_path(&params).unwrap();
    assert_eq!(ws, "ws-1");
    assert_eq!(path, "a.txt");
}

#[test]
fn init_repo_request_round_trips_required_only() {
    let req = InitGitRepoRequest {
        workspace_id: "ws-1".to_string(),
        branch: "main".to_string(),
        force: None,
    };
    let params = req.to_params();
    let (ws, branch, force) = decode_init_repo(&params).unwrap();
    assert_eq!(ws, "ws-1");
    assert_eq!(branch, "main");
    assert_eq!(force, None);
}

#[test]
fn init_repo_request_round_trips_all_optionals() {
    let req = InitGitRepoRequest {
        workspace_id: "ws-1".to_string(),
        branch: "main".to_string(),
        force: Some(true),
    };
    let params = req.to_params();
    let (_, _, force) = decode_init_repo(&params).unwrap();
    assert_eq!(force, Some(true));
}

#[test]
fn create_repo_request_round_trips_both_cases() {
    let bare = CreateGitHubRepoRequest {
        workspace_id: "ws-1".to_string(),
        repo: "tool".to_string(),
        visibility: "private".to_string(),
        branch: None,
    };
    let (ws, repo, vis, branch) = decode_create_repo(&bare.to_params()).unwrap();
    assert_eq!((ws.as_str(), repo.as_str(), vis.as_str(), branch), ("ws-1", "tool", "private", None));

    let full = CreateGitHubRepoRequest {
        workspace_id: "ws-1".to_string(),
        repo: "tool".to_string(),
        visibility: "public".to_string(),
        branch: Some("trunk".to_string()),
    };
    let (_, _, _, branch) = decode_create_repo(&full.to_params()).unwrap();
    assert_eq!(branch, Some("trunk".to_string()));
}

#[test]
fn roots_request_round_trips_both_cases() {
    let bare = ListGitRootsRequest { workspace_id: "ws-1".to_string(), depth: None };
    assert_eq!(decode_roots(&bare.to_params()).unwrap(), ("ws-1".to_string(), None));

    let full = ListGitRootsRequest { workspace_id: "ws-1".to_string(), depth: Some(7) };
    assert_eq!(decode_roots(&full.to_params()).unwrap(), ("ws-1".to_string(), Some(7)));
}

#[test]
fn pull_request_request_round_trips() {
    let req = GitHubPullRequestRequest { workspace_id: "ws-1".to_string(), pr_number: 1234 };
    assert_eq!(decode_pull_request(&req.to_params()).unwrap(), ("ws-1".to_string(), 1234));
}

#[test]
fn decode_ignores_unknown_fields() {
    let params = WireValue::Obj(vec![
        ("unrelated".to_string(), WireValue::Bool(false)),
        ("workspaceId".to_string(), WireValue::Str("ws-1".to_string())),
        ("alsoUnrelated".to_string(), WireValue::Null),
    ]);
    assert_eq!(decode_ws_id(&params).unwrap(), "ws-1");
}

#[test]
fn decode_reports_first_required_field_in_order() {
    let params = WireValue::Obj(vec![("path".to_string(), WireValue::Str("a".to_string()))]);
    assert_eq!(decode_ws_path(&params).unwrap_err(), "missing field `workspaceId`");
}

#[test]
fn pull_request_number_must_be_a_number() {
    let params = WireValue::Obj(vec![
        ("workspaceId".to_string(), WireValue::Str("ws-1".to_string())),
        ("prNumber".to_string(), WireValue::Str("12".to_string())),
    ]);
    assert_eq!(decode_pull_request(&params).unwrap_err(), "invalid type for field `prNumber`");
}

#[test]
fn client_unit_decode_accepts_any_successful_reply() {
    assert!(client_decode_unit(Ok(WireValue::Null)).is_ok());
    assert!(client_decode_unit(Ok(WireValue::Str("anything".to_string()))).is_ok());
    assert_eq!(client_decode_unit(Err("boom".to_string())).unwrap_err(), "boom");
}

#[test]
fn client_roots_decode_rejects_wrong_shapes() {
    assert_eq!(
        client_decode_roots(Ok(WireValue::Bool(true))).unwrap_err(),
        "invalid remote response"
    );
    let mixed = WireValue::Arr(vec![
        WireValue::Str("a".to_string()),
        WireValue::UInt(3),
    ]);
    assert_eq!(client_decode_roots(Ok(mixed)).unwrap_err(), "invalid remote response");
    let good = WireValue::Arr(vec![
        WireValue::Str("a".to_string()),
        WireValue::Str("b".to_string()),
    ]);
    assert_eq!(client_decode_roots(Ok(good)).unwrap(), vec!["a".to_string(), "b".to_string()]);
}

#[test]
fn optional_usize_narrows_to_u32() {
    assert_eq!(optional_usize_to_u32(None), None);
    assert_eq!(optional_usize_to_u32(Some(0)), Some(0));
    assert_eq!(optional_usize_to_u32(Some(u32::MAX as usize)), Some(u32::MAX));
    assert_eq!(optional_usize_to_u32(Some(u32::MAX as usize + 1)), None);
}
