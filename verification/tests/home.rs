use git_dispatch::home::{
    expand_dollar_env, expand_percent_env, expand_tilde, join_env_path, lookup_env_value,
    normalize_codex_home, resolve_default_codex_home, resolve_env_var, resolve_home_dir,
    resolve_workspace_codex_home, trim_str, EnvTable,
};

fn env(vars: Vec<(&str, &str)>) -> EnvTable {
    EnvTable {
        vars: vars.into_iter().map(|(k, v)| (k.to_string(), v.to_string())).collect(),
        passwd_home: None,
    }
}

#[test]
fn workspace_codex_home_uses_default_resolution() {
    let table = env(vec![("CODEX_HOME", "/tmp/codex-global"), ("HOME", "/repo")]);
    let resolved = resolve_workspace_codex_home(&table);
    assert_eq!(resolved, Some("/tmp/codex-global".to_string()));
}

#[test]
fn codex_home_expands_tilde_and_env_vars() {
    let table = env(vec![("HOME", "/tmp/codex-home-test"), ("APPDATA", "/tmp/appdata-root")]);

    let tilde = normalize_codex_home("~/.codex-api", &table);
    assert_eq!(tilde, Some("/tmp/codex-home-test/.codex-api".to_string()));

    let dollar = normalize_codex_home("$HOME/.codex-api", &table);
    assert_eq!(dollar, Some("/tmp/codex-home-test/.codex-api".to_string()));

    let braces = normalize_codex_home("${HOME}/.codex-api", &table);
    assert_eq!(braces, Some("/tmp/codex-home-test/.codex-api".to_string()));

    let appdata = normalize_codex_home("%APPDATA%/Codex", &table);
    assert_eq!(appdata, Some("/tmp/appdata-root/Codex".to_string()));

    let appdata_lower = normalize_codex_home("$appdata/Codex", &table);
    assert_eq!(appdata_lower, Some("/tmp/appdata-root/Codex".to_string()));
}

#[test]
fn default_codex_home_falls_back_to_home_directory() {
    let table = env(vec![("HOME", "/home/dev")]);
    assert_eq!(resolve_default_codex_home(&table), Some("/home/dev/.codex".to_string()));
}

#[test]
fn blank_codex_home_is_rejected_and_default_applies() {
    let table = env(vec![("CODEX_HOME", "   "), ("HOME", "/home/dev")]);
    assert_eq!(resolve_default_codex_home(&table), Some("/home/dev/.codex".to_string()));
    assert_eq!(normalize_codex_home("   ", &table), None);
}

#[test]
fn tilde_alone_resolves_to_home() {
    let table = env(vec![("HOME", "/home/dev")]);
    assert_eq!(expand_tilde("~", &table), Some("/home/dev".to_string()));
}

#[test]
fn tilde_without_separator_is_taken_verbatim() {
    let table = env(vec![("HOME", "/home/dev")]);
    assert_eq!(expand_tilde("~abc", &table), None);
    assert_eq!(normalize_codex_home("~abc", &table), Some("~abc".to_string()));
}

#[test]
fn unclosed_references_are_taken_verbatim() {
    let table = env(vec![("HOME", "/home/dev")]);
    assert_eq!(expand_dollar_env("${HOME/.x", &table), None);
    assert_eq!(normalize_codex_home("${HOME/.x", &table), Some("${HOME/.x".to_string()));
    assert_eq!(expand_percent_env("%HOME/.x", &table), None);
    assert_eq!(normalize_codex_home("%HOME/.x", &table), Some("%HOME/.x".to_string()));
}

#[test]
fn unknown_variable_is_taken_verbatim() {
    let table = env(vec![]);
    assert_eq!(expand_dollar_env("$NOPE/x", &table), None);
    assert_eq!(normalize_codex_home("$NOPE/x", &table), Some("$NOPE/x".to_string()));
}

#[test]
fn home_directory_resolution_order() {
    assert_eq!(resolve_home_dir(&env(vec![("HOME", "/h")])), Some("/h".to_string()));
    assert_eq!(
        resolve_home_dir(&env(vec![("HOME", "  "), ("USERPROFILE", "/u")])),
        Some("/u".to_string())
    );
    let with_passwd = EnvTable { vars: Vec::new(), passwd_home: Some("/pw".to_string()) };
    assert_eq!(resolve_home_dir(&with_passwd), Some("/pw".to_string()));
    assert_eq!(resolve_home_dir(&env(vec![])), None);
}

#[test]
fn env_lookup_tries_upper_and_lower_names() {
    let table = env(vec![("PATHISH", "/bin-ish")]);
    assert_eq!(lookup_env_value("pathish", &table), Some("/bin-ish".to_string()));

    let lower_table = env(vec![("quiet", "yes")]);
    assert_eq!(lookup_env_value("QUIET", &lower_table), Some("yes".to_string()));

    let blank_exact = env(vec![("NAME", "  "), ("name", "value")]);
    assert_eq!(lookup_env_value("NAME", &blank_exact), Some("value".to_string()));
}

#[test]
fn env_var_named_home_prefers_home_directory() {
    let table = env(vec![("HOME", "/home/dev")]);
    assert_eq!(resolve_env_var("home", &table), Some("/home/dev".to_string()));
    assert_eq!(resolve_env_var("HOME", &table), Some("/home/dev".to_string()));
}

#[test]
fn join_env_path_normalises_separators() {
    assert_eq!(join_env_path("/base/", "sub"), "/base/sub");
    assert_eq!(join_env_path("/base", "//sub"), "/base/sub");
    assert_eq!(join_env_path("/base", "\\sub"), "/base/sub");
    assert_eq!(join_env_path(" /base ", ""), "/base");
    assert_eq!(join_env_path("", "sub"), "sub");
}

#[test]
fn trim_removes_surrounding_whitespace_only() {
    assert_eq!(trim_str("  a b \t"), "a b");
    assert_eq!(trim_str("\n\r"), "");
    assert_eq!(trim_str("plain"), "plain");
}

#[test]
fn bare_reference_without_remainder_resolves_to_value() {
    let table = env(vec![("HOME", " /home/dev ")]);
    assert_eq!(normalize_codex_home("$HOME", &table), Some("/home/dev".to_string()));
    assert_eq!(normalize_codex_home("${HOME}", &table), Some("/home/dev".to_string()));
    assert_eq!(normalize_codex_home("~", &table), Some(" /home/dev ".to_string()));
}
