use jj_mcp_server::{add_repo_args, StatusParams};

#[test]
fn test_add_repo_args() {
    let mut args = vec!["status".to_string()];
    add_repo_args(&mut args, Some("/path/to/repo".to_string()));

    assert_eq!(args, vec!["status", "-R", "/path/to/repo"]);
}

#[test]
fn test_add_repo_args_none() {
    let mut args = vec!["status".to_string()];
    add_repo_args(&mut args, None);

    assert_eq!(args, vec!["status"]);
}

#[test]
fn test_status_params_default() {
    let params = StatusParams::default();
    assert!(params.repo_path.is_none());
    assert!(params.cwd.is_none());
}

#[test]
fn repo_args_keep_what_was_there() {
    let mut args = vec!["log".to_string(), "-n".to_string(), "3".to_string()];
    add_repo_args(&mut args, Some("repo with spaces".to_string()));
    assert_eq!(args, vec!["log", "-n", "3", "-R", "repo with spaces"]);
}

#[test]
fn repo_args_on_an_empty_vector() {
    let mut args: Vec<String> = Vec::new();
    add_repo_args(&mut args, Some(String::new()));
    assert_eq!(args, vec!["-R", ""]);
}
