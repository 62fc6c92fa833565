use jj_mcp_server::{
    run_jj_status, DiffParams, GitCloneParams, JjTool, LogParams, ProcessResult, ResponseContent,
    StatusParams, Step, ToolKind, ToolParams, ToolResponse,
};
use serde_json::Value;

fn object_schema() -> Value {
    let mut schema = serde_json::Map::new();
    schema.insert("type".to_string(), Value::String("object".to_string()));
    Value::Object(schema)
}

fn tool(name: &str, description: &str) -> JjTool {
    JjTool {
        name: name.to_string(),
        description: description.to_string(),
        input_schema: object_schema(),
    }
}

fn launch_failed() -> ProcessResult {
    ProcessResult::LaunchFailed { reason: "No such file or directory (os error 2)".to_string() }
}

#[test]
fn test_jj_tool_creation() {
    let tool = JjTool {
        name: "test-tool".to_string(),
        description: "Test tool description".to_string(),
        input_schema: object_schema(),
    };

    assert_eq!(tool.name(), "test-tool");
    assert_eq!(tool.description(), "Test tool description");
    assert_eq!(tool.input_schema(), object_schema());
}

#[test]
fn test_tool_call_unknown_tool() {
    let tool = JjTool {
        name: "unknown".to_string(),
        description: "Unknown tool".to_string(),
        input_schema: Value::Object(serde_json::Map::new()),
    };

    let result = match tool.call(None) {
        Step::Reply(response) => response,
        Step::Run(_) => panic!("Expected a reply"),
    };
    assert_eq!(result.is_error, Some(true));

    if let ResponseContent::Text { text } = &result.content[0] {
        assert!(text.contains("Unknown tool: unknown"));
    } else {
        panic!("Expected text content");
    }
}

#[test]
fn test_error_response_format() {
    let params = StatusParams { repo_path: Some("/nonexistent/path".to_string()), cwd: None };

    let run = run_jj_status(params);
    assert_eq!(run.args, vec!["status", "-R", "/nonexistent/path"]);
    let result = ToolResponse::from_process(ProcessResult::Exited {
        success: false,
        stdout: Vec::new(),
        stderr: b"Error: There is no jj repo in \"/nonexistent/path\"\n".to_vec(),
    });
    assert_eq!(result.is_error, Some(true));
    assert_eq!(result.content.len(), 1);

    if let ResponseContent::Text { text } = &result.content[0] {
        assert!(text.contains("Error:"));
    } else {
        panic!("Expected text content");
    }
}

#[test]
fn test_invalid_repository_path() {
    let status_tool = JjTool {
        name: "status".to_string(),
        description: "Show status".to_string(),
        input_schema: object_schema(),
    };

    let args = ToolParams::Status(StatusParams {
        repo_path: Some("/completely/nonexistent/path/that/should/not/exist".to_string()),
        cwd: None,
    });

    let run = match status_tool.call(Some(args)) {
        Step::Run(run) => run,
        Step::Reply(_) => panic!("Expected a run"),
    };
    assert_eq!(
        run.args,
        vec!["status", "-R", "/completely/nonexistent/path/that/should/not/exist"]
    );
    let result = ToolResponse::from_process(launch_failed());
    assert_eq!(result.is_error, Some(true));

    if let ResponseContent::Text { text } = &result.content[0] {
        assert!(text.contains("Error"));
    } else {
        panic!("Expected text content");
    }
}

#[test]
fn test_tool_with_empty_args() {
    let status_tool = JjTool {
        name: "status".to_string(),
        description: "Show status".to_string(),
        input_schema: object_schema(),
    };

    // Test with None arguments
    let run = match status_tool.call(None) {
        Step::Run(run) => run,
        Step::Reply(_) => panic!("Expected a run"),
    };
    assert_eq!(run.args, vec!["status"]);
    assert_eq!(run.cwd, None);
    let result = ToolResponse::from_process(launch_failed());

    if let ResponseContent::Text { text } = &result.content[0] {
        assert!(!text.is_empty());
    } else {
        panic!("Expected text content");
    }
}

#[test]
fn test_git_clone_tool_invalid_source() {
    let clone_tool = JjTool {
        name: "git-clone".to_string(),
        description: "Clone repository".to_string(),
        input_schema: object_schema(),
    };

    let args = ToolParams::GitClone(GitCloneParams {
        source: Some("https://this-should-not-exist.invalid/repo.git".to_string()),
        destination: Some("test-repo".to_string()),
        colocate: None,
        remote: None,
        depth: None,
    });

    let run = match clone_tool.call(Some(args)) {
        Step::Run(run) => run,
        Step::Reply(_) => panic!("Expected a run"),
    };
    assert_eq!(
        run.args,
        vec!["git", "clone", "https://this-should-not-exist.invalid/repo.git", "test-repo"]
    );
    let result = ToolResponse::from_process(launch_failed());

    if let ResponseContent::Text { text } = &result.content[0] {
        assert!(!text.is_empty());
    } else {
        panic!("Expected text content");
    }
}

#[test]
fn every_tool_is_found_by_its_name() {
    let names = ["status", "rebase", "commit", "new", "log", "diff", "git-clone"];
    let kinds = ToolKind::all();
    assert_eq!(kinds.len(), names.len());
    for (kind, name) in kinds.iter().zip(names) {
        assert_eq!(kind.name(), name);
        assert_eq!(ToolKind::lookup(name), Some(*kind));
        assert!(!kind.description().is_empty());
    }
}

#[test]
fn names_are_matched_exactly() {
    let near = ["", "Status", "status ", " status", "git clone", "git_clone", "git", "clone", "jj"];
    for name in near {
        assert_eq!(ToolKind::lookup(name), None, "{:?}", name);
    }
}

#[test]
fn descriptions_of_the_catalogue() {
    assert_eq!(ToolKind::Status.description(), "Show the status of the working directory");
    assert_eq!(ToolKind::Rebase.description(), "Rebase a revision onto another");
    assert_eq!(ToolKind::Commit.description(), "Create a new commit");
    assert_eq!(ToolKind::New.description(), "Create a new empty commit");
    assert_eq!(ToolKind::Log.description(), "Show commit history");
    assert_eq!(ToolKind::Diff.description(), "Show differences between revisions");
    assert_eq!(ToolKind::GitClone.description(), "Clone a Git repository using jj");
}

#[test]
fn a_tool_of_the_catalogue_bears_its_name() {
    for kind in ToolKind::all() {
        let tool = JjTool::new(kind, object_schema());
        assert_eq!(tool.name(), kind.name());
        assert_eq!(tool.description(), kind.description());
        assert_eq!(tool.input_schema(), object_schema());
        assert_eq!(tool.kind(), Some(kind));
    }
}

#[test]
fn unknown_names_are_answered_without_a_run() {
    for name in ["", "unknown", "STATUS", "git-clone2"] {
        let tool = tool(name, "");
        assert_eq!(tool.kind(), None);
        let decoded = Some(ToolParams::Status(StatusParams::default()));
        match tool.call(decoded) {
            Step::Reply(reply) => {
                assert_eq!(reply.is_error, Some(true));
                assert_eq!(
                    reply.content,
                    vec![ResponseContent::Text { text: format!("Unknown tool: {}", name) }]
                );
            }
            Step::Run(_) => panic!("nothing is to run for {:?}", name),
        }
    }
}

#[test]
fn a_call_runs_with_its_parameters() {
    let log_tool = tool("log", "Show log");
    let decoded = ToolParams::Log(LogParams {
        repo_path: Some("/r".to_string()),
        cwd: Some("/w".to_string()),
        limit: Some(5),
        template: None,
        revisions: None,
    });
    match log_tool.call(Some(decoded)) {
        Step::Run(run) => {
            assert_eq!(run.program, "jj");
            assert_eq!(run.args, vec!["log", "-n", "5", "-R", "/r"]);
            assert_eq!(run.cwd, Some("/w".to_string()));
        }
        Step::Reply(_) => panic!("Expected a run"),
    }
}

#[test]
fn parameters_of_another_tool_count_as_undecoded() {
    let diff_tool = tool("diff", "Show diff");
    let decoded = ToolParams::Status(StatusParams { repo_path: Some("/r".to_string()), cwd: None });
    match diff_tool.call(Some(decoded)) {
        Step::Run(run) => {
            assert_eq!(run.args, vec!["diff"]);
            assert_eq!(run.cwd, None);
        }
        Step::Reply(_) => panic!("Expected a run"),
    }
    let kept = ToolParams::or_absent(
        ToolKind::Diff,
        Some(ToolParams::Diff(DiffParams { summary: Some(true), ..DiffParams::default() })),
    );
    assert_eq!(kept.invocation().args, vec!["diff", "--summary"]);
    assert_eq!(
        ToolParams::or_absent(ToolKind::Diff, None),
        ToolParams::Diff(DiffParams::default())
    );
}
