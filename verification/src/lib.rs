//! Argument marshaling and result handling for a server that offers the
//! operations of the `jj` version-control tool as callable tools.
//!
//! A call is served in two decisions with one run of the external tool
//! between them. `JjTool::call` routes the call by the tool's name and
//! describes the run, argument by argument, from the parameters; the caller
//! performs it; `ToolResponse::from_process` folds the way it ended into the
//! reply. Nothing here starts a process or reads a stream: the `run_jj_*`
//! functions give the run as an `Invocation`.

pub mod command;
pub mod laws;
pub mod outcome;
pub mod params;
pub mod registry;
pub mod text;

pub use command::{
    add_repo_args, run_jj_command_sync, run_jj_commit, run_jj_diff, run_jj_git_clone, run_jj_log,
    run_jj_new, run_jj_rebase, run_jj_status, Invocation,
};
pub use outcome::{ExecutionOutcome, ProcessResult, ResponseContent, ToolResponse};
pub use params::{
    CommitParams, DiffParams, GitCloneParams, LogParams, NewParams, RebaseParams, StatusParams,
    ToolParams,
};
pub use registry::{JjTool, Step, ToolKind};
