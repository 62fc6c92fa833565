//! Argument vectors for the external tool, one builder per operation.
//!
//! Every builder follows one template: the fixed subcommand, then the tokens
//! of each field that is present, in an order fixed per tool, then the
//! repository path as a trailing `-R <path>`.

use vstd::prelude::*;
use crate::params::{
    CommitParams, CommitParamsView, DiffParams, DiffParamsView, GitCloneParams,
    GitCloneParamsView, LogParams, LogParamsView, NewParams, NewParamsView, RebaseParams,
    RebaseParamsView, StatusParams, StatusParamsView, ToolParams, ToolParamsView,
};
use crate::text::{decimal, decimal_string};

verus! {

/// One run of the external tool: the program, its arguments in order, and
/// the directory to run it in (the caller's own where absent).
#[derive(Debug, Clone, PartialEq, Eq)]
pub struct Invocation {
    pub program: String,
    pub args: Vec<String>,
    pub cwd: Option<String>,
}

/// What an `Invocation` holds.
pub struct InvocationView {
    pub program: Seq<char>,
    pub args: Seq<Seq<char>>,
    pub cwd: Option<Seq<char>>,
}

impl View for Invocation {
    type V = InvocationView;

    open spec fn view(&self) -> InvocationView {
        InvocationView {
            program: self.program@,
            args: self.args.deep_view(),
            cwd: self.cwd.deep_view(),
        }
    }
}

/// The run of the external tool with these arguments in this directory.
pub open spec fn jj(args: Seq<Seq<char>>, cwd: Option<Seq<char>>) -> InvocationView {
    InvocationView { program: "jj"@, args, cwd }
}

/// The tokens of an option that takes a value: the flag and the value, or
/// nothing where the value is absent.
pub open spec fn flag_with_value(flag: Seq<char>, value: Option<Seq<char>>) -> Seq<Seq<char>> {
    match value {
        Some(v) => seq![flag, v],
        None => Seq::empty(),
    }
}

/// The token of a positional value: the value itself, or nothing.
pub open spec fn bare_value(value: Option<Seq<char>>) -> Seq<Seq<char>> {
    match value {
        Some(v) => seq![v],
        None => Seq::empty(),
    }
}

/// The token of a boolean flag: the flag alone where the field is exactly
/// true, nothing where it is false or absent.
pub open spec fn switch(flag: Seq<char>, value: Option<bool>) -> Seq<Seq<char>> {
    if value == Some(true) {
        seq![flag]
    } else {
        Seq::empty()
    }
}

/// The decimal numeral of a count, where one is given.
pub open spec fn numeral(value: Option<u32>) -> Option<Seq<char>> {
    match value {
        Some(n) => Some(decimal(n as nat)),
        None => None,
    }
}

/// The path tokens of a list of paths, in the order given; nothing where
/// the list is absent.
pub open spec fn path_tokens(paths: Option<Seq<Seq<char>>>) -> Seq<Seq<char>> {
    match paths {
        Some(list) => list,
        None => Seq::empty(),
    }
}

/// The tokens that select a repository: `-R` and the path, or nothing.
pub open spec fn repo_args(repo_path: Option<Seq<char>>) -> Seq<Seq<char>> {
    flag_with_value("-R"@, repo_path)
}

impl StatusParamsView {
    /// The arguments of `jj status`, in order.
    pub open spec fn args(self) -> Seq<Seq<char>> {
        seq!["status"@] + repo_args(self.repo_path)
    }

    /// The run of `jj status`, in the working directory given.
    pub open spec fn invocation(self) -> InvocationView {
        jj(self.args(), self.cwd)
    }
}

impl RebaseParamsView {
    /// The arguments of `jj rebase`, in order.
    pub open spec fn args(self) -> Seq<Seq<char>> {
        seq!["rebase"@] + flag_with_value("-s"@, self.source) + flag_with_value(
            "-d"@,
            self.destination,
        ) + repo_args(self.repo_path)
    }

    /// The run of `jj rebase`, in the working directory given.
    pub open spec fn invocation(self) -> InvocationView {
        jj(self.args(), self.cwd)
    }
}

impl CommitParamsView {
    /// The arguments of `jj commit`, in order.
    pub open spec fn args(self) -> Seq<Seq<char>> {
        seq!["commit"@] + flag_with_value("-m"@, self.message) + repo_args(self.repo_path)
    }

    /// The run of `jj commit`, in the working directory given.
    pub open spec fn invocation(self) -> InvocationView {
        jj(self.args(), self.cwd)
    }
}

impl NewParamsView {
    /// The arguments of `jj new`, in order.
    pub open spec fn args(self) -> Seq<Seq<char>> {
        seq!["new"@] + bare_value(self.parents) + repo_args(self.repo_path)
    }

    /// The run of `jj new`, in the working directory given.
    pub open spec fn invocation(self) -> InvocationView {
        jj(self.args(), self.cwd)
    }
}

impl LogParamsView {
    /// The arguments of `jj log`, in order.
    pub open spec fn args(self) -> Seq<Seq<char>> {
        seq!["log"@] + flag_with_value("-n"@, numeral(self.limit)) + flag_with_value(
            "-T"@,
            self.template,
        ) + bare_value(self.revisions) + repo_args(self.repo_path)
    }

    /// The run of `jj log`, in the working directory given.
    pub open spec fn invocation(self) -> InvocationView {
        jj(self.args(), self.cwd)
    }
}

impl DiffParamsView {
    /// The subcommand and the options that take a value.
    pub open spec fn valued_options(self) -> Seq<Seq<char>> {
        seq!["diff"@] + flag_with_value("--from"@, self.from) + flag_with_value("--to"@, self.to)
            + flag_with_value("--context"@, numeral(self.context))
    }

    /// The subcommand and all the flag options, which come before any path.
    pub open spec fn options(self) -> Seq<Seq<char>> {
        self.valued_options() + switch("--summary"@, self.summary) + switch("--stat"@, self.stat)
    }

    /// The arguments of `jj diff`, in order.
    pub open spec fn args(self) -> Seq<Seq<char>> {
        self.options() + path_tokens(self.paths) + repo_args(self.repo_path)
    }

    /// The run of `jj diff`, in the working directory given.
    pub open spec fn invocation(self) -> InvocationView {
        jj(self.args(), self.cwd)
    }
}

impl GitCloneParamsView {
    /// The compound subcommand and the positional values.
    pub open spec fn positionals(self) -> Seq<Seq<char>> {
        seq!["git"@, "clone"@] + bare_value(self.source) + bare_value(self.destination)
    }

    /// The arguments of `jj git clone`, in order.
    pub open spec fn args(self) -> Seq<Seq<char>> {
        self.positionals() + switch("--colocate"@, self.colocate) + flag_with_value(
            "--remote"@,
            self.remote,
        ) + flag_with_value("--depth"@, numeral(self.depth))
    }

    /// A clone never runs in another directory than the caller's own.
    pub open spec fn invocation(self) -> InvocationView {
        jj(self.args(), None)
    }
}

impl ToolParamsView {
    /// The argument vector of the tool that the parameters are for.
    pub open spec fn args(self) -> Seq<Seq<char>> {
        self.invocation().args
    }

    /// The run of the tool that the parameters are for.
    pub open spec fn invocation(self) -> InvocationView {
        match self {
            ToolParamsView::Status(p) => p.invocation(),
            ToolParamsView::Rebase(p) => p.invocation(),
            ToolParamsView::Commit(p) => p.invocation(),
            ToolParamsView::New(p) => p.invocation(),
            ToolParamsView::Log(p) => p.invocation(),
            ToolParamsView::Diff(p) => p.invocation(),
            ToolParamsView::GitClone(p) => p.invocation(),
        }
    }
}

fn push_token(args: &mut Vec<String>, token: String)
    ensures
        final(args).deep_view() == old(args).deep_view().push(token@),
{
    args.push(token);
}

fn push_flag_with_value(args: &mut Vec<String>, flag: &str, value: Option<String>)
    ensures
        final(args).deep_view() == old(args).deep_view() + flag_with_value(
            flag@,
            value.deep_view(),
        ),
{
    if let Some(v) = value {
        push_token(args, flag.to_string());
        push_token(args, v);
    }
}

fn push_bare_value(args: &mut Vec<String>, value: Option<String>)
    ensures
        final(args).deep_view() == old(args).deep_view() + bare_value(value.deep_view()),
{
    if let Some(v) = value {
        push_token(args, v);
    }
}

fn push_switch(args: &mut Vec<String>, flag: &str, value: Option<bool>)
    ensures
        final(args).deep_view() == old(args).deep_view() + switch(flag@, value),
{
    if let Some(true) = value {
        push_token(args, flag.to_string());
    }
}

fn push_numeral(args: &mut Vec<String>, flag: &str, value: Option<u32>)
    ensures
        final(args).deep_view() == old(args).deep_view() + flag_with_value(flag@, numeral(value)),
{
    if let Some(n) = value {
        push_token(args, flag.to_string());
        push_token(args, decimal_string(n));
    }
}

fn push_paths(args: &mut Vec<String>, paths: Option<Vec<String>>)
    ensures
        final(args).deep_view() == old(args).deep_view() + path_tokens(paths.deep_view()),
{
    if let Some(mut list) = paths {
        args.append(&mut list);
    }
}

fn subcommand(name: &str) -> (args: Vec<String>)
    ensures
        args.deep_view() == seq![name@],
{
    let mut args: Vec<String> = Vec::new();
    push_token(&mut args, name.to_string());
    args
}

/// The run of the external tool with the arguments `args`, in the directory
/// `cwd` or, where that is absent, in the caller's own. Whoever performs it
/// waits for the process and captures its two output streams apart.
pub fn run_jj_command_sync(args: Vec<String>, cwd: Option<String>) -> (r: Invocation)
    ensures
        r@ == jj(args.deep_view(), cwd.deep_view()),
{
    Invocation { program: "jj".to_string(), args, cwd }
}

/// Appends `-R <path>` to `args` when a repository path is given, and
/// nothing otherwise.
pub fn add_repo_args(args: &mut Vec<String>, repo_path: Option<String>)
    ensures
        final(args).deep_view() == old(args).deep_view() + repo_args(repo_path.deep_view()),
{
    push_flag_with_value(args, "-R", repo_path);
}

/// The run of `jj status`: the status of the working copy.
pub fn run_jj_status(params: StatusParams) -> (r: Invocation)
    ensures
        r@ == params@.invocation(),
{
    let StatusParams { repo_path, cwd } = params;
    let mut args = subcommand("status");
    add_repo_args(&mut args, repo_path);
    run_jj_command_sync(args, cwd)
}

/// The run of `jj rebase`: a revision rebased onto another.
pub fn run_jj_rebase(params: RebaseParams) -> (r: Invocation)
    ensures
        r@ == params@.invocation(),
{
    let RebaseParams { source, destination, repo_path, cwd } = params;
    let mut args = subcommand("rebase");
    push_flag_with_value(&mut args, "-s", source);
    push_flag_with_value(&mut args, "-d", destination);
    add_repo_args(&mut args, repo_path);
    run_jj_command_sync(args, cwd)
}

/// The run of `jj commit`: a new commit.
pub fn run_jj_commit(params: CommitParams) -> (r: Invocation)
    ensures
        r@ == params@.invocation(),
{
    let CommitParams { message, repo_path, cwd } = params;
    let mut args = subcommand("commit");
    push_flag_with_value(&mut args, "-m", message);
    add_repo_args(&mut args, repo_path);
    run_jj_command_sync(args, cwd)
}

/// The run of `jj new`: a new empty change.
pub fn run_jj_new(params: NewParams) -> (r: Invocation)
    ensures
        r@ == params@.invocation(),
{
    let NewParams { parents, repo_path, cwd } = params;
    let mut args = subcommand("new");
    push_bare_value(&mut args, parents);
    add_repo_args(&mut args, repo_path);
    run_jj_command_sync(args, cwd)
}

/// The run of `jj log`: the history.
pub fn run_jj_log(params: LogParams) -> (r: Invocation)
    ensures
        r@ == params@.invocation(),
{
    let LogParams { repo_path, cwd, limit, template, revisions } = params;
    let mut args = subcommand("log");
    push_numeral(&mut args, "-n", limit);
    push_flag_with_value(&mut args, "-T", template);
    push_bare_value(&mut args, revisions);
    add_repo_args(&mut args, repo_path);
    run_jj_command_sync(args, cwd)
}

/// The run of `jj diff`: the differences between revisions.
pub fn run_jj_diff(params: DiffParams) -> (r: Invocation)
    ensures
        r@ == params@.invocation(),
{
    let DiffParams { repo_path, cwd, from, to, paths, summary, stat, context } = params;
    let mut args = subcommand("diff");
    push_flag_with_value(&mut args, "--from", from);
    push_flag_with_value(&mut args, "--to", to);
    push_numeral(&mut args, "--context", context);
    push_switch(&mut args, "--summary", summary);
    push_switch(&mut args, "--stat", stat);
    push_paths(&mut args, paths);
    add_repo_args(&mut args, repo_path);
    run_jj_command_sync(args, cwd)
}

/// The run of `jj git clone`: a Git repository cloned. It takes no
/// repository path and no working directory.
pub fn run_jj_git_clone(params: GitCloneParams) -> (r: Invocation)
    ensures
        r@ == params@.invocation(),
{
    let GitCloneParams { source, destination, colocate, remote, depth } = params;
    let mut args = subcommand("git");
    push_token(&mut args, "clone".to_string());
    push_bare_value(&mut args, source);
    push_bare_value(&mut args, destination);
    push_switch(&mut args, "--colocate", colocate);
    push_flag_with_value(&mut args, "--remote", remote);
    push_numeral(&mut args, "--depth", depth);
    assert(args.deep_view() =~= params@.args());
    run_jj_command_sync(args, None)
}

impl ToolParams {
    /// The run of the tool that the parameters are for.
    pub fn invocation(self) -> (r: Invocation)
        ensures
            r@ == self@.invocation(),
    {
        match self {
            ToolParams::Status(p) => run_jj_status(p),
            ToolParams::Rebase(p) => run_jj_rebase(p),
            ToolParams::Commit(p) => run_jj_commit(p),
            ToolParams::New(p) => run_jj_new(p),
            ToolParams::Log(p) => run_jj_log(p),
            ToolParams::Diff(p) => run_jj_diff(p),
            ToolParams::GitClone(p) => run_jj_git_clone(p),
        }
    }
}

} // verus!
