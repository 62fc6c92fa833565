//! The parameter object of each tool: every field is optional, and an absent
//! field leaves the external tool to its default.

use vstd::prelude::*;
use crate::registry::ToolKind;

verus! {

/// Parameters of the status tool.
#[derive(Debug, Clone, PartialEq, Eq)]
pub struct StatusParams {
    pub repo_path: Option<String>,
    pub cwd: Option<String>,
}

/// What a `StatusParams` holds.
pub struct StatusParamsView {
    pub repo_path: Option<Seq<char>>,
    pub cwd: Option<Seq<char>>,
}

impl StatusParamsView {
    /// The parameter object with every field absent.
    pub open spec fn absent() -> Self {
        StatusParamsView { repo_path: None, cwd: None }
    }
}

impl View for StatusParams {
    type V = StatusParamsView;

    open spec fn view(&self) -> StatusParamsView {
        StatusParamsView { repo_path: self.repo_path.deep_view(), cwd: self.cwd.deep_view() }
    }
}

impl Default for StatusParams {
    fn default() -> (r: Self)
        ensures
            r@ == StatusParamsView::absent(),
    {
        StatusParams { repo_path: None, cwd: None }
    }
}

/// Parameters of the rebase tool.
#[derive(Debug, Clone, PartialEq, Eq)]
pub struct RebaseParams {
    pub source: Option<String>,
    pub destination: Option<String>,
    pub repo_path: Option<String>,
    pub cwd: Option<String>,
}

/// What a `RebaseParams` holds.
pub struct RebaseParamsView {
    pub source: Option<Seq<char>>,
    pub destination: Option<Seq<char>>,
    pub repo_path: Option<Seq<char>>,
    pub cwd: Option<Seq<char>>,
}

impl RebaseParamsView {
    /// The parameter object with every field absent.
    pub open spec fn absent() -> Self {
        RebaseParamsView { source: None, destination: None, repo_path: None, cwd: None }
    }
}

impl View for RebaseParams {
    type V = RebaseParamsView;

    open spec fn view(&self) -> RebaseParamsView {
        RebaseParamsView {
            source: self.source.deep_view(),
            destination: self.destination.deep_view(),
            repo_path: self.repo_path.deep_view(),
            cwd: self.cwd.deep_view(),
        }
    }
}

impl Default for RebaseParams {
    fn default() -> (r: Self)
        ensures
            r@ == RebaseParamsView::absent(),
    {
        RebaseParams { source: None, destination: None, repo_path: None, cwd: None }
    }
}

/// Parameters of the commit tool.
#[derive(Debug, Clone, PartialEq, Eq)]
pub struct CommitParams {
    pub message: Option<String>,
    pub repo_path: Option<String>,
    pub cwd: Option<String>,
}

/// What a `CommitParams` holds.
pub struct CommitParamsView {
    pub message: Option<Seq<char>>,
    pub repo_path: Option<Seq<char>>,
    pub cwd: Option<Seq<char>>,
}

impl CommitParamsView {
    /// The parameter object with every field absent.
    pub open spec fn absent() -> Self {
        CommitParamsView { message: None, repo_path: None, cwd: None }
    }
}

impl View for CommitParams {
    type V = CommitParamsView;

    open spec fn view(&self) -> CommitParamsView {
        CommitParamsView {
            message: self.message.deep_view(),
            repo_path: self.repo_path.deep_view(),
            cwd: self.cwd.deep_view(),
        }
    }
}

impl Default for CommitParams {
    fn default() -> (r: Self)
        ensures
            r@ == CommitParamsView::absent(),
    {
        CommitParams { message: None, repo_path: None, cwd: None }
    }
}

/// Parameters of the new tool.
#[derive(Debug, Clone, PartialEq, Eq)]
pub struct NewParams {
    pub parents: Option<String>,
    pub repo_path: Option<String>,
    pub cwd: Option<String>,
}

/// What a `NewParams` holds.
pub struct NewParamsView {
    pub parents: Option<Seq<char>>,
    pub repo_path: Option<Seq<char>>,
    pub cwd: Option<Seq<char>>,
}

impl NewParamsView {
    /// The parameter object with every field absent.
    pub open spec fn absent() -> Self {
        NewParamsView { parents: None, repo_path: None, cwd: None }
    }
}

impl View for NewParams {
    type V = NewParamsView;

    open spec fn view(&self) -> NewParamsView {
        NewParamsView {
            parents: self.parents.deep_view(),
            repo_path: self.repo_path.deep_view(),
            cwd: self.cwd.deep_view(),
        }
    }
}

impl Default for NewParams {
    fn default() -> (r: Self)
        ensures
            r@ == NewParamsView::absent(),
    {
        NewParams { parents: None, repo_path: None, cwd: None }
    }
}

/// Parameters of the log tool.
#[derive(Debug, Clone, PartialEq, Eq)]
pub struct LogParams {
    pub repo_path: Option<String>,
    pub cwd: Option<String>,
    pub limit: Option<u32>,
    pub template: Option<String>,
    pub revisions: Option<String>,
}

/// What a `LogParams` holds.
pub struct LogParamsView {
    pub repo_path: Option<Seq<char>>,
    pub cwd: Option<Seq<char>>,
    pub limit: Option<u32>,
    pub template: Option<Seq<char>>,
    pub revisions: Option<Seq<char>>,
}

impl LogParamsView {
    /// The parameter object with every field absent.
    pub open spec fn absent() -> Self {
        LogParamsView { repo_path: None, cwd: None, limit: None, template: None, revisions: None }
    }
}

impl View for LogParams {
    type V = LogParamsView;

    open spec fn view(&self) -> LogParamsView {
        LogParamsView {
            repo_path: self.repo_path.deep_view(),
            cwd: self.cwd.deep_view(),
            limit: self.limit,
            template: self.template.deep_view(),
            revisions: self.revisions.deep_view(),
        }
    }
}

impl Default for LogParams {
    fn default() -> (r: Self)
        ensures
            r@ == LogParamsView::absent(),
    {
        LogParams { repo_path: None, cwd: None, limit: None, template: None, revisions: None }
    }
}

/// Parameters of the diff tool.
#[derive(Debug, Clone, PartialEq, Eq)]
pub struct DiffParams {
    pub repo_path: Option<String>,
    pub cwd: Option<String>,
    pub from: Option<String>,
    pub to: Option<String>,
    pub paths: Option<Vec<String>>,
    pub summary: Option<bool>,
    pub stat: Option<bool>,
    pub context: Option<u32>,
}

/// What a `DiffParams` holds.
pub struct DiffParamsView {
    pub repo_path: Option<Seq<char>>,
    pub cwd: Option<Seq<char>>,
    pub from: Option<Seq<char>>,
    pub to: Option<Seq<char>>,
    pub paths: Option<Seq<Seq<char>>>,
    pub summary: Option<bool>,
    pub stat: Option<bool>,
    pub context: Option<u32>,
}

impl DiffParamsView {
    /// The parameter object with every field absent.
    pub open spec fn absent() -> Self {
        DiffParamsView {
            repo_path: None,
            cwd: None,
            from: None,
            to: None,
            paths: None,
            summary: None,
            stat: None,
            context: None,
        }
    }
}

impl View for DiffParams {
    type V = DiffParamsView;

    open spec fn view(&self) -> DiffParamsView {
        DiffParamsView {
            repo_path: self.repo_path.deep_view(),
            cwd: self.cwd.deep_view(),
            from: self.from.deep_view(),
            to: self.to.deep_view(),
            paths: self.paths.deep_view(),
            summary: self.summary,
            stat: self.stat,
            context: self.context,
        }
    }
}

impl Default for DiffParams {
    fn default() -> (r: Self)
        ensures
            r@ == DiffParamsView::absent(),
    {
        DiffParams {
            repo_path: None,
            cwd: None,
            from: None,
            to: None,
            paths: None,
            summary: None,
            stat: None,
            context: None,
        }
    }
}

/// Parameters of the git-clone tool. It runs before a repository exists, so
/// it has neither a repository path nor a working directory.
#[derive(Debug, Clone, PartialEq, Eq)]
pub struct GitCloneParams {
    pub source: Option<String>,
    pub destination: Option<String>,
    pub colocate: Option<bool>,
    pub remote: Option<String>,
    pub depth: Option<u32>,
}

/// What a `GitCloneParams` holds.
pub struct GitCloneParamsView {
    pub source: Option<Seq<char>>,
    pub destination: Option<Seq<char>>,
    pub colocate: Option<bool>,
    pub remote: Option<Seq<char>>,
    pub depth: Option<u32>,
}

impl GitCloneParamsView {
    /// The parameter object with every field absent.
    pub open spec fn absent() -> Self {
        GitCloneParamsView {
            source: None,
            destination: None,
            colocate: None,
            remote: None,
            depth: None,
        }
    }
}

impl View for GitCloneParams {
    type V = GitCloneParamsView;

    open spec fn view(&self) -> GitCloneParamsView {
        GitCloneParamsView {
            source: self.source.deep_view(),
            destination: self.destination.deep_view(),
            colocate: self.colocate,
            remote: self.remote.deep_view(),
            depth: self.depth,
        }
    }
}

impl Default for GitCloneParams {
    fn default() -> (r: Self)
        ensures
            r@ == GitCloneParamsView::absent(),
    {
        GitCloneParams {
            source: None,
            destination: None,
            colocate: None,
            remote: None,
            depth: None,
        }
    }
}

/// The parameter object of a call, in the shape of the tool it is for.
#[derive(Debug, Clone, PartialEq, Eq)]
pub enum ToolParams {
    Status(StatusParams),
    Rebase(RebaseParams),
    Commit(CommitParams),
    New(NewParams),
    Log(LogParams),
    Diff(DiffParams),
    GitClone(GitCloneParams),
}

/// What a `ToolParams` holds.
pub enum ToolParamsView {
    Status(StatusParamsView),
    Rebase(RebaseParamsView),
    Commit(CommitParamsView),
    New(NewParamsView),
    Log(LogParamsView),
    Diff(DiffParamsView),
    GitClone(GitCloneParamsView),
}

impl View for ToolParams {
    type V = ToolParamsView;

    open spec fn view(&self) -> ToolParamsView {
        match self {
            ToolParams::Status(p) => ToolParamsView::Status(p@),
            ToolParams::Rebase(p) => ToolParamsView::Rebase(p@),
            ToolParams::Commit(p) => ToolParamsView::Commit(p@),
            ToolParams::New(p) => ToolParamsView::New(p@),
            ToolParams::Log(p) => ToolParamsView::Log(p@),
            ToolParams::Diff(p) => ToolParamsView::Diff(p@),
            ToolParams::GitClone(p) => ToolParamsView::GitClone(p@),
        }
    }
}

impl DeepView for ToolParams {
    type V = ToolParamsView;

    open spec fn deep_view(&self) -> ToolParamsView {
        self@
    }
}

impl ToolParamsView {
    /// The tool that these parameters are for.
    pub open spec fn kind(self) -> ToolKind {
        match self {
            ToolParamsView::Status(_) => ToolKind::Status,
            ToolParamsView::Rebase(_) => ToolKind::Rebase,
            ToolParamsView::Commit(_) => ToolKind::Commit,
            ToolParamsView::New(_) => ToolKind::New,
            ToolParamsView::Log(_) => ToolKind::Log,
            ToolParamsView::Diff(_) => ToolKind::Diff,
            ToolParamsView::GitClone(_) => ToolKind::GitClone,
        }
    }

    /// The parameter object of `kind` with every field absent.
    pub open spec fn absent(kind: ToolKind) -> Self {
        match kind {
            ToolKind::Status => ToolParamsView::Status(StatusParamsView::absent()),
            ToolKind::Rebase => ToolParamsView::Rebase(RebaseParamsView::absent()),
            ToolKind::Commit => ToolParamsView::Commit(CommitParamsView::absent()),
            ToolKind::New => ToolParamsView::New(NewParamsView::absent()),
            ToolKind::Log => ToolParamsView::Log(LogParamsView::absent()),
            ToolKind::Diff => ToolParamsView::Diff(DiffParamsView::absent()),
            ToolKind::GitClone => ToolParamsView::GitClone(GitCloneParamsView::absent()),
        }
    }

    /// The parameters that a call of the tool `kind` goes by: those decoded
    /// from the request where decoding gave some in the tool's shape, and
    /// otherwise the object with every field absent.
    pub open spec fn or_absent(kind: ToolKind, decoded: Option<ToolParamsView>) -> Self {
        match decoded {
            Some(params) if params.kind() == kind => params,
            _ => ToolParamsView::absent(kind),
        }
    }
}

impl ToolParams {
    /// The tool that these parameters are for.
    pub fn kind(&self) -> (r: ToolKind)
        ensures
            r == self@.kind(),
    {
        match self {
            ToolParams::Status(_) => ToolKind::Status,
            ToolParams::Rebase(_) => ToolKind::Rebase,
            ToolParams::Commit(_) => ToolKind::Commit,
            ToolParams::New(_) => ToolKind::New,
            ToolParams::Log(_) => ToolKind::Log,
            ToolParams::Diff(_) => ToolKind::Diff,
            ToolParams::GitClone(_) => ToolKind::GitClone,
        }
    }

    /// The parameter object of `kind` with every field absent.
    pub fn absent(kind: ToolKind) -> (r: ToolParams)
        ensures
            r@ == ToolParamsView::absent(kind),
    {
        match kind {
            ToolKind::Status => ToolParams::Status(StatusParams::default()),
            ToolKind::Rebase => ToolParams::Rebase(RebaseParams::default()),
            ToolKind::Commit => ToolParams::Commit(CommitParams::default()),
            ToolKind::New => ToolParams::New(NewParams::default()),
            ToolKind::Log => ToolParams::Log(LogParams::default()),
            ToolKind::Diff => ToolParams::Diff(DiffParams::default()),
            ToolKind::GitClone => ToolParams::GitClone(GitCloneParams::default()),
        }
    }

    /// The parameters that a call of the tool `kind` goes by. Decoding is
    /// best effort: where it gave nothing, or parameters of another tool,
    /// the call runs with every field absent.
    pub fn or_absent(kind: ToolKind, decoded: Option<ToolParams>) -> (r: ToolParams)
        ensures
            r@ == ToolParamsView::or_absent(kind, decoded.deep_view()),
    {
        match decoded {
            Some(params) => {
                if params.kind() == kind {
                    params
                } else {
                    ToolParams::absent(kind)
                }
            },
            None => ToolParams::absent(kind),
        }
    }
}

} // verus!
