//! The catalogue of tools and the routing of a call by the tool's name.

use vstd::prelude::*;
use crate::command::{Invocation, InvocationView};
use crate::outcome::{unknown_tool, ExecutionOutcome, ToolResponse, ToolResponseView};
use crate::params::{ToolParams, ToolParamsView};
use crate::text::same_text;

verus! {

/// The tools of the catalogue.
#[derive(Debug, Clone, Copy, PartialEq, Eq, Structural, Hash)]
pub enum ToolKind {
    Status,
    Rebase,
    Commit,
    New,
    Log,
    Diff,
    GitClone,
}

impl ToolKind {
    /// The name under which the tool is registered and called.
    pub open spec fn name_text(self) -> Seq<char> {
        match self {
            ToolKind::Status => "status"@,
            ToolKind::Rebase => "rebase"@,
            ToolKind::Commit => "commit"@,
            ToolKind::New => "new"@,
            ToolKind::Log => "log"@,
            ToolKind::Diff => "diff"@,
            ToolKind::GitClone => "git-clone"@,
        }
    }

    /// What the tool does, for a human reader.
    pub open spec fn description_text(self) -> Seq<char> {
        match self {
            ToolKind::Status => "Show the status of the working directory"@,
            ToolKind::Rebase => "Rebase a revision onto another"@,
            ToolKind::Commit => "Create a new commit"@,
            ToolKind::New => "Create a new empty commit"@,
            ToolKind::Log => "Show commit history"@,
            ToolKind::Diff => "Show differences between revisions"@,
            ToolKind::GitClone => "Clone a Git repository using jj"@,
        }
    }

    /// The name under which the tool is registered and called.
    pub fn name(self) -> (r: &'static str)
        ensures
            r@ == self.name_text(),
    {
        match self {
            ToolKind::Status => "status",
            ToolKind::Rebase => "rebase",
            ToolKind::Commit => "commit",
            ToolKind::New => "new",
            ToolKind::Log => "log",
            ToolKind::Diff => "diff",
            ToolKind::GitClone => "git-clone",
        }
    }

    /// What the tool does, for a human reader.
    pub fn description(self) -> (r: &'static str)
        ensures
            r@ == self.description_text(),
    {
        match self {
            ToolKind::Status => "Show the status of the working directory",
            ToolKind::Rebase => "Rebase a revision onto another",
            ToolKind::Commit => "Create a new commit",
            ToolKind::New => "Create a new empty commit",
            ToolKind::Log => "Show commit history",
            ToolKind::Diff => "Show differences between revisions",
            ToolKind::GitClone => "Clone a Git repository using jj",
        }
    }

    /// Every tool of the catalogue, once, in the order of registration.
    pub fn all() -> (r: Vec<ToolKind>)
        ensures
            r@ == catalogue(),
    {
        let mut kinds: Vec<ToolKind> = Vec::new();
        kinds.push(ToolKind::Status);
        kinds.push(ToolKind::Rebase);
        kinds.push(ToolKind::Commit);
        kinds.push(ToolKind::New);
        kinds.push(ToolKind::Log);
        kinds.push(ToolKind::Diff);
        kinds.push(ToolKind::GitClone);
        kinds
    }

    /// The tool registered under `name`, if there is one.
    pub fn lookup(name: &str) -> (r: Option<ToolKind>)
        ensures
            r == registered(name@),
    {
        if same_text(name, ToolKind::Status.name()) {
            Some(ToolKind::Status)
        } else if same_text(name, ToolKind::Rebase.name()) {
            Some(ToolKind::Rebase)
        } else if same_text(name, ToolKind::Commit.name()) {
            Some(ToolKind::Commit)
        } else if same_text(name, ToolKind::New.name()) {
            Some(ToolKind::New)
        } else if same_text(name, ToolKind::Log.name()) {
            Some(ToolKind::Log)
        } else if same_text(name, ToolKind::Diff.name()) {
            Some(ToolKind::Diff)
        } else if same_text(name, ToolKind::GitClone.name()) {
            Some(ToolKind::GitClone)
        } else {
            None
        }
    }
}

/// The catalogue: every tool, in the order of registration.
pub open spec fn catalogue() -> Seq<ToolKind> {
    seq![
        ToolKind::Status,
        ToolKind::Rebase,
        ToolKind::Commit,
        ToolKind::New,
        ToolKind::Log,
        ToolKind::Diff,
        ToolKind::GitClone,
    ]
}

/// The tool registered under `name`, if there is one.
pub open spec fn registered(name: Seq<char>) -> Option<ToolKind> {
    if name == ToolKind::Status.name_text() {
        Some(ToolKind::Status)
    } else if name == ToolKind::Rebase.name_text() {
        Some(ToolKind::Rebase)
    } else if name == ToolKind::Commit.name_text() {
        Some(ToolKind::Commit)
    } else if name == ToolKind::New.name_text() {
        Some(ToolKind::New)
    } else if name == ToolKind::Log.name_text() {
        Some(ToolKind::Log)
    } else if name == ToolKind::Diff.name_text() {
        Some(ToolKind::Diff)
    } else if name == ToolKind::GitClone.name_text() {
        Some(ToolKind::GitClone)
    } else {
        None
    }
}

/// No two tools share a name.
pub proof fn lemma_names_are_unique(a: ToolKind, b: ToolKind)
    requires
        a.name_text() == b.name_text(),
    ensures
        a == b,
{
    reveal_strlit("status");
    reveal_strlit("rebase");
    reveal_strlit("commit");
    reveal_strlit("new");
    reveal_strlit("log");
    reveal_strlit("diff");
    reveal_strlit("git-clone");
    let x = a.name_text();
    let y = b.name_text();
    assert(x[0] == y[0]);
}

/// A name is registered for exactly one tool: the one that bears it.
pub proof fn lemma_registered_is_by_name(name: Seq<char>, kind: ToolKind)
    ensures
        registered(name) == Some(kind) <==> name == kind.name_text(),
{
    if name == kind.name_text() {
        lemma_names_are_unique(registered(name)->0, kind);
    }
}

/// The catalogue holds every tool, and each one once; so no name is
/// registered twice.
pub proof fn lemma_catalogue_is_complete(kind: ToolKind)
    ensures
        catalogue().contains(kind),
        catalogue().no_duplicates(),
        forall|i: int, j: int|
            0 <= i < j < catalogue().len() ==> catalogue()[i].name_text()
                != catalogue()[j].name_text(),
{
    let c = catalogue();
    assert forall|i: int, j: int| 0 <= i < j < c.len() implies c[i].name_text()
        != c[j].name_text() by {
        if c[i].name_text() == c[j].name_text() {
            lemma_names_are_unique(c[i], c[j]);
        }
    }
}

/// `serde_json::Value`, a JSON value. The library carries one as a tool's
/// input schema and never looks inside.
#[verifier::external_type_specification]
#[verifier::external_body]
pub struct ExValue(serde_json::Value);

/// `Clone` for `serde_json::Value`, which the crate derives. Trusted: the
/// copy equals the value copied.
pub assume_specification[ <serde_json::Value as Clone>::clone ](value: &serde_json::Value) -> (r:
    serde_json::Value)
    ensures
        r == *value,
;

/// What to do next for a call.
#[derive(Debug, Clone, PartialEq, Eq)]
pub enum Step {
    /// Run the external tool as described, then reply with
    /// `ToolResponse::from_process` of the way the run ended.
    Run(Invocation),
    /// Reply with this; nothing is run.
    Reply(ToolResponse),
}

/// What a `Step` holds.
pub enum StepView {
    Run(InvocationView),
    Reply(ToolResponseView),
}

impl View for Step {
    type V = StepView;

    open spec fn view(&self) -> StepView {
        match self {
            Step::Run(invocation) => StepView::Run(invocation@),
            Step::Reply(response) => StepView::Reply(response@),
        }
    }
}

/// The first step of a call of the tool named `name` with the parameters
/// `decoded` from the request: a registered tool runs with its parameters,
/// or with every field absent where none were decoded in its shape; any
/// other name is answered at once as an unknown tool.
pub open spec fn first_step(name: Seq<char>, decoded: Option<ToolParamsView>) -> StepView {
    match registered(name) {
        Some(kind) => StepView::Run(ToolParamsView::or_absent(kind, decoded).invocation()),
        None => StepView::Reply(unknown_tool(name).response()),
    }
}

/// A tool as it is offered to callers: its name, by which calls are routed,
/// a description, and the schema of its parameters.
pub struct JjTool {
    pub name: String,
    pub description: String,
    pub input_schema: serde_json::Value,
}

impl JjTool {
    /// The tool of the catalogue of this kind, offered with this schema.
    pub fn new(kind: ToolKind, input_schema: serde_json::Value) -> (r: JjTool)
        ensures
            r.name@ == kind.name_text(),
            r.description@ == kind.description_text(),
            r.input_schema == input_schema,
    {
        JjTool {
            name: kind.name().to_string(),
            description: kind.description().to_string(),
            input_schema,
        }
    }

    /// The tool's name.
    pub fn name(&self) -> (r: String)
        ensures
            r@ == self.name@,
    {
        self.name.clone()
    }

    /// The tool's description.
    pub fn description(&self) -> (r: String)
        ensures
            r@ == self.description@,
    {
        self.description.clone()
    }

    /// The schema of the tool's parameters.
    pub fn input_schema(&self) -> (r: serde_json::Value)
        ensures
            r == self.input_schema,
    {
        self.input_schema.clone()
    }

    /// The tool of the catalogue that this one's name stands for, if any:
    /// the shape in which to decode the parameters of a call.
    pub fn kind(&self) -> (r: Option<ToolKind>)
        ensures
            r == registered(self.name@),
    {
        ToolKind::lookup(self.name.as_str())
    }

    /// Decides the first step of a call with the parameters `decoded` from
    /// the request (`None` where they could not be decoded).
    pub fn call(&self, decoded: Option<ToolParams>) -> (r: Step)
        ensures
            r@ == first_step(self.name@, decoded.deep_view()),
    {
        match self.kind() {
            Some(kind) => Step::Run(ToolParams::or_absent(kind, decoded).invocation()),
            None => Step::Reply(
                ToolResponse::from_outcome(ExecutionOutcome::unknown_tool(self.name.as_str())),
            ),
        }
    }
}

/// A call of a name that is not registered runs nothing: it is answered
/// with an error whose one content item is `Unknown tool: ` and the name.
pub proof fn lemma_unknown_tool_is_answered(name: Seq<char>, decoded: Option<ToolParamsView>)
    requires
        registered(name) is None,
    ensures
        first_step(name, decoded) matches StepView::Reply(response) && response.is_error == Some(
            true,
        ) && response.content == seq!["Unknown tool: "@ + name],
{
}

/// A call of a registered name runs the external tool, with the arguments
/// of that tool for the parameters decoded.
pub proof fn lemma_registered_tool_runs(kind: ToolKind, decoded: Option<ToolParamsView>)
    ensures
        first_step(kind.name_text(), decoded) == StepView::Run(
            ToolParamsView::or_absent(kind, decoded).invocation(),
        ),
{
    lemma_registered_is_by_name(kind.name_text(), kind);
}

} // verus!
