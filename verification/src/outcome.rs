//! From the end of a run of the external tool to the reply for the caller.
//!
//! Every way a run can end is folded into one envelope: no failure of the
//! external tool is an error of this library.

use vstd::prelude::*;
use vstd::string::StringExecFns;
use crate::text::{captured_text, decode_lossy, lemma_nothing_captured_is_empty, trim, trimmed};

verus! {

/// How a run of the external tool ended.
#[derive(Debug, Clone, PartialEq, Eq)]
pub enum ProcessResult {
    /// The process ran to its exit. `success` tells an exit status of zero;
    /// the two streams were captured apart.
    Exited { success: bool, stdout: Vec<u8>, stderr: Vec<u8> },
    /// The process never started; `reason` describes why.
    LaunchFailed { reason: String },
}

/// What a `ProcessResult` holds.
pub enum ProcessResultView {
    Exited { success: bool, stdout: Seq<u8>, stderr: Seq<u8> },
    LaunchFailed { reason: Seq<char> },
}

impl View for ProcessResult {
    type V = ProcessResultView;

    open spec fn view(&self) -> ProcessResultView {
        match self {
            ProcessResult::Exited { success, stdout, stderr } => ProcessResultView::Exited {
                success: *success,
                stdout: stdout@,
                stderr: stderr@,
            },
            ProcessResult::LaunchFailed { reason } => ProcessResultView::LaunchFailed {
                reason: reason@,
            },
        }
    }
}

/// The uniform result of one invocation: whether it succeeded, and the text
/// to show.
#[derive(Debug, Clone, PartialEq, Eq)]
pub struct ExecutionOutcome {
    pub success: bool,
    pub text: String,
}

/// What an `ExecutionOutcome` holds.
pub struct ExecutionOutcomeView {
    pub success: bool,
    pub text: Seq<char>,
}

impl View for ExecutionOutcome {
    type V = ExecutionOutcomeView;

    open spec fn view(&self) -> ExecutionOutcomeView {
        ExecutionOutcomeView { success: self.success, text: self.text@ }
    }
}

/// The text of a failure: `Error: ` and the message.
pub open spec fn error_text(message: Seq<char>) -> Seq<char> {
    "Error: "@ + message
}

/// The outcome of a run that exited with status zero and wrote `output` to
/// its standard output.
pub open spec fn succeeded(output: Seq<char>) -> ExecutionOutcomeView {
    ExecutionOutcomeView { success: true, text: trimmed(output) }
}

/// The outcome of a run that exited with another status and wrote
/// `diagnostics` to its standard error.
pub open spec fn failed(diagnostics: Seq<char>) -> ExecutionOutcomeView {
    ExecutionOutcomeView { success: false, text: error_text(trimmed(diagnostics)) }
}

/// The outcome of a run that never started, for the reason given.
pub open spec fn not_launched(reason: Seq<char>) -> ExecutionOutcomeView {
    ExecutionOutcomeView { success: false, text: error_text(reason) }
}

/// The outcome of a request for a tool that is not registered.
pub open spec fn unknown_tool(name: Seq<char>) -> ExecutionOutcomeView {
    ExecutionOutcomeView { success: false, text: "Unknown tool: "@ + name }
}

impl ProcessResultView {
    /// The outcome of a run that ended this way. Only the stream that the
    /// exit status selects counts, read as text.
    pub open spec fn outcome(self) -> ExecutionOutcomeView {
        match self {
            ProcessResultView::Exited { success, stdout, stderr } => if success {
                succeeded(captured_text(stdout))
            } else {
                failed(captured_text(stderr))
            },
            ProcessResultView::LaunchFailed { reason } => not_launched(reason),
        }
    }
}

fn error_message(message: &str) -> (r: String)
    ensures
        r@ == error_text(message@),
{
    "Error: ".to_string().concat(message)
}

impl ExecutionOutcome {
    /// The outcome of a run that exited with status zero: its standard
    /// output, trimmed. Empty output is a success with empty text.
    pub fn succeeded(output: &str) -> (r: ExecutionOutcome)
        ensures
            r@ == succeeded(output@),
    {
        ExecutionOutcome { success: true, text: trim(output).to_string() }
    }

    /// The outcome of a run that exited with a status other than zero: its
    /// standard error, trimmed, behind `Error: `.
    pub fn failed(diagnostics: &str) -> (r: ExecutionOutcome)
        ensures
            r@ == failed(diagnostics@),
    {
        ExecutionOutcome { success: false, text: error_message(trim(diagnostics)) }
    }

    /// The outcome of a run that never started: the reason, as given,
    /// behind `Error: `.
    pub fn not_launched(reason: &str) -> (r: ExecutionOutcome)
        ensures
            r@ == not_launched(reason@),
    {
        ExecutionOutcome { success: false, text: error_message(reason) }
    }

    /// The outcome of a request for a tool that is not registered.
    pub fn unknown_tool(name: &str) -> (r: ExecutionOutcome)
        ensures
            r@ == unknown_tool(name@),
    {
        ExecutionOutcome { success: false, text: "Unknown tool: ".to_string().concat(name) }
    }

    /// The outcome of a run, from the way it ended.
    pub fn from_process(result: ProcessResult) -> (r: ExecutionOutcome)
        ensures
            r@ == result@.outcome(),
    {
        match result {
            ProcessResult::Exited { success, stdout, stderr } => {
                if success {
                    let output = decode_lossy(&stdout);
                    ExecutionOutcome::succeeded(output.as_str())
                } else {
                    let diagnostics = decode_lossy(&stderr);
                    ExecutionOutcome::failed(diagnostics.as_str())
                }
            },
            ProcessResult::LaunchFailed { reason } => ExecutionOutcome::not_launched(
                reason.as_str(),
            ),
        }
    }
}

/// One item of a reply's content.
#[derive(Debug, Clone, PartialEq, Eq)]
pub enum ResponseContent {
    Text { text: String },
}

impl View for ResponseContent {
    type V = Seq<char>;

    open spec fn view(&self) -> Seq<char> {
        match self {
            ResponseContent::Text { text } => text@,
        }
    }
}

impl DeepView for ResponseContent {
    type V = Seq<char>;

    open spec fn deep_view(&self) -> Seq<char> {
        self@
    }
}

/// The reply to one call of a tool. It carries no metadata.
#[derive(Debug, Clone, PartialEq, Eq)]
pub struct ToolResponse {
    pub content: Vec<ResponseContent>,
    pub is_error: Option<bool>,
}

/// What a `ToolResponse` holds: the text of each content item, and the
/// error flag.
pub struct ToolResponseView {
    pub content: Seq<Seq<char>>,
    pub is_error: Option<bool>,
}

impl View for ToolResponse {
    type V = ToolResponseView;

    open spec fn view(&self) -> ToolResponseView {
        ToolResponseView { content: self.content.deep_view(), is_error: self.is_error }
    }
}

impl ExecutionOutcomeView {
    /// The reply that carries this outcome: its text as the one content
    /// item, and the error flag set exactly when it did not succeed.
    pub open spec fn response(self) -> ToolResponseView {
        ToolResponseView { content: seq![self.text], is_error: Some(!self.success) }
    }
}

impl ToolResponse {
    /// The reply that carries `outcome`.
    pub fn from_outcome(outcome: ExecutionOutcome) -> (r: ToolResponse)
        ensures
            r@ == outcome@.response(),
    {
        let ExecutionOutcome { success, text } = outcome;
        let mut content: Vec<ResponseContent> = Vec::new();
        content.push(ResponseContent::Text { text });
        assert(content.deep_view() =~= seq![outcome@.text]);
        ToolResponse { content, is_error: Some(!success) }
    }

    /// The reply to a call whose run of the external tool ended as `result`.
    pub fn from_process(result: ProcessResult) -> (r: ToolResponse)
        ensures
            r@ == result@.outcome().response(),
    {
        ToolResponse::from_outcome(ExecutionOutcome::from_process(result))
    }
}

/// After an exit status other than zero the reply is an error, and its text
/// is `Error: ` followed by what the tool wrote to its standard error,
/// trimmed; what it wrote to its standard output does not count.
pub proof fn lemma_failure_reports_standard_error(stdout: Seq<u8>, stderr: Seq<u8>)
    ensures
        ({
            let outcome = (ProcessResultView::Exited { success: false, stdout, stderr }).outcome();
            &&& !outcome.success
            &&& "Error: "@.is_prefix_of(outcome.text)
            &&& outcome.text.skip("Error: "@.len() as int) == trimmed(captured_text(stderr))
            &&& outcome.response().is_error == Some(true)
        }),
{
}

/// After an exit status of zero the reply is no error, and its text is what
/// the tool wrote to its standard output, trimmed; empty output gives an
/// empty text.
pub proof fn lemma_success_reports_standard_output(stdout: Seq<u8>, stderr: Seq<u8>)
    ensures
        ({
            let outcome = (ProcessResultView::Exited { success: true, stdout, stderr }).outcome();
            &&& outcome.success
            &&& outcome.text == trimmed(captured_text(stdout))
            &&& outcome.response().is_error == Some(false)
            &&& stdout.len() == 0 ==> outcome.text.len() == 0
        }),
{
    if stdout.len() == 0 {
        lemma_nothing_captured_is_empty();
    }
}

/// However a run ends, the reply holds exactly one text, and its error flag
/// is set: to false after an exit status of zero, to true otherwise.
pub proof fn lemma_every_run_is_answered(result: ProcessResultView)
    ensures
        ({
            let response = result.outcome().response();
            &&& response.content.len() == 1
            &&& response.content[0] == result.outcome().text
            &&& response.is_error == Some(
                !(result matches ProcessResultView::Exited { success, .. } && success),
            )
        }),
{
}

} // verus!
