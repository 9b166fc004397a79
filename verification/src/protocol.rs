//! What passes between the session and its caller: the command to carry
//! out, the events that the caller reports, and the actions that the
//! session asks for.

use crate::config::{Config, ConfigView};
use crate::issue::texts;
use crate::json::{Json, JsonView};
use crate::sprint::ResolveError;
use crate::text::optional_text;
use crate::wire::ReplyError;
use vstd::prelude::*;

verus! {

/// What the program was asked to do once the sprint is known.
#[derive(Debug, Clone, PartialEq, Eq)]
pub enum Command {
    /// Show the tasks of the sprint and the open backlog.
    List,
    /// Create a task in the sprint. What was not given on the command
    /// line is asked for.
    Create { summary: Option<String>, description: Option<String> },
}

/// The model of a `Command`.
pub enum CommandView {
    List,
    Create { summary: Option<Seq<char>>, description: Option<Seq<char>> },
}

impl View for Command {
    type V = CommandView;

    open spec fn view(&self) -> CommandView {
        match self {
            Command::List => CommandView::List,
            Command::Create { summary, description } => CommandView::Create {
                summary: optional_text(*summary),
                description: optional_text(*description),
            },
        }
    }
}

/// What happened outside: the caller reports it to the machine. A reply
/// is reported with its status and its body as text.
#[derive(Debug, PartialEq, Eq)]
pub enum Event {
    /// The tracker replied to the query for the active sprint.
    SprintReply { status: u16, body: String },
    /// The tracker replied to a query for issues.
    IssuesReply { status: u16, body: String },
    /// The tracker replied to the posting of an issue.
    CreateReply { status: u16, body: String },
    /// The operator answered a prompt with this line.
    Answer { line: String },
}

/// The model of an `Event`.
pub enum EventView {
    SprintReply { status: u16, body: Seq<char> },
    IssuesReply { status: u16, body: Seq<char> },
    CreateReply { status: u16, body: Seq<char> },
    Answer { line: Seq<char> },
}

impl View for Event {
    type V = EventView;

    open spec fn view(&self) -> EventView {
        match self {
            Event::SprintReply { status, body } => EventView::SprintReply {
                status: *status,
                body: body@,
            },
            Event::IssuesReply { status, body } => EventView::IssuesReply {
                status: *status,
                body: body@,
            },
            Event::CreateReply { status, body } => EventView::CreateReply {
                status: *status,
                body: body@,
            },
            Event::Answer { line } => EventView::Answer { line: line@ },
        }
    }
}

/// Why a session ended badly.
#[derive(Debug, Clone, PartialEq, Eq)]
pub enum Failure {
    /// The query for the active sprint was refused with this status.
    SprintLookup { status: u16 },
    /// The query for the active sprint was served, but the reply names no
    /// sprint.
    NoSprint { error: ResolveError },
    /// The query for the sprint's issues was refused with this status.
    SprintIssues { status: u16 },
    /// The issue was not created; `diagnostic` is the body of the reply.
    Creation { status: u16, diagnostic: String },
    /// A reply was served, but its body could not be used.
    UnreadableReply { reason: ReplyError },
}

/// The model of a `Failure`.
pub enum FailureView {
    SprintLookup { status: u16 },
    NoSprint { error: ResolveError },
    SprintIssues { status: u16 },
    Creation { status: u16, diagnostic: Seq<char> },
    UnreadableReply { reason: ReplyError },
}

impl View for Failure {
    type V = FailureView;

    open spec fn view(&self) -> FailureView {
        match self {
            Failure::SprintLookup { status } => FailureView::SprintLookup { status: *status },
            Failure::NoSprint { error } => FailureView::NoSprint { error: *error },
            Failure::SprintIssues { status } => FailureView::SprintIssues { status: *status },
            Failure::Creation { status, diagnostic } => FailureView::Creation {
                status: *status,
                diagnostic: diagnostic@,
            },
            Failure::UnreadableReply { reason } => FailureView::UnreadableReply {
                reason: *reason,
            },
        }
    }
}

/// What the caller is to do next. Every request to the tracker goes out
/// with the `Authorization` header of the session's record as it is then
/// (`Config::authorization`), and with JSON as its content type.
#[derive(Debug, PartialEq, Eq)]
pub enum Action {
    /// Ask the tracker for the active sprint.
    FetchSprint { url: String },
    /// Tell the operator that the token was refused and ask for a new one.
    AskToken,
    /// Write the record to the config store, then ask the tracker for the
    /// active sprint again.
    StoreAndFetchSprint { config: Config, url: String },
    /// Ask the tracker for the sprint's issues.
    FetchSprintIssues { url: String },
    /// Ask the tracker for the board's backlog.
    FetchBacklog { url: String },
    /// Ask the operator for the summary of the new task.
    AskSummary,
    /// Ask the operator for the description of the new task.
    AskDescription,
    /// Post this document to create the issue.
    Submit { url: String, body: Json },
    /// Print the task view and end well. Where the backlog was refused,
    /// `backlog_refused` holds the status, to be warned about.
    Show { lines: Vec<String>, backlog_refused: Option<u16> },
    /// Print the report of the created issue and end well.
    Report { line: String },
    /// Print the failure and end with a non-zero exit code.
    Fail { failure: Failure },
    /// The event was not one that the session was waiting for. Nothing
    /// has changed.
    Rejected,
}

/// The model of an `Action`.
pub enum ActionView {
    FetchSprint { url: Seq<char> },
    AskToken,
    StoreAndFetchSprint { config: ConfigView, url: Seq<char> },
    FetchSprintIssues { url: Seq<char> },
    FetchBacklog { url: Seq<char> },
    AskSummary,
    AskDescription,
    Submit { url: Seq<char>, body: JsonView },
    Show { lines: Seq<Seq<char>>, backlog_refused: Option<u16> },
    Report { line: Seq<char> },
    Fail { failure: FailureView },
    Rejected,
}

impl View for Action {
    type V = ActionView;

    open spec fn view(&self) -> ActionView {
        match self {
            Action::FetchSprint { url } => ActionView::FetchSprint { url: url@ },
            Action::AskToken => ActionView::AskToken,
            Action::StoreAndFetchSprint { config, url } => ActionView::StoreAndFetchSprint {
                config: config@,
                url: url@,
            },
            Action::FetchSprintIssues { url } => ActionView::FetchSprintIssues { url: url@ },
            Action::FetchBacklog { url } => ActionView::FetchBacklog { url: url@ },
            Action::AskSummary => ActionView::AskSummary,
            Action::AskDescription => ActionView::AskDescription,
            Action::Submit { url, body } => ActionView::Submit { url: url@, body: body@ },
            Action::Show { lines, backlog_refused } => ActionView::Show {
                lines: texts(lines@),
                backlog_refused: *backlog_refused,
            },
            Action::Report { line } => ActionView::Report { line: line@ },
            Action::Fail { failure } => ActionView::Fail { failure: failure@ },
            Action::Rejected => ActionView::Rejected,
        }
    }
}

impl ActionView {
    /// The exit code that an action ends the program with, if it ends it.
    pub open spec fn exit_code(self) -> Option<u8> {
        match self {
            ActionView::Show { .. } => Some(0u8),
            ActionView::Report { .. } => Some(0u8),
            ActionView::Fail { .. } => Some(1u8),
            _ => None,
        }
    }

    /// Whether the action asks the tracker for the active sprint.
    pub open spec fn resolves(self) -> bool {
        self is FetchSprint || self is StoreAndFetchSprint
    }

    /// Whether the action writes the config store.
    pub open spec fn stores(self) -> bool {
        self is StoreAndFetchSprint
    }
}

impl Action {
    /// The exit code that this action ends the program with, if it ends
    /// it: 0 after the task view or the report was printed, 1 after a
    /// failure.
    pub fn exit_code(&self) -> (code: Option<u8>)
        ensures
            code == self@.exit_code(),
    {
        match self {
            Action::Show { .. } => Some(0u8),
            Action::Report { .. } => Some(0u8),
            Action::Fail { .. } => Some(1u8),
            _ => None,
        }
    }
}

} // verus!
