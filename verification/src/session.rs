//! The workflow as a state machine. The machine takes what happened (a
//! reply arrived, the operator answered a prompt) and says what to do
//! next; it never performs a request, a prompt or a write itself.

use crate::config::{Config, ConfigView};
use crate::create::{created_report, report_created, task_request, CreateIssueRequest};
use crate::endpoints::{
    active_sprint_address, active_sprint_url, backlog_address, backlog_url, create_issue_address,
    create_issue_url, sprint_issues_address, sprint_issues_url,
};
use crate::issue::{aggregate, issue_views, lines_of, render, task_view, Issue, IssueView};
use crate::wire::{
    created_key_in, encode_request, issues_in, read_created_key, read_issues, request_document,
    ReplyError,
};
use crate::protocol::{
    Action, ActionView, Command, CommandView, Event, EventView, Failure, FailureView,
};
use crate::sprint::{active_sprint_id, resolved_sprint, ResolveError};
use crate::status::{class_of, classify, is_success, succeeded, StatusClass};
use crate::text::{optional_text, trim, trimmed};
use vstd::prelude::*;

verus! {

/// How often a refused token may be replaced by a new one before the
/// session gives up.
#[derive(Debug, Clone, Copy, PartialEq, Eq)]
pub enum RetryPolicy {
    /// As often as the operator likes.
    Unbounded,
    /// At most this many times.
    AtMost(u64),
}

impl RetryPolicy {
    /// Whether one more token may be asked for.
    pub open spec fn allows_retry(self) -> bool {
        self != RetryPolicy::AtMost(0)
    }

    /// Whether `count` more tokens may be asked for, one after another.
    pub open spec fn allows(self, count: nat) -> bool {
        match self {
            RetryPolicy::Unbounded => true,
            RetryPolicy::AtMost(limit) => count <= limit,
        }
    }

    /// The policy after `count` tokens were asked for.
    pub open spec fn after(self, count: nat) -> RetryPolicy {
        match self {
            RetryPolicy::Unbounded => RetryPolicy::Unbounded,
            RetryPolicy::AtMost(limit) => if count <= limit {
                RetryPolicy::AtMost((limit - count) as u64)
            } else {
                RetryPolicy::AtMost(0)
            },
        }
    }

    /// Whether one more token may be asked for.
    pub fn permits_retry(&self) -> (allowed: bool)
        ensures
            allowed == self.allows_retry(),
    {
        match self {
            RetryPolicy::Unbounded => true,
            RetryPolicy::AtMost(limit) => *limit > 0,
        }
    }

    /// The policy after one token was asked for.
    pub fn spend(&self) -> (rest: RetryPolicy)
        ensures
            rest == self.after(1),
    {
        match self {
            RetryPolicy::Unbounded => RetryPolicy::Unbounded,
            RetryPolicy::AtMost(limit) => if *limit > 0 {
                RetryPolicy::AtMost(*limit - 1)
            } else {
                RetryPolicy::AtMost(0)
            },
        }
    }
}

/// The states of the session, as the retry loop sees them.
#[derive(Debug, Clone, Copy, PartialEq, Eq)]
pub enum Phase {
    /// The active sprint has been asked for.
    Resolving,
    /// The token was refused and a new one has been asked for.
    AwaitingCredential,
    /// The sprint is known and the command is being carried out.
    Dispatching,
    /// The command has run to its end, well or badly.
    Done,
    /// The session ended before the command was started.
    Aborted,
}

/// Where exactly the session stands. `Phase` groups these.
#[derive(Debug, PartialEq, Eq)]
pub enum Stage {
    Resolving,
    AwaitingCredential,
    /// Listing: the sprint's issues have been asked for.
    ListingSprint { sprint_id: u64 },
    /// Listing: the backlog has been asked for.
    ListingBacklog { sprint_id: u64, sprint_issues: Vec<Issue> },
    /// Creating: the summary has been asked for.
    AwaitingSummary { sprint_id: u64 },
    /// Creating: the description has been asked for.
    AwaitingDescription { sprint_id: u64, summary: String },
    /// Creating: the issue has been posted.
    Submitting { sprint_id: u64 },
    Done,
    Aborted,
}

/// The model of a `Stage`.
pub enum StageView {
    Resolving,
    AwaitingCredential,
    ListingSprint { sprint_id: u64 },
    ListingBacklog { sprint_id: u64, sprint_issues: Seq<IssueView> },
    AwaitingSummary { sprint_id: u64 },
    AwaitingDescription { sprint_id: u64, summary: Seq<char> },
    Submitting { sprint_id: u64 },
    Done,
    Aborted,
}

impl View for Stage {
    type V = StageView;

    open spec fn view(&self) -> StageView {
        match self {
            Stage::Resolving => StageView::Resolving,
            Stage::AwaitingCredential => StageView::AwaitingCredential,
            Stage::ListingSprint { sprint_id } => StageView::ListingSprint {
                sprint_id: *sprint_id,
            },
            Stage::ListingBacklog { sprint_id, sprint_issues } => StageView::ListingBacklog {
                sprint_id: *sprint_id,
                sprint_issues: issue_views(sprint_issues@),
            },
            Stage::AwaitingSummary { sprint_id } => StageView::AwaitingSummary {
                sprint_id: *sprint_id,
            },
            Stage::AwaitingDescription { sprint_id, summary } => StageView::AwaitingDescription {
                sprint_id: *sprint_id,
                summary: summary@,
            },
            Stage::Submitting { sprint_id } => StageView::Submitting { sprint_id: *sprint_id },
            Stage::Done => StageView::Done,
            Stage::Aborted => StageView::Aborted,
        }
    }
}

impl StageView {
    /// The state of the retry loop that a stage belongs to.
    pub open spec fn phase(self) -> Phase {
        match self {
            StageView::Resolving => Phase::Resolving,
            StageView::AwaitingCredential => Phase::AwaitingCredential,
            StageView::ListingSprint { .. } => Phase::Dispatching,
            StageView::ListingBacklog { .. } => Phase::Dispatching,
            StageView::AwaitingSummary { .. } => Phase::Dispatching,
            StageView::AwaitingDescription { .. } => Phase::Dispatching,
            StageView::Submitting { .. } => Phase::Dispatching,
            StageView::Done => Phase::Done,
            StageView::Aborted => Phase::Aborted,
        }
    }
}

impl Stage {
    /// The state of the retry loop that this stage belongs to.
    pub fn phase(&self) -> (phase: Phase)
        ensures
            phase == self@.phase(),
    {
        match self {
            Stage::Resolving => Phase::Resolving,
            Stage::AwaitingCredential => Phase::AwaitingCredential,
            Stage::ListingSprint { .. } => Phase::Dispatching,
            Stage::ListingBacklog { .. } => Phase::Dispatching,
            Stage::AwaitingSummary { .. } => Phase::Dispatching,
            Stage::AwaitingDescription { .. } => Phase::Dispatching,
            Stage::Submitting { .. } => Phase::Dispatching,
            Stage::Done => Phase::Done,
            Stage::Aborted => Phase::Aborted,
        }
    }
}


/// One run of the program: the record, the command, the stage reached,
/// and how often a refused token may still be replaced.
#[derive(Debug, PartialEq, Eq)]
pub struct Session {
    pub config: Config,
    pub command: Command,
    pub stage: Stage,
    pub policy: RetryPolicy,
}

/// The model of a `Session`.
pub struct SessionView {
    pub config: ConfigView,
    pub command: CommandView,
    pub stage: StageView,
    pub policy: RetryPolicy,
}

impl View for Session {
    type V = SessionView;

    open spec fn view(&self) -> SessionView {
        SessionView {
            config: self.config@,
            command: self.command@,
            stage: self.stage@,
            policy: self.policy,
        }
    }
}

/// The session as it starts under a retry policy, and the first thing to
/// do: ask for the active sprint.
pub open spec fn opening_with(config: ConfigView, command: CommandView, policy: RetryPolicy) -> (
    SessionView,
    ActionView,
) {
    (
        SessionView { config, command, stage: StageView::Resolving, policy },
        ActionView::FetchSprint { url: active_sprint_address(config.domain, config.board_id) },
    )
}

/// The session as it starts when nothing bounds the retries.
pub open spec fn opening(config: ConfigView, command: CommandView) -> (SessionView, ActionView) {
    opening_with(config, command, RetryPolicy::Unbounded)
}

/// The next step of creating a task: ask for what is missing, summary
/// first, and post the issue once both are there.
pub open spec fn creation_step(
    config: ConfigView,
    sprint_id: u64,
    summary: Option<Seq<char>>,
    description: Option<Seq<char>>,
) -> (StageView, ActionView) {
    match summary {
        None => (StageView::AwaitingSummary { sprint_id }, ActionView::AskSummary),
        Some(summary) => match description {
            None => (
                StageView::AwaitingDescription { sprint_id, summary },
                ActionView::AskDescription,
            ),
            Some(description) => (
                StageView::Submitting { sprint_id },
                ActionView::Submit {
                    url: create_issue_address(config.domain),
                    body: request_document(
                        task_request(config.project(), summary, description, sprint_id),
                    ),
                },
            ),
        },
    }
}

/// The first step of the command, once the sprint is known.
pub open spec fn dispatch(config: ConfigView, command: CommandView, sprint_id: u64) -> (
    StageView,
    ActionView,
) {
    match command {
        CommandView::List => (
            StageView::ListingSprint { sprint_id },
            ActionView::FetchSprintIssues { url: sprint_issues_address(config.domain, sprint_id) },
        ),
        CommandView::Create { summary, description } => creation_step(
            config,
            sprint_id,
            summary,
            description,
        ),
    }
}

/// The description that the command line gave, if it gave one.
pub open spec fn given_description(command: CommandView) -> Option<Seq<char>> {
    match command {
        CommandView::Create { description, .. } => description,
        CommandView::List => None,
    }
}

/// What reading a served reply to the sprint query leads to: the command
/// starts with the sprint found, or the session is aborted where the reply
/// names no sprint.
pub open spec fn after_lookup(
    config: ConfigView,
    command: CommandView,
    lookup: Result<u64, ResolveError>,
) -> (StageView, ActionView) {
    match lookup {
        Ok(sprint_id) => dispatch(config, command, sprint_id),
        Err(error) => (
            StageView::Aborted,
            ActionView::Fail { failure: FailureView::NoSprint { error } },
        ),
    }
}

/// What a reply to the sprint query leads to while resolving: on success
/// the reply is read; on 401 a new token is asked for, unless the policy
/// allows no further one; on any other status the session is aborted.
pub open spec fn after_sprint_reply(session: SessionView, status: u16, body: Seq<char>) -> (
    StageView,
    ActionView,
) {
    match class_of(status) {
        StatusClass::Success => after_lookup(
            session.config,
            session.command,
            resolved_sprint(body),
        ),
        StatusClass::AuthFailure => if session.policy.allows_retry() {
            (StageView::AwaitingCredential, ActionView::AskToken)
        } else {
            (
                StageView::Aborted,
                ActionView::Fail { failure: FailureView::SprintLookup { status } },
            )
        },
        StatusClass::RequestFailure => (
            StageView::Aborted,
            ActionView::Fail { failure: FailureView::SprintLookup { status } },
        ),
    }
}

/// What reading a served list of the sprint's issues leads to: the
/// backlog is asked for next, or the command ends where the list cannot be
/// read.
pub open spec fn after_sprint_issues(
    config: ConfigView,
    sprint_id: u64,
    read: Result<Seq<IssueView>, ReplyError>,
) -> (StageView, ActionView) {
    match read {
        Ok(issues) => (
            StageView::ListingBacklog { sprint_id, sprint_issues: issues },
            ActionView::FetchBacklog { url: backlog_address(config.domain, config.board_id) },
        ),
        Err(reason) => (
            StageView::Done,
            ActionView::Fail { failure: FailureView::UnreadableReply { reason } },
        ),
    }
}

/// What reading a served backlog leads to: the task view is shown, or
/// the command ends badly where the backlog cannot be read.
pub open spec fn after_backlog(
    sprint_issues: Seq<IssueView>,
    read: Result<Seq<IssueView>, ReplyError>,
) -> ActionView {
    match read {
        Ok(issues) => ActionView::Show {
            lines: lines_of(task_view(sprint_issues, Some(issues))),
            backlog_refused: None,
        },
        Err(reason) => ActionView::Fail { failure: FailureView::UnreadableReply { reason } },
    }
}

/// What a refused backlog leads to: the sprint's issues are shown alone,
/// with the status to warn about.
pub open spec fn without_backlog(sprint_issues: Seq<IssueView>, status: u16) -> ActionView {
    ActionView::Show {
        lines: lines_of(task_view(sprint_issues, None)),
        backlog_refused: Some(status),
    }
}

/// What reading a served reply to a posted issue leads to: the new key is
/// reported, or the command ends badly where the reply cannot be read.
pub open spec fn after_creation(read: Result<Seq<char>, ReplyError>) -> ActionView {
    match read {
        Ok(key) => ActionView::Report { line: created_report(key) },
        Err(reason) => ActionView::Fail { failure: FailureView::UnreadableReply { reason } },
    }
}

/// The transition function of the machine: the session after an event,
/// and what to do next. An event that the stage is not waiting for leaves
/// the session as it is.
pub open spec fn transition(session: SessionView, event: EventView) -> (SessionView, ActionView) {
    let rejected = (session, ActionView::Rejected);
    match session.stage {
        StageView::Resolving => match event {
            EventView::SprintReply { status, body } => {
                let (stage, action) = after_sprint_reply(session, status, body);
                (SessionView { stage, ..session }, action)
            },
            _ => rejected,
        },
        StageView::AwaitingCredential => match event {
            EventView::Answer { line } => {
                let config = session.config.with_token(trimmed(line));
                (
                    SessionView {
                        config,
                        stage: StageView::Resolving,
                        policy: session.policy.after(1),
                        ..session
                    },
                    ActionView::StoreAndFetchSprint {
                        config,
                        url: active_sprint_address(config.domain, config.board_id),
                    },
                )
            },
            _ => rejected,
        },
        StageView::ListingSprint { sprint_id } => match event {
            EventView::IssuesReply { status, body } => if is_success(status) {
                let (stage, action) = after_sprint_issues(
                    session.config,
                    sprint_id,
                    issues_in(body),
                );
                (SessionView { stage, ..session }, action)
            } else {
                (
                    SessionView { stage: StageView::Done, ..session },
                    ActionView::Fail { failure: FailureView::SprintIssues { status } },
                )
            },
            _ => rejected,
        },
        StageView::ListingBacklog { sprint_id, sprint_issues } => match event {
            EventView::IssuesReply { status, body } => (
                SessionView { stage: StageView::Done, ..session },
                if is_success(status) {
                    after_backlog(sprint_issues, issues_in(body))
                } else {
                    without_backlog(sprint_issues, status)
                },
            ),
            _ => rejected,
        },
        StageView::AwaitingSummary { sprint_id } => match event {
            EventView::Answer { line } => {
                let (stage, action) = creation_step(
                    session.config,
                    sprint_id,
                    Some(trimmed(line)),
                    given_description(session.command),
                );
                (SessionView { stage, ..session }, action)
            },
            _ => rejected,
        },
        StageView::AwaitingDescription { sprint_id, summary } => match event {
            EventView::Answer { line } => {
                let (stage, action) = creation_step(
                    session.config,
                    sprint_id,
                    Some(summary),
                    Some(trimmed(line)),
                );
                (SessionView { stage, ..session }, action)
            },
            _ => rejected,
        },
        StageView::Submitting { sprint_id } => match event {
            EventView::CreateReply { status, body } => (
                SessionView { stage: StageView::Done, ..session },
                if is_success(status) {
                    after_creation(created_key_in(body))
                } else {
                    ActionView::Fail {
                        failure: FailureView::Creation { status, diagnostic: body },
                    }
                },
            ),
            _ => rejected,
        },
        StageView::Done => rejected,
        StageView::Aborted => rejected,
    }
}

fn copy_text(text: &Option<String>) -> (copy: Option<String>)
    ensures
        optional_text(copy) == optional_text(*text),
{
    match text {
        Some(text) => Some(text.clone()),
        None => None,
    }
}

/// Takes the next step of creating a task: asks for the summary if there
/// is none, then for the description if there is none, and posts the issue
/// once both are there.
pub fn continue_creation(
    config: &Config,
    sprint_id: u64,
    summary: Option<String>,
    description: Option<String>,
) -> (next: (Stage, Action))
    ensures
        (next.0@, next.1@) == creation_step(
            config@,
            sprint_id,
            optional_text(summary),
            optional_text(description),
        ),
{
    match summary {
        None => (Stage::AwaitingSummary { sprint_id }, Action::AskSummary),
        Some(summary) => match description {
            None => (Stage::AwaitingDescription { sprint_id, summary }, Action::AskDescription),
            Some(description) => (
                Stage::Submitting { sprint_id },
                Action::Submit {
                    url: create_issue_url(config.domain.as_str()),
                    body: encode_request(
                        CreateIssueRequest::new(config.project(), summary, description, sprint_id),
                    ),
                },
            ),
        },
    }
}

/// Starts the command in the sprint that was found.
pub fn start_command(config: &Config, command: &Command, sprint_id: u64) -> (next: (Stage, Action))
    ensures
        (next.0@, next.1@) == dispatch(config@, command@, sprint_id),
{
    match command {
        Command::List => (
            Stage::ListingSprint { sprint_id },
            Action::FetchSprintIssues { url: sprint_issues_url(config.domain.as_str(), sprint_id) },
        ),
        Command::Create { summary, description } => continue_creation(
            config,
            sprint_id,
            copy_text(summary),
            copy_text(description),
        ),
    }
}

/// Acts on what a served reply to the sprint query was read as.
pub fn sprint_looked_up(
    config: &Config,
    command: &Command,
    lookup: Result<u64, ResolveError>,
) -> (next: (Stage, Action))
    ensures
        (next.0@, next.1@) == after_lookup(config@, command@, lookup),
{
    match lookup {
        Ok(sprint_id) => start_command(config, command, sprint_id),
        Err(error) => (Stage::Aborted, Action::Fail { failure: Failure::NoSprint { error } }),
    }
}

/// The model of what reading a list of issues gave.
pub open spec fn issues_read(read: Result<Vec<Issue>, ReplyError>) -> Result<
    Seq<IssueView>,
    ReplyError,
> {
    match read {
        Ok(issues) => Ok(issue_views(issues@)),
        Err(error) => Err(error),
    }
}

/// The model of what reading a created key gave.
pub open spec fn key_read(read: Result<String, ReplyError>) -> Result<Seq<char>, ReplyError> {
    match read {
        Ok(key) => Ok(key@),
        Err(error) => Err(error),
    }
}

/// Acts on what a served list of the sprint's issues was read as.
pub fn sprint_issues_listed(
    config: &Config,
    sprint_id: u64,
    read: Result<Vec<Issue>, ReplyError>,
) -> (next: (Stage, Action))
    ensures
        (next.0@, next.1@) == after_sprint_issues(config@, sprint_id, issues_read(read)),
{
    match read {
        Ok(issues) => (
            Stage::ListingBacklog { sprint_id, sprint_issues: issues },
            Action::FetchBacklog {
                url: backlog_url(config.domain.as_str(), config.board_id.as_str()),
            },
        ),
        Err(reason) => (Stage::Done, Action::Fail { failure: Failure::UnreadableReply { reason } }),
    }
}

/// Acts on what a served backlog was read as: builds the task view from
/// the sprint's issues and the backlog and renders it.
pub fn backlog_listed(
    sprint_issues: Vec<Issue>,
    read: Result<Vec<Issue>, ReplyError>,
) -> (action: Action)
    ensures
        action@ == after_backlog(issue_views(sprint_issues@), issues_read(read)),
{
    match read {
        Ok(issues) => {
            let tasks = aggregate(sprint_issues, Some(issues));
            Action::Show { lines: render(&tasks), backlog_refused: None }
        },
        Err(reason) => Action::Fail { failure: Failure::UnreadableReply { reason } },
    }
}

/// Acts on a refused backlog: renders the sprint's issues alone.
pub fn backlog_refused(sprint_issues: Vec<Issue>, status: u16) -> (action: Action)
    ensures
        action@ == without_backlog(issue_views(sprint_issues@), status),
{
    let tasks = aggregate(sprint_issues, None);
    Action::Show { lines: render(&tasks), backlog_refused: Some(status) }
}

/// Acts on what a served reply to a posted issue was read as.
pub fn issue_created(read: Result<String, ReplyError>) -> (action: Action)
    ensures
        action@ == after_creation(key_read(read)),
{
    match read {
        Ok(key) => Action::Report { line: report_created(key.as_str()) },
        Err(reason) => Action::Fail { failure: Failure::UnreadableReply { reason } },
    }
}

impl Session {
    /// Starts a session in which a refused token may be replaced as often
    /// as the operator likes. The first thing to do is to ask for the
    /// active sprint of the board.
    pub fn begin(config: Config, command: Command) -> (start: (Session, Action))
        ensures
            (start.0@, start.1@) == opening(config@, command@),
    {
        Session::begin_with(config, command, RetryPolicy::Unbounded)
    }

    /// Starts a session under a retry policy.
    pub fn begin_with(config: Config, command: Command, policy: RetryPolicy) -> (start: (
        Session,
        Action,
    ))
        ensures
            (start.0@, start.1@) == opening_with(config@, command@, policy),
    {
        let url = active_sprint_url(config.domain.as_str(), config.board_id.as_str());
        (Session { config, command, stage: Stage::Resolving, policy }, Action::FetchSprint { url })
    }

    /// The state of the retry loop that the session is in.
    pub fn phase(&self) -> (phase: Phase)
        ensures
            phase == self@.stage.phase(),
    {
        self.stage.phase()
    }

    /// Takes an event and says what to do next.
    pub fn step(self, event: Event) -> (next: (Session, Action))
        ensures
            (next.0@, next.1@) == transition(self@, event@),
    {
        let Session { config, command, stage, policy } = self;
        match (stage, event) {
            (Stage::Resolving, Event::SprintReply { status, body }) => {
                let (stage, action) = match classify(status) {
                    StatusClass::Success => sprint_looked_up(
                        &config,
                        &command,
                        active_sprint_id(body.as_str()),
                    ),
                    StatusClass::AuthFailure => if policy.permits_retry() {
                        (Stage::AwaitingCredential, Action::AskToken)
                    } else {
                        (
                            Stage::Aborted,
                            Action::Fail { failure: Failure::SprintLookup { status } },
                        )
                    },
                    StatusClass::RequestFailure => (
                        Stage::Aborted,
                        Action::Fail { failure: Failure::SprintLookup { status } },
                    ),
                };
                (Session { config, command, stage, policy }, action)
            },
            (Stage::AwaitingCredential, Event::Answer { line }) => {
                let mut config = config;
                config.rotate_token(trim(line.as_str()));
                let url = active_sprint_url(config.domain.as_str(), config.board_id.as_str());
                let stored = config.snapshot();
                (
                    Session { config, command, stage: Stage::Resolving, policy: policy.spend() },
                    Action::StoreAndFetchSprint { config: stored, url },
                )
            },
            (Stage::ListingSprint { sprint_id }, Event::IssuesReply { status, body }) => {
                let (stage, action) = if succeeded(status) {
                    sprint_issues_listed(&config, sprint_id, read_issues(body.as_str()))
                } else {
                    (Stage::Done, Action::Fail { failure: Failure::SprintIssues { status } })
                };
                (Session { config, command, stage, policy }, action)
            },
            (
                Stage::ListingBacklog { sprint_id, sprint_issues },
                Event::IssuesReply { status, body },
            ) => {
                let action = if succeeded(status) {
                    backlog_listed(sprint_issues, read_issues(body.as_str()))
                } else {
                    backlog_refused(sprint_issues, status)
                };
                (Session { config, command, stage: Stage::Done, policy }, action)
            },
            (Stage::AwaitingSummary { sprint_id }, Event::Answer { line }) => {
                let description = match &command {
                    Command::Create { description, .. } => copy_text(description),
                    Command::List => None,
                };
                let (stage, action) = continue_creation(
                    &config,
                    sprint_id,
                    Some(trim(line.as_str())),
                    description,
                );
                (Session { config, command, stage, policy }, action)
            },
            (Stage::AwaitingDescription { sprint_id, summary }, Event::Answer { line }) => {
                let (stage, action) = continue_creation(
                    &config,
                    sprint_id,
                    Some(summary),
                    Some(trim(line.as_str())),
                );
                (Session { config, command, stage, policy }, action)
            },
            (Stage::Submitting { sprint_id }, Event::CreateReply { status, body }) => {
                let action = if succeeded(status) {
                    issue_created(read_created_key(body.as_str()))
                } else {
                    Action::Fail { failure: Failure::Creation { status, diagnostic: body } }
                };
                (Session { config, command, stage: Stage::Done, policy }, action)
            },
            (stage, _) => (Session { config, command, stage, policy }, Action::Rejected),
        }
    }
}

/// The transitions of the retry loop, and what a step can never change.
/// From `Resolving` the session goes to `Dispatching`, to
/// `AwaitingCredential` or to `Aborted`; from `AwaitingCredential` back to
/// `Resolving`; from `Dispatching` on within `Dispatching` or to `Done`.
/// `Done` and `Aborted` are final. A rejected event changes nothing. The
/// command never changes, and of the record only the token does, and only
/// on the way from `AwaitingCredential` to `Resolving`, which is also the
/// only step that uses up a retry.
pub proof fn lemma_phase_transitions(session: SessionView, event: EventView)
    ensures
        ({
            let (next, action) = transition(session, event);
            let from = session.stage.phase();
            let to = next.stage.phase();
            &&& action is Rejected ==> next == session
            &&& next.command == session.command
            &&& next.config == session.config || (from == Phase::AwaitingCredential && to
                == Phase::Resolving && next.config == session.config.with_token(
                next.config.api_token,
            ))
            &&& next.policy == session.policy || (from == Phase::AwaitingCredential && to
                == Phase::Resolving && next.policy == session.policy.after(1))
            &&& from == Phase::Resolving && to == Phase::AwaitingCredential
                ==> session.policy.allows_retry()
            &&& from == Phase::Resolving && !(action is Rejected) ==> to == Phase::Dispatching || to
                == Phase::AwaitingCredential || to == Phase::Aborted
            &&& from == Phase::AwaitingCredential && !(action is Rejected) ==> to
                == Phase::Resolving
            &&& from == Phase::Dispatching ==> to == Phase::Dispatching || to == Phase::Done
            &&& from == Phase::Done || from == Phase::Aborted ==> action is Rejected
            &&& to == Phase::Done || to == Phase::Aborted <==> action.exit_code() is Some || from
                == Phase::Done || from == Phase::Aborted
        }),
{
}

} // verus!
