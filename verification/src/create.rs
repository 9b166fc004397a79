//! What is sent to create an issue, and how the reply is reported.

use vstd::prelude::*;
use vstd::string::*;

verus! {

/// The fields of an issue to be created in a sprint.
#[derive(Debug, Clone, PartialEq, Eq)]
pub struct CreateIssueRequest {
    pub project_key: String,
    pub summary: String,
    pub description: String,
    pub issue_type: String,
    pub sprint_id: u64,
}

/// The model of a `CreateIssueRequest`.
pub struct CreateIssueRequestView {
    pub project_key: Seq<char>,
    pub summary: Seq<char>,
    pub description: Seq<char>,
    pub issue_type: Seq<char>,
    pub sprint_id: u64,
}

impl View for CreateIssueRequest {
    type V = CreateIssueRequestView;

    open spec fn view(&self) -> CreateIssueRequestView {
        CreateIssueRequestView {
            project_key: self.project_key@,
            summary: self.summary@,
            description: self.description@,
            issue_type: self.issue_type@,
            sprint_id: self.sprint_id,
        }
    }
}

/// The request for a new task: the issue type is always `Task`.
pub open spec fn task_request(
    project_key: Seq<char>,
    summary: Seq<char>,
    description: Seq<char>,
    sprint_id: u64,
) -> CreateIssueRequestView {
    CreateIssueRequestView {
        project_key,
        summary,
        description,
        issue_type: "Task"@,
        sprint_id,
    }
}

/// What is printed when the tracker has created the issue `key`.
pub open spec fn created_report(key: Seq<char>) -> Seq<char> {
    "Successfully created task: "@ + key
}

impl CreateIssueRequest {
    /// Builds the request for a new task in the given sprint.
    pub fn new(
        project_key: String,
        summary: String,
        description: String,
        sprint_id: u64,
    ) -> (request: CreateIssueRequest)
        ensures
            request@ == task_request(project_key@, summary@, description@, sprint_id),
    {
        CreateIssueRequest {
            project_key,
            summary,
            description,
            issue_type: String::from_str("Task"),
            sprint_id,
        }
    }
}

/// The line that reports a created issue.
pub fn report_created(key: &str) -> (line: String)
    ensures
        line@ == created_report(key@),
{
    let mut line = String::from_str("Successfully created task: ");
    line.append(key);
    line
}

} // verus!
