//! The addresses of the tracker's endpoints that the workflow calls.

use crate::text::{decimal, decimal_text};
use vstd::prelude::*;
use vstd::string::*;

verus! {

/// The largest number of issues asked for in one page. No second page is
/// ever fetched.
pub const MAX_RESULTS: u64 = 1000;

/// `https://{domain}`, the root of every address.
pub open spec fn root(domain: Seq<char>) -> Seq<char> {
    "https://"@ + domain
}

/// Where the active sprint of a board is asked for.
pub open spec fn active_sprint_address(domain: Seq<char>, board_id: Seq<char>) -> Seq<char> {
    root(domain) + "/rest/agile/1.0/board/"@ + board_id + "/sprint?state=active"@
}

/// Where the issues of a sprint are listed.
pub open spec fn sprint_issues_address(domain: Seq<char>, sprint_id: u64) -> Seq<char> {
    root(domain) + "/rest/agile/1.0/sprint/"@ + decimal(sprint_id as nat) + "/issue?maxResults="@
        + decimal(MAX_RESULTS as nat)
}

/// Where the backlog of a board is listed.
pub open spec fn backlog_address(domain: Seq<char>, board_id: Seq<char>) -> Seq<char> {
    root(domain) + "/rest/agile/1.0/board/"@ + board_id + "/backlog?maxResults="@ + decimal(
        MAX_RESULTS as nat,
    )
}

/// Where a new issue is posted.
pub open spec fn create_issue_address(domain: Seq<char>) -> Seq<char> {
    root(domain) + "/rest/api/2/issue"@
}

fn root_of(domain: &str) -> (url: String)
    ensures
        url@ == root(domain@),
{
    let mut url = String::from_str("https://");
    url.append(domain);
    url
}

/// The address for asking for the active sprint of a board.
pub fn active_sprint_url(domain: &str, board_id: &str) -> (url: String)
    ensures
        url@ == active_sprint_address(domain@, board_id@),
{
    let mut url = root_of(domain);
    url.append("/rest/agile/1.0/board/");
    url.append(board_id);
    url.append("/sprint?state=active");
    url
}

/// The address for listing the issues of a sprint.
pub fn sprint_issues_url(domain: &str, sprint_id: u64) -> (url: String)
    ensures
        url@ == sprint_issues_address(domain@, sprint_id),
{
    let mut url = root_of(domain);
    url.append("/rest/agile/1.0/sprint/");
    url.append(decimal_text(sprint_id).as_str());
    url.append("/issue?maxResults=");
    url.append(decimal_text(MAX_RESULTS).as_str());
    url
}

/// The address for listing the backlog of a board.
pub fn backlog_url(domain: &str, board_id: &str) -> (url: String)
    ensures
        url@ == backlog_address(domain@, board_id@),
{
    let mut url = root_of(domain);
    url.append("/rest/agile/1.0/board/");
    url.append(board_id);
    url.append("/backlog?maxResults=");
    url.append(decimal_text(MAX_RESULTS).as_str());
    url
}

/// The address for posting a new issue.
pub fn create_issue_url(domain: &str) -> (url: String)
    ensures
        url@ == create_issue_address(domain@),
{
    let mut url = root_of(domain);
    url.append("/rest/api/2/issue");
    url
}

} // verus!
