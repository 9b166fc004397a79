//! Issues as the tracker reports them, and the task view built from them:
//! the sprint's issues followed by the backlog issues that are still open.

use crate::text::{contains_ignoring_case, fold_ascii, mentions, occurs_at};
use vstd::prelude::*;
use vstd::string::*;

verus! {

/// How an issue names its parent: by the parent's summary or by its key.
#[derive(Debug, Clone, PartialEq, Eq)]
pub enum Parent {
    Summary(String),
    Key(String),
}

/// The model of a `Parent`.
pub enum ParentView {
    Summary(Seq<char>),
    Key(Seq<char>),
}

impl ParentView {
    /// The text that stands for the parent in front of a child's line.
    pub open spec fn label(self) -> Seq<char> {
        match self {
            ParentView::Summary(text) => text,
            ParentView::Key(text) => text,
        }
    }
}

impl View for Parent {
    type V = ParentView;

    open spec fn view(&self) -> ParentView {
        match self {
            Parent::Summary(text) => ParentView::Summary(text@),
            Parent::Key(text) => ParentView::Key(text@),
        }
    }
}

impl Parent {
    /// The text that stands for the parent in front of a child's line.
    pub fn label(&self) -> (text: &str)
        ensures
            text@ == self@.label(),
    {
        match self {
            Parent::Summary(text) => text.as_str(),
            Parent::Key(text) => text.as_str(),
        }
    }
}

/// One issue of the tracker. The key is assigned by the server and is the
/// issue's only identity.
#[derive(Debug, Clone, PartialEq, Eq)]
pub struct Issue {
    pub key: String,
    pub summary: String,
    pub parent: Option<Parent>,
}

/// The model of an `Issue`.
pub struct IssueView {
    pub key: Seq<char>,
    pub summary: Seq<char>,
    pub parent: Option<ParentView>,
}

impl View for Issue {
    type V = IssueView;

    open spec fn view(&self) -> IssueView {
        IssueView {
            key: self.key@,
            summary: self.summary@,
            parent: match self.parent {
                Some(parent) => Some(parent@),
                None => None,
            },
        }
    }
}

/// The views of a sequence of issues, in the same order.
pub open spec fn issue_views(issues: Seq<Issue>) -> Seq<IssueView> {
    issues.map_values(|issue: Issue| issue@)
}

/// The views of a sequence of strings, in the same order.
pub open spec fn texts(lines: Seq<String>) -> Seq<Seq<char>> {
    lines.map_values(|line: String| line@)
}

/// A summary is taken to say that its issue is finished when it holds
/// `[done]` or `[closed]`, in any mix of capitals and small letters. This
/// reads free text: it is a rule of thumb, not the issue's status. Only
/// ASCII letters are folded; as no character outside ASCII lowercases
/// into a letter of the two markers, this finds what a search in the
/// lowercased summary finds.
pub open spec fn marked_closed(summary: Seq<char>) -> bool {
    mentions(summary, "[done]"@) || mentions(summary, "[closed]"@)
}

/// A backlog issue that the task view keeps.
pub open spec fn is_open(issue: IssueView) -> bool {
    !marked_closed(issue.summary)
}

/// The backlog issues that the task view keeps, in backlog order.
pub open spec fn open_issues(backlog: Seq<IssueView>) -> Seq<IssueView> {
    backlog.filter(|issue: IssueView| is_open(issue))
}

/// The task view: every sprint issue in the order the server gave, then
/// the open backlog issues in the order the server gave. A backlog that
/// could not be fetched contributes nothing. An issue that is in both
/// lists appears twice.
pub open spec fn task_view(sprint: Seq<IssueView>, backlog: Option<Seq<IssueView>>) -> Seq<
    IssueView,
> {
    match backlog {
        Some(issues) => sprint + open_issues(issues),
        None => sprint,
    }
}

/// What stands in front of an issue's own key: its parent's label and a
/// colon, or nothing.
pub open spec fn parent_prefix(issue: IssueView) -> Seq<char> {
    match issue.parent {
        Some(parent) => parent.label() + ": "@,
        None => Seq::empty(),
    }
}

/// The line that shows an issue: parent prefix, key, a tab, summary.
pub open spec fn line_of(issue: IssueView) -> Seq<char> {
    parent_prefix(issue) + issue.key + "\t"@ + issue.summary
}

/// The lines that show a list of issues, one each, in order.
pub open spec fn lines_of(issues: Seq<IssueView>) -> Seq<Seq<char>> {
    issues.map_values(|issue: IssueView| line_of(issue))
}

/// Whether a summary marks its issue as finished.
pub fn is_marked_closed(summary: &str) -> (closed: bool)
    ensures
        closed == marked_closed(summary@),
{
    contains_ignoring_case(summary, "[done]") || contains_ignoring_case(summary, "[closed]")
}

proof fn lemma_open_issues_push(backlog: Seq<IssueView>, issue: IssueView)
    ensures
        open_issues(backlog.push(issue)) == if is_open(issue) {
            open_issues(backlog).push(issue)
        } else {
            open_issues(backlog)
        },
{
    reveal(Seq::filter);
    assert(backlog.push(issue).drop_last() == backlog);
}

/// Drops the backlog issues whose summary marks them as finished and keeps
/// the others in their order.
pub fn open_backlog(backlog: Vec<Issue>) -> (kept: Vec<Issue>)
    ensures
        issue_views(kept@) == open_issues(issue_views(backlog@)),
{
    let mut kept: Vec<Issue> = Vec::new();
    for issue in it: backlog
        invariant
            it.seq() == backlog@,
            issue_views(kept@) == open_issues(issue_views(it.seq().take(it.index()))),
    {
        proof {
            let seen = it.seq().take(it.index());
            assert(it.seq().take(it.index() + 1) == seen.push(issue));
            assert(issue_views(seen.push(issue)) == issue_views(seen).push(issue@));
            lemma_open_issues_push(issue_views(seen), issue@);
        }
        if !is_marked_closed(issue.summary.as_str()) {
            kept.push(issue);
        }
    }
    proof {
        assert(backlog@.take(backlog@.len() as int) == backlog@);
    }
    kept
}

/// Builds the task view from the sprint's issues and, where the backlog
/// could be fetched, the backlog's.
pub fn aggregate(sprint: Vec<Issue>, backlog: Option<Vec<Issue>>) -> (tasks: Vec<Issue>)
    ensures
        issue_views(tasks@) == task_view(
            issue_views(sprint@),
            match backlog {
                Some(issues) => Some(issue_views(issues@)),
                None => None,
            },
        ),
{
    let mut tasks = sprint;
    match backlog {
        Some(issues) => {
            let mut kept = open_backlog(issues);
            tasks.append(&mut kept);
        },
        None => {},
    }
    tasks
}

/// Renders one issue as the line that shows it.
pub fn render_issue(issue: &Issue) -> (line: String)
    ensures
        line@ == line_of(issue@),
{
    let mut line = String::new();
    match &issue.parent {
        Some(parent) => {
            line.append(parent.label());
            line.append(": ");
        },
        None => {},
    }
    line.append(issue.key.as_str());
    line.append("\t");
    line.append(issue.summary.as_str());
    line
}

/// Renders a list of issues, one line each, in order.
pub fn render(issues: &Vec<Issue>) -> (lines: Vec<String>)
    ensures
        texts(lines@) == lines_of(issue_views(issues@)),
{
    let mut lines: Vec<String> = Vec::new();
    let count: usize = issues.len();
    let mut i: usize = 0;
    while i < count
        invariant
            count == issues@.len(),
            i <= count,
            texts(lines@) == lines_of(issue_views(issues@.take(i as int))),
        decreases count - i,
    {
        let line = render_issue(&issues[i]);
        proof {
            let seen = issues@.take(i as int);
            assert(issue_views(seen.push(issues@[i as int])) == issue_views(seen).push(
                issues@[i as int]@,
            ));
            assert(lines_of(issue_views(seen).push(issues@[i as int]@)) == lines_of(
                issue_views(seen),
            ).push(line_of(issues@[i as int]@)));
            assert(texts(lines@.push(line)) == texts(lines@).push(line@));
        }
        lines.push(line);
        i = i + 1;
    }
    lines
}

/// `word` is `marker` written in some mix of capitals and small letters.
pub open spec fn spells(word: Seq<char>, marker: Seq<char>) -> bool {
    &&& word.len() == marker.len()
    &&& forall|j: int|
        0 <= j < word.len() ==> fold_ascii(#[trigger] word[j]) == fold_ascii(marker[j])
}

/// The positions in `backlog` of the issues that `open_issues` keeps, in
/// rising order.
pub open spec fn open_positions(backlog: Seq<IssueView>) -> Seq<int>
    decreases backlog.len(),
{
    if backlog.len() == 0 {
        Seq::empty()
    } else if is_open(backlog.last()) {
        open_positions(backlog.drop_last()).push(backlog.len() - 1)
    } else {
        open_positions(backlog.drop_last())
    }
}

/// Every issue that the filter keeps is open.
pub proof fn lemma_kept_issues_are_open(backlog: Seq<IssueView>)
    ensures
        forall|j: int|
            0 <= j < open_issues(backlog).len() ==> is_open(#[trigger] open_issues(backlog)[j]),
    decreases backlog.len(),
{
    reveal(Seq::filter);
    if backlog.len() > 0 {
        lemma_kept_issues_are_open(backlog.drop_last());
    }
}

/// Filtering the backlog twice gives what filtering it once gives.
pub proof fn lemma_filter_is_idempotent(backlog: Seq<IssueView>)
    ensures
        open_issues(open_issues(backlog)) == open_issues(backlog),
    decreases backlog.len(),
{
    reveal(Seq::filter);
    if backlog.len() > 0 {
        let head = backlog.drop_last();
        lemma_filter_is_idempotent(head);
        if is_open(backlog.last()) {
            lemma_open_issues_push(open_issues(head), backlog.last());
        }
    }
}

/// A summary that holds `[done]` or `[closed]`, however the letters are
/// cased and whatever stands around the word, is marked closed, and no
/// issue with that summary is left after filtering.
pub proof fn lemma_marked_summary_is_excluded(
    backlog: Seq<IssueView>,
    before: Seq<char>,
    word: Seq<char>,
    after: Seq<char>,
)
    requires
        spells(word, "[done]"@) || spells(word, "[closed]"@),
    ensures
        marked_closed(before + word + after),
        forall|j: int|
            0 <= j < open_issues(backlog).len() ==> (#[trigger] open_issues(backlog)[j]).summary
                != before + word + after,
{
    let summary = before + word + after;
    let at = before.len() as int;
    assert forall|j: int| 0 <= j < word.len() implies #[trigger] summary[at + j] == word[j] by {}
    if spells(word, "[done]"@) {
        assert(occurs_at(summary, "[done]"@, at));
    } else {
        assert(occurs_at(summary, "[closed]"@, at));
    }
    lemma_kept_issues_are_open(backlog);
}

/// The filter keeps issues in backlog order: what it keeps are the issues
/// at `open_positions`, which rise strictly and stay inside the backlog.
pub proof fn lemma_filter_keeps_order(backlog: Seq<IssueView>)
    ensures
        open_positions(backlog).len() == open_issues(backlog).len(),
        forall|j: int|
            0 <= j < open_positions(backlog).len() ==> 0 <= #[trigger] open_positions(backlog)[j]
                < backlog.len(),
        forall|i: int, j: int|
            0 <= i < j < open_positions(backlog).len() ==> open_positions(backlog)[i]
                < open_positions(backlog)[j],
        forall|j: int|
            0 <= j < open_issues(backlog).len() ==> #[trigger] open_issues(backlog)[j]
                == backlog[open_positions(backlog)[j]],
    decreases backlog.len(),
{
    reveal(Seq::filter);
    if backlog.len() > 0 {
        lemma_filter_keeps_order(backlog.drop_last());
    }
}

/// The task view's order: the sprint issues come first, exactly as given;
/// the open backlog issues follow, exactly as the filter left them.
pub proof fn lemma_sprint_issues_come_first(sprint: Seq<IssueView>, backlog: Seq<IssueView>)
    ensures
        task_view(sprint, Some(backlog)).len() == sprint.len() + open_issues(backlog).len(),
        forall|i: int| 0 <= i < sprint.len() ==> task_view(sprint, Some(backlog))[i] == sprint[i],
        forall|j: int|
            0 <= j < open_issues(backlog).len() ==> task_view(sprint, Some(backlog))[sprint.len()
                + j] == open_issues(backlog)[j],
        task_view(sprint, None) == sprint,
{
}

} // verus!
