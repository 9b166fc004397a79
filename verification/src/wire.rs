//! The JSON shapes that the tracker and this client exchange: lists of
//! issues, the reply to a created issue, and the request that creates one.

use crate::create::{task_request, CreateIssueRequest, CreateIssueRequestView};
use crate::issue::{issue_views, Issue, IssueView, Parent, ParentView};
use crate::json::{
    find_member, json_document, lemma_array_view, lemma_object_view, parse_document, Json,
    JsonView, Member, MemberView,
};
use crate::text::optional_text;
use vstd::prelude::*;
use vstd::string::*;

verus! {

/// Why the body of a served reply could not be used.
#[derive(Debug, Clone, Copy, PartialEq, Eq)]
pub enum ReplyError {
    /// The body is not a JSON document.
    NotJson,
    /// The document lacks a member that has to be there, or holds a value
    /// of another kind in its place.
    UnexpectedShape,
}

/// The text of the member called `name`, where there is such a member and
/// it is a string.
pub open spec fn text_member(doc: JsonView, name: Seq<char>) -> Option<Seq<char>> {
    match doc.member(name) {
        Some(value) => value.as_text(),
        None => None,
    }
}

/// The parent that an issue's `fields` name: none where `parent` is
/// missing or null, else the parent's `fields.summary`. The outer `None`
/// stands for a parent of another shape.
pub open spec fn parent_of(fields: JsonView) -> Option<Option<ParentView>> {
    match fields.member("parent"@) {
        None => Some(None),
        Some(JsonView::Null) => Some(None),
        Some(parent) => match parent.member("fields"@) {
            None => None,
            Some(parent_fields) => match text_member(parent_fields, "summary"@) {
                None => None,
                Some(summary) => Some(Some(ParentView::Summary(summary))),
            },
        },
    }
}

/// The issue that one element of a list stands for: `key`,
/// `fields.summary`, and the parent that `fields` name. Members beyond
/// these are passed over.
pub open spec fn issue_of(item: JsonView) -> Option<IssueView> {
    match text_member(item, "key"@) {
        None => None,
        Some(key) => match item.member("fields"@) {
            None => None,
            Some(fields) => match text_member(fields, "summary"@) {
                None => None,
                Some(summary) => match parent_of(fields) {
                    None => None,
                    Some(parent) => Some(IssueView { key, summary, parent }),
                },
            },
        },
    }
}

/// The issues that the elements of a list stand for, in order. One
/// element of another shape spoils the list.
pub open spec fn issues_of(items: Seq<JsonView>) -> Option<Seq<IssueView>>
    decreases items.len(),
{
    if items.len() == 0 {
        Some(Seq::empty())
    } else {
        match issues_of(items.drop_last()) {
            None => None,
            Some(head) => match issue_of(items.last()) {
                None => None,
                Some(last) => Some(head.push(last)),
            },
        }
    }
}

/// The issues that a reply document lists under `issues`.
pub open spec fn listed_issues(doc: JsonView) -> Option<Seq<IssueView>> {
    match doc.member("issues"@) {
        Some(JsonView::Array(items)) => issues_of(items),
        _ => None,
    }
}

/// The key of the issue that a reply document reports as created: the
/// text of its member `key`. Nothing else is asked of the document.
pub open spec fn created_key(doc: JsonView) -> Option<Seq<char>> {
    text_member(doc, "key"@)
}

/// What reading the body of a reply as a list of issues gives.
pub open spec fn issues_in(body: Seq<char>) -> Result<Seq<IssueView>, ReplyError> {
    match json_document(body) {
        None => Err(ReplyError::NotJson),
        Some(doc) => match listed_issues(doc) {
            None => Err(ReplyError::UnexpectedShape),
            Some(issues) => Ok(issues),
        },
    }
}

/// What reading the body of a reply to a created issue gives.
pub open spec fn created_key_in(body: Seq<char>) -> Result<Seq<char>, ReplyError> {
    match json_document(body) {
        None => Err(ReplyError::NotJson),
        Some(doc) => match created_key(doc) {
            None => Err(ReplyError::UnexpectedShape),
            Some(key) => Ok(key),
        },
    }
}

/// A member of an object in the model.
pub open spec fn member(name: Seq<char>, value: JsonView) -> MemberView {
    MemberView { name, value }
}

/// The document that asks the tracker to create an issue: under `fields`
/// the project's key, the summary, the description, the name of the issue
/// type, and the sprint under the name of the tracker's sprint field.
pub open spec fn request_document(request: CreateIssueRequestView) -> JsonView {
    JsonView::Object(
        seq![
            member(
                "fields"@,
                JsonView::Object(
                    seq![
                        member(
                            "project"@,
                            JsonView::Object(
                                seq![member("key"@, JsonView::Text(request.project_key))],
                            ),
                        ),
                        member("summary"@, JsonView::Text(request.summary)),
                        member("description"@, JsonView::Text(request.description)),
                        member(
                            "issuetype"@,
                            JsonView::Object(
                                seq![member("name"@, JsonView::Text(request.issue_type))],
                            ),
                        ),
                        member("customfield_10020"@, JsonView::Unsigned(request.sprint_id)),
                    ],
                ),
            ),
        ],
    )
}

/// How a decoded issue relates to the model.
pub open spec fn issue_is(found: Option<Issue>, expected: Option<IssueView>) -> bool {
    match found {
        Some(issue) => expected == Some(issue@),
        None => expected is None,
    }
}

/// How a decoded list of issues relates to the model.
pub open spec fn issues_are(found: Option<Vec<Issue>>, expected: Option<Seq<IssueView>>) -> bool {
    match found {
        Some(issues) => expected == Some(issue_views(issues@)),
        None => expected is None,
    }
}

fn copy_text_member(doc: &Json, name: &str) -> (found: Option<String>)
    ensures
        optional_text(found) == text_member(doc@, name@),
{
    match doc.member(name) {
        Some(value) => match value.as_text() {
            Some(text) => Some(text.clone()),
            None => None,
        },
        None => None,
    }
}

fn decode_parent(fields: &Json) -> (found: Option<Option<Parent>>)
    ensures
        match found {
            Some(Some(parent)) => parent_of(fields@) == Some(Some(parent@)),
            Some(None) => parent_of(fields@) == Some(None::<ParentView>),
            None => parent_of(fields@) is None,
        },
{
    let parent = match fields.member("parent") {
        Some(parent) => parent,
        None => return Some(None),
    };
    if parent.is_null() {
        return Some(None);
    }
    let parent_fields = match parent.member("fields") {
        Some(parent_fields) => parent_fields,
        None => return None,
    };
    match copy_text_member(parent_fields, "summary") {
        Some(summary) => Some(Some(Parent::Summary(summary))),
        None => None,
    }
}

/// Decodes one issue of a list.
pub fn decode_issue(item: &Json) -> (found: Option<Issue>)
    ensures
        issue_is(found, issue_of(item@)),
{
    let key = match copy_text_member(item, "key") {
        Some(key) => key,
        None => return None,
    };
    let fields = match item.member("fields") {
        Some(fields) => fields,
        None => return None,
    };
    let summary = match copy_text_member(fields, "summary") {
        Some(summary) => summary,
        None => return None,
    };
    match decode_parent(fields) {
        Some(parent) => Some(Issue { key, summary, parent }),
        None => None,
    }
}

/// Decodes the issues that a reply document lists.
pub fn decode_issues(doc: &Json) -> (found: Option<Vec<Issue>>)
    ensures
        issues_are(found, listed_issues(doc@)),
{
    let items = match doc.member("issues") {
        Some(Json::Array(items)) => items,
        _ => return None,
    };
    proof {
        lemma_array_view(*items);
    }
    let ghost views = Json::Array(*items)@->Array_0;
    let count: usize = items.len();
    let mut issues: Vec<Issue> = Vec::new();
    let mut i: usize = 0;
    while i < count
        invariant
            count == items@.len(),
            i <= count,
            views.len() == count,
            forall|k: int| 0 <= k < count ==> #[trigger] views[k] == items@[k]@,
            listed_issues(doc@) == issues_of(views),
            issues_of(views.take(i as int)) == Some(issue_views(issues@)),
        decreases count - i,
    {
        proof {
            assert(views.take(i + 1).drop_last() == views.take(i as int));
        }
        match decode_issue(&items[i]) {
            Some(issue) => {
                issues.push(issue);
            },
            None => {
                proof {
                    lemma_spoiled_list(views, i + 1);
                }
                return None;
            },
        }
        i = i + 1;
    }
    proof {
        assert(views.take(count as int) == views);
    }
    Some(issues)
}

proof fn lemma_spoiled_list(items: Seq<JsonView>, upto: int)
    requires
        0 <= upto <= items.len(),
        issues_of(items.take(upto)) is None,
    ensures
        issues_of(items) is None,
    decreases items.len() - upto,
{
    if upto < items.len() {
        assert(items.take(upto + 1).drop_last() == items.take(upto));
        lemma_spoiled_list(items, upto + 1);
    } else {
        assert(items.take(upto) == items);
    }
}

/// Decodes the key of the issue that a reply document reports as created.
pub fn decode_created_key(doc: &Json) -> (found: Option<String>)
    ensures
        optional_text(found) == created_key(doc@),
{
    copy_text_member(doc, "key")
}

/// Reads the body of a reply as a list of issues.
pub fn read_issues(body: &str) -> (read: Result<Vec<Issue>, ReplyError>)
    ensures
        match read {
            Ok(issues) => issues_in(body@) matches Ok(listed) && listed == issue_views(issues@),
            Err(error) => issues_in(body@) matches Err(reason) && reason == error,
        },
{
    match parse_document(body) {
        None => Err(ReplyError::NotJson),
        Some(doc) => match decode_issues(&doc) {
            Some(issues) => Ok(issues),
            None => Err(ReplyError::UnexpectedShape),
        },
    }
}

/// Reads the body of a reply to a created issue and gives the new key.
pub fn read_created_key(body: &str) -> (read: Result<String, ReplyError>)
    ensures
        match read {
            Ok(key) => created_key_in(body@) matches Ok(created) && created == key@,
            Err(error) => created_key_in(body@) matches Err(reason) && reason == error,
        },
{
    match parse_document(body) {
        None => Err(ReplyError::NotJson),
        Some(doc) => match decode_created_key(&doc) {
            Some(key) => Ok(key),
            None => Err(ReplyError::UnexpectedShape),
        },
    }
}

fn named(name: &str, value: Json) -> (member: Member)
    ensures
        member.name@ == name@,
        member.value == value,
{
    Member { name: String::from_str(name), value }
}

/// Builds the document that asks the tracker to create an issue.
pub fn encode_request(request: CreateIssueRequest) -> (doc: Json)
    ensures
        doc@ == request_document(request@),
{
    let mut project: Vec<Member> = Vec::new();
    project.push(named("key", Json::Text(request.project_key)));
    let mut issue_type: Vec<Member> = Vec::new();
    issue_type.push(named("name", Json::Text(request.issue_type)));
    let mut fields: Vec<Member> = Vec::new();
    fields.push(named("project", Json::Object(project)));
    fields.push(named("summary", Json::Text(request.summary)));
    fields.push(named("description", Json::Text(request.description)));
    fields.push(named("issuetype", Json::Object(issue_type)));
    fields.push(named("customfield_10020", Json::Unsigned(request.sprint_id)));
    let mut top: Vec<Member> = Vec::new();
    top.push(named("fields", Json::Object(fields)));
    proof {
        lemma_object_view(project);
        lemma_object_view(issue_type);
        lemma_object_view(fields);
        lemma_object_view(top);
        assert(Json::Object(project)@->Object_0 =~= seq![
            member("key"@, JsonView::Text(request@.project_key)),
        ]);
        assert(Json::Object(issue_type)@->Object_0 =~= seq![
            member("name"@, JsonView::Text(request@.issue_type)),
        ]);
        assert(Json::Object(fields)@->Object_0 =~= request_document(
            request@,
        )->Object_0[0].value->Object_0);
        assert(Json::Object(top)@->Object_0 =~= request_document(request@)->Object_0);
    }
    Json::Object(top)
}

/// The value at the end of a path of two member names.
pub open spec fn member2(doc: JsonView, first: Seq<char>, second: Seq<char>) -> Option<JsonView> {
    match doc.member(first) {
        Some(inner) => inner.member(second),
        None => None,
    }
}

/// What the request document of a task holds under `fields`: the sprint
/// under `customfield_10020`, the summary and the description as they were
/// given, `Task` as the name of the issue type, and the key of the
/// project.
pub proof fn lemma_request_fields(
    project_key: Seq<char>,
    summary: Seq<char>,
    description: Seq<char>,
    sprint_id: u64,
)
    ensures
        ({
            let doc = request_document(task_request(project_key, summary, description, sprint_id));
            let fields = doc.member("fields"@);
            &&& fields is Some
            &&& fields->0.member("customfield_10020"@) == Some(JsonView::Unsigned(sprint_id))
            &&& fields->0.member("summary"@) == Some(JsonView::Text(summary))
            &&& fields->0.member("description"@) == Some(JsonView::Text(description))
            &&& member2(fields->0, "issuetype"@, "name"@) == Some(JsonView::Text("Task"@))
            &&& member2(fields->0, "project"@, "key"@) == Some(JsonView::Text(project_key))
        }),
{
    reveal_strlit("fields");
    reveal_strlit("project");
    reveal_strlit("key");
    reveal_strlit("summary");
    reveal_strlit("description");
    reveal_strlit("issuetype");
    reveal_strlit("name");
    reveal_strlit("customfield_10020");
    assert("project"@[0] == 'p');
    assert("summary"@[0] == 's');
    assert("description"@[0] == 'd');
    assert("issuetype"@[0] == 'i');
    assert("customfield_10020"@[0] == 'c');
    let doc = request_document(task_request(project_key, summary, description, sprint_id));
    let top = doc->Object_0;
    let fields = top[0].value;
    let inner = fields->Object_0;
    assert(find_member(top, "fields"@) == Some(fields));
    assert(inner.drop_first()[0] == inner[1]);
    assert(inner.drop_first().drop_first()[0] == inner[2]);
    assert(inner.drop_first().drop_first().drop_first()[0] == inner[3]);
    assert(inner.drop_first().drop_first().drop_first().drop_first()[0] == inner[4]);
    reveal_with_fuel(find_member, 6);
}

} // verus!
