use sprint_tasks::create::CreateIssueRequest;
use sprint_tasks::issue::{Issue, Parent};
use sprint_tasks::json::{parse_document, Json, Member};
use sprint_tasks::wire::{
    decode_created_key, decode_issue, decode_issues, encode_request, read_created_key,
    read_issues, ReplyError,
};

fn obj(members: Vec<(&str, Json)>) -> Json {
    Json::Object(
        members
            .into_iter()
            .map(|(name, value)| Member { name: name.to_string(), value })
            .collect(),
    )
}

fn text(value: &str) -> Json {
    Json::Text(value.to_string())
}

fn plain(key: &str, summary: &str) -> Issue {
    Issue { key: key.to_string(), summary: summary.to_string(), parent: None }
}

#[test]
fn issues_are_read_from_key_and_fields() {
    let body = "{\"expand\":\"schema,names\",\"startAt\":0,\"maxResults\":1000,\"total\":2,\
                \"issues\":[\
                {\"id\":\"10001\",\"key\":\"A-1\",\"fields\":{\"summary\":\"Fix bug\",\"labels\":[]}},\
                {\"id\":\"10002\",\"key\":\"A-2\",\"fields\":{\"summary\":\"Write tests\",\
                 \"parent\":{\"id\":\"10000\",\"key\":\"A-0\",\"fields\":{\"summary\":\"Release 2\"}}}}]}";
    let expected = vec![
        plain("A-1", "Fix bug"),
        Issue {
            key: "A-2".to_string(),
            summary: "Write tests".to_string(),
            parent: Some(Parent::Summary("Release 2".to_string())),
        },
    ];
    assert_eq!(read_issues(body), Ok(expected));
}

#[test]
fn a_null_parent_is_no_parent() {
    let body = "{\"issues\":[{\"key\":\"A-1\",\"fields\":{\"summary\":\"s\",\"parent\":null}}]}";
    assert_eq!(read_issues(body), Ok(vec![plain("A-1", "s")]));
}

#[test]
fn issues_keep_the_order_of_the_reply() {
    let body = "{\"issues\":[{\"key\":\"B-3\",\"fields\":{\"summary\":\"c\"}},\
                {\"key\":\"B-1\",\"fields\":{\"summary\":\"a\"}},\
                {\"key\":\"B-2\",\"fields\":{\"summary\":\"b\"}}]}";
    assert_eq!(read_issues(body), Ok(vec![plain("B-3", "c"), plain("B-1", "a"), plain("B-2", "b")]));
    assert_eq!(read_issues("{\"issues\":[]}"), Ok(Vec::new()));
}

#[test]
fn a_body_that_is_no_json_cannot_be_read() {
    assert_eq!(read_issues(""), Err(ReplyError::NotJson));
    assert_eq!(read_issues("{\"issues\":["), Err(ReplyError::NotJson));
    assert_eq!(read_created_key("Created"), Err(ReplyError::NotJson));
}

#[test]
fn a_list_of_another_shape_cannot_be_read() {
    let bodies = [
        "{}",
        "[]",
        "null",
        "{\"issues\":null}",
        "{\"issues\":{}}",
        "{\"Issues\":[]}",
        "{\"issues\":[null]}",
        "{\"issues\":[{}]}",
        "{\"issues\":[{\"key\":\"A-1\"}]}",
        "{\"issues\":[{\"fields\":{\"summary\":\"s\"}}]}",
        "{\"issues\":[{\"key\":1,\"fields\":{\"summary\":\"s\"}}]}",
        "{\"issues\":[{\"key\":\"A-1\",\"fields\":null}]}",
        "{\"issues\":[{\"key\":\"A-1\",\"fields\":{}}]}",
        "{\"issues\":[{\"key\":\"A-1\",\"fields\":{\"summary\":null}}]}",
        "{\"issues\":[{\"key\":\"A-1\",\"fields\":{\"summary\":\"s\",\"parent\":{}}}]}",
        "{\"issues\":[{\"key\":\"A-1\",\"fields\":{\"summary\":\"s\",\"parent\":\"A-0\"}}]}",
        "{\"issues\":[{\"key\":\"A-1\",\"fields\":{\"summary\":\"s\",\"parent\":{\"fields\":{}}}}]}",
        "{\"issues\":[{\"key\":\"A-1\",\"fields\":{\"summary\":\"s\",\"parent\":{\"fields\":{\"summary\":7}}}}]}",
        "{\"issues\":[{\"key\":\"A-1\",\"fields\":{\"summary\":\"s\"}},{\"key\":\"A-2\"}]}",
        "{\"issues\":[{\"key\":\"A-1\"},{\"key\":\"A-2\",\"fields\":{\"summary\":\"s\"}}]}",
    ];
    for body in bodies {
        assert_eq!(read_issues(body), Err(ReplyError::UnexpectedShape), "{}", body);
    }
}

#[test]
fn decoding_works_on_trees_built_by_hand() {
    let item = obj(vec![
        ("key", text("A-7")),
        ("fields", obj(vec![("summary", text("seven")), ("parent", Json::Null)])),
    ]);
    assert_eq!(decode_issue(&item), Some(plain("A-7", "seven")));
    assert_eq!(decode_issue(&Json::Null), None);
    let doc = obj(vec![("issues", Json::Array(vec![item]))]);
    assert_eq!(decode_issues(&doc), Some(vec![plain("A-7", "seven")]));
    assert_eq!(decode_issues(&obj(vec![("issues", Json::Array(vec![Json::Bool(true)]))])), None);
    assert_eq!(decode_issues(&obj(vec![])), None);
}

#[test]
fn the_created_key_is_read_from_key_alone() {
    assert_eq!(read_created_key("{\"key\":\"A-9\"}"), Ok("A-9".to_string()));
    assert_eq!(read_created_key("{\"id\":\"10009\",\"key\":\"A-9\"}"), Ok("A-9".to_string()));
    assert_eq!(
        read_created_key("{\"key\":\"A-9\",\"id\":\"10009\",\"self\":\"https://x/10009\"}"),
        Ok("A-9".to_string())
    );
    assert_eq!(read_created_key("{\"id\":10009,\"key\":\"A-9\"}"), Ok("A-9".to_string()));
    assert_eq!(read_created_key("{\"id\":null,\"key\":\"\"}"), Ok(String::new()));
    assert_eq!(
        decode_created_key(&obj(vec![("id", text("1")), ("key", text("K-1"))])),
        Some("K-1".to_string())
    );
    assert_eq!(decode_created_key(&obj(vec![("key", text("K-1"))])), Some("K-1".to_string()));
}

#[test]
fn a_reply_without_a_key_that_is_a_string_names_no_issue() {
    assert_eq!(read_created_key("{}"), Err(ReplyError::UnexpectedShape));
    assert_eq!(read_created_key("{\"id\":\"10009\"}"), Err(ReplyError::UnexpectedShape));
    assert_eq!(read_created_key("{\"id\":\"1\",\"key\":null}"), Err(ReplyError::UnexpectedShape));
    assert_eq!(read_created_key("{\"key\":9}"), Err(ReplyError::UnexpectedShape));
    assert_eq!(read_created_key("{\"Key\":\"A-9\"}"), Err(ReplyError::UnexpectedShape));
    assert_eq!(read_created_key("[]"), Err(ReplyError::UnexpectedShape));
    assert_eq!(read_created_key("\"A-9\""), Err(ReplyError::UnexpectedShape));
    assert_eq!(decode_created_key(&obj(vec![("id", text("1"))])), None);
    assert_eq!(decode_created_key(&Json::Null), None);
}

#[test]
fn the_request_document_has_the_fields_the_tracker_expects() {
    let request = CreateIssueRequest::new(
        "SKLLS".to_string(),
        "Write docs".to_string(),
        String::new(),
        42,
    );
    let expected = obj(vec![(
        "fields",
        obj(vec![
            ("project", obj(vec![("key", text("SKLLS"))])),
            ("summary", text("Write docs")),
            ("description", text("")),
            ("issuetype", obj(vec![("name", text("Task"))])),
            ("customfield_10020", Json::Unsigned(42)),
        ]),
    )]);
    assert_eq!(encode_request(request), expected);
}

#[test]
fn the_request_document_means_what_its_json_text_means() {
    let request = CreateIssueRequest::new(
        "DOCS".to_string(),
        "Quote \"this\"".to_string(),
        "two\nlines".to_string(),
        u64::MAX,
    );
    let doc = encode_request(request);
    let written = parse_document(
        "{\"fields\":{\"project\":{\"key\":\"DOCS\"},\"summary\":\"Quote \\\"this\\\"\",\
         \"description\":\"two\\nlines\",\"issuetype\":{\"name\":\"Task\"},\
         \"customfield_10020\":18446744073709551615}}",
    )
    .unwrap();
    let fields = doc.member("fields").unwrap();
    let written_fields = written.member("fields").unwrap();
    for name in ["project", "summary", "description", "issuetype", "customfield_10020"] {
        assert_eq!(fields.member(name), written_fields.member(name), "{}", name);
        assert!(fields.member(name).is_some());
    }
}
