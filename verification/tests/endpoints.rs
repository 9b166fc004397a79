use sprint_tasks::endpoints::{
    active_sprint_url, backlog_url, create_issue_url, sprint_issues_url, MAX_RESULTS,
};
use sprint_tasks::status::{classify, succeeded, StatusClass, UNAUTHORIZED};

#[test]
fn addresses_are_spelled_as_the_tracker_expects() {
    assert_eq!(
        active_sprint_url("corp.atlassian.net", "7"),
        "https://corp.atlassian.net/rest/agile/1.0/board/7/sprint?state=active"
    );
    assert_eq!(
        sprint_issues_url("corp.atlassian.net", 42),
        "https://corp.atlassian.net/rest/agile/1.0/sprint/42/issue?maxResults=1000"
    );
    assert_eq!(
        backlog_url("corp.atlassian.net", "7"),
        "https://corp.atlassian.net/rest/agile/1.0/board/7/backlog?maxResults=1000"
    );
    assert_eq!(create_issue_url("corp.atlassian.net"), "https://corp.atlassian.net/rest/api/2/issue");
}

#[test]
fn page_size_is_capped_at_one_thousand() {
    assert_eq!(MAX_RESULTS, 1000);
    assert!(sprint_issues_url("d", 0).ends_with("/sprint/0/issue?maxResults=1000"));
    assert!(sprint_issues_url("d", u64::MAX).ends_with("/sprint/18446744073709551615/issue?maxResults=1000"));
}

#[test]
fn status_codes_fall_into_three_classes() {
    assert_eq!(UNAUTHORIZED, 401);
    assert_eq!(classify(200), StatusClass::Success);
    assert_eq!(classify(201), StatusClass::Success);
    assert_eq!(classify(204), StatusClass::Success);
    assert_eq!(classify(299), StatusClass::Success);
    assert_eq!(classify(401), StatusClass::AuthFailure);
    assert_eq!(classify(199), StatusClass::RequestFailure);
    assert_eq!(classify(300), StatusClass::RequestFailure);
    assert_eq!(classify(400), StatusClass::RequestFailure);
    assert_eq!(classify(403), StatusClass::RequestFailure);
    assert_eq!(classify(404), StatusClass::RequestFailure);
    assert_eq!(classify(500), StatusClass::RequestFailure);
    assert_eq!(classify(0), StatusClass::RequestFailure);
    assert_eq!(classify(u16::MAX), StatusClass::RequestFailure);
}

#[test]
fn succeeded_is_the_2xx_class() {
    for status in 0..=u16::MAX {
        assert_eq!(succeeded(status), (200..300).contains(&status));
        assert_eq!(succeeded(status), classify(status) == StatusClass::Success);
    }
}
