use sprint_tasks::issue::{
    aggregate, is_marked_closed, open_backlog, render, render_issue, Issue, Parent,
};

fn issue(key: &str, summary: &str) -> Issue {
    Issue { key: key.to_string(), summary: summary.to_string(), parent: None }
}

fn keys(issues: &[Issue]) -> Vec<String> {
    issues.iter().map(|issue| issue.key.clone()).collect()
}

#[test]
fn markers_are_found_in_any_letter_case() {
    assert!(is_marked_closed("[DONE]"));
    assert!(is_marked_closed("[Closed]"));
    assert!(is_marked_closed("[done]"));
    assert!(is_marked_closed("[dOnE] tail"));
    assert!(is_marked_closed("head [cLoSeD]"));
    assert!(is_marked_closed("[Done] old"));
    assert!(is_marked_closed("both [done] and [closed]"));
}

#[test]
fn summaries_without_a_marker_stay_open() {
    assert!(!is_marked_closed("New idea"));
    assert!(!is_marked_closed(""));
    assert!(!is_marked_closed("done"));
    assert!(!is_marked_closed("closed"));
    assert!(!is_marked_closed("[done"));
    assert!(!is_marked_closed("done]"));
    assert!(!is_marked_closed("[ done ]"));
    assert!(!is_marked_closed("(done)"));
    assert!(!is_marked_closed("[close]"));
    assert!(!is_marked_closed("[d\u{f6}ne]"));
}

#[test]
fn open_backlog_drops_marked_issues_and_keeps_the_order() {
    let backlog = vec![
        issue("B-1", "first"),
        issue("B-2", "[Done] second"),
        issue("B-3", "third"),
        issue("B-4", "fourth [CLOSED]"),
        issue("B-5", "fifth"),
    ];
    let kept = open_backlog(backlog);
    assert_eq!(kept, vec![issue("B-1", "first"), issue("B-3", "third"), issue("B-5", "fifth")]);
}

#[test]
fn filtering_twice_changes_nothing() {
    let backlog = vec![
        issue("B-1", "[done] a"),
        issue("B-2", "b"),
        issue("B-3", "c [closed]"),
        issue("B-4", "d"),
        issue("B-2", "b"),
    ];
    let once = open_backlog(backlog);
    let twice = open_backlog(once.clone());
    assert_eq!(once, twice);
    assert_eq!(keys(&once), vec!["B-2", "B-4", "B-2"]);
    assert_eq!(open_backlog(Vec::new()), Vec::<Issue>::new());
}

#[test]
fn sprint_issues_precede_backlog_issues() {
    let sprint = vec![issue("S-2", "two"), issue("S-1", "one [done]")];
    let backlog = vec![issue("B-9", "nine"), issue("B-3", "[Closed] three"), issue("B-1", "one")];
    let tasks = aggregate(sprint, Some(backlog));
    assert_eq!(keys(&tasks), vec!["S-2", "S-1", "B-9", "B-1"]);
}

#[test]
fn sprint_issues_are_never_filtered_or_deduplicated() {
    let sprint = vec![issue("A-1", "[Done] shipped"), issue("A-2", "open")];
    let backlog = vec![issue("A-2", "open"), issue("A-1", "[Done] shipped")];
    let tasks = aggregate(sprint, Some(backlog));
    assert_eq!(keys(&tasks), vec!["A-1", "A-2", "A-2"]);
}

#[test]
fn a_missing_backlog_leaves_the_sprint_issues() {
    let sprint = vec![issue("S-1", "one"), issue("S-2", "two")];
    assert_eq!(aggregate(sprint.clone(), None), sprint);
    assert_eq!(aggregate(sprint.clone(), Some(Vec::new())), sprint);
    assert_eq!(aggregate(Vec::new(), None), Vec::<Issue>::new());
}

#[test]
fn an_issue_is_shown_as_key_tab_summary() {
    assert_eq!(render_issue(&issue("A-1", "Fix bug")), "A-1\tFix bug");
    assert_eq!(render_issue(&issue("", "")), "\t");
}

#[test]
fn a_parent_is_shown_in_front_with_a_colon() {
    let by_summary = Issue {
        key: "A-5".to_string(),
        summary: "Write tests".to_string(),
        parent: Some(Parent::Summary("Release 2".to_string())),
    };
    assert_eq!(render_issue(&by_summary), "Release 2: A-5\tWrite tests");
    let by_key = Issue {
        key: "A-6".to_string(),
        summary: "Ship".to_string(),
        parent: Some(Parent::Key("A-1".to_string())),
    };
    assert_eq!(render_issue(&by_key), "A-1: A-6\tShip");
    assert_eq!(by_key.parent.as_ref().unwrap().label(), "A-1");
}

#[test]
fn render_gives_one_line_for_each_issue_in_order() {
    let issues = vec![issue("A-1", "Fix bug"), issue("A-3", "New idea")];
    assert_eq!(render(&issues), vec!["A-1\tFix bug".to_string(), "A-3\tNew idea".to_string()]);
    assert_eq!(render(&Vec::new()), Vec::<String>::new());
}

#[test]
fn list_scenario_shows_sprint_issue_then_open_backlog_issue() {
    let sprint = vec![issue("A-1", "Fix bug")];
    let backlog = vec![issue("A-2", "[Done] old"), issue("A-3", "New idea")];
    let lines = render(&aggregate(sprint, Some(backlog)));
    assert_eq!(lines, vec!["A-1\tFix bug".to_string(), "A-3\tNew idea".to_string()]);
}
