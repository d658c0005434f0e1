use jira_release::compositions::{
    AttachOutcome, ReleaseAction, ReleaseCompletedIssuesArgs, ReleaseStage, ReleaseWorkflow,
};
use jira_release::error::AppError;
use jira_release::issues::{Issue, IssueFields, IssueStatus, PaginatedIssues};
use jira_release::releases::Release;

fn args(jql: Option<&str>) -> ReleaseCompletedIssuesArgs {
    ReleaseCompletedIssuesArgs {
        release_name: "r1".to_string(),
        project: "PRJ".to_string(),
        issue_jql: jql.map(|q| q.to_string()),
        description: Some("d".to_string()),
    }
}

fn issue(key: &str) -> Issue {
    Issue {
        id: "1".to_string(),
        key: key.to_string(),
        fields: IssueFields {
            summary: "s".to_string(),
            status: IssueStatus { description: None, id: "1".to_string(), name: "Done".to_string() },
            fix_versions: vec![],
        },
    }
}

fn page(total: u64, keys: &[&str]) -> PaginatedIssues {
    PaginatedIssues { total, start_at: 0, issues: keys.iter().map(|k| issue(k)).collect() }
}

fn created(id: &str) -> Release {
    Release {
        id: id.to_string(),
        description: Some("d".to_string()),
        name: Some("r1".to_string()),
        archived: false,
        released: false,
        release_date: Some("2024-01-01".to_string()),
        overdue: None,
        user_release_date: None,
        project_id: 1,
    }
}

#[test]
fn default_query_and_first_search() {
    let (w, action) = ReleaseWorkflow::start(args(None), "2024-01-01".to_string());
    assert_eq!(ReleaseStage::Gathering, w.stage);
    match action {
        ReleaseAction::SearchPage(s) => {
            assert_eq!("(project = PRJ AND status = Done) and (fixVersion is EMPTY)", s.jql);
            assert_eq!(0, s.start_at);
            assert_eq!(50, s.max_results);
        }
        other => panic!("unexpected {:?}", other),
    }
    let (_, action) = ReleaseWorkflow::start(args(Some("key = A-1")), "2024-01-01".to_string());
    match action {
        ReleaseAction::SearchPage(s) => assert_eq!("key = A-1", s.jql),
        other => panic!("unexpected {:?}", other),
    }
}

#[test]
fn empty_search_fails_before_any_mutation() {
    let (mut w, _) = ReleaseWorkflow::start(args(None), "2024-01-01".to_string());
    let action = w.on_search_page(Ok(page(0, &[])));
    assert!(matches!(action, ReleaseAction::Failed(AppError::NoIssuesFound)));
    assert_eq!(ReleaseStage::Failed, w.stage);
}

#[test]
fn failed_search_page_fails_the_workflow() {
    let (mut w, _) = ReleaseWorkflow::start(args(None), "2024-01-01".to_string());
    let action = w.on_search_page(Ok(page(120, &["A-1"])));
    match action {
        ReleaseAction::SearchPage(s) => assert_eq!(50, s.start_at),
        other => panic!("unexpected {:?}", other),
    }
    let action = w.on_search_page(Err(AppError::ApiCallBadStatus(502)));
    assert!(matches!(action, ReleaseAction::Failed(AppError::ApiCallBadStatus(502))));
}

#[test]
fn creation_failure_touches_no_issue() {
    let (mut w, _) = ReleaseWorkflow::start(args(None), "2024-01-01".to_string());
    let action = w.on_search_page(Ok(page(1, &["A-1"])));
    assert!(matches!(action, ReleaseAction::CreateRelease(_)));
    let action = w.on_created(Err(AppError::ApiCallBadStatus(400)));
    assert!(matches!(action, ReleaseAction::Failed(AppError::CouldNotCreateRelease)));

    let (mut w, _) = ReleaseWorkflow::start(args(None), "2024-01-01".to_string());
    w.on_search_page(Ok(page(1, &["A-1"])));
    let action = w.on_created(Ok(None));
    assert!(matches!(action, ReleaseAction::Failed(AppError::CouldNotCreateRelease)));
}

#[test]
fn one_failed_attach_does_not_stop_the_others() {
    let (mut w, _) = ReleaseWorkflow::start(args(None), "2024-01-01".to_string());
    let action = w.on_search_page(Ok(page(3, &["A-1", "A-2", "A-3"])));
    match action {
        ReleaseAction::CreateRelease(c) => {
            assert_eq!("PRJ", c.project);
            assert_eq!("r1", c.name);
            assert_eq!(Some("d".to_string()), c.description);
            assert_eq!(None, c.start_date);
            assert_eq!(Some("2024-01-01".to_string()), c.release_date);
        }
        other => panic!("unexpected {:?}", other),
    }
    let mut attached = Vec::new();
    let mut action = w.on_created(Ok(Some(created("77"))));
    let results = vec![Ok(()), Err(AppError::ApiCallBadStatus(400)), Ok(())];
    let mut results = results.into_iter();
    loop {
        match action {
            ReleaseAction::AttachIssue(u) => {
                assert_eq!(Some("77".to_string()), u.fix_version);
                assert!(u.use_version_id);
                attached.push(u.name.clone());
                action = w.on_attached(results.next().unwrap());
            }
            ReleaseAction::MarkReleased(m) => {
                assert_eq!("77", m.release);
                assert_eq!(Some(true), m.is_released);
                assert_eq!(Some(true), m.by_id);
                action = w.on_marked_released(Ok(()));
            }
            ReleaseAction::Finished => break,
            other => panic!("unexpected {:?}", other),
        }
    }
    assert_eq!(vec!["A-1", "A-2", "A-3"], attached);
    assert_eq!(ReleaseStage::Finished, w.stage);
    let outcomes = w.outcomes();
    assert_eq!(3, outcomes.len());
    assert!(matches!(&outcomes[0], AttachOutcome::Attached(k) if k == "A-1"));
    assert!(matches!(&outcomes[1], AttachOutcome::NotAttached(k, AppError::ApiCallBadStatus(400)) if k == "A-2"));
    assert!(matches!(&outcomes[2], AttachOutcome::Attached(k) if k == "A-3"));
}

#[test]
fn finalize_failure_is_reported() {
    let (mut w, _) = ReleaseWorkflow::start(args(None), "2024-01-01".to_string());
    w.on_search_page(Ok(page(1, &["A-1"])));
    w.on_created(Ok(Some(created("5"))));
    let action = w.on_attached(Err(AppError::DeserializationError));
    assert!(matches!(action, ReleaseAction::MarkReleased(_)));
    let action = w.on_marked_released(Err(AppError::ApiCallBadStatus(500)));
    assert!(matches!(action, ReleaseAction::Failed(AppError::ApiCallBadStatus(500))));
    assert_eq!(ReleaseStage::Failed, w.stage);
}

#[test]
fn start_today_dates_the_release() {
    let (mut w, _) = ReleaseWorkflow::start_today(args(None));
    match w.on_search_page(Ok(page(1, &["A-1"]))) {
        ReleaseAction::CreateRelease(c) => {
            let date = c.release_date.unwrap();
            assert_eq!(10, date.len());
            assert_eq!(b'-', date.as_bytes()[4]);
            assert_eq!(b'-', date.as_bytes()[7]);
        }
        other => panic!("unexpected {:?}", other),
    }
}
