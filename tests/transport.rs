use jira_release::error::AppError;
use jira_release::releases::Release;
use jira_release::util::{auth_header, classify_response, Cli, Expect, Format};

fn release() -> Release {
    Release {
        id: "1".to_string(),
        description: None,
        name: None,
        archived: false,
        released: false,
        release_date: None,
        overdue: None,
        user_release_date: None,
        project_id: 0,
    }
}

#[test]
fn test_deser_error() -> Result<(), Box<dyn std::error::Error>> {
    // A 200 whose body (`""`) does not decode into a release.
    let res = classify_response::<Release, _>(200, Expect::Body, || None);

    assert!(res.is_err());
    assert!(matches!(res.err().unwrap(), AppError::DeserializationError));
    Ok(())
}

#[test]
fn test_server_error() -> Result<(), Box<dyn std::error::Error>> {
    let res = classify_response::<Release, _>(500, Expect::Body, || None);

    assert!(res.is_err());
    assert!(matches!(res.err().unwrap(), AppError::ApiCallBadStatus(..)));
    Ok(())
}

#[test]
fn failing_status_wins_over_a_valid_body() {
    let mut decoded = false;
    let res = classify_response(404, Expect::Body, || {
        decoded = true;
        Some(release())
    });
    assert!(matches!(res, Err(AppError::ApiCallBadStatus(404))));
    assert!(!decoded);
    let res = classify_response(199, Expect::NoContent, || Some(release()));
    assert!(matches!(res, Err(AppError::ApiCallBadStatus(199))));
    let res = classify_response(300, Expect::NoContent, || Some(release()));
    assert!(matches!(res, Err(AppError::ApiCallBadStatus(300))));
}

#[test]
fn no_content_ignores_the_body() {
    let res = classify_response(204, Expect::NoContent, || Some(release()));
    assert!(matches!(res, Ok(None)));
    let res = classify_response::<Release, _>(200, Expect::NoContent, || None);
    assert!(matches!(res, Ok(None)));
}

#[test]
fn decoded_body_is_returned() {
    let res = classify_response(299, Expect::Body, || Some(release()));
    assert_eq!("1", res.unwrap().unwrap().id);
}

#[test]
fn auth_header_is_basic_base64_of_user_and_token() {
    let ctx = Cli {
        auth_token: "token".to_string(),
        output_format: Format::Json,
        user_email: "user".to_string(),
        base_jira_url: "http://h".to_string(),
    };
    assert_eq!("Basic dXNlcjp0b2tlbg==", auth_header(&ctx));
    let empty = Cli {
        auth_token: "".to_string(),
        output_format: Format::Csv,
        user_email: "".to_string(),
        base_jira_url: "".to_string(),
    };
    assert_eq!("Basic Og==", auth_header(&empty));
}

#[test]
fn error_messages() {
    assert_eq!("failed calling jira status code 500", AppError::ApiCallBadStatus(500).message());
    assert_eq!("failed deserializing response", AppError::DeserializationError.message());
    assert_eq!("no issues were found to release", AppError::NoIssuesFound.message());
    assert_eq!("IO error: disk", AppError::IOError("disk".to_string()).message());
    assert_eq!("failed calling jira: refused", AppError::ApiCallFailed("refused".to_string()).message());
    assert_eq!(
        "query was meant to match exactly one release but found multiple",
        AppError::MatchedMultipleReleases.message()
    );
}
