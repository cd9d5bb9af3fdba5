use pylon_tg_bot::pylon::{
    account_envelope, issue_envelope, response_result, Body, CreateIssueResponse, Envelope,
    ErrorResponse, GetAccountResponse, Issue, PylonClient, SuccessResponse, PYLON_API_URL,
};

fn errors(list: &[&str]) -> ErrorResponse {
    ErrorResponse {
        errors: list.iter().map(|e| e.to_string()).collect(),
        exists_id: None,
        request_id: Some("r".to_string()),
    }
}

#[test]
fn issue_request_is_a_post_to_issues() {
    let client = PylonClient::new("SECRET-REDACTED".to_string());
    let request = client.create_issue("Title", "<p>Body</p>", "acc-9");
    assert_eq!(request.url, "https://api.usepylon.com/issues");
    assert_eq!(request.url, format!("{}/issues", PYLON_API_URL));
    assert_eq!(request.bearer_token, "SECRET-REDACTED");
    let Issue { account_id, title, body_html } = request.issue;
    assert_eq!(account_id, "acc-9");
    assert_eq!(title, "Title");
    assert_eq!(body_html, "<p>Body</p>");
}

#[test]
fn account_request_names_the_account() {
    let client = PylonClient::new("SECRET-REDACTED".to_string());
    let request = client.get_account("acc-9");
    assert_eq!(request.url, "https://api.usepylon.com/accounts/acc-9");
    assert_eq!(request.bearer_token, "SECRET-REDACTED");
}

#[test]
fn only_status_200_is_a_success() {
    assert_eq!(issue_envelope(200), Envelope::Success);
    for status in [0u16, 199, 201, 204, 400, 401, 404, 500, u16::MAX] {
        assert_eq!(issue_envelope(status), Envelope::Error);
    }
    assert_eq!(account_envelope(200), Envelope::Success);
    assert_eq!(account_envelope(404), Envelope::Missing);
    for status in [0u16, 201, 400, 401, 403, 500] {
        assert_eq!(account_envelope(status), Envelope::Error);
    }
}

#[test]
fn success_gives_the_data() {
    let body = Body::Success(SuccessResponse {
        data: CreateIssueResponse {
            id: Some("i-1".to_string()),
            number: Some(7),
            link: Some("https://x/7".to_string()),
        },
        request_id: None,
    });
    let issue = PylonClient::issue_created(body).ok().unwrap();
    assert_eq!(issue.id, Some("i-1".to_string()));
    assert_eq!(issue.number, Some(7));
    assert_eq!(issue.link, Some("https://x/7".to_string()));
}

#[test]
fn failure_joins_the_errors() {
    let e = PylonClient::issue_created(Body::Error(errors(&["title is required", "no such account"])));
    assert_eq!(e.err().unwrap().message, "title is required, no such account");
    let e = PylonClient::issue_created(Body::Error(errors(&["only one"])));
    assert_eq!(e.err().unwrap().message, "only one");
    let e = PylonClient::issue_created(Body::Error(errors(&[])));
    assert_eq!(e.err().unwrap().message, "");
    let e: Result<u8, _> = response_result(Body::Error(errors(&["a", "b", "c"])));
    assert_eq!(e.err().unwrap().message, "a, b, c");
}

#[test]
fn account_lookup_tells_not_found_from_failed() {
    let found = PylonClient::account_found(Some(Body::Success(SuccessResponse {
        data: GetAccountResponse { id: Some("acc-9".to_string()), name: Some("Acme".to_string()) },
        request_id: None,
    })));
    assert_eq!(found.ok().unwrap().unwrap().name, Some("Acme".to_string()));
    let missing = PylonClient::account_found(None);
    assert!(missing.ok().unwrap().is_none());
    let failed = PylonClient::account_found(Some(Body::Error(errors(&["forbidden"]))));
    assert_eq!(failed.err().unwrap().message, "forbidden");
}
