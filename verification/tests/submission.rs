use broadcast_ip::report::build_report;
use broadcast_ip::submit::auth_header_name;
use broadcast_ip::submit::interpret_response;
use broadcast_ip::submit::format_outcome;
use broadcast_ip::submit::prepare_submission;
use broadcast_ip::submit::SubmitError;

#[test]
fn report_title_and_body_exact() {
    let r = build_report("eth0: flags=...", "2021-01-02T03:04:05.678+00:00");
    assert_eq!(r.title, "[2021-01-02T03:04:05.678+00:00] Network Config of Raspberry Pi");
    assert_eq!(r.body, "```\neth0: flags=...\n```");
}

#[test]
fn report_on_empty_output() {
    let r = build_report("", "ts");
    assert_eq!(r.title, "[ts] Network Config of Raspberry Pi");
    assert_eq!(r.body, "```\n\n```");
}

#[test]
fn invalid_base_url_rejected() {
    let r = prepare_submission("not a url", "title", "description", "token");
    assert!(matches!(r, Err(SubmitError::InvalidUrl)));
}

#[test]
fn prepare_builds_target_url() {
    let r = prepare_submission(
        "http://example.com/api/v4/projects/7/issues",
        "My Title",
        "desc + more",
        "secret-token",
    )
    .unwrap();
    assert_eq!(
        r.target_url,
        "http://example.com/api/v4/projects/7/issues?title=My%20Title&description=desc%20%2B%20more",
    );
    assert_eq!(r.encoded_title, "My%20Title");
    assert_eq!(r.encoded_body, "desc%20%2B%20more");
    assert_eq!(r.auth_token, "secret-token");
}

#[test]
fn prepare_overwrites_existing_query() {
    let r = prepare_submission("http://example.com/x?old=1", "t", "d", "k").unwrap();
    assert_eq!(r.target_url, "http://example.com/x?title=t&description=d");
}

#[test]
fn auth_header_name_exact() {
    assert_eq!(auth_header_name(), "PRIVATE-TOKEN");
}

#[test]
fn error_messages_name_each_failure() {
    assert_eq!(SubmitError::CommandExecution.message(), "diagnostic command could not be run");
    assert_eq!(SubmitError::Encoding.message(), "diagnostic command output was not valid text");
    assert_eq!(SubmitError::InvalidUrl.message(), "API base URL is not a valid absolute URL");
    assert_eq!(SubmitError::Network.message(), "request could not be completed");
}

#[test]
fn end_to_end_pipeline() {
    let report = build_report("eth0: flags=...", "2021-01-02T03:04:05.678+00:00");
    assert_eq!(report.title, "[2021-01-02T03:04:05.678+00:00] Network Config of Raspberry Pi");
    assert_eq!(report.body, "```\neth0: flags=...\n```");

    let request = prepare_submission(
        "http://example.com/api/v4/projects/7/issues",
        &report.title,
        &report.body,
        "secret-token",
    )
    .unwrap();
    assert!(request.target_url.starts_with("http://example.com/api/v4/projects/7/issues?title="));

    let echoed = "{\"web_url\":\"http://example/issues/1\"}";
    let outcome = interpret_response(201, echoed);
    assert_eq!(outcome.result_identifier, "\"http://example/issues/1\"");
    assert_eq!(format_outcome(&outcome), "[201] \"http://example/issues/1\"");
}
