use jp_dict_bridge::error::{BridgeError, RequestFailure};
use jp_dict_bridge::json::{parse_text, Json, Member};
use jp_dict_bridge::transport::{
    read_body, read_response, wants_body, HttpOutcome, STATUS_OK,
};

fn response(status: u16, body: &str) -> HttpOutcome {
    HttpOutcome::Response { status, body: body.as_bytes().to_vec() }
}

#[test]
fn status_200_with_json_is_success() {
    let read = read_response(&response(200, "{\"ok\":true}"));
    let expected =
        Json::Record(vec![Member { name: "ok".to_string(), value: Json::Bool(true) }]);
    assert_eq!(read, Ok(expected));
    assert_eq!(STATUS_OK, 200);
}

#[test]
fn status_404_and_500_fail_whatever_the_body() {
    for body in ["{\"ok\":true}", "", "not json", "{\"candidates\":[]}"] {
        assert_eq!(
            read_response(&response(404, body)),
            Err(BridgeError::RequestFailed(RequestFailure::Status(404)))
        );
        assert_eq!(
            read_response(&response(500, body)),
            Err(BridgeError::RequestFailed(RequestFailure::Status(500)))
        );
    }
}

#[test]
fn status_401_fails_with_its_status() {
    let with_body = read_response(&response(401, "{\"error\":{\"code\":401}}"));
    let without = read_response(&response(401, ""));
    assert_eq!(with_body, Err(BridgeError::RequestFailed(RequestFailure::Status(401))));
    assert_eq!(with_body, without);
    assert_eq!(with_body.unwrap_err().message(), "request error: 401 Unauthorized");
}

#[test]
fn other_success_and_redirect_statuses_fail() {
    for status in [201u16, 204, 301, 302, 199, 0, 65535] {
        assert_eq!(
            read_response(&response(status, "{}")),
            Err(BridgeError::RequestFailed(RequestFailure::Status(status)))
        );
    }
}

#[test]
fn status_200_with_a_bad_body_is_malformed() {
    let read = read_response(&response(200, "<html>"));
    assert_eq!(
        read,
        Err(BridgeError::MalformedResponse("expected value at line 1 column 1".to_string()))
    );
    assert_eq!(read.unwrap_err().message(), "json error: expected value at line 1 column 1");
    let read = read_response(&HttpOutcome::Response { status: 200, body: vec![] });
    assert!(matches!(read, Err(BridgeError::MalformedResponse(_))));
}

#[test]
fn failure_to_send_is_a_failed_request() {
    let read = read_response(&HttpOutcome::SendFailed("connection refused".to_string()));
    assert_eq!(
        read,
        Err(BridgeError::RequestFailed(RequestFailure::Network("connection refused".to_string())))
    );
    assert_eq!(read.unwrap_err().message(), "request error: connection refused");
}

#[test]
fn parsed_body_is_settled() {
    assert_eq!(read_body(parse_text("[]")), Ok(Json::List(vec![])));
    assert_eq!(
        read_body(Err("bad".to_string())),
        Err(BridgeError::MalformedResponse("bad".to_string()))
    );
}

#[test]
fn status_lines_are_rendered() {
    let line = |status: u16| BridgeError::RequestFailed(RequestFailure::Status(status)).message();
    assert_eq!(line(404), "request error: 404 Not Found");
    assert_eq!(line(500), "request error: 500 Internal Server Error");
    assert_eq!(line(299), "request error: 299 <unknown status code>");
    assert_eq!(line(42), "request error: invalid status code");
}

#[test]
fn unreadable_body_counts_only_with_status_200() {
    let lost = |status: u16| HttpOutcome::Unreadable { status, detail: "reset".to_string() };
    assert_eq!(read_response(&lost(200)), Err(BridgeError::MalformedResponse("reset".to_string())));
    assert_eq!(
        read_response(&lost(502)),
        Err(BridgeError::RequestFailed(RequestFailure::Status(502)))
    );
}

#[test]
fn body_is_asked_for_only_with_status_200() {
    assert!(wants_body(200));
    assert!(!wants_body(201));
    assert!(!wants_body(404));
    assert!(!wants_body(0));
}
