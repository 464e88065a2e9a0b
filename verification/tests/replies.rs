use rufish::transport::HttpTransport;
use rufish::{RedfishClient, RedfishError};

fn client() -> RedfishClient {
    RedfishClient::new("10.0.0.5", "admin", "password").expect("the HTTP client builds")
}

fn transport_error() -> reqwest::Error {
    reqwest::Client::new().get("not a url").build().unwrap_err()
}

#[test]
fn success_with_json_body_parses() {
    let c = client();
    let v = c.handle_response(200, "u", Ok(r#"{"Id":"1","Count":2}"#.to_string())).unwrap();
    assert_eq!(v, serde_json::from_str::<serde_json::Value>(r#"{"Count":2,"Id":"1"}"#).unwrap());
    let v = c.handle_response(299, "u", Ok("[1]".to_string())).unwrap();
    assert_eq!(v, serde_json::from_str::<serde_json::Value>("[1]").unwrap());
}

#[test]
fn success_with_empty_body_is_null() {
    let c = client();
    assert_eq!(c.handle_response(204, "u", Ok(String::new())).unwrap(), serde_json::Value::Null);
}

#[test]
fn success_with_bad_json_is_a_parse_error() {
    let c = client();
    let expected = serde_json::from_str::<serde_json::Value>("{oops").unwrap_err().to_string();
    match c.handle_response(200, "u", Ok("{oops".to_string())) {
        Err(RedfishError::Parse(m)) => assert_eq!(m, expected),
        other => panic!("unexpected {:?}", other),
    }
}

#[test]
fn success_with_unreadable_body_is_a_transport_error() {
    let c = client();
    assert!(matches!(c.handle_response(200, "u", Err(transport_error())), Err(RedfishError::Http(_))));
}

#[test]
fn not_found_and_unauthorized() {
    let c = client();
    match c.handle_response(404, "https://h/redfish/v1/Systems/9", Ok("gone".to_string())) {
        Err(RedfishError::NotFound(u)) => assert_eq!(u, "https://h/redfish/v1/Systems/9"),
        other => panic!("unexpected {:?}", other),
    }
    assert!(matches!(c.handle_response(401, "u", Ok(String::new())), Err(RedfishError::SessionExpired)));
}

#[test]
fn other_statuses_are_api_errors_with_the_body() {
    let c = client();
    match c.handle_response(500, "u", Ok("boom".to_string())) {
        Err(RedfishError::Api { status, message }) => {
            assert_eq!(status, 500);
            assert_eq!(message, "boom");
        },
        other => panic!("unexpected {:?}", other),
    }
    match c.handle_response(302, "u", Err(transport_error())) {
        Err(RedfishError::Api { status, message }) => {
            assert_eq!(status, 302);
            assert_eq!(message, "");
        },
        other => panic!("unexpected {:?}", other),
    }
}

#[test]
fn deletion_succeeds_at_success_statuses() {
    let c = client();
    assert!(c.finish_delete(200, Ok(String::new())).is_ok());
    assert!(c.finish_delete(204, Err(transport_error())).is_ok());
    match c.finish_delete(409, Ok("busy".to_string())) {
        Err(RedfishError::Api { status, message }) => {
            assert_eq!(status, 409);
            assert_eq!(message, "busy");
        },
        other => panic!("unexpected {:?}", other),
    }
    match c.finish_delete(500, Err(transport_error())) {
        Err(RedfishError::Api { message, .. }) => assert_eq!(message, ""),
        other => panic!("unexpected {:?}", other),
    }
}

#[test]
fn error_messages() {
    assert_eq!(RedfishError::Api { status: 503, message: "busy".to_string() }.message(), "API error 503: busy");
    assert_eq!(RedfishError::Api { status: 7, message: String::new() }.message(), "API error 7: ");
    assert_eq!(RedfishError::AuthFailed.message(), "Authentication failed");
    assert_eq!(RedfishError::NotFound("u".to_string()).message(), "Resource not found: u");
    assert_eq!(RedfishError::SessionExpired.message(), "Session expired");
    assert_eq!(RedfishError::Parse("bad".to_string()).message(), "Parse error: bad");
    let e = transport_error();
    let expected = format!("HTTP error: {}", e);
    assert_eq!(RedfishError::Http(e).message(), expected);
}

#[test]
fn new_client_builds_with_the_documented_settings() {
    let t = HttpTransport::new(true, 30).expect("the HTTP client builds");
    let c = RedfishClient::from_transport("h", "a", "b", Ok(t)).unwrap();
    assert_eq!(c.list_systems().url, "https://h/redfish/v1/Systems");
    assert!(RedfishClient::new("h", "a", "b").is_ok());
}

#[test]
fn failed_build_is_the_clients_error() {
    match RedfishClient::from_transport("h", "a", "b", Err(transport_error())) {
        Err(RedfishError::Http(e)) => assert!(e.is_builder()),
        other => panic!("unexpected {:?}", other.map(|_| ())),
    }
}

#[test]
fn successful_empty_replies_are_null() {
    let c = client();
    for status in [200u16, 201, 204] {
        assert_eq!(c.handle_response(status, "u", Ok(String::new())).unwrap(), serde_json::Value::Null);
    }
    assert_eq!(c.handle_response(200, "u", Ok("{}".to_string())).unwrap(), serde_json::from_str::<serde_json::Value>("{}").unwrap());
}
