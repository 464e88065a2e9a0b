use rufish::{Auth, HttpRequest, Method, RedfishClient, RedfishError, RequestBody};

fn client() -> RedfishClient {
    RedfishClient::new("10.0.0.5", "admin", "pa\"ss").expect("the HTTP client builds")
}

#[test]
fn login_posts_the_credentials_without_auth() {
    let c = client();
    assert_eq!(
        c.login(),
        HttpRequest {
            method: Method::Post,
            url: "https://10.0.0.5/redfish/v1/SessionService/Sessions".to_string(),
            auth: Auth::Anonymous,
            body: RequestBody::Json(r#"{"UserName":"admin","Password":"pa\"ss"}"#.to_string()),
        }
    );
}

#[test]
fn session_token_replaces_basic_auth_until_logout() {
    let mut c = client();
    assert!(matches!(c.get("/x").auth, Auth::Basic { .. }));
    c.finish_login(201, Some("tok".to_string()), Some("/redfish/v1/SessionService/Sessions/7".to_string()))
        .unwrap();
    assert_eq!(c.list_systems().auth, Auth::Token("tok".to_string()));
    let out = c.logout();
    assert_eq!(
        out,
        Some(HttpRequest {
            method: Method::Delete,
            url: "https://10.0.0.5/redfish/v1/SessionService/Sessions/7".to_string(),
            auth: Auth::Token("tok".to_string()),
            body: RequestBody::Empty,
        })
    );
    assert_eq!(c.list_systems().auth, Auth::Basic { username: "admin".to_string(), password: "pa\"ss".to_string() });
    assert_eq!(c.logout(), None);
}

#[test]
fn absolute_session_uri_is_used_as_is() {
    let mut c = client();
    c.finish_login(200, Some("t".to_string()), Some("https://bmc/s/1".to_string())).unwrap();
    assert_eq!(c.logout().unwrap().url, "https://bmc/s/1");
}

#[test]
fn login_without_location_keeps_token_but_logout_sends_nothing() {
    let mut c = client();
    c.finish_login(201, Some("t".to_string()), None).unwrap();
    assert_eq!(c.get("/x").auth, Auth::Token("t".to_string()));
    assert_eq!(c.logout(), None);
    assert!(matches!(c.get("/x").auth, Auth::Basic { .. }));
}

#[test]
fn login_fails_without_token_or_at_other_status() {
    let mut c = client();
    assert!(matches!(c.finish_login(201, None, Some("/s".to_string())), Err(RedfishError::AuthFailed)));
    assert!(matches!(c.finish_login(204, Some("t".to_string()), None), Err(RedfishError::AuthFailed)));
    assert!(matches!(c.finish_login(401, Some("t".to_string()), None), Err(RedfishError::AuthFailed)));
    assert!(matches!(c.get("/x").auth, Auth::Basic { .. }));
}
