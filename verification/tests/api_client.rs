use rustycode::api::{ApiClient, Endpoint, HttpMethod};

#[test]
fn api_client_new_stores_base_url() {
    let client = ApiClient::new("http://127.0.0.1:3000".to_string());
    assert_eq!(client.base_url(), "http://127.0.0.1:3000");
}

#[test]
fn api_client_new_strips_trailing_slash() {
    let client = ApiClient::new("http://127.0.0.1:3000/".to_string());
    assert_eq!(client.base_url(), "http://127.0.0.1:3000");
}

#[test]
fn api_client_new_strips_multiple_trailing_slashes() {
    let client = ApiClient::new("http://127.0.0.1:3000///".to_string());
    assert_eq!(client.base_url(), "http://127.0.0.1:3000");
}

#[test]
fn api_client_clone_preserves_base_url() {
    let client = ApiClient::new("http://localhost:8080".to_string());
    let cloned = client.clone();
    assert_eq!(cloned.base_url(), "http://localhost:8080");
}

#[test]
fn api_client_new_is_idempotent() {
    let once = ApiClient::new("http://h:1//".to_string());
    let twice = ApiClient::new(once.base_url().to_string());
    assert_eq!(once.base_url(), twice.base_url());
    assert!(!twice.base_url().ends_with('/'));
}

#[test]
fn api_client_new_of_only_slashes_is_empty() {
    let client = ApiClient::new("///".to_string());
    assert_eq!(client.base_url(), "");
}

#[test]
fn api_client_url_joins_path() {
    let client = ApiClient::new("http://h:4000/".to_string());
    assert_eq!(client.url("/session"), "http://h:4000/session");
}

#[test]
fn request_health_is_get_on_global_health() {
    let client = ApiClient::new("http://h:4000".to_string());
    let r = client.request(&Endpoint::Health);
    assert_eq!(r.method, HttpMethod::Get);
    assert_eq!(r.url, "http://h:4000/global/health");
    assert!(r.query.is_empty());
}

#[test]
fn request_get_session_puts_id_in_path() {
    let client = ApiClient::new("http://h".to_string());
    let r = client.request(&Endpoint::GetSession { id: "s1".to_string() });
    assert_eq!(r.method, HttpMethod::Get);
    assert_eq!(r.url, "http://h/session/s1");
}

#[test]
fn request_abort_session_is_post() {
    let client = ApiClient::new("http://h".to_string());
    let r = client.request(&Endpoint::AbortSession { id: "s1".to_string() });
    assert_eq!(r.method, HttpMethod::Post);
    assert_eq!(r.url, "http://h/session/s1/abort");
}

#[test]
fn request_list_sessions_with_and_without_project() {
    let client = ApiClient::new("http://h".to_string());
    let r = client.request(&Endpoint::ListSessions { project_id: None });
    assert_eq!(r.url, "http://h/session");
    assert!(r.query.is_empty());
    let r = client.request(&Endpoint::ListSessions { project_id: Some("p1".to_string()) });
    assert_eq!(r.query, vec![("projectID".to_string(), "p1".to_string())]);
}

#[test]
fn request_list_messages_limit_in_decimal() {
    let client = ApiClient::new("http://h".to_string());
    let r = client.request(&Endpoint::ListMessages { session_id: "s".to_string(), limit: Some(250) });
    assert_eq!(r.url, "http://h/session/s/message");
    assert_eq!(r.query, vec![("limit".to_string(), "250".to_string())]);
    let r = client.request(&Endpoint::ListMessages { session_id: "s".to_string(), limit: Some(0) });
    assert_eq!(r.query, vec![("limit".to_string(), "0".to_string())]);
}

#[test]
fn request_reply_permission_path() {
    let client = ApiClient::new("http://h".to_string());
    let r = client.request(&Endpoint::ReplyPermission {
        session_id: "s".to_string(),
        permission_id: "p".to_string(),
    });
    assert_eq!(r.method, HttpMethod::Post);
    assert_eq!(r.url, "http://h/session/s/permissions/p");
}

#[test]
fn request_session_diff_message_param() {
    let client = ApiClient::new("http://h".to_string());
    let r = client.request(&Endpoint::SessionDiff {
        id: "s".to_string(),
        message_id: Some("m".to_string()),
    });
    assert_eq!(r.url, "http://h/session/s/diff");
    assert_eq!(r.query, vec![("messageID".to_string(), "m".to_string())]);
}
