use plc_node::client::PlcClient;
use plc_node::error::PlcError;
use plc_node::http::build_http_client;
use plc_node::responses::LoginResponse;

#[test]
fn test_url_concatenation() {
    let client = PlcClient::new("https://localhost:8443/api", "admin", "secret").unwrap();

    assert_eq!(client.url("/login"), "https://localhost:8443/api/login");
    assert_eq!(client.url("/start-plc"), "https://localhost:8443/api/start-plc");
}

#[test]
fn test_auth_header_format() {
    let mut client = PlcClient::new("https://localhost:8443/api", "admin", "secret").unwrap();

    client.jwt_token = Some("mytoken123".to_string());
    assert_eq!(client.auth_header(), "Bearer mytoken123");
}

#[test]
#[should_panic(expected = "JWT token not set")]
fn test_auth_header_panics_before_login() {
    let client = PlcClient::new("https://localhost:8443/api", "admin", "secret").unwrap();

    // jwt_token is None here
    let _ = client.auth_header();
}

#[test]
fn new_client_keeps_settings_and_has_no_token() {
    let client = PlcClient::new("http://plc:8080/api", "operator", "pw").unwrap();
    assert_eq!(client.base_api_url, "http://plc:8080/api");
    assert_eq!(client.auth_username, "operator");
    assert_eq!(client.auth_password, "pw");
    assert!(client.jwt_token.is_none());
    assert_eq!(client.url(""), "http://plc:8080/api");
}

#[test]
fn login_success_stores_token() {
    let mut client = PlcClient::new("https://localhost:8443/api", "admin", "secret").unwrap();
    assert!(client.jwt_token.is_none());
    let body = LoginResponse { access_token: "eyJhbGciOiJIUzI1NiIsInR5cCI6IkpXVCJ9.test".to_string() };
    let result = client.finish_login(200, Some(body));
    assert!(result.is_ok());
    assert_eq!(client.jwt_token.as_deref().unwrap(), "eyJhbGciOiJIUzI1NiIsInR5cCI6IkpXVCJ9.test");
}

#[test]
fn login_then_auth_header_carries_token() {
    let mut client = PlcClient::new("https://localhost:8443/api", "admin", "secret").unwrap();
    client.finish_login(200, Some(LoginResponse { access_token: "my.test.token".to_string() })).unwrap();
    assert_eq!(client.auth_header(), format!("Bearer {}", "my.test.token"));
}

#[test]
fn login_replaces_an_older_token() {
    let mut client = PlcClient::new("https://localhost:8443/api", "admin", "secret").unwrap();
    client.jwt_token = Some("old".to_string());
    client.finish_login(200, Some(LoginResponse { access_token: "new".to_string() })).unwrap();
    assert_eq!(client.auth_header(), "Bearer new");
}

#[test]
fn login_wrong_credentials_keeps_no_token() {
    let mut client = PlcClient::new("https://localhost:8443/api", "admin", "secret").unwrap();
    let result = client.finish_login(401, None);
    assert_eq!(result, Err(PlcError::HttpStatus(401)));
    assert!(client.jwt_token.is_none());
}

#[test]
fn refused_login_keeps_old_token() {
    let mut client = PlcClient::new("https://localhost:8443/api", "admin", "secret").unwrap();
    client.jwt_token = Some("kept".to_string());
    let result = client.finish_login(500, Some(LoginResponse { access_token: "ignored".to_string() }));
    assert_eq!(result, Err(PlcError::HttpStatus(500)));
    assert_eq!(client.jwt_token.as_deref(), Some("kept"));
    let result = client.finish_login(200, None);
    assert_eq!(result, Err(PlcError::MalformedResponse));
    assert_eq!(client.jwt_token.as_deref(), Some("kept"));
}

#[test]
fn client_from_failed_build_keeps_reason() {
    // Text that is no certificate makes reqwest report a builder error.
    let e = reqwest::Certificate::from_pem(b"not a certificate").err().expect("a builder error");
    let text = e.to_string();
    let r = PlcClient::client_from(Err(e), "https://localhost:8443/api", "admin", "secret");
    let err = r.err().unwrap();
    assert_eq!(err, PlcError::ClientSetup(text));
    assert_eq!(err.message(), "Failed to create PlcClient");
}

#[test]
fn client_from_built_client_takes_any_settings() {
    let http = build_http_client(false).unwrap();
    let c = PlcClient::client_from(Ok(http), "not a url", "", "").unwrap();
    assert_eq!(c.base_api_url, "not a url");
    assert_eq!(c.auth_username, "");
    assert_eq!(c.auth_password, "");
    assert!(c.jwt_token.is_none());
    assert_eq!(c.url("/status"), "not a url/status");
}
