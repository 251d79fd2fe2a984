use hackmd_api::client::{note_path, team_note_path, team_notes_path};
use hackmd_api::{ApiClient, ApiClientOptions, ApiError, RetryOptions};

#[test]
fn test_api_client_creation() {
    let client = ApiClient::new("test_token");
    assert!(client.is_ok());
}

#[test]
fn test_api_client_creation_empty_token() {
    let client = ApiClient::new("");
    assert!(client.is_err());

    if let Err(ApiError::MissingRequiredArgument(err)) = client {
        assert!(err.message.contains("Missing access token"));
    } else {
        panic!("Expected MissingRequiredArgument error");
    }
}

#[test]
fn test_api_client_with_base_url() {
    let client = ApiClient::with_base_url("test_token", "https://api.example.com/v1");
    assert!(client.is_ok());
}

#[test]
fn test_api_client_with_options() {
    let options = ApiClientOptions {
        wrap_response_errors: false,
        timeout_ms: Some(10_000),
        retry_options: None,
    };

    let client = ApiClient::with_options("test_token", None, Some(options));
    assert!(client.is_ok());
}

#[test]
fn empty_token_fails_whatever_the_configuration() {
    let options = ApiClientOptions {
        wrap_response_errors: true,
        timeout_ms: None,
        retry_options: Some(RetryOptions { max_retries: 9, base_delay_ms: 5 }),
    };
    let bad_url = ApiClient::with_options("", Some("not a url"), Some(options));
    assert!(matches!(bad_url, Err(ApiError::MissingRequiredArgument(_))));
    let good_url = ApiClient::with_base_url("", "https://api.example.com/v1");
    assert!(matches!(good_url, Err(ApiError::MissingRequiredArgument(_))));
}

#[test]
fn default_options_and_base_url() {
    let client = ApiClient::new("tok").unwrap();
    assert_eq!(client.base_url(), "https://api.hackmd.io/v1/");
    let o = *client.options();
    assert!(o.wrap_response_errors);
    assert_eq!(o.timeout_ms, Some(30_000));
    assert_eq!(o.retry_options, Some(RetryOptions { max_retries: 3, base_delay_ms: 100 }));
    assert_eq!(client.authorization().to_str().unwrap(), "Bearer tok");
    assert_eq!(client.authorization_text(), "Bearer tok");
}

#[test]
fn token_with_control_character_is_a_header_error() {
    let client = ApiClient::new("bad\ntoken");
    assert!(matches!(client, Err(ApiError::Header(_))));
    let del = ApiClient::new("bad\u{7f}token");
    assert!(matches!(del, Err(ApiError::Header(_))));
    let tab = ApiClient::new("tab\ttoken");
    assert!(tab.is_ok());
}

#[test]
fn unparsable_base_url_is_a_url_error() {
    let client = ApiClient::with_base_url("tok", "not a url");
    assert!(matches!(client, Err(ApiError::Url(_))));
}

#[test]
fn join_keeps_the_base_path() {
    let client = ApiClient::with_base_url("tok", "https://api.example.com/v1").unwrap();
    assert_eq!(
        client.endpoint_url("notes/abc123").unwrap(),
        "https://api.example.com/v1/notes/abc123"
    );
}

#[test]
fn join_on_base_with_trailing_slash() {
    let client = ApiClient::with_base_url("tok", "https://api.example.com/v1/").unwrap();
    assert_eq!(client.base_url(), "https://api.example.com/v1/");
    assert_eq!(
        client.endpoint_url("teams/t1/notes/n2").unwrap(),
        "https://api.example.com/v1/teams/t1/notes/n2"
    );
}

#[test]
fn join_with_bad_port_is_a_url_error() {
    let client = ApiClient::with_base_url("tok", "https://api.example.com/v1").unwrap();
    assert!(matches!(client.endpoint_url("http://h:99999/x"), Err(ApiError::Url(_))));
}

#[test]
fn endpoint_paths() {
    assert_eq!(note_path("abc123"), "notes/abc123");
    assert_eq!(team_notes_path("crew"), "teams/crew/notes");
    assert_eq!(team_note_path("crew", "n1"), "teams/crew/notes/n1");
}
