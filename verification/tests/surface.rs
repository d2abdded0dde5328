//! The pieces around the core — code generation, URL validation, bearer
//! authorization, configuration defaults — and the full scenario a client
//! walks through.

use swiftlink::api::CreateLinkRequest;
use swiftlink::auth::check_bearer;
use swiftlink::codes::generate_random_code;
use swiftlink::config::{default_database_type, Config, DatabaseType};
use swiftlink::errors::{AuthError, CreateError, DeleteOutcome};
use swiftlink::registry::{create_with_code, delete_link, get_link_info, resolve_url};
use swiftlink::store::MemStore;
use swiftlink::strutil::str_eq;
use swiftlink::urlcheck::validate_url;

#[test]
fn generated_codes_have_the_asked_length_and_alphabet() {
    for len in [0usize, 1, 6, 10, 32] {
        let code = generate_random_code(len);
        assert_eq!(code.len(), len);
        assert!(code.chars().all(|c| c.is_ascii_alphanumeric()));
    }
}

#[test]
fn valid_urls_pass_validation() {
    assert!(validate_url("https://example.com/a").is_ok());
    assert!(validate_url("http://127.0.0.1:8080/x?q=1").is_ok());
    assert!(validate_url("ftp://rms@example.com").is_ok());
}

#[test]
fn malformed_or_hostless_urls_fail_validation() {
    assert_eq!(validate_url("not a url").unwrap_err(), CreateError::InvalidUrl);
    assert_eq!(validate_url("").unwrap_err(), CreateError::InvalidUrl);
    assert_eq!(validate_url("example.com/a").unwrap_err(), CreateError::InvalidUrl);
    assert_eq!(validate_url("mailto:someone@example.com").unwrap_err(), CreateError::InvalidUrl);
    assert_eq!(validate_url("data:text/plain,hi").unwrap_err(), CreateError::InvalidUrl);
}

#[test]
fn bearer_header_must_carry_the_exact_token() {
    assert!(check_bearer("Bearer sekrit", "sekrit"));
    assert!(!check_bearer("Bearer wrong", "sekrit"));
    assert!(!check_bearer("Bearer sekrit ", "sekrit"));
    assert!(!check_bearer("bearer sekrit", "sekrit"));
    assert!(!check_bearer("sekrit", "sekrit"));
    assert!(!check_bearer("Bearer", "sekrit"));
    assert!(!check_bearer("", "sekrit"));
}

#[test]
fn str_eq_is_plain_equality() {
    assert!(str_eq("abc", "abc"));
    assert!(!str_eq("abc", "abd"));
    assert!(!str_eq("abc", "abcd"));
    assert!(str_eq("", ""));
}

#[test]
fn configuration_defaults() {
    let c = Config::default();
    assert_eq!(c.base.code_size, Some(6));
    assert_eq!(c.base.port, Some(8080));
    assert!(c.base.bearer_token.is_none());
    assert_eq!(c.database.database_type, DatabaseType::Postgres);
    assert_eq!(c.database.username.as_deref(), Some("postgres"));
    assert_eq!(c.database.host.as_deref(), Some("localhost"));
    assert_eq!(c.database.port, Some(5432));
    assert_eq!(c.database.database.as_deref(), Some("swiftlink_db"));
    assert_eq!(c.database.max_connections, Some(5));
    assert_eq!(default_database_type(), DatabaseType::Postgres);
}

#[test]
fn effective_values_fill_absent_options() {
    let mut c = Config::default();
    c.base.code_size = None;
    c.base.port = None;
    c.database.port = None;
    c.database.host = None;
    c.database.database = None;
    c.database.max_connections = None;
    assert_eq!(c.effective_code_size(), 6);
    assert_eq!(c.effective_port(), 8080);
    assert_eq!(c.effective_db_port(), 5432);
    assert_eq!(c.effective_host(), "localhost");
    assert_eq!(c.effective_database(), "swiftlink_db");
    assert_eq!(c.effective_max_connections(), 5);
    c.base.code_size = Some(8);
    c.database.host = Some("db.internal".to_string());
    assert_eq!(c.effective_code_size(), 8);
    assert_eq!(c.effective_host(), "db.internal");
}

#[test]
fn a_client_walks_the_whole_surface() {
    let mut store = MemStore::new();
    let token = "0123456789";

    // Create, then create again: the same code, no second row.
    let req = CreateLinkRequest { url: "https://example.com/a".to_string() };
    let first = create_with_code(&mut store, &req.url, "Ab12Cd", 1000).unwrap();
    assert_eq!(first.code, "Ab12Cd");
    let again = create_with_code(&mut store, "https://example.com/a", "Other1", 2000).unwrap();
    assert_eq!(again.code, "Ab12Cd");
    assert_eq!(store.len(), 1);

    // A malformed URL is refused.
    assert_eq!(
        create_with_code(&mut store, "not a url", "Cc55Dd", 3000).unwrap_err(),
        CreateError::InvalidUrl
    );

    // Redirecting the code finds the original URL.
    assert_eq!(resolve_url(&store, "Ab12Cd").unwrap(), "https://example.com/a");

    // Deleting with the wrong bearer token is refused and removes nothing.
    assert_eq!(
        delete_link(&mut store, "Ab12Cd", "Bearer wrongwrong", token).unwrap_err(),
        AuthError::Unauthorized
    );
    assert!(resolve_url(&store, "Ab12Cd").is_some());

    // Deleting with the right token removes the link; the code then misses.
    assert_eq!(
        delete_link(&mut store, "Ab12Cd", "Bearer 0123456789", token).unwrap(),
        DeleteOutcome::Deleted
    );
    assert!(resolve_url(&store, "Ab12Cd").is_none());
    assert!(get_link_info(&store, "Ab12Cd").is_none());
}
