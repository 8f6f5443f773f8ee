//! Exercises of request validation, pagination, configuration parsing and
//! the error taxonomy's HTTP mapping.

use authify_api::config::{parse_port, split_origins, AppConfig};
use authify_api::dto::{
    default_limit, validate_username, ApiResponse, CreatePostRequest, PaginationQuery,
    RegisterRequest, UserResponse,
};
use authify_api::error::{AppError, AuthError};
use authify_api::posts::{can_delete, validate_post_content};
use authify_api::users::User;

fn register_request(username: &str, display_name: &str, bio: Option<&str>) -> RegisterRequest {
    RegisterRequest {
        username: username.to_string(),
        display_name: display_name.to_string(),
        bio: bio.map(|b| b.to_string()),
    }
}

#[test]
fn username_characters() {
    assert!(validate_username("alice_42"));
    assert!(validate_username("ALICE"));
    assert!(!validate_username("alice!"));
    assert!(!validate_username("al ice"));
    assert!(!validate_username("café"));
}

#[test]
fn register_request_rules() {
    assert!(register_request("alice", "Alice", None).validate().is_ok());
    assert!(register_request("abc", "A", Some("bio")).validate().is_ok());

    let short = register_request("ab", "Alice", None).validate().unwrap_err();
    assert!(matches!(short, AppError::Validation(_)));
    let long = register_request(&"a".repeat(31), "Alice", None).validate().unwrap_err();
    assert!(matches!(long, AppError::Validation(_)));
    let bad_chars = register_request("ali ce", "Alice", None).validate().unwrap_err();
    assert!(matches!(bad_chars, AppError::Validation(_)));
    let no_display = register_request("alice", "", None).validate().unwrap_err();
    assert!(matches!(no_display, AppError::Validation(_)));
    let long_bio =
        register_request("alice", "Alice", Some(&"b".repeat(501))).validate().unwrap_err();
    assert!(matches!(long_bio, AppError::Validation(_)));
    assert!(register_request("alice", "Alice", Some(&"b".repeat(500))).validate().is_ok());
}

#[test]
fn post_request_rules() {
    assert!(CreatePostRequest { content: "hi".to_string() }.validate().is_ok());
    assert!(CreatePostRequest { content: "".to_string() }.validate().is_err());
    assert!(CreatePostRequest { content: "x".repeat(280) }.validate().is_ok());
    assert!(CreatePostRequest { content: "x".repeat(281) }.validate().is_err());
}

#[test]
fn post_content_is_trimmed() {
    assert_eq!(validate_post_content("  hello world  ").unwrap(), "hello world");
    let empty = validate_post_content("   ").unwrap_err();
    assert!(matches!(empty, AppError::Validation(_)));
    let long = validate_post_content(&"x".repeat(281)).unwrap_err();
    assert!(matches!(long, AppError::Validation(_)));
    assert_eq!(validate_post_content(&"x".repeat(280)).unwrap().len(), 280);
}

#[test]
fn delete_requires_ownership() {
    assert!(can_delete(&"u1".to_string(), &"u1".to_string()).is_ok());
    let err = can_delete(&"u1".to_string(), &"u2".to_string()).unwrap_err();
    assert!(matches!(err, AppError::Forbidden(_)));
}

#[test]
fn pagination_clamping() {
    assert_eq!(default_limit(), 20);
    assert_eq!(PaginationQuery { limit: 0, offset: -3 }.clamped_limit(), 1);
    assert_eq!(PaginationQuery { limit: 0, offset: -3 }.clamped_offset(), 0);
    assert_eq!(PaginationQuery { limit: 999, offset: 7 }.clamped_limit(), 50);
    assert_eq!(PaginationQuery { limit: 999, offset: 7 }.clamped_offset(), 7);
    assert_eq!(PaginationQuery { limit: 20, offset: 0 }.clamped_limit(), 20);
}

#[test]
fn port_parsing() {
    assert_eq!(parse_port("8081"), Some(8081));
    assert_eq!(parse_port("+80"), Some(80));
    assert_eq!(parse_port("0"), Some(0));
    assert_eq!(parse_port("65535"), Some(65535));
    assert_eq!(parse_port("65536"), None);
    assert_eq!(parse_port("99999999999999999999"), None);
    assert_eq!(parse_port(""), None);
    assert_eq!(parse_port("+"), None);
    assert_eq!(parse_port("80a"), None);
    assert_eq!(parse_port("-1"), None);
}

#[test]
fn origins_splitting() {
    assert_eq!(
        split_origins(" http://localhost:3000 , https://app.example.com"),
        vec!["http://localhost:3000".to_string(), "https://app.example.com".to_string()]
    );
    assert_eq!(split_origins("a,,b"), vec!["a".to_string(), "".to_string(), "b".to_string()]);
    assert_eq!(split_origins(""), vec!["".to_string()]);
}

#[test]
fn config_from_values() {
    let config = AppConfig::from_values(
        Some("9000".to_string()),
        Some("http://a.example, http://b.example".to_string()),
        Some("proj1".to_string()),
        Some("/secrets/svc.json".to_string()),
    )
    .unwrap();
    assert_eq!(config.port, 9000);
    assert_eq!(
        config.allowed_origins,
        vec!["http://a.example".to_string(), "http://b.example".to_string()]
    );
    assert_eq!(config.firebase_project_id, "proj1");
    assert_eq!(config.google_credentials_path, "/secrets/svc.json");
}

#[test]
fn config_defaults_and_failures() {
    let config = AppConfig::from_values(
        None,
        None,
        Some("proj1".to_string()),
        Some("/secrets/svc.json".to_string()),
    )
    .unwrap();
    assert_eq!(config.port, 8081);
    assert_eq!(config.allowed_origins, vec!["http://localhost:3000".to_string()]);

    let bad_port = AppConfig::from_values(
        Some("eighty".to_string()),
        None,
        Some("proj1".to_string()),
        Some("/x".to_string()),
    )
    .unwrap_err();
    assert!(matches!(bad_port, AppError::Validation(_)));

    let no_project =
        AppConfig::from_values(None, None, None, Some("/x".to_string())).unwrap_err();
    assert!(matches!(no_project, AppError::Validation(_)));

    let no_creds =
        AppConfig::from_values(None, None, Some("proj1".to_string()), None).unwrap_err();
    assert!(matches!(no_creds, AppError::Validation(_)));
}

#[test]
fn user_response_renders_the_creation_time() {
    let user = User::new(
        "u1".to_string(),
        "u1@example.com".to_string(),
        "alice".to_string(),
        "Alice".to_string(),
        0,
    );
    let response = UserResponse::from_user(user);
    assert_eq!(response.created_at, "1970-01-01T00:00:00+00:00");
    assert_eq!(response.uid, "u1");
    assert_eq!(response.username, "alice");
    assert_eq!(response.followers_count, 0);
}

#[test]
fn api_response_envelopes() {
    let ok = ApiResponse::success(41u32);
    assert!(ok.success);
    assert_eq!(ok.data, Some(41));
    assert!(ok.message.is_none());

    let with_message = ApiResponse::with_message("data", "Profile created");
    assert!(with_message.success);
    assert_eq!(with_message.data, Some("data"));
    assert_eq!(with_message.message.as_deref(), Some("Profile created"));
}

#[test]
fn error_status_codes() {
    assert_eq!(AppError::Unauthorized("x".to_string()).http_status(), 401);
    assert_eq!(AppError::Forbidden("x".to_string()).http_status(), 403);
    assert_eq!(AppError::NotFound("x".to_string()).http_status(), 404);
    assert_eq!(AppError::Validation("x".to_string()).http_status(), 400);
    assert_eq!(AppError::Conflict("x".to_string()).http_status(), 409);
    assert_eq!(AppError::Internal("x".to_string()).http_status(), 500);
    assert_eq!(AppError::Firebase("x".to_string()).http_status(), 500);
}

#[test]
fn error_codes_and_messages() {
    assert_eq!(AppError::Unauthorized("no".to_string()).error_code(), "UNAUTHORIZED");
    assert_eq!(AppError::Validation("bad".to_string()).error_code(), "VALIDATION_ERROR");
    assert_eq!(AppError::Unauthorized("no".to_string()).client_message(), "no");
    // Internal details are never disclosed verbatim.
    assert_eq!(
        AppError::Internal("db exploded".to_string()).client_message(),
        "An internal error occurred"
    );
    assert_eq!(
        AppError::Firebase("cert fetch failed".to_string()).client_message(),
        "Authentication service error"
    );
}

#[test]
fn auth_errors_fold_to_unauthorized() {
    let unauthorized = AuthError::Expired.to_app_error();
    assert!(matches!(unauthorized, AppError::Unauthorized(_)));
    assert_eq!(unauthorized.http_status(), 401);
    let provider = AuthError::KeyProviderUnavailable.to_app_error();
    assert!(matches!(provider, AppError::Firebase(_)));
    assert_eq!(provider.http_status(), 500);
}

#[test]
fn verifier_config_for_project() {
    let config = authify_api::token::VerifierConfig::for_project("proj1", 60);
    assert_eq!(config.audience, "proj1");
    assert_eq!(config.issuer, "https://securetoken.google.com/proj1");
    assert_eq!(config.skew_secs, 60);
}

#[test]
fn fresh_posts_start_at_zero() {
    let post = authify_api::posts::Post::new("u1".to_string(), "hello".to_string(), 1700000000);
    assert_eq!(post.id.len(), 36);
    assert_eq!(post.author_uid, "u1");
    assert_eq!(post.content, "hello");
    assert_eq!(post.likes_count, 0);
    assert_eq!(post.replies_count, 0);
    assert_eq!(post.reposts_count, 0);
    assert_eq!(post.created_at, 1700000000);
    assert_eq!(post.updated_at, 1700000000);
    assert!(post.parent_id.is_none());

    let reply = authify_api::posts::Post::reply(
        "u2".to_string(),
        "hi back".to_string(),
        post.id.clone(),
        1700000001,
    );
    assert_eq!(reply.parent_id.as_deref(), Some(post.id.as_str()));
    assert_eq!(reply.id.len(), 36);
}

#[test]
fn make_post_trims_and_validates() {
    let post =
        authify_api::posts::make_post("u1".to_string(), "  hello  ", 1700000000).unwrap();
    assert_eq!(post.content, "hello");
    let err = authify_api::posts::make_post("u1".to_string(), "   ", 1700000000).unwrap_err();
    assert!(matches!(err, AppError::Validation(_)));
    let reply = authify_api::posts::make_reply(
        "u2".to_string(),
        " re ",
        post.id.clone(),
        1700000001,
    )
    .unwrap();
    assert_eq!(reply.content, "re");
    assert_eq!(reply.parent_id.as_deref(), Some(post.id.as_str()));
}

#[test]
fn posts_are_presented_in_order() {
    let first = authify_api::posts::Post::new("u1".to_string(), "first".to_string(), 0);
    let second = authify_api::posts::Post::new("u2".to_string(), "second".to_string(), 86400);
    let single = authify_api::posts::PostResponse::from_post(
        authify_api::posts::Post::new("u3".to_string(), "solo".to_string(), 0),
    );
    assert_eq!(single.created_at, "1970-01-01T00:00:00+00:00");

    let page = authify_api::posts::PostsListResponse::from_posts(vec![first, second]);
    assert_eq!(page.count, 2);
    assert_eq!(page.posts.len(), 2);
    assert_eq!(page.posts[0].content, "first");
    assert_eq!(page.posts[1].content, "second");
    assert_eq!(page.posts[1].created_at, "1970-01-02T00:00:00+00:00");
}
