use api::error::LoginError;
use api::fields::{check_ascii_len, Email, Password, Timestamp, Username};
use api::model::{default_expiration, DbError, TOKEN_LIFETIME_SECONDS};
use api::text::trim;
use api::{sanitize_text, try_sanitize_text, ApiError};

#[test]
fn ascii_length_bounds() {
    assert!(check_ascii_len("abc", 3, 5));
    assert!(!check_ascii_len("ab", 3, 5));
    assert!(!check_ascii_len("abcdef", 3, 5));
    assert!(!check_ascii_len("abé", 3, 5));
    assert!(check_ascii_len("", 0, 0));
}

#[test]
fn username_rule() {
    assert!(Username::from_str("bob").validate());
    assert!(Username::from_str("alice").validate());
    assert!(!Username::from_str("al").validate());
    assert!(!Username::from_str("abcdefghijklmnopq").validate());
    assert!(Username::from_str("abcdefghijklmnop").validate());
}

#[test]
fn password_rule() {
    assert!(Password::from_str("password").validate());
    assert!(!Password::from_str("short").validate());
}

#[test]
fn email_rule_is_gardes() {
    assert!(Email::from_str("bob@email.com").validate());
    assert!(Email::from_str("email@email.com").validate());
    assert!(!Email::from_str("not-an-email").validate());
    assert!(!Email::from_str("").validate());
}

#[test]
fn trim_removes_unicode_whitespace() {
    assert_eq!(trim("  hi there \n\t"), "hi there");
    assert_eq!(trim("\u{3000}x\u{2028}"), "x");
    assert_eq!(trim("   "), "");
    assert_eq!(trim(""), "");
    assert_eq!(trim("a b"), "a b");
}

#[test]
fn trim_twice_is_trim_once() {
    let once = trim("  \u{a0}word  ");
    assert_eq!(trim(&once), once);
}

#[test]
fn sanitize_plain_text_is_trimmed() {
    assert_eq!(try_sanitize_text("  hello world  ").unwrap(), "hello world");
}

#[test]
fn sanitize_removes_tags_and_renders_italics() {
    assert_eq!(try_sanitize_text("<b>bold</b> and *slanted*").unwrap(), "bold and <i>slanted</i>");
}

#[test]
fn sanitize_links_urls() {
    let out = try_sanitize_text("see http://example.com now").unwrap();
    assert!(out.starts_with("see <a href=\"http://example.com\""));
    assert!(out.ends_with(">http://example.com</a> now"));
}

#[test]
fn sanitize_with_fixed_patterns() {
    assert_eq!(sanitize_text(" *a* "), "<i>a</i>");
    assert_eq!(sanitize_text("a\tb"), try_sanitize_text("a\tb").unwrap());
}

#[test]
fn sanitize_drops_script() {
    let out = try_sanitize_text("hi <script>alert(1)</script>").unwrap();
    assert!(!out.contains("<script"));
}

#[test]
fn error_messages() {
    assert_eq!(ApiError::OtherISE("boom".to_string()).message(), "Thor did a bad thing, ISE: boom");
    assert_eq!(ApiError::UnauthorizedPleaseLogin.message(), "Unauthorized: please log in");
    assert_eq!(ApiError::ForbiddenBanned.message(), "Unauthorized: User is banned");
    assert_eq!(
        ApiError::InvalidPayload("  username \n".to_string()).message(),
        "Invalid Payload: username"
    );
    assert_eq!(ApiError::DbEntryNotFound("alice".to_string()).message(), "Not Found: alice");
}

#[test]
fn error_status_codes() {
    assert_eq!(ApiError::UniqueViolation(String::new()).status_code(), 409);
    assert_eq!(ApiError::DbEntryNotFound(String::new()).status_code(), 404);
    assert_eq!(ApiError::BadRequest(String::new()).status_code(), 400);
    assert_eq!(ApiError::UnauthorizedPleaseLogin.status_code(), 401);
    assert_eq!(ApiError::UnauthorizedIncorrectPassword.status_code(), 401);
    assert_eq!(ApiError::ForbiddenBanned.status_code(), 403);
    assert_eq!(ApiError::ForbiddenUsernameDoesNotMatchSession.status_code(), 403);
    assert_eq!(ApiError::ForbiddenModeratorRequired.status_code(), 403);
    assert_eq!(ApiError::InvalidPayload(String::new()).status_code(), 422);
    assert_eq!(ApiError::OtherISE(String::new()).status_code(), 500);
    assert_eq!(ApiError::TaskJoin(String::new()).status_code(), 500);
}

#[test]
fn db_errors_convert() {
    assert!(matches!(ApiError::from(DbError::NotFound("x".into())), ApiError::DbEntryNotFound(m) if m == "x"));
    assert!(matches!(ApiError::from_db(DbError::UniqueViolation("u".into())), ApiError::UniqueViolation(m) if m == "u"));
    assert!(matches!(ApiError::from_db(DbError::Other("o".into())), ApiError::OtherDbError(m) if m == "o"));
}

#[test]
fn login_errors_convert() {
    assert!(matches!(ApiError::from_login_error(LoginError::Session), ApiError::OtherISE(m) if m == "Unknown axum_login session error"));
    assert!(matches!(
        ApiError::from_login_error(LoginError::Backend(ApiError::ForbiddenBanned)),
        ApiError::ForbiddenBanned
    ));
}

#[test]
fn expiration_is_a_week_and_saturates() {
    assert_eq!(default_expiration(Timestamp(1000)), Timestamp(1000 + TOKEN_LIFETIME_SECONDS));
    assert_eq!(default_expiration(Timestamp(i64::MAX - 5)), Timestamp(i64::MAX));
}
