use api::auth::{form_login_finish, form_login_step, form_logout_response, login_outcome, FormLoginStep, FormResponse};
use api::error::LoginError;
use api::users::delete_user_request;
use api::users::{adjust_karma, KARMA_PER_SUBMISSION};
use api::auth::{authenticate_password, login_retry_url, logout_redirect, redirect_after_login};
use api::fields::{About, Email, Password, PasswordHash, Timestamp, Username};
use api::model::{default_expiration, User, INITIAL_KARMA};
use api::users::{
    authenticate_response, change_password_check, get_user_response, password_reset_request,
    update_user_request, RESET_PASSWORD_TOKEN_PLACEHOLDER,
};
use api::{
    assert_authenticated, ApiError, AuthSession, AuthUserResponseInternal, AuthenticateUserResponse,
    ChangePasswordPayload, CreateUserPayload, CreateUserResponse, CredentialsPayload,
    GetUserResponse, OAuthCreds, UserAuthWrapper, UserPayload, UserResponse, UserUpdatePayload,
    UserWrapper,
};

fn user(name: &str, banned: bool, karma: i32) -> User {
    let mut u = User::new(
        Username::from_str(name),
        PasswordHash("hash".to_string()),
        Some(Email::from_str("a@b.com")),
        Some(About::from_str("hi")),
        Timestamp(100),
    );
    u.banned = banned;
    u.karma = karma;
    u
}

#[test]
fn create_user_payload_validation() {
    let p = CreateUserPayload::new("alice", "password", Some("email@email.com"), None).unwrap();
    assert_eq!(p.username.0, "alice");
    assert!(p.about.is_none());
    assert!(matches!(
        CreateUserPayload::new("al", "password", None, None),
        Err(ApiError::InvalidPayload(m)) if m == "username"
    ));
    assert!(matches!(
        CreateUserPayload::new("alice", "pw", None, None),
        Err(ApiError::InvalidPayload(m)) if m == "password"
    ));
    assert!(matches!(
        CreateUserPayload::new("alice", "password", Some("nope"), None),
        Err(ApiError::InvalidPayload(m)) if m == "email"
    ));
}

#[test]
fn bob_is_a_valid_payload() {
    let bob = CreateUserPayload::bob();
    assert_eq!(bob.username.0, "bob");
    assert_eq!(bob.email.as_ref().unwrap().0, "bob@email.com");
    assert!(bob.validate().is_ok());
    let creds = CredentialsPayload::bob();
    assert_eq!(creds.username.0, "bob");
    assert_eq!(creds.password.0, "password");
    assert!(creds.next.is_none());
    assert!(creds.validate().is_ok());
}

#[test]
fn credentials_new_keeps_fields() {
    let c = CredentialsPayload::new("ferris", "hunter42", Some("/x".to_string()));
    assert_eq!(c.username.0, "ferris");
    assert_eq!(c.password.0, "hunter42");
    assert_eq!(c.next.as_deref(), Some("/x"));
    assert!(CredentialsPayload::default().validate().is_err());
}

#[test]
fn into_user_hashes_the_password() {
    let u = CreateUserPayload::new("alice", "password", Some("email@email.com"), Some("about"))
        .unwrap()
        .into_user();
    assert_eq!(u.username.0, "alice");
    assert_ne!(u.password_hash.0, "password");
    assert!(Password::from_str("password").hash_and_verify(&u.password_hash).is_ok());
    assert!(matches!(
        Password::from_str("wrong_password").hash_and_verify(&u.password_hash),
        Err(ApiError::UnauthorizedIncorrectPassword)
    ));
    assert_eq!(u.karma, INITIAL_KARMA);
    assert!(!u.banned && !u.is_moderator && u.auth_token.is_none());
}

#[test]
fn unparseable_hash_is_reported() {
    let p = Password::from_str("password");
    assert!(p.try_hash_and_verify(&PasswordHash("garbage".to_string())).is_none());
    assert!(!p.matches_hash(&PasswordHash("garbage".to_string())));
}

#[test]
fn password_login_checks_the_hash() {
    let mut u = user("alice", false, 1);
    u.password_hash = Password::from_str("password").hash();
    let ok = authenticate_password(Some(u.clone()), &Password::from_str("password"));
    assert_eq!(ok.unwrap().0.username.0, "alice");
    assert!(authenticate_password(Some(u), &Password::from_str("nope_nope")).is_none());
    assert!(authenticate_password(None, &Password::from_str("password")).is_none());
}

#[test]
fn update_payload_requires_a_field() {
    assert!(matches!(
        UserUpdatePayload::new(None, None, Some(true)),
        Err(ApiError::BadRequest(m)) if m == "email or about must be provided"
    ));
    let p = UserUpdatePayload::new(Some("email@email.com"), None, None).unwrap();
    assert_eq!(p.email.unwrap().0, "email@email.com");
    let d = UserUpdatePayload::default();
    assert_eq!(d.about.as_ref().unwrap().0, "about");
    assert_eq!(d.show_dead, Some(false));
}

#[test]
fn change_password_payload() {
    let d = ChangePasswordPayload::default();
    assert_eq!(d.username.0, "alice");
    assert_eq!(d.new_password.0, "new_password");
    assert!(d.validate().is_ok());
    let p = ChangePasswordPayload::new("alice", Some("new_password"), None, "password").unwrap();
    assert_eq!(p.current_password.unwrap().0, "new_password");
    assert!(matches!(
        ChangePasswordPayload::new("alice", Some("x"), None, "password"),
        Err(ApiError::InvalidPayload(m)) if m == "current_password"
    ));
}

#[test]
fn sessions() {
    let nobody = AuthSession { user: None };
    assert!(matches!(nobody.get_assert_user_from_session(), Err(ApiError::UnauthorizedPleaseLogin)));
    assert!(!nobody.am_authenticated_and_not_banned());
    assert!(matches!(assert_authenticated(&nobody), Err(ApiError::UnauthorizedPleaseLogin)));
    assert!(nobody.get_user_from_session().is_none());

    let banned = AuthSession { user: Some(user("carol", true, 5)) };
    assert!(matches!(banned.get_assert_user_from_session(), Err(ApiError::ForbiddenBanned)));
    assert!(!banned.am_authenticated_and_not_banned());
    assert!(assert_authenticated(&banned).is_ok());

    let alice = AuthSession { user: Some(user("alice", false, 5)) };
    assert_eq!(alice.get_assert_user_from_session().unwrap().username.0, "alice");
    assert!(alice.am_authenticated_and_not_banned());
    assert!(alice.get_assert_user_from_session_assert_match(&Username::from_str("alice")).is_ok());
    assert!(matches!(
        alice.get_assert_user_from_session_assert_match(&Username::from_str("bob")),
        Err(ApiError::ForbiddenUsernameDoesNotMatchSession)
    ));
    assert!(!alice.show_dead());
}

#[test]
fn auth_user_state() {
    let signed_in = AuthUserResponseInternal::new(user("alice", false, 10), true);
    assert!(signed_in.user_signed_in && signed_in.cookies_included && signed_in.show_downvote);
    assert_eq!(signed_in.username.unwrap().0, "alice");
    assert_eq!(signed_in.karma, Some(10));
    assert_eq!(signed_in.contains_email, Some(true));
    let low = AuthUserResponseInternal::new(user("alice", false, 9), true);
    assert!(!low.show_downvote);
    let out = AuthUserResponseInternal::new(user("alice", false, 10), false);
    assert!(!out.user_signed_in && out.username.is_none() && out.karma.is_none());
    assert!(AuthUserResponseInternal::new_unauthenticated(true).banned);
}

#[test]
fn profile_hides_private_fields_from_others() {
    let other = get_user_response(user("alice", false, 3), &AuthSession { user: Some(user("bob", false, 1)) });
    assert!(other.email.is_none() && other.show_dead.is_none() && !other.show_private_user_data);
    let own = get_user_response(user("alice", false, 3), &AuthSession { user: Some(user("alice", false, 3)) });
    assert_eq!(own.email.unwrap().0, "a@b.com");
    assert_eq!(own.show_dead, Some(false));
    assert!(own.show_private_user_data);
    let mut stored = user("alice", true, 3);
    stored.created = Timestamp(77);
    let public = get_user_response(stored, &AuthSession { user: None });
    assert_eq!((public.karma, public.banned, public.created), (3, true, Timestamp(77)));
    assert_eq!(public.about.unwrap().0, "hi");
    let direct = GetUserResponse::new(user("alice", false, 3), false);
    assert_eq!(direct.karma, 3);
    assert_eq!(direct.about.unwrap().0, "hi");
}

#[test]
fn authenticate_route() {
    assert!(matches!(authenticate_response(&AuthSession { user: None }), Err(ApiError::UnauthorizedPleaseLogin)));
    let r = authenticate_response(&AuthSession { user: Some(user("alice", false, 12)) }).unwrap();
    assert_eq!(r.username.0, "alice");
    assert!(r.contains_email);
    assert!(r.auth_user.user_signed_in);
    let a = AuthenticateUserResponse::new(user("dave", false, 2), false);
    assert!(!a.auth_user.user_signed_in);
}

#[test]
fn update_route() {
    let alice = AuthSession { user: Some(user("alice", false, 3)) };
    let ok = update_user_request(&alice, &UserUpdatePayload::default()).unwrap();
    assert_eq!(ok.username.0, "alice");
    let empty = UserUpdatePayload { email: None, about: None, show_dead: Some(true) };
    assert!(matches!(update_user_request(&alice, &empty), Err(ApiError::BadRequest(m)) if m == "about or email must be provided"));
    assert!(matches!(update_user_request(&AuthSession { user: None }, &empty), Err(ApiError::UnauthorizedPleaseLogin)));
}

#[test]
fn password_reset_route() {
    let (token, exp) = password_reset_request(&user("alice", false, 1), Timestamp(10)).unwrap();
    assert_eq!(token.0, RESET_PASSWORD_TOKEN_PLACEHOLDER);
    assert_eq!(exp, default_expiration(Timestamp(10)));
    let mut no_email = user("bob", false, 1);
    no_email.email = None;
    let e = password_reset_request(&no_email, Timestamp(10)).unwrap_err();
    assert!(matches!(&e, ApiError::DbEntryNotFound(m) if m == "No email stored for user"));
    assert_eq!(e.status_code(), 404);
}

#[test]
fn change_password_route() {
    let mut u = user("alice", false, 1);
    u.password_hash = Password::from_str("password").hash();
    let new_hash = change_password_check(&ChangePasswordPayload::default(), &u).unwrap();
    assert!(Password::from_str("new_password").matches_hash(&new_hash));
    assert!(!Password::from_str("password").matches_hash(&new_hash));
    // Changing back with the new password, as a second request would.
    u.password_hash = new_hash;
    let back = ChangePasswordPayload::new("alice", Some("new_password"), None, "password").unwrap();
    let again = change_password_check(&back, &u).unwrap();
    assert!(Password::from_str("password").matches_hash(&again));
    let wrong = ChangePasswordPayload::new("alice", Some("not_the_password"), None, "x_password").unwrap();
    assert!(matches!(change_password_check(&wrong, &u), Err(ApiError::UnauthorizedIncorrectPassword)));
}

#[test]
fn create_user_responses() {
    let r = CreateUserResponse::from(user("alice", false, 1), Timestamp(50));
    assert_eq!(r.username.0, "alice");
    assert_eq!(r.auth_token.0, "");
    assert_eq!(r.auth_token_expiration_timestamp, default_expiration(Timestamp(50)));
    let mut u = user("bob", false, 1);
    u.auth_token = Some(api::fields::AuthToken::from_str("tok"));
    u.auth_token_expiration = Some(Timestamp(7));
    let r = UserResponse::from(u.clone());
    assert!(r.success);
    assert_eq!(r.auth_token.0, "tok");
    assert_eq!(r.auth_token_expiration_timestamp, Timestamp(7));
    let c = CreateUserResponse::new(u, api::fields::AuthToken::from_str("t2"), Timestamp(9));
    assert_eq!(c.auth_token.0, "t2");
}

#[test]
fn session_wrappers() {
    let mut u = user("alice", false, 1);
    u.auth_token = Some(api::fields::AuthToken::from_str("abc"));
    let w = UserAuthWrapper::from(u.clone());
    assert_eq!(w.id().0, "alice");
    assert_eq!(w.session_auth_hash(), b"abc");
    let w2 = UserWrapper(u);
    assert_eq!(w2.session_auth_hash(), b"hash");
}

#[test]
fn redirects() {
    assert_eq!(redirect_after_login(&None), "/");
    assert_eq!(redirect_after_login(&Some("/items".to_string())), "/items");
    assert_eq!(login_retry_url(&None), "/login");
    assert_eq!(login_retry_url(&Some("/items".to_string())), "/login?next=/items");
    assert_eq!(logout_redirect(), "/login");
}

#[test]
fn oauth_csrf() {
    let ok = OAuthCreds { code: "c".into(), old_state: "s".into(), new_state: "s".into() };
    assert!(ok.csrf_state_untampered());
    let bad = OAuthCreds { code: "c".into(), old_state: "s".into(), new_state: "t".into() };
    assert!(!bad.csrf_state_untampered());
}

#[test]
fn legacy_user_payload() {
    let p = UserPayload {
        username: "alice".into(),
        password: "password".into(),
        email: "email@email.com".into(),
        about: None,
    };
    let u = p.try_into_user(Timestamp(3)).unwrap();
    assert_eq!(u.username.0, "alice");
    assert_eq!(u.created, Timestamp(3));
}

#[test]
fn username_path_parameter_is_validated() {
    assert!(api::users::validate_username(&Username::from_str("alice")).is_ok());
    assert!(matches!(
        api::users::validate_username(&Username::from_str("al")),
        Err(ApiError::InvalidPayload(m)) if m == "username"
    ));
    assert!(matches!(
        api::users::validate_username(&Username::from_str("seventeen_chars_x")),
        Err(ApiError::InvalidPayload(m)) if m == "username"
    ));
}

#[test]
fn password_change_changes_the_session_hash() {
    let mut before = user("alice", false, 1);
    before.password_hash = PasswordHash("hash-one".to_string());
    let mut after = user("alice", false, 1);
    after.password_hash = PasswordHash("hash-two".to_string());
    let a = UserWrapper(before);
    let b = UserWrapper(after);
    assert_eq!(a.session_auth_hash(), b"hash-one");
    assert_ne!(a.session_auth_hash(), b.session_auth_hash());
    assert_eq!(a.id().0, "alice");
}

#[test]
fn karma_adjustments() {
    assert_eq!(adjust_karma(5, KARMA_PER_SUBMISSION), 6);
    assert_eq!(adjust_karma(5, -2), 3);
    assert_eq!(adjust_karma(i32::MAX, 1), i32::MAX);
    assert_eq!(adjust_karma(i32::MIN, -1), i32::MIN);
}

#[test]
fn deleting_a_user() {
    let alice = AuthSession { user: Some(user("alice", false, 1)) };
    assert_eq!(delete_user_request(&alice, &Username::from_str("alice")).unwrap().0, "alice");
    assert!(matches!(
        delete_user_request(&alice, &Username::from_str("bob")),
        Err(ApiError::ForbiddenUsernameDoesNotMatchSession)
    ));
    assert!(matches!(
        delete_user_request(&AuthSession { user: None }, &Username::from_str("alice")),
        Err(ApiError::UnauthorizedPleaseLogin)
    ));
}

#[test]
fn login_outcomes() {
    let u = UserWrapper(user("alice", false, 1));
    assert_eq!(login_outcome(Ok(Some(u.clone()))).unwrap().0.username.0, "alice");
    assert!(matches!(login_outcome(Ok(None)), Err(ApiError::UnauthorizedIncorrectPassword)));
    let e = login_outcome(Err(LoginError::Session)).unwrap_err();
    assert_eq!(e.status_code(), 500);
    assert!(matches!(
        login_outcome(Err(LoginError::Backend(ApiError::UnauthorizedPleaseLogin))),
        Err(ApiError::UnauthorizedPleaseLogin)
    ));
    let next = Some("/items".to_string());
    assert!(matches!(form_login_step(Ok(Some(u)), &next), FormLoginStep::LogIn(_)));
    match form_login_step(Ok(None), &next) {
        FormLoginStep::Respond(FormResponse::Redirect(l)) => assert_eq!(l, "/login?next=/items"),
        _ => panic!("expected a redirect"),
    }
    match form_login_step(Err(LoginError::Session), &None) {
        FormLoginStep::Respond(f) => assert_eq!(f.status_code(), 500),
        _ => panic!("expected an error answer"),
    }
    match form_login_finish(true, &None) {
        FormResponse::Redirect(l) => assert_eq!(l, "/"),
        _ => panic!("expected a redirect"),
    }
    assert_eq!(form_login_finish(false, &next).status_code(), 500);
    assert_eq!(form_logout_response(false).status_code(), 500);
    assert!(matches!(form_logout_response(true), FormResponse::Redirect(l) if l == "/login"));
}

#[test]
fn hashes_are_salted_and_specific() {
    let p = Password::from_str("password");
    let h1 = p.hash();
    let h2 = p.hash();
    assert_ne!(h1.0, h2.0);
    assert_ne!(h1.0, p.0);
    assert!(p.hash_and_verify(&h1).is_ok() && p.hash_and_verify(&h2).is_ok());
    assert!(matches!(
        Password::from_str("passwore").hash_and_verify(&h1),
        Err(ApiError::UnauthorizedIncorrectPassword)
    ));
}

#[test]
fn authenticate_reports_the_whole_account() {
    let mut u = user("alice", false, 42);
    u.is_moderator = true;
    u.show_dead = true;
    let r = authenticate_response(&AuthSession { user: Some(u) }).unwrap();
    assert_eq!((r.karma, r.banned, r.is_moderator, r.show_dead, r.contains_email), (42, false, true, true, true));
    assert!(matches!(
        authenticate_response(&AuthSession { user: Some(user("bob", true, 1)) }),
        Err(ApiError::ForbiddenBanned)
    ));
}
