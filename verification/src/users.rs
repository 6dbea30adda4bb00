//! User payloads, user responses, and the decisions of the user routes.

use vstd::prelude::*;
use vstd::string::*;

use crate::auth::AuthSession;
use crate::error::ApiError;
use crate::fields::{
    About, AuthToken, Email, Password, PasswordHash, ResetPasswordToken, Timestamp, Username,
};
use crate::model::{
    clone_about, clone_email, default_expiration, now, opt_view, spec_default_expiration, User,
    UserV,
};
use crate::password::{is_hash_of, MAX_PASSWORD_BYTES};
use crate::MINIMUM_KARMA_TO_DOWNVOTE;

verus! {

/// An `InvalidPayload` error whose report is `field`.
pub open spec fn is_invalid_field(e: ApiError, field: Seq<char>) -> bool {
    e matches ApiError::InvalidPayload(m) && m@ == field
}

fn invalid(field: &str) -> (e: ApiError)
    ensures
        is_invalid_field(e, field@),
{
    ApiError::InvalidPayload(String::from_str(field))
}

/// Validates a username taken from a request path: `InvalidPayload("username")`
/// when it is not a valid username.
pub fn validate_username(username: &Username) -> (r: Result<(), ApiError>)
    ensures
        r is Ok <==> Username::valid(username@),
        r matches Err(e) ==> is_invalid_field(e, "username"@),
{
    if username.validate() {
        Ok(())
    } else {
        Err(invalid("username"))
    }
}

/// Karma a user gains by submitting an item.
pub const KARMA_PER_SUBMISSION: i32 = 1;

/// `karma + delta`, held within the range of `i32`.
pub open spec fn spec_adjust_karma(karma: i32, delta: i32) -> i32 {
    if karma + delta > i32::MAX {
        i32::MAX
    } else if karma + delta < i32::MIN {
        i32::MIN
    } else {
        (karma + delta) as i32
    }
}

/// A user's karma after a change of `delta` (a submission, or a vote on one
/// of their items or comments), saturating at the bounds of `i32`.
pub fn adjust_karma(karma: i32, delta: i32) -> (r: i32)
    ensures
        r == spec_adjust_karma(karma, delta),
{
    match karma.checked_add(delta) {
        Some(k) => k,
        None => if delta > 0 {
            i32::MAX
        } else {
            i32::MIN
        },
    }
}

/// Decides a request to delete the account `username`: the caller must be
/// that logged-in, unbanned user (the errors of
/// `get_assert_user_from_session_assert_match`), and the name must be valid
/// (else `InvalidPayload("username")`); the account to delete is returned.
pub fn delete_user_request(session: &AuthSession, username: &Username) -> (r: Result<
    Username,
    ApiError,
>)
    ensures
        session.spec_assert_match(username@) matches Err(e) ==> r == Err::<Username, ApiError>(e),
        session.spec_assert_match(username@) is Ok && !Username::valid(username@) ==> (
        r matches Err(e) && is_invalid_field(e, "username"@)),
        session.spec_assert_match(username@) is Ok && Username::valid(username@) ==> (r matches Ok(
            u,
        ) && u@ == username@),
{
    match session.get_assert_user_from_session_assert_match(username) {
        Ok(_) => {},
        Err(e) => return Err(e),
    }
    match validate_username(username) {
        Ok(()) => Ok(username.clone()),
        Err(e) => Err(e),
    }
}

/// Whether an optional email is absent or valid.
pub open spec fn opt_email_valid(e: Option<Seq<char>>) -> bool {
    match e {
        Some(s) => Email::valid(s),
        None => true,
    }
}

/// Whether an optional about text is absent or valid.
pub open spec fn opt_about_valid(a: Option<Seq<char>>) -> bool {
    match a {
        Some(s) => About::valid(s),
        None => true,
    }
}

/// Whether an optional password is absent or valid.
pub open spec fn opt_password_valid(p: Option<Seq<char>>) -> bool {
    match p {
        Some(s) => Password::valid(s),
        None => true,
    }
}

/// Whether an optional reset token is absent or valid.
pub open spec fn opt_reset_token_valid(t: Option<Seq<char>>) -> bool {
    match t {
        Some(s) => ResetPasswordToken::valid(s),
        None => true,
    }
}

fn validate_opt_email(e: &Option<Email>) -> (ok: bool)
    ensures
        ok == opt_email_valid(opt_view(*e)),
{
    match e {
        Some(x) => x.validate(),
        None => true,
    }
}

fn validate_opt_about(a: &Option<About>) -> (ok: bool)
    ensures
        ok == opt_about_valid(opt_view(*a)),
{
    match a {
        Some(x) => x.validate(),
        None => true,
    }
}

fn validate_opt_password(p: &Option<Password>) -> (ok: bool)
    ensures
        ok == opt_password_valid(opt_view(*p)),
{
    match p {
        Some(x) => x.validate(),
        None => true,
    }
}

fn validate_opt_reset_token(t: &Option<ResetPasswordToken>) -> (ok: bool)
    ensures
        ok == opt_reset_token_valid(opt_view(*t)),
{
    match t {
        Some(x) => x.validate(),
        None => true,
    }
}

fn email_from(s: Option<&str>) -> (r: Option<Email>)
    ensures
        opt_view(r) == match s {
            Some(t) => Some(t@),
            None => None::<Seq<char>>,
        },
{
    match s {
        Some(t) => Some(Email::from_str(t)),
        None => None,
    }
}

fn about_from(s: Option<&str>) -> (r: Option<About>)
    ensures
        opt_view(r) == match s {
            Some(t) => Some(t@),
            None => None::<Seq<char>>,
        },
{
    match s {
        Some(t) => Some(About::from_str(t)),
        None => None,
    }
}

/// The view of an optional string slice.
pub open spec fn opt_str_view(s: Option<&str>) -> Option<Seq<char>> {
    match s {
        Some(t) => Some(t@),
        None => None,
    }
}

/// A new user's username, password, and optional email and about text.
#[derive(Debug)]
pub struct CreateUserPayload {
    pub username: Username,
    pub password: Password,
    pub email: Option<Email>,
    pub about: Option<About>,
}

/// The first invalid field of a new-user payload, in declaration order, or
/// `None` when all are valid.
pub open spec fn spec_create_user_first_invalid(
    username: Seq<char>,
    password: Seq<char>,
    email: Option<Seq<char>>,
    about: Option<Seq<char>>,
) -> Option<Seq<char>> {
    if !Username::valid(username) {
        Some("username"@)
    } else if !Password::valid(password) {
        Some("password"@)
    } else if !opt_email_valid(email) {
        Some("email"@)
    } else if !opt_about_valid(about) {
        Some("about"@)
    } else {
        None
    }
}

impl CreateUserPayload {
    pub open spec fn spec_first_invalid(&self) -> Option<Seq<char>> {
        spec_create_user_first_invalid(
            self.username@,
            self.password@,
            opt_view(self.email),
            opt_view(self.about),
        )
    }

    /// Validates every field; the error names the first invalid one.
    pub fn validate(&self) -> (r: Result<(), ApiError>)
        ensures
            r is Ok <==> self.spec_first_invalid() is None,
            r matches Err(e) ==> is_invalid_field(e, self.spec_first_invalid()->0),
    {
        if !self.username.validate() {
            return Err(invalid("username"));
        }
        if !self.password.validate() {
            return Err(invalid("password"));
        }
        if !validate_opt_email(&self.email) {
            return Err(invalid("email"));
        }
        if !validate_opt_about(&self.about) {
            return Err(invalid("about"));
        }
        Ok(())
    }

    /// Builds a payload from its parts and validates it.
    pub fn new(username: &str, password: &str, email: Option<&str>, about: Option<&str>) -> (r:
        Result<Self, ApiError>)
        ensures
            r is Ok <==> spec_create_user_first_invalid(
                username@,
                password@,
                opt_str_view(email),
                opt_str_view(about),
            ) is None,
            r matches Ok(p) ==> p.username@ == username@ && p.password@ == password@ && opt_view(
                p.email,
            ) == opt_str_view(email) && opt_view(p.about) == opt_str_view(about),
            r matches Err(e) ==> is_invalid_field(
                e,
                spec_create_user_first_invalid(
                    username@,
                    password@,
                    opt_str_view(email),
                    opt_str_view(about),
                )->0,
            ),
    {
        let payload = CreateUserPayload {
            username: Username::from_str(username),
            password: Password::from_str(password),
            email: email_from(email),
            about: about_from(about),
        };
        match payload.validate() {
            Ok(()) => Ok(payload),
            Err(e) => Err(e),
        }
    }
}

impl CreateUserPayload {
    /// The payload of the sample user "bob", with password "password", email
    /// "bob@email.com" and about text "about bob".
    pub fn bob() -> (r: Self)
        ensures
            r.username@ == "bob"@,
            r.password@ == "password"@,
            opt_view(r.email) == Some("bob@email.com"@),
            opt_view(r.about) == Some("about bob"@),
    {
        CreateUserPayload {
            username: Username::from_str("bob"),
            password: Password::from_str("password"),
            email: Some(Email::from_str("bob@email.com")),
            about: Some(About::from_str("about bob")),
        }
    }

    /// The user this payload creates, registered now: the password is stored
    /// as a fresh argon2 hash; the user starts with no tokens, starting karma,
    /// and no privileges.
    pub fn into_user(self) -> (r: User)
        requires
            vstd::utf8::encode_utf8(self.password@).len() <= MAX_PASSWORD_BYTES,
        ensures
            r@.username == self.username@,
            is_hash_of(r@.password_hash, self.password@),
            r@.email == opt_view(self.email),
            r@.about == opt_view(self.about),
            r@.auth_token is None,
            r@.auth_token_expiration is None,
            r@.reset_password_token is None,
            r@.reset_password_token_expiration is None,
            r@.karma == crate::model::INITIAL_KARMA,
            !r@.show_dead,
            !r@.is_moderator,
            !r@.banned,
    {
        let password_hash = self.password.hash();
        User::new(self.username, password_hash, self.email, self.about, now())
    }
}

/// A change to a user's email, about text, or dead-item preference.
#[derive(Debug)]
pub struct UserUpdatePayload {
    pub email: Option<Email>,
    pub about: Option<About>,
    pub show_dead: Option<bool>,
}

impl UserUpdatePayload {
    pub open spec fn spec_first_invalid(&self) -> Option<Seq<char>> {
        spec_update_first_invalid(opt_view(self.email), opt_view(self.about))
    }

    /// Validates the email and about text; the error names the first invalid one.
    pub fn validate(&self) -> (r: Result<(), ApiError>)
        ensures
            r is Ok <==> self.spec_first_invalid() is None,
            r matches Err(e) ==> is_invalid_field(e, self.spec_first_invalid()->0),
    {
        if !validate_opt_email(&self.email) {
            return Err(invalid("email"));
        }
        if !validate_opt_about(&self.about) {
            return Err(invalid("about"));
        }
        Ok(())
    }

    /// Builds and validates an update. At least one of email and about must be
    /// given, else `BadRequest`.
    pub fn new(email: Option<&str>, about: Option<&str>, show_dead: Option<bool>) -> (r: Result<
        Self,
        ApiError,
    >)
        ensures
            (email is None && about is None) ==> (r matches Err(ApiError::BadRequest(m)) && m@
                == "email or about must be provided"@),
            !(email is None && about is None) ==> (r is Ok <==> spec_update_first_invalid(
                opt_str_view(email),
                opt_str_view(about),
            ) is None),
            !(email is None && about is None) ==> (r matches Err(e) ==> is_invalid_field(
                e,
                spec_update_first_invalid(opt_str_view(email), opt_str_view(about))->0,
            )),
            r matches Ok(p) ==> opt_view(p.email) == opt_str_view(email) && opt_view(p.about)
                == opt_str_view(about) && p.show_dead == show_dead,
    {
        if email.is_none() && about.is_none() {
            return Err(ApiError::BadRequest(String::from_str("email or about must be provided")));
        }
        let payload = UserUpdatePayload { email: email_from(email), about: about_from(about), show_dead };
        match payload.validate() {
            Ok(()) => Ok(payload),
            Err(e) => Err(e),
        }
    }

    /// The sample update: email "email@email.com", about "about", dead items hidden.
    pub fn default() -> (r: Self)
        ensures
            opt_view(r.email) == Some("email@email.com"@),
            opt_view(r.about) == Some("about"@),
            r.show_dead == Some(false),
    {
        UserUpdatePayload {
            email: Some(Email::from_str("email@email.com")),
            about: Some(About::from_str("about")),
            show_dead: Some(false),
        }
    }
}

/// The first invalid field of an update, or `None`.
pub open spec fn spec_update_first_invalid(email: Option<Seq<char>>, about: Option<Seq<char>>) -> Option<Seq<char>> {
    if !opt_email_valid(email) {
        Some("email"@)
    } else if !opt_about_valid(about) {
        Some("about"@)
    } else {
        None
    }
}

/// A request to change a password, proven by the current password or a reset token.
#[derive(Debug)]
pub struct ChangePasswordPayload {
    pub username: Username,
    pub current_password: Option<Password>,
    pub reset_password_token: Option<ResetPasswordToken>,
    pub new_password: Password,
}

/// The first invalid field of a password change, or `None`.
pub open spec fn spec_change_password_first_invalid(
    username: Seq<char>,
    current_password: Option<Seq<char>>,
    reset_password_token: Option<Seq<char>>,
    new_password: Seq<char>,
) -> Option<Seq<char>> {
    if !Username::valid(username) {
        Some("username"@)
    } else if !opt_password_valid(current_password) {
        Some("current_password"@)
    } else if !opt_reset_token_valid(reset_password_token) {
        Some("reset_password_token"@)
    } else if !Password::valid(new_password) {
        Some("new_password"@)
    } else {
        None
    }
}

fn password_from(s: Option<&str>) -> (r: Option<Password>)
    ensures
        opt_view(r) == opt_str_view(s),
{
    match s {
        Some(t) => Some(Password::from_str(t)),
        None => None,
    }
}

fn reset_token_from(s: Option<&str>) -> (r: Option<ResetPasswordToken>)
    ensures
        opt_view(r) == opt_str_view(s),
{
    match s {
        Some(t) => Some(ResetPasswordToken::from_str(t)),
        None => None,
    }
}

impl ChangePasswordPayload {
    pub open spec fn spec_first_invalid(&self) -> Option<Seq<char>> {
        spec_change_password_first_invalid(
            self.username@,
            opt_view(self.current_password),
            opt_view(self.reset_password_token),
            self.new_password@,
        )
    }

    /// Validates every field; the error names the first invalid one.
    pub fn validate(&self) -> (r: Result<(), ApiError>)
        ensures
            r is Ok <==> self.spec_first_invalid() is None,
            r matches Err(e) ==> is_invalid_field(e, self.spec_first_invalid()->0),
    {
        if !self.username.validate() {
            return Err(invalid("username"));
        }
        if !validate_opt_password(&self.current_password) {
            return Err(invalid("current_password"));
        }
        if !validate_opt_reset_token(&self.reset_password_token) {
            return Err(invalid("reset_password_token"));
        }
        if !self.new_password.validate() {
            return Err(invalid("new_password"));
        }
        Ok(())
    }

    /// Builds and validates a password change.
    pub fn new(
        username: &str,
        current_password: Option<&str>,
        reset_password_token: Option<&str>,
        new_password: &str,
    ) -> (r: Result<Self, ApiError>)
        ensures
            r is Ok <==> spec_change_password_first_invalid(
                username@,
                opt_str_view(current_password),
                opt_str_view(reset_password_token),
                new_password@,
            ) is None,
            r matches Ok(p) ==> p.username@ == username@ && opt_view(p.current_password)
                == opt_str_view(current_password) && opt_view(p.reset_password_token)
                == opt_str_view(reset_password_token) && p.new_password@ == new_password@,
            r matches Err(e) ==> is_invalid_field(
                e,
                spec_change_password_first_invalid(
                    username@,
                    opt_str_view(current_password),
                    opt_str_view(reset_password_token),
                    new_password@,
                )->0,
            ),
    {
        let payload = ChangePasswordPayload {
            username: Username::from_str(username),
            current_password: password_from(current_password),
            reset_password_token: reset_token_from(reset_password_token),
            new_password: Password::from_str(new_password),
        };
        match payload.validate() {
            Ok(()) => Ok(payload),
            Err(e) => Err(e),
        }
    }

    /// The sample change: "alice" moves from "password" to "new_password".
    pub fn default() -> (r: Self)
        ensures
            r.username@ == "alice"@,
            opt_view(r.current_password) == Some("password"@),
            r.reset_password_token is None,
            r.new_password@ == "new_password"@,
    {
        ChangePasswordPayload {
            username: Username::from_str("alice"),
            current_password: Some(Password::from_str("password")),
            reset_password_token: None,
            new_password: Password::from_str("new_password"),
        }
    }
}

/// Login credentials, with where to go afterwards.
#[derive(Debug)]
pub struct CredentialsPayload {
    pub username: Username,
    pub password: Password,
    pub next: Option<String>,
}

impl CredentialsPayload {
    pub fn new(username: &str, password: &str, next: Option<String>) -> (r: Self)
        ensures
            r.username@ == username@,
            r.password@ == password@,
            r.next == next,
    {
        CredentialsPayload { username: Username::from_str(username), password: Password::from_str(password), next }
    }

    /// The sample credentials of "bob".
    pub fn bob() -> (r: Self)
        ensures
            r.username@ == "bob"@,
            r.password@ == "password"@,
            r.next is None,
    {
        Self::new("bob", "password", None)
    }

    /// Empty credentials.
    pub fn default() -> (r: Self)
        ensures
            r.username@ == Seq::<char>::empty(),
            r.password@ == Seq::<char>::empty(),
            r.next is None,
    {
        CredentialsPayload { username: Username(String::new()), password: Password(String::new()), next: None }
    }

    pub open spec fn spec_first_invalid(&self) -> Option<Seq<char>> {
        if !Username::valid(self.username@) {
            Some("username"@)
        } else if !Password::valid(self.password@) {
            Some("password"@)
        } else {
            None
        }
    }

    /// Validates the username and password; `next` is not checked.
    pub fn validate(&self) -> (r: Result<(), ApiError>)
        ensures
            r is Ok <==> self.spec_first_invalid() is None,
            r matches Err(e) ==> is_invalid_field(e, self.spec_first_invalid()->0),
    {
        if !self.username.validate() {
            return Err(invalid("username"));
        }
        if !self.password.validate() {
            return Err(invalid("password"));
        }
        Ok(())
    }
}

/// An unvalidated new-user record as first submitted.
#[derive(Debug)]
pub struct UserPayload {
    pub username: String,
    pub password: String,
    pub email: String,
    pub about: Option<String>,
}

impl UserPayload {
    /// The user this record describes, created at `created`. The password is
    /// passed through as given, without hashing, as the record format does.
    pub fn try_into_user(self, created: Timestamp) -> (r: Result<User, ApiError>)
        ensures
            r matches Ok(u) && u@.username == self.username@ && u@.password_hash
                == self.password@ && u@.email == Some(self.email@) && u@.about
                == crate::text::opt_string_view(self.about) && u@.created == created,
    {
        let about = match self.about {
            Some(a) => Some(About(a)),
            None => None,
        };
        Ok(User::new(Username(self.username), PasswordHash(self.password), Some(Email(self.email)), about, created))
    }
}

/// The authentication state reported alongside responses.
#[derive(Debug)]
pub struct AuthUserResponseInternal {
    pub user_signed_in: bool,
    pub username: Option<Username>,
    pub karma: Option<i32>,
    pub contains_email: Option<bool>,
    pub show_dead: bool,
    pub show_downvote: bool,
    pub is_moderator: Option<bool>,
    pub banned: bool,
    pub cookies_included: bool,
}

/// The abstract value of an authentication state.
pub struct AuthUserV {
    pub user_signed_in: bool,
    pub username: Option<Seq<char>>,
    pub karma: Option<i32>,
    pub contains_email: Option<bool>,
    pub show_dead: bool,
    pub show_downvote: bool,
    pub is_moderator: Option<bool>,
    pub banned: bool,
    pub cookies_included: bool,
}

impl View for AuthUserResponseInternal {
    type V = AuthUserV;

    open spec fn view(&self) -> AuthUserV {
        AuthUserV {
            user_signed_in: self.user_signed_in,
            username: opt_view(self.username),
            karma: self.karma,
            contains_email: self.contains_email,
            show_dead: self.show_dead,
            show_downvote: self.show_downvote,
            is_moderator: self.is_moderator,
            banned: self.banned,
            cookies_included: self.cookies_included,
        }
    }
}

/// The state of a visitor who is not signed in.
pub open spec fn spec_signed_out(banned: bool) -> AuthUserV {
    AuthUserV {
        user_signed_in: false,
        username: None,
        karma: None,
        contains_email: None,
        show_dead: false,
        show_downvote: false,
        is_moderator: None,
        banned,
        cookies_included: false,
    }
}

/// The authentication state of `user`: everything about them when
/// authenticated, the signed-out state otherwise.
pub open spec fn spec_auth_user(user: UserV, is_authenticated: bool) -> AuthUserV {
    if is_authenticated {
        AuthUserV {
            user_signed_in: true,
            username: Some(user.username),
            karma: Some(user.karma),
            contains_email: Some(user.email is Some),
            show_dead: user.show_dead,
            show_downvote: user.karma >= MINIMUM_KARMA_TO_DOWNVOTE,
            is_moderator: Some(user.is_moderator),
            banned: user.banned,
            cookies_included: true,
        }
    } else {
        spec_signed_out(false)
    }
}

/// The state reported for an authenticated user carries that user's own
/// name, karma and flags; for anyone else it carries nothing but the banned flag.
pub proof fn law_auth_user_reports_the_user(user: UserV, banned: bool)
    ensures
        spec_auth_user(user, true).user_signed_in,
        spec_auth_user(user, true).username == Some(user.username),
        spec_auth_user(user, true).karma == Some(user.karma),
        spec_auth_user(user, true).contains_email == Some(user.email is Some),
        spec_auth_user(user, true).show_dead == user.show_dead,
        spec_auth_user(user, true).show_downvote == (user.karma >= 10),
        spec_auth_user(user, true).is_moderator == Some(user.is_moderator),
        spec_auth_user(user, true).banned == user.banned,
        spec_auth_user(user, true).cookies_included,
        !spec_auth_user(user, false).user_signed_in,
        spec_auth_user(user, false).username is None,
        spec_auth_user(user, false).is_moderator is None,
        spec_signed_out(banned).banned == banned,
        !spec_signed_out(banned).user_signed_in,
        spec_signed_out(banned).karma is None,
{
}

impl AuthUserResponseInternal {
    pub fn new(user: User, is_authenticated: bool) -> (r: Self)
        ensures
            r@ == spec_auth_user(user@, is_authenticated),
            r.user_signed_in == is_authenticated,
            is_authenticated ==> {
                &&& r.username is Some && r.username->0@ == user.username@
                &&& r.karma == Some(user.karma)
                &&& r.contains_email == Some(user.email is Some)
                &&& r.show_dead == user.show_dead
                &&& r.show_downvote == (user.karma >= MINIMUM_KARMA_TO_DOWNVOTE)
                &&& r.is_moderator == Some(user.is_moderator)
                &&& r.banned == user.banned
                &&& r.cookies_included
            },
            !is_authenticated ==> {
                &&& r.username is None
                &&& r.karma is None
                &&& r.contains_email is None
                &&& !r.show_dead
                &&& !r.show_downvote
                &&& r.is_moderator is None
                &&& !r.banned
                &&& !r.cookies_included
            },
    {
        if is_authenticated {
            AuthUserResponseInternal {
                user_signed_in: true,
                username: Some(user.username.clone()),
                karma: Some(user.karma),
                contains_email: Some(user.email.is_some()),
                show_dead: user.show_dead,
                show_downvote: user.karma >= MINIMUM_KARMA_TO_DOWNVOTE,
                is_moderator: Some(user.is_moderator),
                banned: user.banned,
                cookies_included: true,
            }
        } else {
            Self::default()
        }
    }

    /// The state of a visitor who is not signed in, with the given banned flag.
    pub fn new_unauthenticated(banned: bool) -> (r: Self)
        ensures
            r@ == spec_signed_out(banned),
    {
        AuthUserResponseInternal {
            user_signed_in: false,
            username: None,
            karma: None,
            contains_email: None,
            show_dead: false,
            show_downvote: false,
            is_moderator: None,
            banned,
            cookies_included: false,
        }
    }

    /// The signed-out state.
    pub fn default() -> (r: Self)
        ensures
            r@ == spec_signed_out(false),
    {
        Self::new_unauthenticated(false)
    }
}

/// What creating a user returns: the username and its session token.
#[derive(Debug)]
pub struct CreateUserResponse {
    pub username: Username,
    pub auth_token: AuthToken,
    pub auth_token_expiration_timestamp: Timestamp,
}

impl CreateUserResponse {
    pub fn new(user: User, auth_token: AuthToken, auth_token_expiration: Timestamp) -> (r: Self)
        ensures
            r.username@ == user.username@,
            r.auth_token@ == auth_token@,
            r.auth_token_expiration_timestamp == auth_token_expiration,
    {
        CreateUserResponse {
            username: user.username,
            auth_token,
            auth_token_expiration_timestamp: auth_token_expiration,
        }
    }

    /// The response for a stored user at time `now`: its token, or the empty
    /// token; its token expiration, or the default expiration from `now`.
    pub fn from(user: User, now: Timestamp) -> (r: Self)
        ensures
            r.username@ == user.username@,
            r.auth_token@ == match user.auth_token {
                Some(t) => t@,
                None => Seq::<char>::empty(),
            },
            r.auth_token_expiration_timestamp == match user.auth_token_expiration {
                Some(t) => t,
                None => spec_default_expiration(now),
            },
    {
        let auth_token = match user.auth_token {
            Some(t) => t,
            None => AuthToken::empty(),
        };
        let exp = match user.auth_token_expiration {
            Some(t) => t,
            None => default_expiration(now),
        };
        CreateUserResponse {
            username: user.username,
            auth_token,
            auth_token_expiration_timestamp: exp,
        }
    }
}

/// A user's public profile, with private fields only for the user themself.
#[derive(Debug)]
pub struct GetUserResponse {
    pub username: Username,
    pub created: Timestamp,
    pub karma: i32,
    pub about: Option<About>,
    pub banned: bool,
    pub email: Option<Email>,
    pub show_dead: Option<bool>,
    pub show_private_user_data: bool,
    pub auth_user: AuthUserResponseInternal,
}

impl GetUserResponse {
    /// The profile of `user`; the email and dead-item preference are shown only
    /// when the caller is that user.
    pub fn new(user: User, is_authenticated: bool) -> (r: Self)
        ensures
            r.username@ == user@.username,
            r.created == user@.created,
            r.karma == user@.karma,
            opt_view(r.about) == user@.about,
            r.banned == user@.banned,
            opt_view(r.email) == (if is_authenticated { user@.email } else { None }),
            r.show_dead == (if is_authenticated { Some(user@.show_dead) } else { None }),
            r.show_private_user_data == is_authenticated,
            r.auth_user@ == spec_auth_user(user@, is_authenticated),
    {
        let auth_user = AuthUserResponseInternal::new(user.clone(), is_authenticated);
        let email = if is_authenticated {
            user.email
        } else {
            None
        };
        let show_dead = if is_authenticated {
            Some(user.show_dead)
        } else {
            None
        };
        GetUserResponse {
            username: user.username,
            created: user.created,
            karma: user.karma,
            about: user.about,
            banned: user.banned,
            email,
            show_dead,
            show_private_user_data: is_authenticated,
            auth_user,
        }
    }
}

/// What a user learns about their own account on authenticating.
#[derive(Debug)]
pub struct AuthenticateUserResponse {
    pub username: Username,
    pub banned: bool,
    pub karma: i32,
    pub contains_email: bool,
    pub show_dead: bool,
    pub is_moderator: bool,
    pub auth_user: AuthUserResponseInternal,
}

impl AuthenticateUserResponse {
    pub fn new(user: User, is_authenticated: bool) -> (r: Self)
        ensures
            r.username@ == user@.username,
            r.banned == user@.banned,
            r.karma == user@.karma,
            r.contains_email == user@.email is Some,
            r.show_dead == user@.show_dead,
            r.is_moderator == user@.is_moderator,
            r.auth_user@ == spec_auth_user(user@, is_authenticated),
    {
        let auth_user = AuthUserResponseInternal::new(user.clone(), is_authenticated);
        AuthenticateUserResponse {
            username: user.username,
            banned: user.banned,
            karma: user.karma,
            contains_email: user.email.is_some(),
            show_dead: user.show_dead,
            is_moderator: user.is_moderator,
            auth_user,
        }
    }
}

/// A successful login: the username and its session token.
#[derive(Debug)]
pub struct UserResponse {
    pub success: bool,
    pub username: Username,
    pub auth_token: AuthToken,
    pub auth_token_expiration_timestamp: Timestamp,
}

impl UserResponse {
    /// The login response of a user who holds a session token.
    pub fn from(user: User) -> (r: Self)
        requires
            user.auth_token is Some,
            user.auth_token_expiration is Some,
        ensures
            r.success,
            r.username@ == user.username@,
            r.auth_token@ == user.auth_token->0@,
            r.auth_token_expiration_timestamp == user.auth_token_expiration->0,
    {
        UserResponse {
            success: true,
            username: user.username,
            auth_token: user.auth_token.unwrap(),
            auth_token_expiration_timestamp: user.auth_token_expiration.unwrap(),
        }
    }
}

/// Whether the caller is logged in as the user named `username`.
pub open spec fn spec_is_session_user(session: AuthSession, username: Seq<char>) -> bool {
    session.user matches Some(u) && u.username@ == username
}

/// Whether the caller is logged in as `username`.
pub fn is_session_user(session: &AuthSession, username: &Username) -> (b: bool)
    ensures
        b == spec_is_session_user(*session, username@),
{
    match &session.user {
        Some(u) => u.username.same_as(username),
        None => false,
    }
}

/// The profile shown to the caller for a stored user: private fields only when
/// the caller is logged in as that user.
pub fn get_user_response(user: User, session: &AuthSession) -> (r: GetUserResponse)
    ensures
        r.username@ == user@.username,
        r.created == user@.created,
        r.karma == user@.karma,
        opt_view(r.about) == user@.about,
        r.banned == user@.banned,
        r.show_private_user_data == spec_is_session_user(*session, user@.username),
        opt_view(r.email) == (if spec_is_session_user(*session, user@.username) {
            user@.email
        } else {
            None
        }),
        r.show_dead == (if spec_is_session_user(*session, user@.username) {
            Some(user@.show_dead)
        } else {
            None
        }),
        r.auth_user@ == spec_auth_user(user@, spec_is_session_user(*session, user@.username)),
{
    let is_authenticated = is_session_user(session, &user.username);
    GetUserResponse::new(user, is_authenticated)
}

/// What the caller learns on authenticating: their own account, when a
/// logged-in unbanned user; the errors of `get_assert_user_from_session`.
pub fn authenticate_response(session: &AuthSession) -> (r: Result<AuthenticateUserResponse, ApiError>)
    ensures
        r is Ok <==> session.spec_assert_user() is Ok,
        r matches Err(e) ==> session.spec_assert_user() == Err::<UserV, ApiError>(e),
        r matches Ok(resp) ==> {
            let u = session.spec_assert_user()->Ok_0;
            &&& resp.username@ == u.username
            &&& resp.banned == u.banned
            &&& resp.karma == u.karma
            &&& resp.contains_email == u.email is Some
            &&& resp.show_dead == u.show_dead
            &&& resp.is_moderator == u.is_moderator
            &&& resp.auth_user@ == spec_auth_user(u, true)
        },
{
    let user = match session.get_assert_user_from_session() {
        Ok(u) => u,
        Err(e) => return Err(e),
    };
    Ok(AuthenticateUserResponse::new(user, true))
}

/// The change an accepted update makes: whose account, and the new about and
/// email values.
#[derive(Debug)]
pub struct UserUpdate {
    pub username: Username,
    pub about: Option<About>,
    pub email: Option<Email>,
}

/// Decides an update request: the caller must be a logged-in unbanned user,
/// the payload must validate, and it must carry an about text or an email
/// (else `BadRequest`).
pub fn update_user_request(session: &AuthSession, payload: &UserUpdatePayload) -> (r: Result<
    UserUpdate,
    ApiError,
>)
    ensures
        session.spec_assert_user() matches Err(e) ==> r == Err::<UserUpdate, ApiError>(e),
        (session.spec_assert_user() is Ok && payload.spec_first_invalid() is Some) ==> (
        r matches Err(e) && is_invalid_field(e, payload.spec_first_invalid()->0)),
        session.spec_assert_user() is Ok && payload.spec_first_invalid() is None
            && payload.about is None && payload.email is None ==> (r matches Err(
            ApiError::BadRequest(m),
        ) && m@ == "about or email must be provided"@),
        session.spec_assert_user() is Ok && payload.spec_first_invalid() is None && !(
        payload.about is None && payload.email is None) ==> r is Ok,
        r matches Ok(u) ==> session.spec_assert_user() is Ok && u.username@
            == session.spec_assert_user()->Ok_0.username && opt_view(u.about) == opt_view(
            payload.about,
        ) && opt_view(u.email) == opt_view(payload.email) && !(payload.about is None
            && payload.email is None) && payload.spec_first_invalid() is None,
{
    let user = match session.get_assert_user_from_session() {
        Ok(u) => u,
        Err(e) => return Err(e),
    };
    match payload.validate() {
        Ok(()) => {},
        Err(e) => return Err(e),
    }
    if payload.about.is_none() && payload.email.is_none() {
        return Err(ApiError::BadRequest(String::from_str("about or email must be provided")));
    }
    Ok(UserUpdate {
        username: user.username,
        about: clone_about(&payload.about),
        email: clone_email(&payload.email),
    })
}

/// The placeholder reset token stored until reset emails are sent.
pub const RESET_PASSWORD_TOKEN_PLACEHOLDER: &'static str = "create reset password token";

/// Decides a password-reset request for a stored user at time `now`: a user
/// without an email gets the not-found error "No email stored for user";
/// otherwise the reset token to store and its expiration.
pub fn password_reset_request(user: &User, now: Timestamp) -> (r: Result<
    (ResetPasswordToken, Timestamp),
    ApiError,
>)
    ensures
        user.email is None ==> (r matches Err(ApiError::DbEntryNotFound(m)) && m@
            == "No email stored for user"@),
        user.email is Some ==> (r matches Ok((t, exp)) && t@ == RESET_PASSWORD_TOKEN_PLACEHOLDER@
            && exp == spec_default_expiration(now)),
{
    if user.email.is_none() {
        return Err(ApiError::DbEntryNotFound(String::from_str("No email stored for user")));
    }
    Ok((ResetPasswordToken::from_str(RESET_PASSWORD_TOKEN_PLACEHOLDER), default_expiration(now)))
}

/// Decides a password change against the stored user: the current password
/// must be given and verify against the stored hash (else
/// `UnauthorizedIncorrectPassword`); the hash then stored is a fresh hash of the
/// new password.
pub fn change_password_check(payload: &ChangePasswordPayload, user: &User) -> (r: Result<
    PasswordHash,
    ApiError,
>)
    requires
        vstd::utf8::encode_utf8(payload.new_password@).len() <= MAX_PASSWORD_BYTES,
    ensures
        r is Ok <==> (payload.current_password matches Some(p) && is_hash_of(
            user.password_hash@,
            p@,
        )),
        r matches Ok(h) ==> is_hash_of(h@, payload.new_password@),
        r matches Err(e) ==> e == ApiError::UnauthorizedIncorrectPassword,
{
    match &payload.current_password {
        Some(p) => if p.matches_hash(&user.password_hash) {
            Ok(payload.new_password.hash())
        } else {
            Err(ApiError::UnauthorizedIncorrectPassword)
        },
        None => Err(ApiError::UnauthorizedIncorrectPassword),
    }
}

/// A new-user payload is accepted exactly when every field is valid (an
/// absent email or about text counts as valid), and a refusal names the first
/// invalid field in the order username, password, email, about.
pub proof fn law_create_user_validation(p: CreateUserPayload)
    ensures
        p.spec_first_invalid() is None <==> (Username::valid(p.username@) && Password::valid(
            p.password@,
        ) && (p.email matches Some(e) ==> Email::valid(e@)) && (p.about matches Some(a)
            ==> About::valid(a@))),
        !Username::valid(p.username@) ==> p.spec_first_invalid() == Some("username"@),
        Username::valid(p.username@) && !Password::valid(p.password@) ==> p.spec_first_invalid()
            == Some("password"@),
        Username::valid(p.username@) && Password::valid(p.password@) ==> (p.email matches Some(e)
            ==> (!Email::valid(e@) ==> p.spec_first_invalid() == Some("email"@))),
{
}

/// An update is accepted exactly when its email (if given) passes the email
/// rule and its about text (if given) is valid; an invalid email is reported
/// first, then an invalid about text.
pub proof fn law_update_validation(p: UserUpdatePayload)
    ensures
        p.spec_first_invalid() is None <==> ((p.email matches Some(e) ==> Email::valid(e@)) && (
        p.about matches Some(a) ==> About::valid(a@))),
        p.email matches Some(e) ==> (!Email::valid(e@) ==> p.spec_first_invalid() == Some(
            "email"@,
        )),
        (p.email matches Some(e) ==> Email::valid(e@)) ==> (p.about matches Some(a) ==> (
        !About::valid(a@) ==> p.spec_first_invalid() == Some("about"@))),
{
}

/// A password change is accepted exactly when the username and new password
/// are valid and the current password and reset token, where given, are valid;
/// a refusal names the first invalid field.
pub proof fn law_change_password_validation(p: ChangePasswordPayload)
    ensures
        p.spec_first_invalid() is None <==> (Username::valid(p.username@) && (
        p.current_password matches Some(c) ==> Password::valid(c@)) && (
        p.reset_password_token matches Some(t) ==> ResetPasswordToken::valid(t@))
            && Password::valid(p.new_password@)),
        !Username::valid(p.username@) ==> p.spec_first_invalid() == Some("username"@),
        p.spec_first_invalid() matches Some(f) ==> (f == "username"@ || f == "current_password"@
            || f == "reset_password_token"@ || f == "new_password"@),
{
}

/// Login credentials are accepted exactly when the username and password are
/// valid; an invalid username is reported before an invalid password.
pub proof fn law_credentials_validation(p: CredentialsPayload)
    ensures
        p.spec_first_invalid() is None <==> (Username::valid(p.username@) && Password::valid(
            p.password@,
        )),
        !Username::valid(p.username@) ==> p.spec_first_invalid() == Some("username"@),
        Username::valid(p.username@) && !Password::valid(p.password@) ==> p.spec_first_invalid()
            == Some("password"@),
{
}

} // verus!
