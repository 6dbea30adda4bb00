//! Session authentication: who is logged in, whether they may act, and the
//! password check behind a login.

use vstd::prelude::*;
use vstd::string::*;

use crate::error::{ApiError, LoginError};
use crate::fields::{Password, Username};
use crate::model::{opt_view, User, UserV};
use crate::password::is_hash_of;

verus! {

/// A result, with its success value taken by its view.
pub open spec fn result_view<T: View, E>(r: Result<T, E>) -> Result<T::V, E> {
    match r {
        Ok(t) => Ok(t@),
        Err(e) => Err(e),
    }
}

/// The authentication state of a request: the logged-in user, if any.
#[derive(Debug)]
pub struct AuthSession {
    pub user: Option<User>,
}

impl AuthSession {
    /// The session user, if one is logged in.
    pub fn get_user_from_session(&self) -> (r: Option<User>)
        ensures
            opt_view(r) == opt_view(self.user),
    {
        match &self.user {
            Some(u) => Some(u.clone()),
            None => None,
        }
    }

    /// The outcome of requiring a logged-in, unbanned user.
    pub open spec fn spec_assert_user(&self) -> Result<UserV, ApiError> {
        match self.user {
            None => Err(ApiError::UnauthorizedPleaseLogin),
            Some(u) => if u.banned {
                Err(ApiError::ForbiddenBanned)
            } else {
                Ok(u@)
            },
        }
    }

    /// The session user; `UnauthorizedPleaseLogin` when nobody is logged in,
    /// `ForbiddenBanned` when the user is banned.
    pub fn get_assert_user_from_session(&self) -> (r: Result<User, ApiError>)
        ensures
            result_view(r) == self.spec_assert_user(),
    {
        match &self.user {
            None => Err(ApiError::UnauthorizedPleaseLogin),
            Some(u) => if u.banned {
                Err(ApiError::ForbiddenBanned)
            } else {
                Ok(u.clone())
            },
        }
    }

    /// The outcome of requiring that the logged-in, unbanned user is `username`.
    pub open spec fn spec_assert_match(&self, username: Seq<char>) -> Result<UserV, ApiError> {
        match self.spec_assert_user() {
            Err(e) => Err(e),
            Ok(u) => if u.username == username {
                Ok(u)
            } else {
                Err(ApiError::ForbiddenUsernameDoesNotMatchSession)
            },
        }
    }

    /// The session user, who must be `username`; the errors of
    /// `get_assert_user_from_session`, then `ForbiddenUsernameDoesNotMatchSession`.
    pub fn get_assert_user_from_session_assert_match(&self, username: &Username) -> (r: Result<
        User,
        ApiError,
    >)
        ensures
            result_view(r) == self.spec_assert_match(username@),
    {
        let user = match self.get_assert_user_from_session() {
            Ok(u) => u,
            Err(e) => return Err(e),
        };
        if !user.username.same_as(username) {
            return Err(ApiError::ForbiddenUsernameDoesNotMatchSession);
        }
        Ok(user)
    }

    /// Whether dead items are shown: the session user's preference, and never
    /// for visitors who are not logged in.
    pub fn show_dead(&self) -> (b: bool)
        ensures
            b == (self.user matches Some(u) && u.show_dead),
    {
        match &self.user {
            Some(u) => u.show_dead,
            None => false,
        }
    }

    /// Whether someone is logged in and not banned.
    pub open spec fn spec_authenticated_and_not_banned(&self) -> bool {
        self.user matches Some(u) && !u.banned
    }

    pub fn am_authenticated_and_not_banned(&self) -> (b: bool)
        ensures
            b == self.spec_authenticated_and_not_banned(),
    {
        match &self.user {
            Some(u) => !u.banned,
            None => false,
        }
    }
}

/// Succeeds when someone is logged in; `UnauthorizedPleaseLogin` otherwise.
pub fn assert_authenticated(auth_session: &AuthSession) -> (r: Result<(), ApiError>)
    ensures
        r is Ok <==> auth_session.user is Some,
        r matches Err(e) ==> e == ApiError::UnauthorizedPleaseLogin,
{
    if auth_session.user.is_none() {
        return Err(ApiError::UnauthorizedPleaseLogin);
    }
    Ok(())
}

/// A logged-in user whose session is keyed by its authentication token. It
/// has no `Debug`, so that its token and password hash are not printed.
pub struct UserAuthWrapper(pub User);

impl UserAuthWrapper {
    pub fn from(user: User) -> (r: Self)
        ensures
            r.0@ == user@,
    {
        UserAuthWrapper(user)
    }

    /// The session id: the username.
    pub fn id(&self) -> (r: Username)
        ensures
            r@ == self.0.username@,
    {
        self.0.username.clone()
    }

    /// The bytes that validate the session: the user's authentication token.
    pub fn session_auth_hash(&self) -> (r: &[u8])
        requires
            self.0.auth_token is Some,
        ensures
            r@ == vstd::utf8::encode_utf8(self.0.auth_token->0@),
    {
        match &self.0.auth_token {
            Some(t) => t.0.as_str().as_bytes(),
            None => {
                assert(false);
                &[]
            },
        }
    }
}

/// A logged-in user whose session is keyed by its password hash, so that a
/// password change ends every session.
#[derive(Debug, Clone)]
pub struct UserWrapper(pub User);

impl UserWrapper {
    /// The session id: the username.
    pub fn id(&self) -> (r: Username)
        ensures
            r@ == self.0.username@,
    {
        self.0.username.clone()
    }

    /// The bytes that validate the session: the user's password hash.
    pub fn session_auth_hash(&self) -> (r: &[u8])
        ensures
            r@ == vstd::utf8::encode_utf8(self.0.password_hash@),
    {
        self.0.password_hash.0.as_str().as_bytes()
    }
}

/// Login credentials: a username, a password, and where to go afterwards.
#[derive(Debug)]
pub struct PasswordCreds {
    pub username: Username,
    pub password: Password,
    pub next: Option<String>,
}

impl PasswordCreds {
    pub fn new(username: &str, password: &str, next: Option<String>) -> (r: Self)
        ensures
            r.username@ == username@,
            r.password@ == password@,
            r.next == next,
    {
        PasswordCreds { username: Username::from_str(username), password: Password::from_str(password), next }
    }
}

/// The outcome of a password login, given the user stored under the
/// submitted username (if any): that user when the password verifies against
/// its stored hash, nobody otherwise.
pub open spec fn spec_authenticate(found: Option<UserV>, password: Seq<char>) -> Option<UserV> {
    match found {
        Some(u) => if is_hash_of(u.password_hash, password) {
            Some(u)
        } else {
            None
        },
        None => None,
    }
}

/// Checks a password login against the stored user.
pub fn authenticate_password(found: Option<User>, password: &Password) -> (r: Option<UserWrapper>)
    ensures
        opt_view(match r {
            Some(w) => Some(w.0),
            None => None,
        }) == spec_authenticate(opt_view(found), password@),
{
    match found {
        Some(u) => if password.matches_hash(&u.password_hash) {
            Some(UserWrapper(u))
        } else {
            None
        },
        None => None,
    }
}

/// Where a user goes after logging in: `next`, or the front page.
pub open spec fn spec_redirect_after_login(next: Option<Seq<char>>) -> Seq<char> {
    match next {
        Some(n) => n,
        None => "/"@,
    }
}

pub fn redirect_after_login(next: &Option<String>) -> (r: String)
    ensures
        r@ == spec_redirect_after_login(crate::text::opt_string_view(*next)),
{
    match next {
        Some(n) => n.clone(),
        None => String::from_str("/"),
    }
}

/// Where a failed login sends the user back to: the login page, carrying `next`.
pub open spec fn spec_login_retry_url(next: Option<Seq<char>>) -> Seq<char> {
    match next {
        Some(n) => "/login?next="@ + n,
        None => "/login"@,
    }
}

pub fn login_retry_url(next: &Option<String>) -> (r: String)
    ensures
        r@ == spec_login_retry_url(crate::text::opt_string_view(*next)),
{
    match next {
        Some(n) => {
            let mut s = String::from_str("/login?next=");
            s.append(n.as_str());
            s
        },
        None => String::from_str("/login"),
    }
}

/// Where logging out sends the user.
pub fn logout_redirect() -> (r: String)
    ensures
        r@ == "/login"@,
{
    String::from_str("/login")
}

/// Decides a JSON login from the outcome of authenticating its credentials:
/// the authenticated user; `UnauthorizedIncorrectPassword` when no user
/// matches; a failure of the login layer converted by
/// `ApiError::from_login_error` (a session-store failure is an internal error).
pub fn login_outcome(r: Result<Option<UserWrapper>, LoginError>) -> (o: Result<UserWrapper, ApiError>)
    ensures
        r matches Ok(Some(u)) ==> o == Ok::<UserWrapper, ApiError>(u),
        r matches Ok(None) ==> o == Err::<UserWrapper, ApiError>(
            ApiError::UnauthorizedIncorrectPassword,
        ),
        r matches Err(LoginError::Session) ==> (o matches Err(ApiError::OtherISE(m)) && m@
            == "Unknown axum_login session error"@),
        r matches Err(LoginError::Backend(inner)) ==> o == Err::<UserWrapper, ApiError>(inner),
{
    match r {
        Ok(Some(u)) => Ok(u),
        Ok(None) => Err(ApiError::UnauthorizedIncorrectPassword),
        Err(e) => Err(ApiError::from_login_error(e)),
    }
}

/// What a login or logout through the web form answers.
#[derive(Debug)]
pub enum FormResponse {
    /// A redirect (303 See Other) to the given location.
    Redirect(String),
    /// 500 Internal Server Error.
    InternalServerError,
}

impl FormResponse {
    pub open spec fn spec_status_code(&self) -> u16 {
        match self {
            FormResponse::Redirect(_) => 303,
            FormResponse::InternalServerError => 500,
        }
    }

    /// The HTTP status of the answer.
    pub fn status_code(&self) -> (r: u16)
        ensures
            r == self.spec_status_code(),
    {
        match self {
            FormResponse::Redirect(_) => 303,
            FormResponse::InternalServerError => 500,
        }
    }
}

/// What a form login does after authenticating.
#[derive(Debug)]
pub enum FormLoginStep {
    /// Log this user in, then answer with `form_login_finish`.
    LogIn(UserWrapper),
    /// Answer at once.
    Respond(FormResponse),
}

/// Decides a form login from the outcome of authenticating: log the user in;
/// send the visitor back to the login page (keeping `next`) when no user
/// matches; answer 500 when authentication failed.
pub fn form_login_step(r: Result<Option<UserWrapper>, LoginError>, next: &Option<String>) -> (s:
    FormLoginStep)
    ensures
        r matches Ok(Some(u)) ==> s == FormLoginStep::LogIn(u),
        r is Ok && r->Ok_0 is None ==> (s matches FormLoginStep::Respond(FormResponse::Redirect(l))
            && l@ == spec_login_retry_url(crate::text::opt_string_view(*next))),
        r is Err ==> s == FormLoginStep::Respond(FormResponse::InternalServerError),
{
    match r {
        Ok(Some(u)) => FormLoginStep::LogIn(u),
        Ok(None) => FormLoginStep::Respond(FormResponse::Redirect(login_retry_url(next))),
        Err(_) => FormLoginStep::Respond(FormResponse::InternalServerError),
    }
}

/// Answers a form login once logging the user in has succeeded or failed:
/// a redirect to `next` (or the front page), or 500.
pub fn form_login_finish(logged_in: bool, next: &Option<String>) -> (f: FormResponse)
    ensures
        logged_in ==> (f matches FormResponse::Redirect(l) && l@ == spec_redirect_after_login(
            crate::text::opt_string_view(*next),
        )),
        !logged_in ==> f == FormResponse::InternalServerError,
{
    if logged_in {
        FormResponse::Redirect(redirect_after_login(next))
    } else {
        FormResponse::InternalServerError
    }
}

/// Answers a form logout: a redirect to the login page, or 500 when the
/// session could not be cleared.
pub fn form_logout_response(logged_out: bool) -> (f: FormResponse)
    ensures
        logged_out ==> (f matches FormResponse::Redirect(l) && l@ == "/login"@),
        !logged_out ==> f == FormResponse::InternalServerError,
{
    if logged_out {
        FormResponse::Redirect(logout_redirect())
    } else {
        FormResponse::InternalServerError
    }
}

/// The redirect target carried by a login form.
#[derive(Debug)]
pub struct NextUrl {
    pub next: Option<String>,
}

/// Credentials returned by an OAuth provider: the authorization code and the
/// CSRF state sent out and the one received back.
#[derive(Debug)]
pub struct OAuthCreds {
    pub code: String,
    pub old_state: String,
    pub new_state: String,
}

impl OAuthCreds {
    /// Whether the CSRF state came back unchanged; otherwise the login is refused.
    pub fn csrf_state_untampered(&self) -> (b: bool)
        ensures
            b == (self.old_state@ == self.new_state@),
    {
        self.old_state == self.new_state
    }
}

/// Requiring a logged-in unbanned user succeeds exactly when someone is
/// logged in and not banned.
pub proof fn law_assert_user_ok_iff_authenticated(session: AuthSession)
    ensures
        session.spec_assert_user() is Ok <==> session.spec_authenticated_and_not_banned(),
{
}

/// Requiring a specific user succeeds only when requiring any user succeeds,
/// with the same user, whose name is the one asked for.
pub proof fn law_assert_match_refines_assert_user(session: AuthSession, username: Seq<char>)
    ensures
        session.spec_assert_match(username) matches Ok(u) ==> session.spec_assert_user() == Ok::<
            UserV,
            ApiError,
        >(u) && u.username == username,
        session.spec_assert_user() matches Err(e) ==> session.spec_assert_match(username) == Err::<
            UserV,
            ApiError,
        >(e),
{
}

/// Sessions are validated by the password hash: two users whose stored
/// password hashes differ get different session validation bytes, so changing
/// a password ends the sessions made with the old one.
pub proof fn law_password_change_invalidates_session(before: UserWrapper, after: UserWrapper)
    requires
        before.0.password_hash@ != after.0.password_hash@,
    ensures
        vstd::utf8::encode_utf8(before.0.password_hash@) != vstd::utf8::encode_utf8(
            after.0.password_hash@,
        ),
{
    vstd::utf8::encode_utf8_decode_utf8(before.0.password_hash@);
    vstd::utf8::encode_utf8_decode_utf8(after.0.password_hash@);
}

/// A user whose stored hash was made from a password (as signing up stores
/// it) is logged in by that password.
pub proof fn law_signup_then_login(user: UserV, password: Seq<char>)
    requires
        is_hash_of(user.password_hash, password),
    ensures
        spec_authenticate(Some(user), password) == Some(user),
{
}

/// A logged-in, unbanned user may act as themself, whatever else holds of
/// them (a moderator included): requiring a match with their own name gives
/// back that user.
pub proof fn law_own_name_is_accepted(session: AuthSession, username: Seq<char>)
    ensures
        session.user matches Some(u) && !u.banned && u.username@ == username ==> session.spec_assert_match(
            username,
        ) == Ok::<UserV, ApiError>(session.user->0@),
        session.spec_assert_user() matches Ok(u) ==> (u.username == username
            ==> session.spec_assert_match(username) == Ok::<UserV, ApiError>(u)),
{
}

/// Requiring a logged-in, unbanned user accepts exactly such a user, and
/// refuses nobody logged in with `UnauthorizedPleaseLogin` and a banned user
/// with `ForbiddenBanned`.
pub proof fn law_assert_user_outcomes(session: AuthSession)
    ensures
        session.user is None ==> session.spec_assert_user() == Err::<UserV, ApiError>(
            ApiError::UnauthorizedPleaseLogin,
        ),
        session.user matches Some(u) && u.banned ==> session.spec_assert_user() == Err::<
            UserV,
            ApiError,
        >(ApiError::ForbiddenBanned),
        session.user matches Some(u) ==> (!u.banned ==> session.spec_assert_user() == Ok::<
            UserV,
            ApiError,
        >(u@)),
{
}

/// Requiring a match refuses an unbanned logged-in user of another name with
/// `ForbiddenUsernameDoesNotMatchSession`.
pub proof fn law_other_name_is_refused(session: AuthSession, username: Seq<char>)
    ensures
        session.user matches Some(u) && !u.banned && u.username@ != username ==> session.spec_assert_match(
            username,
        ) == Err::<UserV, ApiError>(ApiError::ForbiddenUsernameDoesNotMatchSession),
{
}

} // verus!
