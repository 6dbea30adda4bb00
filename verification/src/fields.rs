//! String newtypes carried by payloads and models, with their validity rules.
//!
//! Each validated newtype has a spec predicate `valid` stating its rule and an
//! executable `validate` that decides it exactly.

use vstd::prelude::*;
use vstd::string::*;

verus! {

/// Whether every character is ASCII.
pub open spec fn all_ascii(s: Seq<char>) -> bool {
    forall|i: int| 0 <= i < s.len() ==> (s[i] as u32) < 128
}

/// Whether `s` is ASCII and its length lies in `min..=max`.
pub open spec fn ascii_len_between(s: Seq<char>, min: nat, max: nat) -> bool {
    all_ascii(s) && min <= s.len() <= max
}

/// Checks that `s` is ASCII and holds between `min` and `max` characters.
pub fn check_ascii_len(s: &str, min: usize, max: usize) -> (ok: bool)
    ensures
        ok == ascii_len_between(s@, min as nat, max as nat),
{
    let n = s.unicode_len();
    if n < min || n > max {
        return false;
    }
    let mut i: usize = 0;
    while i < n
        invariant
            n == s@.len(),
            i <= n,
            forall|j: int| 0 <= j < i ==> (s@[j] as u32) < 128,
        decreases n - i,
    {
        let c = s.get_char(i);
        if (c as u32) >= 128 {
            return false;
        }
        i = i + 1;
    }
    true
}

/// Whether garde's email rule accepts the string.
pub uninterp spec fn garde_email_ok(s: Seq<char>) -> bool;

/// Calls `garde::rules::email::parse_email`. Trusted: the answer is `Ok` exactly
/// when `garde_email_ok` holds of the string. Of the rule only its first two
/// checks are restated: an empty string and a string without `@` are refused.
#[verifier::external_body]
fn garde_parse_email(s: &str) -> (ok: bool)
    ensures
        ok == garde_email_ok(s@),
        s@.len() == 0 ==> !ok,
        (forall|i: int| 0 <= i < s@.len() ==> s@[i] != '@') ==> !ok,
{
    garde::rules::email::parse_email(s).is_ok()
}

/// Shortest accepted username.
pub const USERNAME_MIN: usize = 3;
/// Longest accepted username.
pub const USERNAME_MAX: usize = 16;
/// Shortest accepted password.
pub const PASSWORD_MIN: usize = 8;
/// Longest accepted password.
pub const PASSWORD_MAX: usize = 64;
/// Longest accepted `about` text.
pub const ABOUT_MAX: usize = 400;
/// Shortest accepted reset-password token.
pub const RESET_TOKEN_MIN: usize = 1;
/// Longest accepted reset-password token.
pub const RESET_TOKEN_MAX: usize = 128;
/// Shortest accepted item title.
pub const TITLE_MIN: usize = 1;
/// Longest accepted item title.
pub const TITLE_MAX: usize = 80;
/// Longest accepted item text.
pub const TEXT_MAX: usize = 4000;
/// Longest accepted url.
pub const URL_MAX: usize = 2048;
/// Shortest accepted comment text.
pub const COMMENT_TEXT_MIN: usize = 1;
/// Longest accepted comment text.
pub const COMMENT_TEXT_MAX: usize = 4000;

/// A username: ASCII, `USERNAME_MIN..=USERNAME_MAX` characters.
#[derive(Debug)]
pub struct Username(pub String);

impl View for Username {
    type V = Seq<char>;

    open spec fn view(&self) -> Seq<char> {
        self.0@
    }
}

impl Clone for Username {
    fn clone(&self) -> (r: Self)
        ensures
            r@ == self@,
    {
        Username(self.0.clone())
    }
}

impl Username {
    pub open spec fn valid(s: Seq<char>) -> bool {
        ascii_len_between(s, USERNAME_MIN as nat, USERNAME_MAX as nat)
    }

    pub fn from_str(s: &str) -> (r: Self)
        ensures
            r@ == s@,
    {
        Username(String::from_str(s))
    }

    pub fn validate(&self) -> (ok: bool)
        ensures
            ok == Self::valid(self@),
    {
        check_ascii_len(self.0.as_str(), USERNAME_MIN, USERNAME_MAX)
    }

    /// Whether two usernames are the same string.
    pub fn same_as(&self, other: &Username) -> (b: bool)
        ensures
            b == (self@ == other@),
    {
        self.0 == other.0
    }
}

/// A clear-text password: ASCII, `PASSWORD_MIN..=PASSWORD_MAX` characters.
#[derive(Debug)]
pub struct Password(pub String);

impl View for Password {
    type V = Seq<char>;

    open spec fn view(&self) -> Seq<char> {
        self.0@
    }
}

impl Clone for Password {
    fn clone(&self) -> (r: Self)
        ensures
            r@ == self@,
    {
        Password(self.0.clone())
    }
}

impl Password {
    pub open spec fn valid(s: Seq<char>) -> bool {
        ascii_len_between(s, PASSWORD_MIN as nat, PASSWORD_MAX as nat)
    }

    pub fn from_str(s: &str) -> (r: Self)
        ensures
            r@ == s@,
    {
        Password(String::from_str(s))
    }

    pub fn validate(&self) -> (ok: bool)
        ensures
            ok == Self::valid(self@),
    {
        check_ascii_len(self.0.as_str(), PASSWORD_MIN, PASSWORD_MAX)
    }
}

/// An email address, accepted by garde's email rule.
#[derive(Debug)]
pub struct Email(pub String);

impl View for Email {
    type V = Seq<char>;

    open spec fn view(&self) -> Seq<char> {
        self.0@
    }
}

impl Clone for Email {
    fn clone(&self) -> (r: Self)
        ensures
            r@ == self@,
    {
        Email(self.0.clone())
    }
}

impl Email {
    pub open spec fn valid(s: Seq<char>) -> bool {
        garde_email_ok(s)
    }

    pub fn from_str(s: &str) -> (r: Self)
        ensures
            r@ == s@,
    {
        Email(String::from_str(s))
    }

    pub fn validate(&self) -> (ok: bool)
        ensures
            ok == Self::valid(self@),
    {
        garde_parse_email(self.0.as_str())
    }
}

/// A user's self description: ASCII, at most `ABOUT_MAX` characters.
#[derive(Debug)]
pub struct About(pub String);

impl View for About {
    type V = Seq<char>;

    open spec fn view(&self) -> Seq<char> {
        self.0@
    }
}

impl Clone for About {
    fn clone(&self) -> (r: Self)
        ensures
            r@ == self@,
    {
        About(self.0.clone())
    }
}

impl About {
    pub open spec fn valid(s: Seq<char>) -> bool {
        ascii_len_between(s, 0, ABOUT_MAX as nat)
    }

    pub fn from_str(s: &str) -> (r: Self)
        ensures
            r@ == s@,
    {
        About(String::from_str(s))
    }

    pub fn validate(&self) -> (ok: bool)
        ensures
            ok == Self::valid(self@),
    {
        check_ascii_len(self.0.as_str(), 0, ABOUT_MAX)
    }
}

/// A token used to reset a forgotten password.
#[derive(Debug)]
pub struct ResetPasswordToken(pub String);

impl View for ResetPasswordToken {
    type V = Seq<char>;

    open spec fn view(&self) -> Seq<char> {
        self.0@
    }
}

impl Clone for ResetPasswordToken {
    fn clone(&self) -> (r: Self)
        ensures
            r@ == self@,
    {
        ResetPasswordToken(self.0.clone())
    }
}

impl ResetPasswordToken {
    pub open spec fn valid(s: Seq<char>) -> bool {
        ascii_len_between(s, RESET_TOKEN_MIN as nat, RESET_TOKEN_MAX as nat)
    }

    pub fn from_str(s: &str) -> (r: Self)
        ensures
            r@ == s@,
    {
        ResetPasswordToken(String::from_str(s))
    }

    pub fn validate(&self) -> (ok: bool)
        ensures
            ok == Self::valid(self@),
    {
        check_ascii_len(self.0.as_str(), RESET_TOKEN_MIN, RESET_TOKEN_MAX)
    }
}

/// An item title: ASCII, `TITLE_MIN..=TITLE_MAX` characters.
#[derive(Debug)]
pub struct Title(pub String);

impl View for Title {
    type V = Seq<char>;

    open spec fn view(&self) -> Seq<char> {
        self.0@
    }
}

impl Clone for Title {
    fn clone(&self) -> (r: Self)
        ensures
            r@ == self@,
    {
        Title(self.0.clone())
    }
}

impl Title {
    pub open spec fn valid(s: Seq<char>) -> bool {
        ascii_len_between(s, TITLE_MIN as nat, TITLE_MAX as nat)
    }

    pub fn from_str(s: &str) -> (r: Self)
        ensures
            r@ == s@,
    {
        Title(String::from_str(s))
    }

    pub fn validate(&self) -> (ok: bool)
        ensures
            ok == Self::valid(self@),
    {
        check_ascii_len(self.0.as_str(), TITLE_MIN, TITLE_MAX)
    }
}

/// Item text: ASCII, at most `TEXT_MAX` characters.
#[derive(Debug)]
pub struct Text(pub String);

impl View for Text {
    type V = Seq<char>;

    open spec fn view(&self) -> Seq<char> {
        self.0@
    }
}

impl Clone for Text {
    fn clone(&self) -> (r: Self)
        ensures
            r@ == self@,
    {
        Text(self.0.clone())
    }
}

impl Text {
    pub open spec fn valid(s: Seq<char>) -> bool {
        ascii_len_between(s, 0, TEXT_MAX as nat)
    }

    pub fn from_str(s: &str) -> (r: Self)
        ensures
            r@ == s@,
    {
        Text(String::from_str(s))
    }

    pub fn validate(&self) -> (ok: bool)
        ensures
            ok == Self::valid(self@),
    {
        check_ascii_len(self.0.as_str(), 0, TEXT_MAX)
    }
}

/// Comment text: ASCII, `COMMENT_TEXT_MIN..=COMMENT_TEXT_MAX` characters.
#[derive(Debug)]
pub struct CommentText(pub String);

impl View for CommentText {
    type V = Seq<char>;

    open spec fn view(&self) -> Seq<char> {
        self.0@
    }
}

impl Clone for CommentText {
    fn clone(&self) -> (r: Self)
        ensures
            r@ == self@,
    {
        CommentText(self.0.clone())
    }
}

impl CommentText {
    pub open spec fn valid(s: Seq<char>) -> bool {
        ascii_len_between(s, COMMENT_TEXT_MIN as nat, COMMENT_TEXT_MAX as nat)
    }

    pub fn from_str(s: &str) -> (r: Self)
        ensures
            r@ == s@,
    {
        CommentText(String::from_str(s))
    }

    pub fn validate(&self) -> (ok: bool)
        ensures
            ok == Self::valid(self@),
    {
        check_ascii_len(self.0.as_str(), COMMENT_TEXT_MIN, COMMENT_TEXT_MAX)
    }
}

/// An argon2 password hash in PHC string form.
#[derive(Debug)]
pub struct PasswordHash(pub String);

impl View for PasswordHash {
    type V = Seq<char>;

    open spec fn view(&self) -> Seq<char> {
        self.0@
    }
}

impl Clone for PasswordHash {
    fn clone(&self) -> (r: Self)
        ensures
            r@ == self@,
    {
        PasswordHash(self.0.clone())
    }
}

/// A session authentication token.
#[derive(Debug)]
pub struct AuthToken(pub String);

impl View for AuthToken {
    type V = Seq<char>;

    open spec fn view(&self) -> Seq<char> {
        self.0@
    }
}

impl Clone for AuthToken {
    fn clone(&self) -> (r: Self)
        ensures
            r@ == self@,
    {
        AuthToken(self.0.clone())
    }
}

impl AuthToken {
    pub fn from_str(s: &str) -> (r: Self)
        ensures
            r@ == s@,
    {
        AuthToken(String::from_str(s))
    }

    /// The empty token, used where a user has none.
    pub fn empty() -> (r: Self)
        ensures
            r@ == Seq::<char>::empty(),
    {
        AuthToken(String::new())
    }
}

/// A point in time, in whole seconds since the Unix epoch.
#[derive(Debug, Clone, Copy, PartialEq, Eq)]
pub struct Timestamp(pub i64);

/// The field rules: each validated field is ASCII and its length lies in a
/// fixed range (usernames 3 to 16 characters, passwords 8 to 64, about texts
/// at most 400, reset tokens 1 to 128, titles 1 to 80, item texts at most
/// 4000, comment texts 1 to 4000).
pub proof fn law_field_rules(s: Seq<char>)
    ensures
        Username::valid(s) <==> ((forall|i: int| 0 <= i < s.len() ==> (#[trigger] s[i] as u32)
            < 128) && 3 <= s.len() <= 16),
        Password::valid(s) <==> ((forall|i: int| 0 <= i < s.len() ==> (#[trigger] s[i] as u32)
            < 128) && 8 <= s.len() <= 64),
        About::valid(s) <==> ((forall|i: int| 0 <= i < s.len() ==> (#[trigger] s[i] as u32) < 128)
            && s.len() <= 400),
        ResetPasswordToken::valid(s) <==> ((forall|i: int| 0 <= i < s.len() ==> (
        #[trigger] s[i] as u32) < 128) && 1 <= s.len() <= 128),
        Title::valid(s) <==> ((forall|i: int| 0 <= i < s.len() ==> (#[trigger] s[i] as u32) < 128)
            && 1 <= s.len() <= 80),
        Text::valid(s) <==> ((forall|i: int| 0 <= i < s.len() ==> (#[trigger] s[i] as u32) < 128)
            && s.len() <= 4000),
        CommentText::valid(s) <==> ((forall|i: int| 0 <= i < s.len() ==> (#[trigger] s[i] as u32)
            < 128) && 1 <= s.len() <= 4000),
{
}

} // verus!
