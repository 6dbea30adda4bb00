//! The records the API reads and writes: users, items, comments, votes and
//! favorites, held as plain values.

use vstd::prelude::*;

use crate::fields::{
    About, AuthToken, CommentText, Email, PasswordHash, ResetPasswordToken, Text, Timestamp, Title,
    Username,
};

verus! {

/// How long after creation an item or comment may still be edited or deleted.
pub const EDIT_WINDOW_SECONDS: i64 = 3600;

/// How long a freshly issued authentication or reset token stays valid.
pub const TOKEN_LIFETIME_SECONDS: i64 = 604800;

/// The current time. Trusted: it calls `chrono::Utc::now`; nothing is stated
/// of the value, which depends on the clock.
#[verifier::external_body]
pub fn now() -> Timestamp {
    Timestamp(chrono::Utc::now().timestamp())
}

pub open spec fn spec_default_expiration(now: Timestamp) -> Timestamp {
    if now.0 + TOKEN_LIFETIME_SECONDS <= i64::MAX {
        Timestamp((now.0 + TOKEN_LIFETIME_SECONDS) as i64)
    } else {
        Timestamp(i64::MAX)
    }
}

/// The expiration of a token issued at `now`: `TOKEN_LIFETIME_SECONDS` later,
/// saturating at the largest representable time.
pub fn default_expiration(now: Timestamp) -> (r: Timestamp)
    ensures
        r == spec_default_expiration(now),
{
    match now.0.checked_add(TOKEN_LIFETIME_SECONDS) {
        Some(t) => Timestamp(t),
        None => Timestamp(i64::MAX),
    }
}

/// A registered user.
#[derive(Debug)]
pub struct User {
    pub username: Username,
    pub password_hash: PasswordHash,
    pub auth_token: Option<AuthToken>,
    pub auth_token_expiration: Option<Timestamp>,
    pub reset_password_token: Option<ResetPasswordToken>,
    pub reset_password_token_expiration: Option<Timestamp>,
    pub email: Option<Email>,
    pub created: Timestamp,
    pub karma: i32,
    pub about: Option<About>,
    pub show_dead: bool,
    pub is_moderator: bool,
    pub banned: bool,
}

pub open spec fn opt_view<T: View>(o: Option<T>) -> Option<T::V> {
    match o {
        Some(t) => Some(t@),
        None => None,
    }
}

/// Copies an optional email.
pub fn clone_email(o: &Option<Email>) -> (r: Option<Email>)
    ensures
        opt_view(r) == opt_view(*o),
{
    match o {
        Some(e) => Some(e.clone()),
        None => None,
    }
}

/// Copies an optional about text.
pub fn clone_about(o: &Option<About>) -> (r: Option<About>)
    ensures
        opt_view(r) == opt_view(*o),
{
    match o {
        Some(e) => Some(e.clone()),
        None => None,
    }
}

/// Copies an optional auth token.
pub fn clone_auth_token(o: &Option<AuthToken>) -> (r: Option<AuthToken>)
    ensures
        opt_view(r) == opt_view(*o),
{
    match o {
        Some(e) => Some(e.clone()),
        None => None,
    }
}

/// Copies an optional reset token.
pub fn clone_reset_token(o: &Option<ResetPasswordToken>) -> (r: Option<ResetPasswordToken>)
    ensures
        opt_view(r) == opt_view(*o),
{
    match o {
        Some(e) => Some(e.clone()),
        None => None,
    }
}

/// The abstract value of a user: every field by its view.
pub struct UserV {
    pub username: Seq<char>,
    pub password_hash: Seq<char>,
    pub auth_token: Option<Seq<char>>,
    pub auth_token_expiration: Option<Timestamp>,
    pub reset_password_token: Option<Seq<char>>,
    pub reset_password_token_expiration: Option<Timestamp>,
    pub email: Option<Seq<char>>,
    pub created: Timestamp,
    pub karma: i32,
    pub about: Option<Seq<char>>,
    pub show_dead: bool,
    pub is_moderator: bool,
    pub banned: bool,
}

impl View for User {
    type V = UserV;

    open spec fn view(&self) -> UserV {
        UserV {
            username: self.username@,
            password_hash: self.password_hash@,
            auth_token: opt_view(self.auth_token),
            auth_token_expiration: self.auth_token_expiration,
            reset_password_token: opt_view(self.reset_password_token),
            reset_password_token_expiration: self.reset_password_token_expiration,
            email: opt_view(self.email),
            created: self.created,
            karma: self.karma,
            about: opt_view(self.about),
            show_dead: self.show_dead,
            is_moderator: self.is_moderator,
            banned: self.banned,
        }
    }
}

impl Clone for User {
    fn clone(&self) -> (r: Self)
        ensures
            r@ == self@,
    {
        User {
            username: self.username.clone(),
            password_hash: self.password_hash.clone(),
            auth_token: clone_auth_token(&self.auth_token),
            auth_token_expiration: self.auth_token_expiration,
            reset_password_token: clone_reset_token(&self.reset_password_token),
            reset_password_token_expiration: self.reset_password_token_expiration,
            email: clone_email(&self.email),
            created: self.created,
            karma: self.karma,
            about: clone_about(&self.about),
            show_dead: self.show_dead,
            is_moderator: self.is_moderator,
            banned: self.banned,
        }
    }
}

/// Karma a new user starts with.
pub const INITIAL_KARMA: i32 = 1;

impl User {
    /// A new user created at `created`: no tokens, starting karma, not a
    /// moderator, not banned, dead items hidden.
    pub fn new(
        username: Username,
        password_hash: PasswordHash,
        email: Option<Email>,
        about: Option<About>,
        created: Timestamp,
    ) -> (r: User)
        ensures
            r@ == (UserV {
                username: username@,
                password_hash: password_hash@,
                auth_token: None,
                auth_token_expiration: None,
                reset_password_token: None,
                reset_password_token_expiration: None,
                email: opt_view(email),
                created,
                karma: INITIAL_KARMA,
                about: opt_view(about),
                show_dead: false,
                is_moderator: false,
                banned: false,
            }),
    {
        User {
            username,
            password_hash,
            auth_token: None,
            auth_token_expiration: None,
            reset_password_token: None,
            reset_password_token_expiration: None,
            email,
            created,
            karma: INITIAL_KARMA,
            about,
            show_dead: false,
            is_moderator: false,
            banned: false,
        }
    }
}

/// A user's vote on an item or a comment.
#[derive(Debug, Clone, Copy, PartialEq, Eq, Structural)]
pub enum VoteState {
    Upvoted,
    Downvoted,
    NoVote,
}

/// A stored vote of one user on one piece of content.
#[derive(Debug)]
pub struct UserVote {
    pub username: Username,
    pub content_id: u128,
    pub upvote: bool,
    pub downvote: bool,
    pub date: Timestamp,
}

impl Clone for UserVote {
    fn clone(&self) -> (r: Self)
        ensures
            r.username@ == self.username@,
            r.content_id == self.content_id,
            r.upvote == self.upvote,
            r.downvote == self.downvote,
            r.date == self.date,
    {
        UserVote {
            username: self.username.clone(),
            content_id: self.content_id,
            upvote: self.upvote,
            downvote: self.downvote,
            date: self.date,
        }
    }
}

/// Whether a user has favorited or unfavorited something.
#[derive(Debug, Clone, Copy, PartialEq, Eq, Structural)]
pub enum FavoriteState {
    Favorite,
    Unfavorite,
}

/// A stored favorite of one user on one piece of content.
#[derive(Debug)]
pub struct UserFavorite {
    pub username: Username,
    pub content_id: u128,
    pub date: Timestamp,
}

/// The kind of an item.
#[derive(Debug, Clone, Copy, PartialEq, Eq, Structural)]
pub enum ItemType {
    News,
    Show,
    Ask,
}

/// The category of an item.
#[derive(Debug, Clone, Copy, PartialEq, Eq, Structural)]
pub enum ItemCategory {
    Other,
    Tweet,
    Blog,
    Paper,
}

/// The body of an item: either text or a link.
#[derive(Debug)]
pub enum TextOrUrl {
    Text(Text),
    Url(String),
}

/// The abstract value of an item body.
pub enum TextOrUrlV {
    Text(Seq<char>),
    Url(Seq<char>),
}

impl View for TextOrUrl {
    type V = TextOrUrlV;

    open spec fn view(&self) -> TextOrUrlV {
        match self {
            TextOrUrl::Text(t) => TextOrUrlV::Text(t@),
            TextOrUrl::Url(u) => TextOrUrlV::Url(u@),
        }
    }
}

impl TextOrUrl {
    pub open spec fn valid(v: TextOrUrlV) -> bool {
        match v {
            TextOrUrlV::Text(t) => Text::valid(t),
            TextOrUrlV::Url(u) => crate::fields::ascii_len_between(
                u,
                1,
                crate::fields::URL_MAX as nat,
            ),
        }
    }

    pub fn validate(&self) -> (ok: bool)
        ensures
            ok == Self::valid(self@),
    {
        match self {
            TextOrUrl::Text(t) => t.validate(),
            TextOrUrl::Url(u) => crate::fields::check_ascii_len(u.as_str(), 1, crate::fields::URL_MAX),
        }
    }
}

impl Clone for TextOrUrl {
    fn clone(&self) -> (r: Self)
        ensures
            r@ == self@,
    {
        match self {
            TextOrUrl::Text(t) => TextOrUrl::Text(t.clone()),
            TextOrUrl::Url(u) => TextOrUrl::Url(u.clone()),
        }
    }
}

/// Points a new item or comment starts with.
pub const INITIAL_POINTS: i32 = 1;

/// A submitted story.
#[derive(Debug)]
pub struct Item {
    pub id: u128,
    pub username: Username,
    pub title: Title,
    pub item_type: ItemType,
    pub content: TextOrUrl,
    pub item_category: ItemCategory,
    pub points: i32,
    pub comment_count: i32,
    pub created: Timestamp,
    pub dead: bool,
}

/// Whether something created at `created` is still inside its edit window at `now`.
pub open spec fn within_edit_window(created: Timestamp, now: Timestamp) -> bool {
    now.0 - created.0 < EDIT_WINDOW_SECONDS
}

fn in_edit_window(created: Timestamp, now: Timestamp) -> (b: bool)
    ensures
        b == within_edit_window(created, now),
{
    (now.0 as i128) - (created.0 as i128) < (EDIT_WINDOW_SECONDS as i128)
}

impl Item {
    /// A new item with the given id and creation time, starting points and no comments.
    pub fn new(
        id: u128,
        username: Username,
        title: Title,
        item_type: ItemType,
        content: TextOrUrl,
        item_category: ItemCategory,
        created: Timestamp,
    ) -> (r: Item)
        ensures
            r.id == id,
            r.username@ == username@,
            r.title@ == title@,
            r.item_type == item_type,
            r.content@ == content@,
            r.item_category == item_category,
            r.points == INITIAL_POINTS,
            r.comment_count == 0,
            r.created == created,
            !r.dead,
    {
        Item {
            id,
            username,
            title,
            item_type,
            content,
            item_category,
            points: INITIAL_POINTS,
            comment_count: 0,
            created,
            dead: false,
        }
    }

    /// An item may be edited or deleted while it is inside its edit window and
    /// has no comments.
    pub open spec fn spec_is_editable(&self, now: Timestamp) -> bool {
        within_edit_window(self.created, now) && self.comment_count == 0
    }

    pub fn is_editable(&self, now: Timestamp) -> (b: bool)
        ensures
            b == self.spec_is_editable(now),
    {
        in_edit_window(self.created, now) && self.comment_count == 0
    }
}

/// A comment on an item.
#[derive(Debug)]
pub struct Comment {
    pub id: u128,
    pub username: Username,
    pub parent_item_id: u128,
    pub parent_item_title: Title,
    pub is_parent: bool,
    pub root_comment_id: Option<u128>,
    pub parent_comment_id: Option<u128>,
    pub text: CommentText,
    pub points: i32,
    pub created: Timestamp,
    pub dead: bool,
}

impl Comment {
    /// A new comment with the given id and creation time and starting points.
    pub fn new(
        id: u128,
        username: Username,
        parent_item_id: u128,
        parent_item_title: Title,
        is_parent: bool,
        root_comment_id: Option<u128>,
        parent_comment_id: Option<u128>,
        text: CommentText,
        dead: bool,
        created: Timestamp,
    ) -> (r: Comment)
        ensures
            r.id == id,
            r.username@ == username@,
            r.parent_item_id == parent_item_id,
            r.parent_item_title@ == parent_item_title@,
            r.is_parent == is_parent,
            r.root_comment_id == root_comment_id,
            r.parent_comment_id == parent_comment_id,
            r.text@ == text@,
            r.points == INITIAL_POINTS,
            r.created == created,
            r.dead == dead,
    {
        Comment {
            id,
            username,
            parent_item_id,
            parent_item_title,
            is_parent,
            root_comment_id,
            parent_comment_id,
            text,
            points: INITIAL_POINTS,
            created,
            dead,
        }
    }

    /// A comment may be edited or deleted while it is inside its edit window.
    pub open spec fn spec_is_editable(&self, now: Timestamp) -> bool {
        within_edit_window(self.created, now)
    }

    pub fn is_editable(&self, now: Timestamp) -> (b: bool)
        ensures
            b == self.spec_is_editable(now),
    {
        in_edit_window(self.created, now)
    }
}

/// A page number in a paginated listing.
#[derive(Debug, Clone, Copy)]
pub struct Page {
    pub page: u32,
}

impl Page {
    /// Pages are numbered from 1.
    pub open spec fn valid(self) -> bool {
        self.page >= 1
    }

    pub fn validate(&self) -> (ok: bool)
        ensures
            ok == self.valid(),
    {
        self.page >= 1
    }
}

/// Errors reported by the database layer.
#[derive(Debug)]
pub enum DbError {
    UniqueViolation(String),
    ForeignKeyViolation(String),
    NotNullViolation(String),
    CheckViolation(String),
    NotFound(String),
    Other(String),
}

impl VoteState {
    /// The vote a stored vote records: up if the upvote flag is set, else down
    /// if the downvote flag is set, else none.
    pub open spec fn spec_from_vote(v: UserVote) -> VoteState {
        if v.upvote {
            VoteState::Upvoted
        } else if v.downvote {
            VoteState::Downvoted
        } else {
            VoteState::NoVote
        }
    }

    pub fn from_vote(v: &UserVote) -> (r: VoteState)
        ensures
            r == Self::spec_from_vote(*v),
    {
        if v.upvote {
            VoteState::Upvoted
        } else if v.downvote {
            VoteState::Downvoted
        } else {
            VoteState::NoVote
        }
    }

    /// The vote a numeric code submits: 1 up, -1 down, anything else none.
    pub open spec fn spec_from_code(code: i8) -> VoteState {
        if code == 1 {
            VoteState::Upvoted
        } else if code == -1 {
            VoteState::Downvoted
        } else {
            VoteState::NoVote
        }
    }

    pub fn from_code(code: i8) -> (r: VoteState)
        ensures
            r == Self::spec_from_code(code),
    {
        if code == 1 {
            VoteState::Upvoted
        } else if code == -1 {
            VoteState::Downvoted
        } else {
            VoteState::NoVote
        }
    }
}

/// A fresh random content id. Trusted: it calls `uuid::Uuid::new_v4` and
/// returns its 128 bits; nothing is stated of the value, which is random.
#[verifier::external_body]
pub(crate) fn new_content_id() -> u128 {
    uuid::Uuid::new_v4().as_u128()
}

} // verus!
