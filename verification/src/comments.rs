//! Comment payloads and responses, and the decisions of the comment routes.

use vstd::prelude::*;
use vstd::string::*;

use crate::error::ApiError;
use crate::fields::{CommentText, Title, Username};
use crate::model::{new_content_id, now, Comment, UserVote, VoteState, INITIAL_POINTS};
use crate::users::is_invalid_field;

verus! {

/// A new comment as submitted.
#[derive(Debug)]
pub struct CreateCommentPayload {
    pub username: Username,
    pub parent_item_id: u128,
    pub parent_item_title: Title,
    pub is_parent: bool,
    pub root_comment_id: Option<u128>,
    pub parent_comment_id: Option<u128>,
    pub text: CommentText,
    pub dead: bool,
}

/// Whether `c` is the comment a payload describes (apart from id and time).
pub open spec fn comment_matches_payload(c: Comment, p: CreateCommentPayload) -> bool {
    &&& c.username@ == p.username@
    &&& c.parent_item_id == p.parent_item_id
    &&& c.parent_item_title@ == p.parent_item_title@
    &&& c.is_parent == p.is_parent
    &&& c.root_comment_id == p.root_comment_id
    &&& c.parent_comment_id == p.parent_comment_id
    &&& c.text@ == p.text@
    &&& c.dead == p.dead
    &&& c.points == INITIAL_POINTS
}

impl CreateCommentPayload {
    /// The first invalid field, or `None` when username, parent title and text
    /// are valid.
    pub open spec fn spec_first_invalid(&self) -> Option<Seq<char>> {
        if !Username::valid(self.username@) {
            Some("username"@)
        } else if !Title::valid(self.parent_item_title@) {
            Some("parent_item_title"@)
        } else if !CommentText::valid(self.text@) {
            Some("text"@)
        } else {
            None
        }
    }

    pub fn validate(&self) -> (r: Result<(), ApiError>)
        ensures
            r is Ok <==> self.spec_first_invalid() is None,
            r matches Err(e) ==> is_invalid_field(e, self.spec_first_invalid()->0),
    {
        if !self.username.validate() {
            return Err(ApiError::InvalidPayload(String::from_str("username")));
        }
        if !self.parent_item_title.validate() {
            return Err(ApiError::InvalidPayload(String::from_str("parent_item_title")));
        }
        if !self.text.validate() {
            return Err(ApiError::InvalidPayload(String::from_str("text")));
        }
        Ok(())
    }

    /// The comment this (already validated) payload creates: a fresh random id,
    /// created now, starting points.
    pub fn into_comment(self) -> (r: Comment)
        ensures
            comment_matches_payload(r, self),
    {
        Comment::new(
            new_content_id(),
            self.username,
            self.parent_item_id,
            self.parent_item_title,
            self.is_parent,
            self.root_comment_id,
            self.parent_comment_id,
            self.text,
            self.dead,
            now(),
        )
    }

    /// Validates the payload, then creates its comment.
    pub fn try_into_comment(self) -> (r: Result<Comment, ApiError>)
        ensures
            r is Ok <==> self.spec_first_invalid() is None,
            r matches Ok(c) ==> comment_matches_payload(c, self),
            r matches Err(e) ==> is_invalid_field(e, self.spec_first_invalid()->0),
    {
        match self.validate() {
            Ok(()) => Ok(self.into_comment()),
            Err(e) => Err(e),
        }
    }
}

/// A single comment.
#[derive(Debug)]
pub struct GetCommentResponse {
    pub comment: Comment,
}

/// A comment as first submitted to the old comment route.
#[derive(Debug)]
pub struct CommentPayload {
    pub username: String,
    pub parent_item_id: u128,
    pub parent_comment_id: Option<u128>,
    pub text: String,
    pub dead: bool,
}

/// The fields a comment route extracts from a request.
#[derive(Debug)]
pub struct CommentExtractor {
    pub by: String,
    pub parent_item_id: u128,
    pub parent_comment_id: Option<u128>,
    pub text: String,
    pub dead: bool,
}

/// What a vote on a comment does.
#[derive(Debug, Clone, Copy, PartialEq, Eq, Structural)]
pub enum CommentVoteAction {
    /// The vote equals the stored one: nothing changes.
    Unchanged,
    /// Store this vote and update the author's karma.
    Submit(VoteState),
}

/// Decides a vote with numeric code `code` on a comment, given the user's stored
/// vote on it, if any.
pub open spec fn spec_comment_vote_action(existing: Option<VoteState>, code: i8) -> CommentVoteAction {
    let requested = VoteState::spec_from_code(code);
    if existing == Some(requested) {
        CommentVoteAction::Unchanged
    } else {
        CommentVoteAction::Submit(requested)
    }
}

pub fn comment_vote_action(existing: &Option<UserVote>, code: i8) -> (r: CommentVoteAction)
    ensures
        r == spec_comment_vote_action(
            match existing {
                Some(v) => Some(VoteState::spec_from_vote(*v)),
                None => None,
            },
            code,
        ),
{
    let requested = VoteState::from_code(code);
    match existing {
        Some(v) => if VoteState::from_vote(v) == requested {
            CommentVoteAction::Unchanged
        } else {
            CommentVoteAction::Submit(requested)
        },
        None => CommentVoteAction::Submit(requested),
    }
}

/// What a favorite request on a comment does.
#[derive(Debug, Clone, Copy, PartialEq, Eq, Structural)]
pub enum FavoriteAction {
    /// The comment is already in the requested state.
    Unchanged,
    /// The favorite must be stored or removed.
    Update,
}

/// Decides a favorite request (`1` favorite, `0` unfavorite) given whether the
/// user already favorites the comment.
pub open spec fn spec_favorite_action(already_favorite: bool, set_favorite_state: i8) -> FavoriteAction {
    if already_favorite && set_favorite_state == 1 {
        FavoriteAction::Unchanged
    } else if !already_favorite && set_favorite_state == 0 {
        FavoriteAction::Unchanged
    } else {
        FavoriteAction::Update
    }
}

pub fn favorite_action(already_favorite: bool, set_favorite_state: i8) -> (r: FavoriteAction)
    ensures
        r == spec_favorite_action(already_favorite, set_favorite_state),
{
    if already_favorite {
        if set_favorite_state == 1 {
            return FavoriteAction::Unchanged;
        }
    } else if set_favorite_state == 0 {
        return FavoriteAction::Unchanged;
    }
    FavoriteAction::Update
}

/// A comment with the caller's vote on it: the stored vote when the caller is
/// logged in, none otherwise.
pub fn comment_with_vote(comment: Comment, logged_in: bool, user_vote: &Option<UserVote>) -> (r: (
    Comment,
    Option<VoteState>,
))
    ensures
        r.0 == comment,
        r.1 == (if logged_in {
            match user_vote {
                Some(v) => Some(VoteState::spec_from_vote(*v)),
                None => None,
            }
        } else {
            None
        }),
{
    if !logged_in {
        return (comment, None);
    }
    match user_vote {
        Some(v) => (comment, Some(VoteState::from_vote(v))),
        None => (comment, None),
    }
}

/// Repeating a vote that is already stored changes nothing.
pub proof fn law_repeated_comment_vote_is_unchanged(code: i8)
    ensures
        spec_comment_vote_action(Some(VoteState::spec_from_code(code)), code)
            == CommentVoteAction::Unchanged,
{
}

/// Asking twice for the same favorite state asks for a change at most once:
/// after the change is made, the same request changes nothing.
pub proof fn law_favorite_request_idempotent(set_favorite_state: i8)
    requires
        set_favorite_state == 0 || set_favorite_state == 1,
    ensures
        spec_favorite_action(set_favorite_state == 1, set_favorite_state) == FavoriteAction::Unchanged,
{
}

/// A submitted vote that differs from the stored one (or with none stored) is
/// stored: code 1 stores an upvote, code -1 a downvote, any other code no vote.
pub proof fn law_changed_comment_vote_is_submitted(existing: Option<VoteState>, code: i8)
    ensures
        code == 1 && existing != Some(VoteState::Upvoted) ==> spec_comment_vote_action(
            existing,
            code,
        ) == CommentVoteAction::Submit(VoteState::Upvoted),
        code == -1 && existing != Some(VoteState::Downvoted) ==> spec_comment_vote_action(
            existing,
            code,
        ) == CommentVoteAction::Submit(VoteState::Downvoted),
        code != 1 && code != -1 && existing != Some(VoteState::NoVote) ==> spec_comment_vote_action(
            existing,
            code,
        ) == CommentVoteAction::Submit(VoteState::NoVote),
{
}

/// A vote equal to the stored one changes nothing: an upvote over an upvote,
/// a downvote over a downvote, a clearing code over no vote.
pub proof fn law_same_comment_vote_is_unchanged(code: i8)
    ensures
        code == 1 ==> spec_comment_vote_action(Some(VoteState::Upvoted), code)
            == CommentVoteAction::Unchanged,
        code == -1 ==> spec_comment_vote_action(Some(VoteState::Downvoted), code)
            == CommentVoteAction::Unchanged,
        code != 1 && code != -1 ==> spec_comment_vote_action(Some(VoteState::NoVote), code)
            == CommentVoteAction::Unchanged,
{
}

/// A stored vote records its flags: up when the upvote flag is set, else down
/// when the downvote flag is set, else none.
pub proof fn law_stored_vote_flags(v: UserVote)
    ensures
        v.upvote ==> VoteState::spec_from_vote(v) == VoteState::Upvoted,
        !v.upvote && v.downvote ==> VoteState::spec_from_vote(v) == VoteState::Downvoted,
        !v.upvote && !v.downvote ==> VoteState::spec_from_vote(v) == VoteState::NoVote,
{
}

/// A favorite request (1 favorite, 0 unfavorite) changes nothing exactly when
/// the comment already is in the requested state; any other request updates.
pub proof fn law_favorite_action_outcomes(already_favorite: bool, set_favorite_state: i8)
    ensures
        set_favorite_state == 1 ==> (spec_favorite_action(already_favorite, set_favorite_state)
            == FavoriteAction::Unchanged <==> already_favorite),
        set_favorite_state == 0 ==> (spec_favorite_action(already_favorite, set_favorite_state)
            == FavoriteAction::Unchanged <==> !already_favorite),
        set_favorite_state != 0 && set_favorite_state != 1 ==> spec_favorite_action(
            already_favorite,
            set_favorite_state,
        ) == FavoriteAction::Update,
{
}

/// A comment is accepted exactly when its author name, the parent title and
/// its text are valid; a refusal names the first invalid one in that order.
pub proof fn law_create_comment_validation(p: CreateCommentPayload)
    ensures
        p.spec_first_invalid() is None <==> (Username::valid(p.username@) && Title::valid(
            p.parent_item_title@,
        ) && CommentText::valid(p.text@)),
        !Username::valid(p.username@) ==> p.spec_first_invalid() == Some("username"@),
        Username::valid(p.username@) && !Title::valid(p.parent_item_title@)
            ==> p.spec_first_invalid() == Some("parent_item_title"@),
        Username::valid(p.username@) && Title::valid(p.parent_item_title@) && !CommentText::valid(
            p.text@,
        ) ==> p.spec_first_invalid() == Some("text"@),
{
}

} // verus!
