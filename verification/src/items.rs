//! Item payloads and responses, and the rule for voting on an item.

use std::collections::{HashMap, HashSet};

use vstd::prelude::*;
use vstd::string::*;

use crate::auth::{result_view, AuthSession};
use crate::error::ApiError;
use crate::fields::{Text, Timestamp, Title, Username};
use crate::model::{
    new_content_id, now, Comment, FavoriteState, Item, ItemCategory, ItemType, Page,
    TextOrUrl, User, UserFavorite, UserVote, VoteState, INITIAL_POINTS,
};
use crate::users::{is_invalid_field, spec_auth_user, AuthUserResponseInternal};

verus! {

/// Number of items per page of a listing.
pub const ITEM_PAGE_SIZE: usize = 30;

/// How far back ranked listings reach: 48 hours.
pub const RANKED_ITEMS_MAX_AGE_SECONDS: i64 = 172800;

pub open spec fn spec_ranked_items_start(now: Timestamp) -> Timestamp {
    if now.0 - RANKED_ITEMS_MAX_AGE_SECONDS >= i64::MIN {
        Timestamp((now.0 - RANKED_ITEMS_MAX_AGE_SECONDS) as i64)
    } else {
        Timestamp(i64::MIN)
    }
}

/// The conflict error for a favorite request that asks for the state the
/// user already has.
pub open spec fn is_favorite_conflict(e: ApiError) -> bool {
    e matches ApiError::UniqueViolation(m) && m@ == "favorite already in the requested state"@
}

/// Decides a favorite request on an item, given whether the user already
/// favorites it: asking for the state already held is a conflict; otherwise
/// the new state to store (`true`: favorite).
pub fn favorite_item_decision(already_favorite: bool, requested: FavoriteState) -> (r: Result<
    bool,
    ApiError,
>)
    ensures
        already_favorite == (requested == FavoriteState::Favorite) ==> (r matches Err(e)
            && is_favorite_conflict(e)),
        already_favorite != (requested == FavoriteState::Favorite) ==> r == Ok::<bool, ApiError>(
            requested == FavoriteState::Favorite,
        ),
{
    let want = match requested {
        FavoriteState::Favorite => true,
        FavoriteState::Unfavorite => false,
    };
    if want == already_favorite {
        Err(ApiError::UniqueViolation(String::from_str("favorite already in the requested state")))
    } else {
        Ok(want)
    }
}

/// The earliest creation time of items in a ranked listing at `now`,
/// saturating at the earliest representable time.
pub fn ranked_items_start(now: Timestamp) -> (r: Timestamp)
    ensures
        r == spec_ranked_items_start(now),
{
    match now.0.checked_sub(RANKED_ITEMS_MAX_AGE_SECONDS) {
        Some(t) => Timestamp(t),
        None => Timestamp(i64::MIN),
    }
}

/// Validates a page number taken from a query: `InvalidPayload("page")` for page 0.
pub fn validate_page(page: &Page) -> (r: Result<(), ApiError>)
    ensures
        r is Ok <==> page.valid(),
        r matches Err(e) ==> is_invalid_field(e, "page"@),
{
    if page.validate() {
        Ok(())
    } else {
        Err(ApiError::InvalidPayload(String::from_str("page")))
    }
}

/// The error for an item that can no longer be edited or deleted.
pub open spec fn is_not_editable_error(e: ApiError) -> bool {
    e == ApiError::ForbiddenNotEditable
}

fn not_editable() -> (e: ApiError)
    ensures
        is_not_editable_error(e),
{
    ApiError::ForbiddenNotEditable
}

/// Decides whether the caller may edit `item` at `now`: the item must still be
/// editable, else the not-editable error; then the caller must be its
/// logged-in, unbanned author, who is returned.
pub fn assert_may_edit_item(item: &Item, session: &AuthSession, now: Timestamp) -> (r: Result<
    User,
    ApiError,
>)
    ensures
        !item.spec_is_editable(now) ==> (r matches Err(e) && is_not_editable_error(e)),
        item.spec_is_editable(now) ==> result_view(r) == session.spec_assert_match(item.username@),
{
    if !item.is_editable(now) {
        return Err(not_editable());
    }
    session.get_assert_user_from_session_assert_match(&item.username)
}

/// Decides whether the caller may delete `item` at `now`: the caller must be
/// its logged-in, unbanned author; then the item must still be editable, else
/// the not-editable error.
pub fn assert_may_delete_item(item: &Item, session: &AuthSession, now: Timestamp) -> (r: Result<
    User,
    ApiError,
>)
    ensures
        session.spec_assert_match(item.username@) matches Err(e) ==> r == Err::<User, ApiError>(e),
        session.spec_assert_match(item.username@) is Ok && !item.spec_is_editable(now) ==> (
        r matches Err(e) && is_not_editable_error(e)),
        session.spec_assert_match(item.username@) is Ok && item.spec_is_editable(now) ==> (
        result_view(r) == session.spec_assert_match(item.username@)),
{
    let user = match session.get_assert_user_from_session_assert_match(&item.username) {
        Ok(u) => u,
        Err(e) => return Err(e),
    };
    if !item.is_editable(now) {
        return Err(not_editable());
    }
    Ok(user)
}

/// A new item as submitted.
#[derive(Debug)]
pub struct CreateItemPayload {
    pub title: Title,
    pub item_type: ItemType,
    pub text_or_url_content: TextOrUrl,
    pub item_category: ItemCategory,
}

impl CreateItemPayload {
    /// The first invalid field, or `None` when the title and content are valid.
    pub open spec fn spec_first_invalid(&self) -> Option<Seq<char>> {
        if !Title::valid(self.title@) {
            Some("title"@)
        } else if !TextOrUrl::valid(self.text_or_url_content@) {
            Some("text_or_url_content"@)
        } else {
            None
        }
    }

    pub fn validate(&self) -> (r: Result<(), ApiError>)
        ensures
            r is Ok <==> self.spec_first_invalid() is None,
            r matches Err(e) ==> is_invalid_field(e, self.spec_first_invalid()->0),
    {
        if !self.title.validate() {
            return Err(ApiError::InvalidPayload(String::from_str("title")));
        }
        if !self.text_or_url_content.validate() {
            return Err(ApiError::InvalidPayload(String::from_str("text_or_url_content")));
        }
        Ok(())
    }

    /// Builds and validates a new item; `is_text` is not used.
    pub fn new(
        title: &str,
        item_type: ItemType,
        is_text: bool,
        text_or_url_content: TextOrUrl,
        item_category: ItemCategory,
    ) -> (r: Result<Self, ApiError>)
        ensures
            r is Ok <==> (Title::valid(title@) && TextOrUrl::valid(text_or_url_content@)),
            r matches Ok(p) ==> p.title@ == title@ && p.item_type == item_type
                && p.text_or_url_content@ == text_or_url_content@ && p.item_category
                == item_category,
            r matches Err(e) ==> (if !Title::valid(title@) {
                is_invalid_field(e, "title"@)
            } else {
                is_invalid_field(e, "text_or_url_content"@)
            }),
    {
        let payload = CreateItemPayload {
            title: Title::from_str(title),
            item_type,
            text_or_url_content,
            item_category,
        };
        match payload.validate() {
            Ok(()) => Ok(payload),
            Err(e) => Err(e),
        }
    }

    /// The item this payload creates for `username`: a fresh random id, created
    /// now, starting points, no comments.
    pub fn into_item(self, username: Username) -> (r: Item)
        ensures
            r.username@ == username@,
            r.title@ == self.title@,
            r.item_type == self.item_type,
            r.content@ == self.text_or_url_content@,
            r.item_category == self.item_category,
            r.points == INITIAL_POINTS,
            r.comment_count == 0,
            !r.dead,
    {
        Item::new(
            new_content_id(),
            username,
            self.title,
            self.item_type,
            self.text_or_url_content,
            self.item_category,
            now(),
        )
    }
}

/// A vote on an item or comment.
#[derive(Debug)]
pub struct VotePayload {
    pub content_id: u128,
    pub vote_state: VoteState,
}

impl VotePayload {
    pub fn new(content_id: &u128, vote: VoteState) -> (r: Self)
        ensures
            r.content_id == *content_id,
            r.vote_state == vote,
    {
        VotePayload { content_id: *content_id, vote_state: vote }
    }
}

/// A favorite or unfavorite of an item or comment.
#[derive(Debug)]
pub struct FavoritePayload {
    pub id: u128,
    pub favorite: FavoriteState,
}

impl FavoritePayload {
    pub fn new(id: &u128, favorite: FavoriteState) -> (r: Self)
        ensures
            r.id == *id,
            r.favorite == favorite,
    {
        FavoritePayload { id: *id, favorite }
    }
}

/// Whether a user hides or unhides an item.
#[derive(Debug, Clone, Copy, PartialEq, Eq, Structural)]
pub enum HiddenState {
    Hide,
    Unhide,
}

/// A hide or unhide of an item.
#[derive(Debug)]
pub struct HiddenPayload {
    pub id: u128,
    pub hidden: HiddenState,
}

/// An edit of an item's title, text, category and type.
#[derive(Debug)]
pub struct EditItemPayload {
    pub id: u128,
    pub title: Title,
    pub text: Text,
    pub category: ItemCategory,
    pub item_type: ItemType,
}

impl EditItemPayload {
    pub fn new(id: &u128, title: &str, text: &str, category: ItemCategory, item_type: ItemType) -> (r:
        Self)
        ensures
            r.id == *id,
            r.title@ == title@,
            r.text@ == text@,
            r.category == category,
            r.item_type == item_type,
    {
        EditItemPayload { id: *id, title: Title::from_str(title), text: Text::from_str(text), category, item_type }
    }

    /// The first invalid field, or `None`.
    pub open spec fn spec_first_invalid(&self) -> Option<Seq<char>> {
        if !Title::valid(self.title@) {
            Some("title"@)
        } else if !Text::valid(self.text@) {
            Some("text"@)
        } else {
            None
        }
    }

    pub fn validate(&self) -> (r: Result<(), ApiError>)
        ensures
            r is Ok <==> self.spec_first_invalid() is None,
            r matches Err(e) ==> is_invalid_field(e, self.spec_first_invalid()->0),
    {
        if !self.title.validate() {
            return Err(ApiError::InvalidPayload(String::from_str("title")));
        }
        if !self.text.validate() {
            return Err(ApiError::InvalidPayload(String::from_str("text")));
        }
        Ok(())
    }
}

/// How a listing of items is sorted or filtered.
#[derive(Debug, Clone, Copy, PartialEq, Eq, Structural)]
pub enum ItemKind {
    Ranked,
    Newest,
    RankedShow,
    Ask,
    BySiteDomain,
    ByUser,
    ByDay,
}

impl ItemKind {
    /// The default listing: ranked.
    pub fn default() -> (r: Self)
        ensures
            r == ItemKind::Ranked,
    {
        ItemKind::Ranked
    }
}

/// The vote that results when a user with vote `prior` submits `submitted`:
///
/// | prior \ submitted | up   | down |
/// | ----------------- | ---- | ---- |
/// | none              | up   | down |
/// | up                | none | down |
/// | down              | down | none |
///
/// Submitting no vote clears the vote.
pub open spec fn spec_vote_transition(prior: VoteState, submitted: VoteState) -> VoteState {
    match (prior, submitted) {
        (_, VoteState::NoVote) => VoteState::NoVote,
        (VoteState::NoVote, s) => s,
        (VoteState::Upvoted, VoteState::Upvoted) => VoteState::NoVote,
        (VoteState::Upvoted, VoteState::Downvoted) => VoteState::Downvoted,
        (VoteState::Downvoted, VoteState::Upvoted) => VoteState::Downvoted,
        (VoteState::Downvoted, VoteState::Downvoted) => VoteState::NoVote,
    }
}

pub fn vote_transition(prior: VoteState, submitted: VoteState) -> (r: VoteState)
    ensures
        r == spec_vote_transition(prior, submitted),
{
    match (prior, submitted) {
        (_, VoteState::NoVote) => VoteState::NoVote,
        (VoteState::NoVote, s) => s,
        (VoteState::Upvoted, VoteState::Upvoted) => VoteState::NoVote,
        (VoteState::Upvoted, VoteState::Downvoted) => VoteState::Downvoted,
        (VoteState::Downvoted, VoteState::Upvoted) => VoteState::Downvoted,
        (VoteState::Downvoted, VoteState::Downvoted) => VoteState::NoVote,
    }
}

/// The points a vote is worth: +1 up, -1 down, 0 none.
pub open spec fn spec_vote_value(v: VoteState) -> int {
    match v {
        VoteState::Upvoted => 1,
        VoteState::Downvoted => -1,
        VoteState::NoVote => 0,
    }
}

/// How an item's points change when a vote goes from `prior` to `next`.
pub fn points_delta(prior: VoteState, next: VoteState) -> (r: i32)
    ensures
        r == spec_vote_value(next) - spec_vote_value(prior),
{
    let a: i32 = match next {
        VoteState::Upvoted => 1,
        VoteState::Downvoted => -1,
        VoteState::NoVote => 0,
    };
    let b: i32 = match prior {
        VoteState::Upvoted => 1,
        VoteState::Downvoted => -1,
        VoteState::NoVote => 0,
    };
    a - b
}

/// Submitting an upvote twice in a row leaves the vote as it was.
pub proof fn law_repeated_upvote_cancels(prior: VoteState)
    ensures
        spec_vote_transition(spec_vote_transition(prior, VoteState::Upvoted), VoteState::Upvoted)
            == prior,
{
}

/// Submitting a downvote twice in a row leaves the vote as it was, unless the
/// first downvote replaced an upvote.
pub proof fn law_repeated_downvote_cancels(prior: VoteState)
    requires
        prior != VoteState::Upvoted,
    ensures
        spec_vote_transition(spec_vote_transition(prior, VoteState::Downvoted), VoteState::Downvoted)
            == prior,
{
}

/// Submitting a vote never leaves a vote of the other direction than submitted,
/// except a downvote that absorbs an upvote.
pub proof fn law_vote_result_is_submitted_or_none(prior: VoteState, submitted: VoteState)
    ensures
        spec_vote_transition(prior, submitted) == submitted || spec_vote_transition(
            prior,
            submitted,
        ) == VoteState::NoVote || (prior == VoteState::Downvoted && submitted
            == VoteState::Upvoted && spec_vote_transition(prior, submitted) == VoteState::Downvoted),
{
}

/// What a logged-in user sees about an item: whether they voted on it,
/// favorited it, and whether they can no longer edit or delete it.
#[derive(Debug)]
pub struct GetItemResponseAuthenticated {
    pub voted_on_by_user: bool,
    pub favorited_by_user: bool,
    pub edit_and_delete_expired: bool,
}

impl GetItemResponseAuthenticated {
    /// Editing and deleting have expired unless `user` submitted the item and
    /// it is still editable at `now`.
    pub fn new(
        item: &Item,
        vote: &Option<UserVote>,
        favorite: &Option<UserFavorite>,
        user: &User,
        now: Timestamp,
    ) -> (r: Self)
        ensures
            r.voted_on_by_user == vote is Some,
            r.favorited_by_user == favorite is Some,
            r.edit_and_delete_expired == (item.username@ != user.username@
                || !item.spec_is_editable(now)),
    {
        let edit_and_delete_expired = !item.username.same_as(&user.username) || !item.is_editable(
            now,
        );
        GetItemResponseAuthenticated {
            voted_on_by_user: vote.is_some(),
            favorited_by_user: favorite.is_some(),
            edit_and_delete_expired,
        }
    }
}

/// The vote recorded for `content_id` by the first vote in `votes` on it, if any.
pub open spec fn spec_find_vote(votes: Seq<UserVote>, content_id: u128) -> Option<VoteState>
    decreases votes.len(),
{
    if votes.len() == 0 {
        None
    } else if votes[0].content_id == content_id {
        Some(VoteState::spec_from_vote(votes[0]))
    } else {
        spec_find_vote(votes.drop_first(), content_id)
    }
}

/// Looks up the vote on `content_id` among `votes`.
pub fn find_vote(votes: &Vec<UserVote>, content_id: u128) -> (r: Option<VoteState>)
    ensures
        r == spec_find_vote(votes@, content_id),
{
    let n = votes.len();
    let mut i: usize = 0;
    assert(votes@.subrange(0, n as int) =~= votes@);
    while i < n
        invariant
            n == votes@.len(),
            i <= n,
            spec_find_vote(votes@, content_id) == spec_find_vote(
                votes@.subrange(i as int, n as int),
                content_id,
            ),
        decreases n - i,
    {
        if votes[i].content_id == content_id {
            return Some(VoteState::from_vote(&votes[i]));
        }
        assert(votes@.subrange(i as int, n as int).drop_first() =~= votes@.subrange(
            i + 1,
            n as int,
        ));
        i = i + 1;
    }
    None
}

/// A comment as shown on an item page to a logged-in user.
#[derive(Debug)]
pub struct GetItemCommentResponse {
    pub comment: Comment,
    pub edit_and_delete_expired: bool,
    pub vote_state: VoteState,
}

/// The error for a comment without a vote of the user.
pub open spec fn is_missing_vote_error(e: ApiError) -> bool {
    e matches ApiError::OtherISE(m) && m@ == "Comment vote not found"@
}

impl GetItemCommentResponse {
    /// The comment with its editability at `now` and the user's vote on it,
    /// which must be among `user_comment_votes` (else an internal error).
    pub fn new(comment: Comment, user_comment_votes: &Vec<UserVote>, now: Timestamp) -> (r: Result<
        Self,
        ApiError,
    >)
        ensures
            r is Ok <==> spec_find_vote(user_comment_votes@, comment.id) is Some,
            r matches Ok(c) ==> c.comment == comment && c.edit_and_delete_expired
                == !comment.spec_is_editable(now) && c.vote_state == spec_find_vote(
                user_comment_votes@,
                comment.id,
            )->0,
            r matches Err(e) ==> is_missing_vote_error(e),
    {
        let edit_and_delete_expired = !comment.is_editable(now);
        let vote_state = match find_vote(user_comment_votes, comment.id) {
            Some(v) => v,
            None => return Err(ApiError::OtherISE(String::from_str("Comment vote not found"))),
        };
        Ok(GetItemCommentResponse { comment, edit_and_delete_expired, vote_state })
    }
}

/// Whether a listing of `len` entries runs past page `page` of `per_page` entries.
pub open spec fn spec_is_more(len: int, page: int, per_page: int) -> bool {
    len > page * per_page
}

/// Decides `spec_is_more` without overflow.
pub fn is_more(len: usize, page: usize, per_page: usize) -> (b: bool)
    requires
        per_page > 0,
    ensures
        b == spec_is_more(len as int, page as int, per_page as int),
        b <==> len as int > page as int * per_page as int,
{
    if page > len / per_page {
        assert(page * per_page > len) by (nonlinear_arith)
            requires
                page > len / per_page,
                per_page > 0,
        ;
        false
    } else {
        assert(page * per_page <= len) by (nonlinear_arith)
            requires
                page <= len / per_page,
                per_page > 0,
        ;
        len > page * per_page
    }
}

/// More entries follow page `page` of `per_page` entries exactly when the
/// listing holds more than `page * per_page` entries, whatever the remainder.
pub proof fn law_more_follow_exactly_past_the_page(len: int, page: int, per_page: int)
    requires
        per_page > 0,
    ensures
        spec_is_more(len, page, per_page) <==> len > page * per_page,
        len > page * per_page ==> spec_is_more(len, page, per_page),
{
}

/// A listing with exactly `(page + 1) * per_page` entries has more entries
/// after page `page`: the page after it is full.
pub proof fn law_full_next_page_is_more(page: nat, per_page: nat)
    requires
        per_page > 0,
    ensures
        spec_is_more(((page + 1) * per_page) as int, page as int, per_page as int),
{
    assert((page + 1) * per_page == page * per_page + per_page) by (nonlinear_arith);
}

/// A page of comments on an item, with the logged-in user's view of each.
#[derive(Debug)]
pub struct WithCommentsResponse {
    pub comments: Vec<GetItemCommentResponse>,
    pub is_more_comments: bool,
    pub authenticated_item_data: Option<GetItemResponseAuthenticated>,
}

/// Whether every comment has a vote among `votes`.
pub open spec fn all_comments_voted(comments: Seq<Comment>, votes: Seq<UserVote>) -> bool {
    forall|i: int| 0 <= i < comments.len() ==> spec_find_vote(votes, #[trigger] comments[i].id) is Some
}

impl WithCommentsResponse {
    /// Each comment of one page with the user's vote on it; there are more
    /// comments beyond this page when the item has more than
    /// `page * COMMENTS_PER_PAGE` comments in all (`total_comments`). Fails with the
    /// missing-vote error when a comment has no vote among `user_comment_votes`.
    pub fn new(
        comments: Vec<Comment>,
        total_comments: usize,
        page: usize,
        authenticated_item_data: Option<GetItemResponseAuthenticated>,
        user_comment_votes: Vec<UserVote>,
        now: Timestamp,
    ) -> (r: Result<Self, ApiError>)
        ensures
            r is Ok <==> all_comments_voted(comments@, user_comment_votes@),
            r matches Err(e) ==> is_missing_vote_error(e),
            r matches Ok(w) ==> {
                &&& w.is_more_comments == spec_is_more(
                    total_comments as int,
                    page as int,
                    crate::COMMENTS_PER_PAGE as int,
                )
                &&& w.authenticated_item_data == authenticated_item_data
                &&& w.comments@.len() == comments@.len()
                &&& forall|i: int|
                    0 <= i < comments@.len() ==> {
                        &&& (#[trigger] w.comments@[i]).comment == comments@[i]
                        &&& w.comments@[i].edit_and_delete_expired
                            == !comments@[i].spec_is_editable(now)
                        &&& w.comments@[i].vote_state == spec_find_vote(
                            user_comment_votes@,
                            comments@[i].id,
                        )->0
                    }
            },
    {
        let is_more_comments = is_more(total_comments, page, crate::COMMENTS_PER_PAGE);
        let ghost input = comments@;
        let mut out: Vec<GetItemCommentResponse> = Vec::new();
        let mut remaining = comments;
        let n = remaining.len();
        let mut i: usize = 0;
        assert(remaining@ =~= input.subrange(0, n as int));
        while i < n
            invariant
                n == input.len(),
                input == comments@,
                i <= n,
                remaining@ =~= input.subrange(i as int, n as int),
                out@.len() == i,
                forall|j: int|
                    0 <= j < i ==> {
                        &&& (#[trigger] out@[j]).comment == input[j]
                        &&& out@[j].edit_and_delete_expired == !input[j].spec_is_editable(now)
                        &&& spec_find_vote(user_comment_votes@, input[j].id) is Some
                        &&& out@[j].vote_state == spec_find_vote(
                            user_comment_votes@,
                            input[j].id,
                        )->0
                    },
            decreases n - i,
        {
            let c = remaining.remove(0);
            assert(c == input[i as int]);
            match GetItemCommentResponse::new(c, &user_comment_votes, now) {
                Ok(resp) => out.push(resp),
                Err(e) => {
                    assert(spec_find_vote(user_comment_votes@, input[i as int].id) is None);
                    assert(!all_comments_voted(input, user_comment_votes@));
                    return Err(e);
                },
            }
            i = i + 1;
        }
        assert(all_comments_voted(input, user_comment_votes@)) by {
            assert forall|j: int| 0 <= j < input.len() implies spec_find_vote(
                user_comment_votes@,
                #[trigger] input[j].id,
            ) is Some by {
                assert(out@[j].comment == input[j]);
            }
        }
        Ok(WithCommentsResponse { comments: out, is_more_comments, authenticated_item_data })
    }
}

/// The vote state shown on a comment: the user's vote among `votes` when the
/// caller's votes are given, no vote otherwise.
pub open spec fn shown_vote(votes: Option<Seq<UserVote>>, id: u128) -> VoteState {
    match votes {
        Some(v) => spec_find_vote(v, id)->0,
        None => VoteState::NoVote,
    }
}

impl WithCommentsResponse {
    /// Each comment of one page with no vote state, for a visitor whose votes
    /// are not known; there are more comments beyond this page when the item
    /// has more than `page * COMMENTS_PER_PAGE` comments in all (`total_comments`).
    pub fn without_votes(
        comments: Vec<Comment>,
        total_comments: usize,
        page: usize,
        authenticated_item_data: Option<GetItemResponseAuthenticated>,
        now: Timestamp,
    ) -> (w: Self)
        ensures
            w.is_more_comments == spec_is_more(
                total_comments as int,
                page as int,
                crate::COMMENTS_PER_PAGE as int,
            ),
            w.authenticated_item_data == authenticated_item_data,
            w.comments@.len() == comments@.len(),
            forall|i: int|
                0 <= i < comments@.len() ==> {
                    &&& (#[trigger] w.comments@[i]).comment == comments@[i]
                    &&& w.comments@[i].edit_and_delete_expired
                        == !comments@[i].spec_is_editable(now)
                    &&& w.comments@[i].vote_state == VoteState::NoVote
                },
    {
        let is_more_comments = is_more(total_comments, page, crate::COMMENTS_PER_PAGE);
        let ghost input = comments@;
        let mut out: Vec<GetItemCommentResponse> = Vec::new();
        let mut remaining = comments;
        let n = remaining.len();
        let mut i: usize = 0;
        assert(remaining@ =~= input.subrange(0, n as int));
        while i < n
            invariant
                n == input.len(),
                input == comments@,
                i <= n,
                remaining@ =~= input.subrange(i as int, n as int),
                out@.len() == i,
                forall|j: int|
                    0 <= j < i ==> {
                        &&& (#[trigger] out@[j]).comment == input[j]
                        &&& out@[j].edit_and_delete_expired == !input[j].spec_is_editable(now)
                        &&& out@[j].vote_state == VoteState::NoVote
                    },
            decreases n - i,
        {
            let c = remaining.remove(0);
            assert(c == input[i as int]);
            let edit_and_delete_expired = !c.is_editable(now);
            out.push(
                GetItemCommentResponse {
                    comment: c,
                    edit_and_delete_expired,
                    vote_state: VoteState::NoVote,
                },
            );
            i = i + 1;
        }
        WithCommentsResponse { comments: out, is_more_comments, authenticated_item_data }
    }
}

/// An item page: the item, the page of its comments, and the caller's
/// authentication state.
#[derive(Debug)]
pub struct GetItemResponse {
    pub item: Item,
    pub with_comments: Option<WithCommentsResponse>,
    pub auth_user: AuthUserResponseInternal,
}

impl GetItemResponse {
    /// The item with its page of comments (of `total_comments` in all), for
    /// every caller: with the user's
    /// vote on each comment when the user's comment votes are given (failing as
    /// `WithCommentsResponse::new` fails), with no vote state otherwise. The
    /// authentication state is that of `session_user`, signed out when absent.
    pub fn new(
        item: Item,
        comments: Vec<Comment>,
        total_comments: usize,
        page: usize,
        authenticated_item_data: Option<GetItemResponseAuthenticated>,
        session_user: Option<User>,
        user_comment_votes: Option<Vec<UserVote>>,
        now: Timestamp,
    ) -> (r: Result<Self, ApiError>)
        ensures
            r is Err <==> (user_comment_votes matches Some(v) && !all_comments_voted(
                comments@,
                v@,
            )),
            r matches Err(e) ==> is_missing_vote_error(e),
            r matches Ok(resp) ==> {
                &&& resp.item == item
                &&& resp.auth_user@ == match session_user {
                    Some(u) => spec_auth_user(u@, true),
                    None => crate::users::spec_signed_out(false),
                }
                &&& resp.with_comments matches Some(w) && {
                    &&& w.comments@.len() == comments@.len()
                    &&& w.is_more_comments == spec_is_more(
                        total_comments as int,
                        page as int,
                        crate::COMMENTS_PER_PAGE as int,
                    )
                    &&& w.authenticated_item_data == authenticated_item_data
                    &&& forall|i: int|
                        0 <= i < comments@.len() ==> {
                            &&& (#[trigger] w.comments@[i]).comment == comments@[i]
                            &&& w.comments@[i].edit_and_delete_expired
                                == !comments@[i].spec_is_editable(now)
                            &&& w.comments@[i].vote_state == shown_vote(
                                match user_comment_votes {
                                    Some(v) => Some(v@),
                                    None => None,
                                },
                                comments@[i].id,
                            )
                        }
                }
            },
    {
        let auth_user = match session_user {
            Some(u) => AuthUserResponseInternal::new(u, true),
            None => AuthUserResponseInternal::default(),
        };
        let with_comments = match user_comment_votes {
            Some(votes) => match WithCommentsResponse::new(
                comments,
                total_comments,
                page,
                authenticated_item_data,
                votes,
                now,
            ) {
                Ok(w) => w,
                Err(e) => return Err(e),
            },
            None => WithCommentsResponse::without_votes(
                comments,
                total_comments,
                page,
                authenticated_item_data,
                now,
            ),
        };
        Ok(GetItemResponse { item, with_comments: Some(with_comments), auth_user })
    }
}

/// An item in a listing, with its position on the page and the caller's view of it.
#[derive(Debug)]
pub struct RankedItemResponse {
    pub page_rank: usize,
    pub item: Item,
    pub vote: Option<UserVote>,
    pub edit_and_delete_expired: bool,
}

/// The name a possibly absent caller is compared by: theirs, or the empty name.
pub open spec fn name_or_empty(username: Option<Seq<char>>) -> Seq<char> {
    match username {
        Some(n) => n,
        None => Seq::empty(),
    }
}

impl RankedItemResponse {
    /// Editing and deleting have expired unless the caller submitted the item
    /// and it is still editable at `now`.
    pub fn new(
        page_rank: usize,
        item: Item,
        vote: Option<UserVote>,
        username: Option<&Username>,
        now: Timestamp,
    ) -> (r: Self)
        ensures
            r.page_rank == page_rank,
            r.item == item,
            r.vote == vote,
            r.edit_and_delete_expired == (item.username@ != name_or_empty(
                match username {
                    Some(u) => Some(u@),
                    None => None,
                },
            ) || !item.spec_is_editable(now)),
    {
        let is_author = match username {
            Some(u) => item.username.same_as(u),
            None => {
                let empty = item.username.0.as_str().unicode_len() == 0;
                if empty {
                    assert(item.username@ =~= Seq::<char>::empty());
                }
                empty
            },
        };
        let edit_and_delete_expired = !is_author || !item.is_editable(now);
        RankedItemResponse { page_rank, item, vote, edit_and_delete_expired }
    }
}

/// The items of a listing that are not among the `hidden` ids, in order.
pub open spec fn spec_unhidden(items: Seq<Item>, hidden: Set<u128>) -> Seq<Item>
    decreases items.len(),
{
    if items.len() == 0 {
        Seq::empty()
    } else {
        let rest = spec_unhidden(items.drop_last(), hidden);
        if hidden.contains(items.last().id) {
            rest
        } else {
            rest.push(items.last())
        }
    }
}

/// Leaves out of a listing the items the user has hidden, keeping the order
/// of the rest.
pub fn filter_hidden(items: Vec<Item>, hidden: &HashSet<u128>) -> (r: Vec<Item>)
    ensures
        r@ == spec_unhidden(items@, hidden@),
        forall|i: int| 0 <= i < r@.len() ==> !hidden@.contains(#[trigger] r@[i].id),
{
    broadcast use vstd::std_specs::hash::group_hash_axioms;

    let ghost input = items@;
    let mut remaining = items;
    let n = remaining.len();
    let mut out: Vec<Item> = Vec::new();
    let mut i: usize = 0;
    assert(remaining@ =~= input.subrange(0, n as int));
    assert(input.take(0) =~= Seq::<Item>::empty());
    while i < n
        invariant
            n == input.len(),
            i <= n,
            remaining@ =~= input.subrange(i as int, n as int),
            out@ == spec_unhidden(input.take(i as int), hidden@),
            forall|j: int| 0 <= j < out@.len() ==> !hidden@.contains(#[trigger] out@[j].id),
        decreases n - i,
    {
        let item = remaining.remove(0);
        assert(item == input[i as int]);
        assert(input.take(i + 1).drop_last() =~= input.take(i as int));
        assert(input.take(i + 1).last() == input[i as int]);
        if !hidden.contains(&item.id) {
            out.push(item);
        }
        i = i + 1;
    }
    assert(input.take(n as int) =~= input);
    out
}

/// A page of items in a listing.
#[derive(Debug)]
pub struct GetItemsPageResponse {
    pub items: Vec<RankedItemResponse>,
    pub is_more: bool,
    pub count: usize,
}

impl GetItemsPageResponse {
    /// Ranks the items of one page in order, each with the caller's vote on it
    /// from `votes`; there are more items when `count` exceeds the items of
    /// pages up to `page`.
    pub fn new(
        items: Vec<Item>,
        count: usize,
        page: Page,
        votes: HashMap<u128, UserVote>,
        username: Option<&Username>,
        now: Timestamp,
    ) -> (r: Self)
        ensures
            r.count == count,
            r.is_more == spec_is_more(count as int, page.page as int, ITEM_PAGE_SIZE as int),
            r.items@.len() == items@.len(),
            forall|i: int|
                0 <= i < items@.len() ==> {
                    &&& (#[trigger] r.items@[i]).page_rank == i
                    &&& r.items@[i].item == items@[i]
                    &&& (r.items@[i].vote is Some <==> votes@.contains_key(items@[i].id))
                    &&& (r.items@[i].vote matches Some(v) ==> v.content_id
                        == votes@[items@[i].id].content_id && v.upvote
                        == votes@[items@[i].id].upvote && v.downvote
                        == votes@[items@[i].id].downvote && v.username@
                        == votes@[items@[i].id].username@ && v.date == votes@[items@[i].id].date)
                    &&& r.items@[i].edit_and_delete_expired == (items@[i].username@
                        != name_or_empty(
                        match username {
                            Some(u) => Some(u@),
                            None => None,
                        },
                    ) || !items@[i].spec_is_editable(now))
                },
    {
        broadcast use vstd::std_specs::hash::group_hash_axioms;

        let is_more = is_more(count, page.page as usize, ITEM_PAGE_SIZE);
        let ghost input = items@;
        let mut remaining = items;
        let n = remaining.len();
        let mut out: Vec<RankedItemResponse> = Vec::new();
        let mut i: usize = 0;
        assert(remaining@ =~= input.subrange(0, n as int));
        while i < n
            invariant
                n == input.len(),
                i <= n,
                remaining@ =~= input.subrange(i as int, n as int),
                out@.len() == i,
                forall|j: int|
                    0 <= j < i ==> {
                        &&& (#[trigger] out@[j]).page_rank == j
                        &&& out@[j].item == input[j]
                        &&& (out@[j].vote is Some <==> votes@.contains_key(input[j].id))
                        &&& (out@[j].vote matches Some(v) ==> v.content_id
                            == votes@[input[j].id].content_id && v.upvote
                            == votes@[input[j].id].upvote && v.downvote
                            == votes@[input[j].id].downvote && v.username@
                            == votes@[input[j].id].username@ && v.date
                            == votes@[input[j].id].date)
                        &&& out@[j].edit_and_delete_expired == (input[j].username@
                            != name_or_empty(
                            match username {
                                Some(u) => Some(u@),
                                None => None,
                            },
                        ) || !input[j].spec_is_editable(now))
                    },
            decreases n - i,
        {
            let item = remaining.remove(0);
            assert(item == input[i as int]);
            let vote = match votes.get(&item.id) {
                Some(v) => Some(v.clone()),
                None => None,
            };
            out.push(RankedItemResponse::new(i, item, vote, username, now));
            i = i + 1;
        }
        GetItemsPageResponse { items: out, is_more, count }
    }
}

/// An item submission is accepted exactly when its title is valid and its
/// content is a valid text or a valid link; an invalid title is reported first.
pub proof fn law_create_item_validation(p: CreateItemPayload)
    ensures
        p.spec_first_invalid() is None <==> (Title::valid(p.title@) && match p.text_or_url_content {
            TextOrUrl::Text(t) => Text::valid(t@),
            TextOrUrl::Url(u) => crate::fields::ascii_len_between(
                u@,
                1,
                crate::fields::URL_MAX as nat,
            ),
        }),
        !Title::valid(p.title@) ==> p.spec_first_invalid() == Some("title"@),
{
}

/// An edit is accepted exactly when its title and text are valid; an invalid
/// title is reported first.
pub proof fn law_edit_item_validation(p: EditItemPayload)
    ensures
        p.spec_first_invalid() is None <==> (Title::valid(p.title@) && Text::valid(p.text@)),
        !Title::valid(p.title@) ==> p.spec_first_invalid() == Some("title"@),
        Title::valid(p.title@) && !Text::valid(p.text@) ==> p.spec_first_invalid() == Some(
            "text"@,
        ),
{
}

/// An item can be edited or deleted exactly while it has no comments and
/// less than an hour (3600 seconds) has passed since it was created.
pub proof fn law_item_edit_window(item: Item, now: Timestamp)
    ensures
        item.spec_is_editable(now) <==> (now.0 - item.created.0 < 3600 && item.comment_count
            == 0),
{
}

/// The voting table of an item: from no vote a vote is taken as submitted; a
/// repeated vote is withdrawn; a downvote replaces an upvote; an upvote over a
/// downvote leaves the downvote; submitting no vote clears the vote.
pub proof fn law_vote_table(prior: VoteState)
    ensures
        spec_vote_transition(VoteState::NoVote, VoteState::Upvoted) == VoteState::Upvoted,
        spec_vote_transition(VoteState::NoVote, VoteState::Downvoted) == VoteState::Downvoted,
        spec_vote_transition(VoteState::Upvoted, VoteState::Upvoted) == VoteState::NoVote,
        spec_vote_transition(VoteState::Upvoted, VoteState::Downvoted) == VoteState::Downvoted,
        spec_vote_transition(VoteState::Downvoted, VoteState::Upvoted) == VoteState::Downvoted,
        spec_vote_transition(VoteState::Downvoted, VoteState::Downvoted) == VoteState::NoVote,
        spec_vote_transition(prior, VoteState::NoVote) == VoteState::NoVote,
{
}

/// A vote moves an item's points by the difference of the votes' worth, an
/// upvote worth one point and a downvote minus one.
pub proof fn law_vote_points()
    ensures
        spec_vote_value(VoteState::Upvoted) == 1,
        spec_vote_value(VoteState::Downvoted) == -1,
        spec_vote_value(VoteState::NoVote) == 0,
{
}

} // verus!
