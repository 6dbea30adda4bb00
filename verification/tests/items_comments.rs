use api::items::favorite_item_decision;
use std::collections::HashSet;
use std::collections::HashMap;
use api::items::{assert_may_delete_item, assert_may_edit_item};

use api::comments::{comment_vote_action, comment_with_vote, favorite_action, CommentVoteAction, FavoriteAction};
use api::fields::{CommentText, Text, Timestamp, Title, Username};
use api::items::{is_more, points_delta, ranked_items_start, vote_transition, find_vote};
use api::model::{Comment, FavoriteState, Item, ItemCategory, ItemType, Page, TextOrUrl, UserVote, EDIT_WINDOW_SECONDS};
use api::{
    generate_user_token, ApiError, CreateCommentPayload, CreateItemPayload, EditItemPayload,
    FavoritePayload, GetItemCommentResponse, GetItemResponse, GetItemResponseAuthenticated,
    GetItemsPageResponse, ItemKind, RankedItemResponse, VotePayload, VoteState,
    WithCommentsResponse,
};

fn item(id: u128, by: &str, created: i64, comments: i32) -> Item {
    let mut i = Item::new(
        id,
        Username::from_str(by),
        Title::from_str("a title"),
        ItemType::News,
        TextOrUrl::Url("http://x.com".to_string()),
        ItemCategory::Other,
        Timestamp(created),
    );
    i.comment_count = comments;
    i
}

fn comment(id: u128, created: i64) -> Comment {
    Comment::new(
        id,
        Username::from_str("bob"),
        1,
        Title::from_str("t"),
        true,
        None,
        None,
        CommentText::from_str("text"),
        false,
        Timestamp(created),
    )
}

fn vote(id: u128, up: bool, down: bool) -> UserVote {
    UserVote { username: Username::from_str("alice"), content_id: id, upvote: up, downvote: down, date: Timestamp(0) }
}

#[test]
fn vote_table() {
    assert_eq!(vote_transition(VoteState::NoVote, VoteState::Upvoted), VoteState::Upvoted);
    assert_eq!(vote_transition(VoteState::NoVote, VoteState::Downvoted), VoteState::Downvoted);
    assert_eq!(vote_transition(VoteState::Upvoted, VoteState::Upvoted), VoteState::NoVote);
    assert_eq!(vote_transition(VoteState::Upvoted, VoteState::Downvoted), VoteState::Downvoted);
    assert_eq!(vote_transition(VoteState::Downvoted, VoteState::Upvoted), VoteState::Downvoted);
    assert_eq!(vote_transition(VoteState::Downvoted, VoteState::Downvoted), VoteState::NoVote);
    assert_eq!(vote_transition(VoteState::Upvoted, VoteState::NoVote), VoteState::NoVote);
    for s in [VoteState::NoVote, VoteState::Upvoted, VoteState::Downvoted] {
        assert_eq!(vote_transition(vote_transition(s, VoteState::Upvoted), VoteState::Upvoted), s);
    }
    assert_eq!(points_delta(VoteState::NoVote, VoteState::Upvoted), 1);
    assert_eq!(points_delta(VoteState::Upvoted, VoteState::Downvoted), -2);
    assert_eq!(points_delta(VoteState::Downvoted, VoteState::NoVote), 1);
}

#[test]
fn vote_state_from_records() {
    assert_eq!(VoteState::from_vote(&vote(1, true, false)), VoteState::Upvoted);
    assert_eq!(VoteState::from_vote(&vote(1, false, true)), VoteState::Downvoted);
    assert_eq!(VoteState::from_vote(&vote(1, false, false)), VoteState::NoVote);
    assert_eq!(VoteState::from_code(1), VoteState::Upvoted);
    assert_eq!(VoteState::from_code(-1), VoteState::Downvoted);
    assert_eq!(VoteState::from_code(0), VoteState::NoVote);
}

#[test]
fn more_pages() {
    assert!(is_more(11, 1, 10));
    assert!(!is_more(10, 1, 10));
    assert!(!is_more(5, usize::MAX, 10));
    assert!(is_more(1, 0, 10));
}

#[test]
fn editability() {
    let fresh = item(1, "alice", 1000, 0);
    assert!(fresh.is_editable(Timestamp(1000 + EDIT_WINDOW_SECONDS - 1)));
    assert!(!fresh.is_editable(Timestamp(1000 + EDIT_WINDOW_SECONDS)));
    assert!(!item(1, "alice", 1000, 2).is_editable(Timestamp(1001)));
    assert!(comment(1, 0).is_editable(Timestamp(10)));
    assert!(!comment(1, 0).is_editable(Timestamp(EDIT_WINDOW_SECONDS)));
}

#[test]
fn create_item_payload() {
    let p = CreateItemPayload::new("A title", ItemType::Ask, true, TextOrUrl::Text(Text::from_str("body")), ItemCategory::Blog).unwrap();
    assert_eq!(p.title.0, "A title");
    assert!(matches!(
        CreateItemPayload::new("", ItemType::Ask, true, TextOrUrl::Text(Text::from_str("body")), ItemCategory::Blog),
        Err(ApiError::InvalidPayload(m)) if m == "title"
    ));
    assert!(matches!(
        CreateItemPayload::new("ok", ItemType::News, false, TextOrUrl::Url(String::new()), ItemCategory::Other),
        Err(ApiError::InvalidPayload(m)) if m == "text_or_url_content"
    ));
    let it = p.into_item(Username::from_str("alice"));
    assert_eq!(it.username.0, "alice");
    assert_eq!(it.points, 1);
    assert_eq!(it.comment_count, 0);
}

#[test]
fn small_payloads() {
    let v = VotePayload::new(&7, VoteState::Upvoted);
    assert_eq!(v.content_id, 7);
    let f = FavoritePayload::new(&8, FavoriteState::Favorite);
    assert_eq!(f.id, 8);
    let e = EditItemPayload::new(&9, "title", "text", ItemCategory::Paper, ItemType::Show);
    assert_eq!(e.title.0, "title");
    assert!(e.validate().is_ok());
    assert_eq!(ItemKind::default(), ItemKind::Ranked);
}

#[test]
fn authenticated_item_data() {
    let u = api::model::User::new(Username::from_str("alice"), api::fields::PasswordHash("h".into()), None, None, Timestamp(0));
    let mine = item(1, "alice", 100, 0);
    let d = GetItemResponseAuthenticated::new(&mine, &Some(vote(1, true, false)), &None, &u, Timestamp(200));
    assert!(d.voted_on_by_user && !d.favorited_by_user && !d.edit_and_delete_expired);
    let theirs = item(2, "bob", 100, 0);
    let d = GetItemResponseAuthenticated::new(&theirs, &None, &None, &u, Timestamp(200));
    assert!(d.edit_and_delete_expired);
}

#[test]
fn comment_votes_on_item_page() {
    let votes = vec![vote(1, true, false), vote(2, false, true)];
    assert_eq!(find_vote(&votes, 2), Some(VoteState::Downvoted));
    assert_eq!(find_vote(&votes, 3), None);
    let r = GetItemCommentResponse::new(comment(2, 0), &votes, Timestamp(10)).unwrap();
    assert_eq!(r.vote_state, VoteState::Downvoted);
    assert!(!r.edit_and_delete_expired);
    assert!(matches!(
        GetItemCommentResponse::new(comment(3, 0), &votes, Timestamp(10)),
        Err(ApiError::OtherISE(m)) if m == "Comment vote not found"
    ));
    let w = WithCommentsResponse::new(vec![comment(1, 0), comment(2, 0)], 12, 1, None, votes.clone(), Timestamp(10)).unwrap();
    assert_eq!(w.comments.len(), 2);
    assert!(w.is_more_comments);
    assert_eq!(w.comments[0].comment.id, 1);
    assert_eq!(w.comments[1].vote_state, VoteState::Downvoted);
    // Page 2 of 12 comments, ten per page, is the last.
    let last = WithCommentsResponse::new(vec![comment(1, 0), comment(2, 0)], 12, 2, None, votes.clone(), Timestamp(10)).unwrap();
    assert!(!last.is_more_comments);
    assert!(WithCommentsResponse::new(vec![comment(1, 0), comment(5, 0)], 12, 1, None, votes, Timestamp(10)).is_err());
}

#[test]
fn item_page() {
    let anon = GetItemResponse::new(item(1, "bob", 0, 0), vec![comment(9, 0)], 11, 1, None, None, None, Timestamp(5)).unwrap();
    let w = anon.with_comments.as_ref().unwrap();
    assert_eq!(w.comments.len(), 1);
    assert_eq!(w.comments[0].comment.id, 9);
    assert_eq!(w.comments[0].vote_state, VoteState::NoVote);
    assert!(!w.comments[0].edit_and_delete_expired);
    assert!(w.is_more_comments);
    assert!(!anon.auth_user.user_signed_in);
    let u = api::model::User::new(Username::from_str("alice"), api::fields::PasswordHash("h".into()), None, None, Timestamp(0));
    let logged = GetItemResponse::new(item(1, "bob", 0, 0), vec![comment(9, 0)], 1, 1, None, Some(u), Some(vec![vote(9, false, false)]), Timestamp(5)).unwrap();
    let w = logged.with_comments.unwrap();
    assert_eq!(w.comments[0].vote_state, VoteState::NoVote);
    assert!(!w.is_more_comments);
    assert!(logged.auth_user.user_signed_in);
}

#[test]
fn items_listing() {
    let mut votes = HashMap::new();
    votes.insert(2u128, vote(2, true, false));
    let alice = Username::from_str("alice");
    let page = GetItemsPageResponse::new(
        vec![item(1, "alice", 100, 0), item(2, "bob", 100, 0)],
        31,
        Page { page: 1 },
        votes,
        Some(&alice),
        Timestamp(200),
    );
    assert!(page.is_more);
    assert_eq!(page.count, 31);
    assert_eq!(page.items.len(), 2);
    assert_eq!(page.items[0].page_rank, 0);
    assert_eq!(page.items[1].page_rank, 1);
    assert!(page.items[0].vote.is_none());
    assert!(page.items[1].vote.as_ref().unwrap().upvote);
    assert!(!page.items[0].edit_and_delete_expired);
    assert!(page.items[1].edit_and_delete_expired);
    let r = RankedItemResponse::new(4, item(3, "alice", 0, 0), None, None, Timestamp(1));
    assert!(r.edit_and_delete_expired);
    let p2 = GetItemsPageResponse::new(vec![], 30, Page { page: 1 }, HashMap::new(), None, Timestamp(0));
    assert!(!p2.is_more);
}

#[test]
fn ranked_window() {
    assert_eq!(ranked_items_start(Timestamp(200000)), Timestamp(200000 - 172800));
    assert_eq!(ranked_items_start(Timestamp(i64::MIN + 1)), Timestamp(i64::MIN));
}

#[test]
fn comment_payloads() {
    let p = CreateCommentPayload {
        username: Username::from_str("alice"),
        parent_item_id: 4,
        parent_item_title: Title::from_str("story"),
        is_parent: true,
        root_comment_id: None,
        parent_comment_id: Some(3),
        text: CommentText::from_str("nice"),
        dead: false,
    };
    assert!(p.validate().is_ok());
    let c = p.into_comment();
    assert_eq!(c.username.0, "alice");
    assert_eq!(c.parent_item_id, 4);
    assert_eq!(c.parent_comment_id, Some(3));
    assert_eq!(c.text.0, "nice");
    assert_eq!(c.points, 1);
    let bad = CreateCommentPayload {
        username: Username::from_str("alice"),
        parent_item_id: 4,
        parent_item_title: Title::from_str("story"),
        is_parent: true,
        root_comment_id: None,
        parent_comment_id: None,
        text: CommentText::from_str(""),
        dead: false,
    };
    assert!(matches!(bad.try_into_comment(), Err(ApiError::InvalidPayload(m)) if m == "text"));
}

#[test]
fn comment_vote_and_favorite_decisions() {
    assert_eq!(comment_vote_action(&Some(vote(1, true, false)), 1), CommentVoteAction::Unchanged);
    assert_eq!(comment_vote_action(&Some(vote(1, true, false)), -1), CommentVoteAction::Submit(VoteState::Downvoted));
    assert_eq!(comment_vote_action(&None, 1), CommentVoteAction::Submit(VoteState::Upvoted));
    assert_eq!(favorite_action(true, 1), FavoriteAction::Unchanged);
    assert_eq!(favorite_action(false, 0), FavoriteAction::Unchanged);
    assert_eq!(favorite_action(true, 0), FavoriteAction::Update);
    assert_eq!(favorite_action(false, 1), FavoriteAction::Update);
    let (c, v) = comment_with_vote(comment(1, 0), true, &Some(vote(1, false, true)));
    assert_eq!(c.id, 1);
    assert_eq!(v, Some(VoteState::Downvoted));
    let (_, v) = comment_with_vote(comment(1, 0), false, &Some(vote(1, false, true)));
    assert_eq!(v, None);
}

#[test]
fn tokens_are_forty_hex_digits() {
    for _ in 0..20 {
        let (token, _exp) = generate_user_token();
        assert_eq!(token.0.len(), 40);
        assert!(token.0.chars().all(|c| c.is_ascii_hexdigit()));
    }
}

fn session_of(name: &str) -> api::AuthSession {
    let u = api::model::User::new(
        Username::from_str(name),
        api::fields::PasswordHash("h".to_string()),
        None,
        None,
        Timestamp(0),
    );
    api::AuthSession { user: Some(u) }
}

#[test]
fn page_query_is_validated() {
    assert!(api::items::validate_page(&Page { page: 1 }).is_ok());
    assert!(matches!(
        api::items::validate_page(&Page { page: 0 }),
        Err(ApiError::InvalidPayload(m)) if m == "page"
    ));
}

#[test]
fn editing_an_item() {
    let fresh = item(1, "alice", 1000, 0);
    let now = Timestamp(1000 + EDIT_WINDOW_SECONDS - 1);
    assert_eq!(assert_may_edit_item(&fresh, &session_of("alice"), now).unwrap().username.0, "alice");
    assert!(matches!(
        assert_may_edit_item(&fresh, &session_of("bob"), now),
        Err(ApiError::ForbiddenUsernameDoesNotMatchSession)
    ));
    assert!(matches!(
        assert_may_edit_item(&fresh, &api::AuthSession { user: None }, now),
        Err(ApiError::UnauthorizedPleaseLogin)
    ));
    let late = Timestamp(1000 + EDIT_WINDOW_SECONDS);
    assert!(matches!(
        assert_may_edit_item(&fresh, &session_of("bob"), late),
        Err(ApiError::ForbiddenNotEditable)
    ));
    let commented = item(2, "alice", 1000, 3);
    assert!(matches!(
        assert_may_edit_item(&commented, &session_of("alice"), now),
        Err(ApiError::ForbiddenNotEditable)
    ));
}

#[test]
fn deleting_an_item() {
    let fresh = item(1, "alice", 1000, 0);
    let now = Timestamp(1000 + EDIT_WINDOW_SECONDS - 1);
    let late = Timestamp(1000 + EDIT_WINDOW_SECONDS);
    assert!(assert_may_delete_item(&fresh, &session_of("alice"), now).is_ok());
    // The author is checked before the edit window.
    assert!(matches!(
        assert_may_delete_item(&fresh, &session_of("bob"), late),
        Err(ApiError::ForbiddenUsernameDoesNotMatchSession)
    ));
    assert!(matches!(
        assert_may_delete_item(&fresh, &session_of("alice"), late),
        Err(ApiError::ForbiddenNotEditable)
    ));
}

#[test]
fn new_items_get_fresh_ids_and_the_current_time() {
    let before = api::now().0;
    let mk = || {
        CreateItemPayload::new("t", ItemType::News, false, TextOrUrl::Url("http://a.b".to_string()), ItemCategory::Other)
            .unwrap()
            .into_item(Username::from_str("alice"))
    };
    let a = mk();
    let b = mk();
    assert_ne!(a.id, b.id);
    assert!(before > 1_600_000_000);
    assert!(a.created.0 >= before && a.created.0 <= api::now().0);
    let (_token, exp) = generate_user_token();
    let week = api::model::TOKEN_LIFETIME_SECONDS;
    assert!(exp.0 >= before + week && exp.0 <= api::now().0 + week);
}

#[test]
fn token_spelled_by_draws() {
    let t = api::token::token_from_draws(&vec![0, 9, 10, 15, 3]);
    assert_eq!(t.0, "09af3");
    assert_eq!(api::token::token_from_draws(&vec![]).0, "");
    assert_eq!(api::token::hex_digit(12), 'c');
}

#[test]
fn hidden_items_are_left_out() {
    let items = vec![item(1, "a", 0, 0), item(2, "b", 0, 0), item(3, "c", 0, 0), item(4, "d", 0, 0)];
    let hidden: HashSet<u128> = [2u128, 4].into_iter().collect();
    let kept = api::items::filter_hidden(items, &hidden);
    assert_eq!(kept.iter().map(|i| i.id).collect::<Vec<_>>(), vec![1, 3]);
    let none = api::items::filter_hidden(vec![item(5, "e", 0, 0)], &HashSet::new());
    assert_eq!(none.len(), 1);
}

#[test]
fn favorite_item_conflicts() {
    assert_eq!(favorite_item_decision(false, FavoriteState::Favorite).unwrap(), true);
    assert_eq!(favorite_item_decision(true, FavoriteState::Unfavorite).unwrap(), false);
    let e = favorite_item_decision(true, FavoriteState::Favorite).unwrap_err();
    assert_eq!(e.status_code(), 409);
    assert!(favorite_item_decision(false, FavoriteState::Unfavorite).is_err());
}

#[test]
fn not_editable_is_forbidden() {
    assert_eq!(ApiError::ForbiddenNotEditable.status_code(), 403);
    assert_eq!(ApiError::ForbiddenNotEditable.message(), "Forbidden: item is no longer editable");
}
