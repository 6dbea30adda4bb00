//! Verified core of a Hacker-News-style REST API: payload validation,
//! authentication decisions, response construction, vote and favorite
//! transitions, text sanitization and token generation.

pub mod auth;
pub mod comments;
pub mod error;
pub mod fields;
pub mod items;
pub mod model;
pub mod password;
pub mod text;
pub mod token;
pub mod users;

pub use auth::{
    assert_authenticated, AuthSession, NextUrl, OAuthCreds, PasswordCreds, UserAuthWrapper,
    UserWrapper,
};
pub use comments::{CommentExtractor, CommentPayload, CreateCommentPayload, GetCommentResponse};
pub use error::ApiError;
pub use items::{
    CreateItemPayload, EditItemPayload, FavoritePayload, GetItemCommentResponse, GetItemResponse,
    GetItemResponseAuthenticated, GetItemsPageResponse, ItemKind, RankedItemResponse,
    VotePayload, WithCommentsResponse,
};
pub use model::{now, VoteState};
pub use text::{sanitize_text, try_sanitize_text};
pub use token::generate_user_token;
pub use users::{
    AuthUserResponseInternal, AuthenticateUserResponse, ChangePasswordPayload, CreateUserPayload,
    CreateUserResponse, CredentialsPayload, GetUserResponse, UserPayload, UserResponse,
    UserUpdatePayload,
};

use vstd::prelude::*;

verus! {

/// Users below this karma are not shown the downvote button.
pub const MINIMUM_KARMA_TO_DOWNVOTE: i32 = 10;

/// Number of comments shown per page of an item.
pub const COMMENTS_PER_PAGE: usize = 10;

} // verus!
