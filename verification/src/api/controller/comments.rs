//! Comments and replies.

use vstd::prelude::*;
use vstd::string::*;

use crate::api::controller::posts::post_missing;
use crate::api::controller::user::user_missing;
use crate::api::database;
use crate::api::database::comments::comment_insert_fault;
use crate::api::database::{CommentRecord, Store, StoreView};
use crate::api::models::comments::comment_views;
use crate::api::models::error::{outcome, ApiError, ApiErrorView};
use crate::api::models::token::text_result;
use crate::api::models::{Comment, CommentView, CreateComment};
use crate::api::vendor::{format_uuid, fresh_uuid, unix_now, uuid_text};

verus! {

/// The value of the outcome of a query for comments.
pub open spec fn comments_result(r: Result<Vec<Comment>, ApiError>) -> Result<
    Seq<CommentView>,
    ApiErrorView,
> {
    match r {
        Ok(list) => Ok(comment_views(list@)),
        Err(e) => Err(e@),
    }
}

pub open spec fn comment_missing() -> ApiErrorView {
    ApiErrorView::NotFound("Comment does not exist"@)
}

pub open spec fn not_owner() -> ApiErrorView {
    ApiErrorView::Forbidden("You are not the owner of this comment"@)
}

/// Why a comment is not taken: the user must exist, then the post.
pub open spec fn comment_refusal(s: StoreView, user: u128, post: u128) -> Option<ApiErrorView> {
    if !s.has_user(user) {
        Some(user_missing())
    } else if !s.has_post(post) {
        Some(post_missing())
    } else {
        None
    }
}

/// What a new comment comes to, given the id drawn for it and the time: it
/// is stored unless the id is taken.
pub open spec fn commented(
    s: StoreView,
    user: u128,
    post: u128,
    comment: Seq<char>,
    comment_id: u128,
    created_at: i64,
) -> (StoreView, Result<Seq<char>, ApiErrorView>) {
    match comment_refusal(s, user, post) {
        Some(e) => (s, Err(e)),
        None => if s.has_comment(comment_id) {
            (s, Err(comment_insert_fault()))
        } else {
            (
                s.with_comment(
                    CommentRecord::created(comment_id, user, post, comment, None, created_at),
                ),
                Ok(uuid_text(comment_id)),
            )
        },
    }
}

/// Stores a comment of a user on a post under a given id at a given time,
/// and hands back the id as text.
pub fn create_comment_with(
    user_id: u128,
    post_id: u128,
    comment: CreateComment,
    comment_id: u128,
    created_at: i64,
    store: &mut Store,
) -> (r: Result<String, ApiError>)
    requires
        old(store).wf(),
    ensures
        final(store).wf(),
        (final(store)@, text_result(r)) == commented(
            old(store)@,
            user_id,
            post_id,
            comment.comment@,
            comment_id,
            created_at,
        ),
{
    if database::get_user_by_id(store, user_id).is_none() {
        return Err(ApiError::NotFound(String::from_str("User does not exist")));
    }
    if database::get_post_by_id(store, post_id).is_none() {
        return Err(ApiError::NotFound(String::from_str("Post does not exist")));
    }
    database::create_comment(comment, comment_id, user_id, post_id, created_at, store)
}

/// Stores a comment of a user on a post: draws an id for it and stores it at
/// the time the clock shows.
pub fn create_comment(
    user_id: u128,
    post_id: u128,
    comment: CreateComment,
    store: &mut Store,
) -> (r: Result<String, ApiError>)
    requires
        old(store).wf(),
    ensures
        final(store).wf(),
        exists|comment_id: u128, created_at: i64|
            0 <= created_at && (final(store)@, text_result(r)) == #[trigger] commented(
                old(store)@,
                user_id,
                post_id,
                comment.comment@,
                comment_id,
                created_at,
            ),
{
    let comment_id = fresh_uuid();
    let created_at = unix_now();
    create_comment_with(user_id, post_id, comment, comment_id, created_at, store)
}

/// The comments on a post; the post must exist.
pub open spec fn comments_shown(s: StoreView, post: u128) -> Result<
    Seq<CommentView>,
    ApiErrorView,
> {
    if !s.has_post(post) {
        Err(post_missing())
    } else {
        Ok(s.shown_comments(post))
    }
}

/// The comments on a post, replies included, oldest first.
pub fn get_comments(post_id: u128, store: &Store) -> (r: Result<Vec<Comment>, ApiError>)
    requires
        store.wf(),
    ensures
        comments_result(r) == comments_shown(store@, post_id),
{
    if database::get_post_by_id(store, post_id).is_none() {
        return Err(ApiError::NotFound(String::from_str("Post does not exist")));
    }
    Ok(database::get_comments(post_id, store))
}

/// Why a comment is not deleted: the user must exist, then the post, then
/// the comment, and the user must be the comment's author.
pub open spec fn delete_refusal(s: StoreView, user: u128, post: u128, comment: u128) -> Option<
    ApiErrorView,
> {
    if !s.has_user(user) {
        Some(user_missing())
    } else if !s.has_post(post) {
        Some(post_missing())
    } else if !s.has_comment(comment) {
        Some(comment_missing())
    } else if s.comment(comment).user_id != user {
        Some(not_owner())
    } else {
        None
    }
}

/// What a request to delete a comment comes to.
pub open spec fn deleted(s: StoreView, user: u128, post: u128, comment: u128) -> (
    StoreView,
    Result<(), ApiErrorView>,
) {
    match delete_refusal(s, user, post, comment) {
        Some(e) => (s, Err(e)),
        None => (s.without_comment(comment), Ok(())),
    }
}

/// Deletes a comment for its author.
pub fn delete_comment(user_id: u128, post_id: u128, comment_id: u128, store: &mut Store) -> (r:
    Result<(), ApiError>)
    requires
        old(store).wf(),
    ensures
        final(store).wf(),
        (final(store)@, outcome(r)) == deleted(old(store)@, user_id, post_id, comment_id),
{
    if database::get_user_by_id(store, user_id).is_none() {
        return Err(ApiError::NotFound(String::from_str("User does not exist")));
    }
    if database::get_post_by_id(store, post_id).is_none() {
        return Err(ApiError::NotFound(String::from_str("Post does not exist")));
    }
    let comment = match database::get_comment_by_id(comment_id, store) {
        Some(comment) => comment,
        None => {
            return Err(ApiError::NotFound(String::from_str("Comment does not exist")));
        },
    };
    if comment.user.id != format_uuid(user_id) {
        return Err(ApiError::Forbidden(String::from_str("You are not the owner of this comment")));
    }
    database::delete_comment(comment_id, store);
    Ok(())
}

/// Why a reply is not taken: the user must exist, then the post, then the
/// comment that is replied to.
pub open spec fn reply_refusal(s: StoreView, user: u128, post: u128, comment: u128) -> Option<
    ApiErrorView,
> {
    if !s.has_user(user) {
        Some(user_missing())
    } else if !s.has_post(post) {
        Some(post_missing())
    } else if !s.has_comment(comment) {
        Some(comment_missing())
    } else {
        None
    }
}

/// What a reply comes to, given the id drawn for it and the time: it is
/// stored as a comment on the post that names the comment it answers, unless
/// the id is taken.
pub open spec fn replied(
    s: StoreView,
    user: u128,
    post: u128,
    comment: u128,
    reply: Seq<char>,
    reply_id: u128,
    created_at: i64,
) -> (StoreView, Result<(), ApiErrorView>) {
    match reply_refusal(s, user, post, comment) {
        Some(e) => (s, Err(e)),
        None => if s.has_comment(reply_id) {
            (s, Err(comment_insert_fault()))
        } else {
            (
                s.with_comment(
                    CommentRecord::created(reply_id, user, post, reply, Some(comment), created_at),
                ),
                Ok(()),
            )
        },
    }
}

/// Stores a reply of a user to a comment under a given id at a given time.
pub fn reply_to_comment_with(
    user_id: u128,
    post_id: u128,
    comment_id: u128,
    new_comment: CreateComment,
    reply_id: u128,
    created_at: i64,
    store: &mut Store,
) -> (r: Result<(), ApiError>)
    requires
        old(store).wf(),
    ensures
        final(store).wf(),
        (final(store)@, outcome(r)) == replied(
            old(store)@,
            user_id,
            post_id,
            comment_id,
            new_comment.comment@,
            reply_id,
            created_at,
        ),
{
    if database::get_user_by_id(store, user_id).is_none() {
        return Err(ApiError::NotFound(String::from_str("User does not exist")));
    }
    if database::get_post_by_id(store, post_id).is_none() {
        return Err(ApiError::NotFound(String::from_str("Post does not exist")));
    }
    if database::get_comment_by_id(comment_id, store).is_none() {
        return Err(ApiError::NotFound(String::from_str("Comment does not exist")));
    }
    database::reply_to_comment(
        new_comment,
        reply_id,
        user_id,
        post_id,
        comment_id,
        created_at,
        store,
    )
}

/// Stores a reply of a user to a comment: draws an id for it and stores it
/// at the time the clock shows.
pub fn reply_to_comment(
    user_id: u128,
    post_id: u128,
    comment_id: u128,
    new_comment: CreateComment,
    store: &mut Store,
) -> (r: Result<(), ApiError>)
    requires
        old(store).wf(),
    ensures
        final(store).wf(),
        exists|reply_id: u128, created_at: i64|
            0 <= created_at && (final(store)@, outcome(r)) == #[trigger] replied(
                old(store)@,
                user_id,
                post_id,
                comment_id,
                new_comment.comment@,
                reply_id,
                created_at,
            ),
{
    let reply_id = fresh_uuid();
    let created_at = unix_now();
    reply_to_comment_with(user_id, post_id, comment_id, new_comment, reply_id, created_at, store)
}

} // verus!
