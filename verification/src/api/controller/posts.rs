//! Posts, likes and the feed.

use vstd::prelude::*;
use vstd::string::*;

use crate::api::controller::user::user_missing;
use crate::api::database;
use crate::api::database::posts::post_insert_fault;
use crate::api::database::{LikeRow, PostRecord, Store, StoreView};
use crate::api::models::error::{outcome, ApiError, ApiErrorView};
use crate::api::models::posts::{like_views, post_views};
use crate::api::models::token::text_result;
use crate::api::models::{CreatePost, CreatePostView, Like, LikeView, Post, PostView};
use crate::api::vendor::{fresh_uuid, parse_uuid, unix_now, uuid_parsed, uuid_text};

verus! {

/// The value of the outcome of a query for posts.
pub open spec fn posts_result(r: Result<Vec<Post>, ApiError>) -> Result<
    Seq<PostView>,
    ApiErrorView,
> {
    match r {
        Ok(list) => Ok(post_views(list@)),
        Err(e) => Err(e@),
    }
}

/// The value of the outcome of a query for likes.
pub open spec fn likes_result(r: Result<Vec<Like>, ApiError>) -> Result<
    Seq<LikeView>,
    ApiErrorView,
> {
    match r {
        Ok(list) => Ok(like_views(list@)),
        Err(e) => Err(e@),
    }
}

pub open spec fn post_missing() -> ApiErrorView {
    ApiErrorView::NotFound("Post does not exist"@)
}

pub open spec fn already_liked() -> ApiErrorView {
    ApiErrorView::BadRequest("You have already liked this post"@)
}

pub open spec fn not_liked() -> ApiErrorView {
    ApiErrorView::BadRequest("Post not liked"@)
}

pub open spec fn bad_user_id() -> ApiErrorView {
    ApiErrorView::BadRequest("Failed to convert user id to UUID"@)
}

/// The likes of a post; the post must exist.
pub open spec fn likes_shown(s: StoreView, post: u128) -> Result<Seq<LikeView>, ApiErrorView> {
    if !s.has_post(post) {
        Err(post_missing())
    } else {
        Ok(s.shown_likes(post))
    }
}

/// The likes of a post, oldest first.
pub fn get_likes_of_post(post_id: u128, store: &Store) -> (r: Result<Vec<Like>, ApiError>)
    requires
        store.wf(),
    ensures
        likes_result(r) == likes_shown(store@, post_id),
{
    if database::get_post_by_id(store, post_id).is_none() {
        return Err(ApiError::NotFound(String::from_str("Post does not exist")));
    }
    Ok(database::get_likes_of_post(store, post_id))
}

/// The posts of the user whose id a text denotes: the text must denote an
/// id, and the user must exist.
pub open spec fn posts_shown(s: StoreView, user_id: Seq<char>) -> Result<
    Seq<PostView>,
    ApiErrorView,
> {
    match uuid_parsed(user_id) {
        None => Err(bad_user_id()),
        Some(id) => if !s.has_user(id) {
            Err(user_missing())
        } else {
            Ok(s.posts_of(id))
        },
    }
}

/// The posts of a user, oldest first; the user is named by the text of an id.
pub fn get_users_post(store: &Store, user_id: String) -> (r: Result<Vec<Post>, ApiError>)
    requires
        store.wf(),
    ensures
        posts_result(r) == posts_shown(store@, user_id@),
{
    let user_id = match parse_uuid(user_id.as_str()) {
        Ok(id) => id,
        Err(_) => {
            return Err(ApiError::BadRequest(String::from_str("Failed to convert user id to UUID")));
        },
    };
    if database::get_user_by_id(store, user_id).is_none() {
        return Err(ApiError::NotFound(String::from_str("User does not exist")));
    }
    Ok(database::get_users_posts(store, user_id))
}

/// What the creation of a post comes to, given the id drawn for it and the
/// time: the post is stored unless the id is taken.
pub open spec fn post_created(
    s: StoreView,
    author: u128,
    post: CreatePostView,
    post_id: u128,
    created_at: i64,
) -> (StoreView, Result<Seq<char>, ApiErrorView>) {
    if s.has_post(post_id) {
        (s, Err(post_insert_fault()))
    } else {
        (
            s.with_post(PostRecord::created(post_id, author, post, created_at)),
            Ok(uuid_text(post_id)),
        )
    }
}

/// Creates a post of a user under a given id at a given time, and hands back
/// the id as text.
pub fn create_post_with(
    store: &mut Store,
    user_id: u128,
    post: CreatePost,
    post_id: u128,
    created_at: i64,
) -> (r: Result<String, ApiError>)
    requires
        old(store).wf(),
    ensures
        final(store).wf(),
        (final(store)@, text_result(r)) == post_created(
            old(store)@,
            user_id,
            post@,
            post_id,
            created_at,
        ),
{
    database::insert_post(store, post_id, user_id, post, created_at)
}

/// Creates a post of a user: draws an id for it and stores it at the time
/// the clock shows.
pub fn create_post(store: &mut Store, user_id: u128, post: CreatePost) -> (r: Result<
    String,
    ApiError,
>)
    requires
        old(store).wf(),
    ensures
        final(store).wf(),
        exists|post_id: u128, created_at: i64|
            0 <= created_at && (final(store)@, text_result(r)) == #[trigger] post_created(
                old(store)@,
                user_id,
                post@,
                post_id,
                created_at,
            ),
{
    let post_id = fresh_uuid();
    let created_at = unix_now();
    create_post_with(store, user_id, post, post_id, created_at)
}

/// The feed of a user; the user must exist.
pub open spec fn feed_shown(s: StoreView, user: u128) -> Result<Seq<PostView>, ApiErrorView> {
    if !s.has_user(user) {
        Err(user_missing())
    } else {
        Ok(s.feed(user))
    }
}

/// The feed of a user: the posts of the accounts that the user follows,
/// newest first. A user who follows nobody has an empty feed.
pub fn get_users_feed(store: &Store, user_id: u128) -> (r: Result<Vec<Post>, ApiError>)
    requires
        store.wf(),
    ensures
        posts_result(r) == feed_shown(store@, user_id),
{
    if database::get_user_by_id(store, user_id).is_none() {
        return Err(ApiError::NotFound(String::from_str("User does not exist")));
    }
    Ok(database::get_users_feed(store, user_id))
}

/// Why a request to like is refused: the user must exist, then the post,
/// and the user must not like the post yet.
pub open spec fn like_refusal(s: StoreView, user: u128, post: u128) -> Option<ApiErrorView> {
    if !s.has_user(user) {
        Some(user_missing())
    } else if !s.has_post(post) {
        Some(post_missing())
    } else if s.has_like(user, post) {
        Some(already_liked())
    } else {
        None
    }
}

/// What a request to like comes to at a given time.
pub open spec fn liked(s: StoreView, user: u128, post: u128, created_at: i64) -> (
    StoreView,
    Result<(), ApiErrorView>,
) {
    match like_refusal(s, user, post) {
        Some(e) => (s, Err(e)),
        None => (s.with_like(LikeRow { user_id: user, post_id: post, created_at }), Ok(())),
    }
}

/// Makes a user like a post at a given time.
pub fn like_a_post_at(user_id: u128, post_id: u128, created_at: i64, store: &mut Store) -> (r:
    Result<(), ApiError>)
    requires
        old(store).wf(),
    ensures
        final(store).wf(),
        (final(store)@, outcome(r)) == liked(old(store)@, user_id, post_id, created_at),
{
    if database::get_user_by_id(store, user_id).is_none() {
        return Err(ApiError::NotFound(String::from_str("User does not exist")));
    }
    if database::get_post_by_id(store, post_id).is_none() {
        return Err(ApiError::NotFound(String::from_str("Post does not exist")));
    }
    if database::get_like_by_user_and_post(store, user_id, post_id).is_some() {
        return Err(ApiError::BadRequest(String::from_str("You have already liked this post")));
    }
    database::like_post(store, user_id, post_id, created_at)
}

/// Makes a user like a post at the time the clock shows.
pub fn like_a_post(user_id: u128, post_id: u128, store: &mut Store) -> (r: Result<(), ApiError>)
    requires
        old(store).wf(),
    ensures
        final(store).wf(),
        exists|created_at: i64|
            0 <= created_at && (final(store)@, outcome(r)) == #[trigger] liked(
                old(store)@,
                user_id,
                post_id,
                created_at,
            ),
{
    let created_at = unix_now();
    like_a_post_at(user_id, post_id, created_at, store)
}

/// Why a request to unlike is refused: the user must exist, then the post,
/// and the user must like the post.
pub open spec fn unlike_refusal(s: StoreView, user: u128, post: u128) -> Option<ApiErrorView> {
    if !s.has_user(user) {
        Some(user_missing())
    } else if !s.has_post(post) {
        Some(post_missing())
    } else if !s.has_like(user, post) {
        Some(not_liked())
    } else {
        None
    }
}

/// What a request to unlike comes to.
pub open spec fn unliked(s: StoreView, user: u128, post: u128) -> (
    StoreView,
    Result<(), ApiErrorView>,
) {
    match unlike_refusal(s, user, post) {
        Some(e) => (s, Err(e)),
        None => (s.without_like(user, post), Ok(())),
    }
}

/// Makes a user like a post no longer.
pub fn unlike_a_post(user_id: u128, post_id: u128, store: &mut Store) -> (r: Result<(), ApiError>)
    requires
        old(store).wf(),
    ensures
        final(store).wf(),
        (final(store)@, outcome(r)) == unliked(old(store)@, user_id, post_id),
{
    if database::get_user_by_id(store, user_id).is_none() {
        return Err(ApiError::NotFound(String::from_str("User does not exist")));
    }
    if database::get_post_by_id(store, post_id).is_none() {
        return Err(ApiError::NotFound(String::from_str("Post does not exist")));
    }
    if database::get_like_by_user_and_post(store, user_id, post_id).is_none() {
        return Err(ApiError::BadRequest(String::from_str("Post not liked")));
    }
    database::unlike_post(store, user_id, post_id);
    Ok(())
}

} // verus!
