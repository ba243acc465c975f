//! The table of posts and the table of likes.

use vstd::prelude::*;
use vstd::string::*;

use crate::api::database::{
    commenting_on, on_post, pick_like_of, LikeRow, PostRecord, PostRow, Store, StoreView,
};
use crate::api::models::error::{outcome, ApiError, ApiErrorView};
use crate::api::models::posts::{like_views, optional_like, optional_post, post_views};
use crate::api::models::token::text_result;
use crate::api::models::{CreatePost, Like, Post};
use crate::api::vendor::{format_uuid, uuid_text};

verus! {

impl StoreView {
    /// In a store whose keys hold, a post found under an id is the post with
    /// that id.
    pub proof fn lemma_post_found(self, i: int, id: u128)
        requires
            self.wf(),
            self.post_at(i, id),
        ensures
            self.has_post(id),
            self.post(id) == self.posts[i],
    {
        let k = choose|k: int| self.post_at(k, id);
        assert(self.post_at(k, id));
        if k < i {
            assert(self.posts[k].id != self.posts[i].id);
        } else if i < k {
            assert(self.posts[i].id != self.posts[k].id);
        }
    }

    /// The same of a like and the pair it is stored under.
    pub proof fn lemma_like_found(self, i: int, user: u128, post: u128)
        requires
            self.wf(),
            self.like_at(i, user, post),
        ensures
            self.has_like(user, post),
            self.like_index(user, post) == i,
    {
        let k = choose|k: int| self.like_at(k, user, post);
        assert(self.like_at(k, user, post));
        if k < i {
            assert(self.likes[k].user_id == self.likes[i].user_id);
        } else if i < k {
            assert(self.likes[i].user_id == self.likes[k].user_id);
        }
    }
}

/// The number of likes of a post, cut to 32 bits.
fn count_likes(store: &Store, post_id: u128) -> (n: u32)
    ensures
        n == store@.like_count(post_id),
{
    let mut n: usize = 0;
    let mut i: usize = 0;
    while i < store.likes.len()
        invariant
            i <= store.likes.len(),
            n <= i,
            n == store@.likes.take(i as int).filter(on_post(post_id)).len(),
        decreases store.likes.len() - i,
    {
        proof {
            let seen = store@.likes.take(i as int);
            assert(store@.likes.take(i + 1) =~= seen.push(store@.likes[i as int]));
            seen.lemma_filter_push(store@.likes[i as int], on_post(post_id));
        }
        if store.likes[i].post_id == post_id {
            n += 1;
        }
        i += 1;
    }
    proof {
        assert(store@.likes.take(i as int) =~= store@.likes);
    }
    #[verifier::truncate]
    (n as u32)
}

/// The number of comments on a post, cut to 32 bits.
fn count_comments(store: &Store, post_id: u128) -> (n: u32)
    ensures
        n == store@.comment_count(post_id),
{
    let mut n: usize = 0;
    let mut i: usize = 0;
    while i < store.comments.len()
        invariant
            i <= store.comments.len(),
            n <= i,
            n == store@.comments.take(i as int).filter(commenting_on(post_id)).len(),
        decreases store.comments.len() - i,
    {
        proof {
            let seen = store@.comments.take(i as int);
            assert(store@.comments.take(i + 1) =~= seen.push(store@.comments[i as int]));
            seen.lemma_filter_push(store@.comments[i as int], commenting_on(post_id));
        }
        if store.comments[i].post_id == post_id {
            n += 1;
        }
        i += 1;
    }
    proof {
        assert(store@.comments.take(i as int) =~= store@.comments);
    }
    #[verifier::truncate]
    (n as u32)
}

/// A stored post as it is shown.
pub(super) fn post_of_row(store: &Store, row: &PostRow) -> (post: Post)
    ensures
        post@ == store@.shown(row@),
{
    Post {
        id: format_uuid(row.id),
        title: row.title.clone(),
        location: row.location.clone(),
        content: row.content.clone(),
        author: format_uuid(row.author),
        created_at: row.created_at,
        num_likes: count_likes(store, row.id),
        num_comments: count_comments(store, row.id),
    }
}

/// The posts of an author, oldest first, each with the number of its likes
/// and of its comments.
pub fn get_users_posts(store: &Store, user_id: u128) -> (posts: Vec<Post>)
    requires
        store.wf(),
    ensures
        post_views(posts@) == store@.posts_of(user_id),
{
    let mut posts: Vec<Post> = Vec::new();
    let mut i: usize = 0;
    while i < store.posts.len()
        invariant
            i <= store.posts.len(),
            post_views(posts@) == store@.posts.take(i as int).filter_map(
                store@.pick_post_of(user_id),
            ),
        decreases store.posts.len() - i,
    {
        proof {
            store@.posts.lemma_filter_map_take_succ(store@.pick_post_of(user_id), i as int);
        }
        if store.posts[i].author == user_id {
            let ghost before = post_views(posts@);
            let post = post_of_row(store, &store.posts[i]);
            posts.push(post);
            proof {
                assert(post_views(posts@) =~= before + seq![post@]);
            }
        }
        i += 1;
    }
    proof {
        assert(store@.posts.take(i as int) =~= store@.posts);
    }
    posts
}

/// The failure to store a new post.
pub open spec fn post_insert_fault() -> ApiErrorView {
    ApiErrorView::Database("Failed to insert new post into database."@)
}

/// Stores a new post of the author under the given id and time, and hands
/// back the id as text. The store refuses a post whose id is taken.
pub fn insert_post(
    store: &mut Store,
    post_id: u128,
    user_id: u128,
    new_post: CreatePost,
    created_at: i64,
) -> (r: Result<String, ApiError>)
    requires
        old(store).wf(),
    ensures
        final(store).wf(),
        if old(store)@.has_post(post_id) {
            &&& text_result(r) == Err::<Seq<char>, ApiErrorView>(post_insert_fault())
            &&& final(store)@ == old(store)@
        } else {
            &&& text_result(r) == Ok::<Seq<char>, ApiErrorView>(uuid_text(post_id))
            &&& final(store)@ == old(store)@.with_post(
                PostRecord::created(post_id, user_id, new_post@, created_at),
            )
        },
{
    let mut i: usize = 0;
    while i < store.posts.len()
        invariant
            store.wf(),
            *store == *old(store),
            i <= store.posts.len(),
            forall|k: int| 0 <= k < i ==> !store@.post_at(k, post_id),
        decreases store.posts.len() - i,
    {
        if store.posts[i].id == post_id {
            assert(store@.post_at(i as int, post_id));
            return Err(
                ApiError::Database(String::from_str("Failed to insert new post into database.")),
            );
        }
        i += 1;
    }
    let ghost row = PostRecord::created(post_id, user_id, new_post@, created_at);
    store.posts.push(
        PostRow {
            id: post_id,
            title: new_post.title,
            location: new_post.location,
            content: new_post.content,
            author: user_id,
            created_at,
        },
    );
    proof {
        assert(store@.posts =~= old(store)@.posts.push(row));
        assert(store@ == old(store)@.with_post(row));
        old(store)@.lemma_authors_kept(store@);
        assert forall|a: int, b: int| 0 <= a < b < store@.posts.len() implies (
        #[trigger] store@.posts[a]).id != (#[trigger] store@.posts[b]).id by {
            if b == store@.posts.len() - 1 {
                assert(!old(store)@.post_at(a, post_id));
            }
        }
    }
    Ok(format_uuid(post_id))
}

/// The post with the given id as it is shown, if there is one.
pub fn get_post_by_id(store: &Store, post_id: u128) -> (post: Option<Post>)
    requires
        store.wf(),
    ensures
        optional_post(post) == (if store@.has_post(post_id) {
            Some(store@.shown(store@.post(post_id)))
        } else {
            None
        }),
{
    let mut i: usize = 0;
    while i < store.posts.len()
        invariant
            store.wf(),
            i <= store.posts.len(),
            forall|k: int| 0 <= k < i ==> !store@.post_at(k, post_id),
        decreases store.posts.len() - i,
    {
        if store.posts[i].id == post_id {
            proof {
                store@.lemma_post_found(i as int, post_id);
            }
            return Some(post_of_row(store, &store.posts[i]));
        }
        i += 1;
    }
    None
}

/// Where the like of a post by a user stands in its table.
fn find_like(store: &Store, user_id: u128, post_id: u128) -> (at: Option<usize>)
    requires
        store.wf(),
    ensures
        match at {
            Some(i) => store@.has_like(user_id, post_id) && store@.like_index(user_id, post_id)
                == i && i < store@.likes.len(),
            None => !store@.has_like(user_id, post_id),
        },
{
    let mut i: usize = 0;
    while i < store.likes.len()
        invariant
            store.wf(),
            i <= store.likes.len(),
            forall|k: int| 0 <= k < i ==> !store@.like_at(k, user_id, post_id),
        decreases store.likes.len() - i,
    {
        if store.likes[i].user_id == user_id && store.likes[i].post_id == post_id {
            proof {
                store@.lemma_like_found(i as int, user_id, post_id);
            }
            return Some(i);
        }
        i += 1;
    }
    None
}

/// A stored like as it is handed out.
fn like_of_row(row: &LikeRow) -> (like: Like)
    ensures
        like@ == row.like(),
{
    Like {
        user_id: format_uuid(row.user_id),
        post_id: format_uuid(row.post_id),
        created_at: row.created_at,
    }
}

/// The like of a post by a user, if the user likes the post.
pub fn get_like_by_user_and_post(store: &Store, user_id: u128, post_id: u128) -> (like: Option<
    Like,
>)
    requires
        store.wf(),
    ensures
        optional_like(like) == (if store@.has_like(user_id, post_id) {
            Some(store@.likes[store@.like_index(user_id, post_id)].like())
        } else {
            None
        }),
{
    match find_like(store, user_id, post_id) {
        Some(i) => Some(like_of_row(&store.likes[i])),
        None => None,
    }
}

/// The likes of a post, oldest first.
pub fn get_likes_of_post(store: &Store, post_id: u128) -> (likes: Vec<Like>)
    requires
        store.wf(),
    ensures
        like_views(likes@) == store@.shown_likes(post_id),
{
    let mut likes: Vec<Like> = Vec::new();
    let mut i: usize = 0;
    while i < store.likes.len()
        invariant
            i <= store.likes.len(),
            like_views(likes@) == store@.likes.take(i as int).filter_map(pick_like_of(post_id)),
        decreases store.likes.len() - i,
    {
        proof {
            store@.likes.lemma_filter_map_take_succ(pick_like_of(post_id), i as int);
        }
        if store.likes[i].post_id == post_id {
            let ghost before = like_views(likes@);
            let like = like_of_row(&store.likes[i]);
            likes.push(like);
            proof {
                assert(like_views(likes@) =~= before + seq![like@]);
            }
        }
        i += 1;
    }
    proof {
        assert(store@.likes.take(i as int) =~= store@.likes);
    }
    likes
}

/// The failure to store a new like.
pub open spec fn like_insert_fault() -> ApiErrorView {
    ApiErrorView::Database("Failed to like post."@)
}

/// Stores the like of a post by a user at the given time. The store refuses
/// a like that it holds already.
pub fn like_post(store: &mut Store, user_id: u128, post_id: u128, created_at: i64) -> (r: Result<
    (),
    ApiError,
>)
    requires
        old(store).wf(),
    ensures
        final(store).wf(),
        if old(store)@.has_like(user_id, post_id) {
            &&& outcome(r) == Err::<(), ApiErrorView>(like_insert_fault())
            &&& final(store)@ == old(store)@
        } else {
            &&& r is Ok
            &&& final(store)@ == old(store)@.with_like(LikeRow { user_id, post_id, created_at })
        },
{
    if find_like(store, user_id, post_id).is_some() {
        return Err(ApiError::Database(String::from_str("Failed to like post.")));
    }
    store.likes.push(LikeRow { user_id, post_id, created_at });
    proof {
        assert(store@ == old(store)@.with_like(LikeRow { user_id, post_id, created_at }));
        old(store)@.lemma_authors_kept(store@);
        assert forall|a: int, b: int| 0 <= a < b < store@.likes.len() implies !({
            &&& (#[trigger] store@.likes[a]).user_id == (#[trigger] store@.likes[b]).user_id
            &&& store@.likes[a].post_id == store@.likes[b].post_id
        }) by {
            if b == store@.likes.len() - 1 {
                assert(!old(store)@.like_at(a, user_id, post_id));
            }
        }
    }
    Ok(())
}

/// Removes the like of a post by a user, if the store holds it.
pub fn unlike_post(store: &mut Store, user_id: u128, post_id: u128)
    requires
        old(store).wf(),
    ensures
        final(store).wf(),
        final(store)@ == old(store)@.without_like(user_id, post_id),
{
    match find_like(store, user_id, post_id) {
        Some(i) => {
            store.likes.remove(i);
            proof {
                assert(store@ == old(store)@.without_like(user_id, post_id));
                old(store)@.lemma_authors_kept(store@);
            }
        },
        None => {},
    }
}

} // verus!
