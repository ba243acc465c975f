//! The table of comments.

use vstd::pervasive::unreached;
use vstd::prelude::*;
use vstd::string::*;

use crate::api::database::users::{find_user, principal_of_row};
use crate::api::database::{CommentRecord, CommentRow, Store, StoreView};
use crate::api::models::comments::{comment_views, optional_comment};
use crate::api::models::error::{outcome, ApiError, ApiErrorView};
use crate::api::models::token::text_result;
use crate::api::models::{Comment, CreateComment};
use crate::api::vendor::{format_uuid, uuid_parsed, uuid_text};

verus! {

impl StoreView {
    /// In a store whose keys hold, a comment found under an id stands where
    /// the comment with that id stands.
    pub proof fn lemma_comment_found(self, i: int, id: u128)
        requires
            self.wf(),
            self.comment_at(i, id),
        ensures
            self.has_comment(id),
            self.comment_index(id) == i,
    {
        let k = choose|k: int| self.comment_at(k, id);
        assert(self.comment_at(k, id));
        if k < i {
            assert(self.comments[k].id != self.comments[i].id);
        } else if i < k {
            assert(self.comments[i].id != self.comments[k].id);
        }
    }
}

impl CommentRecord {
    /// The row that a new comment makes; a reply names its parent.
    pub open spec fn created(
        id: u128,
        user_id: u128,
        post_id: u128,
        comment: Seq<char>,
        parent_comment_id: Option<u128>,
        created_at: i64,
    ) -> CommentRecord {
        CommentRecord { id, user_id, post_id, comment, parent_comment_id, created_at }
    }
}

/// Where the comment with the given id stands in its table.
fn find_comment(store: &Store, comment_id: u128) -> (at: Option<usize>)
    requires
        store.wf(),
    ensures
        match at {
            Some(i) => store@.has_comment(comment_id) && store@.comment_index(comment_id) == i && i
                < store@.comments.len(),
            None => !store@.has_comment(comment_id),
        },
{
    let mut i: usize = 0;
    while i < store.comments.len()
        invariant
            store.wf(),
            i <= store.comments.len(),
            forall|k: int| 0 <= k < i ==> !store@.comment_at(k, comment_id),
        decreases store.comments.len() - i,
    {
        if store.comments[i].id == comment_id {
            proof {
                store@.lemma_comment_found(i as int, comment_id);
            }
            return Some(i);
        }
        i += 1;
    }
    None
}

/// A stored comment as it is shown. The text of its author's id reads back
/// as that id.
fn comment_of_row(store: &Store, row: &CommentRow) -> (comment: Comment)
    requires
        store.wf(),
        store@.has_user(row.user_id),
    ensures
        comment@ == store@.shown_comment(row@),
        uuid_parsed(comment.user.id@) == Some(row.user_id),
{
    let author = match find_user(store, row.user_id) {
        Some(i) => principal_of_row(&store.users[i]),
        None => unreached(),
    };
    Comment {
        id: format_uuid(row.id),
        user: author,
        post_id: format_uuid(row.post_id),
        comment: row.comment.clone(),
        created_at: row.created_at,
        parent_comment_id: match row.parent_comment_id {
            Some(parent) => Some(format_uuid(parent)),
            None => None,
        },
    }
}

/// The failure to store a new comment.
pub open spec fn comment_insert_fault() -> ApiErrorView {
    ApiErrorView::Database("Failed to insert new comment into database."@)
}

impl StoreView {
    /// Whether the table of comments has no room for a row: its id is taken,
    /// or its author has no account.
    pub open spec fn comment_refused(self, id: u128, author: u128) -> bool {
        self.has_comment(id) || !self.has_user(author)
    }
}

/// Stores a row in the table of comments; the store refuses one whose id is
/// taken or whose author has no account.
fn insert_comment(store: &mut Store, row: CommentRow) -> (r: Result<(), ApiError>)
    requires
        old(store).wf(),
    ensures
        final(store).wf(),
        if old(store)@.comment_refused(row.id, row.user_id) {
            &&& outcome(r) == Err::<(), ApiErrorView>(comment_insert_fault())
            &&& final(store)@ == old(store)@
        } else {
            &&& r is Ok
            &&& final(store)@ == old(store)@.with_comment(row@)
        },
{
    if find_comment(store, row.id).is_some() || find_user(store, row.user_id).is_none() {
        return Err(
            ApiError::Database(String::from_str("Failed to insert new comment into database.")),
        );
    }
    let ghost record = row@;
    store.comments.push(row);
    proof {
        assert(store@.comments =~= old(store)@.comments.push(record));
        assert(store@ == old(store)@.with_comment(record));
        assert forall|a: int, b: int| 0 <= a < b < store@.comments.len() implies (
        #[trigger] store@.comments[a]).id != (#[trigger] store@.comments[b]).id by {
            if b == store@.comments.len() - 1 {
                assert(!old(store)@.comment_at(a, record.id));
            }
        }
        assert forall|c: int| 0 <= c < store@.comments.len() implies old(store)@.has_user(
            (#[trigger] store@.comments[c]).user_id,
        ) by {
            if c < old(store)@.comments.len() {
                assert(old(store)@.has_user(old(store)@.comments[c].user_id));
            }
        }
        old(store)@.lemma_authors_kept(store@);
    }
    Ok(())
}

/// Stores a new comment of a user on a post under the given id and time, and
/// hands back the id as text. The store refuses a comment whose id is taken
/// or whose author has no account.
pub fn create_comment(
    new_comment: CreateComment,
    comment_id: u128,
    user_id: u128,
    post_id: u128,
    created_at: i64,
    store: &mut Store,
) -> (r: Result<String, ApiError>)
    requires
        old(store).wf(),
    ensures
        final(store).wf(),
        if old(store)@.comment_refused(comment_id, user_id) {
            &&& text_result(r) == Err::<Seq<char>, ApiErrorView>(comment_insert_fault())
            &&& final(store)@ == old(store)@
        } else {
            &&& text_result(r) == Ok::<Seq<char>, ApiErrorView>(uuid_text(comment_id))
            &&& final(store)@ == old(store)@.with_comment(
                CommentRecord::created(
                    comment_id,
                    user_id,
                    post_id,
                    new_comment.comment@,
                    None,
                    created_at,
                ),
            )
        },
{
    let row = CommentRow {
        id: comment_id,
        user_id,
        post_id,
        comment: new_comment.comment,
        parent_comment_id: None,
        created_at,
    };
    match insert_comment(store, row) {
        Ok(()) => Ok(format_uuid(comment_id)),
        Err(e) => Err(e),
    }
}

/// The comments on a post, replies included, oldest first, each with its
/// author.
pub fn get_comments(post_id: u128, store: &Store) -> (comments: Vec<Comment>)
    requires
        store.wf(),
    ensures
        comment_views(comments@) == store@.shown_comments(post_id),
{
    let mut comments: Vec<Comment> = Vec::new();
    let mut i: usize = 0;
    while i < store.comments.len()
        invariant
            store.wf(),
            i <= store.comments.len(),
            comment_views(comments@) == store@.comments.take(i as int).filter_map(
                store@.pick_comment_on(post_id),
            ),
        decreases store.comments.len() - i,
    {
        proof {
            store@.comments.lemma_filter_map_take_succ(store@.pick_comment_on(post_id), i as int);
        }
        if store.comments[i].post_id == post_id {
            assert(store@.has_user(store@.comments[i as int].user_id));
            let ghost before = comment_views(comments@);
            let comment = comment_of_row(store, &store.comments[i]);
            comments.push(comment);
            proof {
                assert(comment_views(comments@) =~= before + seq![comment@]);
            }
        }
        i += 1;
    }
    proof {
        assert(store@.comments.take(i as int) =~= store@.comments);
    }
    comments
}

/// The comment with the given id as it is shown, if there is one. The text
/// of its author's id reads back as that id.
pub fn get_comment_by_id(comment_id: u128, store: &Store) -> (comment: Option<Comment>)
    requires
        store.wf(),
    ensures
        optional_comment(comment) == (if store@.has_comment(comment_id) {
            Some(store@.shown_comment(store@.comment(comment_id)))
        } else {
            None
        }),
        comment matches Some(found) ==> uuid_parsed(found.user.id@) == Some(
            store@.comment(comment_id).user_id,
        ),
{
    match find_comment(store, comment_id) {
        Some(i) => {
            assert(store@.has_user(store@.comments[i as int].user_id));
            Some(comment_of_row(store, &store.comments[i]))
        },
        None => None,
    }
}

/// Removes the comment with the given id, if the store holds it.
pub fn delete_comment(comment_id: u128, store: &mut Store)
    requires
        old(store).wf(),
    ensures
        final(store).wf(),
        final(store)@ == old(store)@.without_comment(comment_id),
{
    match find_comment(store, comment_id) {
        Some(i) => {
            store.comments.remove(i);
            proof {
                assert(store@.comments =~= old(store)@.comments.remove(i as int));
                assert(store@ == old(store)@.without_comment(comment_id));
                assert forall|c: int| 0 <= c < store@.comments.len() implies old(
                    store,
                )@.has_user((#[trigger] store@.comments[c]).user_id) by {
                    let from = if c < i { c } else { c + 1 };
                    assert(old(store)@.has_user(old(store)@.comments[from].user_id));
                }
                old(store)@.lemma_authors_kept(store@);
            }
        },
        None => {},
    }
}

/// Stores a reply of a user to a comment on a post under the given id and
/// time. The store refuses a reply whose id is taken or whose author has no
/// account.
pub fn reply_to_comment(
    comment: CreateComment,
    reply_id: u128,
    user_id: u128,
    post_id: u128,
    comment_id: u128,
    created_at: i64,
    store: &mut Store,
) -> (r: Result<(), ApiError>)
    requires
        old(store).wf(),
    ensures
        final(store).wf(),
        if old(store)@.comment_refused(reply_id, user_id) {
            &&& outcome(r) == Err::<(), ApiErrorView>(comment_insert_fault())
            &&& final(store)@ == old(store)@
        } else {
            &&& r is Ok
            &&& final(store)@ == old(store)@.with_comment(
                CommentRecord::created(
                    reply_id,
                    user_id,
                    post_id,
                    comment.comment@,
                    Some(comment_id),
                    created_at,
                ),
            )
        },
{
    let row = CommentRow {
        id: reply_id,
        user_id,
        post_id,
        comment: comment.comment,
        parent_comment_id: Some(comment_id),
        created_at,
    };
    insert_comment(store, row)
}

} // verus!
