//! Comments as they are shown, and the rule that a new comment is held to.

use vstd::prelude::*;
use vstd::string::*;

use crate::api::models::error::{ApiError, ApiErrorView};
use crate::api::models::user::{AuthUser, AuthUserView};
use crate::api::vendor::validate_length;

verus! {

/// The body of a request for a new comment or reply.
pub struct CreateComment {
    pub comment: String,
}

/// The fewest and the most characters of a comment.
pub const MIN_COMMENT_CHARS: u64 = 1;

pub const MAX_COMMENT_CHARS: u64 = 255;

/// The answer to a comment whose length is not accepted.
pub const COMMENT_REFUSED: &'static str =
    "Validation failed, comment should be greater than 1 and less than 255 characters";

/// Whether a comment's text has an accepted length.
pub open spec fn comment_ok(comment: Seq<char>) -> bool {
    MIN_COMMENT_CHARS <= comment.len() <= MAX_COMMENT_CHARS
}

impl CreateComment {
    /// Holds a comment to the limits on its length; one that is empty or too
    /// long is refused as a bad request.
    pub fn validate(&self) -> (r: Result<(), ApiError>)
        ensures
            match r {
                Ok(()) => comment_ok(self.comment@),
                Err(e) => !comment_ok(self.comment@) && e@ == ApiErrorView::BadRequest(
                    COMMENT_REFUSED@,
                ),
            },
    {
        if validate_length(self.comment.as_str(), MIN_COMMENT_CHARS, MAX_COMMENT_CHARS) {
            Ok(())
        } else {
            Err(ApiError::BadRequest(String::from_str(COMMENT_REFUSED)))
        }
    }
}

/// A comment on a post, or a reply to one, with its author.
pub struct Comment {
    pub id: String,
    pub user: AuthUser,
    pub post_id: String,
    pub comment: String,
    pub created_at: i64,
    pub parent_comment_id: Option<String>,
}

/// The mathematical value of a [`Comment`].
pub struct CommentView {
    pub id: Seq<char>,
    pub user: AuthUserView,
    pub post_id: Seq<char>,
    pub comment: Seq<char>,
    pub created_at: i64,
    pub parent_comment_id: Option<Seq<char>>,
}

impl View for Comment {
    type V = CommentView;

    open spec fn view(&self) -> CommentView {
        CommentView {
            id: self.id@,
            user: self.user@,
            post_id: self.post_id@,
            comment: self.comment@,
            created_at: self.created_at,
            parent_comment_id: match self.parent_comment_id {
                Some(id) => Some(id@),
                None => None,
            },
        }
    }
}

/// The values of a list of comments.
pub open spec fn comment_views(list: Seq<Comment>) -> Seq<CommentView> {
    Seq::new(list.len(), |i: int| list[i]@)
}

/// The value of an optional comment.
pub open spec fn optional_comment(comment: Option<Comment>) -> Option<CommentView> {
    match comment {
        Some(comment) => Some(comment@),
        None => None,
    }
}

} // verus!
