//! Posts and likes as they are shown, and the rules that a new post is held
//! to.

use vstd::prelude::*;
use vstd::string::*;

use crate::api::models::error::{ApiError, ApiErrorView};
use crate::api::models::user::{list_field, listed};
use crate::api::vendor::validate_length;

verus! {

/// A post as it is shown: the stored post with the number of its likes and
/// of its comments at the time it was read.
pub struct Post {
    pub id: String,
    pub title: String,
    pub location: String,
    pub content: String,
    pub author: String,
    pub created_at: i64,
    pub num_likes: u32,
    pub num_comments: u32,
}

/// The mathematical value of a [`Post`].
pub struct PostView {
    pub id: Seq<char>,
    pub title: Seq<char>,
    pub location: Seq<char>,
    pub content: Seq<char>,
    pub author: Seq<char>,
    pub created_at: i64,
    pub num_likes: u32,
    pub num_comments: u32,
}

impl View for Post {
    type V = PostView;

    open spec fn view(&self) -> PostView {
        PostView {
            id: self.id@,
            title: self.title@,
            location: self.location@,
            content: self.content@,
            author: self.author@,
            created_at: self.created_at,
            num_likes: self.num_likes,
            num_comments: self.num_comments,
        }
    }
}

/// The values of a list of posts.
pub open spec fn post_views(list: Seq<Post>) -> Seq<PostView> {
    Seq::new(list.len(), |i: int| list[i]@)
}

/// The value of an optional post.
pub open spec fn optional_post(post: Option<Post>) -> Option<PostView> {
    match post {
        Some(post) => Some(post@),
        None => None,
    }
}

/// The body of a request for a new post.
pub struct CreatePost {
    pub title: String,
    pub location: String,
    pub content: String,
}

/// The mathematical value of a [`CreatePost`].
pub struct CreatePostView {
    pub title: Seq<char>,
    pub location: Seq<char>,
    pub content: Seq<char>,
}

impl View for CreatePost {
    type V = CreatePostView;

    open spec fn view(&self) -> CreatePostView {
        CreatePostView { title: self.title@, location: self.location@, content: self.content@ }
    }
}

/// The fewest characters of each text of a post, and the most of each.
pub const MIN_POST_TEXT_CHARS: u64 = 3;

pub const MAX_TITLE_CHARS: u64 = 20;

pub const MAX_LOCATION_CHARS: u64 = 100;

pub const MAX_CONTENT_CHARS: u64 = 255;

impl CreatePostView {
    pub open spec fn title_ok(self) -> bool {
        MIN_POST_TEXT_CHARS <= self.title.len() <= MAX_TITLE_CHARS
    }

    pub open spec fn location_ok(self) -> bool {
        MIN_POST_TEXT_CHARS <= self.location.len() <= MAX_LOCATION_CHARS
    }

    pub open spec fn content_ok(self) -> bool {
        MIN_POST_TEXT_CHARS <= self.content.len() <= MAX_CONTENT_CHARS
    }

    pub open spec fn is_valid(self) -> bool {
        self.title_ok() && self.location_ok() && self.content_ok()
    }

    /// The names of the fields at fault, in the order title, location,
    /// content.
    pub open spec fn invalid_fields(self) -> Seq<char> {
        let title = listed(Seq::empty(), "title"@, !self.title_ok());
        let location = listed(title, "location"@, !self.location_ok());
        listed(location, "content"@, !self.content_ok())
    }
}

impl CreatePost {
    /// Holds a new post to the limits on the lengths of its texts. One that
    /// breaks a limit is refused as a bad request whose message lists the
    /// fields at fault.
    pub fn validate(&self) -> (r: Result<(), ApiError>)
        ensures
            match r {
                Ok(()) => self@.is_valid(),
                Err(e) => !self@.is_valid() && e@ == ApiErrorView::BadRequest(
                    "Invalid fields: "@ + self@.invalid_fields(),
                ),
            },
    {
        let title_ok = validate_length(self.title.as_str(), MIN_POST_TEXT_CHARS, MAX_TITLE_CHARS);
        let location_ok = validate_length(
            self.location.as_str(),
            MIN_POST_TEXT_CHARS,
            MAX_LOCATION_CHARS,
        );
        let content_ok = validate_length(
            self.content.as_str(),
            MIN_POST_TEXT_CHARS,
            MAX_CONTENT_CHARS,
        );
        if title_ok && location_ok && content_ok {
            return Ok(());
        }
        let names = list_field(String::new(), "title", !title_ok);
        let names = list_field(names, "location", !location_ok);
        let names = list_field(names, "content", !content_ok);
        Err(ApiError::BadRequest(String::from_str("Invalid fields: ").concat(names.as_str())))
    }
}

/// One user's like of one post.
pub struct Like {
    pub user_id: String,
    pub post_id: String,
    pub created_at: i64,
}

/// The mathematical value of a [`Like`].
pub struct LikeView {
    pub user_id: Seq<char>,
    pub post_id: Seq<char>,
    pub created_at: i64,
}

impl View for Like {
    type V = LikeView;

    open spec fn view(&self) -> LikeView {
        LikeView { user_id: self.user_id@, post_id: self.post_id@, created_at: self.created_at }
    }
}

/// The values of a list of likes.
pub open spec fn like_views(list: Seq<Like>) -> Seq<LikeView> {
    Seq::new(list.len(), |i: int| list[i]@)
}

/// The value of an optional like.
pub open spec fn optional_like(like: Option<Like>) -> Option<LikeView> {
    match like {
        Some(like) => Some(like@),
        None => None,
    }
}

} // verus!
