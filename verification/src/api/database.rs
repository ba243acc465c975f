//! The relational state: five tables, their keys, and the queries on them.

pub mod comments;
pub mod pattern;
pub mod posts;
pub mod users;

use vstd::prelude::*;

use crate::api::models::{
    AuthUserView, CommentView, CreatePostView, CreateUserView, LikeView, PostView, UserView,
};
use crate::api::vendor::{lowercase, uuid_text};
use pattern::{glyphs, is_like, Glyph};

pub use comments::{
    create_comment, delete_comment, get_comment_by_id, get_comments, reply_to_comment,
};
pub use posts::{
    get_like_by_user_and_post, get_likes_of_post, get_post_by_id, get_users_posts, insert_post,
    like_post, unlike_post,
};
pub use users::{
    follow_user, get_all_users, get_followers, get_following, get_user_by_email, get_user_by_id,
    get_user_by_username, get_users_by_query, get_users_feed, insert_user, is_following,
    unfollow_user,
};

verus! {

/// An account as stored. The username and the email are stored in lower
/// case; `password` is the hash of the credential.
pub struct UserRow {
    pub id: u128,
    pub username: String,
    pub first_name: String,
    pub last_name: String,
    pub description: String,
    pub email: String,
    pub password: String,
}

/// The mathematical value of a [`UserRow`].
pub struct UserRecord {
    pub id: u128,
    pub username: Seq<char>,
    pub first_name: Seq<char>,
    pub last_name: Seq<char>,
    pub description: Seq<char>,
    pub email: Seq<char>,
    pub password: Seq<char>,
}

impl View for UserRow {
    type V = UserRecord;

    open spec fn view(&self) -> UserRecord {
        UserRecord {
            id: self.id,
            username: self.username@,
            first_name: self.first_name@,
            last_name: self.last_name@,
            description: self.description@,
            email: self.email@,
            password: self.password@,
        }
    }
}

/// A post as stored.
pub struct PostRow {
    pub id: u128,
    pub title: String,
    pub location: String,
    pub content: String,
    pub author: u128,
    pub created_at: i64,
}

/// The mathematical value of a [`PostRow`].
pub struct PostRecord {
    pub id: u128,
    pub title: Seq<char>,
    pub location: Seq<char>,
    pub content: Seq<char>,
    pub author: u128,
    pub created_at: i64,
}

impl View for PostRow {
    type V = PostRecord;

    open spec fn view(&self) -> PostRecord {
        PostRecord {
            id: self.id,
            title: self.title@,
            location: self.location@,
            content: self.content@,
            author: self.author,
            created_at: self.created_at,
        }
    }
}

/// A comment as stored; a reply names the comment it answers.
pub struct CommentRow {
    pub id: u128,
    pub user_id: u128,
    pub post_id: u128,
    pub comment: String,
    pub parent_comment_id: Option<u128>,
    pub created_at: i64,
}

/// The mathematical value of a [`CommentRow`].
pub struct CommentRecord {
    pub id: u128,
    pub user_id: u128,
    pub post_id: u128,
    pub comment: Seq<char>,
    pub parent_comment_id: Option<u128>,
    pub created_at: i64,
}

impl View for CommentRow {
    type V = CommentRecord;

    open spec fn view(&self) -> CommentRecord {
        CommentRecord {
            id: self.id,
            user_id: self.user_id,
            post_id: self.post_id,
            comment: self.comment@,
            parent_comment_id: self.parent_comment_id,
            created_at: self.created_at,
        }
    }
}

/// A like as stored: who likes which post, and since when.
#[derive(Clone, Copy, Debug)]
pub struct LikeRow {
    pub user_id: u128,
    pub post_id: u128,
    pub created_at: i64,
}

/// An edge of the follow relation: `follower_id` follows `user_id`.
#[derive(Clone, Copy, Debug)]
pub struct FollowRow {
    pub user_id: u128,
    pub follower_id: u128,
}

/// The state of the network. Rows stand in each table in the order in which
/// they were inserted.
pub struct Store {
    users: Vec<UserRow>,
    posts: Vec<PostRow>,
    comments: Vec<CommentRow>,
    likes: Vec<LikeRow>,
    followers: Vec<FollowRow>,
}

/// The mathematical value of a [`Store`].
pub struct StoreView {
    pub users: Seq<UserRecord>,
    pub posts: Seq<PostRecord>,
    pub comments: Seq<CommentRecord>,
    pub likes: Seq<LikeRow>,
    pub followers: Seq<FollowRow>,
}

impl UserRecord {
    /// The name shown for an account: the first name, a space, the last name.
    pub open spec fn full_name(self) -> Seq<char> {
        self.first_name + " "@ + self.last_name
    }

    /// The account as the queries hand it out.
    pub open spec fn user(self) -> UserView {
        UserView {
            id: uuid_text(self.id),
            username: self.username,
            email: self.email,
            password: self.password,
            name: self.full_name(),
            description: self.description,
        }
    }

    /// The public projection of the account.
    pub open spec fn principal(self) -> AuthUserView {
        self.user().principal()
    }

    /// The row that a registration makes: the username and the email are
    /// stored in lower case.
    pub open spec fn registered(id: u128, password: Seq<char>, user: CreateUserView) -> UserRecord {
        UserRecord {
            id,
            username: lowercase(user.username),
            first_name: user.first_name,
            last_name: user.last_name,
            description: user.description,
            email: lowercase(user.email),
            password,
        }
    }

    /// Whether the names of the row are in lower case: putting them in lower
    /// case leaves them as they are.
    pub open spec fn is_normal(self) -> bool {
        lowercase(self.username) == self.username && lowercase(self.email) == self.email
    }

    /// Whether two rows cannot stand in one table: they share an id, a
    /// username or an email.
    pub open spec fn clashes_with(self, other: UserRecord) -> bool {
        self.id == other.id || self.username == other.username || self.email == other.email
    }
}

impl PostRecord {
    /// The row that a new post makes.
    pub open spec fn created(
        id: u128,
        author: u128,
        post: CreatePostView,
        created_at: i64,
    ) -> PostRecord {
        PostRecord {
            id,
            title: post.title,
            location: post.location,
            content: post.content,
            author,
            created_at,
        }
    }
}

impl LikeRow {
    /// The like as the queries hand it out.
    pub open spec fn like(self) -> LikeView {
        LikeView {
            user_id: uuid_text(self.user_id),
            post_id: uuid_text(self.post_id),
            created_at: self.created_at,
        }
    }
}

/// The likes that are of the post.
pub open spec fn on_post(post: u128) -> spec_fn(LikeRow) -> bool {
    |like: LikeRow| like.post_id == post
}

/// The comments that are on the post.
pub open spec fn commenting_on(post: u128) -> spec_fn(CommentRecord) -> bool {
    |comment: CommentRecord| comment.post_id == post
}

/// A like as it is handed out, if it is of the post.
pub open spec fn pick_like_of(post: u128) -> spec_fn(LikeRow) -> Option<LikeView> {
    |like: LikeRow| if like.post_id == post { Some(like.like()) } else { None }
}

/// What a post is ordered by in a feed: its time and its id.
pub open spec fn feed_key() -> spec_fn(PostRecord) -> (i64, u128) {
    |row: PostRecord| (row.created_at, row.id)
}

/// Whether a post stands before another in a feed, or is the same: it is
/// newer, or of the same second and of no greater id.
pub open spec fn stands_before(a: (i64, u128), b: (i64, u128)) -> bool {
    a.0 > b.0 || (a.0 == b.0 && a.1 <= b.1)
}

/// The order of a feed.
pub open spec fn newer_first() -> spec_fn((i64, u128), (i64, u128)) -> bool {
    |a: (i64, u128), b: (i64, u128)| stands_before(a, b)
}

/// The pattern that a search for usernames holds them to: the query in lower
/// case, with anything before and behind it. The query is itself read as a
/// pattern, so that `%`, `_` and the backslash in it keep their meaning.
pub open spec fn search_pattern(query: Seq<char>) -> Seq<Glyph> {
    glyphs("%"@ + lowercase(query) + "%"@)
}

/// The public projection of an account, if its username is of the form that
/// the units describe.
pub open spec fn pick_named_like(units: Seq<Glyph>) -> spec_fn(UserRecord) -> Option<AuthUserView> {
    |row: UserRecord| if is_like(units, row.username) { Some(row.principal()) } else { None }
}

impl StoreView {
    /// No two accounts share an id, a username or an email.
    pub open spec fn users_unique(self) -> bool {
        forall|i: int, j: int|
            0 <= i < j < self.users.len() ==> {
                &&& (#[trigger] self.users[i]).id != (#[trigger] self.users[j]).id
                &&& self.users[i].username != self.users[j].username
                &&& self.users[i].email != self.users[j].email
            }
    }

    /// No two posts share an id.
    pub open spec fn posts_unique(self) -> bool {
        forall|i: int, j: int|
            0 <= i < j < self.posts.len() ==> (#[trigger] self.posts[i]).id != (
            #[trigger] self.posts[j]).id
    }

    /// No two comments share an id.
    pub open spec fn comments_unique(self) -> bool {
        forall|i: int, j: int|
            0 <= i < j < self.comments.len() ==> (#[trigger] self.comments[i]).id != (
            #[trigger] self.comments[j]).id
    }

    /// No user likes a post twice.
    pub open spec fn likes_unique(self) -> bool {
        forall|i: int, j: int|
            0 <= i < j < self.likes.len() ==> !({
                &&& (#[trigger] self.likes[i]).user_id == (#[trigger] self.likes[j]).user_id
                &&& self.likes[i].post_id == self.likes[j].post_id
            })
    }

    /// No edge of the follow relation stands twice.
    pub open spec fn followers_unique(self) -> bool {
        forall|i: int, j: int|
            0 <= i < j < self.followers.len() ==> #[trigger] self.followers[i]
                != #[trigger] self.followers[j]
    }

    /// The username and the email of every account are in lower case.
    pub open spec fn users_normal(self) -> bool {
        forall|i: int| 0 <= i < self.users.len() ==> (#[trigger] self.users[i]).is_normal()
    }

    /// No two accounts share a username or an email, whatever the case of
    /// the letters.
    pub open spec fn names_apart(self) -> bool {
        forall|i: int, j: int|
            0 <= i < j < self.users.len() ==> {
                &&& lowercase((#[trigger] self.users[i]).username) != lowercase(
                    (#[trigger] self.users[j]).username,
                )
                &&& lowercase(self.users[i].email) != lowercase(self.users[j].email)
            }
    }

    /// The author of every comment has an account.
    pub open spec fn comments_have_authors(self) -> bool {
        forall|i: int|
            0 <= i < self.comments.len() ==> self.has_user((#[trigger] self.comments[i]).user_id)
    }

    /// Every comment keeps its author where the accounts stay in their
    /// places and each comment's author had an account before.
    pub proof fn lemma_authors_kept(self, next: StoreView)
        requires
            self.users.len() <= next.users.len(),
            forall|i: int|
                0 <= i < self.users.len() ==> (#[trigger] next.users[i]).id == self.users[i].id,
            forall|c: int|
                0 <= c < next.comments.len() ==> self.has_user(
                    (#[trigger] next.comments[c]).user_id,
                ),
        ensures
            next.comments_have_authors(),
    {
        assert forall|c: int| 0 <= c < next.comments.len() implies next.has_user(
            (#[trigger] next.comments[c]).user_id,
        ) by {
            let author = next.comments[c].user_id;
            let at = choose|at: int| self.user_at(at, author);
            assert(next.user_at(at, author));
        }
    }

    /// The keys of the five tables hold, the names of the accounts are in
    /// lower case, and every comment has its author.
    pub open spec fn wf(self) -> bool {
        &&& self.users_unique()
        &&& self.users_normal()
        &&& self.posts_unique()
        &&& self.comments_unique()
        &&& self.likes_unique()
        &&& self.followers_unique()
        &&& self.comments_have_authors()
    }

    // ------------------------------------------------------------ accounts

    /// Whether the account at a place in the table has the id.
    pub open spec fn user_at(self, i: int, id: u128) -> bool {
        0 <= i < self.users.len() && self.users[i].id == id
    }

    /// Whether an account has the id.
    pub open spec fn has_user(self, id: u128) -> bool {
        exists|i: int| self.user_at(i, id)
    }

    /// The account with the id, where there is one.
    pub open spec fn user(self, id: u128) -> UserRecord {
        self.users[choose|i: int| self.user_at(i, id)]
    }

    /// Whether the account at a place in the table has the username.
    pub open spec fn username_at(self, i: int, username: Seq<char>) -> bool {
        0 <= i < self.users.len() && self.users[i].username == username
    }

    /// Whether an account is stored under the username, letter for letter.
    pub open spec fn has_username(self, username: Seq<char>) -> bool {
        exists|i: int| self.username_at(i, username)
    }

    /// The account with the username, where there is one.
    pub open spec fn user_named(self, username: Seq<char>) -> UserRecord {
        self.users[choose|i: int| self.username_at(i, username)]
    }

    /// Whether an account has the username, whatever the case of the letters
    /// of either.
    pub open spec fn holds_username(self, username: Seq<char>) -> bool {
        exists|i: int|
            0 <= i < self.users.len() && lowercase((#[trigger] self.users[i]).username)
                == lowercase(username)
    }

    /// Whether an account has the email, whatever the case of the letters of
    /// either.
    pub open spec fn holds_email(self, email: Seq<char>) -> bool {
        exists|i: int|
            0 <= i < self.users.len() && lowercase((#[trigger] self.users[i]).email) == lowercase(
                email,
            )
    }

    /// Whether the account at a place in the table has the email.
    pub open spec fn email_at(self, i: int, email: Seq<char>) -> bool {
        0 <= i < self.users.len() && self.users[i].email == email
    }

    /// Whether an account is stored under the email, letter for letter.
    pub open spec fn has_email(self, email: Seq<char>) -> bool {
        exists|i: int| self.email_at(i, email)
    }

    /// The account with the email, where there is one.
    pub open spec fn user_mailed(self, email: Seq<char>) -> UserRecord {
        self.users[choose|i: int| self.email_at(i, email)]
    }

    /// Whether the account at a place in the table clashes with the row.
    pub open spec fn clash_at(self, i: int, row: UserRecord) -> bool {
        0 <= i < self.users.len() && self.users[i].clashes_with(row)
    }

    /// Whether the row shares an id, a username or an email with an account.
    pub open spec fn user_clashes(self, row: UserRecord) -> bool {
        exists|i: int| self.clash_at(i, row)
    }

    /// Whether the table of accounts has no room for the row: it clashes
    /// with an account, or its names are not in lower case.
    pub open spec fn user_refused(self, row: UserRecord) -> bool {
        self.user_clashes(row) || !row.is_normal()
    }

    /// The store with one more account.
    pub open spec fn with_user(self, row: UserRecord) -> StoreView {
        StoreView { users: self.users.push(row), ..self }
    }

    // ------------------------------------------------- the follow relation

    /// Whether `follower` follows `followed`.
    pub open spec fn follows(self, follower: u128, followed: u128) -> bool {
        self.followers.contains(FollowRow { user_id: followed, follower_id: follower })
    }

    /// The store with the edge from `follower` to `followed`.
    pub open spec fn with_follow(self, follower: u128, followed: u128) -> StoreView {
        StoreView {
            followers: self.followers.push(FollowRow { user_id: followed, follower_id: follower }),
            ..self
        }
    }

    /// The store without the edge from `follower` to `followed`.
    pub open spec fn without_follow(self, follower: u128, followed: u128) -> StoreView {
        let edge = FollowRow { user_id: followed, follower_id: follower };
        if self.followers.contains(edge) {
            StoreView { followers: self.followers.remove(self.followers.index_of(edge)), ..self }
        } else {
            self
        }
    }

    /// The accounts that follow `user`, in the order of the table of accounts.
    pub open spec fn followers_of(self, user: u128) -> Seq<AuthUserView> {
        self.users.filter_map(self.pick_follower(user))
    }

    /// The public projection of an account, if the account follows `user`.
    pub open spec fn pick_follower(self, user: u128) -> spec_fn(UserRecord) -> Option<
        AuthUserView,
    > {
        |row: UserRecord| if self.follows(row.id, user) { Some(row.principal()) } else { None }
    }

    /// The accounts that `user` follows, in the order of the table of accounts.
    pub open spec fn followed_by(self, user: u128) -> Seq<AuthUserView> {
        self.users.filter_map(self.pick_followed(user))
    }

    /// The public projection of an account, if `user` follows the account.
    pub open spec fn pick_followed(self, user: u128) -> spec_fn(UserRecord) -> Option<
        AuthUserView,
    > {
        |row: UserRecord| if self.follows(user, row.id) { Some(row.principal()) } else { None }
    }

    /// The accounts whose username is of the form that a search describes,
    /// in the order of the table of accounts.
    pub open spec fn found_by(self, query: Seq<char>) -> Seq<AuthUserView> {
        self.users.filter_map(pick_named_like(search_pattern(query)))
    }

    /// All accounts, in the order of the table.
    pub open spec fn principals(self) -> Seq<AuthUserView> {
        Seq::new(self.users.len(), |i: int| self.users[i].principal())
    }

    // --------------------------------------------------------------- posts

    /// Whether the post at a place in the table has the id.
    pub open spec fn post_at(self, i: int, id: u128) -> bool {
        0 <= i < self.posts.len() && self.posts[i].id == id
    }

    /// Whether a post has the id.
    pub open spec fn has_post(self, id: u128) -> bool {
        exists|i: int| self.post_at(i, id)
    }

    /// The post with the id, where there is one.
    pub open spec fn post(self, id: u128) -> PostRecord {
        self.posts[choose|i: int| self.post_at(i, id)]
    }

    /// The store with one more post.
    pub open spec fn with_post(self, row: PostRecord) -> StoreView {
        StoreView { posts: self.posts.push(row), ..self }
    }

    /// The likes of a post.
    pub open spec fn likes_of(self, post: u128) -> Seq<LikeRow> {
        self.likes.filter(on_post(post))
    }

    /// The comments on a post, replies included.
    pub open spec fn comments_on(self, post: u128) -> Seq<CommentRecord> {
        self.comments.filter(commenting_on(post))
    }

    /// The number of likes of a post, cut to 32 bits.
    pub open spec fn like_count(self, post: u128) -> u32 {
        #[verifier::truncate]
        (self.likes_of(post).len() as u32)
    }

    /// The number of comments on a post, cut to 32 bits.
    pub open spec fn comment_count(self, post: u128) -> u32 {
        #[verifier::truncate]
        (self.comments_on(post).len() as u32)
    }

    /// A post as it is shown: with the number of its likes and of its
    /// comments.
    pub open spec fn shown(self, row: PostRecord) -> PostView {
        PostView {
            id: uuid_text(row.id),
            title: row.title,
            location: row.location,
            content: row.content,
            author: uuid_text(row.author),
            created_at: row.created_at,
            num_likes: self.like_count(row.id),
            num_comments: self.comment_count(row.id),
        }
    }

    /// The posts of an author, in the order of the table of posts.
    pub open spec fn posts_of(self, author: u128) -> Seq<PostView> {
        self.posts.filter_map(self.pick_post_of(author))
    }

    /// A post as it is shown, if it is of the author.
    pub open spec fn pick_post_of(self, author: u128) -> spec_fn(PostRecord) -> Option<PostView> {
        |row: PostRecord| if row.author == author { Some(self.shown(row)) } else { None }
    }

    // ------------------------------------------------------------ the feed

    /// The posts whose author the viewer follows.
    pub open spec fn by_followed(self, viewer: u128) -> spec_fn(PostRecord) -> bool {
        |row: PostRecord| self.follows(viewer, row.author)
    }

    /// The time and the id of each post of a viewer's feed, newest first;
    /// posts of the same second stand in the order of their ids.
    pub open spec fn feed_keys(self, viewer: u128) -> Seq<(i64, u128)> {
        self.posts.filter(self.by_followed(viewer)).map_values(feed_key()).sort_by(newer_first())
    }

    /// The feed of a viewer: the posts of the accounts that the viewer
    /// follows, as they are shown, newest first.
    pub open spec fn feed(self, viewer: u128) -> Seq<PostView> {
        let keys = self.feed_keys(viewer);
        Seq::new(keys.len(), |k: int| self.shown(self.post(keys[k].1)))
    }

    // --------------------------------------------------------------- likes

    /// Whether the like at a place in the table is of `post` by `user`.
    pub open spec fn like_at(self, i: int, user: u128, post: u128) -> bool {
        0 <= i < self.likes.len() && self.likes[i].user_id == user && self.likes[i].post_id == post
    }

    /// Whether `user` likes `post`.
    pub open spec fn has_like(self, user: u128, post: u128) -> bool {
        exists|i: int| self.like_at(i, user, post)
    }

    /// Where the like of `post` by `user` stands, where there is one.
    pub open spec fn like_index(self, user: u128, post: u128) -> int {
        choose|i: int| self.like_at(i, user, post)
    }

    /// The store with one more like.
    pub open spec fn with_like(self, row: LikeRow) -> StoreView {
        StoreView { likes: self.likes.push(row), ..self }
    }

    /// The store without the like of `post` by `user`.
    pub open spec fn without_like(self, user: u128, post: u128) -> StoreView {
        if self.has_like(user, post) {
            StoreView { likes: self.likes.remove(self.like_index(user, post)), ..self }
        } else {
            self
        }
    }

    /// The likes of a post as they are handed out, in the order of the table.
    pub open spec fn shown_likes(self, post: u128) -> Seq<LikeView> {
        self.likes.filter_map(pick_like_of(post))
    }

    // ------------------------------------------------------------ comments

    /// Whether the comment at a place in the table has the id.
    pub open spec fn comment_at(self, i: int, id: u128) -> bool {
        0 <= i < self.comments.len() && self.comments[i].id == id
    }

    /// Whether a comment has the id.
    pub open spec fn has_comment(self, id: u128) -> bool {
        exists|i: int| self.comment_at(i, id)
    }

    /// Where the comment with the id stands, where there is one.
    pub open spec fn comment_index(self, id: u128) -> int {
        choose|i: int| self.comment_at(i, id)
    }

    /// The comment with the id, where there is one.
    pub open spec fn comment(self, id: u128) -> CommentRecord {
        self.comments[self.comment_index(id)]
    }

    /// The store with one more comment.
    pub open spec fn with_comment(self, row: CommentRecord) -> StoreView {
        StoreView { comments: self.comments.push(row), ..self }
    }

    /// The store without the comment with the id.
    pub open spec fn without_comment(self, id: u128) -> StoreView {
        if self.has_comment(id) {
            StoreView { comments: self.comments.remove(self.comment_index(id)), ..self }
        } else {
            self
        }
    }

    /// A comment as it is shown, with its author.
    pub open spec fn shown_comment(self, row: CommentRecord) -> CommentView {
        CommentView {
            id: uuid_text(row.id),
            user: self.user(row.user_id).principal(),
            post_id: uuid_text(row.post_id),
            comment: row.comment,
            created_at: row.created_at,
            parent_comment_id: match row.parent_comment_id {
                Some(parent) => Some(uuid_text(parent)),
                None => None,
            },
        }
    }

    /// The comments on a post as they are shown, in the order of the table.
    pub open spec fn shown_comments(self, post: u128) -> Seq<CommentView> {
        self.comments.filter_map(self.pick_comment_on(post))
    }

    /// A comment as it is shown, if it is on the post.
    pub open spec fn pick_comment_on(self, post: u128) -> spec_fn(CommentRecord) -> Option<
        CommentView,
    > {
        |row: CommentRecord| if row.post_id == post { Some(self.shown_comment(row)) } else { None }
    }

    /// The store with nothing in it.
    pub open spec fn empty() -> StoreView {
        StoreView {
            users: Seq::empty(),
            posts: Seq::empty(),
            comments: Seq::empty(),
            likes: Seq::empty(),
            followers: Seq::empty(),
        }
    }
}

impl View for Store {
    type V = StoreView;

    closed spec fn view(&self) -> StoreView {
        StoreView {
            users: self.users@.map_values(|row: UserRow| row@),
            posts: self.posts@.map_values(|row: PostRow| row@),
            comments: self.comments@.map_values(|row: CommentRow| row@),
            likes: self.likes@,
            followers: self.followers@,
        }
    }
}

impl Store {
    /// Whether the keys of the tables hold, the names of the accounts are in
    /// lower case and every comment has its author. Every store that this
    /// library hands out is so, and every operation keeps it so.
    pub open spec fn wf(&self) -> bool {
        self@.wf()
    }

    /// A store with nothing in it.
    pub fn new() -> (store: Store)
        ensures
            store.wf(),
            store@ == StoreView::empty(),
    {
        let store = Store {
            users: Vec::new(),
            posts: Vec::new(),
            comments: Vec::new(),
            likes: Vec::new(),
            followers: Vec::new(),
        };
        proof {
            assert(store@.users =~= Seq::empty());
            assert(store@.posts =~= Seq::empty());
            assert(store@.comments =~= Seq::empty());
        }
        store
    }
}

} // verus!
