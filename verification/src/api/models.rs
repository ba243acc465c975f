//! The records that travel between the network and its clients, and the
//! errors that an operation can end in.

pub mod comments;
pub mod error;
pub mod posts;
pub mod token;
pub mod user;

pub use comments::{Comment, CommentView, CreateComment};
pub use posts::{CreatePost, CreatePostView, Like, LikeView, Post, PostView};
pub use user::{
    AuthInfo, AuthInfoView, AuthUser, AuthUserView, CreateUser, CreateUserView, LoginInfo, User,
    UserView,
};
