//! Identity, authorization and social-graph logic of a small social network:
//! accounts and signed tokens, posts, comments, likes, the follow relation and
//! the feed that is assembled from it.
//!
//! The relational state is modelled by [`api::database::Store`]; every
//! operation on it carries a contract over the store's view.

pub mod api;
