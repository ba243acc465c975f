//! The operations of the network. Each one holds its arguments to the store
//! in a fixed order of checks, and changes the store only where none fails.

pub mod comments;
pub mod posts;
pub mod user;
