//! The network: its records, its relational state, the operations on it and
//! what holds of them.

pub mod controller;
pub mod database;
pub mod laws;
pub mod models;
pub mod startup;
pub mod vendor;
