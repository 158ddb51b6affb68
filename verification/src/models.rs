//! The rows of the store, and what is asked of it about them.

pub mod authentication;
pub mod book;
pub mod loan;
pub mod user;
