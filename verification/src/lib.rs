//! A lending core for a small library: the catalogue's availability flags,
//! the loan records, and the rules that tie the two together.

pub mod calendar;
pub mod custom_errors;
pub mod errors;
pub mod laws;
pub mod library;
pub mod models;
pub mod outcomes;
pub mod persistence;
pub mod runner;
pub mod tables;
pub mod text;
pub mod validation;
pub mod workflow;
