//! A household account book.
//!
//! The crate holds the rules of the book: what an entry is, how a line typed
//! by the user becomes one, how the entries of a month are netted, and how
//! the monthly report reads. Reading the console and the store is left to the
//! caller, which hands over what it read.

pub mod calendar;
pub mod models;
pub mod services;
pub mod text;
