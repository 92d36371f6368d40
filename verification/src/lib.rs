//! A small write-then-read record service over a document store.
//!
//! A record is an identifier and an integer. The library generates the
//! identifier, maps a record to the document that is stored and back, and
//! says which requests the data access layer sends to the store and what it
//! makes of each answer. It performs no input or output itself: a caller
//! carries each request to the store and hands the answer back.

pub mod dao;
pub mod document;
pub mod error;
pub mod guarantees;
pub mod identifier;
pub mod record;
pub mod service;
pub mod store;
