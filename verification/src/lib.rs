//! A small storage library for "label" records: a repository contract
//! (create / list / delete), an in-memory implementation guarded by a
//! reader-writer lock, and the decision logic of a database-backed
//! implementation.

pub mod memory;
pub mod persistent;
pub mod repository;
