//! Abstractions for talking to a data store in a uniform way: errors, parameterized
//! queries, the decisions that drive a batch transaction, connection settings for
//! PostgreSQL, and in-memory doubles for unit tests.

pub mod bits;
pub mod config;
pub mod datetime;
pub mod error;
pub mod laws;
pub mod placeholders;
pub mod query;
pub mod row;
pub mod testing_utils;
pub mod transaction;
