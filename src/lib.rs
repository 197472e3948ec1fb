//! The cache store's write and purge rules, with a model of the backend keyspace, and
//! the line protocol of control connections.

pub mod command;
pub mod store;
