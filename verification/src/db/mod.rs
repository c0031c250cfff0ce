//! The user records of the database and what the server computes around
//! its queries.

pub mod connection;
pub mod models;
pub mod queries;
pub mod table;
