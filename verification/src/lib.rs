//! Verified core of the qpager messenger server: the wire protocol types,
//! hex encoding of binary secrets, password hashing for sign-up and log-in,
//! session tokens, and the decisions the server makes for each request.

pub mod hex_codec;
pub mod crypto;
pub mod str_map;
pub mod protocol;
pub mod db;
pub mod server;
