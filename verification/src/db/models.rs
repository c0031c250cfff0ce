//! Rows of the `users` and `chats` tables, and the database's failures as
//! the server tells them apart.

use vstd::prelude::*;
use vstd::utf8::encode_utf8;
use crate::hex_codec::{decode_hex, decoded_view, hex_decode_spec, HexError};

verus! {

/// A row of `users`: the password column holds the hex of the derived key,
/// the salt column the hex of the salt.
#[derive(Debug, Clone)]
pub struct User {
    pub id: i32,
    pub login: String,
    pub password: String,
    pub salt: String,
}

impl User {
    /// The salt of this row, decoded from its hex column.
    pub fn decode_salt(&self) -> (res: Result<Vec<u8>, HexError>)
        ensures
            decoded_view(res) == hex_decode_spec(encode_utf8(self.salt@)),
    {
        decode_hex(self.salt.as_str().as_bytes())
    }
}

/// The columns of a `users` row to be inserted.
#[derive(Debug, Clone)]
pub struct NewUser {
    pub login: String,
    pub password: String,
    pub salt: String,
}

/// A row of `chats`.
#[derive(Debug, Clone)]
pub struct Chat {
    pub id: i32,
    pub name: String,
}

/// A failed query: no row matched, or any other failure, with its message.
#[derive(Debug)]
pub enum DbError {
    NotFound,
    Failure(String),
}

} // verus!
