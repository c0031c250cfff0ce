//! Session tokens handed to clients that logged in.

use vstd::prelude::*;
use crate::crypto::{random_bytes, CryptoError, OpensslCall};
use crate::hex_codec::{encode_hex, hex_encode_spec, is_lower_hex, lemma_encode_is_lower_hex};

verus! {

/// How many random bytes a session token carries.
pub const TOKEN_BYTES: usize = 32;

/// Whether `token` is the hex encoding of some `TOKEN_BYTES` bytes.
pub open spec fn is_session_token(token: Seq<char>) -> bool {
    exists|bytes: Seq<u8>| bytes.len() == TOKEN_BYTES && token == hex_encode_spec(bytes)
}

/// The session token for the given random bytes: their lowercase hex.
pub fn session_token_from_bytes(bytes: &[u8]) -> (token: String)
    ensures
        token@ == hex_encode_spec(bytes@),
        token@.len() == 2 * bytes@.len(),
        is_lower_hex(token@),
{
    proof {
        lemma_encode_is_lower_hex(bytes@);
    }
    encode_hex(bytes)
}

/// A fresh session token: `TOKEN_BYTES` random bytes in lowercase hex, so 64
/// characters. Fails only where OpenSSL's random generator fails: an error
/// names that draw.
pub fn generate_session_token() -> (res: Result<String, CryptoError>)
    ensures
        res matches Ok(token) ==> is_session_token(token@) && token@.len() == 2 * TOKEN_BYTES
            && is_lower_hex(token@),
        res matches Err(e) ==> e.failed_call() == (OpensslCall::RandomBytes { len: TOKEN_BYTES }),
{
    let bytes = random_bytes(TOKEN_BYTES)?;
    Ok(session_token_from_bytes(bytes.as_slice()))
}

} // verus!
