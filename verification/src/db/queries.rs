//! Sign-up and log-in: what the server decides from the result of looking a
//! login up, and how it hashes and checks passwords.
//!
//! A password is stored as the lowercase hex of its PBKDF2-HMAC-SHA256 key
//! (`HASH_LEN` bytes, `HASH_ITERATIONS` rounds) under a random salt of
//! `SALT_LEN` bytes, which is stored in hex beside it.

use vstd::prelude::*;
use vstd::utf8::{encode_utf8, encode_utf8_decode_utf8};
use crate::crypto::{
    derive_key, openssl_len_limit, pbkdf2_hmac_sha256, random_bytes, CryptoError, OpensslCall,
};
use crate::db::models::{DbError, NewUser, User};
use crate::hex_codec::{
    encode_hex, hex_decode_spec, hex_encode_spec, lemma_decode_encode, lemma_encode_injective,
};
use crate::protocol::{AuthError, Params, RequestError};

verus! {

/// Rounds of PBKDF2 per password.
pub const HASH_ITERATIONS: usize = 1000;

/// Bytes of a password's derived key.
pub const HASH_LEN: usize = 256;

/// Bytes of a fresh salt.
pub const SALT_LEN: usize = 32;

/// Why a sign-up did not produce a row to insert.
#[derive(Debug)]
pub enum SignUpError {
    /// Refused, with the reason the client is told.
    Request(RequestError),
    /// The lookup of the login failed.
    Database(DbError),
    /// OpenSSL failed to draw the salt or derive the key.
    Crypto(CryptoError),
}

/// Why a log-in could not be checked.
#[derive(Debug)]
pub enum VerifyError {
    /// The lookup of the login failed, `NotFound` included.
    Database(DbError),
    /// OpenSSL failed to derive the key.
    Crypto(CryptoError),
}

/// The name of the login field of a request.
pub open spec fn login_field() -> Seq<char> {
    "login"@
}

/// The name of the password field of a request.
pub open spec fn password_field() -> Seq<char> {
    "password"@
}

/// The key derivation that hashing `password` under `salt` asks OpenSSL for.
pub open spec fn hash_call(password: Seq<char>, salt: Seq<u8>) -> OpensslCall {
    OpensslCall::DeriveKey {
        password: encode_utf8(password),
        salt,
        iterations: HASH_ITERATIONS,
        key_len: HASH_LEN,
    }
}

/// The derivation an error names fixes the password and the salt it was
/// asked for: a hashing failure reported for one password and salt is never
/// the failure of another.
pub proof fn lemma_hash_call_names_its_inputs(p1: Seq<char>, s1: Seq<u8>, p2: Seq<char>, s2: Seq<u8>)
    ensures
        hash_call(p1, s1) == hash_call(p2, s2) <==> (p1 == p2 && s1 == s2),
{
    encode_utf8_decode_utf8(p1);
    encode_utf8_decode_utf8(p2);
}

/// The key derived from a password (its UTF-8 bytes) and a salt.
pub open spec fn password_hash(password: Seq<char>, salt: Seq<u8>) -> Seq<u8> {
    pbkdf2_hmac_sha256(encode_utf8(password), salt, HASH_ITERATIONS, HASH_LEN)
}

/// Whether `u` is the row that signs up `login` with `password` under `salt`.
pub open spec fn is_new_user_record(u: NewUser, login: Seq<char>, password: Seq<char>, salt: Seq<u8>) -> bool {
    &&& u.login@ == login
    &&& u.password@ == hex_encode_spec(password_hash(password, salt))
    &&& u.password@.len() == 2 * HASH_LEN
    &&& u.salt@ == hex_encode_spec(salt)
}

/// Whether the salt column of `user` is valid hex.
pub open spec fn has_valid_salt(user: User) -> bool {
    hex_decode_spec(encode_utf8(user.salt@)) is Ok
}

/// The salt stored in `user`.
pub open spec fn stored_salt(user: User) -> Seq<u8> {
    hex_decode_spec(encode_utf8(user.salt@))->Ok_0
}

/// Whether `password` is the one `user` signed up with: its key under the
/// stored salt, in hex, is the stored password.
pub open spec fn credentials_match(user: User, password: Seq<char>) -> bool {
    user.password@ == hex_encode_spec(password_hash(password, stored_salt(user)))
}

/// Whether a password can be handed to OpenSSL.
pub open spec fn password_fits(password: Seq<char>) -> bool {
    encode_utf8(password).len() <= openssl_len_limit()
}

/// Whether a stored user's salt can be decoded and handed to OpenSSL.
pub open spec fn salt_usable(user: User) -> bool {
    has_valid_salt(user) && stored_salt(user).len() <= openssl_len_limit()
}

/// What a lookup of a login says about whether it is taken: a row means
/// yes, `NotFound` means no, any other failure is passed on.
pub fn is_signed_up(lookup: Result<User, DbError>) -> (res: Result<bool, DbError>)
    ensures
        match lookup {
            Ok(_) => res == Ok::<bool, DbError>(true),
            Err(DbError::NotFound) => res == Ok::<bool, DbError>(false),
            Err(e) => res == Err::<bool, DbError>(e),
        },
{
    match lookup {
        Ok(_) => Ok(true),
        Err(DbError::NotFound) => Ok(false),
        Err(e) => Err(e),
    }
}

/// The key derived from `password` under `salt`.
fn hash_password(password: &str, salt: &[u8]) -> (res: Result<Vec<u8>, CryptoError>)
    requires
        password_fits(password@),
        salt@.len() <= openssl_len_limit(),
    ensures
        res matches Ok(key) ==> key@ == password_hash(password@, salt@) && key@.len() == HASH_LEN,
        res matches Err(e) ==> e.failed_call() == hash_call(password@, salt@),
{
    derive_key(password.as_bytes(), salt, HASH_ITERATIONS, HASH_LEN)
}

/// The row that signs up `login` with `password` under the given salt. Fails
/// only where OpenSSL fails to derive the key: an error names that very
/// derivation.
pub fn new_user_with_salt(login: &str, password: &str, salt: &[u8]) -> (res: Result<NewUser, CryptoError>)
    requires
        password_fits(password@),
        salt@.len() <= openssl_len_limit(),
    ensures
        res matches Ok(u) ==> is_new_user_record(u, login@, password@, salt@),
        res matches Err(e) ==> e.failed_call() == hash_call(password@, salt@),
{
    let key = hash_password(password, salt)?;
    Ok(NewUser {
        login: login.to_owned(),
        password: encode_hex(key.as_slice()),
        salt: encode_hex(salt),
    })
}

/// What a sign-up is refused for, given the lookup of its login, or `None`
/// when it goes ahead.
pub open spec fn sign_up_refusal(lookup: Result<User, DbError>) -> Option<SignUpError> {
    match lookup {
        Ok(_) => Some(SignUpError::Request(RequestError::Auth(AuthError::AlreadySignedUp))),
        Err(DbError::NotFound) => None,
        Err(e) => Some(SignUpError::Database(e)),
    }
}

/// Signs up the `login` and `password` of a request, given the lookup of the
/// login: refused when the login is taken or the lookup failed; otherwise
/// the row to insert, with a fresh random salt of `SALT_LEN` bytes.
pub fn sign_up(params: &Params, lookup: Result<User, DbError>) -> (res: Result<NewUser, SignUpError>)
    requires
        params@.contains_key(login_field()),
        lookup matches Err(DbError::NotFound) ==> params@.contains_key(password_field())
            && password_fits(params@[password_field()]),
    ensures
        match sign_up_refusal(lookup) {
            Some(e) => res == Err::<NewUser, SignUpError>(e),
            None => match res {
                Ok(u) => exists|salt: Seq<u8>|
                    salt.len() == SALT_LEN && is_new_user_record(
                        u,
                        params@[login_field()],
                        params@[password_field()],
                        salt,
                    ),
                Err(e) => e matches SignUpError::Crypto(c) && (c.failed_call() == (
                OpensslCall::RandomBytes { len: SALT_LEN }) || exists|salt: Seq<u8>|
                    salt.len() == SALT_LEN && c.failed_call() == hash_call(
                        params@[password_field()],
                        salt,
                    )),
            },
        },
{
    let taken = match is_signed_up(lookup) {
        Ok(taken) => taken,
        Err(e) => return Err(SignUpError::Database(e)),
    };
    if taken {
        return Err(SignUpError::Request(RequestError::Auth(AuthError::AlreadySignedUp)));
    }
    let login = params.get("login").unwrap();
    let password = params.get("password").unwrap();
    let salt = match random_bytes(SALT_LEN) {
        Ok(salt) => salt,
        Err(e) => return Err(SignUpError::Crypto(e)),
    };
    match new_user_with_salt(login.as_str(), password.as_str(), salt.as_slice()) {
        Ok(u) => Ok(u),
        Err(e) => Err(SignUpError::Crypto(e)),
    }
}

/// Checks a stored user against the key derived from the offered password:
/// the user's id when its hex is the stored password, `None` otherwise.
pub fn check_password(user: &User, key: &[u8]) -> (res: Option<i32>)
    ensures
        res == (if user.password@ == hex_encode_spec(key@) {
            Some(user.id)
        } else {
            None::<i32>
        }),
{
    let encoded = encode_hex(key);
    if user.password == encoded {
        Some(user.id)
    } else {
        None
    }
}

/// Checks the `login` and `password` of a request against the lookup of the
/// login: a failed lookup (`NotFound` included) is passed on; otherwise the
/// user's id when the password matches, `None` when it does not.
pub fn verify_user_credentials(params: &Params, lookup: Result<User, DbError>) -> (res: Result<
    Option<i32>,
    VerifyError,
>)
    requires
        params@.contains_key(login_field()),
        params@.contains_key(password_field()),
        password_fits(params@[password_field()]),
        lookup matches Ok(user) ==> salt_usable(user),
    ensures
        match lookup {
            Ok(user) => match res {
                Ok(r) => r == (if credentials_match(user, params@[password_field()]) {
                    Some(user.id)
                } else {
                    None::<i32>
                }),
                Err(e) => e matches VerifyError::Crypto(c) && c.failed_call() == hash_call(
                    params@[password_field()],
                    stored_salt(user),
                ),
            },
            Err(e) => res == Err::<Option<i32>, VerifyError>(VerifyError::Database(e)),
        },
{
    let password = params.get("password").unwrap();
    let user = match lookup {
        Ok(user) => user,
        Err(e) => return Err(VerifyError::Database(e)),
    };
    let salt = user.decode_salt().unwrap();
    let key = match hash_password(password.as_str(), salt.as_slice()) {
        Ok(key) => key,
        Err(e) => return Err(VerifyError::Crypto(e)),
    };
    Ok(check_password(&user, key.as_slice()))
}

/// The row the database holds for a sign-up row once it is given an id.
pub open spec fn stored_user(u: NewUser, id: i32) -> User {
    User { id, login: u.login, password: u.password, salt: u.salt }
}

/// A user who signed up with a password is let in with that password: the
/// row sign-up builds, once stored under any id, has a salt that decodes back
/// and matches the password it was built from.
pub proof fn lemma_signed_up_user_logs_in(
    u: NewUser,
    id: i32,
    login: Seq<char>,
    password: Seq<char>,
    salt: Seq<u8>,
)
    requires
        is_new_user_record(u, login, password, salt),
    ensures
        has_valid_salt(stored_user(u, id)),
        stored_salt(stored_user(u, id)) == salt,
        credentials_match(stored_user(u, id), password),
{
    lemma_decode_encode(salt);
}

/// A password is refused by the row another password signed up, unless the
/// two derive the same key under its salt.
pub proof fn lemma_wrong_password_refused(
    u: NewUser,
    id: i32,
    login: Seq<char>,
    password: Seq<char>,
    salt: Seq<u8>,
    other: Seq<char>,
)
    requires
        is_new_user_record(u, login, password, salt),
        password_hash(other, salt) != password_hash(password, salt),
    ensures
        !credentials_match(stored_user(u, id), other),
{
    lemma_decode_encode(salt);
    lemma_encode_injective(password_hash(other, salt), password_hash(password, salt));
}

} // verus!
