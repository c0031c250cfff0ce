//! The two OpenSSL primitives the server relies on: a source of random
//! bytes and PBKDF2-HMAC-SHA256 key derivation.

use vstd::prelude::*;
use vstd::slice::slice_to_vec;

verus! {

/// An OpenSSL call, with its arguments taken as values.
pub enum OpensslCall {
    /// Drawing `len` random bytes.
    RandomBytes { len: usize },
    /// Deriving a `key_len`-byte PBKDF2-HMAC-SHA256 key.
    DeriveKey { password: Seq<u8>, salt: Seq<u8>, iterations: usize, key_len: usize },
}

/// The call that failed, as the error keeps it.
#[derive(Debug, Clone)]
enum FailedCall {
    RandomBytes { len: usize },
    DeriveKey { password: Vec<u8>, salt: Vec<u8>, iterations: usize, key_len: usize },
}

/// OpenSSL reported a failure (its error stack is not kept). The error
/// records which call failed; only the calls of this module make one, so an
/// error always stands for a failure of the call it names.
#[derive(Debug, Clone)]
pub struct CryptoError {
    call: FailedCall,
}

impl CryptoError {
    /// The OpenSSL call whose failure this error reports.
    pub closed spec fn failed_call(&self) -> OpensslCall {
        match self.call {
            FailedCall::RandomBytes { len } => OpensslCall::RandomBytes { len },
            FailedCall::DeriveKey { password, salt, iterations, key_len } => OpensslCall::DeriveKey {
                password: password@,
                salt: salt@,
                iterations,
                key_len,
            },
        }
    }
}

/// The error for a failed draw of `len` random bytes.
fn random_failure(len: usize) -> (e: CryptoError)
    ensures
        e.failed_call() == (OpensslCall::RandomBytes { len }),
{
    CryptoError { call: FailedCall::RandomBytes { len } }
}

/// The error for a failed key derivation with these arguments.
fn derive_failure(password: &[u8], salt: &[u8], iterations: usize, key_len: usize) -> (e: CryptoError)
    ensures
        e.failed_call() == (OpensslCall::DeriveKey {
            password: password@,
            salt: salt@,
            iterations,
            key_len,
        }),
{
    let password = slice_to_vec(password);
    let salt = slice_to_vec(salt);
    CryptoError { call: FailedCall::DeriveKey { password, salt, iterations, key_len } }
}

/// The largest length OpenSSL accepts for a buffer or an iteration count
/// (`c_int::MAX`).
pub open spec fn openssl_len_limit() -> int {
    0x7fff_ffff
}

/// The key that PBKDF2 with HMAC-SHA256 derives from a password and a salt in
/// the given number of iterations, of the given length.
pub uninterp spec fn pbkdf2_hmac_sha256(
    password: Seq<u8>,
    salt: Seq<u8>,
    iterations: usize,
    key_len: usize,
) -> Seq<u8>;

/// Draws `len` cryptographically strong random bytes.
///
/// Calls `openssl::rand::rand_bytes` on a zeroed buffer of `len` bytes. The
/// contract says only that a success hands back `len` bytes: which bytes, and
/// whether OpenSSL succeeds, rests on its random generator; a failure is
/// reported as an error naming this draw. `rand_bytes`
/// asserts that the length fits a `c_int`, hence the `requires`.
#[verifier::external_body]
pub(crate) fn random_bytes(len: usize) -> (res: Result<Vec<u8>, CryptoError>)
    requires
        len <= openssl_len_limit(),
    ensures
        res matches Ok(bytes) ==> bytes@.len() == len,
        res matches Err(e) ==> e.failed_call() == (OpensslCall::RandomBytes { len }),
{
    let mut buf = vec![0u8; len];
    match openssl::rand::rand_bytes(&mut buf) {
        Ok(()) => Ok(buf),
        Err(_) => Err(random_failure(len)),
    }
}

/// Derives a `key_len`-byte key with PBKDF2-HMAC-SHA256.
///
/// Calls `openssl::pkcs5::pbkdf2_hmac` with `MessageDigest::sha256()` into a
/// zeroed buffer of `key_len` bytes. On success the key is the named
/// derivation of the four arguments, which depends on them alone; whether
/// OpenSSL succeeds is not stated, and a failure is reported as an error
/// naming this call and its arguments. `pbkdf2_hmac` converts every length and
/// the iteration count to a `c_int` with `unwrap`, hence the `requires`.
#[verifier::external_body]
pub(crate) fn derive_key(password: &[u8], salt: &[u8], iterations: usize, key_len: usize) -> (res:
    Result<Vec<u8>, CryptoError>)
    requires
        password@.len() <= openssl_len_limit(),
        salt@.len() <= openssl_len_limit(),
        iterations <= openssl_len_limit(),
        key_len <= openssl_len_limit(),
    ensures
        res matches Ok(key) ==> key@.len() == key_len && key@ == pbkdf2_hmac_sha256(
            password@,
            salt@,
            iterations,
            key_len,
        ),
        res matches Err(e) ==> e.failed_call() == (OpensslCall::DeriveKey {
            password: password@,
            salt: salt@,
            iterations,
            key_len,
        }),
{
    let mut key = vec![0u8; key_len];
    match openssl::pkcs5::pbkdf2_hmac(
        password,
        salt,
        iterations,
        openssl::hash::MessageDigest::sha256(),
        &mut key,
    ) {
        Ok(()) => Ok(key),
        Err(_) => Err(derive_failure(password, salt, iterations, key_len)),
    }
}

} // verus!
