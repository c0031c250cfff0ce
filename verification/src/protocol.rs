//! The messages exchanged between client and server.

use vstd::prelude::*;
use crate::str_map::StrMap;

verus! {

/// The string-valued fields of a JSON object, by name.
pub type Params = StrMap<String>;

/// What a client asks the server to do.
#[derive(Debug, Clone, Copy, PartialEq, Eq, Structural)]
pub enum Method {
    SignUp,
    LogIn,
}

/// Why an authentication request was refused.
#[derive(Debug, Clone, Copy, PartialEq, Eq, Structural)]
pub enum AuthError {
    /// Sign-up with a login that is already taken.
    AlreadySignedUp,
    /// Log-in with an unknown password for the login.
    IncorrectCredentials,
}

/// A refusal that is reported back to the client.
#[derive(Debug, Clone, Copy, PartialEq, Eq, Structural)]
pub enum RequestError {
    Auth(AuthError),
}

/// The server's answer to a request: the fields of a successful reply, or
/// the refusal.
#[derive(Debug)]
pub enum RequestResult {
    Success(Params),
    Failure(RequestError),
}

/// A request: the method and its named arguments.
#[derive(Debug)]
pub struct Request {
    pub method: Method,
    pub params: Params,
}

/// A reply in the form of a success flag and named fields.
#[derive(Debug)]
pub struct Responce {
    pub result: bool,
    pub params: Params,
}

} // verus!
