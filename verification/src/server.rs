//! The decisions of the server's request loop: which reply a request gets
//! once its database work is done, the table of session tokens, and the ids
//! handed to connecting clients.

use vstd::prelude::*;
use crate::db::connection::{generate_session_token, is_session_token};
use crate::db::queries::{SignUpError, VerifyError};
use crate::protocol::{AuthError, Params, RequestError, RequestResult};
use crate::str_map::StrMap;

verus! {

/// The user id that each handed-out session token stands for.
pub type SessionTokens = StrMap<i32>;

/// The name of the token field of a successful log-in reply.
pub open spec fn session_token_field() -> Seq<char> {
    "session_token"@
}

/// The reply to a sign-up whose row was built and inserted (`Ok`) or not:
/// success with no fields, the refusal when the client is to be told, and no
/// reply at all for database or OpenSSL failures.
pub fn sign_up_reply(outcome: Result<(), SignUpError>) -> (res: Option<RequestResult>)
    ensures
        match outcome {
            Ok(()) => res matches Some(RequestResult::Success(p)) && p@ == Map::<
                Seq<char>,
                Seq<char>,
            >::empty(),
            Err(SignUpError::Request(e)) => res == Some(RequestResult::Failure(e)),
            Err(_) => res is None,
        },
{
    match outcome {
        Ok(()) => Some(RequestResult::Success(Params::new())),
        Err(SignUpError::Request(e)) => Some(RequestResult::Failure(e)),
        Err(_) => None,
    }
}

/// Opens a session: records that `token` stands for `id` and builds the
/// reply that hands the token to the client.
pub fn start_session(sessions: &mut SessionTokens, token: String, id: i32) -> (res: RequestResult)
    ensures
        final(sessions)@ == old(sessions)@.insert(token@, id),
        res matches RequestResult::Success(p) && p@ == Map::<Seq<char>, Seq<char>>::empty().insert(
            session_token_field(),
            token@,
        ),
{
    let mut reply = Params::new();
    sessions.insert(token.clone(), id);
    reply.insert("session_token".to_owned(), token);
    RequestResult::Success(reply)
}

/// The reply to a log-in, given the outcome of checking its credentials: a
/// new session and its token for a match, the `IncorrectCredentials` refusal
/// for a mismatch, and no reply (and no session) when the check failed or
/// no token could be drawn.
pub fn log_in_reply(sessions: &mut SessionTokens, verified: Result<Option<i32>, VerifyError>) -> (res:
    Option<RequestResult>)
    ensures
        match verified {
            Ok(Some(id)) => match res {
                Some(RequestResult::Success(p)) => p.view().contains_key(session_token_field())
                    && is_session_token(p@[session_token_field()]) && p@ == Map::<
                    Seq<char>,
                    Seq<char>,
                >::empty().insert(session_token_field(), p@[session_token_field()])
                    && final(sessions)@ == old(sessions)@.insert(
                    p@[session_token_field()],
                    id,
                ),
                Some(RequestResult::Failure(_)) => false,
                None => final(sessions)@ == old(sessions)@,
            },
            Ok(None) => res == Some(
                RequestResult::Failure(RequestError::Auth(AuthError::IncorrectCredentials)),
            ) && final(sessions)@ == old(sessions)@,
            Err(_) => res is None && final(sessions)@ == old(sessions)@,
        },
{
    match verified {
        Ok(Some(id)) => match generate_session_token() {
            Ok(token) => Some(start_session(sessions, token, id)),
            Err(_) => None,
        },
        Ok(None) => Some(RequestResult::Failure(RequestError::Auth(AuthError::IncorrectCredentials))),
        Err(_) => None,
    }
}

/// Once a session is started for a token, the token stands for that user and
/// every other token keeps the user it stood for.
pub proof fn lemma_session_lookup(before: Map<Seq<char>, i32>, token: Seq<char>, id: i32, other: Seq<char>)
    requires
        other != token,
    ensures
        before.insert(token, id).contains_key(token),
        before.insert(token, id)[token] == id,
        before.insert(token, id).contains_key(other) == before.contains_key(other),
        before.contains_key(other) ==> before.insert(token, id)[other] == before[other],
{
}

/// Ids for connecting clients, handed out in increasing order from 1.
pub struct ClientIds {
    next: i32,
}

impl ClientIds {
    #[verifier::type_invariant]
    closed spec fn inv(self) -> bool {
        self.next >= 1
    }

    /// The id the next client gets.
    pub closed spec fn next_id(&self) -> i32 {
        self.next
    }

    /// A fresh allocator; the first client gets id 1.
    pub fn new() -> (ids: Self)
        ensures
            ids.next_id() == 1,
    {
        ClientIds { next: 1 }
    }

    /// Whether another id can be handed out without overflowing.
    pub fn has_next(&self) -> (res: bool)
        ensures
            res == (self.next_id() < i32::MAX),
    {
        self.next < i32::MAX
    }

    /// Hands out the next id.
    pub fn allocate(&mut self) -> (id: i32)
        requires
            old(self).next_id() < i32::MAX,
        ensures
            id == old(self).next_id(),
            id >= 1,
            final(self).next_id() == id + 1,
    {
        proof {
            use_type_invariant(&*self);
        }
        let id = self.next;
        self.next = id + 1;
        id
    }
}

} // verus!
