//! A model of the `users` table as the sequence of its rows, and the laws
//! that tie sign-up and log-in across calls: what one call inserts, a later
//! lookup finds.
//!
//! The model covers successful lookups; a lookup can also fail for reasons
//! outside the table (`DbError::Failure`), which no law here speaks of.

use vstd::prelude::*;
use crate::crypto::openssl_len_limit;
use crate::db::models::{DbError, NewUser, User};
use crate::db::queries::{
    credentials_match, is_new_user_record, lemma_signed_up_user_logs_in,
    lemma_wrong_password_refused, password_hash, salt_usable, sign_up_refusal, stored_user,
    SignUpError,
};
use crate::protocol::{AuthError, RequestError};

verus! {

/// Whether some row of `table` has the login `login`.
pub open spec fn has_login(table: Seq<User>, login: Seq<char>) -> bool {
    exists|i: int| 0 <= i < table.len() && table[i].login@ == login
}

/// Whether no two rows of `table` share a login.
pub open spec fn logins_distinct(table: Seq<User>) -> bool {
    forall|i: int, j: int|
        0 <= i < table.len() && 0 <= j < table.len() && i != j ==> table[i].login@ != table[j].login@
}

/// What a successful lookup of `login` in `table` gives: a row with that
/// login, or `NotFound`. The query names no order, so where several rows
/// share the login it may give any of them.
pub open spec fn lookup_login(table: Seq<User>, login: Seq<char>) -> Result<User, DbError> {
    if has_login(table, login) {
        Ok(table[choose|i: int| 0 <= i < table.len() && table[i].login@ == login])
    } else {
        Err(DbError::NotFound)
    }
}

/// With distinct logins, the row at `i` is what a lookup of its login gives.
proof fn lemma_lookup_row(table: Seq<User>, i: int)
    requires
        logins_distinct(table),
        0 <= i < table.len(),
    ensures
        lookup_login(table, table[i].login@) == Ok::<User, DbError>(table[i]),
{
    let login = table[i].login@;
    assert(has_login(table, login));
    let j = choose|j: int| 0 <= j < table.len() && table[j].login@ == login;
    assert(j == i);
}

/// A sign-up that goes ahead keeps the logins of the table distinct once its
/// row is inserted.
pub proof fn lemma_sign_up_keeps_logins_distinct(table: Seq<User>, u: NewUser, id: i32)
    requires
        logins_distinct(table),
        sign_up_refusal(lookup_login(table, u.login@)) is None,
    ensures
        logins_distinct(table.push(stored_user(u, id))),
{
    let t2 = table.push(stored_user(u, id));
    assert forall|i: int, j: int|
        0 <= i < t2.len() && 0 <= j < t2.len() && i != j implies t2[i].login@ != t2[j].login@ by {
        if i < table.len() && j < table.len() {
        } else if i < table.len() {
            assert(table[i] == t2[i]);
        } else {
            assert(table[j] == t2[j]);
        }
    }
}

/// Once a sign-up's row is inserted, a lookup of its login finds that row,
/// and another sign-up with that login, whatever its password, is refused
/// with `AlreadySignedUp`.
pub proof fn lemma_signed_up_login_is_taken(table: Seq<User>, u: NewUser, id: i32)
    requires
        logins_distinct(table),
        sign_up_refusal(lookup_login(table, u.login@)) is None,
    ensures
        lookup_login(table.push(stored_user(u, id)), u.login@) == Ok::<User, DbError>(
            stored_user(u, id),
        ),
        sign_up_refusal(lookup_login(table.push(stored_user(u, id)), u.login@)) == Some(
            SignUpError::Request(RequestError::Auth(AuthError::AlreadySignedUp)),
        ),
{
    lemma_sign_up_keeps_logins_distinct(table, u, id);
    let t2 = table.push(stored_user(u, id));
    lemma_lookup_row(t2, table.len() as int);
}

/// A login that is taken stays taken, with the same row, however many rows
/// are inserted after it (while logins stay distinct).
pub proof fn lemma_lookup_survives_inserts(table: Seq<User>, more: Seq<User>, login: Seq<char>)
    requires
        logins_distinct(table + more),
        has_login(table, login),
    ensures
        has_login(table + more, login),
        lookup_login(table + more, login) == lookup_login(table, login),
{
    let t2 = table + more;
    let i = choose|i: int| 0 <= i < table.len() && table[i].login@ == login;
    assert(t2[i] == table[i]);
    assert(logins_distinct(table)) by {
        assert forall|a: int, b: int|
            0 <= a < table.len() && 0 <= b < table.len() && a != b implies table[a].login@
            != table[b].login@ by {
            assert(t2[a] == table[a] && t2[b] == table[b]);
        }
    }
    lemma_lookup_row(t2, i);
    lemma_lookup_row(table, i);
}

/// A lookup depends only on the rows with the looked-up login: two tables
/// with distinct logins that hold the same rows with that login give the
/// same lookup.
pub proof fn lemma_lookup_depends_on_login_rows(t1: Seq<User>, t2: Seq<User>, login: Seq<char>)
    requires
        logins_distinct(t1),
        logins_distinct(t2),
        forall|u: User| u.login@ == login ==> (t1.contains(u) <==> t2.contains(u)),
    ensures
        lookup_login(t1, login) == lookup_login(t2, login),
{
    if has_login(t1, login) {
        let i = choose|i: int| 0 <= i < t1.len() && t1[i].login@ == login;
        assert(t1.contains(t1[i]));
        assert(t2.contains(t1[i]));
        let j = choose|j: int| 0 <= j < t2.len() && t2[j] == t1[i];
        lemma_lookup_row(t1, i);
        lemma_lookup_row(t2, j);
    } else if has_login(t2, login) {
        let j = choose|j: int| 0 <= j < t2.len() && t2[j].login@ == login;
        assert(t2.contains(t2[j]));
        assert(t1.contains(t2[j]));
        let i = choose|i: int| 0 <= i < t1.len() && t1[i] == t2[j];
        assert(has_login(t1, login));
    }
}

/// Sign-up then log-in: once the row that signs up `login` with `password`
/// is inserted, a lookup of `login` finds it, its salt can be used, the same
/// password matches it, and a password that derives another key under its
/// salt does not.
pub proof fn lemma_sign_up_then_log_in(
    table: Seq<User>,
    u: NewUser,
    id: i32,
    login: Seq<char>,
    password: Seq<char>,
    salt: Seq<u8>,
    other: Seq<char>,
)
    requires
        logins_distinct(table),
        sign_up_refusal(lookup_login(table, login)) is None,
        is_new_user_record(u, login, password, salt),
        salt.len() <= openssl_len_limit(),
    ensures
        lookup_login(table.push(stored_user(u, id)), login) == Ok::<User, DbError>(
            stored_user(u, id),
        ),
        salt_usable(stored_user(u, id)),
        credentials_match(stored_user(u, id), password),
        password_hash(other, salt) != password_hash(password, salt) ==> !credentials_match(
            stored_user(u, id),
            other,
        ),
{
    lemma_signed_up_login_is_taken(table, u, id);
    lemma_signed_up_user_logs_in(u, id, login, password, salt);
    if password_hash(other, salt) != password_hash(password, salt) {
        lemma_wrong_password_refused(u, id, login, password, salt, other);
    }
}

} // verus!
