use qpager::db::connection::{generate_session_token, session_token_from_bytes};
use qpager::db::models::{Chat, DbError, NewUser, User};
use qpager::db::queries::{
    check_password, is_signed_up, new_user_with_salt, sign_up, verify_user_credentials,
    SignUpError, VerifyError, HASH_ITERATIONS, HASH_LEN, SALT_LEN,
};
use qpager::hex_codec::HexError;
use qpager::protocol::{AuthError, Method, Params, Request, RequestError, RequestResult, Responce};
use qpager::server::{log_in_reply, sign_up_reply, start_session, ClientIds, SessionTokens};
use qpager::str_map::StrMap;

fn params(pairs: &[(&str, &str)]) -> Params {
    let mut p = Params::new();
    for (k, v) in pairs {
        p.insert(k.to_string(), v.to_string());
    }
    p
}

fn stored(id: i32, u: &NewUser) -> User {
    User { id, login: u.login.clone(), password: u.password.clone(), salt: u.salt.clone() }
}

fn expected_key(password: &str, salt: &[u8]) -> String {
    let mut key = vec![0u8; HASH_LEN];
    openssl::pkcs5::pbkdf2_hmac(
        password.as_bytes(),
        salt,
        HASH_ITERATIONS,
        openssl::hash::MessageDigest::sha256(),
        &mut key,
    )
    .unwrap();
    let mut s = String::new();
    for b in key {
        s.push_str(&format!("{:02x}", b));
    }
    s
}

fn is_lower_hex(s: &str) -> bool {
    s.chars().all(|c| c.is_ascii_digit() || ('a'..='f').contains(&c))
}

#[test]
fn str_map_insert_get_replace() {
    let mut m: StrMap<i32> = StrMap::new();
    assert_eq!(m.len(), 0);
    assert_eq!(m.get("a"), None);
    m.insert("a".to_string(), 1);
    m.insert("b".to_string(), 2);
    assert_eq!(m.get("a"), Some(&1));
    assert_eq!(m.get("b"), Some(&2));
    m.insert("a".to_string(), 3);
    assert_eq!(m.get("a"), Some(&3));
    assert_eq!(m.len(), 2);
    assert!(m.contains_key("b"));
    assert!(!m.contains_key("c"));
    let (k, v) = m.entry(1);
    assert_eq!(k, "b");
    assert_eq!(*v, 2);
}

#[test]
fn is_signed_up_maps_lookups() {
    let user = User { id: 1, login: "alex".into(), password: "p".into(), salt: "s".into() };
    assert!(matches!(is_signed_up(Ok(user)), Ok(true)));
    assert!(matches!(is_signed_up(Err(DbError::NotFound)), Ok(false)));
    assert!(matches!(
        is_signed_up(Err(DbError::Failure("down".into()))),
        Err(DbError::Failure(m)) if m == "down"
    ));
}

#[test]
fn sign_up_refuses_taken_login() {
    let p = params(&[("login", "alex"), ("password", "qwerty")]);
    let user = User { id: 1, login: "alex".into(), password: "p".into(), salt: "s".into() };
    assert!(matches!(
        sign_up(&p, Ok(user)),
        Err(SignUpError::Request(RequestError::Auth(AuthError::AlreadySignedUp)))
    ));
}

#[test]
fn sign_up_refused_login_needs_no_password() {
    let p = params(&[("login", "alex")]);
    let user = User { id: 1, login: "alex".into(), password: "p".into(), salt: "s".into() };
    assert!(matches!(sign_up(&p, Ok(user)), Err(SignUpError::Request(_))));
}

#[test]
fn sign_up_passes_on_lookup_failure() {
    let p = params(&[("login", "alex"), ("password", "qwerty")]);
    assert!(matches!(
        sign_up(&p, Err(DbError::Failure("broken".into()))),
        Err(SignUpError::Database(DbError::Failure(m))) if m == "broken"
    ));
}

#[test]
fn sign_up_builds_row_then_log_in_succeeds() {
    let p = params(&[("login", "alex"), ("password", "qwerty")]);
    let row = match sign_up(&p, Err(DbError::NotFound)) {
        Ok(row) => row,
        Err(e) => panic!("sign-up failed: {:?}", e),
    };
    assert_eq!(row.login, "alex");
    assert_eq!(row.salt.len(), 2 * SALT_LEN);
    assert!(is_lower_hex(&row.salt));
    assert_eq!(row.password.len(), 2 * HASH_LEN);
    assert!(is_lower_hex(&row.password));
    let salt = stored(7, &row).decode_salt().unwrap();
    assert_eq!(salt.len(), SALT_LEN);
    assert_eq!(row.password, expected_key("qwerty", &salt));

    let login = params(&[("login", "alex"), ("password", "qwerty")]);
    assert!(matches!(verify_user_credentials(&login, Ok(stored(7, &row))), Ok(Some(7))));
    let wrong = params(&[("login", "alex"), ("password", "qwertz")]);
    assert!(matches!(verify_user_credentials(&wrong, Ok(stored(7, &row))), Ok(None)));
}

#[test]
fn two_sign_ups_draw_different_salts() {
    let p = params(&[("login", "alex"), ("password", "qwerty")]);
    let a = sign_up(&p, Err(DbError::NotFound)).unwrap();
    let b = sign_up(&p, Err(DbError::NotFound)).unwrap();
    assert_ne!(a.salt, b.salt);
    assert_ne!(a.password, b.password);
}

#[test]
fn new_user_with_salt_exact_columns() {
    let salt: Vec<u8> = vec![0x00, 0x01, 0x0a, 0xff, 0x7f];
    let u = new_user_with_salt("bob", "secret", &salt).unwrap();
    assert_eq!(u.login, "bob");
    assert_eq!(u.salt, "00010aff7f");
    assert_eq!(u.password, expected_key("secret", &salt));
    assert_ne!(u.password, expected_key("secret2", &salt));
}

#[test]
fn new_user_with_empty_password_and_salt() {
    let u = new_user_with_salt("", "", &[]).unwrap();
    assert_eq!(u.login, "");
    assert_eq!(u.salt, "");
    assert_eq!(u.password, expected_key("", &[]));
}

#[test]
fn new_user_with_non_ascii_password() {
    let salt = [1u8, 2, 3];
    let u = new_user_with_salt("kira", "пароль", &salt).unwrap();
    assert_eq!(u.password, expected_key("пароль", &salt));
    let user = stored(3, &u);
    let p = params(&[("login", "kira"), ("password", "пароль")]);
    assert!(matches!(verify_user_credentials(&p, Ok(user)), Ok(Some(3))));
}

#[test]
fn verify_accepts_uppercase_salt_column() {
    let salt = [0xabu8, 0xcd];
    let u = new_user_with_salt("eve", "pw", &salt).unwrap();
    let user = User { id: 9, login: "eve".into(), password: u.password.clone(), salt: "ABCD".into() };
    let p = params(&[("login", "eve"), ("password", "pw")]);
    assert!(matches!(verify_user_credentials(&p, Ok(user)), Ok(Some(9))));
}

#[test]
fn verify_passes_on_missing_user() {
    let p = params(&[("login", "nobody"), ("password", "pw")]);
    assert!(matches!(
        verify_user_credentials(&p, Err(DbError::NotFound)),
        Err(VerifyError::Database(DbError::NotFound))
    ));
    assert!(matches!(
        verify_user_credentials(&p, Err(DbError::Failure("x".into()))),
        Err(VerifyError::Database(DbError::Failure(_)))
    ));
}

#[test]
fn check_password_compares_hex_of_key() {
    let user = User { id: 4, login: "a".into(), password: "00ff10".into(), salt: "".into() };
    assert_eq!(check_password(&user, &[0x00, 0xff, 0x10]), Some(4));
    assert_eq!(check_password(&user, &[0x00, 0xff, 0x11]), None);
    assert_eq!(check_password(&user, &[]), None);
    let upper = User { id: 4, login: "a".into(), password: "00FF10".into(), salt: "".into() };
    assert_eq!(check_password(&upper, &[0x00, 0xff, 0x10]), None);
}

#[test]
fn decode_salt_errors() {
    let mk = |salt: &str| User { id: 1, login: "a".into(), password: "".into(), salt: salt.into() };
    assert_eq!(mk("abc").decode_salt(), Err(HexError::OddLength));
    assert_eq!(mk("0z").decode_salt(), Err(HexError::InvalidHexCharacter { c: 'z', index: 1 }));
    assert_eq!(mk("zz1").decode_salt(), Err(HexError::OddLength));
    assert_eq!(mk("x0y0").decode_salt(), Err(HexError::InvalidHexCharacter { c: 'x', index: 0 }));
    assert_eq!(mk("é").decode_salt(), Err(HexError::InvalidHexCharacter { c: '\u{c3}', index: 0 }));
    assert_eq!(mk("").decode_salt(), Ok(vec![]));
    assert_eq!(mk("AfFa09").decode_salt(), Ok(vec![0xaf, 0xfa, 0x09]));
}

#[test]
fn hex_error_invalid_string_length_is_a_distinct_variant() {
    assert_ne!(HexError::InvalidStringLength, HexError::OddLength);
}

#[test]
fn session_token_is_64_lowercase_hex() {
    let a = generate_session_token().unwrap();
    let b = generate_session_token().unwrap();
    assert_eq!(a.len(), 64);
    assert!(is_lower_hex(&a));
    assert_ne!(a, b);
}

#[test]
fn sign_up_reply_cases() {
    match sign_up_reply(Ok(())) {
        Some(RequestResult::Success(p)) => assert_eq!(p.len(), 0),
        _ => panic!("expected success"),
    }
    assert!(matches!(
        sign_up_reply(Err(SignUpError::Request(RequestError::Auth(AuthError::AlreadySignedUp)))),
        Some(RequestResult::Failure(RequestError::Auth(AuthError::AlreadySignedUp)))
    ));
    assert!(sign_up_reply(Err(SignUpError::Database(DbError::NotFound))).is_none());
}

#[test]
fn log_in_reply_cases() {
    let mut sessions = SessionTokens::new();
    match log_in_reply(&mut sessions, Ok(Some(5))) {
        Some(RequestResult::Success(p)) => {
            assert_eq!(p.len(), 1);
            let token = p.get("session_token").unwrap().clone();
            assert_eq!(token.len(), 64);
            assert_eq!(sessions.get(&token), Some(&5));
            assert_eq!(sessions.len(), 1);
        }
        _ => panic!("expected a session"),
    }
    assert!(matches!(
        log_in_reply(&mut sessions, Ok(None)),
        Some(RequestResult::Failure(RequestError::Auth(AuthError::IncorrectCredentials)))
    ));
    assert!(log_in_reply(&mut sessions, Err(VerifyError::Database(DbError::NotFound))).is_none());
    assert_eq!(sessions.len(), 1);
}

#[test]
fn start_session_records_and_replaces() {
    let mut sessions = SessionTokens::new();
    let r = start_session(&mut sessions, "tok".to_string(), 1);
    match r {
        RequestResult::Success(p) => assert_eq!(p.get("session_token"), Some(&"tok".to_string())),
        _ => panic!("expected success"),
    }
    start_session(&mut sessions, "other".to_string(), 2);
    start_session(&mut sessions, "tok".to_string(), 3);
    assert_eq!(sessions.get("tok"), Some(&3));
    assert_eq!(sessions.get("other"), Some(&2));
    assert_eq!(sessions.len(), 2);
}

#[test]
fn client_ids_count_up_from_one() {
    let mut ids = ClientIds::new();
    assert!(ids.has_next());
    assert_eq!(ids.allocate(), 1);
    assert_eq!(ids.allocate(), 2);
    assert_eq!(ids.allocate(), 3);
}

#[test]
fn protocol_values() {
    let r = Request { method: Method::LogIn, params: params(&[("login", "a")]) };
    assert_eq!(r.method, Method::LogIn);
    assert_ne!(Method::SignUp, Method::LogIn);
    let resp = Responce { result: true, params: Params::new() };
    assert!(resp.result);
    let chat = Chat { id: 2, name: "general".into() };
    assert_eq!(chat.name, "general");
}

#[test]
fn session_token_from_bytes_is_hex() {
    assert_eq!(session_token_from_bytes(&[0xde, 0xad, 0x00, 0x0f]), "dead000f");
    assert_eq!(session_token_from_bytes(&[]), "");
    assert_eq!(session_token_from_bytes(&[0u8; 32]), "0".repeat(64));
}

#[test]
fn str_map_entries_follow_insertion_order() {
    let mut m: StrMap<i32> = StrMap::new();
    m.insert("z".to_string(), 1);
    m.insert("a".to_string(), 2);
    m.insert("m".to_string(), 3);
    m.insert("z".to_string(), 4);
    let keys: Vec<String> = (0..m.len()).map(|i| m.entry(i).0.clone()).collect();
    assert_eq!(keys, vec!["z", "a", "m"]);
    assert_eq!(*m.entry(0).1, 4);
}

#[test]
fn zero_salt_row_has_512_char_password() {
    let u = new_user_with_salt("alex", "qwerty", &[0u8; 32]).unwrap();
    assert_eq!(u.salt, "0".repeat(64));
    assert_eq!(u.password.len(), 512);
    assert_eq!(u.password, expected_key("qwerty", &[0u8; 32]));
    let v = new_user_with_salt("alex", "a much longer password than six", &[0u8; 32]).unwrap();
    assert_eq!(v.password.len(), 512);
}
