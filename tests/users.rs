use console::credentials::{verify_password, verify_token_at};
use console::error::{SBError, StoreFault};
use console::identity::AuthorizedUser;
use console::ids::ObjectKey;
use console::users::{
    authenticate_at, begin_create, finish_update, finish_create, finish_get, finish_insert,
    may_act_on_user, parse_user_id, plan_update, strip_hashes, UpdateUser, User,
};

const SECRET: &str = "directory secret";
const ALICE_ID: &str = "64b7f0c2a1b2c3d4e5f60718";

fn alice() -> User {
    User {
        id: None,
        username: "alice".to_string(),
        password: Some("secret123".to_string()),
        first_name: "Alice".to_string(),
        last_name: "Liddell".to_string(),
        email: "a@x.com".to_string(),
    }
}

fn client_message(e: SBError) -> String {
    match e {
        SBError::ServiceError { message, .. } => message,
        _ => panic!("expected a client-class failure"),
    }
}

fn internal_message(e: SBError) -> String {
    match e {
        SBError::InternalServiceError { message, .. } => message,
        _ => panic!("expected an internal failure"),
    }
}

#[test]
fn signup_login_and_lookup() {
    let user = alice();
    begin_create(&user).unwrap();
    let mut stored = finish_create(&user, Ok(false), Ok(false)).unwrap();
    assert_eq!(stored.username, "alice");
    assert_eq!(stored.email, "a@x.com");
    let hash = stored.password.clone().unwrap();
    assert_ne!(hash, "secret123");
    assert!(verify_password("secret123", &hash).unwrap());

    let key = ObjectKey::parse(ALICE_ID).unwrap();
    let created = finish_insert(Ok(key)).unwrap();
    assert_eq!(created._id, ALICE_ID);
    stored.id = Some(key);

    let now = 1_700_000_000u64;
    let token = authenticate_at(Ok(Some(stored.clone())), "secret123", SECRET, now).unwrap();
    let claims = verify_token_at(&token, SECRET, now + 60).unwrap();
    assert_eq!(claims.sub, ALICE_ID);
    assert_eq!(claims.exp, now + 172800);

    let id = parse_user_id(&claims.sub).unwrap();
    assert_eq!(id.bytes, key.bytes);
    let fetched = finish_get(Ok(Some(stored))).unwrap();
    assert_eq!(fetched.username, "alice");
    assert_eq!(fetched.first_name, "Alice");
    assert_eq!(fetched.last_name, "Liddell");
    assert_eq!(fetched.email, "a@x.com");
    assert!(fetched.password.is_none());
    assert_eq!(fetched.id.unwrap().to_hex(), ALICE_ID);
}

#[test]
fn a_username_in_use_is_a_duplicate_and_nothing_is_stored() {
    let e = finish_create(&alice(), Ok(true), Ok(false)).unwrap_err();
    assert!(e.is_client_error());
    assert_eq!(client_message(e), "Username already in use.");
}

#[test]
fn an_email_in_use_is_a_duplicate() {
    let e = finish_create(&alice(), Ok(false), Ok(true)).unwrap_err();
    assert_eq!(client_message(e), "Email already in use.");
    let e = finish_create(&alice(), Ok(true), Ok(true)).unwrap_err();
    assert_eq!(client_message(e), "Email already in use.");
}

#[test]
fn a_uniqueness_violation_on_insert_is_a_duplicate() {
    let e = finish_insert(Err(StoreFault::DuplicateKey)).unwrap_err();
    assert_eq!(client_message(e), "Username or email already in use.");
    let e = finish_insert(Err(StoreFault::Unavailable)).unwrap_err();
    assert_eq!(internal_message(e), "Could not create user.");
}

#[test]
fn signup_without_password_is_refused() {
    let mut u = alice();
    u.password = None;
    assert_eq!(client_message(begin_create(&u).unwrap_err()), "No password provided");
    assert_eq!(client_message(finish_create(&u, Ok(false), Ok(false)).unwrap_err()), "No password provided");
}

#[test]
fn a_failed_existence_query_is_internal() {
    let e = finish_create(&alice(), Err(StoreFault::Unavailable), Ok(false)).unwrap_err();
    assert_eq!(internal_message(e), "Could not query users.");
}

#[test]
fn login_failures_are_classified() {
    let now = 1000u64;
    assert_eq!(
        internal_message(authenticate_at(Err(StoreFault::Unavailable), "pw", SECRET, now).unwrap_err()),
        "Could not query users."
    );
    assert_eq!(client_message(authenticate_at(Ok(None), "pw", SECRET, now).unwrap_err()), "No user found");
    let mut u = alice();
    u.password = None;
    assert_eq!(
        client_message(authenticate_at(Ok(Some(u)), "pw", SECRET, now).unwrap_err()),
        "Passwordless user."
    );
    let mut stored = finish_create(&alice(), Ok(false), Ok(false)).unwrap();
    stored.id = ObjectKey::parse(ALICE_ID);
    assert_eq!(
        client_message(authenticate_at(Ok(Some(stored.clone())), "wrong", SECRET, now).unwrap_err()),
        "Authentication failed."
    );
    let mut corrupt = stored.clone();
    corrupt.password = Some("plain text".to_string());
    assert_eq!(
        internal_message(authenticate_at(Ok(Some(corrupt)), "secret123", SECRET, now).unwrap_err()),
        "Corrupt stored credential."
    );
    let token = authenticate_at(Ok(Some(stored)), "secret123", SECRET, now).unwrap();
    assert_eq!(verify_token_at(&token, SECRET, now).unwrap().sub, ALICE_ID);
}

#[test]
fn a_lookup_of_a_missing_user_is_not_found() {
    assert_eq!(client_message(finish_get(Ok(None)).unwrap_err()), "No user found");
    assert_eq!(internal_message(finish_get(Err(StoreFault::Unavailable)).unwrap_err()), "Could not query users.");
}

#[test]
fn a_malformed_user_id_is_refused() {
    assert_eq!(client_message(parse_user_id("nope").unwrap_err()), "Invalid identifier.");
    assert!(parse_user_id("64B7F0C2A1B2C3D4E5F60718").is_ok());
    assert!(parse_user_id("64b7f0c2a1b2c3d4e5f6071g").is_err());
}

#[test]
fn a_listing_never_holds_hashes() {
    let stored = finish_create(&alice(), Ok(false), Ok(false)).unwrap();
    let listed = strip_hashes(&vec![stored.clone(), stored]);
    assert_eq!(listed.len(), 2);
    assert!(listed.iter().all(|u| u.password.is_none() && u.username == "alice"));
}

#[test]
fn a_profile_update_changes_only_the_fields_given() {
    let u = UpdateUser { username: None, email: Some("b@x.com".to_string()), first_name: Some("B".to_string()), last_name: None };
    assert_eq!(u.changes(), vec![("email".to_string(), "b@x.com".to_string())]);
    let both = UpdateUser { username: Some("bob".to_string()), email: Some("b@x.com".to_string()), first_name: None, last_name: None };
    assert_eq!(
        both.changes(),
        vec![("email".to_string(), "b@x.com".to_string()), ("username".to_string(), "bob".to_string())]
    );
    let none = UpdateUser { username: None, email: None, first_name: None, last_name: None };
    assert!(none.changes().is_empty());
}

#[test]
fn validation_of_usernames_and_emails() {
    assert!(alice().validate());
    let mut u = alice();
    u.username = "al".to_string();
    assert!(!u.validate());
    let mut u = alice();
    u.email = "not an email".to_string();
    assert!(!u.validate());
    let up = UpdateUser { username: Some("ab".to_string()), email: None, first_name: None, last_name: None };
    assert!(!up.validate());
    let up = UpdateUser { username: None, email: Some("c@y.org".to_string()), first_name: None, last_name: None };
    assert!(up.validate());
}

#[test]
fn a_user_acts_only_on_their_own_record() {
    let me = AuthorizedUser { token: "t".to_string(), sub: ALICE_ID.to_string() };
    assert!(may_act_on_user(&me, ALICE_ID));
    assert!(!may_act_on_user(&me, "64b7f0c2a1b2c3d4e5f60719"));
}

#[test]
fn signup_with_a_short_username_or_a_bad_email_is_refused() {
    let mut u = alice();
    u.username = "al".to_string();
    assert_eq!(client_message(begin_create(&u).unwrap_err()), "Invalid username or email.");
    assert_eq!(client_message(finish_create(&u, Ok(false), Ok(false)).unwrap_err()), "Invalid username or email.");
    let mut u = alice();
    u.email = "not an email".to_string();
    assert_eq!(client_message(begin_create(&u).unwrap_err()), "Invalid username or email.");
    assert_eq!(client_message(finish_create(&u, Ok(false), Ok(false)).unwrap_err()), "Invalid username or email.");
}

#[test]
fn the_record_to_store_leaves_the_id_to_storage() {
    let mut u = alice();
    u.id = ObjectKey::parse(ALICE_ID);
    let rec = finish_create(&u, Ok(false), Ok(false)).unwrap();
    assert!(rec.id.is_none());
    assert_eq!(rec.username, "alice");
    assert!(verify_password("secret123", rec.password.as_ref().unwrap()).unwrap());
}

#[test]
fn a_matching_password_always_gives_a_token_without_spaces() {
    let mut stored = finish_create(&alice(), Ok(false), Ok(false)).unwrap();
    stored.id = ObjectKey::parse(ALICE_ID);
    let t = authenticate_at(Ok(Some(stored.clone())), "secret123", SECRET, 0).unwrap();
    assert!(!t.contains(' '));
    assert_eq!(t.split('.').count(), 3);
    let e = authenticate_at(Ok(Some(stored)), "secret123", SECRET, u64::MAX - 5).unwrap_err();
    assert_eq!(internal_message(e), "Clock out of range.");
}

#[test]
fn a_profile_update_is_planned_only_for_valid_input() {
    let up = UpdateUser { username: Some("bobby".to_string()), email: None, first_name: None, last_name: None };
    let (key, changes) = plan_update(ALICE_ID, &up).unwrap();
    assert_eq!(key.to_hex(), ALICE_ID);
    assert_eq!(changes, vec![("username".to_string(), "bobby".to_string())]);
    assert_eq!(client_message(plan_update("x", &up).unwrap_err()), "Invalid identifier.");
    let bad = UpdateUser { username: None, email: Some("nope".to_string()), first_name: None, last_name: None };
    assert_eq!(client_message(plan_update(ALICE_ID, &bad).unwrap_err()), "Invalid username or email.");
}

#[test]
fn an_update_of_a_missing_user_is_not_found() {
    assert!(finish_update(Ok(true)).is_ok());
    assert_eq!(client_message(finish_update(Ok(false)).unwrap_err()), "User not found.");
    assert_eq!(internal_message(finish_update(Err(StoreFault::Unavailable)).unwrap_err()), "Failure updating user.");
}
